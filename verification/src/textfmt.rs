use vstd::prelude::*;
use vstd::string::StringExecFns;

verus! {

/// The character for one decimal digit value.
pub open spec fn digit_char(d: nat) -> char {
    if d == 0 {
        '0'
    } else if d == 1 {
        '1'
    } else if d == 2 {
        '2'
    } else if d == 3 {
        '3'
    } else if d == 4 {
        '4'
    } else if d == 5 {
        '5'
    } else if d == 6 {
        '6'
    } else if d == 7 {
        '7'
    } else if d == 8 {
        '8'
    } else {
        '9'
    }
}

/// The decimal numeral of `n`, most significant digit first, no sign and no
/// leading zeros (a single `0` for zero).
pub open spec fn dec_seq(n: nat) -> Seq<char>
    decreases n,
{
    if n < 10 {
        seq![digit_char(n)]
    } else {
        dec_seq(n / 10).push(digit_char(n % 10))
    }
}

/// One decimal digit as text.
fn digit_str(d: usize) -> (r: &'static str)
    requires
        d < 10,
    ensures
        r@ == seq![digit_char(d as nat)],
{
    let s: &'static str = match d {
        0 => "0",
        1 => "1",
        2 => "2",
        3 => "3",
        4 => "4",
        5 => "5",
        6 => "6",
        7 => "7",
        8 => "8",
        _ => "9",
    };
    proof {
        reveal_strlit("0");
        reveal_strlit("1");
        reveal_strlit("2");
        reveal_strlit("3");
        reveal_strlit("4");
        reveal_strlit("5");
        reveal_strlit("6");
        reveal_strlit("7");
        reveal_strlit("8");
        reveal_strlit("9");
        assert(s@ =~= seq![digit_char(d as nat)]);
    }
    s
}

/// The decimal numeral of `n`.
pub fn dec_string(n: usize) -> (r: String)
    ensures
        r@ == dec_seq(n as nat),
    decreases n,
{
    if n < 10 {
        digit_str(n).to_owned()
    } else {
        let mut s = dec_string(n / 10);
        s.append(digit_str(n % 10));
        proof {
            assert(s@ =~= dec_seq(n as nat));
        }
        s
    }
}

/// The count-only response text for an animation of `n` frames.
pub open spec fn count_json(n: nat) -> Seq<char> {
    "{ \"total_frames\": "@ + dec_seq(n) + " }"@
}

/// Render the count-only response for `n` frames.
pub fn count_json_string(n: usize) -> (r: String)
    ensures
        r@ == count_json(n as nat),
{
    let mut s = "{ \"total_frames\": ".to_owned();
    let digits = dec_string(n);
    s.append(digits.as_str());
    s.append(" }");
    proof {
        assert(s@ =~= count_json(n as nat));
    }
    s
}

} // verus!
