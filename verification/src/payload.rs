use vstd::prelude::*;
use base64::Engine;

verus! {

/// The payload is the part of the input after the last `,` (byte 44); input
/// without a separator is all payload.  Callers may thus prefix a
/// data-URI-style header, which is discarded before decoding.
pub open spec fn payload_of(s: Seq<u8>) -> Seq<u8>
    decreases s.len(),
{
    if s.len() == 0 {
        s
    } else if s[s.len() - 1] == 44u8 {
        Seq::empty()
    } else {
        payload_of(s.drop_last()).push(s[s.len() - 1])
    }
}

/// `payload_of` is exactly the suffix that starts right after the last
/// separator byte.
proof fn lemma_payload_is_suffix(s: Seq<u8>, cut: int)
    requires
        0 <= cut <= s.len(),
        forall|i: int| cut <= i < s.len() ==> s[i] != 44u8,
        cut > 0 ==> s[cut - 1] == 44u8,
    ensures
        payload_of(s) == s.subrange(cut, s.len() as int),
    decreases s.len(),
{
    if cut == s.len() {
        assert(payload_of(s) =~= s.subrange(cut, s.len() as int));
    } else {
        lemma_payload_is_suffix(s.drop_last(), cut);
        assert(payload_of(s) =~= s.subrange(cut, s.len() as int));
    }
}

/// Discard everything up to and including the last `,`; the rest is the
/// payload to decode.
pub fn strip_payload_prefix(data: &Vec<u8>) -> (r: Vec<u8>)
    ensures
        r@ == payload_of(data@),
{
    let mut cut: usize = 0;
    let mut i: usize = 0;
    while i < data.len()
        invariant
            i <= data@.len(),
            cut <= i,
            cut > 0 ==> data@[cut - 1] == 44u8,
            forall|j: int| cut <= j < i ==> data@[j] != 44u8,
        decreases data@.len() - i,
    {
        if data[i] == 44u8 {
            cut = i + 1;
        }
        i = i + 1;
    }
    let mut out: Vec<u8> = Vec::new();
    let mut j: usize = cut;
    while j < data.len()
        invariant
            cut <= j <= data@.len(),
            cut > 0 ==> data@[cut - 1] == 44u8,
            forall|k: int| cut <= k < data@.len() ==> data@[k] != 44u8,
            out@ == data@.subrange(cut as int, j as int),
        decreases data@.len() - j,
    {
        out.push(data[j]);
        j = j + 1;
        proof {
            assert(out@ =~= data@.subrange(cut as int, j as int));
        }
    }
    proof {
        lemma_payload_is_suffix(data@, cut as int);
    }
    out
}

/// What the standard-alphabet base64 decode returns for a byte string:
/// either the bytes the string encodes, or nothing when the string is not
/// valid base64.  The result is a function of the input alone.
pub uninterp spec fn base64_decoded(s: Seq<u8>) -> Option<Seq<u8>>;

/// Relies on `base64::engine::general_purpose::STANDARD`'s `decode`: it
/// returns the decoded bytes exactly when the input is valid standard
/// base64, deterministically in the input alone.
#[verifier::external_body]
pub(crate) fn decode_base64(input: &Vec<u8>) -> (r: Option<Vec<u8>>)
    ensures
        r is Some <==> base64_decoded(input@) is Some,
        r matches Some(v) ==> (base64_decoded(input@) matches Some(b) && v@ == b),
{
    base64::engine::general_purpose::STANDARD.decode(input.as_slice()).ok()
}

} // verus!
