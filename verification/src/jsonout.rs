use vstd::prelude::*;

verus! {

/// What `serde_json` prints for one frame's panel matrix of `[R, G, B]`
/// triples: a function of the value alone.
pub uninterp spec fn json_of_panels(m: Seq<Seq<Seq<Seq<u8>>>>) -> Seq<char>;

/// What `serde_json` prints for a sequence of frames of panel matrices of
/// `[R, G, B]` triples: a function of the value alone.
pub uninterp spec fn json_of_frames(m: Seq<Seq<Seq<Seq<Seq<u8>>>>>) -> Seq<char>;

/// What `serde_json` prints for a sequence of frames of panel matrices of
/// flat cells: a function of the value alone.
pub uninterp spec fn json_of_chunks(m: Seq<Seq<Seq<Seq<u32>>>>) -> Seq<char>;

/// Relies on `serde_json::to_string`: the printed text depends on the value
/// alone, and on nested vectors of integers the call cannot fail — its only
/// error sources are an erroring `Serialize` impl and a map with non-string
/// keys, and these types have neither.
#[verifier::external_body]
pub(crate) fn panels_to_json(m: &Vec<Vec<Vec<Vec<u8>>>>) -> (r: Option<String>)
    ensures
        r is Some,
        r matches Some(s) ==> s@ == json_of_panels(m.deep_view()),
{
    serde_json::to_string(m).ok()
}

/// Relies on `serde_json::to_string`: the printed text depends on the value
/// alone, and on nested vectors of integers the call cannot fail — its only
/// error sources are an erroring `Serialize` impl and a map with non-string
/// keys, and these types have neither.
#[verifier::external_body]
pub(crate) fn frames_to_json(m: &Vec<Vec<Vec<Vec<Vec<u8>>>>>) -> (r: Option<String>)
    ensures
        r is Some,
        r matches Some(s) ==> s@ == json_of_frames(m.deep_view()),
{
    serde_json::to_string(m).ok()
}

/// Relies on `serde_json::to_string`: the printed text depends on the value
/// alone, and on nested vectors of integers the call cannot fail — its only
/// error sources are an erroring `Serialize` impl and a map with non-string
/// keys, and these types have neither.
#[verifier::external_body]
pub(crate) fn chunks_to_json(m: &Vec<Vec<Vec<Vec<u32>>>>) -> (r: Option<String>)
    ensures
        r is Some,
        r matches Some(s) ==> s@ == json_of_chunks(m.deep_view()),
{
    serde_json::to_string(m).ok()
}

} // verus!
