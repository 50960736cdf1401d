//! What this library takes from target-lexicon: recognising a triple and
//! rendering it in its canonical form.
use vstd::prelude::*;
use std::str::FromStr;

verus! {

#[verifier::external_type_specification]
#[verifier::external_body]
pub struct ExTriple(target_lexicon::Triple);

#[verifier::external_type_specification]
#[verifier::external_body]
pub struct ExParseError(target_lexicon::ParseError);

/// The canonical text of the triple that target-lexicon reads from `s`, or
/// `None` where it does not recognise `s` as a triple.
pub uninterp spec fn lexicon_canonical(s: Seq<char>) -> Option<Seq<char>>;

/// Relies on `target_lexicon::Triple::from_str`, which decides whether `s` is a
/// triple, and on the `Display` of the `Triple` it returns, which renders it;
/// both depend on the text alone.
#[verifier::external_body]
pub(crate) fn lexicon_parse(s: &str) -> (r: Option<(target_lexicon::Triple, String)>)
    ensures
        r is Some <==> lexicon_canonical(s@) is Some,
        r is Some ==> lexicon_canonical(s@) == Some(r.unwrap().1@),
{
    match target_lexicon::Triple::from_str(s) {
        Ok(triple) => {
            let text = triple.to_string();
            Some((triple, text))
        },
        Err(_) => None,
    }
}

} // verus!
