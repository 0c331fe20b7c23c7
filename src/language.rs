//! Three-letter (ISO 639-3) codes for the language tags of a descriptor.

use vstd::prelude::*;

use vstd::string::StringSliceAdditionalSpecFns;

use crate::descriptor::opt_text;

verus! {

/// The three-letter code of the language whose two-letter code is `tag`.
pub uninterp spec fn code3_for_639_1(tag: Seq<char>) -> Option<Seq<char>>;

/// The three-letter code of the language whose three-letter code is `tag`.
pub uninterp spec fn code3_for_639_3(tag: Seq<char>) -> Option<Seq<char>>;

/// Relies on isolang's `Language::from_639_1`, read back through
/// `Language::to_639_3`: a table lookup that depends on the tag alone and
/// finds nothing for a tag that is not two bytes long.
#[verifier::external_body]
fn code3_from_639_1(tag: &str) -> (r: Option<String>)
    ensures
        opt_text(r) == code3_for_639_1(tag@),
        tag.spec_bytes().len() != 2 ==> r is None,
{
    match isolang::Language::from_639_1(tag) {
        Some(lang) => Some(lang.to_639_3().to_string()),
        None => None,
    }
}

/// Relies on isolang's `Language::from_639_3`, read back through
/// `Language::to_639_3`: a table lookup that depends on the tag alone and
/// finds nothing for a tag that is not three bytes long.
#[verifier::external_body]
fn code3_from_639_3(tag: &str) -> (r: Option<String>)
    ensures
        opt_text(r) == code3_for_639_3(tag@),
        tag.spec_bytes().len() != 3 ==> r is None,
{
    match isolang::Language::from_639_3(tag) {
        Some(lang) => Some(lang.to_639_3().to_string()),
        None => None,
    }
}

/// The three-letter code for a tag given as a two-letter or a three-letter code.
pub open spec fn language_code(tag: Seq<char>) -> Option<Seq<char>> {
    match code3_for_639_1(tag) {
        Some(c) => Some(c),
        None => code3_for_639_3(tag),
    }
}

/// The three-letter code of an optional tag.
pub open spec fn track_code(tag: Option<Seq<char>>) -> Option<Seq<char>> {
    match tag {
        Some(t) => language_code(t),
        None => None,
    }
}

/// The three-letter code of an optional tag; `None` for an unknown one.
pub fn three_letter_code(tag: &Option<String>) -> (r: Option<String>)
    ensures
        opt_text(r) == track_code(opt_text(*tag)),
{
    match tag {
        Some(t) => match code3_from_639_1(t.as_str()) {
            Some(c) => Some(c),
            None => code3_from_639_3(t.as_str()),
        },
        None => None,
    }
}

} // verus!
