//! Values given as text on the command line.

use vstd::prelude::*;
use vstd::string::StringExecFns;

verus! {

/// The upper-case form of a text, as `str::to_uppercase` of the standard
/// library gives it.
pub uninterp spec fn uppercase(text: Seq<char>) -> Seq<char>;

/// The parts of a text between its runs of white space, from the first to
/// the last, as `str::split_whitespace` of the standard library gives them.
pub uninterp spec fn whitespace_fields(text: Seq<char>) -> Seq<Seq<char>>;

/// The texts that the strings hold.
pub open spec fn texts(strings: Seq<String>) -> Seq<Seq<char>> {
    strings.map_values(|string: String| string@)
}

/// Calls `str::to_uppercase`. Its result is a function of the text alone,
/// fixed by the Unicode tables of the standard library; the contract gives it
/// the name [`uppercase`] and says nothing else of it.
#[verifier::external_body]
pub(crate) fn to_uppercase(value: &str) -> (upper: String)
    ensures
        upper@ == uppercase(value@),
{
    value.to_uppercase()
}

/// Calls `str::split_whitespace` and copies each part into a string of its
/// own. The parts are a function of the text alone; the contract gives them
/// the name [`whitespace_fields`] and says nothing else of them.
#[verifier::external_body]
pub(crate) fn split_whitespace(text: &str) -> (fields: Vec<String>)
    ensures
        texts(fields@) == whitespace_fields(text@),
{
    text.split_whitespace().map(|field| field.to_string()).collect()
}

/// Whether two texts are the same.
pub fn same_text(left: &str, right: &str) -> (answer: bool)
    ensures
        answer == (left@ == right@),
{
    let left = String::from_str(left);
    let right = String::from_str(right);
    left == right
}

/// The truth value that an upper-case text names, if it names one.
pub open spec fn boolean_named(upper: Seq<char>) -> Option<bool> {
    if upper == "TRUE"@ {
        Some(true)
    } else if upper == "FALSE"@ {
        Some(false)
    } else {
        None
    }
}

/// The complaint about an upper-case text that names no truth value.
pub open spec fn boolean_complaint(upper: Seq<char>) -> Seq<char> {
    "expected 'TRUE' or 'FALSE', but got '"@ + upper + "'"@
}

/// Reads a truth value from a text that is already in upper case: `TRUE` or
/// `FALSE`. Any other text is answered with a complaint that quotes it.
pub fn boolean_from_upper(upper: &str) -> (parsed: Result<bool, String>)
    ensures
        match parsed {
            Ok(value) => boolean_named(upper@) == Some(value),
            Err(complaint) => boolean_named(upper@) is None && complaint@ == boolean_complaint(
                upper@,
            ),
        },
{
    if same_text(upper, "TRUE") {
        Ok(true)
    } else if same_text(upper, "FALSE") {
        Ok(false)
    } else {
        let complaint = String::from_str("expected 'TRUE' or 'FALSE', but got '");
        Err(complaint.concat(upper).concat("'"))
    }
}

/// Reads a truth value from a text, in any mix of upper and lower case.
pub fn parse_boolean(value: &str) -> (parsed: Result<bool, String>)
    ensures
        match parsed {
            Ok(flag) => boolean_named(uppercase(value@)) == Some(flag),
            Err(complaint) => boolean_named(uppercase(value@)) is None && complaint@
                == boolean_complaint(uppercase(value@)),
        },
{
    let upper = to_uppercase(value);
    boolean_from_upper(upper.as_str())
}

} // verus!
