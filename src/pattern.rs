//! Calls into fancy_regex, serde_json and std's Unicode-aware string functions.
//!
//! Each result that would take pages to state is given a name; the contracts
//! of the library speak of those names.
use vstd::prelude::*;

verus! {

/// What fancy_regex reports for the first match of `pattern` in `text`: one
/// entry per capture group (group 0 is the whole match), `None` for a group
/// that did not take part. `None` overall when the pattern does not compile,
/// when there is no match, or when the matcher gives up.
pub uninterp spec fn regex_captures(pattern: Seq<char>, text: Seq<char>) -> Option<Seq<Option<Seq<char>>>>;

/// The texts of the successive non-overlapping matches of `pattern` in `text`.
pub uninterp spec fn regex_find_all(pattern: Seq<char>, text: Seq<char>) -> Seq<Seq<char>>;

/// `text` with every match of `pattern` replaced by the expansion of `rep`.
pub uninterp spec fn regex_replace_all(pattern: Seq<char>, text: Seq<char>, rep: Seq<char>) -> Seq<char>;

/// The Unicode lower-case form of a string.
pub uninterp spec fn lower_of(s: Seq<char>) -> Seq<char>;

/// A string without its leading and trailing Unicode white space.
pub uninterp spec fn trimmed(s: Seq<char>) -> Seq<char>;

/// The JSON text of an array of strings.
pub uninterp spec fn json_string_array(items: Seq<Seq<char>>) -> Seq<char>;

/// Relies on fancy_regex::Regex::new and Regex::captures: the groups of the
/// first match, as owned strings.
#[verifier::external_body]
pub(crate) fn captures(pattern: &str, text: &str) -> (r: Option<Vec<Option<String>>>)
    ensures
        r.deep_view() == regex_captures(pattern@, text@),
{
    match fancy_regex::Regex::new(pattern) {
        Ok(re) => match re.captures(text) {
            Ok(Some(caps)) => Some(caps.iter().map(|g| g.map(|m| m.as_str().to_string())).collect()),
            _ => None,
        },
        Err(_) => None,
    }
}

/// Relies on fancy_regex::Regex::find_iter: the texts of all matches, in order,
/// leaving out the positions where the matcher gave up.
#[verifier::external_body]
pub(crate) fn find_all(pattern: &str, text: &str) -> (r: Vec<String>)
    ensures
        r.deep_view() == regex_find_all(pattern@, text@),
{
    match fancy_regex::Regex::new(pattern) {
        Ok(re) => re.find_iter(text).flatten().map(|m| m.as_str().to_string()).collect(),
        Err(_) => Vec::new(),
    }
}

/// Relies on fancy_regex::Regex::try_replacen with no limit: every match
/// replaced, `$1` in `rep` standing for the first group. The text is handed
/// back as it was where the pattern does not compile or the matcher gives up.
#[verifier::external_body]
pub(crate) fn replace_all(pattern: &str, text: &str, rep: &str) -> (r: String)
    ensures
        r@ == regex_replace_all(pattern@, text@, rep@),
{
    match fancy_regex::Regex::new(pattern) {
        Ok(re) => match re.try_replacen(text, 0, rep) {
            Ok(s) => s.to_string(),
            Err(_) => text.to_string(),
        },
        Err(_) => text.to_string(),
    }
}

/// Relies on str::to_lowercase, which depends on the characters alone.
#[verifier::external_body]
pub(crate) fn to_lower(s: &str) -> (r: String)
    ensures
        r@ == lower_of(s@),
{
    s.to_lowercase()
}

/// Relies on str::trim, which depends on the characters alone.
#[verifier::external_body]
pub(crate) fn trim(s: &str) -> (r: String)
    ensures
        r@ == trimmed(s@),
{
    s.trim().to_string()
}

/// Relies on serde_json::to_string on a slice of strings, which cannot fail
/// for such a value; an empty string stands for the error it never gives.
#[verifier::external_body]
pub(crate) fn to_json(items: &Vec<String>) -> (r: String)
    ensures
        r@ == json_string_array(items.deep_view()),
{
    match serde_json::to_string(items) {
        Ok(s) => s,
        Err(_) => String::new(),
    }
}

/// Relies on String's FromIterator over chars: the characters in order.
#[verifier::external_body]
pub(crate) fn string_of(chars: &Vec<char>) -> (r: String)
    ensures
        r@ == chars@,
{
    String::from_iter(chars.iter())
}

/// Relies on str::chars: the characters in order.
#[verifier::external_body]
pub(crate) fn chars_of(s: &str) -> (r: Vec<char>)
    ensures
        r@ == s@,
{
    s.chars().collect()
}

} // verus!
