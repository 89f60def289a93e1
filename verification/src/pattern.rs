//! Regular-expression search, through the `regex` crate.

use vstd::prelude::*;
use crate::text::opt_text;

verus! {

/// The text of the first capture group of the leftmost match of `pattern`
/// in `text`, as `regex::Regex::captures` finds it: `None` when the pattern
/// does not compile, when nothing matches, or when the group takes no part
/// in the match.
pub uninterp spec fn regex_group(pattern: Seq<char>, text: Seq<char>) -> Option<Seq<char>>;

/// Compiles `pattern` with `regex::Regex::new` and returns the first capture
/// group of its leftmost match in `text` (`Regex::captures`, group 1).
#[verifier::external_body]
pub fn first_group(pattern: &str, text: &str) -> (r: Option<String>)
    ensures
        opt_text(r) == regex_group(pattern@, text@),
{
    regex::Regex::new(pattern).ok().and_then(
        |re| re.captures(text).and_then(|caps| caps.get(1)).map(|m| m.as_str().to_string()),
    )
}

} // verus!
