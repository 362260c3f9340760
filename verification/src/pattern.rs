//! Validation patterns: regular expressions of the `regex` crate.
//!
//! Nothing here is proved of that crate. This module holds all that the rest
//! of the library takes on trust: the type of a compiled expression, the two
//! calls into the crate, and a name for what each call returns.

use regex::Regex;
use vstd::prelude::*;

verus! {

/// `regex::Regex`, a compiled regular expression. Nothing inside it is visible
/// to the verifier.
#[verifier::external_type_specification]
#[verifier::external_body]
pub struct ExRegex(regex::Regex);

/// The pattern of numeric text: an optional minus sign, digits, an optional
/// decimal point, digits. Each part may be missing, and nothing may stand
/// before or after them.
pub const DEFAULT_PATTERN: &'static str = r"^-?(\d+)?\.?(\d+)?$";

/// The name of what `Regex::new` returns for a pattern, with the error left
/// out: the compiled expression, or `None` where the crate refuses the
/// pattern. It has no definition. All that is known of it is that `compile`
/// returns it.
pub uninterp spec fn regex_compiled(pattern: Seq<char>) -> Option<Regex>;

/// The name of what `Regex::is_match` returns for a compiled expression and a
/// text: whether the expression matches somewhere in the text. It has no
/// definition. All that is known of it is that `is_match` returns it.
pub uninterp spec fn regex_is_match(re: Regex, text: Seq<char>) -> bool;

/// Calls `Regex::new` and turns its `Result` into an `Option`. Taken on trust:
/// that the result depends on the pattern and on nothing else, so that it can
/// go by the name `regex_compiled`.
#[verifier::external_body]
pub(crate) fn compile(pattern: &str) -> (r: Option<Regex>)
    ensures
        r == regex_compiled(pattern@),
{
    Regex::new(pattern).ok()
}

/// Calls `Regex::is_match`. Taken on trust: that the call returns for every
/// expression and text, and that its result depends on the two and on nothing
/// else, so that it can go by the name `regex_is_match`.
#[verifier::external_body]
pub(crate) fn is_match(re: &Regex, text: &str) -> (r: bool)
    ensures
        r == regex_is_match(*re, text@),
{
    re.is_match(text)
}

/// Compiles `DEFAULT_PATTERN`: `None` where the `regex` crate refuses it.
pub fn default_pattern() -> (r: Option<Regex>)
    ensures
        r == regex_compiled(DEFAULT_PATTERN@),
{
    compile(DEFAULT_PATTERN)
}

} // verus!
