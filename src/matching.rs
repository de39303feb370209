//! Text matching and ordering of names, on top of the `regex`,
//! `fuzzy_matcher` and `numeric_sort` crates.
use core::cmp::Ordering;
use fuzzy_matcher::skim::SkimMatcherV2;
use fuzzy_matcher::FuzzyMatcher;
use regex::{Regex, RegexBuilder};
use vstd::prelude::*;

verus! {

#[verifier::external_type_specification]
#[verifier::external_body]
pub struct ExRegex(Regex);

/// Whether `c` is a regex meta character, which `regex::escape` prefixes with a
/// backslash.
pub open spec fn is_meta_character(c: char) -> bool {
    c == '\\' || c == '.' || c == '+' || c == '*' || c == '?' || c == '(' || c == ')' || c
        == '|' || c == '[' || c == ']' || c == '{' || c == '}' || c == '^' || c == '$' || c
        == '#' || c == '&' || c == '-' || c == '~'
}

/// `s` with a backslash put before each meta character: a pattern that
/// matches `s` literally.
pub open spec fn escaped(s: Seq<char>) -> Seq<char>
    decreases s.len(),
{
    if s.len() == 0 {
        Seq::empty()
    } else {
        let rest = escaped(s.drop_last());
        let c = s.last();
        if is_meta_character(c) {
            rest.push('\\').push(c)
        } else {
            rest.push(c)
        }
    }
}

/// Whether `pattern` compiles as a regular expression, with case folding
/// switched on or off.
pub uninterp spec fn regex_compiles(pattern: Seq<char>, case_insensitive: bool) -> bool;

/// Whether the regular expression `pattern`, compiled with case folding
/// switched on or off, matches somewhere in `text`.
pub uninterp spec fn regex_finds(pattern: Seq<char>, case_insensitive: bool, text: Seq<char>) -> bool;

/// Whether the skim fuzzy matcher, ignoring case, finds `pattern` in `choice`.
pub uninterp spec fn fuzzy_finds_ignoring_case(choice: Seq<char>, pattern: Seq<char>) -> bool;

/// Whether the skim fuzzy matcher, respecting case, finds `pattern` in `choice`.
pub uninterp spec fn fuzzy_finds_respecting_case(choice: Seq<char>, pattern: Seq<char>) -> bool;

/// The numeric-aware order of two names: runs of digits compare as numbers.
pub uninterp spec fn numeric_order(a: Seq<char>, b: Seq<char>) -> Ordering;

/// Whether the text pattern `pattern` compiles and then matches `text`.
pub open spec fn pattern_matches(pattern: Seq<char>, case_insensitive: bool, text: Seq<char>) -> bool {
    regex_compiles(pattern, case_insensitive) && regex_finds(pattern, case_insensitive, text)
}

/// A regular expression together with the pattern and case flag that it was
/// compiled from. Only `compile` makes one, so the two always agree.
pub struct CompiledRegex {
    regex: Regex,
    source: String,
    case_insensitive: bool,
}

impl CompiledRegex {
    /// The pattern that this regular expression was compiled from.
    pub closed spec fn source(&self) -> Seq<char> {
        self.source@
    }

    /// Whether this regular expression was compiled with case folding.
    pub closed spec fn case_insensitive(&self) -> bool {
        self.case_insensitive
    }

    /// Relies on `regex::RegexBuilder::build`: it returns a regex exactly when
    /// the pattern is valid, and the regex is kept with the pattern it came from.
    #[verifier::external_body]
    pub(crate) fn compile(pattern: &str, case_insensitive: bool) -> (r: Option<CompiledRegex>)
        ensures
            r.is_some() == regex_compiles(pattern@, case_insensitive),
            r matches Some(c) ==> c.source() == pattern@ && c.case_insensitive() == case_insensitive,
    {
        match RegexBuilder::new(pattern).case_insensitive(case_insensitive).build() {
            Ok(regex) => Some(CompiledRegex { regex, source: pattern.to_string(), case_insensitive }),
            Err(_) => None,
        }
    }

    /// Relies on `regex::Regex::is_match`: whether the regex matches anywhere
    /// in `text`.
    #[verifier::external_body]
    pub(crate) fn is_match(&self, text: &str) -> (r: bool)
        ensures
            r == regex_finds(self.source(), self.case_insensitive(), text@),
    {
        self.regex.is_match(text)
    }
}

/// Relies on `regex::escape`: each meta character gets a backslash in front.
#[verifier::external_body]
pub(crate) fn escape(text: &str) -> (r: String)
    ensures
        r@ == escaped(text@),
{
    regex::escape(text)
}

/// Relies on `SkimMatcherV2::fuzzy_match` of a matcher set to ignore case:
/// whether any fuzzy match of `pattern` in `choice` exists.
#[verifier::external_body]
pub(crate) fn fuzzy_match_ignoring_case(choice: &str, pattern: &str) -> (r: bool)
    ensures
        r == fuzzy_finds_ignoring_case(choice@, pattern@),
{
    SkimMatcherV2::default().ignore_case().fuzzy_match(choice, pattern).is_some()
}

/// Relies on `SkimMatcherV2::fuzzy_match` of a matcher set to respect case:
/// whether any fuzzy match of `pattern` in `choice` exists.
#[verifier::external_body]
pub(crate) fn fuzzy_match_respecting_case(choice: &str, pattern: &str) -> (r: bool)
    ensures
        r == fuzzy_finds_respecting_case(choice@, pattern@),
{
    SkimMatcherV2::default().respect_case().fuzzy_match(choice, pattern).is_some()
}

/// Relies on `numeric_sort::cmp`, which compares the two names segment by
/// segment; swapping the arguments reverses the order.
#[verifier::external_body]
pub(crate) fn numeric_cmp(a: &str, b: &str) -> (r: Ordering)
    ensures
        r == numeric_order(a@, b@),
        (r == Ordering::Less) == (numeric_order(b@, a@) == Ordering::Greater),
        (r == Ordering::Greater) == (numeric_order(b@, a@) == Ordering::Less),
{
    numeric_sort::cmp(a, b)
}

} // verus!
