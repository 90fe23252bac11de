//! The filter expression tree of a selector node, and the regular-expression
//! support it relies on.
//!
//! A filter is a finite, acyclic boolean expression: an atomic comparison
//! (exact or regular-expression match on one attribute), a conjunction, or a
//! disjunction.

use vstd::prelude::*;

verus! {

/// How an atomic filter compares an attribute value against its `value`.
#[derive(Clone, Copy, Debug, PartialEq, Eq, Structural)]
pub enum FilterOperator {
    /// Byte-for-byte string equality.
    Exact,
    /// The attribute value must satisfy the compiled regular expression.
    Regex,
}

/// An atomic comparison of one node attribute against a constant.
#[derive(Debug)]
pub struct AtomicFilter {
    pub field: String,
    pub operator: FilterOperator,
    pub value: String,
}

/// A boolean expression tree over node attributes.
///
/// `And` of an empty list is vacuously true; `Or` of an empty list is false.
#[derive(Debug)]
pub enum Filter {
    Atomic(AtomicFilter),
    And { and: Vec<Filter> },
    Or { or: Vec<Filter> },
}

/// Whether the regular-expression engine accepts `pattern` at compile time.
/// Names the success of `regex::Regex::new`, which depends on the pattern
/// alone.
pub uninterp spec fn pattern_compiles(pattern: Seq<char>) -> bool;

/// Whether `text` contains a match of the compiled `pattern`. Names the
/// result of `regex::Regex::is_match`, which depends on the pattern and the
/// haystack alone.
pub uninterp spec fn regex_is_match(pattern: Seq<char>, text: Seq<char>) -> bool;

#[verifier::external_type_specification]
#[verifier::external_body]
pub struct ExRegex(regex::Regex);

/// A regular expression together with the pattern it was compiled from.
///
/// The fields are private: the only constructor is `compile`, which pairs
/// each compiled expression with exactly the pattern string handed to the
/// regular-expression engine.
#[derive(Debug)]
pub struct RegexHandle {
    pattern: String,
    regex: regex::Regex,
}

impl RegexHandle {
    /// The pattern this handle was compiled from.
    pub closed spec fn spec_pattern(&self) -> Seq<char> {
        self.pattern@
    }

    /// Relies on `regex::Regex::new`: compilation succeeds or fails
    /// depending on the pattern alone, and the returned expression is the
    /// one denoted by that pattern.
    #[verifier::external_body]
    pub fn compile(pattern: &String) -> (r: Option<RegexHandle>)
        ensures
            r matches Some(h) ==> h.spec_pattern() == pattern@,
            r is Some == pattern_compiles(pattern@),
    {
        match regex::Regex::new(pattern.as_str()) {
            Ok(regex) => Some(RegexHandle { pattern: pattern.clone(), regex }),
            Err(_) => None,
        }
    }

    /// Relies on `regex::Regex::is_match`: true if and only if the haystack
    /// contains a match of the compiled pattern, a function of the pattern
    /// and the haystack alone.
    #[verifier::external_body]
    pub fn is_match(&self, text: &String) -> (r: bool)
        ensures
            r == regex_is_match(self.spec_pattern(), text@),
    {
        self.regex.is_match(text.as_str())
    }
}

/// A filter is valid when every `Regex` atom in it carries a pattern the
/// regular-expression engine accepts.
pub open spec fn filter_valid(f: Filter) -> bool
    decreases f,
{
    match f {
        Filter::Atomic(a) => a.operator == FilterOperator::Regex ==> pattern_compiles(a.value@),
        Filter::And { and } => forall|i: int|
            0 <= i < and@.len() ==> filter_valid(#[trigger] and@[i]),
        Filter::Or { or } => forall|i: int|
            0 <= i < or@.len() ==> filter_valid(#[trigger] or@[i]),
    }
}

} // verus!
