//! Whether the value found at a path meets a filter.
//!
//! A filter with no pattern asks that the value be there and not be empty. A
//! filter with a pattern asks that the value, or one element of it, be the
//! pattern's text. A pattern between two `//` marks must, on top of that, be
//! a regular expression that compiles; it is not run against the value.
use crate::error::KubeQueryError;
use crate::json::{render, rendered, shape, JsonShape};
use crate::text::is_word;
use regex::Regex;
use serde_json::Value;
use vstd::prelude::*;
use vstd::string::*;

verus! {

/// A compiled regular expression of `regex`.
#[verifier::external_type_specification]
#[verifier::external_body]
pub struct ExRegex(regex::Regex);

/// Whether `regex` accepts a text as a regular expression, under its default
/// limits.
pub uninterp spec fn compiles(pattern: Seq<char>) -> bool;

/// `Regex::new`: compiles a regular expression, or says why it cannot. The
/// contract only names which texts compile.
pub assume_specification[ regex::Regex::new ](re: &str) -> (compiled: Result<
    regex::Regex,
    regex::Error,
>)
    ensures
        compiled is Ok == compiles(re@),
;

/// Whether a pattern stands between two marks: it starts with `//` and ends
/// with `//`. The two marks may overlap, as in `//` and `///`.
pub open spec fn is_marked(pattern: Seq<char>) -> bool {
    &&& pattern.len() >= 2
    &&& pattern[0] == '/'
    &&& pattern[1] == '/'
    &&& pattern[pattern.len() - 2] == '/'
    &&& pattern[pattern.len() - 1] == '/'
}

/// Whether `//` stands at position `at` of a text.
pub open spec fn mark_at(pattern: Seq<char>, at: int) -> bool {
    0 <= at && at + 2 <= pattern.len() && pattern[at] == '/' && pattern[at + 1] == '/'
}

/// The text between the two marks of a marked pattern; empty where the marks
/// touch or overlap.
pub open spec fn marked_text(pattern: Seq<char>) -> Seq<char>
    recommends
        is_marked(pattern),
{
    if pattern.len() >= 4 {
        pattern.subrange(2, pattern.len() - 2)
    } else {
        pattern.subrange(2, 2)
    }
}

/// The text that an element of an array is compared by: a JSON string by its
/// characters, anything else by its compact JSON text.
pub open spec fn element_text(element: Value) -> Seq<char> {
    match shape(element) {
        JsonShape::Text(t) => t,
        _ => rendered(element),
    }
}

/// Whether a value is the text `wanted`: a JSON string with exactly these
/// characters, or an array with an element whose text is `wanted`.
pub open spec fn equals_text(value: Value, wanted: Seq<char>) -> bool {
    match shape(value) {
        JsonShape::Text(t) => t == wanted,
        JsonShape::Array(a) => exists|i: int| 0 <= i < a.len() && element_text(#[trigger] a[i]) == wanted,
        _ => false,
    }
}

/// Whether a value counts as present: it is not null, and an array or an
/// object has at least one element or member.
pub open spec fn is_present(value: Value) -> bool {
    match shape(value) {
        JsonShape::Null => false,
        JsonShape::Array(a) => a.len() > 0,
        JsonShape::Object(n) => n > 0,
        _ => true,
    }
}

/// Whether what was found at a filter's path meets the filter. A path that
/// could not be resolved meets none.
pub open spec fn meets(found: Result<Value, KubeQueryError>, pattern: Option<Seq<char>>) -> bool {
    match found {
        Ok(value) => match pattern {
            None => is_present(value),
            Some(p) => (is_marked(p) ==> compiles(marked_text(p))) && equals_text(value, p),
        },
        Err(_) => false,
    }
}

/// Both values where both are there; else the first error, the one of
/// `first` where both failed.
pub fn merge<T, U, E>(first: Result<T, E>, second: Result<U, E>) -> (both: Result<(T, U), E>)
    ensures
        both == match (first, second) {
            (Ok(t), Ok(u)) => Ok::<(T, U), E>((t, u)),
            (Err(e), _) => Err::<(T, U), E>(e),
            (Ok(_), Err(e)) => Err::<(T, U), E>(e),
        },
{
    match (first, second) {
        (Ok(t), Ok(u)) => Ok((t, u)),
        (Err(e), _) => Err(e),
        (Ok(_), Err(e)) => Err(e),
    }
}

/// Whether a pattern stands between two `//` marks.
pub fn marked(pattern: &str) -> (b: bool)
    ensures
        b == is_marked(pattern@),
{
    let n = pattern.unicode_len();
    n >= 2 && pattern.get_char(0) == '/' && pattern.get_char(1) == '/' && pattern.get_char(n - 2)
        == '/' && pattern.get_char(n - 1) == '/'
}

/// Compiles the text between the marks of a marked pattern.
fn compile_marked(pattern: &str) -> (compiled: Result<Regex, KubeQueryError>)
    requires
        is_marked(pattern@),
    ensures
        compiled is Ok == compiles(marked_text(pattern@)),
{
    let n = pattern.unicode_len();
    let end = if n >= 4 {
        n - 2
    } else {
        2
    };
    match Regex::new(pattern.substring_char(2, end)) {
        Ok(regex) => Ok(regex),
        Err(e) => Err(KubeQueryError::from(e)),
    }
}

/// Whether an element of an array is the text `wanted`.
fn element_is(element: &Value, wanted: &String) -> (b: bool)
    ensures
        b == (element_text(*element) == wanted@),
{
    match element.as_str() {
        Some(text) => is_word(wanted, text),
        None => render(element) == *wanted,
    }
}

/// Whether `value` is the text `wanted`, or has it as an element.
pub fn text_matches(value: &Value, wanted: &String) -> (b: bool)
    ensures
        b == equals_text(*value, wanted@),
{
    if let Some(text) = value.as_str() {
        is_word(wanted, text)
    } else if let Some(items) = value.as_array() {
        let mut i: usize = 0;
        while i < items.len()
            invariant
                i <= items@.len(),
                shape(*value) == JsonShape::Array(items@),
                forall|j: int| 0 <= j < i ==> element_text(#[trigger] items@[j]) != wanted@,
            decreases items@.len() - i,
        {
            if element_is(&items[i], wanted) {
                assert(equals_text(*value, wanted@)) by {
                    let at = i as int;
                    assert(0 <= at < items@.len() && element_text(items@[at]) == wanted@);
                    assert(shape(*value) matches JsonShape::Array(a) && a == items@);
                }
                return true;
            }
            i = i + 1;
        }
        false
    } else {
        false
    }
}

/// Whether `value` is there and not empty.
pub fn present(value: &Value) -> (b: bool)
    ensures
        b == is_present(*value),
{
    if let Some(items) = value.as_array() {
        !items.is_empty()
    } else if let Some(map) = value.as_object() {
        !map.is_empty()
    } else {
        !value.is_null()
    }
}

/// Whether what was found at a filter's path meets the filter's pattern.
///
/// `found` is what resolving the path on the record gave. With no pattern,
/// the value must be present. With a pattern, the value must be the pattern's
/// text, marks included; a marked pattern must compile as well. A path that
/// did not resolve and a pattern that does not compile both give `false`.
pub fn query_match(found: Result<Value, KubeQueryError>, rmatch: Option<String>) -> (b: bool)
    ensures
        b == meets(found, crate::kubernetes::text_of(rmatch)),
{
    match rmatch {
        Some(s) => {
            if marked(s.as_str()) {
                let compiled = compile_marked(s.as_str());
                match merge(found, compiled) {
                    Ok((value, _)) => text_matches(&value, &s),
                    Err(_) => false,
                }
            } else {
                match found {
                    Ok(value) => text_matches(&value, &s),
                    Err(_) => false,
                }
            }
        },
        None => match found {
            Ok(value) => present(&value),
            Err(_) => false,
        },
    }
}

/// A filter with no pattern is met exactly where the path resolved to a value
/// that is not null and, where it is an array or an object, is not empty.
pub proof fn law_absent_pattern(found: Result<Value, KubeQueryError>)
    ensures
        meets(found, None) <==> {
            &&& found matches Ok(value)
            &&& !(shape(value) is Null)
            &&& (shape(value) matches JsonShape::Array(a) ==> a.len() > 0)
            &&& (shape(value) matches JsonShape::Object(n) ==> n > 0)
        },
{
}

/// A filter with a pattern that does not stand between marks is met exactly
/// where the path resolved to a JSON string with the pattern's characters, or
/// to an array with an element whose text is the pattern.
pub proof fn law_literal_pattern(found: Result<Value, KubeQueryError>, pattern: Seq<char>)
    requires
        !is_marked(pattern),
    ensures
        meets(found, Some(pattern)) <==> {
            &&& found matches Ok(value)
            &&& {
                ||| shape(value) == JsonShape::Text(pattern)
                ||| shape(value) matches JsonShape::Array(a) && exists|i: int|
                    0 <= i < a.len() && element_text(#[trigger] a[i]) == pattern
            }
        },
{
}

/// A filter with a pattern between marks is met exactly where the text
/// between the marks compiles and the value is the whole pattern, marks
/// included: the compiled expression is not run against the value.
pub proof fn law_marked_pattern(found: Result<Value, KubeQueryError>, pattern: Seq<char>)
    requires
        is_marked(pattern),
    ensures
        meets(found, Some(pattern)) <==> {
            &&& compiles(marked_text(pattern))
            &&& found matches Ok(value)
            &&& equals_text(value, pattern)
        },
{
}

/// Whether `//` occurs in a text only as its first two and as its last two
/// characters.
pub open spec fn marks_only_at_ends(pattern: Seq<char>) -> bool {
    forall|at: int| #[trigger] mark_at(pattern, at) ==> at == 0 || at == pattern.len() - 2
}

/// A pattern whose only marks are at its two ends is marked exactly where it
/// starts with a mark and ends with one. A pattern with a further mark
/// inside, such as `//a//b//`, is marked too; this law leaves it out.
pub proof fn law_marks(pattern: Seq<char>)
    requires
        is_marked(pattern) ==> marks_only_at_ends(pattern),
    ensures
        is_marked(pattern) <==> {
            &&& mark_at(pattern, 0)
            &&& mark_at(pattern, pattern.len() - 2)
            &&& marks_only_at_ends(pattern)
        },
{
}

} // verus!
