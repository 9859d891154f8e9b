//! Validation of strings that cross into a native engine.
//!
//! Native engines take their string arguments as null-terminated byte
//! strings, so a string holding an embedded null byte cannot be represented
//! there.  Every operation that would hand such a string to the native side
//! must instead fail locally with [`crate::WebviewError::InvalidArgument`]
//! and perform no native call.  This module holds the check those operations
//! rest on, and the translation of an optional native text answer.

use vstd::prelude::*;
use crate::error::WebviewError;

verus! {

/// Whether the character sequence holds an embedded null character, which a
/// null-terminated native encoding cannot represent.
pub open spec fn contains_nul(s: Seq<char>) -> bool {
    exists|i: int| 0 <= i < s.len() && s[i] == '\0'
}

/// Scans a string for an embedded null character.
pub fn str_contains_nul(s: &str) -> (r: bool)
    ensures
        r == contains_nul(s@),
{
    let n = s.unicode_len();
    let mut i: usize = 0;
    while i < n
        invariant
            n == s@.len(),
            i <= n,
            forall|j: int| 0 <= j < i ==> s@[j] != '\0',
        decreases n - i,
    {
        if s.get_char(i) == '\0' {
            return true;
        }
        i = i + 1;
    }
    false
}

/// Translates a native engine's answer to a text query, such as the current
/// url or the page title: an absent answer means the engine has nothing to
/// report and is surfaced as `NotFound`.
pub fn text_result(answer: Option<String>) -> (r: Result<String, WebviewError>)
    ensures
        match answer {
            Some(text) => r matches Ok(t) && t@ == text@,
            None => r == Err::<String, WebviewError>(WebviewError::NotFound),
        },
{
    match answer {
        Some(text) => Ok(text),
        None => Err(WebviewError::NotFound),
    }
}

} // verus!
