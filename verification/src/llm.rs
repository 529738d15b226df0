//! Reading the JSON object out of a language model's answer, which may wrap it in
//! prose.
use vstd::prelude::*;

use crate::text::{chars_of, slice_vec, string_of};

verus! {

#[verifier::external_type_specification]
#[verifier::external_body]
pub struct ExJsonValue(serde_json::Value);

/// Why no JSON object could be read from an answer.
#[derive(Debug, Clone, PartialEq, Eq)]
pub enum JsonExtractError {
    /// The answer holds no `{`.
    NoObject,
    /// The answer holds a `{` but no `}`.
    NoClosingBrace,
    /// The text from the first `{` to the last `}` is not JSON.
    Parse { span: String, message: String },
}

impl JsonExtractError {
    pub fn message(&self) -> (r: String)
        ensures
            r@ == match self {
                JsonExtractError::NoObject => "No JSON object found in response"@,
                JsonExtractError::NoClosingBrace => "No closing brace found in response"@,
                JsonExtractError::Parse { span, message } => "Failed to parse extracted JSON: "@
                    + span@ + ": "@ + message@,
            },
    {
        match self {
            JsonExtractError::NoObject => String::from_str("No JSON object found in response"),
            JsonExtractError::NoClosingBrace => String::from_str(
                "No closing brace found in response",
            ),
            JsonExtractError::Parse { span, message } => {
                let mut v = chars_of("Failed to parse extracted JSON: ");
                crate::text::extend_str(&mut v, span.as_str());
                crate::text::extend_str(&mut v, ": ");
                crate::text::extend_str(&mut v, message.as_str());
                string_of(&v)
            },
        }
    }
}

/// Whether `c` occurs in `s`.
pub open spec fn occurs(s: Seq<char>, c: char) -> bool {
    exists|i: int| 0 <= i < s.len() && s[i] == c
}

/// The position of the first `c` in `s` (where one occurs).
pub open spec fn first_pos(s: Seq<char>, c: char) -> int {
    choose|i: int| 0 <= i < s.len() && s[i] == c && forall|j: int| 0 <= j < i ==> s[j] != c
}

/// The position of the last `c` in `s` (where one occurs).
pub open spec fn last_pos(s: Seq<char>, c: char) -> int {
    choose|i: int| 0 <= i < s.len() && s[i] == c && forall|j: int| i < j < s.len() ==> s[j] != c
}

/// The answer can be cut from its first `{` to its last `}`: both occur and the last
/// `}` is not more than one place before the first `{` (else the cut would be
/// reversed).
pub open spec fn cuttable(s: Seq<char>) -> bool {
    occurs(s, '{') && occurs(s, '}') ==> last_pos(s, '}') + 1 >= first_pos(s, '{')
}

/// The text from the first `{` to the last `}`, both included.
pub open spec fn object_span(s: Seq<char>) -> Seq<char> {
    s.subrange(first_pos(s, '{'), last_pos(s, '}') + 1)
}

/// Whether `serde_json::from_str` accepts a text as a JSON value.
pub uninterp spec fn spec_json_parses(s: Seq<char>) -> bool;

/// The message of the error `serde_json::from_str` gives for a text it refuses.
pub uninterp spec fn spec_json_error(s: Seq<char>) -> Seq<char>;

/// The JSON value `serde_json::from_str` reads from a text it accepts.
pub uninterp spec fn spec_json_value(s: Seq<char>) -> serde_json::Value;

/// `serde_json::from_str` into a JSON value, its error as its message. It succeeds
/// exactly on the texts the parser accepts; the value is the parser's for that text
/// and the error's message is the parser's for that text. What the value holds is
/// not written out here (the value is opaque to the proofs).
#[verifier::external_body]
fn parse_json_value(s: &str) -> (r: Result<serde_json::Value, String>)
    ensures
        (r is Ok) == spec_json_parses(s@),
        r matches Ok(v) ==> v == spec_json_value(s@),
        r matches Err(m) ==> m@ == spec_json_error(s@),
{
    serde_json::from_str(s).map_err(|e| e.to_string())
}

/// The span of the JSON object in an answer, as character positions: from its first
/// `{` to its last `}`.
pub fn json_object_span(text: &str) -> (r: Result<(usize, usize), JsonExtractError>)
    requires
        cuttable(text@),
    ensures
        !occurs(text@, '{') <==> r == Err::<(usize, usize), JsonExtractError>(
            JsonExtractError::NoObject,
        ),
        occurs(text@, '{') && !occurs(text@, '}') <==> r == Err::<(usize, usize), JsonExtractError>(
            JsonExtractError::NoClosingBrace,
        ),
        r matches Ok((a, b)) ==> occurs(text@, '{') && occurs(text@, '}') && a == first_pos(
            text@,
            '{',
        ) && b == last_pos(text@, '}') + 1 && a <= b <= text@.len(),
        r is Ok || r == Err::<(usize, usize), JsonExtractError>(JsonExtractError::NoObject) || r
            == Err::<(usize, usize), JsonExtractError>(JsonExtractError::NoClosingBrace),
{
    let s = chars_of(text);
    let mut i: usize = 0;
    while i < s.len() && s[i] != '{'
        invariant
            i <= s@.len(),
            forall|j: int| 0 <= j < i ==> s@[j] != '{',
        decreases s@.len() - i,
    {
        i += 1;
    }
    if i == s.len() {
        return Err(JsonExtractError::NoObject);
    }
    let mut k: usize = s.len();
    while k > 0 && s[k - 1] != '}'
        invariant
            k <= s@.len(),
            forall|j: int| k <= j < s@.len() ==> s@[j] != '}',
        decreases k,
    {
        k -= 1;
    }
    if k == 0 {
        return Err(JsonExtractError::NoClosingBrace);
    }
    assert(occurs(s@, '{'));
    assert(occurs(s@, '}'));
    assert(first_pos(s@, '{') == i) by {
        let f = first_pos(s@, '{');
        if f < i {
        } else if f > i {
        }
    }
    assert(last_pos(s@, '}') == k - 1) by {
        let l = last_pos(s@, '}');
        if l < k - 1 {
        } else if l > k - 1 {
        }
    }
    Ok((i, k))
}

/// The JSON object in an answer that may have prose around it: the text from its
/// first `{` to its last `}`, parsed. It succeeds exactly when both braces occur and
/// that span parses; a parse failure carries the span and the parser's message.
pub fn extract_json(text: &str) -> (r: Result<serde_json::Value, JsonExtractError>)
    requires
        cuttable(text@),
    ensures
        !occurs(text@, '{') <==> r matches Err(JsonExtractError::NoObject),
        occurs(text@, '{') && !occurs(text@, '}') <==> r matches Err(
            JsonExtractError::NoClosingBrace,
        ),
        r is Ok <==> occurs(text@, '{') && occurs(text@, '}') && spec_json_parses(
            object_span(text@),
        ),
        r matches Ok(v) ==> v == spec_json_value(object_span(text@)),
        r matches Err(JsonExtractError::Parse { span, message }) ==> span@ == object_span(text@)
            && message@ == spec_json_error(object_span(text@)),
        occurs(text@, '{') && occurs(text@, '}') && !spec_json_parses(object_span(text@))
            ==> r matches Err(JsonExtractError::Parse { .. }),
{
    match json_object_span(text) {
        Err(e) => Err(e),
        Ok((start, end)) => {
            let s = chars_of(text);
            assert(start == first_pos(text@, '{') && end == last_pos(text@, '}') + 1);

            let span = string_of(&slice_vec(&s, start, end));
            assert(span@ == object_span(text@));
            match parse_json_value(span.as_str()) {
                Ok(v) => Ok(v),
                Err(message) => Err(JsonExtractError::Parse { span, message }),
            }
        },
    }
}

} // verus!
