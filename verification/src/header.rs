//! The `Authorization` header of an authenticated client.

use vstd::prelude::*;
use vstd::string::StringExecFns;

verus! {

/// Whether a header value may hold `c`: a tab, or anything from the space
/// upwards but the delete character.
pub open spec fn header_char(c: char) -> bool {
    c == '\t' || (c >= ' ' && c != '\x7f')
}

/// Whether `text` can be sent as the value of a header: every character of it
/// is one that a header value may hold.
pub open spec fn header_text(text: Seq<char>) -> bool {
    forall|i: int| 0 <= i < text.len() ==> header_char(#[trigger] text[i])
}

/// The value of the `Authorization` header that presents `token`.
pub open spec fn bearer(token: Seq<char>) -> Seq<char> {
    "Bearer "@ + token
}

/// The bearer value of a token can be sent exactly when the token itself can.
pub proof fn lemma_bearer_header_text(token: Seq<char>)
    ensures
        header_text(bearer(token)) <==> header_text(token),
{
    reveal_strlit("Bearer ");
    let prefix = "Bearer "@;
    let whole = bearer(token);
    if header_text(token) {
        assert forall|i: int| 0 <= i < whole.len() implies header_char(#[trigger] whole[i]) by {
            if i >= prefix.len() {
                assert(whole[i] == token[i - prefix.len()]);
            }
        }
    }
    if header_text(whole) {
        assert forall|i: int| 0 <= i < token.len() implies header_char(#[trigger] token[i]) by {
            assert(token[i] == whole[i + prefix.len()]);
        }
    }
}

/// Asks `reqwest::header::HeaderValue::from_str` whether it takes `text`.
/// Trusted: it refuses a string exactly when one of its bytes is below 32 and
/// not a tab, or is 127. Every byte of a character beyond ASCII is above 127,
/// so the test on bytes is `header_text` on characters.
#[verifier::external_body]
pub(crate) fn header_value_accepts(text: &str) -> (accepted: bool)
    ensures
        accepted == header_text(text@),
{
    reqwest::header::HeaderValue::from_str(text).is_ok()
}

/// Builds the `Authorization` value for `token`.
pub fn bearer_value(token: &str) -> (value: String)
    ensures
        value@ == bearer(token@),
{
    let mut value = String::from_str("Bearer ");
    value.append(token);
    value
}

/// Tells whether `token` can be presented in an `Authorization` header.
pub fn is_valid_token(token: &str) -> (valid: bool)
    ensures
        valid == header_text(token@),
        valid == header_text(bearer(token@)),
{
    let value = bearer_value(token);
    proof {
        lemma_bearer_header_text(token@);
    }
    header_value_accepts(value.as_str())
}

} // verus!
