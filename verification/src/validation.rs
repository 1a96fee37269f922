//! Checks on the credentials before they are stored or put into a request.

use vstd::prelude::*;
use vstd::string::*;
use vstd::utf8::{encode_utf8, is_ascii_chars_encode_utf8};
use vstd::std_specs::iter::IteratorSpec;
use crate::error::AppError;

verus! {

/// Longest session token, in bytes.
pub const MAX_SESSION_TOKEN_LEN: usize = 4096;

/// Longest organization ID, in bytes.
pub const MAX_ORG_ID_LEN: usize = 128;

/// A letter of the English alphabet or a digit.
pub open spec fn is_alphanumeric(c: char) -> bool {
    ('a' <= c && c <= 'z') || ('A' <= c && c <= 'Z') || ('0' <= c && c <= '9')
}

/// What may stand in a session token: letters, digits, and `-_.+/=`.
pub open spec fn is_token_char(c: char) -> bool {
    is_alphanumeric(c) || c == '-' || c == '_' || c == '.' || c == '+' || c == '/' || c == '='
}

/// What may stand in an organization ID: letters, digits, `-` and `_`.
pub open spec fn is_org_id_char(c: char) -> bool {
    is_alphanumeric(c) || c == '-' || c == '_'
}

/// Whether every character of `text` may stand in a session token.
pub open spec fn only_token_chars(text: Seq<char>) -> bool {
    forall|i: int| 0 <= i < text.len() ==> is_token_char(#[trigger] text[i])
}

/// Whether every character of `text` may stand in an organization ID.
pub open spec fn only_org_id_chars(text: Seq<char>) -> bool {
    forall|i: int| 0 <= i < text.len() ==> is_org_id_char(#[trigger] text[i])
}

/// A session token that is accepted: not empty, no longer than
/// [`MAX_SESSION_TOKEN_LEN`], made of token characters only.
pub open spec fn session_token_valid(token: Seq<char>) -> bool {
    0 < token.len() <= MAX_SESSION_TOKEN_LEN && only_token_chars(token)
}

/// An organization ID that is accepted: not empty, no longer than
/// [`MAX_ORG_ID_LEN`], made of ID characters only.
pub open spec fn org_id_valid(org_id: Seq<char>) -> bool {
    0 < org_id.len() <= MAX_ORG_ID_LEN && only_org_id_chars(org_id)
}

/// What is wrong with an organization ID, in the words of the error, or
/// `None` for one that is accepted. Length is counted in bytes of UTF-8 and
/// judged before the characters are.
pub open spec fn org_id_problem(org_id: Seq<char>) -> Option<Seq<char>> {
    if org_id.len() == 0 {
        Some("organization_id"@)
    } else if encode_utf8(org_id).len() > MAX_ORG_ID_LEN {
        Some("organization_id too long"@)
    } else if !only_org_id_chars(org_id) {
        Some("invalid organization_id format"@)
    } else {
        None
    }
}

fn token_char_ok(c: char) -> (ok: bool)
    ensures
        ok == is_token_char(c),
{
    (c >= 'a' && c <= 'z') || (c >= 'A' && c <= 'Z') || (c >= '0' && c <= '9') || c == '-' || c
        == '_' || c == '.' || c == '+' || c == '/' || c == '='
}

fn org_id_char_ok(c: char) -> (ok: bool)
    ensures
        ok == is_org_id_char(c),
{
    (c >= 'a' && c <= 'z') || (c >= 'A' && c <= 'Z') || (c >= '0' && c <= '9') || c == '-' || c
        == '_'
}

/// Text made of token characters is ASCII, so it has as many bytes as
/// characters.
pub proof fn lemma_token_chars_are_single_bytes(text: Seq<char>)
    requires
        only_token_chars(text),
    ensures
        encode_utf8(text).len() == text.len(),
{
    assert forall|i: int| 0 <= i < text.len() implies '\0' <= #[trigger] text[i] <= '\u{7f}' by {
        assert(is_token_char(text[i]));
    }
    is_ascii_chars_encode_utf8(text);
}

/// Checks that a session token is safe to put into a request header.
///
/// Accepts exactly the tokens of [`session_token_valid`]; anything else is
/// [`AppError::InvalidToken`].
pub fn validate_session_token(token: &str) -> (checked: Result<(), AppError>)
    ensures
        checked is Ok <==> session_token_valid(token@),
        checked is Err ==> checked->Err_0 == AppError::InvalidToken,
{
    if token.is_empty() {
        return Err(AppError::InvalidToken);
    }
    if token.as_bytes().len() > MAX_SESSION_TOKEN_LEN {
        proof {
            if only_token_chars(token@) {
                lemma_token_chars_are_single_bytes(token@);
            }
        }
        return Err(AppError::InvalidToken);
    }
    let mut it = token.chars();
    let ghost mut n: int = 0;
    loop
        invariant
            0 <= n <= token@.len(),
            it.remaining() == token@.skip(n),
            only_token_chars(token@.take(n)),
            it.obeys_prophetic_iter_laws(),
            it.decrease() is Some,
            0 < token@.len(),
            encode_utf8(token@).len() <= MAX_SESSION_TOKEN_LEN,
        decreases it.decrease()->0,
    {
        match it.next() {
            None => {
                proof {
                    assert(token@.take(n) =~= token@);
                    lemma_token_chars_are_single_bytes(token@);
                }
                return Ok(());
            },
            Some(c) => {
                if !token_char_ok(c) {
                    assert(!is_token_char(token@[n]));
                    return Err(AppError::InvalidToken);
                }
                proof {
                    assert(token@.skip(n).drop_first() =~= token@.skip(n + 1));
                    assert forall|i: int| 0 <= i < n + 1 implies is_token_char(
                        #[trigger] token@.take(n + 1)[i],
                    ) by {
                        if i < n {
                            assert(token@.take(n)[i] == token@[i]);
                        }
                    }
                    n = n + 1;
                }
            },
        }
    }
}

/// Checks that an organization ID is safe to put into a request path.
///
/// Accepts exactly the IDs of [`org_id_valid`]; anything else is
/// [`AppError::MissingConfig`] with the words of [`org_id_problem`].
pub fn validate_org_id(org_id: &str) -> (checked: Result<(), AppError>)
    ensures
        checked is Ok <==> org_id_valid(org_id@),
        checked is Ok <==> org_id_problem(org_id@) is None,
        checked matches Err(error) ==> error matches AppError::MissingConfig(detail)
            && org_id_problem(org_id@) == Some(detail@),
{
    if org_id.is_empty() {
        return Err(AppError::MissingConfig(String::from_str("organization_id")));
    }
    if org_id.as_bytes().len() > MAX_ORG_ID_LEN {
        proof {
            if only_org_id_chars(org_id@) {
                lemma_org_id_chars_are_single_bytes(org_id@);
            }
        }
        return Err(AppError::MissingConfig(String::from_str("organization_id too long")));
    }
    let mut it = org_id.chars();
    let ghost mut n: int = 0;
    loop
        invariant
            0 <= n <= org_id@.len(),
            it.remaining() == org_id@.skip(n),
            only_org_id_chars(org_id@.take(n)),
            it.obeys_prophetic_iter_laws(),
            it.decrease() is Some,
            0 < org_id@.len(),
            encode_utf8(org_id@).len() <= MAX_ORG_ID_LEN,
        decreases it.decrease()->0,
    {
        match it.next() {
            None => {
                proof {
                    assert(org_id@.take(n) =~= org_id@);
                    lemma_org_id_chars_are_single_bytes(org_id@);
                }
                return Ok(());
            },
            Some(c) => {
                if !org_id_char_ok(c) {
                    assert(!is_org_id_char(org_id@[n]));
                    return Err(
                        AppError::MissingConfig(String::from_str("invalid organization_id format")),
                    );
                }
                proof {
                    assert(org_id@.skip(n).drop_first() =~= org_id@.skip(n + 1));
                    assert forall|i: int| 0 <= i < n + 1 implies is_org_id_char(
                        #[trigger] org_id@.take(n + 1)[i],
                    ) by {
                        if i < n {
                            assert(org_id@.take(n)[i] == org_id@[i]);
                        }
                    }
                    n = n + 1;
                }
            },
        }
    }
}

/// Text made of ID characters is ASCII, so it has as many bytes as
/// characters.
pub proof fn lemma_org_id_chars_are_single_bytes(text: Seq<char>)
    requires
        only_org_id_chars(text),
    ensures
        encode_utf8(text).len() == text.len(),
{
    assert forall|i: int| 0 <= i < text.len() implies '\0' <= #[trigger] text[i] <= '\u{7f}' by {
        assert(is_org_id_char(text[i]));
    }
    is_ascii_chars_encode_utf8(text);
}

} // verus!
