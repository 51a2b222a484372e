use vstd::prelude::*;
use crate::error::{ErrorKind, MediaSoupError};

verus! {

/// Compares two byte strings without an early exit on the first difference.
///
/// Unequal lengths are rejected at once; for equal lengths every byte pair is
/// folded into an accumulator so the time taken does not depend on where the
/// inputs differ.
pub fn constant_time_eq(a: &[u8], b: &[u8]) -> (same: bool)
    ensures
        same == (a@ == b@),
{
    if a.len() != b.len() {
        return false;
    }
    let mut diff: u8 = 0;
    let mut i: usize = 0;
    while i < a.len()
        invariant
            a@.len() == b@.len(),
            0 <= i <= a@.len(),
            (diff == 0) <==> (forall|j: int| 0 <= j < i ==> a@[j] == b@[j]),
        decreases a@.len() - i,
    {
        let x = a[i];
        let y = b[i];
        let next = diff | (x ^ y);
        assert((next == 0) <==> (diff == 0 && x == y)) by (bit_vector)
            requires
                next == diff | (x ^ y),
        ;
        diff = next;
        i = i + 1;
    }
    let same = diff == 0;
    if same {
        assert(a@ =~= b@);
    }
    same
}

/// Checks a client-supplied token against the configured shared secret.
///
/// Without a configured secret every token is accepted (the server then runs
/// unauthenticated); otherwise the token must equal the secret exactly.
pub fn verify_token(expected: &Option<String>, provided: &str) -> (outcome: Result<(), MediaSoupError>)
    ensures
        outcome is Ok <==> token_accepted(*expected, provided@),
        outcome matches Err(e) ==> e@ == (ErrorKind::InvalidRequest, invalid_token_text()),
{
    match expected {
        None => Ok(()),
        Some(secret) => {
            let secret_bytes = secret.as_str().as_bytes();
            let provided_bytes = provided.as_bytes();
            proof {
                vstd::utf8::encode_utf8_decode_utf8(secret@);
                vstd::utf8::encode_utf8_decode_utf8(provided@);
            }
            if constant_time_eq(secret_bytes, provided_bytes) {
                Ok(())
            } else {
                Err(MediaSoupError::InvalidRequest("Invalid authentication token".to_string()))
            }
        }
    }
}

/// Whether a token passes the shared-secret gate.
pub open spec fn token_accepted(expected: Option<String>, provided: Seq<char>) -> bool {
    match expected {
        None => true,
        Some(secret) => secret@ == provided,
    }
}

/// The reason given when a token does not match the secret.
pub open spec fn invalid_token_text() -> Seq<char> {
    "Invalid authentication token"@
}

/// Whether a character is a lowercase hexadecimal digit.
pub open spec fn is_lower_hex(c: char) -> bool {
    ('0' <= c && c <= '9') || ('a' <= c && c <= 'f')
}

/// Whether a text is a version-4 (random) UUID in lowercase hyphenated form,
/// `xxxxxxxx-xxxx-4xxx-Nxxx-xxxxxxxxxxxx` with `N` one of `8`, `9`, `a`, `b`.
pub open spec fn is_uuid_v4_text(s: Seq<char>) -> bool {
    &&& s.len() == 36
    &&& forall|i: int| 0 <= i < 36 ==> if i == 8 || i == 13 || i == 18 || i == 23 {
        #[trigger] s[i] == '-'
    } else {
        is_lower_hex(s[i])
    }
    &&& s[14] == '4'
    &&& (s[19] == '8' || s[19] == '9' || s[19] == 'a' || s[19] == 'b')
}

/// A fresh random identity: `uuid::Uuid::new_v4`, written by its `Display`
/// impl as a lowercase hyphenated UUID whose version digit is `4` and whose
/// variant digit is `8`, `9`, `a` or `b`.  Which UUID comes out is chance;
/// two calls may give the same or different ids.
#[verifier::external_body]
fn random_user_id() -> (id: String)
    ensures
        is_uuid_v4_text(id@),
{
    uuid::Uuid::new_v4().to_string()
}

/// The identity a session takes: the user id the client claims when it is
/// present and non-empty, otherwise a fresh random UUID.
pub fn resolve_user_id(claimed: Option<String>) -> (id: String)
    ensures
        id@.len() > 0,
        match claimed {
            Some(c) => if c@.len() > 0 { id@ == c@ } else { is_uuid_v4_text(id@) },
            None => is_uuid_v4_text(id@),
        },
{
    match claimed {
        Some(c) => {
            if c.as_str().is_empty() {
                random_user_id()
            } else {
                c
            }
        },
        None => random_user_id(),
    }
}

} // verus!
