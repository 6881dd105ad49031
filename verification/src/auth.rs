//! The Auth Codec: a pure function from a platform credential to the Basic
//! authorization header value the platform expects.

use vstd::prelude::*;
use vstd::string::*;
use base64::Engine;

verus! {

/// The standard-alphabet, padded base64 encoding of a string's bytes. The
/// encoding is a function of the input alone.
pub uninterp spec fn base64_standard_of(s: Seq<char>) -> Seq<char>;

/// Relies on base64's `STANDARD` engine (`Engine::encode`): a deterministic
/// encoding of the input bytes, empty exactly on empty input.
#[verifier::external_body]
fn base64_encode(s: &str) -> (r: String)
    ensures
        r@ == base64_standard_of(s@),
        s@.len() == 0 ==> r@.len() == 0,
{
    base64::engine::general_purpose::STANDARD.encode(s)
}

/// The header value for a credential: `Basic` and the base64 encoding of
/// `API_KEY:<credential>`.
pub open spec fn spec_auth_header(key: Seq<char>) -> Seq<char> {
    "Basic "@ + base64_standard_of("API_KEY:"@ + key)
}

/// Build the platform's Basic authorization header value from a credential.
/// Always succeeds, with no side effects.
pub fn auth_header(api_key: &str) -> (r: String)
    ensures
        r@ == spec_auth_header(api_key@),
{
    let mut token_input: String = "API_KEY:".to_owned();
    token_input.append(api_key);
    let token = base64_encode(token_input.as_str());
    let mut r: String = "Basic ".to_owned();
    r.append(token.as_str());
    proof {
        assert(r@ =~= spec_auth_header(api_key@));
    }
    r
}

/// The Auth Codec is deterministic: one credential has one header value, so
/// encoding the same credential twice yields identical results.
pub proof fn lemma_auth_header_deterministic(k1: Seq<char>, k2: Seq<char>)
    requires
        k1 == k2,
    ensures
        spec_auth_header(k1) == spec_auth_header(k2),
{
}

} // verus!
