//! The guest's client state for the metadata service: the session token,
//! when it must be renewed, and how a token response is judged.
use vstd::prelude::*;

verus! {

/// Lifetime requested for a metadata session token: four hours.
pub const MMDS_TOKEN_TTL_SECS: u64 = 14400;

/// Failures of the metadata client.
#[derive(Clone, Copy, Debug, PartialEq, Eq, Structural)]
pub enum MMDSClientError {
    RequestError,
    ResponseSchemaParseError,
}

/// A session token and the unix time, in seconds, at which it lapses.
#[derive(Clone, Debug)]
pub struct MmdsToken {
    pub token: String,
    pub expiry_secs: u64,
}

/// `s` without leading and trailing whitespace.
pub uninterp spec fn trimmed(s: Seq<char>) -> Seq<char>;

/// Relies on str::trim: the string without leading and trailing white space.
#[verifier::external_body]
fn trim(s: &str) -> (r: String)
    ensures
        r@ == trimmed(s@),
{
    s.trim().to_string()
}

/// A token is renewed once the clock reaches its expiry.
pub fn needs_rotation(token: Option<&MmdsToken>, now_secs: u64) -> (r: bool)
    ensures
        r == match token {
            None => true,
            Some(t) => now_secs >= t.expiry_secs,
        },
{
    match token {
        None => true,
        Some(t) => now_secs >= t.expiry_secs,
    }
}

pub open spec fn expiry_after(now_secs: u64) -> u64 {
    if now_secs as int + MMDS_TOKEN_TTL_SECS <= u64::MAX {
        (now_secs + MMDS_TOKEN_TTL_SECS) as u64
    } else {
        u64::MAX
    }
}

/// Judges the service's answer to a token request made at `now_secs`: only
/// status 200 with a non-empty body is a token, which is the body trimmed.
pub fn accept_token_response(status: u16, body: &str, now_secs: u64) -> (r: Result<MmdsToken, MMDSClientError>)
    ensures
        status != 200 ==> r == Err::<MmdsToken, MMDSClientError>(MMDSClientError::RequestError),
        status == 200 && body@.len() == 0 ==> r == Err::<MmdsToken, MMDSClientError>(
            MMDSClientError::ResponseSchemaParseError,
        ),
        status == 200 && body@.len() > 0 ==> (r matches Ok(t) && t.token@ == trimmed(body@)
            && t.expiry_secs == expiry_after(now_secs)),
{
    if status != 200 {
        return Err(MMDSClientError::RequestError);
    }
    if body.is_empty() {
        return Err(MMDSClientError::ResponseSchemaParseError);
    }
    let expiry = if now_secs <= u64::MAX - MMDS_TOKEN_TTL_SECS {
        now_secs + MMDS_TOKEN_TTL_SECS
    } else {
        u64::MAX
    };
    Ok(MmdsToken { token: trim(body), expiry_secs: expiry })
}

} // verus!
