//! Bearer tokens signed with HMAC-SHA256, carrying expiry, not-before and
//! audience claims.
use vstd::prelude::*;
use hmac::{Hmac, Mac};
use jwt::{Claims, RegisteredClaims, SignWithKey, VerifyWithKey};
use sha2::Sha256;

verus! {

/// Seconds for which a freshly signed token is valid.
pub const TOKEN_LIFETIME_SECS: u64 = 3600;

/// Seconds before signing from which a fresh token is already valid.
pub const TOKEN_SKEW_SECS: u64 = 60;

/// The registered claims that validation reads.
#[derive(Clone, Debug, PartialEq, Eq)]
pub struct TokenClaims {
    pub audience: Option<String>,
    pub expiration: Option<u64>,
    pub not_before: Option<u64>,
}

/// An HMAC-SHA256 signing key, by its bytes.
#[derive(Clone, Debug)]
pub struct AuthKey {
    secret: Vec<u8>,
}

impl AuthKey {
    pub closed spec fn bytes(&self) -> Seq<u8> {
        self.secret@
    }

    /// A key from its bytes; HMAC takes keys of every length.
    pub fn new_from_slice(secret: &[u8]) -> (r: AuthKey)
        ensures
            r.bytes() == secret@,
    {
        let mut bytes: Vec<u8> = Vec::with_capacity(secret.len());
        let mut i: usize = 0;
        while i < secret.len()
            invariant
                i <= secret@.len(),
                bytes@ =~= secret@.subrange(0, i as int),
            decreases secret@.len() - i,
        {
            bytes.push(secret[i]);
            i = i + 1;
        }
        assert(secret@.subrange(0, i as int) =~= secret@);
        AuthKey { secret: bytes }
    }
}

/// The claims of `token` when its signature is valid under `secret`.
pub uninterp spec fn verified_claims(token: Seq<char>, secret: Seq<u8>) -> Option<TokenClaims>;

/// Relies on jwt's `VerifyWithKey` for `&str` with an `Hmac<Sha256>` key
/// (whose `new_from_slice` accepts every key): the token's claims when its
/// HS256 signature checks out under the key, else nothing. The result
/// depends on the token and the key alone.
#[verifier::external_body]
fn verify_token(token: &str, secret: &[u8]) -> (r: Option<TokenClaims>)
    ensures
        r == verified_claims(token@, secret@),
{
    let key = Hmac::<Sha256>::new_from_slice(secret).unwrap();
    let claims: Claims = token.verify_with_key(&key).ok()?;
    Some(TokenClaims {
        audience: claims.registered.audience,
        expiration: claims.registered.expiration,
        not_before: claims.registered.not_before,
    })
}

/// Relies on jwt's `SignWithKey` for `Claims` with an `Hmac<Sha256>` key:
/// the signed token, or nothing when the claims cannot be encoded.
#[verifier::external_body]
fn sign_claims(secret: &[u8], claims: &TokenClaims) -> (r: Option<String>) {
    let key = Hmac::<Sha256>::new_from_slice(secret).unwrap();
    let claims = Claims::new(RegisteredClaims {
        issuer: None,
        audience: claims.audience.clone(),
        expiration: claims.expiration,
        subject: None,
        not_before: claims.not_before,
        issued_at: None,
        json_web_token_id: None,
    });
    claims.sign_with_key(&key).ok()
}

/// Relies on std::time::SystemTime::now: seconds since the unix epoch, or
/// 0 when the clock reads earlier. Nothing is promised of the value.
#[verifier::external_body]
fn unix_time_secs() -> (r: u64) {
    std::time::SystemTime::now().duration_since(std::time::UNIX_EPOCH).map(|d| d.as_secs()).unwrap_or(0)
}

pub open spec fn opt_str_view(o: Option<&str>) -> Option<Seq<char>> {
    match o {
        Some(s) => Some(s@),
        None => None,
    }
}

/// The token's audience is the expected one: both absent, or both present and equal.
pub open spec fn audience_matches(c: TokenClaims, expected: Option<Seq<char>>) -> bool {
    match (c.audience, expected) {
        (None, None) => true,
        (Some(a), Some(e)) => a@ == e,
        _ => false,
    }
}

/// `now` lies strictly between not-before and expiry; a missing claim counts as 0.
pub open spec fn within_validity(c: TokenClaims, now: u64) -> bool {
    let exp = match c.expiration {
        Some(e) => e,
        None => 0,
    };
    let nbf = match c.not_before {
        Some(n) => n,
        None => 0,
    };
    nbf < now && now < exp
}

/// Whether verified claims admit a call that expects `expected_audience` at time `now`.
pub fn claims_accepted(claims: &TokenClaims, expected_audience: Option<&str>, now: u64) -> (r: bool)
    ensures
        r == (audience_matches(*claims, opt_str_view(expected_audience)) && within_validity(
            *claims,
            now,
        )),
{
    let aud_ok = match (&claims.audience, expected_audience) {
        (None, None) => true,
        (Some(a), Some(e)) => {
            let e = e.to_owned();
            *a == e
        },
        _ => false,
    };
    if !aud_ok {
        return false;
    }
    let exp = match claims.expiration {
        Some(e) => e,
        None => 0,
    };
    let nbf = match claims.not_before {
        Some(n) => n,
        None => 0,
    };
    nbf < now && now < exp
}

/// Checks `token` against `secret` for a call that expects
/// `expected_audience`: the signature must verify, the audience must match,
/// and the clock must lie within the token's validity.
pub fn validate_authentication_secrets_as_bytes(
    token: &str,
    secret: &[u8],
    expected_audience: Option<&str>,
) -> (r: bool)
    ensures
        r ==> (verified_claims(token@, secret@) matches Some(c) && audience_matches(
            c,
            opt_str_view(expected_audience),
        )),
        verified_claims(token@, secret@) is None ==> !r,
{
    match verify_token(token, secret) {
        None => false,
        Some(claims) => {
            let now = unix_time_secs();
            claims_accepted(&claims, expected_audience, now)
        },
    }
}

/// `validate_authentication_secrets_as_bytes` with the key's bytes.
pub fn validate_authentication(token: &str, secret: &AuthKey, expected_audience: Option<&str>) -> (r:
    bool)
    ensures
        r ==> (verified_claims(token@, secret.bytes()) matches Some(c) && audience_matches(
            c,
            opt_str_view(expected_audience),
        )),
        verified_claims(token@, secret.bytes()) is None ==> !r,
{
    validate_authentication_secrets_as_bytes(token, secret.secret.as_slice(), expected_audience)
}

/// The claims of a token signed at `now`: valid from `TOKEN_SKEW_SECS`
/// before to `TOKEN_LIFETIME_SECS` after, clamped to the range of `u64`.
pub fn token_claims(audience: Option<String>, now: u64) -> (r: TokenClaims)
    ensures
        r.audience == audience,
        r.expiration == Some(
            if now as int + TOKEN_LIFETIME_SECS <= u64::MAX {
                (now + TOKEN_LIFETIME_SECS) as u64
            } else {
                u64::MAX
            },
        ),
        r.not_before == Some(
            if now >= TOKEN_SKEW_SECS {
                (now - TOKEN_SKEW_SECS) as u64
            } else {
                0
            },
        ),
{
    let exp = if now <= u64::MAX - TOKEN_LIFETIME_SECS {
        now + TOKEN_LIFETIME_SECS
    } else {
        u64::MAX
    };
    let nbf = if now >= TOKEN_SKEW_SECS {
        now - TOKEN_SKEW_SECS
    } else {
        0
    };
    TokenClaims { audience, expiration: Some(exp), not_before: Some(nbf) }
}

/// Signs a token for `audience`, valid for an hour from now.
pub fn sign_token(secret: &AuthKey, audience: Option<String>) -> (r: Option<String>) {
    let now = unix_time_secs();
    let claims = token_claims(audience, now);
    sign_claims(secret.secret.as_slice(), &claims)
}

} // verus!
