//! Bearer tokens: issuing them for an identity and role, and reading an
//! `Authorization` header back into the identity and role it vouches for.
//!
//! Signing and the three-part wire format are jsonwebtoken's (HS512). The
//! expiry instant is checked here, against a clock value handed in, so that
//! the outcome of a verification is a function of its inputs.

use vstd::prelude::*;
use vstd::string::*;

use crate::error::Error;
use crate::identity::{
    is_subject, lemma_subject_names_one, names, same_identity, subject_of, valid_identity, Identity,
};
use crate::role::{lemma_role_name_round_trip, role_name, role_named, Role};
use crate::text::{has_prefix, starts_with};

verus! {

/// The claims a token carries: subject `"collection:key"`, role name, and
/// expiry instant in seconds since the Unix epoch.
pub struct Claims {
    pub sub: String,
    pub role: String,
    pub exp: u64,
}

/// The claims read back from a token whose signature checked out; a claim
/// that is absent or of the wrong JSON type is `None`.
pub struct DecodedClaims {
    pub sub: Option<String>,
    pub role: Option<String>,
    pub exp: Option<u64>,
}

/// The token that HS512 signing of these claims under `secret` produces.
pub uninterp spec fn hs512_token(sub: Seq<char>, role: Seq<char>, exp: u64, secret: Seq<u8>) -> Seq<char>;

/// The claims that a token carries when its HS512 signature checks under
/// `secret`, each `None` when absent or of the wrong JSON type; `None` when
/// the token is not a well-formed HS512 token signed under `secret`.
pub uninterp spec fn hs512_claims(token: Seq<char>, secret: Seq<u8>) -> Option<(Option<Seq<char>>, Option<Seq<char>>, Option<u64>)>;

/// Decoded claims, viewed.
pub open spec fn claims_view(d: DecodedClaims) -> (Option<Seq<char>>, Option<Seq<char>>, Option<u64>) {
    (
        match d.sub {
            Some(s) => Some(s@),
            None => None,
        },
        match d.role {
            Some(s) => Some(s@),
            None => None,
        },
        d.exp,
    )
}

/// The outcome of decoding, viewed.
pub open spec fn decoded_view(r: Result<DecodedClaims, String>) -> Option<(Option<Seq<char>>, Option<Seq<char>>, Option<u64>)> {
    match r {
        Ok(d) => Some(claims_view(d)),
        Err(_) => None,
    }
}

/// `r` is the successful decoding of exactly these claims.
pub open spec fn decodes_to(r: Result<DecodedClaims, String>, sub: Seq<char>, role: Seq<char>, exp: u64) -> bool {
    &&& r is Ok
    &&& r->Ok_0.sub is Some && r->Ok_0.sub->Some_0@ == sub
    &&& r->Ok_0.role is Some && r->Ok_0.role->Some_0@ == role
    &&& r->Ok_0.exp == Some(exp)
}

/// Relies on `jsonwebtoken::encode` with an HS512 header and an HMAC key made
/// from `secret`: the header and the key are of the same (HMAC) family,
/// serialising the header and a map of strings and an integer cannot fail,
/// and HMAC signing cannot fail, so it always succeeds; the token it returns
/// is determined by the claims and the secret alone.
#[verifier::external_body]
fn encode_claims(claims: &Claims, secret: &[u8]) -> (r: Result<String, String>)
    ensures
        r is Ok,
        r is Ok ==> r->Ok_0@ == hs512_token(claims.sub@, claims.role@, claims.exp, secret@),
{
    let mut map = serde_json::Map::new();
    map.insert(String::from("sub"), serde_json::Value::from(claims.sub.as_str()));
    map.insert(String::from("role"), serde_json::Value::from(claims.role.as_str()));
    map.insert(String::from("exp"), serde_json::Value::from(claims.exp));
    let header = jsonwebtoken::Header::new(jsonwebtoken::Algorithm::HS512);
    let key = jsonwebtoken::EncodingKey::from_secret(secret);
    jsonwebtoken::encode(&header, &map, &key).map_err(|e| e.to_string())
}

/// Relies on `jsonwebtoken::decode` accepting HS512 only, with its own expiry
/// check switched off: it checks the signature under `secret` and returns the
/// claims, so its outcome depends on the token and the secret alone, and a
/// token that `encode_claims` made under the same secret reads back as the
/// claims it was made from.
#[verifier::external_body]
fn decode_claims(token: &str, secret: &[u8]) -> (r: Result<DecodedClaims, String>)
    ensures
        decoded_view(r) == hs512_claims(token@, secret@),
        forall|sub: Seq<char>, role: Seq<char>, exp: u64|
            #[trigger] hs512_token(sub, role, exp, secret@) == token@ ==> decodes_to(r, sub, role, exp),
{
    let mut validation = jsonwebtoken::Validation::new(jsonwebtoken::Algorithm::HS512);
    validation.validate_exp = false;
    let key = jsonwebtoken::DecodingKey::from_secret(secret);
    let data = jsonwebtoken::decode::<serde_json::Map<String, serde_json::Value>>(token, &key, &validation)
        .map_err(|e| e.to_string())?;
    Ok(DecodedClaims {
        sub: data.claims.get("sub").and_then(serde_json::Value::as_str).map(String::from),
        role: data.claims.get("role").and_then(serde_json::Value::as_str).map(String::from),
        exp: data.claims.get("exp").and_then(serde_json::Value::as_u64),
    })
}

/// Relies on `chrono::Utc::now`: the current time, in whole seconds since the
/// Unix epoch. It measures the time elapsed since the epoch, so it is never
/// negative; nothing else is known of its value.
#[verifier::external_body]
fn unix_now() -> (r: i64)
    ensures
        r >= 0,
{
    chrono::Utc::now().timestamp()
}

/// The header prefix that introduces a bearer token.
pub open spec fn bearer() -> Seq<char> {
    seq!['B', 'e', 'a', 'r', 'e', 'r', ' ']
}

/// The token part of a header value that carries the bearer prefix.
pub open spec fn bearer_token(header: Seq<char>) -> Seq<char> {
    header.skip(bearer().len() as int)
}

/// Claims that a verification at instant `now` accepts: not yet expired, a
/// subject naming one identity, and a known role name.
pub open spec fn claims_accepted(sub: Seq<char>, role: Seq<char>, exp: u64, now: u64) -> bool {
    now <= exp && is_subject(sub) && role_named(role) is Some
}

/// `r` is the verdict on these claims at instant `now`: the identity and role
/// they name when accepted, an invalid-credential error otherwise.
pub open spec fn verdict(sub: Seq<char>, role: Seq<char>, exp: u64, now: u64, r: Result<(Identity, Role), Error>) -> bool {
    if claims_accepted(sub, role, exp, now) {
        r is Ok && names(r->Ok_0.0, sub) && role_named(role) == Some(r->Ok_0.1)
    } else {
        r is Err && r->Err_0 is JWTTokenError
    }
}

/// `r` is the verdict on the outcome of decoding: the verdict on the claims
/// when the signature checked out and every claim is present, an
/// invalid-credential error otherwise.
pub open spec fn claims_verdict(decoded: Option<(Option<Seq<char>>, Option<Seq<char>>, Option<u64>)>, now: u64, r: Result<(Identity, Role), Error>) -> bool {
    match decoded {
        Some((Some(sub), Some(role), Some(exp))) => verdict(sub, role, exp, now, r),
        _ => r is Err && r->Err_0 is JWTTokenError,
    }
}

/// What verifying `token` under `secret` at instant `now` returns: the
/// verdict on the claims the token carries under this secret, which for a
/// token signed from some claims under this secret are those claims.
pub open spec fn token_verdict(token: Seq<char>, secret: Seq<u8>, now: u64, r: Result<(Identity, Role), Error>) -> bool {
    &&& claims_verdict(hs512_claims(token, secret), now, r)
    &&& forall|sub: Seq<char>, role: Seq<char>, exp: u64|
        #[trigger] hs512_token(sub, role, exp, secret) == token ==> verdict(sub, role, exp, now, r)
}

/// What reading a whole `Authorization` header value (or its absence) at
/// instant `now` returns.
pub open spec fn header_verdict(header: Option<Seq<char>>, secret: Seq<u8>, now: u64, r: Result<(Identity, Role), Error>) -> bool {
    match header {
        None => r is Err && r->Err_0 is JWTTokenNotFoundOnHeader,
        Some(h) => if has_prefix(h, bearer()) {
            token_verdict(bearer_token(h), secret, now, r)
        } else {
            r is Err && r->Err_0 is JWTInvalidAuthHeader
        },
    }
}

/// The optional header value, viewed.
pub open spec fn header_view(header: Option<&str>) -> Option<Seq<char>> {
    match header {
        Some(h) => Some(h@),
        None => None,
    }
}

/// The token issued for `user` with `role` at instant `now`, valid for `ttl` seconds.
pub open spec fn issued_token(user: Identity, role: Role, secret: Seq<u8>, now: u64, ttl: int) -> Seq<char> {
    hs512_token(subject_of(user.collection@, user.key@), role_name(role), (now + ttl) as u64, secret)
}

/// Builds the claims for `user` with `role` expiring at `exp`.
pub fn claims_for(user: &Identity, role: &Role, exp: u64) -> (r: Claims)
    ensures
        r.sub@ == subject_of(user.collection@, user.key@),
        r.role@ == role_name(*role),
        r.exp == exp,
{
    Claims { sub: user.to_subject(), role: role.name(), exp }
}

/// Issues a token for `user` with `role`, valid from `now` for `ttl` seconds.
/// Fails with a token-creation error exactly when the expiry instant does not
/// fit in 64 bits.
pub fn issue_token(user: &Identity, role: &Role, secret: &[u8], now: u64, ttl: u64) -> (r: Result<String, Error>)
    ensures
        r is Err <==> now as int + ttl as int > u64::MAX,
        r is Ok ==> r->Ok_0@ == issued_token(*user, *role, secret@, now, ttl as int),
        r is Err ==> r->Err_0 is JWTTokenCreationError,
{
    let exp = match now.checked_add(ttl) {
        Some(e) => e,
        None => {
            return Err(Error::JWTTokenCreationError(String::from_str("expiry instant out of range")));
        },
    };
    let claims = claims_for(user, role, exp);
    match encode_claims(&claims, secret) {
        Ok(token) => Ok(token),
        Err(cause) => Err(Error::JWTTokenCreationError(cause)),
    }
}

/// The longest lifetime, in minutes, whose length in seconds fits in 64 bits.
pub const MAX_TTL_MINUTES: i64 = 307445734561825860;

/// Issues a token for `user` with `role` that expires `minutes` minutes from
/// the current time. Fails with a token-creation error when `minutes` is
/// negative or the expiry instant does not fit in 64 bits.
pub fn create_jwt(user: &Identity, role: &Role, secret: &[u8], minutes: i64) -> (r: Result<String, Error>)
    ensures
        minutes < 0 || minutes > MAX_TTL_MINUTES ==> r is Err,
        r is Err ==> minutes < 0 || exists|now: u64| now + 60 * minutes > u64::MAX && #[trigger] clock_reading(now),
        r is Ok ==> exists|now: u64|
            now + 60 * minutes <= u64::MAX
                && r->Ok_0@ == #[trigger] issued_token(*user, *role, secret@, now, 60 * minutes),
        r is Err ==> r->Err_0 is JWTTokenCreationError,
{
    let now = unix_now_seconds();
    if minutes < 0 || minutes > MAX_TTL_MINUTES {
        assert(clock_reading(now));
        return Err(Error::JWTTokenCreationError(String::from_str("expiry instant out of range")));
    }
    let ttl: u64 = (minutes as u64) * 60;
    let r = issue_token(user, role, secret, now, ttl);
    proof {
        if r is Ok {
            assert(r->Ok_0@ == issued_token(*user, *role, secret@, now, 60 * minutes));
        } else {
            assert(clock_reading(now));
        }
    }
    r
}

/// Takes the token out of an `Authorization` header value: absent header,
/// or a value without the `"Bearer "` prefix, are refused.
pub fn parse_jwt_from_header(header: Option<&str>) -> (r: Result<String, Error>)
    ensures
        header is None ==> r is Err && r->Err_0 is JWTTokenNotFoundOnHeader,
        header is Some && !has_prefix(header->Some_0@, bearer()) ==> r is Err && r->Err_0 is JWTInvalidAuthHeader,
        header is Some && has_prefix(header->Some_0@, bearer()) ==> r is Ok && r->Ok_0@ == bearer_token(header->Some_0@),
{
    match header {
        None => Err(Error::JWTTokenNotFoundOnHeader),
        Some(value) => {
            let prefix = "Bearer ";
            proof {
                reveal_strlit("Bearer ");
            }
            assert(prefix@ =~= bearer());
            if !starts_with(value, prefix) {
                return Err(Error::JWTInvalidAuthHeader);
            }
            let n = value.unicode_len();
            let token = value.substring_char(7, n);
            assert(token@ =~= bearer_token(value@));
            Ok(String::from_str(token))
        },
    }
}

/// The verdict on decoded claims at instant `now`: the identity and role they
/// name when the signature checked out, every claim is present, the expiry
/// instant is not past, the subject names one identity and the role name is
/// known; an invalid-credential error otherwise.
pub fn check_claims(decoded: Result<DecodedClaims, String>, now: u64) -> (r: Result<(Identity, Role), Error>)
    ensures
        claims_verdict(decoded_view(decoded), now, r),
{
    let claims = match decoded {
        Ok(c) => c,
        Err(cause) => {
            return Err(Error::JWTTokenError(cause));
        },
    };
    let (sub, role, exp) = match (claims.sub, claims.role, claims.exp) {
        (Some(s), Some(ro), Some(e)) => (s, ro, e),
        _ => {
            return Err(Error::JWTTokenError(String::from_str("missing claim")));
        },
    };
    if now > exp {
        return Err(Error::JWTTokenError(String::from_str("expired token")));
    }
    let id = match Identity::from_subject(sub.as_str()) {
        Some(id) => id,
        None => {
            return Err(Error::JWTTokenError(String::from_str("malformed subject")));
        },
    };
    match Role::from_str(role.as_str()) {
        Some(r) => Ok((id, r)),
        None => Err(Error::JWTTokenError(String::from_str("unknown role"))),
    }
}

/// Verifies a bare token under `secret` at instant `now`.
pub fn verify_token(token: &str, secret: &[u8], now: u64) -> (r: Result<(Identity, Role), Error>)
    ensures
        token_verdict(token@, secret@, now, r),
{
    let decoded = decode_claims(token, secret);
    check_claims(decoded, now)
}

/// Reads an `Authorization` header value (or its absence) at instant `now`
/// into the identity and role its token vouches for.
pub fn authorize_at(header: Option<&str>, secret: &[u8], now: u64) -> (r: Result<(Identity, Role), Error>)
    ensures
        header_verdict(header_view(header), secret@, now, r),
{
    let token = parse_jwt_from_header(header)?;
    verify_token(token.as_str(), secret, now)
}

/// A value that the clock may read; nothing is known of it.
pub open spec fn clock_reading(now: u64) -> bool {
    true
}

/// The current time in seconds since the Unix epoch.
pub fn unix_now_seconds() -> (r: u64) {
    let now = unix_now();
    now as u64
}

/// Reads an `Authorization` header value (or its absence) at the current
/// time into the identity and role its token vouches for.
pub fn authorize(header: Option<&str>, secret: &[u8]) -> (r: Result<(Identity, Role), Error>)
    ensures
        exists|now: u64| header_verdict(header_view(header), secret@, now, r),
        header is None ==> r is Err && r->Err_0 is JWTTokenNotFoundOnHeader,
{
    let now = unix_now_seconds();
    authorize_at(header, secret, now)
}

/// A header value that does not begin with `"Bearer "` is refused as
/// malformed, whatever else it holds.
pub proof fn lemma_header_without_bearer_is_malformed(header: Seq<char>, secret: Seq<u8>, now: u64, r: Result<(Identity, Role), Error>)
    requires
        !has_prefix(header, bearer()),
        header_verdict(Some(header), secret, now, r),
    ensures
        r is Err && r->Err_0 is JWTInvalidAuthHeader,
{
}

/// A token issued for a valid identity and a role, presented as
/// `"Bearer <token>"` and verified under the same secret no later than its
/// expiry instant, yields that identity and that role.
pub proof fn lemma_issued_token_verifies(
    user: Identity,
    role: Role,
    secret: Seq<u8>,
    issued_at: u64,
    ttl: u64,
    now: u64,
    r: Result<(Identity, Role), Error>,
)
    requires
        valid_identity(user),
        issued_at + ttl <= u64::MAX,
        now <= issued_at + ttl,
        header_verdict(Some(bearer() + issued_token(user, role, secret, issued_at, ttl as int)), secret, now, r),
    ensures
        r is Ok,
        same_identity(r->Ok_0.0, user),
        r->Ok_0.1 == role,
{
    let token = issued_token(user, role, secret, issued_at, ttl as int);
    let header = bearer() + token;
    let sub = subject_of(user.collection@, user.key@);
    let exp = (issued_at + ttl) as u64;
    assert(header.subrange(0, bearer().len() as int) =~= bearer());
    assert(bearer_token(header) =~= token);
    assert(hs512_token(sub, role_name(role), exp, secret) == token);
    lemma_role_name_round_trip(role);
    assert(is_subject(sub));
    assert(verdict(sub, role_name(role), exp, now, r));
    assert(names(user, sub));
    lemma_subject_names_one(r->Ok_0.0, user, sub);
}

/// A token presented after its expiry instant is refused as an invalid
/// credential; it never yields an identity.
pub proof fn lemma_expired_token_fails(token: Seq<char>, secret: Seq<u8>, exp: u64, now: u64, r: Result<(Identity, Role), Error>)
    requires
        hs512_claims(token, secret) is Some,
        hs512_claims(token, secret)->Some_0.2 == Some(exp),
        exp < now,
        header_verdict(Some(bearer() + token), secret, now, r),
    ensures
        r is Err && r->Err_0 is JWTTokenError,
{
    let header = bearer() + token;
    assert(header.subrange(0, bearer().len() as int) =~= bearer());
    assert(bearer_token(header) =~= token);
}

/// A token whose signature does not check under the secret, or that is not
/// a well-formed HS512 token at all, is refused as an invalid credential.
pub proof fn lemma_unsigned_token_fails(token: Seq<char>, secret: Seq<u8>, now: u64, r: Result<(Identity, Role), Error>)
    requires
        hs512_claims(token, secret) is None,
        header_verdict(Some(bearer() + token), secret, now, r),
    ensures
        r is Err && r->Err_0 is JWTTokenError,
{
    let header = bearer() + token;
    assert(header.subrange(0, bearer().len() as int) =~= bearer());
    assert(bearer_token(header) =~= token);
}

} // verus!
