use vstd::prelude::*;
use vstd::string::*;

use argon2::password_hash::{
    rand_core::OsRng, PasswordHash, PasswordHasher, PasswordVerifier, SaltString,
};
use argon2::Argon2;
use jsonwebtoken::{decode, encode, Algorithm, DecodingKey, EncodingKey, Header, Validation};
use uuid::Uuid;

use crate::auth::bearer_token;
use crate::error::AppError;
use crate::text::starts_with_spec;

verus! {

// ---------------------------------------------------------------- passwords

/// Prefix of every password hash this server makes: Argon2id, version 19, 19 MiB of
/// memory, two passes, one lane.
pub open spec fn argon2_hash_prefix() -> Seq<char> {
    "$argon2id$v=19$m=19456,t=2,p=1$"@
}

/// Whether Argon2 verification accepts the password against the stored hash.
pub uninterp spec fn argon2_verifies(hash: Seq<char>, password: Seq<char>) -> bool;

/// Parses the stored hash with `password_hash::PasswordHash::new` and checks the password
/// with `PasswordVerifier::verify_password` of `Argon2::default()`, which recomputes the
/// hash with the algorithm, version, costs and salt that the stored hash names. Stated
/// here: the verdict is a function of the stored hash and the password, a hash that
/// does not parse being refused. How Argon2 computes it is not stated; a stored hash that
/// names enormous costs makes the computation use that much memory and time.
#[verifier::external_body]
fn argon2_check(hash: &str, password: &str) -> (r: bool)
    ensures
        r == argon2_verifies(hash@, password@),
{
    match PasswordHash::new(hash) {
        Ok(parsed) => Argon2::default().verify_password(password.as_bytes(), &parsed).is_ok(),
        Err(_) => false,
    }
}

/// Hashes a password with `PasswordHasher::hash_password` of `Argon2::default()` and a
/// salt from `SaltString::generate(&mut OsRng)`, and renders the PHC string. The salt is
/// random, so only what holds of every outcome is stated: a rendered hash starts with
/// the default algorithm, version and parameters (`$argon2id$v=19$m=19456,t=2,p=1$`),
/// as `Argon2::default()` and the PHC rendering in `password_hash` write them; and it
/// is accepted for the password it was made from, since verification recomputes the
/// hash with the algorithm, version, parameters and salt that the string names, which
/// are those used here. Which salt, and so which string, is not stated.
#[verifier::external_body]
fn argon2_hash(password: &str) -> (r: Option<String>)
    ensures
        r matches Some(h) ==> starts_with_spec(h@, argon2_hash_prefix()),
        r matches Some(h) ==> argon2_verifies(h@, password@),
{
    let salt = SaltString::generate(&mut OsRng);
    Argon2::default().hash_password(password.as_bytes(), &salt).map(|h| h.to_string()).ok()
}

/// Checks a password against its stored hash; a wrong password, or a stored hash that
/// does not parse, is refused as invalid credentials.
pub fn verify_password(hash: &str, password: &str) -> (r: Result<(), AppError>)
    ensures
        r is Ok <==> argon2_verifies(hash@, password@),
        r matches Err(e) ==> e is InvalidCredentials,
{
    if argon2_check(hash, password) {
        Ok(())
    } else {
        Err(AppError::InvalidCredentials)
    }
}

/// Hashes a password for storage with Argon2id and a fresh random salt; the hash
/// accepts the password it was made from.
pub fn hash_password(password: &str) -> (r: Result<String, AppError>)
    ensures
        r matches Ok(h) ==> starts_with_spec(h@, argon2_hash_prefix()),
        r matches Ok(h) ==> argon2_verifies(h@, password@),
        r matches Err(e) ==> (e matches AppError::Internal(m) && m@ == "password hash"@),
{
    match argon2_hash(password) {
        Some(h) => Ok(h),
        None => Err(AppError::Internal(String::from_str("password hash"))),
    }
}

// ---------------------------------------------------------------- access tokens

/// Issuer written into, and demanded of, every access token.
pub open spec fn token_issuer() -> Seq<char> {
    "ascendia-online"@
}

/// Whether `jsonwebtoken::EncodingKey::from_rsa_pem` accepts the bytes as an RSA private
/// key.
pub uninterp spec fn rsa_private_pem_valid(pem: Seq<u8>) -> bool;

/// Whether `jsonwebtoken::DecodingKey::from_rsa_pem` accepts the bytes as an RSA public
/// key.
pub uninterp spec fn rsa_public_pem_valid(pem: Seq<u8>) -> bool;

/// Calls `EncodingKey::from_rsa_pem`. Stated here: whether the PEM parses is a function
/// of its bytes.
#[verifier::external_body]
fn private_pem_parses(pem: &[u8]) -> (r: bool)
    ensures
        r == rsa_private_pem_valid(pem@),
{
    EncodingKey::from_rsa_pem(pem).is_ok()
}

/// Calls `DecodingKey::from_rsa_pem`. Stated here: whether the PEM parses is a function
/// of its bytes.
#[verifier::external_body]
fn public_pem_parses(pem: &[u8]) -> (r: bool)
    ensures
        r == rsa_public_pem_valid(pem@),
{
    DecodingKey::from_rsa_pem(pem).is_ok()
}

/// Checks the signing keys at start-up: the private key, then the public key, must be
/// RSA keys in PEM.
pub fn check_jwt_keys(private_pem: &[u8], public_pem: &[u8]) -> (r: Result<(), AppError>)
    ensures
        r is Ok <==> (rsa_private_pem_valid(private_pem@) && rsa_public_pem_valid(public_pem@)),
        !rsa_private_pem_valid(private_pem@) ==> (r matches Err(AppError::Config(m)) && m@
            == "chave JWT privada inválida"@),
        rsa_private_pem_valid(private_pem@) && !rsa_public_pem_valid(public_pem@) ==> (
        r matches Err(AppError::Config(m)) && m@ == "chave JWT pública inválida"@),
{
    if !private_pem_parses(private_pem) {
        return Err(AppError::Config(String::from_str("chave JWT privada inválida")));
    }
    if !public_pem_parses(public_pem) {
        return Err(AppError::Config(String::from_str("chave JWT pública inválida")));
    }
    Ok(())
}

/// The RS256 token `jsonwebtoken::encode` makes from the key and the claims `sub` and
/// `sid` (the ids as hyphenated UUIDs), `iat`, `exp` and `iss`; `None` when it fails.
pub uninterp spec fn rs256_access_token(
    private_pem: Seq<u8>,
    user: u128,
    session: u128,
    iat: u64,
    exp: u64,
    issuer: Seq<char>,
) -> Option<Seq<char>>;

/// Signs an access token with `jsonwebtoken::encode` (header `RS256`) over a JSON object
/// of the claims, with the key from `EncodingKey::from_rsa_pem`. RSASSA-PKCS1-v1_5
/// signatures and the JSON rendering are deterministic, so the token is a function of
/// the arguments; which text it is, is not stated.
#[verifier::external_body]
fn sign_access_token(
    private_pem: &[u8],
    user: u128,
    session: u128,
    iat: u64,
    exp: u64,
    issuer: &str,
) -> (r: Option<String>)
    ensures
        match r {
            Some(t) => rs256_access_token(private_pem@, user, session, iat, exp, issuer@)
                == Some(t@),
            None => rs256_access_token(private_pem@, user, session, iat, exp, issuer@) is None,
        },
{
    let key = EncodingKey::from_rsa_pem(private_pem).ok()?;
    let mut claims = serde_json::Map::new();
    claims.insert("sub".to_string(), Uuid::from_u128(user).to_string().into());
    claims.insert("sid".to_string(), Uuid::from_u128(session).to_string().into());
    claims.insert("iat".to_string(), iat.into());
    claims.insert("exp".to_string(), exp.into());
    claims.insert("iss".to_string(), issuer.into());
    encode(&Header::new(Algorithm::RS256), &claims, &key).ok()
}

/// The `sub` and `sid` ids that `jsonwebtoken::decode` reads from the token, with the
/// key from `DecodingKey::from_rsa_pem`, when everything but the clock checks out: an
/// RS256 signature by that key, an `exp` claim, the issuer, and both ids as UUIDs.
/// `None` when one of these fails.
pub uninterp spec fn rs256_token_ids(
    token: Seq<char>,
    public_pem: Seq<u8>,
    issuer: Seq<char>,
) -> Option<(u128, u128)>;

/// Decodes an access token with `jsonwebtoken::decode`, demanding an RS256 signature by
/// the public key, an unexpired `exp` and the issuer, and reads the `sub` and `sid`
/// claims as UUIDs. Stated here: the ids come from the token, key and issuer alone, and
/// a token that fails any check but the clock's is refused. Whether an expired token is
/// refused depends on the clock, so that is not stated.
#[verifier::external_body]
fn decode_access_token(token: &str, public_pem: &[u8], issuer: &str) -> (r: Option<
    (u128, u128),
>)
    ensures
        r matches Some(ids) ==> rs256_token_ids(token@, public_pem@, issuer@) == Some(ids),
        rs256_token_ids(token@, public_pem@, issuer@) is None ==> r is None,
{
    let key = DecodingKey::from_rsa_pem(public_pem).ok()?;
    let mut validation = Validation::new(Algorithm::RS256);
    validation.set_issuer(&[issuer]);
    let claims = decode::<serde_json::Value>(token, &key, &validation).ok()?.claims;
    let sub = Uuid::parse_str(claims.get("sub")?.as_str()?).ok()?;
    let sid = Uuid::parse_str(claims.get("sid")?.as_str()?).ok()?;
    Some((sub.as_u128(), sid.as_u128()))
}

/// Expiry of an access token issued at `now` for `access_minutes` minutes, when it fits.
pub open spec fn expiry_fits(now: i64, access_minutes: i64) -> bool {
    &&& i64::MIN <= access_minutes * 60 <= i64::MAX
    &&& i64::MIN <= now + access_minutes * 60 <= i64::MAX
}

/// Issues an access token for a user's session at `now` (seconds since the epoch),
/// valid for `access_minutes` minutes; the times are written as unsigned numbers, as a
/// cast to `usize` writes them.
pub fn issue_access_token(
    private_pem: &[u8],
    user: u128,
    session: u128,
    now: i64,
    access_minutes: i64,
) -> (r: Result<String, AppError>)
    ensures
        !expiry_fits(now, access_minutes) ==> (r matches Err(AppError::Internal(m)) && m@
            == "jwt exp overflow"@),
        expiry_fits(now, access_minutes) ==> {
            let token = rs256_access_token(
                private_pem@,
                user,
                session,
                now as u64,
                (now + access_minutes * 60) as u64,
                token_issuer(),
            );
            &&& r is Ok <==> token is Some
            &&& r matches Ok(t) ==> token == Some(t@)
            &&& token is None ==> (r matches Err(AppError::Internal(m)) && m@ == "jwt encode"@)
        },
{
    let seconds = access_minutes.checked_mul(60);
    let exp = match seconds {
        Some(s) => now.checked_add(s),
        None => None,
    };
    match exp {
        None => Err(AppError::Internal(String::from_str("jwt exp overflow"))),
        Some(e) => {
            proof {
                reveal_strlit("ascendia-online");
            }
            let iat: u64 = #[verifier::truncate] (now as u64);
            let exp_u: u64 = #[verifier::truncate] (e as u64);
            match sign_access_token(private_pem, user, session, iat, exp_u, "ascendia-online") {
                Some(t) => Ok(t),
                None => Err(AppError::Internal(String::from_str("jwt encode"))),
            }
        },
    }
}

/// Checks an access token: signed with the public key, unexpired and from this issuer;
/// gives the user and session ids. Anything else is unauthorized.
pub fn verify_access_token(token: &str, public_pem: &[u8]) -> (r: Result<(u128, u128), AppError>)
    ensures
        r matches Err(e) ==> e is Unauthorized,
        r matches Ok(ids) ==> rs256_token_ids(token@, public_pem@, token_issuer()) == Some(ids),
        rs256_token_ids(token@, public_pem@, token_issuer()) is None ==> r is Err,
{
    proof {
        reveal_strlit("ascendia-online");
    }
    match decode_access_token(token, public_pem, "ascendia-online") {
        Some(ids) => Ok(ids),
        None => Err(AppError::Unauthorized),
    }
}

/// Authenticates a request from its `Authorization` header: a missing header, or one
/// that is not `Bearer <token>`, is unauthorized without looking at any token; otherwise
/// the token decides.
pub fn authenticate(header: Option<&str>, public_pem: &[u8]) -> (r: Result<(u128, u128), AppError>)
    ensures
        r matches Err(e) ==> e is Unauthorized,
        r is Ok ==> (header matches Some(h) && starts_with_spec(h@, "Bearer "@)),
        r matches Ok(ids) ==> (header matches Some(h) && rs256_token_ids(
            h@.subrange(7, h@.len() as int),
            public_pem@,
            token_issuer(),
        ) == Some(ids)),
        header matches Some(h) && rs256_token_ids(
            h@.subrange(7, h@.len() as int),
            public_pem@,
            token_issuer(),
        ) is None ==> r is Err,
{
    match header {
        None => Err(AppError::Unauthorized),
        Some(h) => match bearer_token(h) {
            None => Err(AppError::Unauthorized),
            Some(token) => verify_access_token(token, public_pem),
        },
    }
}

/// Admits an authenticated request while its session stands: the access token of a
/// session revoked by logout or refresh is refused at once, though it has not expired.
pub fn admit_session(ids: (u128, u128), session_revoked: bool) -> (r: Result<(u128, u128), AppError>)
    ensures
        r is Ok <==> !session_revoked,
        r matches Ok(admitted) ==> admitted == ids,
        r matches Err(e) ==> e is Unauthorized,
{
    if session_revoked {
        Err(AppError::Unauthorized)
    } else {
        Ok(ids)
    }
}

} // verus!
