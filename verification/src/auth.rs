use vstd::prelude::*;
use vstd::string::*;

use rand::distributions::Alphanumeric;
use rand::Rng;
use sha2::{Digest, Sha256};

use crate::error::{rejected_with, AppError};
use crate::text::{
    lowercase_spec, to_lowercase,
    contains_char, has_char, hex_lower, hex_lower_spec, strip_prefix, starts_with_spec, text_eq,
    trim, trim_spec,
};

verus! {

/// Gender of a character.
#[derive(Clone, Copy, Debug, PartialEq, Eq, Structural)]
pub enum Gender {
    Male,
    Female,
}

impl Gender {
    /// Stored name of the gender.
    pub fn as_str(&self) -> (r: &'static str)
        ensures
            r@ == match *self {
                Gender::Male => "male"@,
                Gender::Female => "female"@,
            },
    {
        match self {
            Gender::Male => "male",
            Gender::Female => "female",
        }
    }
}

/// Sign-up data sent by a client.
#[derive(Debug)]
pub struct RegisterRequest {
    pub email: String,
    pub display_name: String,
    pub password: String,
    pub gender: Gender,
}

/// Sign-in data sent by a client.
#[derive(Debug)]
pub struct LoginRequest {
    pub email: String,
    pub password: String,
}

/// A refresh token presented for rotation.
#[derive(Debug)]
pub struct RefreshRequest {
    pub refresh_token: String,
}

/// Whether `validator::validate_email` accepts the address.
pub uninterp spec fn email_is_valid(email: Seq<char>) -> bool;

/// Calls `validator::validate_email`, which checks an address against the HTML5 form
/// rules (a local part and a domain of bounded length around the last `@`, matched by
/// regular expressions, with internationalized domains converted first). Stated here:
/// the result is a function of the text, and an accepted address is not empty and holds
/// an `@`, as the function rejects such addresses before anything else.
#[verifier::external_body]
fn check_email(email: &str) -> (r: bool)
    ensures
        r == email_is_valid(email@),
        r ==> email@.len() > 0 && has_char(email@, '@'),
{
    validator::validate_email(email)
}

/// Whether the text has between `min` and `max` characters, as the validator counts.
pub open spec fn length_between(s: Seq<char>, min: int, max: int) -> bool {
    min <= s.len() <= max
}

/// Whether a sign-up passes validation: a valid e-mail, a display name of 3 to 24
/// characters and a password of 10 to 128 characters.
pub open spec fn register_valid(email: Seq<char>, display_name: Seq<char>, password: Seq<char>) -> bool {
    &&& email_is_valid(email)
    &&& length_between(display_name, 3, 24)
    &&& length_between(password, 10, 128)
}

fn validation_error(message: &str) -> (e: AppError)
    ensures
        e matches AppError::Validation(m) && m@ == message@,
{
    AppError::Validation(String::from_str(message))
}

/// One line of a validation report: the field, a colon and the field's message.
pub open spec fn field_line(field: Seq<char>, message: Seq<char>) -> Seq<char> {
    field + ": "@ + message
}

/// Lines joined with line breaks.
pub open spec fn join_lines(lines: Seq<Seq<char>>) -> Seq<char>
    decreases lines.len(),
{
    if lines.len() == 0 {
        seq![]
    } else if lines.len() == 1 {
        lines[0]
    } else {
        join_lines(lines.drop_last()) + "\n"@ + lines.last()
    }
}

/// The report of a refused sign-up: one line per failing field, in the order e-mail,
/// display name, password.
pub open spec fn register_report(email: Seq<char>, display_name: Seq<char>, password: Seq<char>) -> Seq<char> {
    let l1: Seq<Seq<char>> = if !email_is_valid(email) {
        seq![field_line("email"@, "e-mail inválido"@)]
    } else {
        seq![]
    };
    let l2: Seq<Seq<char>> = if !length_between(display_name, 3, 24) {
        l1.push(field_line("display_name"@, "nome deve ter entre 3 e 24 caracteres"@))
    } else {
        l1
    };
    let l3: Seq<Seq<char>> = if !length_between(password, 10, 128) {
        l2.push(field_line("password"@, "senha deve ter no mínimo 10 caracteres"@))
    } else {
        l2
    };
    join_lines(l3)
}

fn add_line(report: &mut String, lines: Ghost<Seq<Seq<char>>>, field: &str, message: &str)
    requires
        old(report)@ == join_lines(lines@),
        lines@.len() == 0 <==> old(report)@.len() == 0,
        field@.len() > 0,
    ensures
        final(report)@ == join_lines(lines@.push(field@ + ": "@ + message@)),
        final(report)@.len() > 0,
{
    proof {
        reveal_strlit(": ");
        reveal_strlit("\n");
    }
    let ghost before = report@;
    let had_lines = report.as_str().unicode_len() > 0;
    if had_lines {
        report.append("\n");
    }
    report.append(field);
    report.append(": ");
    report.append(message);
    proof {
        let l = lines@.push(field@ + ": "@ + message@);
        assert(l.drop_last() =~= lines@);
        if lines@.len() == 0 {
            assert(report@ =~= field@ + ": "@ + message@);
        } else {
            assert(report@ =~= join_lines(lines@) + "\n"@ + (field@ + ": "@ + message@));
        }
    }
}

impl RegisterRequest {
    /// Validates a sign-up: a refusal reports every failing field on a line of its own,
    /// as `field: message`.
    pub fn validate(&self) -> (r: Result<(), AppError>)
        ensures
            r is Ok <==> register_valid(self.email@, self.display_name@, self.password@),
            r is Err ==> rejected_with(
                r,
                register_report(self.email@, self.display_name@, self.password@),
            ),
    {
        proof {
            reveal_strlit("email");
            reveal_strlit("display_name");
            reveal_strlit("password");
            reveal_strlit("e-mail inválido");
            reveal_strlit("nome deve ter entre 3 e 24 caracteres");
            reveal_strlit("senha deve ter no mínimo 10 caracteres");
        }
        let email_ok = check_email(self.email.as_str());
        let name_len = self.display_name.as_str().unicode_len();
        let name_ok = 3 <= name_len && name_len <= 24;
        let password_len = self.password.as_str().unicode_len();
        let password_ok = 10 <= password_len && password_len <= 128;
        if email_ok && name_ok && password_ok {
            return Ok(());
        }
        let ghost l0: Seq<Seq<char>> = seq![];
        let mut report = String::new();
        let ghost mut lines = l0;
        assert(report@ == join_lines(lines));
        if !email_ok {
            add_line(&mut report, Ghost(lines), "email", "e-mail inválido");
            proof {
                lines = lines.push("email"@ + ": "@ + "e-mail inválido"@);
            }
        }
        if !name_ok {
            add_line(&mut report, Ghost(lines), "display_name", "nome deve ter entre 3 e 24 caracteres");
            proof {
                lines = lines.push("display_name"@ + ": "@ + "nome deve ter entre 3 e 24 caracteres"@);
            }
        }
        if !password_ok {
            add_line(&mut report, Ghost(lines), "password", "senha deve ter no mínimo 10 caracteres");
            proof {
                lines = lines.push("password"@ + ": "@ + "senha deve ter no mínimo 10 caracteres"@);
            }
        }
        Err(AppError::Validation(report))
    }
}

impl LoginRequest {
    /// Validates a sign-in: the e-mail must be valid.
    pub fn validate(&self) -> (r: Result<(), AppError>)
        ensures
            r is Ok <==> email_is_valid(self.email@),
            !email_is_valid(self.email@) ==> rejected_with(r, "e-mail inválido"@),
    {
        if !check_email(self.email.as_str()) {
            return Err(validation_error("e-mail inválido"));
        }
        Ok(())
    }
}

/// The address as stored: trimmed and lowercased.
pub fn normalize_email(email: &str) -> (r: String)
    ensures
        r@ == lowercase_spec(trim_spec(email@)),
{
    to_lowercase(trim(email))
}

/// The token of an `Authorization` header of the form `Bearer <token>`.
pub fn bearer_token(header: &str) -> (r: Option<&str>)
    ensures
        r is Some <==> starts_with_spec(header@, "Bearer "@),
        r matches Some(token) ==> token@ == header@.subrange(7, header@.len() as int),
{
    proof {
        reveal_strlit("Bearer ");
    }
    strip_prefix(header, "Bearer ")
}

/// The SHA-256 digest of the bytes.
pub uninterp spec fn sha256_spec(data: Seq<u8>) -> Seq<u8>;

/// Calls `sha2::Sha256::digest` and copies the 32-byte digest into a vector. Stated
/// here: the digest is a function of the bytes and has 32 bytes; the hash function
/// itself is not.
#[verifier::external_body]
fn sha256(data: &[u8]) -> (r: Vec<u8>)
    ensures
        r@ == sha256_spec(data@),
        r@.len() == 32,
{
    Sha256::digest(data).to_vec()
}

/// Lowercase hexadecimal SHA-256 of a refresh token's UTF-8 bytes, the form in which
/// tokens are stored.
pub fn token_hash(token: &str) -> (r: String)
    ensures
        r@ == hex_lower_spec(sha256_spec(token.spec_bytes())),
        r@.len() == 64,
{
    let digest = sha256(token.as_bytes());
    proof {
        lemma_hex_length(digest@);
    }
    hex_lower(&digest)
}

/// Hexadecimal rendering takes two characters per byte.
pub proof fn lemma_hex_length(bytes: Seq<u8>)
    ensures
        hex_lower_spec(bytes).len() == 2 * bytes.len(),
    decreases bytes.len(),
{
    if bytes.len() > 0 {
        lemma_hex_length(bytes.drop_last());
    }
}

/// Whether a character is an ASCII letter or digit.
pub open spec fn is_ascii_alphanumeric_spec(c: char) -> bool {
    ('a' <= c <= 'z') || ('A' <= c <= 'Z') || ('0' <= c <= '9')
}

/// Samples `rand::distributions::Alphanumeric` once from `rand::thread_rng()` and
/// turns the byte into a one-character string. The character is random; stated here is
/// what holds of every outcome: one character, an ASCII letter or digit, as the
/// distribution draws from `A-Z`, `a-z` and `0-9`.
#[verifier::external_body]
pub(crate) fn random_alphanumeric() -> (r: String)
    ensures
        r@.len() == 1,
        is_ascii_alphanumeric_spec(r@[0]),
{
    char::from(rand::thread_rng().sample(Alphanumeric)).to_string()
}

/// A fresh refresh token: 64 random ASCII letters and digits.
pub fn new_refresh_token() -> (r: String)
    ensures
        r@.len() == 64,
        forall|i: int| 0 <= i < 64 ==> is_ascii_alphanumeric_spec(#[trigger] r@[i]),
{
    let mut out = String::new();
    let mut i: usize = 0;
    while i < 64
        invariant
            i <= 64,
            out@.len() == i,
            forall|j: int| 0 <= j < i ==> is_ascii_alphanumeric_spec(#[trigger] out@[j]),
        decreases 64 - i,
    {
        let c = random_alphanumeric();
        let ghost before = out@;
        out.append(c.as_str());
        assert(out@ =~= before + c@);
        assert(out@[i as int] == c@[0]);
        i = i + 1;
    }
    out
}

/// OAuth providers that may sign users in.
pub open spec fn provider_supported(provider: Seq<char>) -> bool {
    provider == "google"@ || provider == "discord"@
}

/// Identity data for an OAuth sign-in, after checks and normalization.
#[derive(Debug)]
pub struct OAuthIdentity {
    pub provider: String,
    pub email: String,
    pub display_name: String,
}

/// The text up to the first occurrence of `c` (all of it when `c` does not occur).
pub open spec fn before_char(s: Seq<char>, c: char) -> Seq<char>
    decreases s.len(),
{
    if s.len() == 0 {
        s
    } else if s[0] == c {
        seq![]
    } else {
        seq![s[0]] + before_char(s.drop_first(), c)
    }
}

fn prefix_before(s: &str, c: char) -> (r: &str)
    ensures
        r@ == before_char(s@, c),
{
    let n = s.unicode_len();
    let mut i: usize = 0;
    assert(s@.subrange(0, n as int) =~= s@);
    assert(s@.subrange(0, 0) + s@ =~= s@);
    while i < n && s.get_char(i) != c
        invariant
            n == s@.len(),
            i <= n,
            forall|j: int| 0 <= j < i ==> s@[j] != c,
            before_char(s@, c) == s@.subrange(0, i as int) + before_char(
                s@.subrange(i as int, n as int),
                c,
            ),
        decreases n - i,
    {
        let ghost rest = s@.subrange(i as int, n as int);
        assert(rest.drop_first() =~= s@.subrange(i + 1, n as int));
        assert(s@.subrange(0, i + 1) =~= s@.subrange(0, i as int) + seq![s@[i as int]]);
        i = i + 1;
    }
    proof {
        assert(s@.subrange(0, 0) =~= seq![]);
        let rest = s@.subrange(i as int, n as int);
        if i == n {
            assert(rest.len() == 0);
        } else {
            assert(rest[0] == c);
        }
        assert(before_char(s@, c) =~= s@.subrange(0, i as int));
    }
    s.substring_char(0, i)
}

/// Checks an OAuth sign-in and normalizes its identity: the provider (lowercased) must
/// be Google or Discord, the provider's user id must have at least three bytes and the
/// trimmed e-mail must hold an `@`; the e-mail is kept trimmed and lowercased. Without a display name, the part of
/// the e-mail before the `@` is used.
pub fn oauth_identity(
    provider: &str,
    provider_user_id: &str,
    email: &str,
    display_name: Option<String>,
) -> (r: Result<OAuthIdentity, AppError>)
    ensures
        r is Ok <==> (provider_supported(lowercase_spec(provider@))
            && provider_user_id.len() >= 3 && has_char(trim_spec(email@), '@')),
        !provider_supported(lowercase_spec(provider@)) ==> rejected_with(r, "provider deve ser google ou discord"@),
        provider_supported(lowercase_spec(provider@)) && provider_user_id.len() < 3 ==> rejected_with(r, "provider_user_id inválido"@),
        provider_supported(lowercase_spec(provider@)) && provider_user_id.len() >= 3 && !has_char(trim_spec(email@), '@') ==> rejected_with(r, "email inválido"@),
        r matches Ok(id) ==> {
            &&& id.provider@ == lowercase_spec(provider@)
            &&& id.email@ == lowercase_spec(trim_spec(email@))
            &&& id.display_name@ == match display_name {
                Some(name) => name@,
                None => before_char(lowercase_spec(trim_spec(email@)), '@'),
            }
        },
{
    let provider = to_lowercase(provider);
    if !(text_eq(provider.as_str(), "google") || text_eq(provider.as_str(), "discord")) {
        return Err(validation_error("provider deve ser google ou discord"));
    }
    if provider_user_id.len() < 3 {
        return Err(validation_error("provider_user_id inválido"));
    }
    let trimmed = trim(email);
    if !contains_char(trimmed, '@') {
        return Err(validation_error("email inválido"));
    }
    let email = to_lowercase(trimmed);
    let display_name = match display_name {
        Some(name) => name,
        None => String::from_str(prefix_before(email.as_str(), '@')),
    };
    Ok(OAuthIdentity { provider, email, display_name })
}

/// Account an OAuth sign-in lands on: the account already linked to the provider
/// identity, else the account with the same e-mail (which gets linked), else a new one.
#[derive(Clone, Copy, Debug, PartialEq, Eq, Structural)]
pub enum OAuthAccount {
    /// The provider identity is already linked to this user.
    Linked(u128),
    /// The e-mail belongs to this user, who gets the provider identity linked.
    LinkByEmail(u128),
    /// No account matches: a new user is created.
    Create,
}

/// Decides the account of an OAuth sign-in from the user linked to the provider
/// identity and the user holding the e-mail, if any.
pub fn oauth_account(linked: Option<u128>, by_email: Option<u128>) -> (r: OAuthAccount)
    ensures
        r == match linked {
            Some(u) => OAuthAccount::Linked(u),
            None => match by_email {
                Some(u) => OAuthAccount::LinkByEmail(u),
                None => OAuthAccount::Create,
            },
        },
{
    match linked {
        Some(u) => OAuthAccount::Linked(u),
        None => match by_email {
            Some(u) => OAuthAccount::LinkByEmail(u),
            None => OAuthAccount::Create,
        },
    }
}

impl OAuthAccount {
    /// Whether the sign-in is reported as new: no account was linked to the provider
    /// identity before (linking by e-mail counts as new).
    pub fn is_new(&self) -> (r: bool)
        ensures
            r == !(*self is Linked),
    {
        !matches!(self, OAuthAccount::Linked(_))
    }

    /// The user signed in: the matching account, or `created` for a new one.
    pub fn user_id(&self, created: u128) -> (r: u128)
        ensures
            r == match *self {
                OAuthAccount::Linked(u) => u,
                OAuthAccount::LinkByEmail(u) => u,
                OAuthAccount::Create => created,
            },
    {
        match self {
            OAuthAccount::Linked(u) => *u,
            OAuthAccount::LinkByEmail(u) => *u,
            OAuthAccount::Create => created,
        }
    }
}

/// Whether a second-factor code is well formed: six ASCII digits.
pub open spec fn totp_code_well_formed(code: Seq<char>) -> bool {
    code.len() == 6 && forall|i: int| 0 <= i < 6 ==> '0' <= #[trigger] code[i] <= '9'
}

/// Checks that a second-factor code is six ASCII digits.
pub fn check_totp_code(code: &str) -> (r: Result<(), AppError>)
    ensures
        r is Ok <==> totp_code_well_formed(code@),
        !totp_code_well_formed(code@) ==> rejected_with(r, "código deve ter 6 dígitos"@),
{
    let n = code.unicode_len();
    if n != 6 {
        return Err(validation_error("código deve ter 6 dígitos"));
    }
    let mut i: usize = 0;
    while i < 6
        invariant
            n == code@.len(),
            n == 6,
            i <= 6,
            forall|j: int| 0 <= j < i ==> '0' <= #[trigger] code@[j] <= '9',
        decreases 6 - i,
    {
        let c = code.get_char(i);
        if !('0' <= c && c <= '9') {
            return Err(validation_error("código deve ter 6 dígitos"));
        }
        i = i + 1;
    }
    Ok(())
}

/// Whether an account may use the administration area: administrators and game
/// masters may.
pub fn require_admin(is_admin: bool, is_gm: bool) -> (r: Result<(), AppError>)
    ensures
        r is Ok <==> (is_admin || is_gm),
        r matches Err(e) ==> e is Unauthorized,
{
    if is_admin || is_gm {
        Ok(())
    } else {
        Err(AppError::Unauthorized)
    }
}

/// Whether an account may grant administrator rights: an administrator may, and so may
/// the account whose e-mail is the configured bootstrap e-mail.
pub fn may_grant_admin(self_admin: bool, self_email: &str, admin_email: &str) -> (r: Result<
    (),
    AppError,
>)
    ensures
        r is Ok <==> (self_admin || self_email@ == admin_email@),
        r matches Err(e) ==> e is Unauthorized,
{
    if !self_admin && !text_eq(self_email, admin_email) {
        return Err(AppError::Unauthorized);
    }
    Ok(())
}

} // verus!
