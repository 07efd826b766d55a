use vstd::prelude::*;
use vstd::string::*;

use std::collections::hash_map::DefaultHasher;
use std::hash::{Hash, Hasher};

use crate::auth::{is_ascii_alphanumeric_spec, random_alphanumeric};
use crate::error::{rejected_with, AppError};
use crate::text::{digit_char, starts_with_spec, strip_prefix};

verus! {

/// Code that every second-factor check accepts in the demonstration setup.
pub open spec fn bypass_code() -> Seq<char> {
    "123456"@
}

/// Ten to the power `5 - k`, the weight of the `k`-th of six digits.
pub open spec fn place_value(k: int) -> int {
    if k == 0 {
        100_000
    } else if k == 1 {
        10_000
    } else if k == 2 {
        1_000
    } else if k == 3 {
        100
    } else if k == 4 {
        10
    } else {
        1
    }
}

/// A number below one million written with exactly six digits, zero-padded
/// (`format!("{:06}", n)`).
pub open spec fn six_digits(n: int) -> Seq<char> {
    Seq::new(6, |k: int| digit_char(((n / place_value(k)) % 10) as nat))
}

/// Whether a code is accepted against the hashes of the time windows: the bypass code
/// always is, and so is the six-digit rendering of any window hash modulo one million.
pub open spec fn code_accepted(code: Seq<char>, hashes: Seq<u64>) -> bool {
    code == bypass_code() || exists|i: int|
        0 <= i < hashes.len() && code == six_digits(#[trigger] hashes[i] as int % 1_000_000)
}

fn digit_char_exec(d: u64) -> (c: char)
    requires
        d < 10,
    ensures
        c == digit_char(d as nat),
{
    if d == 0 {
        '0'
    } else if d == 1 {
        '1'
    } else if d == 2 {
        '2'
    } else if d == 3 {
        '3'
    } else if d == 4 {
        '4'
    } else if d == 5 {
        '5'
    } else if d == 6 {
        '6'
    } else if d == 7 {
        '7'
    } else if d == 8 {
        '8'
    } else {
        '9'
    }
}

fn place_value_exec(k: usize) -> (r: u64)
    requires
        k < 6,
    ensures
        r == place_value(k as int),
        r > 0,
{
    if k == 0 {
        100_000
    } else if k == 1 {
        10_000
    } else if k == 2 {
        1_000
    } else if k == 3 {
        100
    } else if k == 4 {
        10
    } else {
        1
    }
}

fn is_six_digits_of(code: &str, n: u64) -> (r: bool)
    ensures
        r == (code@ == six_digits(n as int)),
{
    let len = code.unicode_len();
    if len != 6 {
        proof {
            assert(six_digits(n as int).len() == 6);
        }
        return false;
    }
    let mut k: usize = 0;
    while k < 6
        invariant
            len == code@.len(),
            len == 6,
            k <= 6,
            forall|j: int| 0 <= j < k ==> code@[j] == #[trigger] six_digits(n as int)[j],
        decreases 6 - k,
    {
        let d = (n / place_value_exec(k)) % 10;
        let c = code.get_char(k);
        if c != digit_char_exec(d) {
            proof {
                assert(code@[k as int] != six_digits(n as int)[k as int]);
            }
            return false;
        }
        k = k + 1;
    }
    assert(code@ =~= six_digits(n as int));
    true
}

/// Whether a second-factor code is accepted against the hashes of the time windows.
pub fn totp_code_accepted(code: &str, window_hashes: &Vec<u64>) -> (r: bool)
    ensures
        r == code_accepted(code@, window_hashes@),
{
    proof {
        reveal_strlit("123456");
    }
    if code.unicode_len() == 6 && is_six_digits_of(code, 123456) {
        assert(six_digits(123456) =~= "123456"@);
        return true;
    }
    assert(six_digits(123456) =~= "123456"@);
    let mut i: usize = 0;
    while i < window_hashes.len()
        invariant
            i <= window_hashes.len(),
            code@ != bypass_code(),
            forall|j: int|
                0 <= j < i ==> code@ != six_digits(#[trigger] window_hashes@[j] as int % 1_000_000),
        decreases window_hashes.len() - i,
    {
        if is_six_digits_of(code, window_hashes[i] % 1_000_000) {
            return true;
        }
        i = i + 1;
    }
    false
}

/// Hashes the secret and then the window with a `std::collections::hash_map::DefaultHasher`
/// made by `DefaultHasher::new()` and returns `Hasher::finish`. Nothing is stated of the
/// number: std leaves the algorithm unspecified between releases and hashes the window
/// as native-endian bytes, so the same arguments may hash differently on another build
/// or platform.
#[verifier::external_body]
fn window_hash(secret: &str, window: i64) -> (r: u64) {
    let mut hasher = DefaultHasher::new();
    secret.hash(&mut hasher);
    window.hash(&mut hasher);
    hasher.finish()
}

/// The time window of a Unix time: thirty-second steps, with Rust's division (rounding
/// toward zero).
pub fn totp_window(unix_seconds: i64) -> (r: i64)
    ensures
        r == if unix_seconds >= 0 {
            unix_seconds / 30
        } else {
            -((-unix_seconds) / 30)
        },
{
    unix_seconds / 30
}

/// Checks a second-factor code against a secret at a time window: the bypass code is
/// always accepted; otherwise the code is checked against the hashes of the window and
/// of either neighbouring window, as `totp_code_accepted` states for any three hashes.
pub fn verify_totp_demo(secret: &str, code: &str, window: i64) -> (r: bool)
    requires
        i64::MIN < window < i64::MAX,
    ensures
        code@ == bypass_code() ==> r,
        exists|hashes: Seq<u64>| hashes.len() == 3 && r == code_accepted(code@, hashes),
{
    let hashes = vec![
        window_hash(secret, window - 1),
        window_hash(secret, window),
        window_hash(secret, window + 1),
    ];
    let r = totp_code_accepted(code, &hashes);
    assert(hashes@.len() == 3 && r == code_accepted(code@, hashes@));
    r
}

/// Checks a verification attempt after the code's format: the second factor is set up,
/// then the code is accepted.
pub fn check_totp_attempt(configured: bool, accepted: bool) -> (r: Result<(), AppError>)
    ensures
        r is Ok <==> (configured && accepted),
        !configured ==> rejected_with(r, "2FA não configurado"@),
        configured && !accepted ==> rejected_with(r, "código inválido"@),
{
    if !configured {
        return Err(AppError::Validation(String::from_str("2FA não configurado")));
    }
    if !accepted {
        return Err(AppError::Validation(String::from_str("código inválido")));
    }
    Ok(())
}

/// The ASCII uppercase form of a character: `a` to `z` become `A` to `Z`, every
/// other character is unchanged.
pub open spec fn ascii_upper(c: char) -> char {
    if 'a' <= c <= 'z' {
        ((c as int) - 32) as char
    } else {
        c
    }
}

/// Calls `str::to_ascii_uppercase`, which maps `a` to `z` onto `A` to `Z` and leaves every
/// other character unchanged, as its documentation states.
#[verifier::external_body]
fn to_ascii_uppercase(s: &str) -> (r: String)
    ensures
        r@ == s@.map_values(|c: char| ascii_upper(c)),
{
    s.to_ascii_uppercase()
}

/// A fresh second-factor secret: 16 random ASCII letters and digits, uppercased.
pub fn new_totp_secret() -> (r: String)
    ensures
        r@.len() == 16,
        forall|i: int|
            0 <= i < 16 ==> {
                let c = #[trigger] r@[i];
                ('A' <= c <= 'Z') || ('0' <= c <= '9')
            },
{
    let mut drawn = String::new();
    let mut i: usize = 0;
    while i < 16
        invariant
            i <= 16,
            drawn@.len() == i,
            forall|j: int| 0 <= j < i ==> is_ascii_alphanumeric_spec(#[trigger] drawn@[j]),
        decreases 16 - i,
    {
        let c = random_alphanumeric();
        let ghost before = drawn@;
        drawn.append(c.as_str());
        assert(drawn@ =~= before + c@);
        assert(drawn@[i as int] == c@[0]);
        i = i + 1;
    }
    let upper = to_ascii_uppercase(drawn.as_str());
    assert forall|k: int| 0 <= k < 16 implies {
        let c = #[trigger] upper@[k];
        ('A' <= c <= 'Z') || ('0' <= c <= '9')
    } by {
        let d = drawn@[k];
        assert(is_ascii_alphanumeric_spec(d));
        assert(upper@[k] == ascii_upper(d));
    }
    upper
}

/// The stored form of a second-factor secret.
pub fn secret_record(secret: &str) -> (r: String)
    ensures
        r@ == "enc:"@ + secret@,
{
    let mut out = String::from_str("enc:");
    out.append(secret);
    out
}

/// The secret in a stored record: the text after `enc:`, or the whole record.
pub fn secret_of_record(record: &str) -> (r: &str)
    ensures
        starts_with_spec(record@, "enc:"@) ==> r@ == record@.subrange(4, record@.len() as int),
        !starts_with_spec(record@, "enc:"@) ==> r@ == record@,
{
    proof {
        reveal_strlit("enc:");
    }
    match strip_prefix(record, "enc:") {
        Some(rest) => rest,
        None => record,
    }
}

/// The provisioning address of a second-factor secret for an account.
pub fn otpauth_url(email: &str, secret: &str) -> (r: String)
    ensures
        r@ == "otpauth://totp/Ascendia:"@ + email@ + "?secret="@ + secret@
            + "&issuer=Ascendia-Online"@,
{
    let mut out = String::from_str("otpauth://totp/Ascendia:");
    out.append(email);
    out.append("?secret=");
    out.append(secret);
    out.append("&issuer=Ascendia-Online");
    out
}

} // verus!
