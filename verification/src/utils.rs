//! Credential hashing and the password composition rule.

use sha2::Digest;
use validator::ValidateEmail;
use vstd::prelude::*;
use vstd::string::*;
use vstd::utf8::encode_utf8;

pub mod error;
pub mod jwt;

verus! {

/// The SHA-256 digest of `message`.
pub uninterp spec fn sha256_digest(message: Seq<u8>) -> Seq<u8>;

/// Runs the `sha2` crate's `Sha256` hasher (`new`, `update`, `finalize`) over
/// `message`. Trusted: the bytes returned are SHA-256 of the message, and there
/// are 32 of them, the output size the crate fixes for this hasher.
#[verifier::external_body]
fn sha256(message: &[u8]) -> (digest: Vec<u8>)
    ensures
        digest@ == sha256_digest(message@),
        digest@.len() == 32,
{
    let mut hasher = sha2::Sha256::new();
    hasher.update(message);
    hasher.finalize().to_vec()
}

/// The lower-case hexadecimal digit for a value below sixteen.
pub open spec fn hex_digit(nibble: int) -> char
    recommends
        0 <= nibble < 16,
{
    seq!['0', '1', '2', '3', '4', '5', '6', '7', '8', '9', 'a', 'b', 'c', 'd', 'e', 'f'][nibble]
}

/// Two lower-case hexadecimal digits per byte, high nibble first.
pub open spec fn hex_lower(bytes: Seq<u8>) -> Seq<char> {
    Seq::new(
        2 * bytes.len(),
        |i: int|
            if i % 2 == 0 {
                hex_digit(bytes[i / 2] as int / 16)
            } else {
                hex_digit(bytes[i / 2] as int % 16)
            },
    )
}

/// The stored credential for a plaintext password: SHA-256 of its UTF-8 bytes,
/// written in lower-case hexadecimal.
pub open spec fn spec_hash_password(password: Seq<char>) -> Seq<char> {
    hex_lower(sha256_digest(encode_utf8(password)))
}

fn hex_digit_str(nibble: u8) -> (digit: &'static str)
    requires
        nibble < 16,
    ensures
        digit@ == seq![hex_digit(nibble as int)],
{
    proof {
        reveal_strlit("0");
        reveal_strlit("1");
        reveal_strlit("2");
        reveal_strlit("3");
        reveal_strlit("4");
        reveal_strlit("5");
        reveal_strlit("6");
        reveal_strlit("7");
        reveal_strlit("8");
        reveal_strlit("9");
        reveal_strlit("a");
        reveal_strlit("b");
        reveal_strlit("c");
        reveal_strlit("d");
        reveal_strlit("e");
        reveal_strlit("f");
    }
    let digit = match nibble {
        0 => "0",
        1 => "1",
        2 => "2",
        3 => "3",
        4 => "4",
        5 => "5",
        6 => "6",
        7 => "7",
        8 => "8",
        9 => "9",
        10 => "a",
        11 => "b",
        12 => "c",
        13 => "d",
        14 => "e",
        _ => "f",
    };
    assert(digit@ =~= seq![hex_digit(nibble as int)]);
    digit
}

/// Writes `bytes` in lower-case hexadecimal.
pub fn to_hex_lower(bytes: &[u8]) -> (text: String)
    ensures
        text@ == hex_lower(bytes@),
{
    let mut text = String::new();
    let mut i: usize = 0;
    while i < bytes.len()
        invariant
            i <= bytes.len(),
            text@ == hex_lower(bytes@.take(i as int)),
        decreases bytes.len() - i,
    {
        let byte = bytes[i];
        let ghost before = text@;
        text.append(hex_digit_str(byte / 16));
        text.append(hex_digit_str(byte % 16));
        proof {
            let prefix = bytes@.take(i as int);
            let longer = bytes@.take(i as int + 1);
            assert(longer =~= prefix.push(byte));
            assert(text@ =~= hex_lower(longer)) by {
                assert(text@ == before + seq![hex_digit(byte as int / 16)] + seq![
                    hex_digit(byte as int % 16),
                ]);
                assert forall|k: int| 0 <= k < 2 * longer.len() implies text@[k] == hex_lower(
                    longer,
                )[k] by {
                    if k < 2 * prefix.len() {
                        assert(text@[k] == before[k]);
                        assert(prefix[k / 2] == longer[k / 2]);
                    }
                }
            }
        }
        i += 1;
    }
    assert(bytes@.take(i as int) =~= bytes@);
    text
}

/// Hashes a plaintext password for storage and for comparison at login. The
/// same plaintext always gives the same digest.
pub fn hash_password(password: &str) -> (digest: String)
    ensures
        digest@ == spec_hash_password(password@),
        digest@.len() == 64,
{
    let raw = sha256(password.as_bytes());
    to_hex_lower(raw.as_slice())
}

/// Whether the regular expression `pattern` compiles and finds a match
/// somewhere in `haystack`.
pub uninterp spec fn regex_finds(pattern: Seq<char>, haystack: Seq<char>) -> bool;

/// Compiles `pattern` with `Regex::new` of the `regex` crate and searches
/// `haystack` with `Regex::is_match`. Trusted: the answer depends on the two
/// strings alone. A pattern that does not compile finds nothing.
#[verifier::external_body]
fn regex_is_match(pattern: &str, haystack: &str) -> (found: bool)
    ensures
        found == regex_finds(pattern@, haystack@),
{
    match regex::Regex::new(pattern) {
        Ok(compiled) => compiled.is_match(haystack),
        Err(_) => false,
    }
}

/// Whether `email` has the shape of an email address.
pub uninterp spec fn is_valid_email(email: Seq<char>) -> bool;

/// Asks `ValidateEmail::validate_email` of the `validator` crate whether
/// `email` has the shape of an address. Trusted: the answer depends on the
/// string alone.
#[verifier::external_body]
fn email_is_valid(email: &str) -> (valid: bool)
    ensures
        valid == is_valid_email(email@),
{
    email.validate_email()
}

/// Whether `email` has the shape of an email address.
pub fn validate_email(email: &str) -> (valid: bool)
    ensures
        valid == is_valid_email(email@),
{
    email_is_valid(email)
}

/// Matches one Latin letter.
pub const LETTER_PATTERN: &'static str = "[a-zA-Z]";

/// Matches one decimal digit.
pub const DIGIT_PATTERN: &'static str = "\\d";

/// Code of the error for a password without a letter.
pub const PASSWORD_NEEDS_LETTER: &'static str = "パスワードには英字を含める必要があります";

/// Code of the error for a password without a digit.
pub const PASSWORD_NEEDS_DIGIT: &'static str = "パスワードには数字を含める必要があります";

/// A field that broke a validation rule; `code` says which rule.
#[derive(Debug)]
pub struct ValidationError {
    pub code: String,
}

impl ValidationError {
    pub fn new(code: &str) -> (error: Self)
        ensures
            error.code@ == code@,
    {
        ValidationError { code: String::from_str(code) }
    }
}

/// Whether `password` holds a letter.
pub open spec fn has_letter(password: Seq<char>) -> bool {
    regex_finds(LETTER_PATTERN@, password)
}

/// Whether `password` holds a digit.
pub open spec fn has_digit(password: Seq<char>) -> bool {
    regex_finds(DIGIT_PATTERN@, password)
}

/// The composition rule, given what the two searches found: a password needs
/// a letter and a digit, and a missing letter is reported first.
pub open spec fn spec_password_rule(letter: bool, digit: bool) -> Option<Seq<char>> {
    if !letter {
        Some(PASSWORD_NEEDS_LETTER@)
    } else if !digit {
        Some(PASSWORD_NEEDS_DIGIT@)
    } else {
        None
    }
}

/// Applies the composition rule to the outcome of the two searches.
pub fn password_rule(letter: bool, digit: bool) -> (verdict: Result<(), ValidationError>)
    ensures
        match verdict {
            Ok(_) => spec_password_rule(letter, digit) is None,
            Err(e) => spec_password_rule(letter, digit) == Some(e.code@),
        },
{
    if !letter {
        Err(ValidationError::new(PASSWORD_NEEDS_LETTER))
    } else if !digit {
        Err(ValidationError::new(PASSWORD_NEEDS_DIGIT))
    } else {
        Ok(())
    }
}

/// Whether `password` holds a letter.
pub fn contains_letter(password: &str) -> (found: bool)
    ensures
        found == has_letter(password@),
{
    regex_is_match(LETTER_PATTERN, password)
}

/// Whether `password` holds a digit.
pub fn contains_digit(password: &str) -> (found: bool)
    ensures
        found == has_digit(password@),
{
    regex_is_match(DIGIT_PATTERN, password)
}

/// Checks that `password` holds at least one letter and one digit.
pub fn validate_password(password: &str) -> (verdict: Result<(), ValidationError>)
    ensures
        match verdict {
            Ok(_) => spec_password_rule(has_letter(password@), has_digit(password@)) is None,
            Err(e) => spec_password_rule(has_letter(password@), has_digit(password@)) == Some(
                e.code@,
            ),
        },
{
    password_rule(contains_letter(password), contains_digit(password))
}

} // verus!
