//! Secret codec: cryptographically random tokens, the deterministic lookup
//! hash stored in place of a token, and salted password hashes.
//!
//! A raw token is a hex string of random bytes; it is handed to the client
//! and never stored. Only its lookup hash (lowercase hex of the SHA-256
//! digest) is persisted, so a database leak does not leak usable secrets.
//! Passwords are hashed with Argon2 into PHC-formatted strings.

use vstd::prelude::*;
use rand_core::TryRngCore;
use argon2::PasswordVerifier;
use argon2::PasswordHasher;

verus! {

/// Default number of random bytes in a verification, reset or session token.
pub const DEFAULT_TOKEN_BYTES: usize = 32;

/// How a codec operation can fail. Failures are internal: they must never
/// degrade into accepting a credential.
#[derive(Clone, Copy, Debug, PartialEq, Eq, Structural)]
pub enum CodecError {
    /// The operating system's random source failed.
    Rng,
    /// Password hashing or verification failed for a reason other than a
    /// wrong password.
    Hashing,
}

/// The SHA-256 digest of the UTF-8 bytes of a string, as `sha2::Sha256::digest`
/// computes it: a function of the input characters alone.
pub uninterp spec fn sha256_of(s: Seq<char>) -> Seq<u8>;

/// Whether Argon2 verification of `password` against the PHC string `phc`
/// succeeds, as `argon2::Argon2::verify_password` decides it: a function of
/// the two inputs alone.
pub uninterp spec fn password_matches(password: Seq<char>, phc: Seq<char>) -> bool;

/// The lowercase hex character for a nibble.
pub open spec fn hex_char(n: u8) -> char
    recommends
        n < 16,
{
    if n < 10 {
        ((('0' as u8) + n) as char)
    } else {
        (((('a' as u8) - 10) + n) as char)
    }
}

/// Lowercase hex encoding of a byte sequence, two characters per byte.
pub open spec fn hex_of(data: Seq<u8>) -> Seq<char>
    decreases data.len(),
{
    if data.len() == 0 {
        Seq::empty()
    } else {
        hex_of(data.drop_last()) + seq![
            hex_char(data.last() / 16),
            hex_char(data.last() % 16),
        ]
    }
}

/// The lookup hash stored in place of a raw token: lowercase hex of the
/// SHA-256 digest of the token's characters.
pub open spec fn spec_hash_token(token: Seq<char>) -> Seq<char> {
    hex_of(sha256_of(token))
}

/// Relies on std's `String::push`: appends exactly the given character.
#[verifier::external_body]
fn push_char(s: &mut String, c: char)
    ensures
        final(s)@ == old(s)@.push(c),
{
    s.push(c);
}

/// Relies on `sha2::Sha256::digest`: returns the 32-byte SHA-256 digest of
/// the string's UTF-8 bytes, a deterministic function of the input.
#[verifier::external_body]
fn sha256_digest(s: &str) -> (r: Vec<u8>)
    ensures
        r@ == sha256_of(s@),
        r@.len() == 32,
{
    <sha2::Sha256 as sha2::Digest>::digest(s.as_bytes()).to_vec()
}

/// Relies on `rand_core::OsRng::try_fill_bytes`: fills the buffer from the
/// operating system's secure random source. Nothing is promised of the bytes
/// themselves.
#[verifier::external_body]
pub(crate) fn random_bytes(n: usize) -> (r: Result<Vec<u8>, CodecError>)
    ensures
        r matches Ok(v) ==> v@.len() == n,
        r matches Err(e) ==> e == CodecError::Rng,
{
    let mut buf = vec![0u8; n];
    match rand_core::OsRng.try_fill_bytes(&mut buf) {
        Ok(()) => Ok(buf),
        Err(_) => Err(CodecError::Rng),
    }
}

/// Relies on `argon2::Argon2::hash_password`: hashes the password with a
/// freshly generated random salt into a PHC string. Whatever salt was drawn,
/// verifying the same password against the result succeeds, which is the
/// round trip the argon2 documentation shows.
#[verifier::external_body]
fn argon2_hash(password: &str) -> (r: Result<String, CodecError>)
    ensures
        r matches Ok(h) ==> password_matches(password@, h@),
{
    match argon2::Argon2::default().hash_password(password.as_bytes()) {
        Ok(h) => Ok(h.to_string()),
        Err(_) => Err(CodecError::Hashing),
    }
}

/// Relies on `argon2::Argon2::verify_password` on a PHC string: parses the
/// string and recomputes the hash, a deterministic function of the two
/// inputs. A wrong password reports `PasswordInvalid`; any other error means
/// the stored string cannot verify at all.
#[verifier::external_body]
fn argon2_verify(password: &str, phc: &str) -> (r: Result<bool, CodecError>)
    ensures
        r matches Ok(b) ==> b == password_matches(password@, phc@),
        r matches Err(_) ==> !password_matches(password@, phc@),
{
    match argon2::Argon2::default().verify_password(password.as_bytes(), phc) {
        Ok(()) => Ok(true),
        Err(argon2::password_hash::Error::PasswordInvalid) => Ok(false),
        Err(_) => Err(CodecError::Hashing),
    }
}

/// Lowercase hex encoding of a byte slice.
pub fn to_hex(data: &[u8]) -> (r: String)
    ensures
        r@ == hex_of(data@),
{
    let mut out = String::new();
    let n = data.len();
    let mut i: usize = 0;
    while i < n
        invariant
            n == data@.len(),
            i <= n,
            out@ == hex_of(data@.take(i as int)),
        decreases n - i,
    {
        let b = data[i];
        let hi = b / 16;
        let lo = b % 16;
        let hi_c = if hi < 10 { ((48 + hi) as char) } else { ((87 + hi) as char) };
        let lo_c = if lo < 10 { ((48 + lo) as char) } else { ((87 + lo) as char) };
        push_char(&mut out, hi_c);
        push_char(&mut out, lo_c);
        proof {
            let pre = data@.take(i as int);
            let post = data@.take(i + 1);
            assert(post.drop_last() =~= pre);
            assert(post.last() == data@[i as int]);
            assert(hi_c == hex_char(hi));
            assert(lo_c == hex_char(lo));
            assert(out@ =~= hex_of(post));
        }
        i = i + 1;
    }
    proof {
        assert(data@.take(n as int) =~= data@);
    }
    out
}

/// Computes the lookup hash of a raw token: the lowercase hex SHA-256 digest
/// of the token's UTF-8 bytes. Deterministic: equal tokens always hash to the
/// same value.
pub fn hash_token(token: &str) -> (r: String)
    ensures
        r@ == spec_hash_token(token@),
        r@.len() == 64,
{
    let digest = sha256_digest(token);
    proof {
        lemma_hex_of_len(digest@);
    }
    to_hex(digest.as_slice())
}

/// The hex encoding of a byte sequence has two characters per byte.
pub proof fn lemma_hex_of_len(data: Seq<u8>)
    ensures
        hex_of(data).len() == 2 * data.len(),
    decreases data.len(),
{
    if data.len() > 0 {
        lemma_hex_of_len(data.drop_last());
    }
}


/// The lookup hash is deterministic: the same raw token always yields the
/// same hash, in every process and on every machine, so a stored hash can
/// be found again from nothing but the presented token.
pub proof fn lemma_hash_token_deterministic(a: Seq<char>, b: Seq<char>)
    requires
        a == b,
    ensures
        spec_hash_token(a) == spec_hash_token(b),
{
}

/// Generates a raw token: `byte_length` random bytes, hex-encoded. The
/// result is high-entropy and never stored; only its lookup hash is.
pub fn generate_token(byte_length: usize) -> (r: Result<String, CodecError>)
    ensures
        r matches Ok(t) ==> t@.len() == 2 * byte_length,
        r matches Err(e) ==> e == CodecError::Rng,
{
    match random_bytes(byte_length) {
        Ok(bytes) => {
            proof {
                lemma_hex_of_len(bytes@);
            }
            Ok(to_hex(bytes.as_slice()))
        },
        Err(e) => Err(e),
    }
}

/// Generates a session token of the default length.
pub fn generate_session_token() -> (r: Result<String, CodecError>)
    ensures
        r matches Ok(t) ==> t@.len() == 64,
        r matches Err(e) ==> e == CodecError::Rng,
{
    generate_token(DEFAULT_TOKEN_BYTES)
}

/// Generates an email-verification or password-reset token of the default
/// length.
pub fn generate_verification_token() -> (r: Result<String, CodecError>)
    ensures
        r matches Ok(t) ==> t@.len() == 64,
        r matches Err(e) ==> e == CodecError::Rng,
{
    generate_token(DEFAULT_TOKEN_BYTES)
}

/// Generates a session display id: non-secret, shown in admin listings.
pub fn generate_session_id() -> (r: Result<String, CodecError>)
    ensures
        r matches Ok(t) ==> t@.len() == 32,
        r matches Err(e) ==> e == CodecError::Rng,
{
    generate_token(16)
}

/// Hashes a password into a PHC string with a fresh random salt. The result
/// verifies against the password it was made from.
pub fn hash_password(password: &str) -> (r: Result<String, CodecError>)
    ensures
        r matches Ok(h) ==> password_matches(password@, h@),
{
    argon2_hash(password)
}

/// Verifies a password against a stored PHC string. `Ok(true)` exactly when
/// the password matches; an error means the stored string is unusable, never
/// that a wrong password was accepted.
pub fn verify_password(password: &str, phc: &str) -> (r: Result<bool, CodecError>)
    ensures
        r matches Ok(b) ==> b == password_matches(password@, phc@),
        r matches Err(_) ==> !password_matches(password@, phc@),
{
    argon2_verify(password, phc)
}

} // verus!
