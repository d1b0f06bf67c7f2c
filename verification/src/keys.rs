//! The at-rest encryption key provider. The key that opens the encrypted
//! datastore is resolved in a fixed order: an explicit hex-encoded key from
//! configuration wins and must decode to exactly the expected length; next
//! the OS credential store's entry is used if it has the expected length;
//! anything absent or malformed there is replaced by a fresh random key
//! that is persisted back into the credential store before use. The
//! credential-store calls are blocking OS I/O — callers on a concurrent
//! scheduler run `resolve_db_key` on a dedicated worker.

use vstd::prelude::*;
use crate::codec;

verus! {

/// Byte length of the database key.
pub const DB_KEY_LEN: usize = 32;

/// How key resolution can fail. A malformed explicit key is a
/// configuration fault; everything else is the credential store or the
/// random source failing.
#[derive(Clone, Copy, Debug, PartialEq, Eq, Structural)]
pub enum KeyError {
    /// The explicit key is not hex of the expected length.
    Config,
    /// The credential store could not be read or written.
    Keyring,
    /// The random source failed while provisioning a fresh key.
    Rng,
}

/// Whether a character is a hex digit, either case.
pub open spec fn is_hex_digit(c: char) -> bool {
    ('0' <= c && c <= '9') || ('a' <= c && c <= 'f') || ('A' <= c && c <= 'F')
}

/// The value of a hex digit.
pub open spec fn hex_digit_value(c: char) -> u8
    recommends
        is_hex_digit(c),
{
    if '0' <= c && c <= '9' {
        ((c as u8) - ('0' as u8)) as u8
    } else if 'a' <= c && c <= 'f' {
        (((c as u8) - ('a' as u8)) + 10) as u8
    } else {
        (((c as u8) - ('A' as u8)) + 10) as u8
    }
}

/// A string is well-formed hex: even length, hex digits throughout.
pub open spec fn is_hex_seq(s: Seq<char>) -> bool {
    s.len() % 2 == 0 && forall|i: int| 0 <= i < s.len() ==> is_hex_digit(#[trigger] s[i])
}

/// The bytes a well-formed hex string denotes, two digits per byte.
pub open spec fn spec_decode_hex(s: Seq<char>) -> Seq<u8>
    recommends
        is_hex_seq(s),
    decreases s.len(),
{
    if s.len() < 2 {
        Seq::empty()
    } else {
        spec_decode_hex(s.drop_last().drop_last()).push(
            (hex_digit_value(s[s.len() - 2]) * 16 + hex_digit_value(s[s.len() - 1])) as u8,
        )
    }
}

/// Decodes a hex string. `Ok` exactly on well-formed hex, with the denoted
/// bytes; either case of digit is accepted.
pub fn decode_hex(s: &str) -> (r: Result<Vec<u8>, KeyError>)
    ensures
        (r is Ok) <==> is_hex_seq(s@),
        r matches Ok(v) ==> v@ == spec_decode_hex(s@) && v@.len() == s@.len() / 2,
        r matches Err(e) ==> e == KeyError::Config,
{
    let n = s.unicode_len();
    if n % 2 != 0 {
        return Err(KeyError::Config);
    }
    let mut out: Vec<u8> = Vec::new();
    let mut i: usize = 0;
    while i < n
        invariant
            n == s@.len(),
            n % 2 == 0,
            i <= n,
            i % 2 == 0,
            out@ == spec_decode_hex(s@.take(i as int)),
            out@.len() == i / 2,
            forall|j: int| 0 <= j < i ==> is_hex_digit(#[trigger] s@[j]),
        decreases n - i,
    {
        let hi_c = s.get_char(i);
        let lo_c = s.get_char(i + 1);
        let hi = match hex_value(hi_c) {
            Some(v) => v,
            None => {
                return Err(KeyError::Config);
            },
        };
        let lo = match hex_value(lo_c) {
            Some(v) => v,
            None => {
                return Err(KeyError::Config);
            },
        };
        out.push(hi * 16 + lo);
        proof {
            let pre = s@.take(i as int);
            let post = s@.take(i + 2);
            assert(post.drop_last().drop_last() =~= pre);
            assert(post[post.len() - 2] == s@[i as int]);
            assert(post[post.len() - 1] == s@[i + 1]);
            assert(out@ =~= spec_decode_hex(post));
        }
        i = i + 2;
    }
    proof {
        assert(s@.take(n as int) =~= s@);
    }
    Ok(out)
}

/// The value of one hex digit, either case; `None` for anything else.
fn hex_value(c: char) -> (r: Option<u8>)
    ensures
        (r is Some) <==> is_hex_digit(c),
        r matches Some(v) ==> v == hex_digit_value(c) && v < 16,
{
    if '0' <= c && c <= '9' {
        Some((c as u8) - 48)
    } else if 'a' <= c && c <= 'f' {
        Some(((c as u8) - 97) + 10)
    } else if 'A' <= c && c <= 'F' {
        Some(((c as u8) - 65) + 10)
    } else {
        None
    }
}

/// Relies on `keyring::Entry`: the handle to one credential-store entry.
#[verifier::external_type_specification]
#[verifier::external_body]
pub struct ExEntry(keyring::Entry);

/// Relies on `keyring::Error`: how the credential store reports failure.
#[verifier::external_type_specification]
#[verifier::external_body]
pub struct ExKeyringError(keyring::Error);

/// Relies on `keyring::Entry::new`: builds the handle for a service and
/// user name; no credential-store I/O happens yet, but invalid names are
/// refused. Every failure is reported as `Keyring`.
#[verifier::external_body]
fn keyring_entry(service: &str, user: &str) -> (r: Result<keyring::Entry, KeyError>)
    ensures
        r matches Err(e) ==> e == KeyError::Keyring,
{
    match keyring::Entry::new(service, user) {
        Ok(e) => Ok(e),
        Err(_) => Err(KeyError::Keyring),
    }
}

/// Relies on `keyring::Entry::get_secret`: reads whatever bytes the OS
/// credential store currently holds for the entry. The result depends on
/// the machine's state; nothing is promised of the bytes. Every failure,
/// an absent entry included, is reported as `Keyring`.
#[verifier::external_body]
fn keyring_get_secret(entry: &keyring::Entry) -> (r: Result<Vec<u8>, KeyError>)
    ensures
        r matches Err(e) ==> e == KeyError::Keyring,
{
    match entry.get_secret() {
        Ok(v) => Ok(v),
        Err(_) => Err(KeyError::Keyring),
    }
}

/// Relies on `keyring::Entry::set_secret`: persists the bytes into the OS
/// credential store. Every failure is reported as `Keyring`.
#[verifier::external_body]
fn keyring_set_secret(entry: &keyring::Entry, secret: &[u8]) -> (r: Result<(), KeyError>)
    ensures
        r matches Err(e) ==> e == KeyError::Keyring,
{
    match entry.set_secret(secret) {
        Ok(()) => Ok(()),
        Err(_) => Err(KeyError::Keyring),
    }
}

/// The decision on a secret fetched from the credential store: one of
/// exactly `key_len` bytes is the key and is used as-is, byte for byte;
/// any other length is rejected, so the caller provisions a fresh key.
pub fn use_stored(stored: Vec<u8>, key_len: usize) -> (r: Option<Vec<u8>>)
    ensures
        stored@.len() == key_len ==> (r matches Some(k) && k == stored),
        stored@.len() != key_len ==> r is None,
{
    if stored.len() == key_len {
        Some(stored)
    } else {
        None
    }
}

/// Resolves the database key. An explicit key, when given, must be hex of
/// exactly `key_len` bytes and is used as-is — a malformed one is a
/// configuration error, never silently replaced. Without one, the
/// credential store's entry is read and `use_stored` decides: a secret of
/// the right length is used unchanged; otherwise a fresh random key of
/// `key_len` bytes is generated, persisted into the credential store, and
/// used. Whatever the source, a returned key has exactly `key_len` bytes.
pub fn resolve_db_key(
    explicit_hex: Option<&String>,
    service: &str,
    user: &str,
    key_len: usize,
) -> (r: Result<Vec<u8>, KeyError>)
    ensures
        r matches Ok(k) ==> k@.len() == key_len,
        explicit_hex matches Some(s) ==> match r {
            Ok(k) => is_hex_seq(s@) && s@.len() / 2 == key_len && k@ == spec_decode_hex(s@),
            Err(e) => e == KeyError::Config && !(is_hex_seq(s@) && s@.len() / 2 == key_len),
        },
        explicit_hex is None ==> (r matches Err(e) ==> (e == KeyError::Keyring || e
            == KeyError::Rng)),
{
    match explicit_hex {
        Some(s) => {
            let key = match decode_hex(s.as_str()) {
                Ok(k) => k,
                Err(e) => {
                    return Err(e);
                },
            };
            if key.len() != key_len {
                return Err(KeyError::Config);
            }
            Ok(key)
        },
        None => {
            let entry = match keyring_entry(service, user) {
                Ok(e) => e,
                Err(e) => {
                    return Err(e);
                },
            };
            match keyring_get_secret(&entry) {
                Ok(stored) => {
                    match use_stored(stored, key_len) {
                        Some(key) => Ok(key),
                        None => provision_key(&entry, key_len),
                    }
                },
                Err(_) => provision_key(&entry, key_len),
            }
        },
    }
}

/// Generates a fresh random key of `key_len` bytes and persists it into
/// the credential store before returning it.
fn provision_key(entry: &keyring::Entry, key_len: usize) -> (r: Result<Vec<u8>, KeyError>)
    ensures
        r matches Ok(k) ==> k@.len() == key_len,
        r matches Err(e) ==> (e == KeyError::Keyring || e == KeyError::Rng),
{
    let key = match codec::random_bytes(key_len) {
        Ok(k) => k,
        Err(_) => {
            return Err(KeyError::Rng);
        },
    };
    match keyring_set_secret(entry, key.as_slice()) {
        Ok(()) => Ok(key),
        Err(e) => Err(e),
    }
}

} // verus!
