//! Opaque bearer tokens: random byte strings clamped into printable ASCII.

use crate::textenc::utf8_to_string;
use vstd::prelude::*;

verus! {

/// Relies on getrandom::getrandom to fill a buffer of the given length
/// with random bytes; nothing is assumed about the values. Aborts only if
/// the operating system's RNG is unavailable, which nothing recovers from.
#[verifier::external_body]
fn random_bytes(n: usize) -> (r: Vec<u8>)
    ensures
        r@.len() == n,
{
    let mut b = vec![0u8; n];
    getrandom::getrandom(&mut b).expect("system RNG failed");
    b
}

/// A token of the given length whose characters all lie in 0x10..=0x7f,
/// each with its 0x10 bit set, exactly the range the clamp produces.
pub open spec fn ascii_token(s: Seq<char>, n: int) -> bool {
    &&& s.len() == n
    &&& forall|i: int| 0 <= i < s.len() ==> 0x10 <= (#[trigger] s[i]) as int <= 0x7f
    &&& forall|i: int| 0 <= i < s.len() ==> ((#[trigger] s[i]) as u32) & 0x10 == 0x10
}

fn random_ascii_token(n: usize) -> (r: String)
    ensures
        ascii_token(r@, n as int),
{
    let mut bytes = random_bytes(n);
    let mut i: usize = 0;
    while i < n
        invariant
            bytes@.len() == n,
            i <= n,
            forall|j: int| 0 <= j < i ==> 0x10 <= #[trigger] bytes@[j] <= 0x7f,
            forall|j: int| 0 <= j < i ==> (#[trigger] bytes@[j]) & 0x10 == 0x10,
        decreases n - i,
    {
        let b = bytes[i];
        let clamped = (b & 0x7f) | 0x10;
        assert(0x10 <= ((b & 0x7f) | 0x10) <= 0x7f) by (bit_vector);
        assert(((b & 0x7f) | 0x10) & 0x10 == 0x10) by (bit_vector);
        bytes.set(i, clamped);
        i = i + 1;
    }
    match utf8_to_string(bytes) {
        Some(s) => s,
        None => vstd::pervasive::unreached(),
    }
}

/// An authorization token: 128 random characters of printable ASCII.
pub fn generate_auth_token() -> (r: String)
    ensures
        ascii_token(r@, 128),
{
    random_ascii_token(128)
}

/// A short bearer token: 16 random characters of printable ASCII.
pub fn random_token() -> (r: String)
    ensures
        ascii_token(r@, 16),
{
    random_ascii_token(16)
}

/// Relies on std::time::SystemTime: the wall clock read as whole seconds
/// since the epoch; a clock before the epoch reads as zero.
#[verifier::external_body]
pub fn current_secs_since_epoch() -> (r: u64)
{
    match std::time::SystemTime::now().duration_since(std::time::SystemTime::UNIX_EPOCH) {
        Ok(d) => d.as_secs(),
        Err(_) => 0,
    }
}

} // verus!
