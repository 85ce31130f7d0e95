//! Generation of a unit's private key.

use vstd::prelude::*;

verus! {

/// Number of bytes in a unit's private key.
pub const PRIVATE_KEY_LEN: usize = 32;

/// One byte drawn by `rand::random`, which reads the thread's generator.
/// Nothing is claimed of the byte: every value can come back. The call fails
/// only where the operating system has no entropy to seed the generator.
#[verifier::external_body]
fn random_byte() -> (b: u8) {
    rand::random::<u8>()
}

/// Draws a fresh private key: `PRIVATE_KEY_LEN` random bytes.
pub fn generate_private_key() -> (key: Vec<u8>)
    ensures
        key@.len() == PRIVATE_KEY_LEN,
{
    let mut key: Vec<u8> = Vec::new();
    while key.len() < PRIVATE_KEY_LEN
        invariant
            key@.len() <= PRIVATE_KEY_LEN,
        decreases PRIVATE_KEY_LEN - key@.len(),
    {
        key.push(random_byte());
    }
    key
}

} // verus!
