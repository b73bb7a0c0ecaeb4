//! The source of randomness: a seed that the host chain hands out for the
//! message being processed, cut down to 32 bits.
//!
//! The two calls to the host are taken on trust and nothing is claimed of
//! what they return. They are system calls of the chain: in a build for any
//! other target than the chain's `wasm32` they are stand-ins that panic, so
//! that only a program running on its host can draw.

use crate::types::GameError;
use vstd::prelude::*;

verus! {

/// The error type of the host's calls, `gstd::errors::CoreError`. Nothing is
/// known of a value of it but that it is an error.
#[verifier::external_type_specification]
#[verifier::external_body]
pub struct ExCoreError(gstd::errors::CoreError);

/// Calls `gstd::msg::id` and hands on the 32 bytes of the identifier that it
/// returns for the message being processed. The host decides the bytes:
/// nothing is claimed of them.
#[verifier::external_body]
fn current_message_id() -> [u8; 32] {
    gstd::msg::id().into()
}

/// Calls `gstd::exec::random` and hands on what it returns for `subject`:
/// a seed of 32 bytes with the number of the block it belongs to, or the
/// host's error. The host decides all of it: nothing is claimed of what
/// comes back, nor that two calls with one subject agree.
#[verifier::external_body]
fn host_random(subject: [u8; 32]) -> Result<([u8; 32], u32), gstd::errors::CoreError> {
    gstd::exec::random(subject)
}

/// The number that the first four bytes of a seed spell, lowest byte first.
pub open spec fn seed_word(seed: Seq<u8>) -> nat {
    (seed[0] + 0x100 * seed[1] + 0x1_0000 * seed[2] + 0x100_0000 * seed[3]) as nat
}

/// Cuts a seed down to 32 bits: its first four bytes, lowest byte first.
pub fn seed_to_u32(seed: &[u8; 32]) -> (word: u32)
    ensures
        word == seed_word(seed@),
{
    let b0: u32 = seed[0] as u32;
    let b1: u32 = seed[1] as u32;
    let b2: u32 = seed[2] as u32;
    let b3: u32 = seed[3] as u32;
    b0 + 0x100 * b1 + 0x1_0000 * b2 + 0x100_0000 * b3
}

/// Draws a random 32-bit number from the host, salted with the identifier of
/// the message being processed. Whatever number the host's seed spells is
/// handed on; the only failure is that the host gave no seed.
pub fn get_random_u32() -> (draw: Result<u32, GameError>)
    ensures
        draw matches Err(e) ==> e == GameError::RandomnessUnavailable,
{
    let salt = current_message_id();
    match host_random(salt) {
        Ok((seed, _block)) => Ok(seed_to_u32(&seed)),
        Err(_) => Err(GameError::RandomnessUnavailable),
    }
}

} // verus!
