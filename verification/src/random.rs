//! The random source of the game: one 32-bit draw from the operating system.

use vstd::prelude::*;
use crate::io::GameError;

verus! {

/// Makes `getrandom::Error` known to the verifier, as a value whose inside
/// it does not see.
#[verifier::external_type_specification]
#[verifier::external_body]
pub struct ExRandomSourceError(getrandom::Error);

/// Fills four bytes through `getrandom::getrandom` and reads them as one
/// `u32` in the machine's byte order.
///
/// Trusted, not proved. Nothing is claimed of the outcome: any word may come
/// back, two calls may differ, and the generator may report a failure, which
/// is handed on as it is.
#[verifier::external_body]
fn os_random_word() -> (word: Result<u32, getrandom::Error>) {
    let mut buffer = [0u8; 4];
    match getrandom::getrandom(&mut buffer) {
        Ok(()) => Ok(u32::from_ne_bytes(buffer)),
        Err(failure) => Err(failure),
    }
}

/// Draws one random `u32`.
///
/// Every value of `u32` is a possible draw. The only fault is
/// [`GameError::RandomSourceFailed`], returned when the operating system's
/// generator fails.
pub fn get_random_u32() -> (draw: Result<u32, GameError>)
    ensures
        draw matches Err(fault) ==> fault == GameError::RandomSourceFailed,
{
    match os_random_word() {
        Ok(word) => Ok(word),
        Err(_) => Err(GameError::RandomSourceFailed),
    }
}

} // verus!
