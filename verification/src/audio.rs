//! Loading sound effects and music. Nothing is loaded yet: both steps
//! succeed without doing anything; the mixer itself is the application's.
use vstd::prelude::*;

use crate::error::NUError;

verus! {

/// Loads the sound effects; there are none yet, so this always succeeds.
pub fn load_sfx() -> (res: Result<(), NUError>)
    ensures
        res is Ok,
{
    Ok(())
}

/// Loads the music; there is none yet, so this always succeeds.
pub fn load_mus() -> (res: Result<(), NUError>)
    ensures
        res is Ok,
{
    Ok(())
}

} // verus!
