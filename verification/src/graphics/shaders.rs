//! Locations of shader inputs.

use vstd::prelude::*;

verus! {

/// The index of a shader attribute or uniform, from what the driver answered
/// when asked for it by name: the driver answers with a negative number when
/// the program has no active input of that name.
pub fn checked_location(raw: i32) -> (location: Option<u32>)
    ensures
        raw < 0 <==> location is None,
        raw >= 0 ==> location == Some(raw as u32),
{
    if raw < 0 {
        None
    } else {
        Some(raw as u32)
    }
}

} // verus!
