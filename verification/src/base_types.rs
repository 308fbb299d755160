//! The fundamental COM-like interface of the game.

use vstd::prelude::*;

verus! {

/// Interface IID for cIGZUnknown.
pub const GZIID_IGZUNKNOWN: u32 = 1;

/// What a `QueryInterface` call on a game object yields.
///
/// The game reports `success` and writes the interface's address into
/// `result` (0 when it wrote nothing); the interface is available only when
/// both say so.
pub fn query_interface_result(success: bool, result: usize) -> (r: Option<usize>)
    ensures
        r == (if success && result != 0 { Some(result) } else { None::<usize> }),
{
    if success && result != 0 {
        Some(result)
    } else {
        None
    }
}

} // verus!
