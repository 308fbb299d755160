//! Interface identifiers and opaque game types seen by a DLL director.

use vstd::prelude::*;

verus! {

/// Interface IID for cIGZCOMDirector.
pub const GZIID_IGZCOMDIRECTOR: u32 = 0xA21EE941;

/// Interface IID for cIGZFrameWorkHooks.
pub const GZIID_IGZFRAMEWORKHOOKS: u32 = 0x03FA40BF;

/// The game's cIGZCOM object; only ever handled by address.
pub struct IGZCOM {
    _opaque: [u8; 0],
}

/// The game's cIGZFrameWork object; only ever handled by address.
pub struct IGZFrameWork {
    _opaque: [u8; 0],
}

} // verus!
