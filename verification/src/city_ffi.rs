//! Identifiers and opaque subsystem types of the game's cISC4City interface.

use vstd::prelude::*;

verus! {

/// Interface IID for cISC4City.
pub const GZIID_ISC4CITY: u32 = 0x26D31EC0;

/// The city's simulator; only ever handled by address.
pub struct ISC4Simulator {
    _opaque: [u8; 0],
}

/// The city's budget simulator; only ever handled by address.
pub struct ISC4BudgetSimulator {
    _opaque: [u8; 0],
}

/// The city's demand simulator; only ever handled by address.
pub struct ISC4DemandSimulator {
    _opaque: [u8; 0],
}

/// The city's lot manager; only ever handled by address.
pub struct ISC4LotManager {
    _opaque: [u8; 0],
}

/// The city's occupant manager; only ever handled by address.
pub struct ISC4OccupantManager {
    _opaque: [u8; 0],
}

} // verus!
