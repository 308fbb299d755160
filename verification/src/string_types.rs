//! First, placeholder binding of the game's cIGZString.
//!
//! The game's string factory is not bound here: creating a string yields no
//! object, reading one yields nothing and releasing one does nothing.

use vstd::prelude::*;

verus! {

/// The game's cIGZString object; only ever handled by address.
pub struct IGZString {
    _opaque: [u8; 0],
}

impl IGZString {
    /// Create a game string holding `s`: the factory is not bound, so the
    /// address is always null (0).
    pub fn from_str(s: &str) -> (r: usize)
        ensures
            r == 0,
    {
        0
    }

    /// The text of the string: not bound, so always `None`.
    pub fn to_string(&self) -> (r: Option<String>)
        ensures
            r is None,
    {
        None
    }

    /// Release the string at address `ptr`: not bound, so nothing happens.
    pub fn release(ptr: usize) {
    }
}

/// Owning handle on a game string, by address.
pub struct GZString {
    ptr: usize,
}

impl GZString {
    /// The address the handle holds.
    pub closed spec fn address(self) -> usize {
        self.ptr
    }

    /// Create a game string holding `s`; there is none when the game gives no
    /// object, which with the unbound factory is always.
    pub fn new(s: &str) -> (r: Option<Self>)
        ensures
            r is None,
    {
        let ptr = IGZString::from_str(s);
        if ptr == 0 {
            None
        } else {
            Some(GZString { ptr })
        }
    }

    /// The address of the string, for passing to game functions.
    pub fn as_ptr(&self) -> (r: usize)
        ensures
            r == self.address(),
    {
        self.ptr
    }

    /// The address of the string, for game functions that change it.
    pub fn as_mut_ptr(&mut self) -> (r: usize)
        ensures
            r == old(self).address(),
            *final(self) == *old(self),
    {
        self.ptr
    }

    /// The text of the string: `None` for a null handle, and `None` too for
    /// any other, since reading is not bound.
    pub fn to_string(&self) -> (r: Option<String>)
        ensures
            r is None,
    {
        None
    }
}

} // verus!
