//! Handles on the game's cIGZString objects (the complete binding).
//!
//! A `GZString` holds the address of a game string, never 0, and whether it
//! owns a reference to it. Calls through the string's vtable are made by the
//! code that owns the game's memory; this module decides when a handle exists
//! and when dropping it must release the game's reference.

use vstd::prelude::*;

verus! {

/// Interface IID for cIGZString.
pub const GZIID_IGZSTRING: u32 = 0x089b7dc8;

/// Handle on a game string.
pub struct GZString {
    ptr: usize,
    owned: bool,
}

impl GZString {
    #[verifier::type_invariant]
    spec fn not_null(self) -> bool {
        self.ptr != 0
    }

    /// The address of the game string.
    pub closed spec fn address(self) -> usize {
        self.ptr
    }

    /// Whether the handle owns a reference to the game string.
    pub closed spec fn is_owned(self) -> bool {
        self.owned
    }

    /// Borrow the string at address `ptr` without taking a reference; a null
    /// address gives `None`.
    pub fn from_ptr(ptr: usize) -> (r: Option<Self>)
        ensures
            r is None <==> ptr == 0,
            r matches Some(s) ==> s.address() == ptr && !s.is_owned(),
    {
        if ptr == 0 {
            None
        } else {
            Some(GZString { ptr, owned: false })
        }
    }

    /// Take over a reference to the string at address `ptr`, to be released
    /// when the handle goes; a null address gives `None`.
    pub fn from_owned_ptr(ptr: usize) -> (r: Option<Self>)
        ensures
            r is None <==> ptr == 0,
            r matches Some(s) ==> s.address() == ptr && s.is_owned(),
    {
        if ptr == 0 {
            None
        } else {
            Some(GZString { ptr, owned: true })
        }
    }

    /// Create a new game string holding `s`: the game's string factory is
    /// not bound, so there is never one.
    pub fn new(s: &str) -> (r: Option<Self>)
        ensures
            r is None,
    {
        None
    }

    /// The address of the string, never 0.
    pub fn as_ptr(&self) -> (r: usize)
        ensures
            r == self.address(),
            r != 0,
    {
        proof {
            use_type_invariant(self);
        }
        self.ptr
    }

    /// The address of the string, for game functions that change it.
    pub fn as_mut_ptr(&mut self) -> (r: usize)
        ensures
            r == old(self).address(),
            r != 0,
            *final(self) == *old(self),
    {
        proof {
            use_type_invariant(&*self);
        }
        self.ptr
    }

    /// Whether dropping the handle must release the game's reference: only
    /// an owning handle on a non-null string does.
    pub fn releases_on_drop(&self) -> (r: bool)
        ensures
            r == self.is_owned(),
    {
        proof {
            use_type_invariant(self);
        }
        self.owned && self.ptr != 0
    }
}

/// Whether `s` can be handed to the game as a C string: it holds no NUL
/// character.
pub fn accepts_text(s: &str) -> (r: bool)
    ensures
        r == !s@.contains('\0'),
{
    let ghost text = s@;
    for c in it: s.chars()
        invariant
            it.seq() == text,
            text == s@,
            forall|i: int| 0 <= i < it.index() ==> text[i] != '\0',
    {
        if c == '\0' {
            return false;
        }
    }
    true
}

/// The outcome of setting a game string's text: FromChar answers nonzero
/// when it stored the text.
pub fn set_str_result(stored: u32) -> (r: Result<(), ()>)
    ensures
        r == (if stored != 0 { Ok::<(), ()>(()) } else { Err(()) }),
{
    if stored != 0 {
        Ok(())
    } else {
        Err(())
    }
}

/// Two game strings are equal when the game's case-sensitive comparison
/// reports 0.
pub fn compare_means_equal(comparison: i32) -> (r: bool)
    ensures
        r == (comparison == 0),
{
    comparison == 0
}

/// Whether the text of a game string equals `other`; a string whose text
/// cannot be read equals nothing.
pub fn text_equals(text: &Option<String>, other: &str) -> (r: bool)
    ensures
        r == (text matches Some(t) && t@ == other@),
{
    match text {
        Some(t) => {
            let other_owned = other.to_string();
            *t == other_owned
        },
        None => false,
    }
}

} // verus!
