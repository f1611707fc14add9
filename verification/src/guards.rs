//! Guard tokens returned by the cell's borrow-acquisition entry points.
//!
//! Each guard is the witness of one successful state-machine transition, and
//! is surrendered back to the cell to roll that transition back: a
//! [`GdRef`] for one tracked shared accessor, a [`GdMut`] for one tracked
//! exclusive accessor, a [`NonAliasingGuard`] for one non-aliasing
//! declaration. Value access always goes back through the cell, which
//! checks the guard against its current state.

use vstd::prelude::*;

verus! {

/// Witness of one tracked shared accessor. Surrender it with
/// [`crate::GdCell::drop_ref`].
#[derive(Debug)]
pub struct GdRef {
    /// The storage token that was active when the accessor was granted.
    pub(crate) token: u64,
}

impl View for GdRef {
    type V = u64;

    closed spec fn view(&self) -> u64 {
        self.token
    }
}

impl GdRef {
    /// Create a guard bound to the given storage token. The cell checks a
    /// guard against its live state at every use, so constructing one is
    /// harmless in itself.
    pub fn new(token: u64) -> (g: Self)
        ensures
            g@ == token,
    {
        GdRef { token }
    }

    /// The storage token that was active when the accessor was granted.
    pub fn token(&self) -> (t: u64)
        ensures
            t == self@,
    {
        self.token
    }
}

/// View of a [`GdMut`]: the exclusive-accessor count captured when it was
/// granted, and the storage token it was granted over.
pub ghost struct MutGuardView {
    pub count: nat,
    pub token: u64,
}

/// Witness of one tracked exclusive accessor. It remembers the
/// exclusive-accessor count observed at creation; the cell refuses to hand
/// out the value through a guard whose captured count no longer matches,
/// which detects a guard gone stale under a nested non-aliasing
/// re-borrow. Surrender it with [`crate::GdCell::drop_mut`].
#[derive(Debug)]
pub struct GdMut {
    /// The exclusive-accessor count at the moment this guard was granted.
    pub(crate) count: usize,
    /// The storage token that was active when the accessor was granted.
    pub(crate) token: u64,
}

impl View for GdMut {
    type V = MutGuardView;

    closed spec fn view(&self) -> MutGuardView {
        MutGuardView { count: self.count as nat, token: self.token }
    }
}

impl GdMut {
    /// Create a guard capturing the given count and storage token. The cell
    /// checks a guard against its live state at every use, so constructing
    /// one is harmless in itself.
    pub fn new(count: usize, token: u64) -> (g: Self)
        ensures
            g@.count == count,
            g@.token == token,
    {
        GdMut { count, token }
    }

    /// The exclusive-accessor count captured when this guard was granted.
    pub fn count(&self) -> (c: usize)
        ensures
            c == self@.count,
    {
        self.count
    }

    /// The storage token that was active when the accessor was granted.
    pub fn token(&self) -> (t: u64)
        ensures
            t == self@.token,
    {
        self.token
    }
}

/// Witness of one non-aliasing declaration. Surrender it with
/// [`crate::GdCell::drop_non_aliasing`] to re-declare the outer exclusive
/// accessor as possibly aliasing and pop one entry of the cell's token
/// stack.
#[derive(Debug)]
pub struct NonAliasingGuard {
    /// The storage token the declaration was made over.
    pub(crate) token: u64,
}

impl View for NonAliasingGuard {
    type V = u64;

    closed spec fn view(&self) -> u64 {
        self.token
    }
}

impl NonAliasingGuard {
    /// Create a guard standing for one non-aliasing declaration made over
    /// the given storage token.
    pub fn new(token: u64) -> (g: Self)
        ensures
            g@ == token,
    {
        NonAliasingGuard { token }
    }
}

} // verus!
