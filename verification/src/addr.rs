//! Physical and virtual addresses: 32-bit integers separated by type only,
//! never implicitly interconvertible.

use vstd::prelude::*;

verus! {

/// A 32-bit physical address.
#[derive(Clone, Copy, Debug, PartialEq, Eq, PartialOrd, Ord, Hash, Structural)]
pub struct Physical(u32);

impl View for Physical {
    type V = u32;

    closed spec fn view(&self) -> u32 {
        self.0
    }
}

impl Physical {
    pub fn new(addr: u32) -> (r: Physical)
        ensures
            r@ == addr,
    {
        Physical(addr)
    }

    pub fn into_inner(self) -> (r: u32)
        ensures
            r == self@,
    {
        self.0
    }
}

/// A 32-bit virtual address. Used as a page-directory index it is shifted
/// right 22 bits: 1024 granules cover the full 32-bit space.
#[derive(Clone, Copy, Debug, PartialEq, Eq, PartialOrd, Ord, Hash, Structural)]
pub struct Virtual(u32);

impl View for Virtual {
    type V = u32;

    closed spec fn view(&self) -> u32 {
        self.0
    }
}

impl Virtual {
    pub fn new(addr: u32) -> (r: Virtual)
        ensures
            r@ == addr,
    {
        Virtual(addr)
    }

    pub fn into_inner(self) -> (r: u32)
        ensures
            r == self@,
    {
        self.0
    }
}

} // verus!
