//! Addresses into an address space, and the null address.
use vstd::prelude::*;

verus! {

/// An address: an index into an address space (a `Vec`), where address 0 is
/// the null address and never names a usable cell.
#[derive(Clone, Copy, Debug, PartialEq, Eq, Structural)]
pub struct Ptr {
    pub addr: usize,
}

/// Operations on raw addresses.
pub trait RawPtr: Sized {
    /// The address as a number.
    spec fn spec_addr(&self) -> nat;

    /// The null address.
    fn null() -> (r: Self)
        ensures
            r.spec_addr() == 0,
    ;

    /// Whether this is the null address.
    fn is_null(&self) -> (r: bool)
        ensures
            r == (self.spec_addr() == 0),
    ;

    /// Whether this is not the null address.
    fn is_not_null(&self) -> (r: bool)
        ensures
            r == (self.spec_addr() != 0),
    ;

    /// The address `count` elements further on (backwards when negative).
    fn offset(self, count: isize) -> (r: Self)
        requires
            0 <= self.spec_addr() + count <= usize::MAX,
        ensures
            r.spec_addr() == self.spec_addr() + count,
    ;
}

impl RawPtr for Ptr {
    open spec fn spec_addr(&self) -> nat {
        self.addr as nat
    }

    fn null() -> (r: Ptr) {
        null()
    }

    fn is_null(&self) -> (r: bool) {
        self.addr == 0
    }

    fn is_not_null(&self) -> (r: bool) {
        !self.is_null()
    }

    fn offset(self, count: isize) -> (r: Ptr) {
        let addr: usize = if count >= 0 {
            self.addr + (count as usize)
        } else {
            self.addr - ((0 - (count as i128)) as usize)
        };
        Ptr { addr }
    }
}

/// The null address, for spans that are read.
pub fn null() -> (r: Ptr)
    ensures
        r.addr == 0,
{
    Ptr { addr: 0 }
}

/// The null address, for spans that are written.
pub fn mut_null() -> (r: Ptr)
    ensures
        r.addr == 0,
{
    Ptr { addr: 0 }
}

} // verus!
