//! Marshaling of optional arguments at the firmware call boundary.
//!
//! A size that the caller may leave out travels as a count, where zero means
//! "none". A reference that the caller may leave out travels as an address,
//! where zero is the null pointer.
use vstd::prelude::*;

verus! {

/// The count that stands on the wire for an optional size.
pub open spec fn spec_size_to_wire(size: Option<usize>) -> usize {
    match size {
        Some(n) => n,
        None => 0,
    }
}

/// The optional size that a count on the wire stands for.
pub open spec fn spec_size_from_wire(count: usize) -> Option<usize> {
    if count == 0 {
        None
    } else {
        Some(count)
    }
}

/// The address that stands on the wire for an optional reference.
pub open spec fn spec_addr_to_wire(addr: Option<usize>) -> usize {
    match addr {
        Some(a) => a,
        None => 0,
    }
}

/// The optional reference that an address on the wire stands for.
pub open spec fn spec_addr_from_wire(addr: usize) -> Option<usize> {
    if addr == 0 {
        None
    } else {
        Some(addr)
    }
}

/// Marshals an optional size: absent becomes zero.
pub fn size_to_wire(size: Option<usize>) -> (r: usize)
    ensures
        r == spec_size_to_wire(size),
{
    match size {
        Some(n) => n,
        None => 0,
    }
}

/// Unmarshals a count: zero becomes absent.
pub fn size_from_wire(count: usize) -> (r: Option<usize>)
    ensures
        r == spec_size_from_wire(count),
{
    if count == 0 {
        None
    } else {
        Some(count)
    }
}

/// Marshals an optional address: absent becomes the null address.
pub fn addr_to_wire(addr: Option<usize>) -> (r: usize)
    ensures
        r == spec_addr_to_wire(addr),
{
    match addr {
        Some(a) => a,
        None => 0,
    }
}

/// Unmarshals an address: the null address becomes absent.
pub fn addr_from_wire(addr: usize) -> (r: Option<usize>)
    ensures
        r == spec_addr_from_wire(addr),
{
    if addr == 0 {
        None
    } else {
        Some(addr)
    }
}

/// A present (non-zero) size survives the round trip to the wire and back,
/// an absent one comes back absent, and every count on the wire comes back
/// as itself.
pub proof fn lemma_size_round_trip(size: Option<usize>, count: usize)
    requires
        size matches Some(n) ==> n != 0,
    ensures
        spec_size_from_wire(spec_size_to_wire(size)) == size,
        size is Some ==> spec_size_to_wire(size) != 0,
        size is None ==> spec_size_to_wire(size) == 0,
        spec_size_to_wire(spec_size_from_wire(count)) == count,
{
}

/// A present (non-null) reference becomes a non-null address and comes back
/// as itself; an absent one becomes null and comes back absent; every address
/// on the wire comes back as itself.
pub proof fn lemma_addr_round_trip(addr: Option<usize>, wire: usize)
    requires
        addr matches Some(a) ==> a != 0,
    ensures
        spec_addr_from_wire(spec_addr_to_wire(addr)) == addr,
        addr is Some ==> spec_addr_to_wire(addr) != 0,
        addr is None ==> spec_addr_to_wire(addr) == 0,
        spec_addr_to_wire(spec_addr_from_wire(wire)) == wire,
{
}

} // verus!
