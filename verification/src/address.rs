//! Ledger addresses, held as their raw 32 bytes.

use vstd::prelude::*;

verus! {

/// A 32-byte account address. The vault never looks inside one; it only
/// stores, compares and serializes them.
#[derive(Clone, Copy, Debug, PartialEq, Eq, Hash)]
pub struct Address {
    pub bytes: [u8; 32],
}

impl Address {
    pub fn new(bytes: [u8; 32]) -> (r: Address)
        ensures
            r.bytes == bytes,
    {
        Address { bytes }
    }
}

} // verus!
