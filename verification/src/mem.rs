//! Main memory: a flat, fixed-capacity, zero-initialized byte buffer.

use vstd::prelude::*;

verus! {

/// A passive, contiguous byte buffer standing for main memory. Index 0 is
/// the lowest address. The buffer is allocated once, at construction, and
/// never resized; its read/write interface is a future extension point.
pub struct Mem {
    pub ram: Vec<u8>,
}

impl Mem {
    /// The buffer holds exactly `capacity` bytes and every byte is zero.
    pub open spec fn is_zeroed(self, capacity: nat) -> bool {
        &&& self.ram@.len() == capacity
        &&& forall|i: int| 0 <= i < self.ram@.len() ==> self.ram@[i] == 0u8
    }

    /// Allocates the whole buffer up front, every byte initialized to zero.
    pub fn new(capacity: usize) -> (m: Mem)
        ensures
            m.is_zeroed(capacity as nat),
    {
        let mut ram: Vec<u8> = Vec::new();
        while ram.len() < capacity
            invariant
                ram@.len() <= capacity,
                forall|i: int| 0 <= i < ram@.len() ==> ram@[i] == 0u8,
            decreases capacity - ram.len(),
        {
            ram.push(0);
        }
        Mem { ram }
    }
}

} // verus!
