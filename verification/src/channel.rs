//! An in-memory model of the host runtime's return-data channel: a
//! per-invocation, capacity-limited slot that starts unset and holds at most
//! one byte payload at a time.

use vstd::prelude::*;
use vstd::slice::slice_to_vec;

verus! {

/// The host's maximum return-data size, in bytes.
pub const MAX_RETURN_DATA: usize = 1024;

/// The return-data slot: unset until the handler stores a payload, and
/// never holding more bytes than its capacity.
pub struct ReturnDataSlot {
    data: Option<Vec<u8>>,
    capacity: usize,
}

impl ReturnDataSlot {
    /// The bytes the slot currently holds, if it was set.
    pub closed spec fn spec_data(self) -> Option<Seq<u8>> {
        match self.data {
            Some(v) => Some(v@),
            None => None,
        }
    }

    /// The slot's capacity in bytes.
    pub closed spec fn spec_capacity(self) -> nat {
        self.capacity as nat
    }

    /// A fresh, unset slot with the given capacity.
    pub fn new(capacity: usize) -> (slot: Self)
        ensures
            slot.spec_data() is None,
            slot.spec_capacity() == capacity,
    {
        ReturnDataSlot { data: None, capacity }
    }

    /// A fresh, unset slot with the host's return-data capacity.
    pub fn with_host_capacity() -> (slot: Self)
        ensures
            slot.spec_data() is None,
            slot.spec_capacity() == MAX_RETURN_DATA,
    {
        Self::new(MAX_RETURN_DATA)
    }

    pub fn capacity(&self) -> (c: usize)
        ensures
            c == self.spec_capacity(),
    {
        self.capacity
    }

    pub fn is_set(&self) -> (b: bool)
        ensures
            b == (self.spec_data() is Some),
    {
        self.data.is_some()
    }

    /// Store a payload in the slot. The host accepts at most
    /// capacity-many bytes; a later store would overwrite an earlier one,
    /// exactly as the host primitive does.
    pub fn set(&mut self, bytes: &[u8])
        requires
            bytes@.len() <= old(self).spec_capacity(),
        ensures
            final(self).spec_data() == Some(bytes@),
            final(self).spec_capacity() == old(self).spec_capacity(),
    {
        self.data = Some(slice_to_vec(bytes));
    }

    /// The stored payload.
    pub fn payload(&self) -> (b: &[u8])
        requires
            self.spec_data() is Some,
        ensures
            Some(b@) == self.spec_data(),
    {
        self.data.as_ref().unwrap().as_slice()
    }
}

} // verus!
