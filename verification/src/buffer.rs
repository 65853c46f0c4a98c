//! A fixed-size scratch buffer whose allocation may fail without aborting.

use crate::error::{out_of_memory, MediaError};
use vstd::prelude::*;

verus! {

/// A zero-filled scratch buffer of fixed capacity.
pub struct Buffer {
    bytes: Vec<u8>,
}

impl View for Buffer {
    type V = Seq<u8>;

    closed spec fn view(&self) -> Seq<u8> {
        self.bytes@
    }
}

/// `len` zero bytes.
pub open spec fn zeros(len: nat) -> Seq<u8> {
    Seq::new(len, |i: int| 0u8)
}

impl Buffer {
    /// Tries to allocate a buffer of `capacity` zero bytes.
    ///
    /// Whether the allocation succeeds is the allocator's to decide; a
    /// failure is always reported as `OutOfMemory`, never as a panic.
    pub fn try_alloc(capacity: usize) -> (result: Result<Self, MediaError>)
        ensures
            match result {
                Ok(buffer) => buffer@ == zeros(capacity as nat),
                Err(error) => error == MediaError::OutOfMemory,
            },
    {
        let mut bytes: Vec<u8> = Vec::new();
        match bytes.try_reserve(capacity) {
            Ok(()) => {
                bytes.resize(capacity, 0u8);
                assert(bytes@ =~= zeros(capacity as nat));
                Ok(Self { bytes })
            },
            Err(_) => Err(out_of_memory()),
        }
    }

    /// The capacity of this buffer.
    pub fn capacity(&self) -> (capacity: usize)
        ensures
            capacity == self@.len(),
    {
        self.bytes.len()
    }

    /// The bytes of this buffer.
    pub fn as_slice(&self) -> (bytes: &[u8])
        ensures
            bytes@ == self@,
    {
        self.bytes.as_slice()
    }

    /// Overwrites the front of the buffer with `prefix`; the rest stays.
    pub fn write_prefix(&mut self, prefix: &[u8])
        requires
            prefix@.len() <= old(self)@.len(),
        ensures
            final(self)@ == prefix@ + old(self)@.skip(prefix@.len() as int),
    {
        let mut index: usize = 0;
        while index < prefix.len()
            invariant
                index <= prefix@.len() <= self.bytes@.len(),
                self.bytes@.len() == old(self).bytes@.len(),
                self.bytes@ == prefix@.take(index as int) + old(self).bytes@.skip(index as int),
            decreases prefix@.len() - index,
        {
            let byte: u8 = prefix[index];
            self.bytes[index] = byte;
            assert(self.bytes@ =~= prefix@.take(index + 1) + old(self).bytes@.skip(index + 1));
            index += 1;
        }
        assert(prefix@.take(index as int) =~= prefix@);
    }
}

} // verus!
