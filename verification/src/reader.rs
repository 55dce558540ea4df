//! A cursor over an in-memory byte buffer.

use vstd::prelude::*;
use crate::bytes::spec_remaining;

verus! {

/// A byte buffer and the position up to which it has been read.
#[derive(Clone, Debug, PartialEq, Eq)]
pub struct ByteReader {
    /// The whole input.
    pub data: Vec<u8>,
    /// Index of the next unread byte.
    pub position: usize,
}

impl ByteReader {
    /// A reader at the start of `data`.
    pub fn new(data: Vec<u8>) -> (r: Self)
        ensures
            r.data@ == data@,
            r.position == 0,
    {
        Self { data, position: 0 }
    }

    /// The number of bytes not yet read.
    pub open spec fn spec_remaining(&self) -> int {
        spec_remaining(self.data@, self.position as int)
    }

    /// The number of bytes not yet read.
    pub fn remaining(&self) -> (r: usize)
        ensures
            r == self.spec_remaining(),
    {
        if self.position <= self.data.len() {
            self.data.len() - self.position
        } else {
            0
        }
    }

    /// Index of the next unread byte.
    pub fn position(&self) -> (r: usize)
        ensures
            r == self.position,
    {
        self.position
    }
}

} // verus!
