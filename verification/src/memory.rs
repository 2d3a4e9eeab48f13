//! A flat 64 KiB byte store implementing `Bus`: the simplest machine the
//! processor can run in, and the memory used by the tests.

use vstd::prelude::*;

verus! {

use crate::Bus;

/// A plain 64 KiB memory with no routing: every address is RAM.
#[derive(Debug)]
pub struct Memory {
    data: Vec<u8>,
}

impl Memory {
    /// A memory of 0x10000 bytes, all zero.
    pub fn new() -> (r: Self)
        ensures
            r.mem().len() == 0x10000,
            forall|i: int| 0 <= i < 0x10000 ==> r.mem()[i] == 0,
    {
        let mut data: Vec<u8> = Vec::new();
        while data.len() < 0x10000
            invariant
                data@.len() <= 0x10000,
                forall|i: int| 0 <= i < data@.len() ==> data@[i] == 0,
            decreases 0x10000 - data.len(),
        {
            data.push(0);
        }
        Memory { data }
    }
}

impl Bus for Memory {
    closed spec fn mem(&self) -> Seq<u8> {
        self.data@
    }

    fn read(&self, addr: u16) -> (r: u8) {
        self.data[addr as usize]
    }

    fn write(&mut self, addr: u16, value: u8) {
        self.data[addr as usize] = value;
    }
}

} // verus!
