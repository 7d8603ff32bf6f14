//! A flat 64 KiB array as address space.

use vstd::prelude::*;
use crate::error::CpuError;
use crate::memory::{Memory, VECTORS_START};
use crate::util::{high_byte, low_byte, make_word};

verus! {

/// 64 KiB of memory without any mapped device.
pub struct DefaultMemory {
    data: [u8; 65536],
}

impl DefaultMemory {
    /// The range of addresses that an image of `content_length` bytes takes
    /// when it is loaded at `address`, or the refusal of an image that would
    /// reach the vector area.
    pub fn verify_executable(content_length: usize, address: u16) -> (range: Result<
        (usize, usize),
        CpuError,
    >)
        ensures
            range is Ok <==> address + content_length <= VECTORS_START,
            range matches Ok((start, end)) ==> start == address && end == address + content_length,
            range is Err ==> range == Err::<(usize, usize), CpuError>(CpuError::LoadOversize),
    {
        let start: usize = address as usize;
        let limit: usize = VECTORS_START as usize;
        if start > limit || content_length > limit - start {
            return Err(CpuError::LoadOversize);
        }
        Ok((start, start + content_length))
    }
}

impl Memory for DefaultMemory {
    closed spec fn byte_at(&self, address: u16) -> u8 {
        self.data@[address as int]
    }

    fn new() -> (memory: Self) {
        DefaultMemory { data: [0u8;65536] }
    }

    fn read_byte(&self, address: u16) -> (value: u8) {
        self.data[address as usize]
    }

    fn read_short(&self, address: u16) -> (value: u16) {
        let low: u8 = self.data[address as usize];
        let high: u8 = self.data[address.wrapping_add(1) as usize];
        make_word(low, high)
    }

    fn write_byte(&mut self, address: u16, value: u8) {
        self.data[address as usize] = value;
    }

    fn write_short(&mut self, address: u16, value: u16) {
        self.data[address as usize] = low_byte(value);
        self.data[address.wrapping_add(1) as usize] = high_byte(value);
    }

    fn load(&mut self, executable: &[u8], address: u16) -> (loaded: Result<(), CpuError>) {
        let (start, end) = match Self::verify_executable(executable.len(), address) {
            Ok(range) => range,
            Err(error) => {
                return Err(error);
            },
        };
        let mut copied: usize = 0;
        while copied < executable.len()
            invariant
                copied <= executable@.len(),
                start == address,
                end == start + executable@.len(),
                end <= VECTORS_START,
                forall|other: u16| #[trigger]
                    self.byte_at(other) == (if start <= other < start + copied {
                        executable@[other - start]
                    } else {
                        old(self).byte_at(other)
                    }),
            decreases executable@.len() - copied,
        {
            let ghost before = *self;
            self.data[start + copied] = executable[copied];
            assert(self.data@ == before.data@.update(start + copied, executable@[copied as int]));
            assert forall|other: u16| #[trigger]
                self.byte_at(other) == (if start <= other < start + copied + 1 {
                    executable@[other - start]
                } else {
                    old(self).byte_at(other)
                }) by {
                assert(before.byte_at(other) == (if start <= other < start + copied {
                    executable@[other - start]
                } else {
                    old(self).byte_at(other)
                }));
            }
            copied = copied + 1;
        }
        Ok(())
    }
}

} // verus!
