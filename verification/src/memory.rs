//! The address space that the processor reads and writes.

use vstd::prelude::*;
use crate::error::CpuError;
use crate::util::{high_byte_of, low_byte_of, word_of};

verus! {

/// The first address of the vector area, which no program image may reach.
pub const VECTORS_START: u16 = 0xFFFA;

/// Where the address of the non-maskable interrupt routine is stored.
pub const NMI_VECTOR: u16 = 0xFFFA;

/// Where the address of the first instruction after a reset is stored.
pub const RESET_VECTOR: u16 = 0xFFFC;

/// Where the address of the routine for IRQ and BRK is stored.
pub const IRQ_VECTOR: u16 = 0xFFFE;

/// The address after `address`; the address after 0xFFFF is 0.
pub open spec fn next_address(address: u16) -> u16 {
    if address == 0xFFFF {
        0
    } else {
        (address + 1) as u16
    }
}

/// A 64 KiB address space: one byte at each address from 0 to 0xFFFF.
///
/// An embedder may put a bus of its own behind this interface. The
/// processor is verified against the contracts below, so they are what such
/// a bus has to keep.
pub trait Memory: Sized {
    /// The byte stored at `address`. The contracts speak of the address
    /// space through this function; compiled code never calls it.
    spec fn byte_at(&self, address: u16) -> u8;

    /// An address space that holds 0 everywhere.
    fn new() -> (memory: Self)
        ensures
            forall|address: u16| #[trigger] memory.byte_at(address) == 0,
    ;

    /// Reads the byte at `address`.
    fn read_byte(&self, address: u16) -> (value: u8)
        ensures
            value == self.byte_at(address),
    ;

    /// Reads the little-endian word whose low byte is at `address`. The high
    /// byte of the word at 0xFFFF is the byte at 0.
    fn read_short(&self, address: u16) -> (value: u16)
        ensures
            value == word_of(self.byte_at(address), self.byte_at(next_address(address))),
    ;

    /// Writes `value` at `address` and nowhere else.
    fn write_byte(&mut self, address: u16, value: u8)
        ensures
            forall|other: u16| #[trigger]
                final(self).byte_at(other) == (if other == address {
                    value
                } else {
                    old(self).byte_at(other)
                }),
    ;

    /// Writes `value` as a little-endian word: the low byte at `address`, the
    /// high byte at the address after it, and nothing elsewhere.
    fn write_short(&mut self, address: u16, value: u16)
        ensures
            forall|other: u16| #[trigger]
                final(self).byte_at(other) == (if other == address {
                    low_byte_of(value)
                } else if other == next_address(address) {
                    high_byte_of(value)
                } else {
                    old(self).byte_at(other)
                }),
    ;

    /// Copies a program image to `address` and the addresses after it. An
    /// image that would reach the vector area is refused, and the address
    /// space is then left as it was. No byte outside the image is written.
    fn load(&mut self, executable: &[u8], address: u16) -> (loaded: Result<(), CpuError>)
        ensures
            loaded is Ok <==> address + executable@.len() <= VECTORS_START,
            loaded is Err ==> loaded == Err::<(), CpuError>(CpuError::LoadOversize),
            loaded is Err ==> forall|other: u16| #[trigger]
                final(self).byte_at(other) == old(self).byte_at(other),
            loaded is Ok ==> forall|other: u16| #[trigger]
                final(self).byte_at(other) == (if address <= other < address + executable@.len() {
                    executable@[other - address]
                } else {
                    old(self).byte_at(other)
                }),
    ;
}

/// The whole address space as a sequence of 65536 bytes.
pub open spec fn image<M: Memory>(memory: &M) -> Seq<u8> {
    Seq::new(0x10000, |address: int| memory.byte_at(address as u16))
}

} // verus!
