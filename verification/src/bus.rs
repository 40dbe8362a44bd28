//! Access to the memory that holds Game Boy machine code.
use vstd::prelude::*;

verus! {

/// Trait to be implemented by the `disassemble` function caller. This allows the `disassemble` function to
/// access the binary Game Boy data.
///
/// A bus is memory: reading the same address gives the same answer each
/// time. `spec_byte` and `spec_word` name that answer. An implementation
/// verified with this library defines them as what its reads give back (as
/// `SimpleBus` does). One written outside Verus implements only the two reads,
/// as before; the defaults then stand for some fixed function of the bus and
/// the address, so all that is taken on trust of such a bus is that its reads
/// are deterministic.
pub trait MemoryBus {
    /// The byte that the bus holds at `addr`, if there is one (by default,
    /// some unknown function of the bus and the address).
    open spec fn spec_byte(&self, addr: u16) -> Option<u8> {
        vstd::pervasive::arbitrary::<spec_fn(&Self, u16) -> Option<u8>>()(self, addr)
    }

    /// The word that the bus holds at `addr`, if there is one (by default,
    /// some unknown function of the bus and the address).
    open spec fn spec_word(&self, addr: u16) -> Option<u16> {
        vstd::pervasive::arbitrary::<spec_fn(&Self, u16) -> Option<u16>>()(self, addr)
    }

    /// The byte at `addr`, if there is one.
    fn read_byte(&self, addr: u16) -> (r: Option<u8>)
        ensures
            r == self.spec_byte(addr),
    ;

    /// The word that starts at `addr`, if there is one.
    fn read_word(&self, addr: u16) -> (r: Option<u16>)
        ensures
            r == self.spec_word(addr),
    ;
}

/// Vendor-provided bus wrapper over vector of bytes. Also used for testing
pub struct SimpleBus {
    data: Vec<u8>,
}

impl View for SimpleBus {
    type V = Seq<u8>;

    closed spec fn view(&self) -> Seq<u8> {
        self.data@
    }
}

/// The byte at `addr` of the memory `data`, if it lies inside.
pub open spec fn byte_at(data: Seq<u8>, addr: int) -> Option<u8> {
    if 0 <= addr < data.len() {
        Some(data[addr])
    } else {
        None
    }
}

/// The little-endian word at `addr` of the memory `data`, if both its bytes
/// lie inside: the byte at `addr` is the low byte, the next one the high byte.
pub open spec fn word_at(data: Seq<u8>, addr: int) -> Option<u16> {
    if 0 <= addr && addr + 1 < data.len() {
        Some((data[addr + 1] as int * 256 + data[addr] as int) as u16)
    } else {
        None
    }
}

impl SimpleBus {
    /// A bus over the bytes `data`, the first at address 0.
    pub fn new(data: Vec<u8>) -> (r: SimpleBus)
        ensures
            r@ == data@,
    {
        SimpleBus { data }
    }
}

impl MemoryBus for SimpleBus {
    open spec fn spec_byte(&self, addr: u16) -> Option<u8> {
        byte_at(self@, addr as int)
    }

    open spec fn spec_word(&self, addr: u16) -> Option<u16> {
        word_at(self@, addr as int)
    }

    fn read_byte(&self, addr: u16) -> (r: Option<u8>)
        ensures
            r == byte_at(self@, addr as int),
    {
        let idx: usize = addr as usize;

        if idx >= self.data.len() {
            None
        } else {
            Some(self.data[idx])
        }
    }

    fn read_word(&self, addr: u16) -> (r: Option<u16>)
        ensures
            r == word_at(self@, addr as int),
    {
        let idx: usize = addr as usize;

        if idx + 1 >= self.data.len() {
            None
        } else {
            let high: u16 = self.data[idx + 1] as u16;
            let low: u16 = self.data[idx] as u16;
            let w: u16 = high << 8 | low;
            assert(high << 8 | low == high * 256 + low) by (bit_vector)
                requires
                    high < 256,
                    low < 256,
            ;
            Some(w)
        }
    }
}

} // verus!
