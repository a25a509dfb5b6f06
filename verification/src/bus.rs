use vstd::prelude::*;

verus! {

/// Number of bytes the bus can address: every `u16` is a valid address.
pub const BUS_SIZE: usize = 0x10000;

/// The memory bus: a flat, byte addressable 64 KiB store.
pub struct Bus {
    mem: [u8; 0x10000],
}

impl View for Bus {
    type V = Seq<u8>;

    /// The bytes of the bus, indexed by address.
    closed spec fn view(&self) -> Seq<u8> {
        self.mem@
    }
}

impl Bus {
    /// A bus whose every byte is zero.
    pub fn new() -> (bus: Bus)
        ensures
            bus@.len() == BUS_SIZE,
            forall|i: int| 0 <= i < BUS_SIZE ==> #[trigger] bus@[i] == 0u8,
    {
        Bus { mem: [0u8; 0x10000] }
    }

    /// The number of bytes on the bus.
    pub proof fn lemma_size(&self)
        ensures
            self@.len() == BUS_SIZE,
    {
    }

    /// The byte stored at `addr`.
    pub fn get_address(&self, addr: u16) -> (byte: u8)
        ensures
            byte == self@[addr as int],
    {
        self.mem[addr as usize]
    }

    /// Stores `val` at `addr`; every other byte is left as it was.
    pub fn write_byte(&mut self, addr: u16, val: u8)
        ensures
            final(self)@ == old(self)@.update(addr as int, val),
    {
        self.mem[addr as usize] = val;
    }
}

/// What a read gives back of a write: after storing `val` at `addr`, the
/// byte at `addr` is `val` and the byte at any other address is unchanged.
pub proof fn read_after_write(before: Seq<u8>, addr: u16, val: u8, other: u16)
    requires
        before.len() == BUS_SIZE,
    ensures
        before.update(addr as int, val)[addr as int] == val,
        other != addr ==> before.update(addr as int, val)[other as int] == before[other as int],
        before.update(addr as int, val).len() == BUS_SIZE,
{
}

} // verus!
