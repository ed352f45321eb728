use vstd::prelude::*;

verus! {

/// Bytes of general-purpose RAM behind the mirrored region `0x0000..=0x1FFF`.
pub const RAM_SIZE: usize = 2048;

/// Device registers behind the mirrored region `0x2000..=0x3FFF`.
pub const REGISTER_COUNT: usize = 8;

/// Size of the physical store: RAM followed by the device registers.
pub const MEMORY_SIZE: usize = 2056;

pub const RAM_MIRRORS_END: u16 = 0x1FFF;

pub const PPU_REGISTERS_MIRRORS_END: u16 = 0x3FFF;

/// The slot of the physical store that `address` decodes to, or `None` for
/// an address that nothing backs.
pub open spec fn physical_index(address: u16) -> Option<int> {
    if address <= RAM_MIRRORS_END {
        Some((address % 2048) as int)
    } else if address <= PPU_REGISTERS_MIRRORS_END {
        Some(RAM_SIZE + (address % 8) as int)
    } else {
        None
    }
}

/// What a read of `address` returns from the physical store `mem`.
#[verifier::opaque]
pub open spec fn load(mem: Seq<u8>, address: u16) -> u8 {
    match physical_index(address) {
        Some(i) => mem[i],
        None => 0,
    }
}

/// The physical store after `data` is written to `address`.
#[verifier::opaque]
pub open spec fn store(mem: Seq<u8>, address: u16, data: u8) -> Seq<u8> {
    match physical_index(address) {
        Some(i) => mem.update(i, data),
        None => mem,
    }
}

/// The physical store at power-on: every byte 0.
pub open spec fn zeroed_memory() -> Seq<u8> {
    Seq::new(MEMORY_SIZE as nat, |i: int| 0u8)
}

/// The physical store after `bytes` are written one after another from
/// `start` on, the address wrapping past 0xFFFF.
pub open spec fn store_bytes(mem: Seq<u8>, start: u16, bytes: Seq<u8>) -> Seq<u8>
    decreases bytes.len(),
{
    if bytes.len() == 0 {
        mem
    } else {
        let last = bytes.len() - 1;
        store(store_bytes(mem, start, bytes.take(last)), ((start + last) % 0x10000) as u16, bytes[last])
    }
}

proof fn lemma_masks_are_remainders(address: u16)
    ensures
        address & 0x07FF == address % 2048,
        address & 0x0007 == address % 8,
{
    assert(address & 0x07FF == address % 2048 && address & 0x0007 == address % 8) by (bit_vector);
}

/// The memory bus: a 64 KiB address space decoded onto 2 KiB of RAM and
/// eight device registers.
pub struct Bus {
    memory: Vec<u8>,
}

impl View for Bus {
    type V = Seq<u8>;

    closed spec fn view(&self) -> Seq<u8> {
        self.memory@
    }
}

impl Bus {
    #[verifier::type_invariant]
    spec fn inv(self) -> bool {
        self.memory.len() == MEMORY_SIZE
    }

    pub fn new() -> (bus: Self)
        ensures
            bus@ == zeroed_memory(),
    {
        let bus = Bus { memory: zeroed() };
        assert(bus@ =~= zeroed_memory());
        bus
    }

    /// Zeroes RAM and the device registers.
    pub fn reset(&mut self)
        ensures
            final(self)@ == zeroed_memory(),
    {
        self.memory = zeroed();
        assert(self@ =~= zeroed_memory());
    }

    /// Reads one byte; an unbacked address reads as 0.
    pub fn read(&self, address: u16) -> (data: u8)
        ensures
            data == load(self@, address),
    {
        proof {
            use_type_invariant(self);
            lemma_masks_are_remainders(address);
            reveal(load);
        }
        if address <= RAM_MIRRORS_END {
            self.memory[(address & 0x07FF) as usize]
        } else if address <= PPU_REGISTERS_MIRRORS_END {
            self.memory[RAM_SIZE + (address & 0x0007) as usize]
        } else {
            0
        }
    }

    /// Writes one byte; a write to an unbacked address is dropped.
    pub fn write(&mut self, address: u16, data: u8)
        ensures
            final(self)@ == store(old(self)@, address, data),
    {
        proof {
            use_type_invariant(&*self);
            lemma_masks_are_remainders(address);
            reveal(store);
        }
        if address <= RAM_MIRRORS_END {
            self.memory[(address & 0x07FF) as usize] = data;
        } else if address <= PPU_REGISTERS_MIRRORS_END {
            self.memory[RAM_SIZE + (address & 0x0007) as usize] = data;
        }
    }
}

impl Bus {
    /// Writes a program image through the bus, byte by byte, from `start` on.
    pub fn load_program(&mut self, start: u16, program: &[u8])
        ensures
            final(self)@ == store_bytes(old(self)@, start, program@),
    {
        let mut address = start;
        let mut i: usize = 0;
        while i < program.len()
            invariant
                i <= program@.len(),
                address == ((start + i) % 0x10000) as u16,
                self@ == store_bytes(old(self)@, start, program@.take(i as int)),
            decreases program@.len() - i,
        {
            self.write(address, program[i]);
            proof {
                let next = program@.take(i + 1);
                assert(next.take(i as int) =~= program@.take(i as int));
                assert(next[i as int] == program@[i as int]);
            }
            address = address.wrapping_add(1);
            i = i + 1;
        }
        assert(program@.take(i as int) =~= program@);
    }
}

fn zeroed() -> (memory: Vec<u8>)
    ensures
        memory@ == zeroed_memory(),
{
    let mut memory: Vec<u8> = Vec::new();
    while memory.len() < MEMORY_SIZE
        invariant
            memory.len() <= MEMORY_SIZE,
            forall|i: int| 0 <= i < memory.len() ==> memory@[i] == 0u8,
        decreases MEMORY_SIZE - memory.len(),
    {
        memory.push(0);
    }
    assert(memory@ =~= zeroed_memory());
    memory
}

} // verus!
