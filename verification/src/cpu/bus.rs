//! The CPU's view of memory: the `Bus` trait, a flat 64 KiB memory and the
//! NES memory map.
//
//  _______________ $10000  _______________
// | PRG-ROM       |       |               |
// | Upper Bank    |       |               |
// |_ _ _ _ _ _ _ _| $C000 | PRG-ROM       |
// | PRG-ROM       |       |               |
// | Lower Bank    |       |               |
// |_______________| $8000 |_______________|
// | SRAM          |       | SRAM          |
// |_______________| $6000 |_______________|
// | Expansion ROM |       | Expansion ROM |
// |_______________| $4020 |_______________|
// | I/O Registers |       |               |
// |_ _ _ _ _ _ _ _| $4000 |               |
// | Mirrors       |       | I/O Registers |
// | $2000-$2007   |       |               |
// |_ _ _ _ _ _ _ _| $2008 |               |
// | I/O Registers |       |               |
// |_______________| $2000 |_______________|
// | Mirrors       |       |               |
// | $0000-$07FF   |       |               |
// |_ _ _ _ _ _ _ _| $0800 |               |
// | RAM           |       | RAM           |
// |_ _ _ _ _ _ _ _| $0200 |               |
// | Stack         |       |               |
// |_ _ _ _ _ _ _ _| $0100 |               |
// | Zero Page     |       |               |
// |_______________| $0000 |_______________|

use vstd::prelude::*;

use crate::cartridge::Rom;

verus! {

/// The size of the 16-bit address space: the size of a flat memory, and the
/// bound that `Bus::load` checks.
pub const ADDRESS_SPACE_SIZE: usize = 0x10000;

const CPU_RAM_SIZE: usize = 0x0800;

const RAM_MIRRORS_END: u16 = 0x1FFF;

const PRG_ROM_START: u16 = 0x8000;

/// The address after `addr`, wrapping from `0xFFFF` to `0`.
pub open spec fn next_addr(addr: u16) -> u16 {
    ((addr + 1) % 0x10000) as u16
}

/// The 16-bit value stored little-endian as the bytes `lo`, `hi`.
pub open spec fn word(lo: u8, hi: u8) -> u16 {
    (hi * 256 + lo) as u16
}

/// The low byte of `value`.
pub open spec fn low_byte(value: u16) -> u8 {
    (value % 256) as u8
}

/// The high byte of `value`.
pub open spec fn high_byte(value: u16) -> u8 {
    (value / 256) as u8
}

/// The 16-bit address of the byte `offset` places after `start`, wrapping.
pub open spec fn wrapped(start: int, offset: int) -> u16 {
    ((start + offset) % 0x10000) as u16
}

/// The little-endian word at `addr` and the next address.
pub open spec fn read_word<B: BusModel>(bus: B::V, addr: u16) -> u16 {
    word(B::peek(bus, addr), B::peek(bus, next_addr(addr)))
}

/// The bus after writing `value` little-endian at `addr` and the next address.
pub open spec fn write_word<B: BusModel>(bus: B::V, addr: u16, value: u16) -> B::V {
    B::poke(B::poke(bus, addr, low_byte(value)), next_addr(addr), high_byte(value))
}

/// The model of a bus: its state is its view; `peek` says what a read gives
/// and `poke` what a write leaves behind. A read or a write that the device
/// refuses (by panicking) is excluded by `readable` and `writable`.
pub trait BusModel: View + Sized {
    spec fn readable(state: Self::V, addr: u16) -> bool;

    spec fn writable(state: Self::V, addr: u16) -> bool;

    spec fn peek(state: Self::V, addr: u16) -> u8;

    spec fn poke(state: Self::V, addr: u16, data: u8) -> Self::V;
}

/// Something that the CPU reads bytes from and writes bytes to, as its
/// model says.
pub trait Bus: BusModel {
    fn read(&self, addr: u16) -> (r: u8)
        requires
            Self::readable(self@, addr),
        ensures
            r == Self::peek(self@, addr),
    ;

    fn write(&mut self, addr: u16, data: u8)
        requires
            Self::writable(old(self)@, addr),
        ensures
            final(self)@ == Self::poke(old(self)@, addr, data),
    ;

    /// Reads the little-endian word at `addr` and `addr + 1` (wrapping).
    fn read_u16(&self, addr: u16) -> (r: u16)
        requires
            Self::readable(self@, addr),
            Self::readable(self@, next_addr(addr)),
        ensures
            r == read_word::<Self>(self@, addr),
    {
        let lo = self.read(addr);
        let hi = self.read(addr.wrapping_add(1));
        u16::from(hi) * 256 + u16::from(lo)
    }

    /// Writes `data` little-endian at `addr` and `addr + 1` (wrapping).
    fn write_u16(&mut self, addr: u16, data: u16)
        requires
            Self::writable(old(self)@, addr),
            Self::writable(Self::poke(old(self)@, addr, low_byte(data)), next_addr(addr)),
        ensures
            final(self)@ == write_word::<Self>(old(self)@, addr, data),
    {
        let lo = (data % 256) as u8;
        let hi = (data / 256) as u8;
        self.write(addr, lo);
        self.write(addr.wrapping_add(1), hi);
    }

    /// Copies `bytes` to the addresses from `start` on.
    ///
    /// Fails with `OutOfRange`, writing nothing, when `start + bytes.len()`
    /// exceeds `ADDRESS_SPACE_SIZE`, the end of the 16-bit address space.
    fn load(&mut self, start: u16, bytes: &[u8]) -> (r: Result<(), BusError>)
        requires
            start + bytes@.len() <= ADDRESS_SPACE_SIZE ==> writable_from::<Self>(
                old(self)@,
                start as int,
                bytes@,
            ),
        ensures
            r is Err <==> start + bytes@.len() > ADDRESS_SPACE_SIZE,
            r is Err ==> r == Err::<(), BusError>(BusError::OutOfRange) && final(self)@ == old(
                self,
            )@,
            r is Ok ==> final(self)@ == poke_from::<Self>(old(self)@, start as int, bytes@),
    {
        let first = usize::from(start);
        let end = match first.checked_add(bytes.len()) {
            Some(end) => end,
            None => return Err(BusError::OutOfRange),
        };
        if end > ADDRESS_SPACE_SIZE {
            return Err(BusError::OutOfRange);
        }
        proof {
            lemma_writable_from_prefix::<Self>(old(self)@, start as int, bytes@, bytes@.len() as int);
        }
        let mut offset: usize = 0;
        while offset < bytes.len()
            invariant
                first == start,
                offset <= bytes@.len(),
                first + bytes@.len() <= ADDRESS_SPACE_SIZE,
                writable_from::<Self>(old(self)@, start as int, bytes@),
                self@ == poke_from::<Self>(old(self)@, start as int, bytes@.take(offset as int)),
            decreases bytes@.len() - offset,
        {
            let addr = (first + offset) as u16;
            proof {
                let a = (first + offset) as usize;
                assert(a as u16 == a % 0x10000) by (bit_vector);
                lemma_writable_from_prefix::<Self>(
                    old(self)@,
                    start as int,
                    bytes@,
                    offset + 1,
                );
                assert(bytes@.take(offset + 1).drop_last() == bytes@.take(offset as int));
            }
            self.write(addr, bytes[offset]);
            offset = offset + 1;
        }
        assert(bytes@.take(bytes@.len() as int) == bytes@);
        Ok(())
    }
}

/// The state after writing `bytes` one by one from address `start` on,
/// wrapping past `0xFFFF`.
pub open spec fn poke_from<B: BusModel>(state: B::V, start: int, bytes: Seq<u8>) -> B::V
    decreases bytes.len(),
{
    if bytes.len() == 0 {
        state
    } else {
        B::poke(
            poke_from::<B>(state, start, bytes.drop_last()),
            wrapped(start, bytes.len() - 1),
            bytes.last(),
        )
    }
}

/// Whether each write of `bytes` from address `start` on is accepted.
pub open spec fn writable_from<B: BusModel>(state: B::V, start: int, bytes: Seq<u8>) -> bool
    decreases bytes.len(),
{
    bytes.len() == 0 || {
        &&& writable_from::<B>(state, start, bytes.drop_last())
        &&& B::writable(
            poke_from::<B>(state, start, bytes.drop_last()),
            wrapped(start, bytes.len() - 1),
        )
    }
}

/// The writes of a prefix are accepted when those of the whole are.
pub proof fn lemma_writable_from_prefix<B: BusModel>(state: B::V, start: int, bytes: Seq<u8>, n: int)
    requires
        0 <= n <= bytes.len(),
        writable_from::<B>(state, start, bytes),
    ensures
        writable_from::<B>(state, start, bytes.take(n)),
        n < bytes.len() ==> B::writable(
            poke_from::<B>(state, start, bytes.take(n)),
            wrapped(start, n),
        ),
    decreases bytes.len(),
{
    if n < bytes.len() {
        assert(bytes.drop_last().take(n) == bytes.take(n));
        if n == bytes.len() - 1 {
            assert(bytes.drop_last() == bytes.take(n));
        } else {
            lemma_writable_from_prefix::<B>(state, start, bytes.drop_last(), n);
        }
    } else {
        assert(bytes.take(n) == bytes);
    }
}

/// Why a bus operation failed.
#[derive(Debug, Clone, Copy, PartialEq, Eq, Structural)]
pub enum BusError {
    OutOfRange,
    UnsupportedMapper { mapper: u8 },
}


/// A flat memory: every address holds the byte last written to it.
///
/// It holds one byte for each of the `ADDRESS_SPACE_SIZE` addresses.
#[derive(Clone)]
pub struct FlatMemory {
    data: Box<[u8; ADDRESS_SPACE_SIZE]>,
}

impl View for FlatMemory {
    type V = Seq<u8>;

    closed spec fn view(&self) -> Seq<u8> {
        self.data@
    }
}

impl FlatMemory {
    /// A memory of zeros.
    #[must_use]
    pub fn new() -> (r: Self)
        ensures
            r@ == Seq::new(ADDRESS_SPACE_SIZE as nat, |i: int| 0u8),
    {
        let data = Box::new([0u8; ADDRESS_SPACE_SIZE]);
        assert(data@ == Seq::new(ADDRESS_SPACE_SIZE as nat, |i: int| 0u8));
        Self { data }
    }

    /// All the bytes of the memory.
    #[must_use]
    pub fn as_slice(&self) -> (r: &[u8])
        ensures
            r@ == self@,
            r@.len() == ADDRESS_SPACE_SIZE,
    {
        self.data.as_slice()
    }
}

impl BusModel for FlatMemory {
    open spec fn readable(state: Seq<u8>, addr: u16) -> bool {
        true
    }

    open spec fn writable(state: Seq<u8>, addr: u16) -> bool {
        true
    }

    open spec fn peek(state: Seq<u8>, addr: u16) -> u8 {
        state[addr as int]
    }

    open spec fn poke(state: Seq<u8>, addr: u16, data: u8) -> Seq<u8> {
        state.update(addr as int, data)
    }
}

/// Writes that stay below `0x10000` and inside a flat memory replace a run of
/// its bytes.
pub proof fn lemma_flat_poke_from(state: Seq<u8>, start: int, bytes: Seq<u8>)
    requires
        0 <= start,
        start + bytes.len() <= 0x10000,
        start + bytes.len() <= state.len(),
    ensures
        poke_from::<FlatMemory>(state, start, bytes) == state.subrange(0, start) + bytes
            + state.subrange(start + bytes.len(), state.len() as int),
    decreases bytes.len(),
{
    if bytes.len() == 0 {
        assert(state.subrange(0, start) + bytes + state.subrange(start, state.len() as int)
            == state);
    } else {
        lemma_flat_poke_from(state, start, bytes.drop_last());
        let n = bytes.len() - 1;
        assert(wrapped(start, n) == start + n);
        assert(poke_from::<FlatMemory>(state, start, bytes) == (state.subrange(0, start)
            + bytes.drop_last() + state.subrange(start + n, state.len() as int)).update(
            start + n,
            bytes.last(),
        ));
        assert((state.subrange(0, start) + bytes.drop_last() + state.subrange(
            start + n,
            state.len() as int,
        )).update(start + n, bytes.last()) == state.subrange(0, start) + bytes + state.subrange(
            start + bytes.len(),
            state.len() as int,
        ));
    }
}

impl Bus for FlatMemory {
    fn read(&self, addr: u16) -> (r: u8) {
        self.data[usize::from(addr)]
    }

    fn write(&mut self, addr: u16, data: u8) {
        self.data[usize::from(addr)] = data;
    }

    /// Copies `bytes` to the memory from `start` on.
    fn load(&mut self, start: u16, bytes: &[u8]) -> (r: Result<(), BusError>)
        ensures
            r is Ok ==> final(self)@ == old(self)@.subrange(0, start as int) + bytes@ + old(
                self,
            )@.subrange(start + bytes@.len(), old(self)@.len() as int),
    {
        let first = usize::from(start);
        let end = match first.checked_add(bytes.len()) {
            Some(end) => end,
            None => return Err(BusError::OutOfRange),
        };
        if end > self.data.len() {
            return Err(BusError::OutOfRange);
        }
        let ghost before = self@;
        let mut offset: usize = 0;
        while offset < bytes.len()
            invariant
                first == start,
                end == first + bytes@.len(),
                end <= ADDRESS_SPACE_SIZE,
                offset <= bytes@.len(),
                before.len() == ADDRESS_SPACE_SIZE,
                self@ == before.subrange(0, first as int) + bytes@.take(offset as int)
                    + before.subrange(first + offset, before.len() as int),
            decreases bytes@.len() - offset,
        {
            self.data[first + offset] = bytes[offset];
            offset = offset + 1;
            assert(self@ == before.subrange(0, first as int) + bytes@.take(offset as int)
                + before.subrange(first + offset, before.len() as int));
        }
        proof {
            assert(bytes@.take(bytes@.len() as int) == bytes@);
            lemma_flat_poke_from(before, start as int, bytes@);
        }
        Ok(())
    }
}

/// The NES memory map: 2 KiB of RAM mirrored up to `0x1FFF`, the PPU
/// registers from `0x2000`, and the cartridge's program ROM from `0x8000`.
#[derive(Debug, Clone)]
pub struct NesBus {
    cpu_ram: [u8; CPU_RAM_SIZE],
    rom: Rom,
}

/// The state of the NES bus: its RAM and its cartridge.
pub type NesBusState = (Seq<u8>, Rom);

impl View for NesBus {
    type V = NesBusState;

    closed spec fn view(&self) -> NesBusState {
        (self.cpu_ram@, self.rom)
    }
}

/// Whether `addr` lies in the RAM or one of its mirrors.
pub open spec fn in_ram(addr: u16) -> bool {
    addr <= 0x1FFF
}

/// Whether `addr` lies in the cartridge's program ROM window.
pub open spec fn in_prg_rom(addr: u16) -> bool {
    addr >= 0x8000
}

/// Where an address of the program ROM window falls in the ROM: a 16 KiB ROM
/// appears twice, at `0x8000` and at `0xC000`.
pub open spec fn prg_rom_offset(rom: Rom, addr: u16) -> int {
    if rom.prg_rom@.len() == 0x4000 {
        (addr - 0x8000) % 0x4000
    } else {
        addr - 0x8000
    }
}

impl BusModel for NesBus {
    /// RAM and the unmapped area can be read; the program ROM where the ROM
    /// has a byte for the address; the PPU registers not at all.
    open spec fn readable(state: NesBusState, addr: u16) -> bool {
        ||| in_ram(addr)
        ||| 0x4000 <= addr < 0x8000
        ||| in_prg_rom(addr) && prg_rom_offset(state.1, addr) < state.1.prg_rom@.len()
    }

    /// RAM and the unmapped area can be written; the PPU registers and the
    /// program ROM not.
    open spec fn writable(state: NesBusState, addr: u16) -> bool {
        in_ram(addr) || 0x4000 <= addr < 0x8000
    }

    open spec fn peek(state: NesBusState, addr: u16) -> u8 {
        if in_ram(addr) {
            state.0[(addr as int) % 0x800]
        } else if in_prg_rom(addr) {
            state.1.prg_rom@[prg_rom_offset(state.1, addr)]
        } else {
            0
        }
    }

    open spec fn poke(state: NesBusState, addr: u16, data: u8) -> NesBusState {
        if in_ram(addr) {
            (state.0.update((addr as int) % 0x800, data), state.1)
        } else {
            state
        }
    }
}

impl NesBus {
    /// A bus with cleared RAM around `rom`; only mapper 0 is supported.
    pub fn new(rom: Rom) -> (r: Result<Self, BusError>)
        ensures
            rom.mapper != 0 ==> r == Err::<Self, BusError>(
                BusError::UnsupportedMapper { mapper: rom.mapper },
            ),
            rom.mapper == 0 ==> (r matches Ok(bus) && bus@ == (
                Seq::new(0x800, |i: int| 0u8),
                rom,
            )),
    {
        if rom.mapper != 0 {
            return Err(BusError::UnsupportedMapper { mapper: rom.mapper });
        }
        let bus = Self { cpu_ram: [0u8; CPU_RAM_SIZE], rom };
        assert(bus.cpu_ram@ == Seq::new(CPU_RAM_SIZE as nat, |i: int| 0u8));
        Ok(bus)
    }

    fn read_prg_rom(&self, addr: u16) -> (r: u8)
        requires
            in_prg_rom(addr),
            prg_rom_offset(self.rom, addr) < self.rom.prg_rom@.len(),
        ensures
            r == self.rom.prg_rom@[prg_rom_offset(self.rom, addr)],
    {
        let mut offset = usize::from(addr - PRG_ROM_START);
        if self.rom.prg_rom.len() == 0x4000 {
            offset = offset % 0x4000;
        }
        self.rom.prg_rom[offset]
    }
}

impl Bus for NesBus {
    fn read(&self, addr: u16) -> (r: u8) {
        if addr <= RAM_MIRRORS_END {
            let mirrored_addr = addr & 0x07FF;
            assert(mirrored_addr == addr % 0x800) by (bit_vector)
                requires
                    mirrored_addr == addr & 0x07FF,
            ;
            self.cpu_ram[usize::from(mirrored_addr)]
        } else if addr >= PRG_ROM_START {
            self.read_prg_rom(addr)
        } else {
            // The PPU registers are excluded by `readable`.
            0
        }
    }

    fn write(&mut self, addr: u16, data: u8) {
        if addr <= RAM_MIRRORS_END {
            let mirrored_addr = addr & 0x07FF;
            assert(mirrored_addr == addr % 0x800) by (bit_vector)
                requires
                    mirrored_addr == addr & 0x07FF,
            ;
            self.cpu_ram[usize::from(mirrored_addr)] = data;
        }
        // The PPU registers and the program ROM are excluded by `writable`;
        // writes to the rest of the address space are ignored.
    }
}


/// A word split into its bytes and put back together is the same word.
pub proof fn lemma_word_bytes(value: u16)
    ensures
        word(low_byte(value), high_byte(value)) == value,
{
}

/// Every flat memory holds one byte for each address.
pub proof fn lemma_flat_size(memory: FlatMemory)
    ensures
        memory@.len() == ADDRESS_SPACE_SIZE,
{
}

/// A flat memory reads back the byte last written to an address; a write
/// changes no other address and keeps the memory's size.
pub proof fn lemma_flat_read_after_write(state: Seq<u8>, addr: u16, data: u8, other: u16)
    requires
        state.len() == ADDRESS_SPACE_SIZE,
    ensures
        FlatMemory::poke(state, addr, data).len() == ADDRESS_SPACE_SIZE,
        FlatMemory::peek(FlatMemory::poke(state, addr, data), addr) == data,
        other != addr ==> FlatMemory::peek(FlatMemory::poke(state, addr, data), other)
            == FlatMemory::peek(state, other),
{
}

/// A flat memory reads back the word last written to an address.
pub proof fn lemma_flat_word_round_trip(state: Seq<u8>, addr: u16, value: u16)
    requires
        state.len() == ADDRESS_SPACE_SIZE,
    ensures
        read_word::<FlatMemory>(write_word::<FlatMemory>(state, addr, value), addr) == value,
{
    assert(next_addr(addr) != addr);
    lemma_word_bytes(value);
}

/// The RAM of every NES bus holds `0x800` bytes.
pub proof fn lemma_nes_ram_size(bus: NesBus)
    ensures
        bus@.0.len() == 0x800,
{
}

/// The RAM of the NES bus appears four times below `0x2000`: a byte written
/// at any of its mirrors is read back at all of them, and the other RAM bytes
/// keep their values.
pub proof fn lemma_nes_ram_mirrored(state: NesBusState, addr: u16, data: u8, other: u16)
    requires
        state.0.len() == 0x800,
        in_ram(addr),
        in_ram(other),
    ensures
        NesBus::readable(NesBus::poke(state, addr, data), other),
        addr % 0x800 == other % 0x800 ==> NesBus::peek(NesBus::poke(state, addr, data), other)
            == data,
        addr % 0x800 != other % 0x800 ==> NesBus::peek(NesBus::poke(state, addr, data), other)
            == NesBus::peek(state, other),
{
}

/// Writes outside the RAM of the NES bus change nothing, and the area between
/// the PPU registers and the program ROM reads as zero.
pub proof fn lemma_nes_writes_outside_ram_ignored(state: NesBusState, addr: u16, data: u8)
    requires
        !in_ram(addr),
    ensures
        NesBus::poke(state, addr, data) == state,
        0x4000 <= addr < 0x8000 ==> NesBus::peek(state, addr) == 0,
{
}

/// A 16 KiB program ROM appears both at `0x8000` and at `0xC000`.
pub proof fn lemma_nes_prg_rom_mirrored(state: NesBusState, addr: u16)
    requires
        state.1.prg_rom@.len() == 0x4000,
        0x8000 <= addr < 0xC000,
    ensures
        NesBus::readable(state, addr),
        NesBus::readable(state, (addr + 0x4000) as u16),
        NesBus::peek(state, addr) == state.1.prg_rom@[addr - 0x8000],
        NesBus::peek(state, (addr + 0x4000) as u16) == NesBus::peek(state, addr),
{
}

/// A 32 KiB program ROM fills the window from `0x8000` once, unmirrored.
pub proof fn lemma_nes_prg_rom_unmirrored(state: NesBusState, addr: u16)
    requires
        state.1.prg_rom@.len() == 0x8000,
        in_prg_rom(addr),
    ensures
        NesBus::readable(state, addr),
        NesBus::peek(state, addr) == state.1.prg_rom@[addr - 0x8000],
{
}

} // verus!
