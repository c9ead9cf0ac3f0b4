//! The memory bus.
//!
//! The bus covers the whole 16-bit address space. Addresses from 0x8000 to
//! 0x9FFF belong to the display peripheral, every other address to a flat
//! array. Which of the two stores an address belongs to depends on the
//! address alone.

use crate::gpu::gpu::{GpuView, GPU, VRAM_BEGIN, VRAM_END};
use vstd::prelude::*;

verus! {

/// Number of addresses on the bus.
pub const MEMORY_SIZE: usize = 0x10000;

/// Whether an address belongs to the display peripheral.
pub open spec fn in_vram(addr: u16) -> bool {
    VRAM_BEGIN <= addr <= VRAM_END
}

/// What the bus holds: the flat array and the display peripheral.
#[verifier::ext_equal]
pub struct BusView {
    pub flat: Seq<u8>,
    pub gpu: GpuView,
}

impl BusView {
    /// The sizes that every view of a bus has.
    pub open spec fn well_shaped(self) -> bool {
        self.flat.len() == MEMORY_SIZE && self.gpu.well_shaped()
    }

    /// The state at start-up: every byte zero, the peripheral in its own
    /// state at start-up.
    pub open spec fn initial() -> BusView {
        BusView { flat: Seq::new(MEMORY_SIZE as nat, |i: int| 0u8), gpu: GpuView::initial() }
    }

    /// The byte at `addr`: from the peripheral, at the address rebased to the
    /// start of its range, where the address is the peripheral's; else from
    /// the flat array.
    pub open spec fn read(self, addr: u16) -> u8 {
        if in_vram(addr) {
            self.gpu.vram[addr - VRAM_BEGIN]
        } else {
            self.flat[addr as int]
        }
    }

    /// The state after `byte` was written at `addr`: the write goes to the
    /// store that the address belongs to, and the other store stays.
    pub open spec fn write(self, addr: u16, byte: u8) -> BusView {
        if in_vram(addr) {
            BusView { flat: self.flat, gpu: self.gpu.write(addr - VRAM_BEGIN, byte) }
        } else {
            BusView { flat: self.flat.update(addr as int, byte), gpu: self.gpu }
        }
    }

    /// The whole address space as the bus shows it, one byte per address.
    pub open spec fn space(self) -> Seq<u8> {
        Seq::new(MEMORY_SIZE as nat, |addr: int| self.read(addr as u16))
    }
}

/// The state at start-up is well shaped and reads zero at every address.
pub proof fn lemma_initial_reads_zero(addr: u16)
    ensures
        BusView::initial().well_shaped(),
        BusView::initial().read(addr) == 0,
{
    crate::gpu::gpu::lemma_initial_coherent();
}

/// A write keeps the sizes.
pub proof fn lemma_write_well_shaped(view: BusView, addr: u16, byte: u8)
    requires
        view.well_shaped(),
    ensures
        view.write(addr, byte).well_shaped(),
{
    if in_vram(addr) {
        crate::gpu::gpu::lemma_write_well_shaped(view.gpu, addr - VRAM_BEGIN, byte);
    }
}

/// A write on a bus whose tile cache agrees with tile memory leaves a bus
/// whose tile cache agrees with tile memory.
pub proof fn lemma_write_preserves_coherence(view: BusView, addr: u16, byte: u8)
    requires
        view.well_shaped(),
        view.gpu.coherent(),
    ensures
        view.write(addr, byte).gpu.coherent(),
{
    if in_vram(addr) {
        crate::gpu::gpu::lemma_write_preserves_coherence(view.gpu, addr - VRAM_BEGIN, byte);
    }
}

/// Reading after a write: the written address holds the written byte, every
/// other address holds what it held, in whichever store either lies.
pub proof fn lemma_read_after_write(view: BusView, addr: u16, byte: u8, other: u16)
    requires
        view.well_shaped(),
    ensures
        view.write(addr, byte).read(other) == if other == addr {
            byte
        } else {
            view.read(other)
        },
{
}

/// Seen through reads, the bus is one array of 0x10000 bytes, and a write
/// changes one cell of it.
pub proof fn lemma_write_updates_space(view: BusView, addr: u16, byte: u8)
    requires
        view.well_shaped(),
    ensures
        view.write(addr, byte).space() == view.space().update(addr as int, byte),
{
    let after = view.write(addr, byte);
    assert forall|a: int| 0 <= a < MEMORY_SIZE implies after.space()[a] == view.space().update(
        addr as int,
        byte,
    )[a] by {
        lemma_read_after_write(view, addr, byte, a as u16);
    }
    assert(after.space() =~= view.space().update(addr as int, byte));
}

/// A write outside the peripheral's range leaves the peripheral, bytes and
/// tiles, as it was; a write inside leaves the flat array as it was.
pub proof fn lemma_write_touches_one_store(view: BusView, addr: u16, byte: u8)
    ensures
        !in_vram(addr) ==> view.write(addr, byte).gpu == view.gpu,
        in_vram(addr) ==> view.write(addr, byte).flat == view.flat,
{
}

/// The memory bus: the display peripheral and the flat array behind every
/// other address. The bus owns the peripheral: its bytes change through
/// `write_byte` only.
pub struct MemoryBus {
    gpu: GPU,
    memory: [u8; MEMORY_SIZE],
}

impl View for MemoryBus {
    type V = BusView;

    closed spec fn view(&self) -> BusView {
        BusView { flat: self.memory@, gpu: self.gpu@ }
    }
}

impl MemoryBus {
    /// Every bus has a view of the fixed sizes.
    pub proof fn lemma_view_well_shaped(&self)
        ensures
            self@.well_shaped(),
    {
        self.gpu.lemma_view_well_shaped();
    }

    /// A bus in its state at start-up.
    pub fn new() -> (bus: MemoryBus)
        ensures
            bus@ == BusView::initial(),
    {
        let bus = MemoryBus { gpu: GPU::new(), memory: [0u8; MEMORY_SIZE] };
        assert(bus@.flat =~= BusView::initial().flat);
        bus
    }

    /// The display peripheral, to read its bytes and its decoded tiles.
    pub fn gpu(&self) -> (gpu: &GPU)
        ensures
            gpu@ == self@.gpu,
    {
        &self.gpu
    }

    /// Reads the byte at an address, from the store that the address belongs to.
    pub fn read_byte(&self, addr: u16) -> (byte: u8)
        ensures
            byte == self@.read(addr),
    {
        let address: usize = addr as usize;
        if VRAM_BEGIN <= address && address <= VRAM_END {
            self.gpu.read_vram(address - VRAM_BEGIN)
        } else {
            self.memory[address]
        }
    }

    /// Writes a byte at an address, to the store that the address belongs to.
    pub fn write_byte(&mut self, addr: u16, byte: u8)
        ensures
            final(self)@ == old(self)@.write(addr, byte),
    {
        let address: usize = addr as usize;
        if VRAM_BEGIN <= address && address <= VRAM_END {
            self.gpu.write_vram(address - VRAM_BEGIN, byte);
        } else {
            self.memory[address] = byte;
        }
    }
}

} // verus!
