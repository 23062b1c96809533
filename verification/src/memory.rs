//! The memory controller.
//!
//! A 26-bit word-aligned address decodes into one of five regions. ROM is
//! overlaid on the bottom of the address space until an access to the two
//! highest regions clears the overlay for good.

use vstd::prelude::*;
use crate::fault::{Access, Fault};

verus! {

/// Keeps the 26 address bits and drops the byte lane.
pub const ADDRESS_MASK: u32 = 0x03ff_fffc;

/// Words of RAM installed.
pub const RAM_WORDS: usize = 0x10_0000;

/// Where the region of RAM by physical address begins.
pub const PHYSICAL_RAM_BASE: u32 = 0x0200_0000;

/// Where the region of the I/O controllers begins.
pub const IO_BASE: u32 = 0x0300_0000;

/// Where the low ROM alias begins: from here up, an access clears the
/// overlay.
pub const LOW_ROM_BASE: u32 = 0x0340_0000;

/// Where ROM begins.
pub const HIGH_ROM_BASE: u32 = 0x0380_0000;

/// The five disjoint regions of the address space, in ascending order.
#[derive(Clone, Copy, Debug, PartialEq, Eq)]
pub enum Region {
    /// `[0, 0x02000000)`: ROM while the overlay is set, RAM afterwards.
    Logical,
    /// `[0x02000000, 0x03000000)`: RAM by physical address.
    PhysicalRam,
    /// `[0x03000000, 0x03400000)`: I/O controllers.
    IoControllers,
    /// `[0x03400000, 0x03800000)`: the low ROM alias.
    LowRom,
    /// `[0x03800000, 0x04000000)`: ROM.
    HighRom,
}

/// What the controller holds, as mathematics.
pub struct MemoryState {
    pub ram: Seq<u32>,
    pub rom: Seq<u32>,
    pub rom_mapped: bool,
}

/// The word address that the controller decodes.
pub open spec fn decoded(address: u32) -> u32 {
    address & ADDRESS_MASK
}

/// The region that `address` decodes into.
pub open spec fn region_of(address: u32) -> Region {
    let a = decoded(address);
    if a < PHYSICAL_RAM_BASE {
        Region::Logical
    } else if a < IO_BASE {
        Region::PhysicalRam
    } else if a < LOW_ROM_BASE {
        Region::IoControllers
    } else if a < HIGH_ROM_BASE {
        Region::LowRom
    } else {
        Region::HighRom
    }
}

/// Whether touching `region` clears the ROM overlay.
pub open spec fn unlatches(region: Region) -> bool {
    region is LowRom || region is HighRom
}

/// The controller after any access, load or store, at `address`: only the
/// overlay flag can change, and only from set to clear.
pub open spec fn after_access(m: MemoryState, address: u32) -> MemoryState {
    MemoryState { rom_mapped: m.rom_mapped && !unlatches(region_of(address)), ..m }
}

/// The fault of an access that the controller cannot serve.
pub open spec fn memory_fault(address: u32, access: Access) -> Fault {
    Fault::UnimplementedMemoryRegion { address: decoded(address), access }
}

/// Word `index` of `block`, or a fault where the block has no such word.
pub open spec fn word_at(block: Seq<u32>, index: int, address: u32) -> Result<u32, Fault> {
    if 0 <= index < block.len() {
        Ok(block[index])
    } else {
        Err(memory_fault(address, Access::Load))
    }
}

/// What a load at `address` yields.
pub open spec fn load_result(m: MemoryState, address: u32) -> Result<u32, Fault> {
    let a = decoded(address);
    match region_of(address) {
        Region::Logical => if m.rom_mapped {
            word_at(m.rom, a as int / 4, address)
        } else {
            word_at(m.ram, a as int / 4, address)
        },
        Region::PhysicalRam => word_at(m.ram, (a - PHYSICAL_RAM_BASE) / 4, address),
        Region::IoControllers => Err(memory_fault(address, Access::Load)),
        Region::LowRom => Err(memory_fault(address, Access::Load)),
        Region::HighRom => word_at(m.rom, (a - HIGH_ROM_BASE) / 4, address),
    }
}

/// What a store of `data` at `address` yields: no region accepts one.
pub open spec fn store_result(m: MemoryState, address: u32, data: u32) -> Result<(), Fault> {
    Err(memory_fault(address, Access::Store))
}

/// The byte lane that `address` selects within its word.
pub open spec fn lane(address: u32) -> u32 {
    address & 3
}

/// The byte of `word` in the lane of `address`.
pub open spec fn byte_of(word: u32, address: u32) -> u8 {
    ((word >> (lane(address) * 8)) & 0xff) as u8
}

/// A word that carries `data` in the lane of `address` and zero elsewhere.
pub open spec fn word_with(data: u8, address: u32) -> u32 {
    (data as u32) << (lane(address) * 8)
}

/// What a byte store at `address` yields: what the store of the word that
/// carries the byte in its lane does.
pub open spec fn store_byte_result(m: MemoryState, address: u32, data: u8) -> Result<(), Fault> {
    store_result(m, address, word_with(data, address))
}

/// What a byte load at `address` yields.
pub open spec fn load_byte_result(m: MemoryState, address: u32) -> Result<u8, Fault> {
    match load_result(m, address) {
        Ok(word) => Ok(byte_of(word, address)),
        Err(fault) => Err(fault),
    }
}

/// An access below the low ROM alias changes nothing in the controller.
pub proof fn lemma_low_access_changes_nothing(m: MemoryState, address: u32)
    requires
        decoded(address) < LOW_ROM_BASE,
    ensures
        after_access(m, address) == m,
{
}

/// While the overlay flag does not change, loading an address again yields
/// what it yielded before.
pub proof fn lemma_repeated_load_agrees(m: MemoryState, address: u32)
    requires
        after_access(m, address).rom_mapped == m.rom_mapped,
    ensures
        load_result(after_access(m, address), address) == load_result(m, address),
        after_access(after_access(m, address), address) == after_access(m, address),
{
}

/// An access at or above the low ROM alias clears the overlay.
pub proof fn lemma_high_access_clears_overlay(m: MemoryState, address: u32)
    requires
        decoded(address) >= LOW_ROM_BASE,
    ensures
        !after_access(m, address).rom_mapped,
{
}

/// The overlay never comes back, and neither block ever changes.
pub proof fn lemma_overlay_is_sticky(m: MemoryState, address: u32)
    ensures
        !m.rom_mapped ==> !after_access(m, address).rom_mapped,
        after_access(m, address).ram == m.ram,
        after_access(m, address).rom == m.rom,
{
}

/// Once an access has cleared the overlay, the bottom of the address space
/// reads RAM, whatever it read before.
pub proof fn lemma_low_loads_read_ram_once_cleared(m: MemoryState, high: u32, low: u32)
    requires
        decoded(high) >= LOW_ROM_BASE,
        decoded(low) < PHYSICAL_RAM_BASE,
    ensures
        load_result(after_access(m, high), low) == word_at(m.ram, decoded(low) as int / 4, low),
        m.rom_mapped ==> load_result(m, low) == word_at(m.rom, decoded(low) as int / 4, low),
{
}

/// The byte lanes are symmetric: the byte placed in the lane of an address
/// is the byte found there.
pub proof fn lemma_byte_lane_round_trip(data: u8, address: u32)
    ensures
        byte_of(word_with(data, address), address) == data,
{
    let field = address & 3;
    let wide = data as u32;
    assert(((wide << (field * 8)) >> (field * 8)) & 0xff == wide) by (bit_vector)
        requires
            field == address & 3,
            wide < 0x100,
    ;
}

/// The memory controller: a block of RAM, a block of ROM, and the flag
/// that overlays ROM on the bottom of the address space.
pub struct Memory {
    ram: Vec<u32>,
    rom: Vec<u32>,
    rom_mapped: bool,
}

impl View for Memory {
    type V = MemoryState;

    closed spec fn view(&self) -> MemoryState {
        MemoryState { ram: self.ram@, rom: self.rom@, rom_mapped: self.rom_mapped }
    }
}

/// Decodes an address into its region.
pub fn decode(address: u32) -> (region: Region)
    ensures
        region == region_of(address),
{
    let a = address & ADDRESS_MASK;
    if a < PHYSICAL_RAM_BASE {
        Region::Logical
    } else if a < IO_BASE {
        Region::PhysicalRam
    } else if a < LOW_ROM_BASE {
        Region::IoControllers
    } else if a < HIGH_ROM_BASE {
        Region::LowRom
    } else {
        Region::HighRom
    }
}

/// Reads word `index` of `block`, if the block reaches that far.
fn fetch(block: &Vec<u32>, index: u32, address: u32) -> (result: Result<u32, Fault>)
    ensures
        result == word_at(block@, index as int, address),
{
    let i = index as usize;
    if i < block.len() {
        Ok(block[i])
    } else {
        Err(
            Fault::UnimplementedMemoryRegion {
                address: address & ADDRESS_MASK,
                access: Access::Load,
            },
        )
    }
}

/// The byte of `word` in the lane that `address` selects.
pub fn extract_byte(word: u32, address: u32) -> (byte: u8)
    ensures
        byte == byte_of(word, address),
{
    let field = address & 3;
    assert(field * 8 < 32) by (bit_vector)
        requires
            field == address & 3,
    ;
    assert((word >> (field * 8)) & 0xff < 0x100) by (bit_vector);
    ((word >> (field * 8)) & 0xff) as u8
}

/// `data` moved into the lane that `address` selects.
pub fn place_byte(data: u8, address: u32) -> (word: u32)
    ensures
        word == word_with(data, address),
{
    let field = address & 3;
    assert(field * 8 < 32) by (bit_vector)
        requires
            field == address & 3,
    ;
    (data as u32) << (field * 8)
}

impl Memory {
    /// A controller with `rom` installed, RAM zeroed and the overlay set.
    pub fn new(rom: Box<[u32]>) -> (memory: Memory)
        ensures
            memory@ == (MemoryState {
                ram: Seq::new(RAM_WORDS as nat, |i: int| 0u32),
                rom: rom@,
                rom_mapped: true,
            }),
    {
        let ram: Vec<u32> = vec![0u32; RAM_WORDS];
        assert(ram@ =~= Seq::new(RAM_WORDS as nat, |i: int| 0u32));
        Memory { ram, rom: rom.into_vec(), rom_mapped: true }
    }

    /// Whether ROM is still overlaid on the bottom of the address space.
    pub fn rom_mapped(&self) -> (mapped: bool)
        ensures
            mapped == self@.rom_mapped,
    {
        self.rom_mapped
    }

    /// Loads the word at `address`.
    pub fn load(&mut self, address: u32) -> (result: Result<u32, Fault>)
        ensures
            result == load_result(old(self)@, address),
            final(self)@ == after_access(old(self)@, address),
    {
        let a = address & ADDRESS_MASK;
        match decode(address) {
            Region::Logical => {
                if self.rom_mapped {
                    fetch(&self.rom, a / 4, address)
                } else {
                    fetch(&self.ram, a / 4, address)
                }
            },
            Region::PhysicalRam => fetch(&self.ram, (a - PHYSICAL_RAM_BASE) / 4, address),
            Region::IoControllers => Err(
                Fault::UnimplementedMemoryRegion { address: a, access: Access::Load },
            ),
            Region::LowRom => {
                self.rom_mapped = false;
                Err(Fault::UnimplementedMemoryRegion { address: a, access: Access::Load })
            },
            Region::HighRom => {
                self.rom_mapped = false;
                fetch(&self.rom, (a - HIGH_ROM_BASE) / 4, address)
            },
        }
    }

    /// Stores a word at `address`. No region accepts a store yet, so this
    /// always faults; a store into the two highest regions still clears
    /// the overlay first.
    pub fn store(&mut self, address: u32, data: u32) -> (result: Result<(), Fault>)
        ensures
            result == store_result(old(self)@, address, data),
            final(self)@ == after_access(old(self)@, address),
    {
        let a = address & ADDRESS_MASK;
        match decode(address) {
            Region::Logical => {},
            Region::PhysicalRam => {},
            Region::IoControllers => {},
            Region::LowRom => {
                self.rom_mapped = false;
            },
            Region::HighRom => {
                self.rom_mapped = false;
            },
        }
        Err(Fault::UnimplementedMemoryRegion { address: a, access: Access::Store })
    }

    /// Loads the byte at `address`: the lane `address & 3` of its word.
    pub fn load_byte(&mut self, address: u32) -> (result: Result<u8, Fault>)
        ensures
            result == load_byte_result(old(self)@, address),
            final(self)@ == after_access(old(self)@, address),
    {
        match self.load(address) {
            Ok(word) => Ok(extract_byte(word, address)),
            Err(fault) => Err(fault),
        }
    }

    /// Stores a byte at `address`, placed in the lane `address & 3` of the
    /// word handed to `store`.
    pub fn store_byte(&mut self, address: u32, data: u8) -> (result: Result<(), Fault>)
        ensures
            result == store_byte_result(old(self)@, address, data),
            final(self)@ == after_access(old(self)@, address),
    {
        let word = place_byte(data, address);
        self.store(address, word)
    }
}

} // verus!
