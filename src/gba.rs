//! Game Boy Advance cartridges: a latched 24-bit address bus read in 16-bit
//! words, the header at 0xA0, and ROM dumped in 128 KB banks until it runs
//! out.
use vstd::prelude::*;

use crate::opcodes::{DICT_GBA, GBA_LATCH_ADDR, GBA_RD, GBA_RELEASE_BUS, GBA_ROM_PAGE};
use crate::session::{copy_bytes, dump, ChunkDump, Step};
use crate::text::{lossy_of, lossy_text};
use crate::transport::{read_device, spec_request, ControlRequest};

verus! {

/// Reads the word at the latched address and advances it; the response
/// carries the word low byte first.
pub fn rom_rd() -> (r: ControlRequest)
    ensures
        r == spec_request(DICT_GBA, GBA_RD, 0, 0, 4, true),
{
    read_device(DICT_GBA, GBA_RD, 0, 0, 4)
}

/// Latches word address `operand` (A0-15) and `misc` (A16-23).
pub fn latch_addr(operand: u16, misc: u8) -> (r: ControlRequest)
    ensures
        r == spec_request(DICT_GBA, GBA_LATCH_ADDR, operand, misc, 1, true),
{
    read_device(DICT_GBA, GBA_LATCH_ADDR, operand, misc, 1)
}

/// Releases the bus after a latched access.
pub fn release_bus() -> (r: ControlRequest)
    ensures
        r == spec_request(DICT_GBA, GBA_RELEASE_BUS, 0, 0, 1, true),
{
    read_device(DICT_GBA, GBA_RELEASE_BUS, 0, 0, 1)
}

/// The cartridge header.
#[derive(Debug)]
pub struct GbaHeader {
    pub rom_name: String,
    pub game_code: String,
    pub version: u8,
    pub header_checksum: u8,
}

pub open spec fn spec_latch(word_addr: u16) -> Step {
    Step::Transfer(spec_request(DICT_GBA, GBA_LATCH_ADDR, word_addr, 0, 1, true))
}

pub open spec fn spec_rd() -> Step {
    Step::Transfer(spec_request(DICT_GBA, GBA_RD, 0, 0, 4, true))
}

pub open spec fn spec_release() -> Step {
    Step::Transfer(spec_request(DICT_GBA, GBA_RELEASE_BUS, 0, 0, 1, true))
}

/// Title (12 bytes at 0xA0), game code (4 bytes at 0xAC), then version and
/// checksum (the word at 0xBC), each read latched at its word address.
pub open spec fn spec_gba_header_reads() -> Seq<Step> {
    seq![
        spec_latch(0x50), spec_rd(), spec_rd(), spec_rd(), spec_rd(), spec_rd(), spec_rd(), spec_release(),
        spec_latch(0x56), spec_rd(), spec_rd(), spec_release(),
        spec_latch(0x5E), spec_rd(), spec_release(),
    ]
}

/// The reads of the header; the readback is the 18 header bytes in address
/// order.
pub fn get_header() -> (r: Vec<Step>)
    ensures
        r@ == spec_gba_header_reads(),
{
    let mut r: Vec<Step> = Vec::new();
    r.push(Step::Transfer(latch_addr(0x00A0 / 2, 0)));
    r.push(Step::Transfer(rom_rd()));
    r.push(Step::Transfer(rom_rd()));
    r.push(Step::Transfer(rom_rd()));
    r.push(Step::Transfer(rom_rd()));
    r.push(Step::Transfer(rom_rd()));
    r.push(Step::Transfer(rom_rd()));
    r.push(Step::Transfer(release_bus()));
    r.push(Step::Transfer(latch_addr(0x00AC / 2, 0)));
    r.push(Step::Transfer(rom_rd()));
    r.push(Step::Transfer(rom_rd()));
    r.push(Step::Transfer(release_bus()));
    r.push(Step::Transfer(latch_addr(0x00BC / 2, 0)));
    r.push(Step::Transfer(rom_rd()));
    r.push(Step::Transfer(release_bus()));
    assert(r@ =~= spec_gba_header_reads());
    r
}

/// Assembles the header from the readback of `get_header`.
pub fn parse_header(rb: &[u8]) -> (r: GbaHeader)
    requires
        rb@.len() == 18,
    ensures
        r.rom_name@ == lossy_of(rb@.subrange(0, 12)),
        r.game_code@ == lossy_of(rb@.subrange(12, 16)),
        r.version == rb@[16],
        r.header_checksum == rb@[17],
{
    let name = copy_bytes(rb, 0, 12);
    let code = copy_bytes(rb, 12, 16);
    GbaHeader {
        rom_name: lossy_text(name.as_slice()),
        game_code: lossy_text(code.as_slice()),
        version: rb[16],
        header_checksum: rb[17],
    }
}

/// Kilobytes per ROM bank.
pub const KB_PER_READ: u16 = 128;

/// Banks in the largest ROM (32 MB).
pub const MAX_BANKS: u16 = 256;

/// The reads of ROM bank `bank`: latch its address, dump it, release.
pub open spec fn spec_rom_bank(bank: u16) -> Seq<Step> {
    seq![
        Step::Transfer(spec_request(DICT_GBA, GBA_LATCH_ADDR, 0, (bank % 256) as u8, 1, true)),
        Step::Dump(ChunkDump { size_kb: KB_PER_READ, map: 0x00, mem: GBA_ROM_PAGE }),
        spec_release(),
    ]
}

/// The reads of ROM bank `bank`.
pub fn rom_bank(bank: u16) -> (r: Vec<Step>)
    ensures
        r@ == spec_rom_bank(bank),
{
    let mut r: Vec<Step> = Vec::new();
    r.push(Step::Transfer(latch_addr(0x0000, (bank % 256) as u8)));
    r.push(dump(KB_PER_READ, 0x00, GBA_ROM_PAGE));
    r.push(Step::Transfer(release_bus()));
    assert(r@ =~= spec_rom_bank(bank));
    r
}

/// Whether every byte is 0xFF, as erased or absent ROM reads.
pub fn check_empty(dump_array: &[u8]) -> (r: bool)
    ensures
        r == forall|i: int| 0 <= i < dump_array@.len() ==> dump_array@[i] == 0xFF,
{
    let mut i: usize = 0;
    while i < dump_array.len()
        invariant
            i <= dump_array@.len(),
            forall|j: int| 0 <= j < i ==> dump_array@[j] == 0xFF,
        decreases dump_array@.len() - i,
    {
        if dump_array[i] != 0xFF {
            return false;
        }
        i = i + 1;
    }
    true
}

/// Whether bank `bank` is a power-of-two size boundary (4, 8 or 16 MB)
/// where a smaller ROM may end.
pub open spec fn spec_probe_bank(bank: u16) -> bool {
    bank == 32 || bank == 64 || bank == 128
}

/// Whether to keep bank `bank`, whose dump is `data`, and go on: at a size
/// boundary an all-0xFF bank means the ROM has ended, and the dump stops
/// there without it.
pub fn keep_bank(bank: u16, data: &[u8]) -> (r: bool)
    ensures
        r == !(spec_probe_bank(bank) && forall|i: int| 0 <= i < data@.len() ==> data@[i] == 0xFF),
{
    if bank == 32 || bank == 64 || bank == 128 {
        !check_empty(data)
    } else {
        true
    }
}

} // verus!
