//! SNES cartridges: locating and reading the internal header, and the plans
//! that dump ROM and save RAM bank by bank.
use vstd::prelude::*;

use crate::opcodes::{DICT_SNES, SNES_ROM_RD, SNES_SET_BANK, SNESROM_PAGE, SNESSYS_PAGE};
use crate::session::{copy_bytes, dump, ChunkDump, Step};
use crate::text::{lossy_of, lossy_text};
use crate::transport::{read_device, spec_request, ControlRequest, DumpError};

verus! {

/// Reads the ROM byte at `operand` in the current bank; one data byte.
pub fn rom_rd(operand: u16) -> (r: ControlRequest)
    ensures
        r == spec_request(DICT_SNES, SNES_ROM_RD, operand, 0, 3, true),
{
    read_device(DICT_SNES, SNES_ROM_RD, operand, 0, 3)
}

/// Selects bank `operand` for the accesses that follow.
pub fn set_bank(operand: u16) -> (r: ControlRequest)
    ensures
        r == spec_request(DICT_SNES, SNES_SET_BANK, operand, 0, 1, true),
{
    read_device(DICT_SNES, SNES_SET_BANK, operand, 0, 1)
}

/// The cartridge's internal header.
#[derive(Debug)]
pub struct SnesHeader {
    pub rom_name: String,
    pub map_mode: u8,
    pub rom_type: u8,
    pub rom_size: u8,
    pub sram_size: u8,
    pub exp_ram_size: u8,
    pub destination_code: u8,
    pub developer_code: u8,
    pub version: u8,
    pub compliment_check: u16,
    pub checksum: u16,
}

/// Where a header may sit; each place shifts the header's addresses.
#[derive(Debug, Clone, Copy, PartialEq, Eq, Structural)]
pub enum HeaderLocation {
    HiRom,
    LoRom,
    ExHiRom,
}

pub open spec fn spec_map_adjust(loc: HeaderLocation) -> int {
    match loc {
        HeaderLocation::HiRom => 0,
        HeaderLocation::LoRom => 0x8000,
        HeaderLocation::ExHiRom => -0x400000,
    }
}

/// Bytes read for one header.
pub const HEADER_READS: usize = 33;

/// Name length in bytes.
pub const NAME_LEN: usize = 21;

/// HiROM address of the `i`-th byte read for a header: map mode, ROM type,
/// ROM size, SRAM size, expansion RAM size, destination, developer, version,
/// the 21 name bytes, then the complement check and the checksum, each most
/// significant byte first.
pub open spec fn spec_header_addr(i: int) -> int {
    if i == 0 {
        0xFFD5
    } else if i == 1 {
        0xFFD6
    } else if i == 2 {
        0xFFD7
    } else if i == 3 {
        0xFFD8
    } else if i == 4 {
        0xFFBD
    } else if i == 5 {
        0xFFD9
    } else if i == 6 {
        0xFFDA
    } else if i == 7 {
        0xFFDB
    } else if i < 29 {
        0xFFC0 + (i - 8)
    } else if i == 29 {
        0xFFDC
    } else if i == 30 {
        0xFFDD
    } else if i == 31 {
        0xFFDD
    } else {
        0xFFDE
    }
}

fn header_addr(i: usize) -> (r: u16)
    requires
        i < HEADER_READS,
    ensures
        r as int == spec_header_addr(i as int),
{
    if i == 0 {
        0xFFD5
    } else if i == 1 {
        0xFFD6
    } else if i == 2 {
        0xFFD7
    } else if i == 3 {
        0xFFD8
    } else if i == 4 {
        0xFFBD
    } else if i == 5 {
        0xFFD9
    } else if i == 6 {
        0xFFDA
    } else if i == 7 {
        0xFFDB
    } else if i < 29 {
        0xFFC0 + (i - 8) as u16
    } else if i == 29 {
        0xFFDC
    } else if i == 30 {
        0xFFDD
    } else if i == 31 {
        0xFFDD
    } else {
        0xFFDE
    }
}

pub open spec fn spec_header_reads(loc: HeaderLocation) -> Seq<Step> {
    Seq::new(
        HEADER_READS as nat,
        |i: int|
            Step::Transfer(
                spec_request(
                    DICT_SNES,
                    SNES_ROM_RD,
                    (spec_header_addr(i) - spec_map_adjust(loc)) as u16,
                    0,
                    3,
                    true,
                ),
            ),
    )
}

/// The reads of one candidate header, at the HiROM addresses shifted down by
/// the location's adjustment and taken modulo 64 KB.
pub fn get_header(loc: HeaderLocation) -> (r: Vec<Step>)
    ensures
        r@ == spec_header_reads(loc),
{
    let adjust: i32 = match loc {
        HeaderLocation::HiRom => 0,
        HeaderLocation::LoRom => 0x8000,
        HeaderLocation::ExHiRom => -0x400000,
    };
    let mut r: Vec<Step> = Vec::new();
    let mut i: usize = 0;
    while i < HEADER_READS
        invariant
            i <= HEADER_READS,
            adjust == spec_map_adjust(loc),
            r@.len() == i,
            forall|j: int| 0 <= j < i ==> r@[j] == spec_header_reads(loc)[j],
        decreases HEADER_READS - i,
    {
        let addr: u16 = ((header_addr(i) as i32) - adjust) as u16;
        r.push(Step::Transfer(rom_rd(addr)));
        i = i + 1;
    }
    assert(r@ =~= spec_header_reads(loc));
    r
}

/// The reads of all three candidate headers: HiROM, LoROM, then ExHiROM.
pub fn snes_header_reads() -> (r: Vec<Step>)
    ensures
        r@ == spec_header_reads(HeaderLocation::HiRom) + spec_header_reads(HeaderLocation::LoRom)
            + spec_header_reads(HeaderLocation::ExHiRom),
{
    let mut r = get_header(HeaderLocation::HiRom);
    let mut lo = get_header(HeaderLocation::LoRom);
    let mut ex = get_header(HeaderLocation::ExHiRom);
    r.append(&mut lo);
    r.append(&mut ex);
    r
}

/// Whether `h` is the header whose reads came back as `rb`.
pub open spec fn spec_header_from(rb: Seq<u8>, h: SnesHeader) -> bool {
    &&& h.map_mode == rb[0]
    &&& h.rom_type == rb[1]
    &&& h.rom_size == rb[2]
    &&& h.sram_size == rb[3]
    &&& h.exp_ram_size == rb[4]
    &&& h.destination_code == rb[5]
    &&& h.developer_code == rb[6]
    &&& h.version == rb[7]
    &&& h.rom_name@ == lossy_of(rb.subrange(8, 29))
    &&& h.compliment_check as int == rb[29] as int * 256 + rb[30] as int
    &&& h.checksum as int == rb[31] as int * 256 + rb[32] as int
}

/// Assembles a header from the readback of `get_header`.
pub fn parse_header(rb: &[u8]) -> (r: SnesHeader)
    requires
        rb@.len() == HEADER_READS,
    ensures
        spec_header_from(rb@, r),
{
    let mut name: Vec<u8> = Vec::new();
    let mut i: usize = 8;
    while i < 29
        invariant
            8 <= i <= 29,
            rb@.len() == HEADER_READS,
            name@ == rb@.subrange(8, i as int),
        decreases 29 - i,
    {
        name.push(rb[i]);
        i = i + 1;
        assert(name@ =~= rb@.subrange(8, i as int));
    }
    SnesHeader {
        rom_name: lossy_text(name.as_slice()),
        map_mode: rb[0],
        rom_type: rb[1],
        rom_size: rb[2],
        sram_size: rb[3],
        exp_ram_size: rb[4],
        destination_code: rb[5],
        developer_code: rb[6],
        version: rb[7],
        compliment_check: (rb[29] as u16) * 256 + rb[30] as u16,
        checksum: (rb[31] as u16) * 256 + rb[32] as u16,
    }
}

/// The validity heuristic: hardware type, destination, ROM size and SRAM
/// size all take known values. No checksum is consulted.
pub open spec fn spec_valid_codes(rom_type: u8, destination_code: u8, rom_size: u8, sram_size: u8) -> bool {
    &&& spec_hardware_type_name(rom_type) is Some
    &&& spec_destination_name(destination_code) is Some
    &&& spec_rom_upper_bound_name(rom_size) is Some
    &&& spec_ram_size_name(sram_size) is Some
}

/// Whether the header's fields all decode to known values.
pub fn is_valid_header(header: &SnesHeader) -> (r: bool)
    ensures
        r == spec_valid_codes(header.rom_type, header.destination_code, header.rom_size, header.sram_size),
{
    if match_hardware_type(header.rom_type).is_none() {
        return false;
    }
    if match_destination(header.destination_code).is_none() {
        return false;
    }
    if match_rom_upper_bound(header.rom_size).is_none() {
        return false;
    }
    if match_ram_size(header.sram_size).is_none() {
        return false;
    }
    true
}

/// Whether the reads of one candidate decode to a valid header.
pub open spec fn spec_block_valid(block: Seq<u8>) -> bool {
    spec_valid_codes(block[1], block[5], block[2], block[3])
}

/// The candidate chosen from the readback of `snes_header_reads`: the first
/// valid one in the order ExHiROM, HiROM, LoROM.
pub open spec fn spec_choose_block(rb: Seq<u8>) -> Option<Seq<u8>> {
    let hi = rb.subrange(0, 33);
    let lo = rb.subrange(33, 66);
    let ex = rb.subrange(66, 99);
    if spec_block_valid(ex) {
        Some(ex)
    } else if spec_block_valid(hi) {
        Some(hi)
    } else if spec_block_valid(lo) {
        Some(lo)
    } else {
        None
    }
}

/// Picks the cartridge's header from the readback of `snes_header_reads`.
/// Readback of the wrong length is a transport failure; no valid candidate
/// is a configuration error.
pub fn dump_snes_header(rb: &[u8]) -> (r: Result<SnesHeader, DumpError>)
    ensures
        rb@.len() != 3 * HEADER_READS ==> r == Err::<SnesHeader, DumpError>(DumpError::Transport),
        rb@.len() == 3 * HEADER_READS ==> match spec_choose_block(rb@) {
            Some(block) => r matches Ok(h) && spec_header_from(block, h),
            None => r == Err::<SnesHeader, DumpError>(DumpError::Configuration),
        },
{
    if rb.len() != 3 * HEADER_READS {
        return Err(DumpError::Transport);
    }
    let hi_bytes = copy_bytes(rb, 0, 33);
    let lo_bytes = copy_bytes(rb, 33, 66);
    let ex_bytes = copy_bytes(rb, 66, 99);
    let hirom_header = parse_header(hi_bytes.as_slice());
    let lorom_header = parse_header(lo_bytes.as_slice());
    let exhirom_header = parse_header(ex_bytes.as_slice());
    if is_valid_header(&exhirom_header) {
        Ok(exhirom_header)
    } else if is_valid_header(&hirom_header) {
        Ok(hirom_header)
    } else if is_valid_header(&lorom_header) {
        Ok(lorom_header)
    } else {
        Err(DumpError::Configuration)
    }
}

/// When only the LoROM candidate decodes to valid fields, the LoROM
/// candidate is the one chosen.
pub proof fn lemma_only_lorom_valid_is_chosen(rb: Seq<u8>)
    requires
        rb.len() == 3 * HEADER_READS,
        !spec_block_valid(rb.subrange(66, 99)),
        !spec_block_valid(rb.subrange(0, 33)),
        spec_block_valid(rb.subrange(33, 66)),
    ensures
        spec_choose_block(rb) == Some(rb.subrange(33, 66)),
{
}

/// The two memory maps this host can dump.
#[derive(Debug, Clone, Copy, PartialEq, Eq, Structural)]
pub enum SnesMapping {
    LoROM,
    HiROM,
}

pub open spec fn spec_mapping(map_mode: u8) -> Option<SnesMapping> {
    if map_mode % 16 == 0 {
        Some(SnesMapping::LoROM)
    } else if map_mode % 16 == 1 {
        Some(SnesMapping::HiROM)
    } else {
        None
    }
}

/// The memory map of map mode `map_mode`, if it is one this host dumps.
pub fn mapping_of(map_mode: u8) -> (r: Option<SnesMapping>)
    ensures
        r == spec_mapping(map_mode),
{
    if map_mode % 16 == 0 {
        Some(SnesMapping::LoROM)
    } else if map_mode % 16 == 1 {
        Some(SnesMapping::HiROM)
    } else {
        None
    }
}

pub open spec fn spec_rom_size_kb(rom_size: u8) -> Option<u16> {
    if 0x08 <= rom_size <= 0x0D {
        Some(
            (if rom_size == 0x08 {
                256int
            } else if rom_size == 0x09 {
                512int
            } else if rom_size == 0x0A {
                1024int
            } else if rom_size == 0x0B {
                2048int
            } else if rom_size == 0x0C {
                4096int
            } else {
                8192int
            }) as u16,
        )
    } else {
        None
    }
}

/// ROM size in KB of size code `rom_size`: 2 megabits (256 KB) for 0x08,
/// doubling up to 64 megabits for 0x0D.
pub fn match_rom_size_kb(rom_size: u8) -> (r: Option<u16>)
    ensures
        r == spec_rom_size_kb(rom_size),
{
    match rom_size {
        0x08 => Some(2 * 128),
        0x09 => Some(4 * 128),
        0x0A => Some(8 * 128),
        0x0B => Some(16 * 128),
        0x0C => Some(32 * 128),
        0x0D => Some(64 * 128),
        _ => None,
    }
}

pub open spec fn spec_ram_kb(code: u8) -> u16 {
    if code == 0 {
        1
    } else if code == 1 {
        2
    } else if code == 2 {
        4
    } else if code == 3 {
        8
    } else if code == 4 {
        16
    } else if code == 5 {
        32
    } else if code == 6 {
        64
    } else {
        0
    }
}

/// RAM size in KB of RAM size code `code`: `2^code` below 7, else none.
pub fn ram_kb(code: u8) -> (r: u16)
    ensures
        r == spec_ram_kb(code),
{
    if code < 7 {
        let mut v: u16 = 1;
        let mut i: u8 = 0;
        while i < code
            invariant
                i <= code < 7,
                v == spec_ram_kb(i),
            decreases code - i,
        {
            v = v * 2;
            i = i + 1;
        }
        v
    } else {
        0
    }
}

/// What a dump of the cartridge reads, worked out from its header.
#[derive(Debug, Clone, Copy, PartialEq, Eq, Structural)]
pub struct SnesLayout {
    pub mapping: SnesMapping,
    /// First ROM bank.
    pub rom_bank: u16,
    /// First save RAM bank.
    pub ram_bank: u16,
    pub rom_size_kb: u16,
    pub ram_size_kb: u16,
}

pub open spec fn spec_layout(h: SnesHeader) -> Result<SnesLayout, DumpError> {
    match (spec_mapping(h.map_mode), spec_rom_size_kb(h.rom_size)) {
        (Some(m), Some(rom_size_kb)) => Ok(
            SnesLayout {
                mapping: m,
                rom_bank: if m == SnesMapping::HiROM { 0xC0 } else { 0x00 },
                ram_bank: if m == SnesMapping::HiROM { 0x30 } else { 0x70 },
                rom_size_kb,
                ram_size_kb: if spec_ram_kb(h.sram_size) == 0 {
                    spec_ram_kb(h.exp_ram_size)
                } else {
                    spec_ram_kb(h.sram_size)
                },
            },
        ),
        _ => Err(DumpError::Configuration),
    }
}

/// The layout of a dump of the cartridge with header `h`: HiROM reads ROM
/// from bank 0xC0 and save RAM from bank 0x30, LoROM ROM from bank 0x00 and
/// save RAM from bank 0x70; the save RAM size is the SRAM size, or the
/// expansion RAM size when there is no SRAM. An unsupported map or an
/// unknown ROM size is a configuration error.
pub fn dump_snes(h: &SnesHeader) -> (r: Result<SnesLayout, DumpError>)
    ensures
        r == spec_layout(*h),
{
    let mapping = match mapping_of(h.map_mode) {
        Some(m) => m,
        None => {
            return Err(DumpError::Configuration);
        },
    };
    let (rom_bank, ram_bank): (u16, u16) = match mapping {
        SnesMapping::HiROM => (0xC0, 0x30),
        SnesMapping::LoROM => (0x00, 0x70),
    };
    let mut ram_size: u16 = ram_kb(h.sram_size);
    let exp_ram_size: u16 = ram_kb(h.exp_ram_size);
    if ram_size == 0 && exp_ram_size > 0 {
        ram_size = exp_ram_size;
    }
    let rom_size = match match_rom_size_kb(h.rom_size) {
        Some(s) => s,
        None => {
            return Err(DumpError::Configuration);
        },
    };
    Ok(SnesLayout { mapping, rom_bank, ram_bank, rom_size_kb: rom_size, ram_size_kb: ram_size })
}

/// Bank `i` of a banked dump: select bank `start_bank + i`, then dump it.
pub open spec fn spec_bank_group(start_bank: u16, i: nat, d: ChunkDump) -> Seq<Step> {
    seq![
        Step::Transfer(spec_request(DICT_SNES, SNES_SET_BANK, (start_bank + i) as u16, 0, 1, true)),
        Step::Dump(d),
    ]
}

pub open spec fn spec_bank_groups(start_bank: u16, n: nat, d: ChunkDump) -> Seq<Step>
    decreases n,
{
    if n == 0 {
        Seq::empty()
    } else {
        spec_bank_groups(start_bank, (n - 1) as nat, d) + spec_bank_group(start_bank, (n - 1) as nat, d)
    }
}

/// `n` banks from `start_bank` on, each dumped with `d`.
pub fn bank_groups(start_bank: u16, n: u16, d: ChunkDump) -> (r: Vec<Step>)
    ensures
        r@ == spec_bank_groups(start_bank, n as nat, d),
{
    let mut r: Vec<Step> = Vec::new();
    let mut i: u16 = 0;
    while i < n
        invariant
            i <= n,
            r@ == spec_bank_groups(start_bank, i as nat, d),
        decreases n - i,
    {
        let bank: u16 = ((start_bank as u32 + i as u32) % 0x1_0000) as u16;
        assert(bank == (start_bank + i) as u16) by (bit_vector)
            requires
                bank == ((start_bank as u32 + i as u32) % 0x1_0000) as u16,
        ;
        r.push(Step::Transfer(set_bank(bank)));
        r.push(dump(d.size_kb, d.map, d.mem));
        i = i + 1;
        assert(r@ =~= spec_bank_groups(start_bank, i as nat, d));
    }
    r
}

/// The ROM plan: 64 KB banks (HiROM, window at 0x0000) or 32 KB banks
/// (LoROM, window at 0x8000), as many as fit in `rom_size` KB.
pub open spec fn spec_dump_rom(start_bank: u16, rom_size: u16, mapping: SnesMapping) -> Seq<Step> {
    let kb: u16 = if mapping == SnesMapping::HiROM { 64 } else { 32 };
    let base: u8 = if mapping == SnesMapping::HiROM { 0x00 } else { 0x80 };
    spec_bank_groups(start_bank, (rom_size / kb) as nat, ChunkDump { size_kb: kb, map: base, mem: SNESROM_PAGE })
}

/// Dumps `rom_size` KB of ROM from `start_bank` on.
pub fn dump_rom(start_bank: u16, rom_size: u16, mapping: SnesMapping) -> (r: Vec<Step>)
    ensures
        r@ == spec_dump_rom(start_bank, rom_size, mapping),
{
    let (kb_per_bank, addr_base): (u16, u8) = match mapping {
        SnesMapping::HiROM => (64, 0x00),
        SnesMapping::LoROM => (32, 0x80),
    };
    bank_groups(start_bank, rom_size / kb_per_bank, ChunkDump { size_kb: kb_per_bank, map: addr_base, mem: SNESROM_PAGE })
}

/// The save RAM plan: 8 KB banks of system space at 0x6000 (HiROM) or
/// 32 KB banks of ROM space at 0x0000 (LoROM); RAM smaller than a bank is
/// one dump of its own size.
pub open spec fn spec_dump_ram(start_bank: u16, ram_size: u16, mapping: SnesMapping) -> Seq<Step> {
    let kb: u16 = if mapping == SnesMapping::HiROM { 8 } else { 32 };
    let base: u8 = if mapping == SnesMapping::HiROM { 0x60 } else { 0x00 };
    let mem: u8 = if mapping == SnesMapping::HiROM { SNESSYS_PAGE } else { SNESROM_PAGE };
    if ram_size < kb {
        spec_bank_groups(start_bank, 1, ChunkDump { size_kb: ram_size, map: base, mem })
    } else {
        spec_bank_groups(start_bank, (ram_size / kb) as nat, ChunkDump { size_kb: kb, map: base, mem })
    }
}

/// Dumps `ram_size` KB of save RAM from `start_bank` on.
pub fn dump_ram(start_bank: u16, ram_size: u16, mapping: SnesMapping) -> (r: Vec<Step>)
    ensures
        r@ == spec_dump_ram(start_bank, ram_size, mapping),
{
    let (kb_per_bank, addr_base, mem): (u16, u8, u8) = match mapping {
        SnesMapping::HiROM => (8, 0x60, SNESSYS_PAGE),
        SnesMapping::LoROM => (32, 0x00, SNESROM_PAGE),
    };
    if ram_size < kb_per_bank {
        bank_groups(start_bank, 1, ChunkDump { size_kb: ram_size, map: addr_base, mem })
    } else {
        bank_groups(start_bank, ram_size / kb_per_bank, ChunkDump { size_kb: kb_per_bank, map: addr_base, mem })
    }
}

/// Developer names by licensee code.
pub open spec fn spec_developer_name(code: u8) -> Option<Seq<char>> {
    match code {
        0x01 => Some("Nintendo"@),
        0x03 => Some("Imagineer-Zoom"@),
        0x05 => Some("Zamuse"@),
        0x06 => Some("Falcom"@),
        0x08 => Some("Capcom"@),
        0x09 => Some("HOT-B"@),
        0x0A => Some("Jaleco"@),
        0x0B => Some("Coconuts"@),
        0x0C => Some("Rage Software"@),
        0x0E => Some("Technos"@),
        0x0F => Some("Mebio Software"@),
        0x12 => Some("Gremlin Graphics"@),
        0x13 => Some("Electronic Arts"@),
        0x15 => Some("COBRA Team"@),
        0x16 => Some("Human/Field"@),
        0x17 => Some("KOEI"@),
        0x18 => Some("Hudson Soft"@),
        0x1A => Some("Yanoman"@),
        0x1C => Some("Tecmo"@),
        0x1E => Some("Open System"@),
        0x1F => Some("Virgin Games"@),
        0x20 => Some("KSS"@),
        0x21 => Some("Sunsoft"@),
        0x22 => Some("POW"@),
        0x23 => Some("Micro World"@),
        0x26 => Some("Enix"@),
        0x27 => Some("Loriciel/Electro Brain"@),
        0x28 => Some("Kemco"@),
        0x29 => Some("Seta Co.,Ltd."@),
        0x2D => Some("Visit Co.,Ltd."@),
        0x31 => Some("Carrozzeria"@),
        0x32 => Some("Dynamic"@),
        0x33 => Some("Nintendo"@),
        0x34 => Some("Magifact"@),
        0x35 => Some("Hect"@),
        0x3C => Some("Empire Software"@),
        0x3D => Some("Loriciel"@),
        0x40 => Some("Seika Corp."@),
        0x41 => Some("UBI Soft"@),
        0x46 => Some("System 3"@),
        0x47 => Some("Spectrum Holobyte"@),
        0x49 => Some("Irem"@),
        0x4B => Some("Raya Systems/Sculptured Software"@),
        0x4C => Some("Renovation Products"@),
        0x4D => Some("Malibu Games/Black Pearl"@),
        0x4F => Some("U.S. Gold"@),
        0x50 => Some("Absolute Entertainment"@),
        0x51 => Some("Acclaim"@),
        0x52 => Some("Activision"@),
        0x53 => Some("American Sammy"@),
        0x54 => Some("GameTek"@),
        0x55 => Some("Hi Tech Expressions"@),
        0x56 => Some("LJN Toys"@),
        0x5A => Some("Mindscape"@),
        0x5D => Some("Tradewest"@),
        0x5F => Some("American Softworks Corp."@),
        0x60 => Some("Titus"@),
        0x61 => Some("Virgin Interactive Entertainment"@),
        0x62 => Some("Maxis"@),
        0x67 => Some("Ocean"@),
        0x69 => Some("Electronic Arts"@),
        0x6B => Some("Laser Beam"@),
        0x6E => Some("Elite"@),
        0x6F => Some("Electro Brain"@),
        0x70 => Some("Infogrames"@),
        0x71 => Some("Interplay"@),
        0x72 => Some("LucasArts"@),
        0x73 => Some("Parker Brothers"@),
        0x75 => Some("STORM"@),
        0x78 => Some("THQ Software"@),
        0x79 => Some("Accolade Inc."@),
        0x7A => Some("Triffix Entertainment"@),
        0x7C => Some("Microprose"@),
        0x7F => Some("Kemco"@),
        0x80 => Some("Misawa"@),
        0x81 => Some("Teichio"@),
        0x82 => Some("Namco Ltd."@),
        0x83 => Some("Lozc"@),
        0x84 => Some("Koei"@),
        0x86 => Some("Tokuma Shoten Intermedia"@),
        0x88 => Some("DATAM-Polystar"@),
        0x8B => Some("Bullet-Proof Software"@),
        0x8C => Some("Vic Tokai"@),
        0x8E => Some("Character Soft"@),
        0x8F => Some("I\"\"Max"@),
        0x90 => Some("Takara"@),
        0x91 => Some("CHUN Soft"@),
        0x92 => Some("Video System Co., Ltd."@),
        0x93 => Some("BEC"@),
        0x95 => Some("Varie"@),
        0x97 => Some("Kaneco"@),
        0x99 => Some("Pack in Video"@),
        0x9A => Some("Nichibutsu"@),
        0x9B => Some("TECMO"@),
        0x9C => Some("Imagineer Co."@),
        0xA0 => Some("Telenet"@),
        0xA4 => Some("Konami"@),
        0xA5 => Some("K.Amusement Leasing Co."@),
        0xA7 => Some("Takara"@),
        0xA9 => Some("Technos Jap."@),
        0xAA => Some("JVC"@),
        0xAC => Some("Toei Animation"@),
        0xAD => Some("Toho"@),
        0xAF => Some("Namco Ltd."@),
        0xB1 => Some("ASCII Co. Activison"@),
        0xB2 => Some("BanDai America"@),
        0xB4 => Some("Enix"@),
        0xB6 => Some("Halken"@),
        0xBA => Some("Culture Brain"@),
        0xBB => Some("Sunsoft"@),
        0xBC => Some("Toshiba EMI"@),
        0xBD => Some("Sony Imagesoft"@),
        0xBF => Some("Sammy"@),
        0xC0 => Some("Taito"@),
        0xC2 => Some("Kemco"@),
        0xC3 => Some("Square"@),
        0xC4 => Some("Tokuma Soft"@),
        0xC5 => Some("Data East"@),
        0xC6 => Some("Tonkin House"@),
        0xC8 => Some("KOEI"@),
        0xCA => Some("Konami USA"@),
        0xCB => Some("NTVIC"@),
        0xCD => Some("Meldac"@),
        0xCE => Some("Pony Canyon"@),
        0xCF => Some("Sotsu Agency/Sunrise"@),
        0xD0 => Some("Disco/Taito"@),
        0xD1 => Some("Sofel"@),
        0xD2 => Some("Quest Corp."@),
        0xD3 => Some("Sigma"@),
        0xD6 => Some("Naxat"@),
        0xD8 => Some("Capcom Co., Ltd."@),
        0xD9 => Some("Banpresto"@),
        0xDA => Some("Tomy"@),
        0xDB => Some("Acclaim"@),
        0xDD => Some("NCS"@),
        0xDE => Some("Human Entertainment"@),
        0xDF => Some("Altron"@),
        0xE0 => Some("Jaleco"@),
        0xE2 => Some("Yutaka"@),
        0xE4 => Some("T&ESoft"@),
        0xE5 => Some("EPOCH Co.,Ltd."@),
        0xE7 => Some("Athena"@),
        0xE8 => Some("Asmik"@),
        0xE9 => Some("Natsume"@),
        0xEA => Some("King Records"@),
        0xEB => Some("Atlus"@),
        0xEC => Some("Sony Music Entertainment"@),
        0xEE => Some("IGS"@),
        0xF1 => Some("Motown Software"@),
        0xF2 => Some("Left Field Entertainment"@),
        0xF3 => Some("Beam Software"@),
        0xF4 => Some("Tec Magik"@),
        0xF9 => Some("Cybersoft"@),
        0xFF => Some("Hudson Soft"@),
        _ => None,
    }
}

/// Name of the developer with licensee code `code`.
pub fn match_developer(code: u8) -> (r: Option<&'static str>)
    ensures
        r is Some == spec_developer_name(code) is Some,
        r matches Some(s) ==> s@ == spec_developer_name(code).unwrap(),
{
    match code {
        0x01 => Some("Nintendo"),
        0x03 => Some("Imagineer-Zoom"),
        0x05 => Some("Zamuse"),
        0x06 => Some("Falcom"),
        0x08 => Some("Capcom"),
        0x09 => Some("HOT-B"),
        0x0A => Some("Jaleco"),
        0x0B => Some("Coconuts"),
        0x0C => Some("Rage Software"),
        0x0E => Some("Technos"),
        0x0F => Some("Mebio Software"),
        0x12 => Some("Gremlin Graphics"),
        0x13 => Some("Electronic Arts"),
        0x15 => Some("COBRA Team"),
        0x16 => Some("Human/Field"),
        0x17 => Some("KOEI"),
        0x18 => Some("Hudson Soft"),
        0x1A => Some("Yanoman"),
        0x1C => Some("Tecmo"),
        0x1E => Some("Open System"),
        0x1F => Some("Virgin Games"),
        0x20 => Some("KSS"),
        0x21 => Some("Sunsoft"),
        0x22 => Some("POW"),
        0x23 => Some("Micro World"),
        0x26 => Some("Enix"),
        0x27 => Some("Loriciel/Electro Brain"),
        0x28 => Some("Kemco"),
        0x29 => Some("Seta Co.,Ltd."),
        0x2D => Some("Visit Co.,Ltd."),
        0x31 => Some("Carrozzeria"),
        0x32 => Some("Dynamic"),
        0x33 => Some("Nintendo"),
        0x34 => Some("Magifact"),
        0x35 => Some("Hect"),
        0x3C => Some("Empire Software"),
        0x3D => Some("Loriciel"),
        0x40 => Some("Seika Corp."),
        0x41 => Some("UBI Soft"),
        0x46 => Some("System 3"),
        0x47 => Some("Spectrum Holobyte"),
        0x49 => Some("Irem"),
        0x4B => Some("Raya Systems/Sculptured Software"),
        0x4C => Some("Renovation Products"),
        0x4D => Some("Malibu Games/Black Pearl"),
        0x4F => Some("U.S. Gold"),
        0x50 => Some("Absolute Entertainment"),
        0x51 => Some("Acclaim"),
        0x52 => Some("Activision"),
        0x53 => Some("American Sammy"),
        0x54 => Some("GameTek"),
        0x55 => Some("Hi Tech Expressions"),
        0x56 => Some("LJN Toys"),
        0x5A => Some("Mindscape"),
        0x5D => Some("Tradewest"),
        0x5F => Some("American Softworks Corp."),
        0x60 => Some("Titus"),
        0x61 => Some("Virgin Interactive Entertainment"),
        0x62 => Some("Maxis"),
        0x67 => Some("Ocean"),
        0x69 => Some("Electronic Arts"),
        0x6B => Some("Laser Beam"),
        0x6E => Some("Elite"),
        0x6F => Some("Electro Brain"),
        0x70 => Some("Infogrames"),
        0x71 => Some("Interplay"),
        0x72 => Some("LucasArts"),
        0x73 => Some("Parker Brothers"),
        0x75 => Some("STORM"),
        0x78 => Some("THQ Software"),
        0x79 => Some("Accolade Inc."),
        0x7A => Some("Triffix Entertainment"),
        0x7C => Some("Microprose"),
        0x7F => Some("Kemco"),
        0x80 => Some("Misawa"),
        0x81 => Some("Teichio"),
        0x82 => Some("Namco Ltd."),
        0x83 => Some("Lozc"),
        0x84 => Some("Koei"),
        0x86 => Some("Tokuma Shoten Intermedia"),
        0x88 => Some("DATAM-Polystar"),
        0x8B => Some("Bullet-Proof Software"),
        0x8C => Some("Vic Tokai"),
        0x8E => Some("Character Soft"),
        0x8F => Some("I\"\"Max"),
        0x90 => Some("Takara"),
        0x91 => Some("CHUN Soft"),
        0x92 => Some("Video System Co., Ltd."),
        0x93 => Some("BEC"),
        0x95 => Some("Varie"),
        0x97 => Some("Kaneco"),
        0x99 => Some("Pack in Video"),
        0x9A => Some("Nichibutsu"),
        0x9B => Some("TECMO"),
        0x9C => Some("Imagineer Co."),
        0xA0 => Some("Telenet"),
        0xA4 => Some("Konami"),
        0xA5 => Some("K.Amusement Leasing Co."),
        0xA7 => Some("Takara"),
        0xA9 => Some("Technos Jap."),
        0xAA => Some("JVC"),
        0xAC => Some("Toei Animation"),
        0xAD => Some("Toho"),
        0xAF => Some("Namco Ltd."),
        0xB1 => Some("ASCII Co. Activison"),
        0xB2 => Some("BanDai America"),
        0xB4 => Some("Enix"),
        0xB6 => Some("Halken"),
        0xBA => Some("Culture Brain"),
        0xBB => Some("Sunsoft"),
        0xBC => Some("Toshiba EMI"),
        0xBD => Some("Sony Imagesoft"),
        0xBF => Some("Sammy"),
        0xC0 => Some("Taito"),
        0xC2 => Some("Kemco"),
        0xC3 => Some("Square"),
        0xC4 => Some("Tokuma Soft"),
        0xC5 => Some("Data East"),
        0xC6 => Some("Tonkin House"),
        0xC8 => Some("KOEI"),
        0xCA => Some("Konami USA"),
        0xCB => Some("NTVIC"),
        0xCD => Some("Meldac"),
        0xCE => Some("Pony Canyon"),
        0xCF => Some("Sotsu Agency/Sunrise"),
        0xD0 => Some("Disco/Taito"),
        0xD1 => Some("Sofel"),
        0xD2 => Some("Quest Corp."),
        0xD3 => Some("Sigma"),
        0xD6 => Some("Naxat"),
        0xD8 => Some("Capcom Co., Ltd."),
        0xD9 => Some("Banpresto"),
        0xDA => Some("Tomy"),
        0xDB => Some("Acclaim"),
        0xDD => Some("NCS"),
        0xDE => Some("Human Entertainment"),
        0xDF => Some("Altron"),
        0xE0 => Some("Jaleco"),
        0xE2 => Some("Yutaka"),
        0xE4 => Some("T&ESoft"),
        0xE5 => Some("EPOCH Co.,Ltd."),
        0xE7 => Some("Athena"),
        0xE8 => Some("Asmik"),
        0xE9 => Some("Natsume"),
        0xEA => Some("King Records"),
        0xEB => Some("Atlus"),
        0xEC => Some("Sony Music Entertainment"),
        0xEE => Some("IGS"),
        0xF1 => Some("Motown Software"),
        0xF2 => Some("Left Field Entertainment"),
        0xF3 => Some("Beam Software"),
        0xF4 => Some("Tec Magik"),
        0xF9 => Some("Cybersoft"),
        0xFF => Some("Hudson Soft"),
        _ => None,
    }
}

/// Region names by destination code.
pub open spec fn spec_destination_name(code: u8) -> Option<Seq<char>> {
    match code {
        0x00 => Some("Japan (NTSC)"@),
        0x01 => Some("USA (NTSC)"@),
        0x02 => Some("Australia, Europe, Oceania and Asia (PAL)"@),
        0x03 => Some("Sweden (PAL)"@),
        0x04 => Some("Finland (PAL)"@),
        0x05 => Some("Denmark (PAL)"@),
        0x06 => Some("France (PAL)"@),
        0x07 => Some("Holland (PAL)"@),
        0x08 => Some("Spain (PAL)"@),
        0x09 => Some("Germany, Austria and Switzerland (PAL)"@),
        0x0A => Some("Italy (PAL)"@),
        0x0B => Some("Hong Kong and China (PAL)"@),
        0x0C => Some("Indonesia (PAL)"@),
        0x0D => Some("Korea (PAL)"@),
        _ => None,
    }
}

/// Name of the region with destination code `code`.
pub fn match_destination(code: u8) -> (r: Option<&'static str>)
    ensures
        r is Some == spec_destination_name(code) is Some,
        r matches Some(s) ==> s@ == spec_destination_name(code).unwrap(),
{
    match code {
        0x00 => Some("Japan (NTSC)"),
        0x01 => Some("USA (NTSC)"),
        0x02 => Some("Australia, Europe, Oceania and Asia (PAL)"),
        0x03 => Some("Sweden (PAL)"),
        0x04 => Some("Finland (PAL)"),
        0x05 => Some("Denmark (PAL)"),
        0x06 => Some("France (PAL)"),
        0x07 => Some("Holland (PAL)"),
        0x08 => Some("Spain (PAL)"),
        0x09 => Some("Germany, Austria and Switzerland (PAL)"),
        0x0A => Some("Italy (PAL)"),
        0x0B => Some("Hong Kong and China (PAL)"),
        0x0C => Some("Indonesia (PAL)"),
        0x0D => Some("Korea (PAL)"),
        _ => None,
    }
}

/// Cartridge hardware by type code.
pub open spec fn spec_hardware_type_name(code: u8) -> Option<Seq<char>> {
    match code {
        0x00 => Some("ROM Only"@),
        0x01 => Some("ROM and RAM"@),
        0x02 => Some("ROM and Save RAM"@),
        0x03 => Some("ROM and DSP1"@),
        0x13 => Some("ROM and SuperFX"@),
        0x15 => Some("ROM and SuperFX and Save RAM"@),
        0x1A => Some("ROM and SuperFX and Save RAM (Stunt Race FX)"@),
        0x23 => Some("ROM and OBC1"@),
        0x33 => Some("ROM and SA-1"@),
        0x43 => Some("ROM and S-DD1"@),
        0x45 => Some("ROM and S-DD1 and Save RAM"@),
        0xF3 => Some("ROM and CX4"@),
        0xF9 => Some("ROM and SPC7110 and RTC and Save RAM"@),
        _ => None,
    }
}

/// Name of the cartridge hardware with type code `code`.
pub fn match_hardware_type(code: u8) -> (r: Option<&'static str>)
    ensures
        r is Some == spec_hardware_type_name(code) is Some,
        r matches Some(s) ==> s@ == spec_hardware_type_name(code).unwrap(),
{
    match code {
        0x00 => Some("ROM Only"),
        0x01 => Some("ROM and RAM"),
        0x02 => Some("ROM and Save RAM"),
        0x03 => Some("ROM and DSP1"),
        0x13 => Some("ROM and SuperFX"),
        0x15 => Some("ROM and SuperFX and Save RAM"),
        0x1A => Some("ROM and SuperFX and Save RAM (Stunt Race FX)"),
        0x23 => Some("ROM and OBC1"),
        0x33 => Some("ROM and SA-1"),
        0x43 => Some("ROM and S-DD1"),
        0x45 => Some("ROM and S-DD1 and Save RAM"),
        0xF3 => Some("ROM and CX4"),
        0xF9 => Some("ROM and SPC7110 and RTC and Save RAM"),
        _ => None,
    }
}

/// ROM sizes by size code.
pub open spec fn spec_rom_upper_bound_name(code: u8) -> Option<Seq<char>> {
    match code {
        0x08 => Some("2 megabits"@),
        0x09 => Some("4 megabits"@),
        0x0A => Some("8 megabits"@),
        0x0B => Some("16 megabits"@),
        0x0C => Some("32 megabits"@),
        0x0D => Some("64 megabits"@),
        _ => None,
    }
}

/// Name of the ROM size with size code `code`.
pub fn match_rom_upper_bound(code: u8) -> (r: Option<&'static str>)
    ensures
        r is Some == spec_rom_upper_bound_name(code) is Some,
        r matches Some(s) ==> s@ == spec_rom_upper_bound_name(code).unwrap(),
{
    match code {
        0x08 => Some("2 megabits"),
        0x09 => Some("4 megabits"),
        0x0A => Some("8 megabits"),
        0x0B => Some("16 megabits"),
        0x0C => Some("32 megabits"),
        0x0D => Some("64 megabits"),
        _ => None,
    }
}

/// Save RAM sizes by size code.
pub open spec fn spec_ram_size_name(code: u8) -> Option<Seq<char>> {
    match code {
        0x00 => Some("None"@),
        0x01 => Some("16 kilobits"@),
        0x02 => Some("32 kilobits"@),
        0x03 => Some("64 kilobits"@),
        0x05 => Some("256 kilobits"@),
        0x06 => Some("512 kilobits"@),
        _ => None,
    }
}

/// Name of the save RAM size with size code `code`.
pub fn match_ram_size(code: u8) -> (r: Option<&'static str>)
    ensures
        r is Some == spec_ram_size_name(code) is Some,
        r matches Some(s) ==> s@ == spec_ram_size_name(code).unwrap(),
{
    match code {
        0x00 => Some("None"),
        0x01 => Some("16 kilobits"),
        0x02 => Some("32 kilobits"),
        0x03 => Some("64 kilobits"),
        0x05 => Some("256 kilobits"),
        0x06 => Some("512 kilobits"),
        _ => None,
    }
}

/// Memory maps by the low nibble of the map mode.
pub open spec fn spec_map_mode_name(code: u8) -> Option<Seq<char>> {
    match code % 16 {
        0x00 => Some("LoROM"@),
        0x01 => Some("HiROM"@),
        0x02 => Some("LoROM + S-DD1"@),
        0x03 => Some("LoROM + SA-1"@),
        0x05 => Some("ExHiROM"@),
        0x0A => Some("HiROM + SPC7110"@),
        _ => None,
    }
}

/// Name of the memory map of map mode `code`; only its low nibble counts.
pub fn match_map_mode(code: u8) -> (r: Option<&'static str>)
    ensures
        r is Some == spec_map_mode_name(code) is Some,
        r matches Some(s) ==> s@ == spec_map_mode_name(code).unwrap(),
{
    match code % 16 {
        0x00 => Some("LoROM"),
        0x01 => Some("HiROM"),
        0x02 => Some("LoROM + S-DD1"),
        0x03 => Some("LoROM + SA-1"),
        0x05 => Some("ExHiROM"),
        0x0A => Some("HiROM + SPC7110"),
        _ => None,
    }
}
} // verus!
