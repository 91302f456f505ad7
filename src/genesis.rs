//! Genesis cartridges: 16-bit big-endian words, the header at 0x100, ROM in
//! 128 KB banks and save RAM on the odd bytes only.
use vstd::prelude::*;

use crate::opcodes::{DICT_GEN, GEN_ROM_RD, GEN_SET_BANK, GENESIS_RAM_PAGE, GENESIS_ROM_PAGE0, GENESIS_ROM_PAGE1};
use crate::session::{dump, ChunkDump, Step};
use crate::text::{lossy_of, lossy_text};
use crate::transport::{read_device, spec_request, ControlRequest};

verus! {

/// Reads the word at word address `operand`; the response carries it most
/// significant byte first.
pub fn rom_rd(operand: u16) -> (r: ControlRequest)
    ensures
        r == spec_request(DICT_GEN, GEN_ROM_RD, operand, 0, 4, true),
{
    read_device(DICT_GEN, GEN_ROM_RD, operand, 0, 4)
}

/// Selects bank `operand` for the accesses that follow.
pub fn set_bank(operand: u16) -> (r: ControlRequest)
    ensures
        r == spec_request(DICT_GEN, GEN_SET_BANK, operand, 0, 1, true),
{
    read_device(DICT_GEN, GEN_SET_BANK, operand, 0, 1)
}

/// The cartridge header.
#[derive(Debug)]
pub struct GenesisHeader {
    pub rom_name_domestic: String,
    pub rom_name_overseas: String,
    pub system_type: String,
    pub copyright: String,
    pub serial_number: String,
    pub checksum: u16,
    pub devices_supported: Vec<u8>,
    pub rom_size: u32,
    pub ram_size: u32,
    pub extra_memory: bool,
    pub extra_memory_type: u8,
    pub extra_memory_size: u32,
    pub region_support: Vec<u8>,
}

/// Words read for the header.
pub const GENESIS_HEADER_READS: usize = 96;

/// Word address of the `i`-th header read: the 94 words from 0x100 up to
/// 0x1BC, then the two words of the region field at 0x1F0.
pub open spec fn spec_word_addr(i: int) -> int {
    if i < 94 {
        0x80 + i
    } else {
        0xF8 + (i - 94)
    }
}

pub open spec fn spec_genesis_header_reads() -> Seq<Step> {
    seq![Step::Transfer(spec_request(DICT_GEN, GEN_SET_BANK, 0, 0, 1, true))] + Seq::new(
        GENESIS_HEADER_READS as nat,
        |i: int| Step::Transfer(spec_request(DICT_GEN, GEN_ROM_RD, spec_word_addr(i) as u16, 0, 4, true)),
    )
}

/// The reads of the header: select bank 0, then one read per word.
pub fn get_header() -> (r: Vec<Step>)
    ensures
        r@ == spec_genesis_header_reads(),
{
    let mut r: Vec<Step> = Vec::new();
    r.push(Step::Transfer(set_bank(0)));
    let mut i: usize = 0;
    while i < GENESIS_HEADER_READS
        invariant
            i <= GENESIS_HEADER_READS,
            r@.len() == i + 1,
            forall|j: int| 0 <= j < i + 1 ==> r@[j] == spec_genesis_header_reads()[j],
        decreases GENESIS_HEADER_READS - i,
    {
        let addr: u16 = if i < 94 { 0x80 + i as u16 } else { 0xF8 + (i - 94) as u16 };
        r.push(Step::Transfer(rom_rd(addr)));
        i = i + 1;
    }
    assert(r@ =~= spec_genesis_header_reads());
    r
}

/// The word of the `k`-th read in readback `rb`.
pub open spec fn spec_word(rb: Seq<u8>, k: int) -> u16 {
    (rb[2 * k] as int * 256 + rb[2 * k + 1] as int) as u16
}

/// `len` header bytes starting at byte `from` of the readback: each word
/// contributes its low byte first, then its high byte.
pub open spec fn spec_field(rb: Seq<u8>, from: int, len: int) -> Seq<u8> {
    Seq::new(len as nat, |i: int| if i % 2 == 0 { rb[from + i + 1] } else { rb[from + i - 1] })
}

/// Header bytes `from .. from + len` of readback `rb`, laid out as `spec_field` says.
fn field(rb: &[u8], from: usize, len: usize) -> (r: Vec<u8>)
    requires
        from % 2 == 0,
        len % 2 == 0,
        from + len <= rb@.len(),
    ensures
        r@ == spec_field(rb@, from as int, len as int),
{
    let n: usize = rb.len();
    let mut r: Vec<u8> = Vec::new();
    let mut i: usize = 0;
    while i < len
        invariant
            n == rb@.len(),
            from % 2 == 0,
            len % 2 == 0,
            from + len <= rb@.len(),
            i <= len,
            i % 2 == 0,
            r@.len() == i,
            forall|j: int| 0 <= j < i ==> r@[j] == spec_field(rb@, from as int, len as int)[j],
        decreases len - i,
    {
        r.push(rb[from + i + 1]);
        r.push(rb[from + i]);
        i = i + 2;
    }
    assert(r@ =~= spec_field(rb@, from as int, len as int));
    r
}

/// The 32-bit value assembled from reads `k` and `k + 1`: the first word
/// shifted up by a byte and or-ed with the second.
pub open spec fn spec_u32(rb: Seq<u8>, k: int) -> u32 {
    ((spec_word(rb, k) as u32) << 8u32) | (spec_word(rb, k + 1) as u32)
}

fn get_u32(rb: &[u8], k: usize) -> (r: u32)
    requires
        2 * k + 3 < rb@.len(),
    ensures
        r == spec_u32(rb@, k as int),
{
    let n: usize = rb.len();
    assert(2 * k + 3 < n);
    let hi: u16 = (rb[2 * k] as u16) * 256 + rb[2 * k + 1] as u16;
    let lo: u16 = (rb[2 * k + 2] as u16) * 256 + rb[2 * k + 3] as u16;
    ((hi as u32) << 8u32) | (lo as u32)
}

/// Kilobytes from `lower` to `upper` inclusive; nothing when they are out of
/// order.
pub open spec fn spec_span_kb(lower: u32, upper: u32) -> u32 {
    if upper >= lower {
        ((upper - lower + 1) / 1024) as u32
    } else {
        0
    }
}

fn span_kb(lower: u32, upper: u32) -> (r: u32)
    ensures
        r == spec_span_kb(lower, upper),
{
    if upper >= lower {
        (((upper - lower) as u64 + 1) / 1024) as u32
    } else {
        0
    }
}

/// The big-endian 32-bit value of `b[from .. from + 4]`.
pub open spec fn spec_be32(b: Seq<u8>, from: int) -> u32 {
    (b[from] as int * 0x100_0000 + b[from + 1] as int * 0x1_0000 + b[from + 2] as int * 0x100
        + b[from + 3] as int) as u32
}

/// Size of extra memory from its start and end addresses: in KB when it sits
/// on odd bytes from 0x200001, in bytes halved when it starts at 0x200000;
/// nothing otherwise.
pub open spec fn spec_extra_size(start: u32, end: u32) -> u32 {
    if end < start {
        0
    } else if start == 0x200001 {
        ((end - start + 2) / 1024) as u32
    } else if start == 0x200000 {
        ((end - start + 1) / 2) as u32
    } else {
        0
    }
}

fn extra_size(start: u32, end: u32) -> (r: u32)
    ensures
        r == spec_extra_size(start, end),
{
    if end < start {
        0
    } else if start == 0x200001 {
        (((end - start) as u64 + 2) / 1024) as u32
    } else if start == 0x200000 {
        (((end - start) as u64 + 1) / 2) as u32
    } else {
        0
    }
}

/// Whether `h` is the header whose reads came back as `rb`.
pub open spec fn spec_genesis_header_from(rb: Seq<u8>, h: GenesisHeader) -> bool {
    let extra = spec_field(rb, 176, 12);
    let has_extra = extra[0] == 0x52 && extra[1] == 0x41;
    &&& h.system_type@ == lossy_of(spec_field(rb, 0, 16))
    &&& h.copyright@ == lossy_of(spec_field(rb, 16, 16))
    &&& h.rom_name_domestic@ == lossy_of(spec_field(rb, 32, 48))
    &&& h.rom_name_overseas@ == lossy_of(spec_field(rb, 80, 48))
    &&& h.serial_number@ == lossy_of(spec_field(rb, 128, 14))
    &&& h.checksum == spec_word(rb, 71)
    &&& h.devices_supported@ == spec_field(rb, 144, 16)
    &&& h.rom_size == spec_span_kb(spec_u32(rb, 80), spec_u32(rb, 82))
    &&& h.ram_size == spec_span_kb(spec_u32(rb, 84), spec_u32(rb, 86))
    &&& h.extra_memory == has_extra
    &&& h.extra_memory_type == if has_extra { extra[2] } else { 0 }
    &&& h.extra_memory_size == if has_extra {
        spec_extra_size(spec_be32(extra, 4), spec_be32(extra, 8))
    } else {
        0
    }
    &&& h.region_support@ == spec_field(rb, 188, 4).subrange(0, 3)
}

/// Assembles the header from the readback of `get_header`.
pub fn parse_header(rb: &[u8]) -> (r: GenesisHeader)
    requires
        rb@.len() == 2 * GENESIS_HEADER_READS,
    ensures
        spec_genesis_header_from(rb@, r),
{
    let system = field(rb, 0, 16);
    let copyright = field(rb, 16, 16);
    let domestic = field(rb, 32, 48);
    let overseas = field(rb, 80, 48);
    let serial = field(rb, 128, 14);
    let devices = field(rb, 144, 16);
    let extra = field(rb, 176, 12);
    let region = field(rb, 188, 4);
    let mut region3: Vec<u8> = Vec::new();
    region3.push(region[0]);
    region3.push(region[1]);
    region3.push(region[2]);
    assert(region3@ =~= region@.subrange(0, 3));
    let has_extra = extra[0] == 0x52 && extra[1] == 0x41;
    let mut extra_type: u8 = 0;
    let mut extra_len: u32 = 0;
    if has_extra {
        extra_type = extra[2];
        let start: u32 = (extra[4] as u32) * 0x100_0000 + (extra[5] as u32) * 0x1_0000 + (extra[6] as u32)
            * 0x100 + extra[7] as u32;
        let end: u32 = (extra[8] as u32) * 0x100_0000 + (extra[9] as u32) * 0x1_0000 + (extra[10] as u32)
            * 0x100 + extra[11] as u32;
        extra_len = extra_size(start, end);
    }
    GenesisHeader {
        rom_name_domestic: lossy_text(domestic.as_slice()),
        rom_name_overseas: lossy_text(overseas.as_slice()),
        system_type: lossy_text(system.as_slice()),
        copyright: lossy_text(copyright.as_slice()),
        serial_number: lossy_text(serial.as_slice()),
        checksum: (rb[142] as u16) * 256 + rb[143] as u16,
        devices_supported: devices,
        rom_size: span_kb(get_u32(rb, 80), get_u32(rb, 82)),
        ram_size: span_kb(get_u32(rb, 84), get_u32(rb, 86)),
        extra_memory: has_extra,
        extra_memory_type: extra_type,
        extra_memory_size: extra_len,
        region_support: region3,
    }
}

/// Extra memory type of 8-bit save RAM on odd addresses, the only kind of
/// save RAM this host dumps.
pub const SAVE_ODD_8BIT: u8 = 0xF8;

/// Whether the cartridge's save RAM is of the kind this host dumps.
pub fn save_ram_supported(h: &GenesisHeader) -> (r: bool)
    ensures
        r == (h.extra_memory_type == SAVE_ODD_8BIT),
{
    h.extra_memory_type == SAVE_ODD_8BIT
}

/// Save RAM bank `n`: select bank 0x10 + n, then dump 8 KB of its low bytes.
pub open spec fn spec_ram_group(n: nat) -> Seq<Step> {
    seq![
        Step::Transfer(spec_request(DICT_GEN, GEN_SET_BANK, (0x10 + n) as u16, 0, 1, true)),
        Step::Dump(ChunkDump { size_kb: 8, map: 0x00, mem: GENESIS_RAM_PAGE }),
    ]
}

pub open spec fn spec_ram_groups(n: nat) -> Seq<Step>
    decreases n,
{
    if n == 0 {
        Seq::empty()
    } else {
        spec_ram_groups((n - 1) as nat) + spec_ram_group((n - 1) as nat)
    }
}

/// Banks of save RAM: half the extra memory size (the bus reads one byte of
/// each word), kept to 16 bits, in 8 KB banks.
pub open spec fn spec_ram_banks(h: GenesisHeader) -> nat {
    (((h.extra_memory_size / 2) as int % 0x1_0000) / 8) as nat
}

/// The save RAM plan of the cartridge with header `h`.
pub fn dump_ram(h: &GenesisHeader) -> (r: Vec<Step>)
    ensures
        r@ == spec_ram_groups(spec_ram_banks(*h)),
{
    let size: u32 = h.extra_memory_size / 2;
    let banks: u16 = ((size % 0x1_0000) as u16) / 8;
    let mut r: Vec<Step> = Vec::new();
    let mut n: u16 = 0;
    while n < banks
        invariant
            n <= banks,
            banks as nat == spec_ram_banks(*h),
            r@ == spec_ram_groups(n as nat),
        decreases banks - n,
    {
        let bank: u16 = ((0x10u32 + n as u32) % 0x1_0000) as u16;
        assert(bank == (0x10 + n) as u16) by (bit_vector)
            requires
                bank == ((0x10u32 + n as u32) % 0x1_0000) as u16,
        ;
        r.push(Step::Transfer(set_bank(bank)));
        r.push(dump(8, 0x00, GENESIS_RAM_PAGE));
        n = n + 1;
        assert(r@ =~= spec_ram_groups(n as nat));
    }
    r
}

/// ROM bank `i` (128 KB): select it, then dump its two 64 KB halves.
pub open spec fn spec_rom_group(i: nat) -> Seq<Step> {
    seq![
        Step::Transfer(spec_request(DICT_GEN, GEN_SET_BANK, (i % 0x1_0000) as u16, 0, 1, true)),
        Step::Dump(ChunkDump { size_kb: 64, map: 0x00, mem: GENESIS_ROM_PAGE0 }),
        Step::Dump(ChunkDump { size_kb: 64, map: 0x00, mem: GENESIS_ROM_PAGE1 }),
    ]
}

pub open spec fn spec_rom_groups(n: nat) -> Seq<Step>
    decreases n,
{
    if n == 0 {
        Seq::empty()
    } else {
        spec_rom_groups((n - 1) as nat) + spec_rom_group((n - 1) as nat)
    }
}

/// The ROM plan of the cartridge with header `h`: one 128 KB bank per
/// 128 KB of its declared size.
pub fn dump_rom(h: &GenesisHeader) -> (r: Vec<Step>)
    ensures
        r@ == spec_rom_groups((h.rom_size / 128) as nat),
{
    let num_reads: u32 = h.rom_size / 128;
    let mut r: Vec<Step> = Vec::new();
    let mut i: u32 = 0;
    while i < num_reads
        invariant
            i <= num_reads,
            num_reads == h.rom_size / 128,
            r@ == spec_rom_groups(i as nat),
        decreases num_reads - i,
    {
        r.push(Step::Transfer(set_bank((i % 0x1_0000) as u16)));
        r.push(dump(64, 0x00, GENESIS_ROM_PAGE0));
        r.push(dump(64, 0x00, GENESIS_ROM_PAGE1));
        i = i + 1;
        assert(r@ =~= spec_rom_groups(i as nat));
    }
    r
}

/// The save RAM image: each captured byte preceded by 0xFF, restoring the
/// 16-bit layout from the odd bytes the bus could read.
pub open spec fn spec_doubled(data: Seq<u8>) -> Seq<u8> {
    Seq::new(2 * data.len(), |i: int| if i % 2 == 0 { 0xFFu8 } else { data[i / 2] })
}

/// Pads captured save RAM into its 16-bit layout.
pub fn double_bytes(data: &[u8]) -> (r: Vec<u8>)
    requires
        2 * data@.len() <= usize::MAX,
    ensures
        r@ == spec_doubled(data@),
{
    let mut r: Vec<u8> = Vec::new();
    let mut i: usize = 0;
    while i < data.len()
        invariant
            i <= data@.len(),
            2 * data@.len() <= usize::MAX,
            r@.len() == 2 * i,
            forall|j: int| 0 <= j < 2 * i ==> r@[j] == spec_doubled(data@)[j],
        decreases data@.len() - i,
    {
        r.push(0xFF);
        r.push(data[i]);
        i = i + 1;
    }
    assert(r@ =~= spec_doubled(data@));
    r
}

/// Extra memory kinds by type code.
pub open spec fn spec_extra_memory_type_name(code: u8) -> Option<Seq<char>> {
    match code {
        0xA0 => Some("No save 16-bit"@),
        0xB0 => Some("No save 8-bit (even addresses)"@),
        0xB8 => Some("No save 8-bit (odd addresses)"@),
        0xE0 => Some("Save 16-bit"@),
        0xE8 => Some("EEPROM"@),
        0xF0 => Some("Save 8-bit (even addresses)"@),
        0xF8 => Some("Save 8-bit (odd addresses)"@),
        _ => None,
    }
}

/// Name of the extra memory kind with type code `code`.
pub fn match_extra_memory_type(code: u8) -> (r: Option<&'static str>)
    ensures
        r is Some == spec_extra_memory_type_name(code) is Some,
        r matches Some(s) ==> s@ == spec_extra_memory_type_name(code).unwrap(),
{
    match code {
        0xA0 => Some("No save 16-bit"),
        0xB0 => Some("No save 8-bit (even addresses)"),
        0xB8 => Some("No save 8-bit (odd addresses)"),
        0xE0 => Some("Save 16-bit"),
        0xE8 => Some("EEPROM"),
        0xF0 => Some("Save 8-bit (even addresses)"),
        0xF8 => Some("Save 8-bit (odd addresses)"),
        _ => None,
    }
}
} // verus!
