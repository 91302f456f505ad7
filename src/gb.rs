//! Game Boy cartridges: the header at 0x0134-0x014F.
use vstd::prelude::*;

use crate::io::{gameboy_init, gb_power_5v, reset};
use crate::opcodes::{DICT_GB, DICT_IO, GAMEBOY_INIT, GAMEBOY_RD, GB_POWER_5V, IO_RESET};
use crate::session::{copy_bytes, Step};
use crate::text::{lossy_of, lossy_text};
use crate::transport::{read_device, spec_request, ControlRequest};

verus! {

/// Reads the ROM byte at `operand`; one data byte.
pub fn rom_rd(operand: u16) -> (r: ControlRequest)
    ensures
        r == spec_request(DICT_GB, GAMEBOY_RD, operand, 0, 3, true),
{
    read_device(DICT_GB, GAMEBOY_RD, operand, 0, 3)
}

/// The cartridge header.
#[derive(Debug)]
pub struct GbHeader {
    pub rom_name: String,
    pub developer_code: u8,
    pub sgb_flag: u8,
    pub cart_type: u8,
    pub rom_size: u8,
    pub ram_size: u8,
    pub dest_code: u8,
    pub version: u8,
    pub header_checksum: u8,
    pub global_checksum: u16,
}

/// Bytes read for the header.
pub const GB_HEADER_READS: usize = 28;

/// Address of the `i`-th byte read: SGB flag, cart type, ROM size, RAM size,
/// destination, version, header checksum, global checksum (two bytes, most
/// significant first), old licensee code, new licensee code (two bytes),
/// then the 16 title bytes.
pub open spec fn spec_gb_addr(i: int) -> int {
    if i == 0 {
        0x146
    } else if i == 1 {
        0x147
    } else if i == 2 {
        0x148
    } else if i == 3 {
        0x149
    } else if i == 4 {
        0x14A
    } else if i == 5 {
        0x14C
    } else if i == 6 {
        0x14D
    } else if i == 7 {
        0x14E
    } else if i == 8 {
        0x14F
    } else if i == 9 {
        0x14B
    } else if i == 10 {
        0x144
    } else if i == 11 {
        0x145
    } else {
        0x134 + (i - 12)
    }
}

fn gb_addr(i: usize) -> (r: u16)
    requires
        i < GB_HEADER_READS,
    ensures
        r as int == spec_gb_addr(i as int),
{
    if i == 0 {
        0x146
    } else if i == 1 {
        0x147
    } else if i == 2 {
        0x148
    } else if i == 3 {
        0x149
    } else if i == 4 {
        0x14A
    } else if i == 5 {
        0x14C
    } else if i == 6 {
        0x14D
    } else if i == 7 {
        0x14E
    } else if i == 8 {
        0x14F
    } else if i == 9 {
        0x14B
    } else if i == 10 {
        0x144
    } else if i == 11 {
        0x145
    } else {
        0x134 + (i - 12) as u16
    }
}

pub open spec fn spec_gb_header_reads() -> Seq<Step> {
    Seq::new(
        GB_HEADER_READS as nat,
        |i: int| Step::Transfer(spec_request(DICT_GB, GAMEBOY_RD, spec_gb_addr(i) as u16, 0, 3, true)),
    )
}

/// The reads of the header.
pub fn get_header() -> (r: Vec<Step>)
    ensures
        r@ == spec_gb_header_reads(),
{
    let mut r: Vec<Step> = Vec::new();
    let mut i: usize = 0;
    while i < GB_HEADER_READS
        invariant
            i <= GB_HEADER_READS,
            r@.len() == i,
            forall|j: int| 0 <= j < i ==> r@[j] == spec_gb_header_reads()[j],
        decreases GB_HEADER_READS - i,
    {
        r.push(Step::Transfer(rom_rd(gb_addr(i))));
        i = i + 1;
    }
    assert(r@ =~= spec_gb_header_reads());
    r
}

pub open spec fn spec_dump_gb() -> Seq<Step> {
    seq![
        Step::Transfer(spec_request(DICT_IO, IO_RESET, 0, 0, 1, true)),
        Step::Transfer(spec_request(DICT_IO, GAMEBOY_INIT, 0, 0, 1, true)),
        Step::Transfer(spec_request(DICT_IO, GB_POWER_5V, 0, 0, 1, true)),
    ] + spec_gb_header_reads() + seq![Step::Transfer(spec_request(DICT_IO, IO_RESET, 0, 0, 1, true))]
}

/// Reads a cartridge's header: reset, set the pins up for a Game Boy at 5 V,
/// read the header, reset. The readback is the header's bytes as
/// `parse_header` takes them.
pub fn dump_gb() -> (r: Vec<Step>)
    ensures
        r@ == spec_dump_gb(),
{
    let mut r: Vec<Step> = Vec::new();
    r.push(Step::Transfer(reset()));
    r.push(Step::Transfer(gameboy_init()));
    r.push(Step::Transfer(gb_power_5v()));
    let mut reads = get_header();
    r.append(&mut reads);
    r.push(Step::Transfer(reset()));
    assert(r@ =~= spec_dump_gb());
    r
}

/// Old licensee code that marks a newer cartridge, with a 16-byte title and
/// the new licensee code.
pub const NEW_LICENSEE_MARK: u8 = 0x33;

/// Whether `h` is the header whose reads came back as `rb`. A newer
/// cartridge keeps the full 16-byte title and its developer code from the
/// new licensee field (only the low nibble of 0x145 survives: the nibble of
/// 0x144 is shifted out of the byte); an older one has an 11-byte title and
/// the old licensee code.
pub open spec fn spec_gb_header_from(rb: Seq<u8>, h: GbHeader) -> bool {
    let new_type = rb[9] == NEW_LICENSEE_MARK;
    &&& h.sgb_flag == rb[0]
    &&& h.cart_type == rb[1]
    &&& h.rom_size == rb[2]
    &&& h.ram_size == rb[3]
    &&& h.dest_code == rb[4]
    &&& h.version == rb[5]
    &&& h.header_checksum == rb[6]
    &&& h.global_checksum as int == rb[7] as int * 256 + rb[8] as int
    &&& h.developer_code == if new_type { rb[11] % 16 } else { rb[9] }
    &&& h.rom_name@ == lossy_of(rb.subrange(12, if new_type { 28 } else { 23 }))
}

/// Assembles the header from the readback of `get_header`.
pub fn parse_header(rb: &[u8]) -> (r: GbHeader)
    requires
        rb@.len() == GB_HEADER_READS,
    ensures
        spec_gb_header_from(rb@, r),
{
    let new_type = rb[9] == NEW_LICENSEE_MARK;
    let name_end: usize = if new_type { 28 } else { 23 };
    let developer_code: u8 = if new_type { rb[11] % 16 } else { rb[9] };
    let name = copy_bytes(rb, 12, name_end);
    GbHeader {
        rom_name: lossy_text(name.as_slice()),
        developer_code,
        sgb_flag: rb[0],
        cart_type: rb[1],
        rom_size: rb[2],
        ram_size: rb[3],
        dest_code: rb[4],
        version: rb[5],
        header_checksum: rb[6],
        global_checksum: (rb[7] as u16) * 256 + rb[8] as u16,
    }
}

/// Cartridge RAM sizes by size code.
pub open spec fn spec_ram_size_name(code: u8) -> Option<Seq<char>> {
    match code {
        0x00 => Some("None"@),
        0x02 => Some("8 kilobits"@),
        0x03 => Some("32 kilobits"@),
        0x04 => Some("128 kilobits"@),
        0x05 => Some("64 kilobits"@),
        _ => None,
    }
}

/// Name of the cartridge RAM size with size code `code`.
pub fn match_ram_size(code: u8) -> (r: Option<&'static str>)
    ensures
        r is Some == spec_ram_size_name(code) is Some,
        r matches Some(s) ==> s@ == spec_ram_size_name(code).unwrap(),
{
    match code {
        0x00 => Some("None"),
        0x02 => Some("8 kilobits"),
        0x03 => Some("32 kilobits"),
        0x04 => Some("128 kilobits"),
        0x05 => Some("64 kilobits"),
        _ => None,
    }
}

/// Cartridge hardware by type code.
pub open spec fn spec_cart_type_name(code: u8) -> Option<Seq<char>> {
    match code {
        0x00 => Some("ROM Only"@),
        0x01 => Some("MBC1"@),
        0x02 => Some("MBC1+RAM"@),
        0x03 => Some("MBC1+RAM+BATTERY"@),
        0x05 => Some("MBC2"@),
        0x06 => Some("MBC2+BATTERY"@),
        0x08 => Some("ROM+RAM 1"@),
        0x09 => Some("ROM+RAM+BATTERY 1"@),
        0x0B => Some("MMM01"@),
        0x0C => Some("MMM01+RAM"@),
        0x0D => Some("MMM01+RAM+BATTERY"@),
        0x0F => Some("MBC3+TIMER+BATTERY"@),
        0x10 => Some("MBC3+TIMER+RAM+BATTERY 2"@),
        0x11 => Some("MBC3"@),
        0x12 => Some("MBC3+RAM 2"@),
        0x13 => Some("MBC3+RAM+BATTERY 2"@),
        0x19 => Some("MBC5"@),
        0x1A => Some("MBC5+RAM"@),
        0x1B => Some("MBC5+RAM+BATTERY"@),
        0x1C => Some("MBC5+RUMBLE"@),
        0x1D => Some("MBC5+RUMBLE+RAM"@),
        0x1E => Some("MBC5+RUMBLE+RAM+BATTERY"@),
        0x20 => Some("MBC6"@),
        0x22 => Some("MBC7+SENSOR+RUMBLE+RAM+BATTERY"@),
        0xFC => Some("POCKET CAMERA"@),
        0xFD => Some("BANDAI TAMA5"@),
        0xFE => Some("HuC3"@),
        0xFF => Some("HuC1+RAM+BATTERY"@),
        _ => None,
    }
}

/// Name of the cartridge hardware with type code `code`.
pub fn match_cart_type(code: u8) -> (r: Option<&'static str>)
    ensures
        r is Some == spec_cart_type_name(code) is Some,
        r matches Some(s) ==> s@ == spec_cart_type_name(code).unwrap(),
{
    match code {
        0x00 => Some("ROM Only"),
        0x01 => Some("MBC1"),
        0x02 => Some("MBC1+RAM"),
        0x03 => Some("MBC1+RAM+BATTERY"),
        0x05 => Some("MBC2"),
        0x06 => Some("MBC2+BATTERY"),
        0x08 => Some("ROM+RAM 1"),
        0x09 => Some("ROM+RAM+BATTERY 1"),
        0x0B => Some("MMM01"),
        0x0C => Some("MMM01+RAM"),
        0x0D => Some("MMM01+RAM+BATTERY"),
        0x0F => Some("MBC3+TIMER+BATTERY"),
        0x10 => Some("MBC3+TIMER+RAM+BATTERY 2"),
        0x11 => Some("MBC3"),
        0x12 => Some("MBC3+RAM 2"),
        0x13 => Some("MBC3+RAM+BATTERY 2"),
        0x19 => Some("MBC5"),
        0x1A => Some("MBC5+RAM"),
        0x1B => Some("MBC5+RAM+BATTERY"),
        0x1C => Some("MBC5+RUMBLE"),
        0x1D => Some("MBC5+RUMBLE+RAM"),
        0x1E => Some("MBC5+RUMBLE+RAM+BATTERY"),
        0x20 => Some("MBC6"),
        0x22 => Some("MBC7+SENSOR+RUMBLE+RAM+BATTERY"),
        0xFC => Some("POCKET CAMERA"),
        0xFD => Some("BANDAI TAMA5"),
        0xFE => Some("HuC3"),
        0xFF => Some("HuC1+RAM+BATTERY"),
        _ => None,
    }
}

/// Developer names by licensee code.
pub open spec fn spec_developer_name(code: u8) -> Option<Seq<char>> {
    match code {
        0x01 => Some("Nintendo"@),
        0x08 => Some("Capcom"@),
        0x09 => Some("Hot-B"@),
        0x0A => Some("Jaleco"@),
        0x0B => Some("Coconuts"@),
        0x0C => Some("Elite Systems"@),
        0x13 => Some("Electronic Arts"@),
        0x18 => Some("Hudson Soft"@),
        0x19 => Some("b-ai or itc entertainment"@),
        0x1A => Some("Yanoman"@),
        0x1D => Some("clary"@),
        0x1F => Some("Virgin"@),
        0x20 => Some("kss"@),
        0x22 => Some("pow"@),
        0x24 => Some("PCM Complete"@),
        0x25 => Some("san-x"@),
        0x28 => Some("Kemco Japan or kotobuki systems"@),
        0x29 => Some("seta"@),
        0x30 => Some("Viacom or Infogrames"@),
        0x31 => Some("Nintendo"@),
        0x32 => Some("Bandai"@),
        0x33 => Some("Ocean/Acclaim"@),
        0x34 => Some("Konami"@),
        0x35 => Some("Hector"@),
        0x37 => Some("Taito"@),
        0x38 => Some("Hudson or Capcom"@),
        0x39 => Some("Banpresto"@),
        0x3C => Some("*entertainment i"@),
        0x3E => Some("gremlin"@),
        0x41 => Some("Ubi Soft"@),
        0x42 => Some("Atlus"@),
        0x44 => Some("Malibu"@),
        0x46 => Some("angel"@),
        0x47 => Some("Bullet-Proof or spectrum holoby"@),
        0x49 => Some("irem"@),
        0x4A => Some("virgin"@),
        0x4D => Some("malibu"@),
        0x4F => Some("u.s. gold"@),
        0x50 => Some("Absolute"@),
        0x51 => Some("Acclaim"@),
        0x52 => Some("Activision"@),
        0x53 => Some("American sammy"@),
        0x54 => Some("Konami or Gametek"@),
        0x55 => Some("Hi tech entertainment or Park Place"@),
        0x56 => Some("LJN"@),
        0x57 => Some("Matchbox"@),
        0x58 => Some("Mattel"@),
        0x59 => Some("Milton Bradley"@),
        0x5A => Some("mindscape"@),
        0x5B => Some("romstar"@),
        0x5C => Some("naxat soft"@),
        0x5D => Some("tradewest"@),
        0x60 => Some("Titus"@),
        0x61 => Some("Virgin"@),
        0x64 => Some("LucasArts"@),
        0x67 => Some("Ocean"@),
        0x69 => Some("Electronic Arts"@),
        0x6E => Some("Elite Systems"@),
        0x6F => Some("Electro Brain"@),
        0x70 => Some("Infogrames"@),
        0x71 => Some("Interplay"@),
        0x72 => Some("Broderbund"@),
        0x73 => Some("sculptured"@),
        0x75 => Some("the sales curve or sci"@),
        0x78 => Some("THQ"@),
        0x79 => Some("Accolade"@),
        0x7A => Some("Triffix Entertainment"@),
        0x7C => Some("Microprose"@),
        0x7F => Some("Kemco"@),
        0x80 => Some("misawa"@),
        0x83 => Some("lozc"@),
        0x86 => Some("Tokuma Shoten Intermedia"@),
        0x87 => Some("Tsukuda Original"@),
        0x8B => Some("bullet-proof software"@),
        0x8C => Some("Vic Tokai"@),
        0x8E => Some("Ape"@),
        0x8F => Some("i'max"@),
        0x91 => Some("Chunsoft"@),
        0x92 => Some("Video system or Ocean/Acclaim"@),
        0x93 => Some("tsuburava"@),
        0x95 => Some("Varie"@),
        0x96 => Some("Yonezawa/s’pal"@),
        0x97 => Some("Kaneko"@),
        0x99 => Some("Pack in soft or arc"@),
        0x9A => Some("Nihon Bussan"@),
        0x9B => Some("Tecmo"@),
        0x9C => Some("Imagineer"@),
        0x9D => Some("Banpresto"@),
        0x9F => Some("Nova"@),
        0xA1 => Some("Hori Electric"@),
        0xA2 => Some("Bandai"@),
        0xA4 => Some("Konami (Yu-Gi-Oh!)"@),
        0xA6 => Some("kawada"@),
        0xA7 => Some("takara"@),
        0xA9 => Some("technos japan"@),
        0xAA => Some("Broderbund"@),
        0xAC => Some("Toei Animation"@),
        0xAD => Some("Toho"@),
        0xAF => Some("Namco"@),
        0xB0 => Some("acclaim"@),
        0xB1 => Some("ascii or nexoft"@),
        0xB2 => Some("bandai"@),
        0xB4 => Some("enix"@),
        0xB6 => Some("hal"@),
        0xB7 => Some("snk"@),
        0xB9 => Some("pony canyon"@),
        0xBA => Some("*culture brain o"@),
        0xBB => Some("sunsoft"@),
        0xBD => Some("sony imagesoft"@),
        0xBF => Some("sammy"@),
        0xC0 => Some("taito"@),
        0xC2 => Some("kemco"@),
        0xC3 => Some("squaresoft"@),
        0xC4 => Some("*tokuma shoten i"@),
        0xC5 => Some("data east"@),
        0xC6 => Some("tonkin house"@),
        0xC8 => Some("koei"@),
        0xC9 => Some("ufl"@),
        0xCA => Some("ultra"@),
        0xCB => Some("vap"@),
        0xCC => Some("use"@),
        0xCD => Some("meldac"@),
        0xCE => Some("*pony canyon or"@),
        0xCF => Some("angel"@),
        0xD0 => Some("taito"@),
        0xD1 => Some("sofel"@),
        0xD2 => Some("quest"@),
        0xD3 => Some("sigma enterprises"@),
        0xD4 => Some("ask kodansha"@),
        0xD6 => Some("naxat soft"@),
        0xD7 => Some("copya systems"@),
        0xD9 => Some("banpresto"@),
        0xDA => Some("tomy"@),
        0xDB => Some("ljn"@),
        0xDD => Some("ncs"@),
        0xDE => Some("human"@),
        0xDF => Some("altron"@),
        0xE0 => Some("jaleco"@),
        0xE1 => Some("towachiki"@),
        0xE2 => Some("uutaka"@),
        0xE3 => Some("varie"@),
        0xE5 => Some("epoch"@),
        0xE7 => Some("athena"@),
        0xE8 => Some("asmik"@),
        0xE9 => Some("natsume"@),
        0xEA => Some("king records"@),
        0xEB => Some("atlus"@),
        0xEC => Some("epic/sony records"@),
        0xEE => Some("igs"@),
        0xF0 => Some("a wave"@),
        0xF3 => Some("extreme entertainment"@),
        0xFF => Some("ljn"@),
        _ => None,
    }
}

/// Name of the developer with licensee code `code`.
pub fn match_developer(code: u8) -> (r: Option<&'static str>)
    ensures
        r is Some == spec_developer_name(code) is Some,
        r matches Some(s) ==> s@ == spec_developer_name(code).unwrap(),
{
    match code {
        0x01 => Some("Nintendo"),
        0x08 => Some("Capcom"),
        0x09 => Some("Hot-B"),
        0x0A => Some("Jaleco"),
        0x0B => Some("Coconuts"),
        0x0C => Some("Elite Systems"),
        0x13 => Some("Electronic Arts"),
        0x18 => Some("Hudson Soft"),
        0x19 => Some("b-ai or itc entertainment"),
        0x1A => Some("Yanoman"),
        0x1D => Some("clary"),
        0x1F => Some("Virgin"),
        0x20 => Some("kss"),
        0x22 => Some("pow"),
        0x24 => Some("PCM Complete"),
        0x25 => Some("san-x"),
        0x28 => Some("Kemco Japan or kotobuki systems"),
        0x29 => Some("seta"),
        0x30 => Some("Viacom or Infogrames"),
        0x31 => Some("Nintendo"),
        0x32 => Some("Bandai"),
        0x33 => Some("Ocean/Acclaim"),
        0x34 => Some("Konami"),
        0x35 => Some("Hector"),
        0x37 => Some("Taito"),
        0x38 => Some("Hudson or Capcom"),
        0x39 => Some("Banpresto"),
        0x3C => Some("*entertainment i"),
        0x3E => Some("gremlin"),
        0x41 => Some("Ubi Soft"),
        0x42 => Some("Atlus"),
        0x44 => Some("Malibu"),
        0x46 => Some("angel"),
        0x47 => Some("Bullet-Proof or spectrum holoby"),
        0x49 => Some("irem"),
        0x4A => Some("virgin"),
        0x4D => Some("malibu"),
        0x4F => Some("u.s. gold"),
        0x50 => Some("Absolute"),
        0x51 => Some("Acclaim"),
        0x52 => Some("Activision"),
        0x53 => Some("American sammy"),
        0x54 => Some("Konami or Gametek"),
        0x55 => Some("Hi tech entertainment or Park Place"),
        0x56 => Some("LJN"),
        0x57 => Some("Matchbox"),
        0x58 => Some("Mattel"),
        0x59 => Some("Milton Bradley"),
        0x5A => Some("mindscape"),
        0x5B => Some("romstar"),
        0x5C => Some("naxat soft"),
        0x5D => Some("tradewest"),
        0x60 => Some("Titus"),
        0x61 => Some("Virgin"),
        0x64 => Some("LucasArts"),
        0x67 => Some("Ocean"),
        0x69 => Some("Electronic Arts"),
        0x6E => Some("Elite Systems"),
        0x6F => Some("Electro Brain"),
        0x70 => Some("Infogrames"),
        0x71 => Some("Interplay"),
        0x72 => Some("Broderbund"),
        0x73 => Some("sculptured"),
        0x75 => Some("the sales curve or sci"),
        0x78 => Some("THQ"),
        0x79 => Some("Accolade"),
        0x7A => Some("Triffix Entertainment"),
        0x7C => Some("Microprose"),
        0x7F => Some("Kemco"),
        0x80 => Some("misawa"),
        0x83 => Some("lozc"),
        0x86 => Some("Tokuma Shoten Intermedia"),
        0x87 => Some("Tsukuda Original"),
        0x8B => Some("bullet-proof software"),
        0x8C => Some("Vic Tokai"),
        0x8E => Some("Ape"),
        0x8F => Some("i'max"),
        0x91 => Some("Chunsoft"),
        0x92 => Some("Video system or Ocean/Acclaim"),
        0x93 => Some("tsuburava"),
        0x95 => Some("Varie"),
        0x96 => Some("Yonezawa/s’pal"),
        0x97 => Some("Kaneko"),
        0x99 => Some("Pack in soft or arc"),
        0x9A => Some("Nihon Bussan"),
        0x9B => Some("Tecmo"),
        0x9C => Some("Imagineer"),
        0x9D => Some("Banpresto"),
        0x9F => Some("Nova"),
        0xA1 => Some("Hori Electric"),
        0xA2 => Some("Bandai"),
        0xA4 => Some("Konami (Yu-Gi-Oh!)"),
        0xA6 => Some("kawada"),
        0xA7 => Some("takara"),
        0xA9 => Some("technos japan"),
        0xAA => Some("Broderbund"),
        0xAC => Some("Toei Animation"),
        0xAD => Some("Toho"),
        0xAF => Some("Namco"),
        0xB0 => Some("acclaim"),
        0xB1 => Some("ascii or nexoft"),
        0xB2 => Some("bandai"),
        0xB4 => Some("enix"),
        0xB6 => Some("hal"),
        0xB7 => Some("snk"),
        0xB9 => Some("pony canyon"),
        0xBA => Some("*culture brain o"),
        0xBB => Some("sunsoft"),
        0xBD => Some("sony imagesoft"),
        0xBF => Some("sammy"),
        0xC0 => Some("taito"),
        0xC2 => Some("kemco"),
        0xC3 => Some("squaresoft"),
        0xC4 => Some("*tokuma shoten i"),
        0xC5 => Some("data east"),
        0xC6 => Some("tonkin house"),
        0xC8 => Some("koei"),
        0xC9 => Some("ufl"),
        0xCA => Some("ultra"),
        0xCB => Some("vap"),
        0xCC => Some("use"),
        0xCD => Some("meldac"),
        0xCE => Some("*pony canyon or"),
        0xCF => Some("angel"),
        0xD0 => Some("taito"),
        0xD1 => Some("sofel"),
        0xD2 => Some("quest"),
        0xD3 => Some("sigma enterprises"),
        0xD4 => Some("ask kodansha"),
        0xD6 => Some("naxat soft"),
        0xD7 => Some("copya systems"),
        0xD9 => Some("banpresto"),
        0xDA => Some("tomy"),
        0xDB => Some("ljn"),
        0xDD => Some("ncs"),
        0xDE => Some("human"),
        0xDF => Some("altron"),
        0xE0 => Some("jaleco"),
        0xE1 => Some("towachiki"),
        0xE2 => Some("uutaka"),
        0xE3 => Some("varie"),
        0xE5 => Some("epoch"),
        0xE7 => Some("athena"),
        0xE8 => Some("asmik"),
        0xE9 => Some("natsume"),
        0xEA => Some("king records"),
        0xEB => Some("atlus"),
        0xEC => Some("epic/sony records"),
        0xEE => Some("igs"),
        0xF0 => Some("a wave"),
        0xF3 => Some("extreme entertainment"),
        0xFF => Some("ljn"),
        _ => None,
    }
}

} // verus!
