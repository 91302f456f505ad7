//! NES cartridges: bus accesses, mirroring detection and the iNES header.
use vstd::prelude::*;

use crate::opcodes::{
    ADDR_SET, CTL_RD, DICT_NES, DICT_PINPORT, DISCRETE_EXP0_PRGROM_WR, NES_CPU_RD, NES_CPU_WR,
    NES_MMC1_WR, NES_PPU_RD, NES_PPU_WR, PIN_CIA10,
};
use crate::pinport::{addr_set, ctl_rd};
use crate::nes_mappers::{cnrom, mmc1, mmc3, nrom, unrom};
use crate::session::Step;
use crate::text::{lower_of, lowercase, same_text};
use crate::transport::{read_device, spec_request, ControlRequest, DumpError};

verus! {

/// Writes `misc` to PRG-ROM at `operand` with EXP0 driven, for discrete
/// mappers' flash commands.
pub fn discrete_exp0_prgrom_wr(operand: u16, misc: u8) -> (r: ControlRequest)
    ensures
        r == spec_request(DICT_NES, DISCRETE_EXP0_PRGROM_WR, operand, misc, 1, true),
{
    read_device(DICT_NES, DISCRETE_EXP0_PRGROM_WR, operand, misc, 1)
}

/// Reads the CPU bus at `operand`; one data byte.
pub fn cpu_rd(operand: u16) -> (r: ControlRequest)
    ensures
        r == spec_request(DICT_NES, NES_CPU_RD, operand, 0, 3, true),
{
    read_device(DICT_NES, NES_CPU_RD, operand, 0, 3)
}

/// Writes `misc` to the CPU bus at `operand`.
pub fn cpu_wr(operand: u16, misc: u8) -> (r: ControlRequest)
    ensures
        r == spec_request(DICT_NES, NES_CPU_WR, operand, misc, 1, true),
{
    read_device(DICT_NES, NES_CPU_WR, operand, misc, 1)
}

/// Writes `misc` to an MMC1 register at `operand` through its serial port.
pub fn mmc1_wr(operand: u16, misc: u8) -> (r: ControlRequest)
    ensures
        r == spec_request(DICT_NES, NES_MMC1_WR, operand, misc, 1, true),
{
    read_device(DICT_NES, NES_MMC1_WR, operand, misc, 1)
}

/// Reads the PPU bus at `operand`; one data byte.
pub fn ppu_rd(operand: u16) -> (r: ControlRequest)
    ensures
        r == spec_request(DICT_NES, NES_PPU_RD, operand, 0, 3, true),
{
    read_device(DICT_NES, NES_PPU_RD, operand, 0, 3)
}

/// Writes `misc` to the PPU bus at `operand`.
pub fn ppu_wr(operand: u16, misc: u8) -> (r: ControlRequest)
    ensures
        r == spec_request(DICT_NES, NES_PPU_WR, operand, misc, 1, true),
{
    read_device(DICT_NES, NES_PPU_WR, operand, misc, 1)
}

/// Nametable mirroring of a cartridge.
#[derive(Debug, Clone, Copy, PartialEq, Eq, Structural)]
pub enum Mirroring {
    VERT,
    HORZ,
    SCNA,
    SCNB,
}

pub open spec fn spec_mirroring(read_h: u16, read_v: u16) -> Mirroring {
    if read_h == 0 && read_v == 0 {
        Mirroring::SCNA
    } else if read_h != 0 && read_v == 0 {
        Mirroring::VERT
    } else if read_h == 0 && read_v != 0 {
        Mirroring::HORZ
    } else {
        Mirroring::SCNB
    }
}

/// Classifies the two CIRAM A10 readings: both low is one-screen A, both high
/// one-screen B, only `read_h` high vertical, only `read_v` high horizontal.
pub fn classify_mirroring(read_h: u16, read_v: u16) -> (r: Mirroring)
    ensures
        r == spec_mirroring(read_h, read_v),
{
    if read_h == 0 && read_v == 0 {
        Mirroring::SCNA
    } else if read_h != 0 && read_v == 0 {
        Mirroring::VERT
    } else if read_h == 0 && read_v != 0 {
        Mirroring::HORZ
    } else {
        Mirroring::SCNB
    }
}

pub open spec fn spec_detect_mirroring() -> Seq<Step> {
    seq![
        Step::Transfer(spec_request(DICT_PINPORT, ADDR_SET, 0x0800, 0, 1, true)),
        Step::Transfer(spec_request(DICT_PINPORT, CTL_RD, PIN_CIA10, 0, 4, true)),
        Step::Transfer(spec_request(DICT_PINPORT, ADDR_SET, 0x0400, 0, 1, true)),
        Step::Transfer(spec_request(DICT_PINPORT, CTL_RD, PIN_CIA10, 0, 4, true)),
    ]
}

/// The transfers that sense mirroring: with address 0x0800 and then 0x0400
/// on the bus, read CIRAM A10. Their readback is four bytes: the first
/// reading, low byte first, then the second.
pub fn detect_mapper_mirroring() -> (r: Vec<Step>)
    ensures
        r@ == spec_detect_mirroring(),
{
    let mut r: Vec<Step> = Vec::new();
    r.push(Step::Transfer(addr_set(0x0800)));
    r.push(Step::Transfer(ctl_rd(PIN_CIA10)));
    r.push(Step::Transfer(addr_set(0x0400)));
    r.push(Step::Transfer(ctl_rd(PIN_CIA10)));
    assert(r@ =~= spec_detect_mirroring());
    r
}

/// Mirroring from the readback of `detect_mapper_mirroring`; a readback of
/// another length is a transport failure.
pub fn mirroring_from_readback(rb: &[u8]) -> (r: Result<Mirroring, DumpError>)
    ensures
        rb@.len() != 4 ==> r == Err::<Mirroring, DumpError>(DumpError::Transport),
        rb@.len() == 4 ==> r == Ok::<Mirroring, DumpError>(
            spec_mirroring(
                (rb@[1] as int * 256 + rb@[0] as int) as u16,
                (rb@[3] as int * 256 + rb@[2] as int) as u16,
            ),
        ),
{
    if rb.len() != 4 {
        return Err(DumpError::Transport);
    }
    let read_h: u16 = (rb[1] as u16) * 256 + rb[0] as u16;
    let read_v: u16 = (rb[3] as u16) * 256 + rb[2] as u16;
    Ok(classify_mirroring(read_h, read_v))
}

pub open spec fn spec_ram_sense(addr: u16) -> Seq<Step> {
    seq![
        Step::Transfer(spec_request(DICT_NES, NES_PPU_WR, addr, 0xAA, 1, true)),
        Step::Transfer(spec_request(DICT_NES, NES_PPU_RD, addr, 0, 3, true)),
        Step::Transfer(spec_request(DICT_NES, NES_PPU_WR, addr, 0x55, 1, true)),
        Step::Transfer(spec_request(DICT_NES, NES_PPU_RD, addr, 0, 3, true)),
    ]
}

/// The transfers that test for RAM on the PPU bus at `addr`: write 0xAA and
/// read it back, then 0x55 and read it back.
pub fn ppu_ram_sense(addr: u16) -> (r: Vec<Step>)
    ensures
        r@ == spec_ram_sense(addr),
{
    let mut r: Vec<Step> = Vec::new();
    r.push(Step::Transfer(ppu_wr(addr, 0xAA)));
    r.push(Step::Transfer(ppu_rd(addr)));
    r.push(Step::Transfer(ppu_wr(addr, 0x55)));
    r.push(Step::Transfer(ppu_rd(addr)));
    assert(r@ =~= spec_ram_sense(addr));
    r
}

/// Whether the readback of `ppu_ram_sense` shows RAM: both patterns read back.
pub fn ram_sensed(rb: &[u8]) -> (r: bool)
    ensures
        r == (rb@.len() == 2 && rb@[0] == 0xAA && rb@[1] == 0x55),
{
    rb.len() == 2 && rb[0] == 0xAA && rb[1] == 0x55
}

/// The 16-byte iNES header: magic, PRG size in 16 KB units, CHR size in 8 KB
/// units, mapper low nibble and mirroring bit, mapper high nibble, padding.
pub open spec fn spec_ines_header(prg_size: u16, chr_size: u16, mapper: u8, mirroring: Mirroring) -> Seq<u8> {
    seq![
        0x4E, 0x45, 0x53, 0x1A,
        ((prg_size / 16) as int % 256) as u8,
        ((chr_size / 8) as int % 256) as u8,
        ((mapper % 16) * 16 + if mirroring == Mirroring::VERT { 1int } else { 0int }) as u8,
        ((mapper / 16) * 16) as u8,
        0u8, 0u8, 0u8, 0u8, 0u8, 0u8, 0u8, 0u8,
    ]
}

/// Builds the iNES header for a dump of `prg_size` KB of PRG-ROM and
/// `chr_size` KB of CHR-ROM.
pub fn create_header(prg_size: u16, chr_size: u16, mapper: u8, mirroring: Mirroring) -> (r: Vec<u8>)
    ensures
        r@ == spec_ines_header(prg_size, chr_size, mapper, mirroring),
{
    let mut r: Vec<u8> = Vec::new();
    r.push(0x4E);
    r.push(0x45);
    r.push(0x53);
    r.push(0x1A);
    r.push(((prg_size / 16) % 256) as u8);
    r.push(((chr_size / 8) % 256) as u8);
    let vert: u8 = if mirroring == Mirroring::VERT {
        1
    } else {
        0
    };
    r.push((mapper % 16) * 16 + vert);
    r.push((mapper / 16) * 16);
    r.push(0);
    r.push(0);
    r.push(0);
    r.push(0);
    r.push(0);
    r.push(0);
    r.push(0);
    r.push(0);
    assert(r@ =~= spec_ines_header(prg_size, chr_size, mapper, mirroring));
    r
}

/// The NES mappers this host dumps.
#[derive(Debug, Clone, Copy, PartialEq, Eq, Structural)]
pub enum NesMapper {
    Nrom,
    Mmc1,
    Unrom,
    Cnrom,
    Mmc3,
}

/// The mapper a lower-case name stands for.
pub open spec fn spec_mapper_named(s: Seq<char>) -> Option<NesMapper> {
    if s == "nrom"@ {
        Some(NesMapper::Nrom)
    } else if s == "mmc1"@ {
        Some(NesMapper::Mmc1)
    } else if s == "unrom"@ {
        Some(NesMapper::Unrom)
    } else if s == "cnrom"@ {
        Some(NesMapper::Cnrom)
    } else if s == "mmc3"@ {
        Some(NesMapper::Mmc3)
    } else {
        None
    }
}

/// The mapper named by `lower`, a name already in lower case.
pub fn mapper_named(lower: &String) -> (r: Option<NesMapper>)
    ensures
        r == spec_mapper_named(lower@),
{
    if same_text(lower, "nrom") {
        Some(NesMapper::Nrom)
    } else if same_text(lower, "mmc1") {
        Some(NesMapper::Mmc1)
    } else if same_text(lower, "unrom") {
        Some(NesMapper::Unrom)
    } else if same_text(lower, "cnrom") {
        Some(NesMapper::Cnrom)
    } else if same_text(lower, "mmc3") {
        Some(NesMapper::Mmc3)
    } else {
        None
    }
}

/// The mapper named by `name`, in any case.
pub fn parse_mapper(name: &str) -> (r: Option<NesMapper>)
    ensures
        r == spec_mapper_named(lower_of(name@)),
{
    let lower = lowercase(name);
    mapper_named(&lower)
}

pub open spec fn spec_mapper_number(m: NesMapper) -> u8 {
    match m {
        NesMapper::Nrom => 0,
        NesMapper::Mmc1 => 1,
        NesMapper::Unrom => 2,
        NesMapper::Cnrom => 3,
        NesMapper::Mmc3 => 4,
    }
}

/// The iNES mapper number.
pub fn mapper_number(m: NesMapper) -> (r: u8)
    ensures
        r == spec_mapper_number(m),
{
    match m {
        NesMapper::Nrom => 0,
        NesMapper::Mmc1 => 1,
        NesMapper::Unrom => 2,
        NesMapper::Cnrom => 3,
        NesMapper::Mmc3 => 4,
    }
}

/// Whether mirroring is sensed before the dump; MMC1 sets it in software
/// and its header always says horizontal.
pub open spec fn spec_senses_mirroring(m: NesMapper) -> bool {
    m != NesMapper::Mmc1
}

/// The mirroring the header records: the sensed one, or horizontal for MMC1.
pub fn header_mirroring(m: NesMapper, sensed: Mirroring) -> (r: Mirroring)
    ensures
        r == if spec_senses_mirroring(m) { sensed } else { Mirroring::HORZ },
{
    match m {
        NesMapper::Mmc1 => Mirroring::HORZ,
        _ => sensed,
    }
}

pub open spec fn spec_probe(m: NesMapper) -> Seq<Step> {
    match m {
        NesMapper::Nrom => nrom::spec_test_nrom(),
        NesMapper::Mmc1 => mmc1::spec_test_mmc1(),
        NesMapper::Unrom => unrom::spec_test_unrom(),
        NesMapper::Cnrom => cnrom::spec_test_cnrom(),
        NesMapper::Mmc3 => mmc3::spec_test_mmc3(),
    }
}

/// The flash-id probe of mapper `m`.
pub fn probe_plan(m: NesMapper) -> (r: Vec<Step>)
    ensures
        r@ == spec_probe(m),
{
    match m {
        NesMapper::Nrom => nrom::test_nrom(),
        NesMapper::Mmc1 => mmc1::test_mmc1(),
        NesMapper::Unrom => unrom::test_unrom(),
        NesMapper::Cnrom => cnrom::test_cnrom(),
        NesMapper::Mmc3 => mmc3::test_mmc3(),
    }
}

/// The dump of a cartridge with mapper `m`: PRG-ROM of `prg_size` KB, then
/// CHR-ROM of `chr_size` KB. MMC1 and MMC3 are initialised first; UNROM
/// writes banks through the bank table at `banktable_base` and has no
/// CHR-ROM to dump.
pub open spec fn spec_dump_nes(m: NesMapper, prg_size: u16, chr_size: u16, banktable_base: u16) -> Seq<Step> {
    match m {
        NesMapper::Nrom => nrom::spec_dump_prgrom(prg_size) + nrom::spec_dump_chrrom(chr_size),
        NesMapper::Mmc1 => mmc1::spec_init_mapper_mmc1() + mmc1::spec_prg_groups((prg_size / 32) as nat)
            + mmc1::spec_chr_groups((chr_size / 8) as nat),
        NesMapper::Unrom => unrom::spec_dump_prgrom_unrom(prg_size, banktable_base),
        NesMapper::Cnrom => nrom::spec_dump_prgrom(prg_size) + cnrom::spec_chr_groups((chr_size / 8) as nat),
        NesMapper::Mmc3 => mmc3::spec_init_mapper() + mmc3::spec_prg_groups((prg_size / 16) as nat)
            + mmc3::spec_chr_groups((chr_size / 4) as nat),
    }
}

/// The dump plan of a cartridge with mapper `m`.
pub fn dump_nes(m: NesMapper, prg_size: u16, chr_size: u16, banktable_base: u16) -> (r: Vec<Step>)
    ensures
        r@ == spec_dump_nes(m, prg_size, chr_size, banktable_base),
{
    match m {
        NesMapper::Nrom => {
            let mut r = nrom::dump_prgrom(prg_size);
            let mut c = nrom::dump_chrrom(chr_size);
            r.append(&mut c);
            r
        },
        NesMapper::Mmc1 => {
            let mut r = mmc1::init_mapper_mmc1();
            let mut p = mmc1::dump_prgrom_mmc1(prg_size);
            let mut c = mmc1::dump_chrrom_mmc1(chr_size);
            r.append(&mut p);
            r.append(&mut c);
            r
        },
        NesMapper::Unrom => unrom::dump_prgrom_unrom(prg_size, banktable_base),
        NesMapper::Cnrom => {
            let mut r = cnrom::dump_prgrom(prg_size);
            let mut c = cnrom::dump_chrrom(chr_size);
            r.append(&mut c);
            r
        },
        NesMapper::Mmc3 => {
            let mut r = mmc3::init_mapper();
            let mut p = mmc3::dump_prgrom(prg_size);
            let mut c = mmc3::dump_chrrom(chr_size);
            r.append(&mut p);
            r.append(&mut c);
            r
        },
    }
}

} // verus!
