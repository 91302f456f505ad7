//! NROM: no banking; PRG-ROM is read through the CPU window, CHR-ROM through
//! the PPU window.
use vstd::prelude::*;

use crate::opcodes::{NESCPU_4KB, NESPPU_1KB};
use crate::session::{dump, ChunkDump, Step};

use crate::nes::{cpu_rd, detect_mapper_mirroring, discrete_exp0_prgrom_wr, ppu_rd, ppu_wr, spec_detect_mirroring};
use crate::io::exp0_pullup_test;
use crate::opcodes::{DICT_IO, DICT_NES, DISCRETE_EXP0_PRGROM_WR, EXP0_PULLUP_TEST, NES_CPU_RD, NES_PPU_RD, NES_PPU_WR};
use crate::transport::spec_request;

verus! {

pub open spec fn spec_test_nrom() -> Seq<Step> {
    spec_detect_mirroring()
    + seq![
        Step::Transfer(spec_request(DICT_IO, EXP0_PULLUP_TEST, 0, 0, 3, true)),
        Step::Transfer(spec_request(DICT_NES, DISCRETE_EXP0_PRGROM_WR, 0x5555, 0xAA, 1, true)),
        Step::Transfer(spec_request(DICT_NES, DISCRETE_EXP0_PRGROM_WR, 0x2AAA, 0x55, 1, true)),
        Step::Transfer(spec_request(DICT_NES, DISCRETE_EXP0_PRGROM_WR, 0x5555, 0x90, 1, true)),
        Step::Transfer(spec_request(DICT_NES, NES_CPU_RD, 0x8000, 0, 3, true)),
        Step::Transfer(spec_request(DICT_NES, NES_CPU_RD, 0x8001, 0, 3, true)),
        Step::Transfer(spec_request(DICT_NES, DISCRETE_EXP0_PRGROM_WR, 0x8000, 0xF0, 1, true)),
        Step::Transfer(spec_request(DICT_NES, NES_PPU_WR, 0x1555, 0xAA, 1, true)),
        Step::Transfer(spec_request(DICT_NES, NES_PPU_WR, 0x0AAA, 0x55, 1, true)),
        Step::Transfer(spec_request(DICT_NES, NES_PPU_WR, 0x1555, 0x90, 1, true)),
        Step::Transfer(spec_request(DICT_NES, NES_PPU_RD, 0x0000, 0, 3, true)),
        Step::Transfer(spec_request(DICT_NES, NES_PPU_RD, 0x0001, 0, 3, true)),
        Step::Transfer(spec_request(DICT_NES, NES_PPU_WR, 0x0000, 0xF0, 1, true)),
    ]
}

/// Probes the cartridge: senses mirroring, tests the EXP0 pull-up, then reads
/// the manufacturer and product ids of the PRG-ROM flash (commands through
/// EXP0-driven writes) and of the CHR-ROM flash. The readback holds the
/// mirroring reading, the pull-up result, then the two PRG ids and the two
/// CHR ids.
pub fn test_nrom() -> (r: Vec<Step>)
    ensures
        r@ == spec_test_nrom(),
{
    let mut r: Vec<Step> = Vec::new();
    let mut part = detect_mapper_mirroring();
    r.append(&mut part);
    r.push(Step::Transfer(exp0_pullup_test()));
    r.push(Step::Transfer(discrete_exp0_prgrom_wr(0x5555, 0xAA)));
    r.push(Step::Transfer(discrete_exp0_prgrom_wr(0x2AAA, 0x55)));
    r.push(Step::Transfer(discrete_exp0_prgrom_wr(0x5555, 0x90)));
    r.push(Step::Transfer(cpu_rd(0x8000)));
    r.push(Step::Transfer(cpu_rd(0x8001)));
    r.push(Step::Transfer(discrete_exp0_prgrom_wr(0x8000, 0xF0)));
    r.push(Step::Transfer(ppu_wr(0x1555, 0xAA)));
    r.push(Step::Transfer(ppu_wr(0x0AAA, 0x55)));
    r.push(Step::Transfer(ppu_wr(0x1555, 0x90)));
    r.push(Step::Transfer(ppu_rd(0x0000)));
    r.push(Step::Transfer(ppu_rd(0x0001)));
    r.push(Step::Transfer(ppu_wr(0x0000, 0xF0)));
    assert(r@ =~= spec_test_nrom());
    r
}

/// Kilobytes per PRG-ROM dump: the whole 32 KB window, or less for a smaller
/// ROM.
pub open spec fn spec_prg_kb_per_read(rom_size_kb: u16) -> u16 {
    if rom_size_kb < 32 {
        rom_size_kb
    } else {
        32
    }
}

/// `n` dumps of the same window.
pub open spec fn spec_repeat_dump(n: nat, d: ChunkDump) -> Seq<Step>
    decreases n,
{
    if n == 0 {
        Seq::empty()
    } else {
        spec_repeat_dump((n - 1) as nat, d).push(Step::Dump(d))
    }
}

/// The PRG-ROM plan: `rom_size_kb / kb_per_read` dumps of the CPU window at
/// $8000, none for an empty ROM.
pub open spec fn spec_dump_prgrom(rom_size_kb: u16) -> Seq<Step> {
    let kb = spec_prg_kb_per_read(rom_size_kb);
    if kb == 0 {
        Seq::empty()
    } else {
        spec_repeat_dump((rom_size_kb / kb) as nat, ChunkDump { size_kb: kb, map: 0x08, mem: NESCPU_4KB })
    }
}

/// `n` copies of `d`.
pub fn repeat_dump(n: u16, d: ChunkDump) -> (r: Vec<Step>)
    ensures
        r@ == spec_repeat_dump(n as nat, d),
{
    let mut r: Vec<Step> = Vec::new();
    let mut i: u16 = 0;
    while i < n
        invariant
            i <= n,
            r@ == spec_repeat_dump(i as nat, d),
        decreases n - i,
    {
        r.push(dump(d.size_kb, d.map, d.mem));
        i = i + 1;
    }
    r
}

/// Dumps PRG-ROM of `rom_size_kb` KB in 32 KB reads (one read for a 16 KB
/// ROM).
pub fn dump_prgrom(rom_size_kb: u16) -> (r: Vec<Step>)
    ensures
        r@ == spec_dump_prgrom(rom_size_kb),
{
    let mut kb_per_read: u16 = 32;
    if rom_size_kb < kb_per_read {
        kb_per_read = rom_size_kb;
    }
    if kb_per_read == 0 {
        return Vec::new();
    }
    repeat_dump(rom_size_kb / kb_per_read, ChunkDump { size_kb: kb_per_read, map: 0x08, mem: NESCPU_4KB })
}

/// The CHR-ROM plan: one 8 KB dump of the PPU window per 8 KB.
pub open spec fn spec_dump_chrrom(rom_size_kb: u16) -> Seq<Step> {
    spec_repeat_dump((rom_size_kb / 8) as nat, ChunkDump { size_kb: 8, map: 0x00, mem: NESPPU_1KB })
}

/// Dumps CHR-ROM of `rom_size_kb` KB in 8 KB reads.
pub fn dump_chrrom(rom_size_kb: u16) -> (r: Vec<Step>)
    ensures
        r@ == spec_dump_chrrom(rom_size_kb),
{
    repeat_dump(rom_size_kb / 8, ChunkDump { size_kb: 8, map: 0x00, mem: NESPPU_1KB })
}

} // verus!
