//! MMC1: registers written one bit at a time through a serial port; PRG-ROM
//! switched in 32 KB banks, CHR-ROM in two 4 KB halves.
use vstd::prelude::*;

use crate::nes::{cpu_rd, cpu_wr, mmc1_wr};
use crate::opcodes::{DICT_NES, NES_CPU_RD, NES_CPU_WR, NES_MMC1_WR, NESCPU_4KB, NESPPU_1KB};
use crate::session::{dump, ChunkDump, Step};
use crate::transport::spec_request;

use crate::nes::{detect_mapper_mirroring, ppu_ram_sense, ppu_rd, ppu_wr, spec_detect_mirroring, spec_ram_sense};
use crate::io::exp0_pullup_test;
use crate::opcodes::{DICT_IO, EXP0_PULLUP_TEST, NES_PPU_RD, NES_PPU_WR};

verus! {

pub open spec fn spec_test_mmc1() -> Seq<Step> {
    spec_init_mapper_mmc1()
    + seq![
        Step::Transfer(spec_request(DICT_NES, NES_MMC1_WR, 0x8000, 0x00, 1, true)),
    ]
    + spec_detect_mirroring()
    + seq![
        Step::Transfer(spec_request(DICT_NES, NES_MMC1_WR, 0x8000, 0x01, 1, true)),
    ]
    + spec_detect_mirroring()
    + seq![
        Step::Transfer(spec_request(DICT_NES, NES_MMC1_WR, 0x8000, 0x02, 1, true)),
    ]
    + spec_detect_mirroring()
    + seq![
        Step::Transfer(spec_request(DICT_NES, NES_MMC1_WR, 0x8000, 0x03, 1, true)),
    ]
    + spec_detect_mirroring()
    + spec_ram_sense(0x1000)
    + seq![
        Step::Transfer(spec_request(DICT_IO, EXP0_PULLUP_TEST, 0, 0, 3, true)),
    ]
    + spec_init_mapper_mmc1()
    + seq![
        Step::Transfer(spec_request(DICT_NES, NES_CPU_WR, 0xD555, 0xAA, 1, true)),
        Step::Transfer(spec_request(DICT_NES, NES_CPU_WR, 0xAAAA, 0x55, 1, true)),
        Step::Transfer(spec_request(DICT_NES, NES_CPU_WR, 0xD555, 0x90, 1, true)),
        Step::Transfer(spec_request(DICT_NES, NES_CPU_RD, 0x8000, 0, 3, true)),
        Step::Transfer(spec_request(DICT_NES, NES_CPU_RD, 0x8001, 0, 3, true)),
        Step::Transfer(spec_request(DICT_NES, NES_CPU_WR, 0x8000, 0xF0, 1, true)),
    ]
    + spec_init_mapper_mmc1()
    + seq![
        Step::Transfer(spec_request(DICT_NES, NES_PPU_WR, 0x1555, 0xAA, 1, true)),
        Step::Transfer(spec_request(DICT_NES, NES_PPU_WR, 0x0AAA, 0x55, 1, true)),
        Step::Transfer(spec_request(DICT_NES, NES_PPU_WR, 0x1555, 0x90, 1, true)),
        Step::Transfer(spec_request(DICT_NES, NES_PPU_RD, 0x0000, 0, 3, true)),
        Step::Transfer(spec_request(DICT_NES, NES_PPU_RD, 0x0001, 0, 3, true)),
        Step::Transfer(spec_request(DICT_NES, NES_PPU_WR, 0x0000, 0xF0, 1, true)),
    ]
}

/// Probes the cartridge: sets each of the four mirroring modes and senses the
/// result, tests for CHR-RAM and the EXP0 pull-up, then reads the PRG-ROM and
/// CHR-ROM flash ids, re-initialising the mapper before each. The readback
/// holds one byte from each initialisation, the four mirroring readings, the
/// RAM-sense reads, the pull-up result, then the PRG and CHR ids.
pub fn test_mmc1() -> (r: Vec<Step>)
    ensures
        r@ == spec_test_mmc1(),
{
    let mut r: Vec<Step> = Vec::new();
    let mut part = init_mapper_mmc1();
    r.append(&mut part);
    r.push(Step::Transfer(mmc1_wr(0x8000, 0x00)));
    let mut part = detect_mapper_mirroring();
    r.append(&mut part);
    r.push(Step::Transfer(mmc1_wr(0x8000, 0x01)));
    let mut part = detect_mapper_mirroring();
    r.append(&mut part);
    r.push(Step::Transfer(mmc1_wr(0x8000, 0x02)));
    let mut part = detect_mapper_mirroring();
    r.append(&mut part);
    r.push(Step::Transfer(mmc1_wr(0x8000, 0x03)));
    let mut part = detect_mapper_mirroring();
    r.append(&mut part);
    let mut part = ppu_ram_sense(0x1000);
    r.append(&mut part);
    r.push(Step::Transfer(exp0_pullup_test()));
    let mut part = init_mapper_mmc1();
    r.append(&mut part);
    r.push(Step::Transfer(cpu_wr(0xD555, 0xAA)));
    r.push(Step::Transfer(cpu_wr(0xAAAA, 0x55)));
    r.push(Step::Transfer(cpu_wr(0xD555, 0x90)));
    r.push(Step::Transfer(cpu_rd(0x8000)));
    r.push(Step::Transfer(cpu_rd(0x8001)));
    r.push(Step::Transfer(cpu_wr(0x8000, 0xF0)));
    let mut part = init_mapper_mmc1();
    r.append(&mut part);
    r.push(Step::Transfer(ppu_wr(0x1555, 0xAA)));
    r.push(Step::Transfer(ppu_wr(0x0AAA, 0x55)));
    r.push(Step::Transfer(ppu_wr(0x1555, 0x90)));
    r.push(Step::Transfer(ppu_rd(0x0000)));
    r.push(Step::Transfer(ppu_rd(0x0001)));
    r.push(Step::Transfer(ppu_wr(0x0000, 0xF0)));
    assert(r@ =~= spec_test_mmc1());
    r
}

pub open spec fn spec_mmc1_wr(addr: u16, value: u8) -> Step {
    Step::Transfer(spec_request(DICT_NES, NES_MMC1_WR, addr, value, 1, true))
}

pub open spec fn spec_init_mapper_mmc1() -> Seq<Step> {
    seq![
        Step::Transfer(spec_request(DICT_NES, NES_CPU_RD, 0x8000, 0, 3, true)),
        Step::Transfer(spec_request(DICT_NES, NES_CPU_WR, 0x8000, 0x80, 1, true)),
        spec_mmc1_wr(0x8000, 0x10),
        spec_mmc1_wr(0xE000, 0x10),
        spec_mmc1_wr(0xA000, 0x12),
        spec_mmc1_wr(0xC000, 0x15),
    ]
}

/// Resets the shift register, then sets control, PRG and both CHR banks to a
/// known state.
pub fn init_mapper_mmc1() -> (r: Vec<Step>)
    ensures
        r@ == spec_init_mapper_mmc1(),
{
    let mut r: Vec<Step> = Vec::new();
    r.push(Step::Transfer(cpu_rd(0x8000)));
    r.push(Step::Transfer(cpu_wr(0x8000, 0x80)));
    r.push(Step::Transfer(mmc1_wr(0x8000, 0x10)));
    r.push(Step::Transfer(mmc1_wr(0xE000, 0x10)));
    r.push(Step::Transfer(mmc1_wr(0xA000, 0x12)));
    r.push(Step::Transfer(mmc1_wr(0xC000, 0x15)));
    assert(r@ =~= spec_init_mapper_mmc1());
    r
}

/// PRG bank `i` (32 KB): select it, then dump the CPU window.
pub open spec fn spec_prg_group(i: nat) -> Seq<Step> {
    seq![
        spec_mmc1_wr(0xE000, ((2 * i) % 256) as u8),
        Step::Dump(ChunkDump { size_kb: 32, map: 0x08, mem: NESCPU_4KB }),
    ]
}

pub open spec fn spec_prg_groups(n: nat) -> Seq<Step>
    decreases n,
{
    if n == 0 {
        Seq::empty()
    } else {
        spec_prg_groups((n - 1) as nat) + spec_prg_group((n - 1) as nat)
    }
}

/// Dumps PRG-ROM of `rom_size_kb` KB, 32 KB at a time.
pub fn dump_prgrom_mmc1(rom_size_kb: u16) -> (r: Vec<Step>)
    ensures
        r@ == spec_prg_groups((rom_size_kb / 32) as nat),
{
    let num_reads: u16 = rom_size_kb / 32;
    let mut r: Vec<Step> = Vec::new();
    let mut i: u16 = 0;
    while i < num_reads
        invariant
            i <= num_reads,
            num_reads == rom_size_kb / 32,
            r@ == spec_prg_groups(i as nat),
        decreases num_reads - i,
    {
        r.push(Step::Transfer(mmc1_wr(0xE000, ((2 * i) % 256) as u8)));
        r.push(dump(32, 0x08, NESCPU_4KB));
        i = i + 1;
        assert(r@ =~= spec_prg_groups(i as nat));
    }
    r
}

/// CHR bank pair `i` (8 KB): select both 4 KB halves, then dump the PPU
/// window.
pub open spec fn spec_chr_group(i: nat) -> Seq<Step> {
    seq![
        spec_mmc1_wr(0xA000, ((2 * i) % 256) as u8),
        spec_mmc1_wr(0xC000, ((2 * i + 1) % 256) as u8),
        Step::Dump(ChunkDump { size_kb: 8, map: 0x00, mem: NESPPU_1KB }),
    ]
}

pub open spec fn spec_chr_groups(n: nat) -> Seq<Step>
    decreases n,
{
    if n == 0 {
        Seq::empty()
    } else {
        spec_chr_groups((n - 1) as nat) + spec_chr_group((n - 1) as nat)
    }
}

/// Dumps CHR-ROM of `rom_size_kb` KB, 8 KB at a time.
pub fn dump_chrrom_mmc1(rom_size_kb: u16) -> (r: Vec<Step>)
    ensures
        r@ == spec_chr_groups((rom_size_kb / 8) as nat),
{
    let num_reads: u16 = rom_size_kb / 8;
    let mut r: Vec<Step> = Vec::new();
    let mut i: u16 = 0;
    while i < num_reads
        invariant
            i <= num_reads,
            num_reads == rom_size_kb / 8,
            r@ == spec_chr_groups(i as nat),
        decreases num_reads - i,
    {
        r.push(Step::Transfer(mmc1_wr(0xA000, ((2 * i) % 256) as u8)));
        r.push(Step::Transfer(mmc1_wr(0xC000, ((2 * i + 1) % 256) as u8)));
        r.push(dump(8, 0x00, NESPPU_1KB));
        i = i + 1;
        assert(r@ =~= spec_chr_groups(i as nat));
    }
    r
}

} // verus!
