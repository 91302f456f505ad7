//! MMC3: PRG-ROM in 8 KB banks and CHR-ROM in 1 and 2 KB banks, chosen by a
//! bank-select register at $8000 and a bank-data register at $8001.
use vstd::prelude::*;

use crate::nes::cpu_wr;
use crate::opcodes::{DICT_NES, NES_CPU_WR, NESCPU_4KB, NESPPU_1KB};
use crate::session::{dump, ChunkDump, Step};
use crate::transport::spec_request;

use crate::nes::{cpu_rd, detect_mapper_mirroring, ppu_ram_sense, ppu_rd, ppu_wr, spec_detect_mirroring, spec_ram_sense};
use crate::io::exp0_pullup_test;
use crate::opcodes::{DICT_IO, EXP0_PULLUP_TEST, NES_CPU_RD, NES_PPU_RD, NES_PPU_WR};

verus! {

pub open spec fn spec_test_mmc3() -> Seq<Step> {
    spec_init_mapper()
    + seq![
        Step::Transfer(spec_request(DICT_NES, NES_CPU_WR, 0xA000, 0x00, 1, true)),
    ]
    + spec_detect_mirroring()
    + seq![
        Step::Transfer(spec_request(DICT_NES, NES_CPU_WR, 0xA000, 0x01, 1, true)),
    ]
    + spec_detect_mirroring()
    + spec_ram_sense(0x1000)
    + seq![
        Step::Transfer(spec_request(DICT_IO, EXP0_PULLUP_TEST, 0, 0, 3, true)),
    ]
    + spec_init_mapper()
    + seq![
        Step::Transfer(spec_request(DICT_NES, NES_CPU_WR, 0xD555, 0xAA, 1, true)),
        Step::Transfer(spec_request(DICT_NES, NES_CPU_WR, 0xAAAA, 0x55, 1, true)),
        Step::Transfer(spec_request(DICT_NES, NES_CPU_WR, 0xD555, 0x90, 1, true)),
        Step::Transfer(spec_request(DICT_NES, NES_CPU_RD, 0x8000, 0, 3, true)),
        Step::Transfer(spec_request(DICT_NES, NES_CPU_RD, 0x8001, 0, 3, true)),
        Step::Transfer(spec_request(DICT_NES, NES_CPU_WR, 0x8000, 0xF0, 1, true)),
    ]
    + spec_init_mapper()
    + seq![
        Step::Transfer(spec_request(DICT_NES, NES_PPU_WR, 0x1555, 0xAA, 1, true)),
        Step::Transfer(spec_request(DICT_NES, NES_PPU_WR, 0x1AAA, 0x55, 1, true)),
        Step::Transfer(spec_request(DICT_NES, NES_PPU_WR, 0x1555, 0x90, 1, true)),
        Step::Transfer(spec_request(DICT_NES, NES_PPU_RD, 0x0000, 0, 3, true)),
        Step::Transfer(spec_request(DICT_NES, NES_PPU_RD, 0x0001, 0, 3, true)),
        Step::Transfer(spec_request(DICT_NES, NES_PPU_WR, 0x0000, 0xF0, 1, true)),
    ]
}

/// Probes the cartridge: sets vertical then horizontal mirroring and senses
/// each, tests for CHR-RAM and the EXP0 pull-up, then reads the PRG-ROM and
/// CHR-ROM flash ids, re-initialising the mapper before each. The readback
/// holds the two mirroring readings, the RAM-sense reads, the pull-up result,
/// then the PRG and CHR ids.
pub fn test_mmc3() -> (r: Vec<Step>)
    ensures
        r@ == spec_test_mmc3(),
{
    let mut r: Vec<Step> = Vec::new();
    let mut part = init_mapper();
    r.append(&mut part);
    r.push(Step::Transfer(cpu_wr(0xA000, 0x00)));
    let mut part = detect_mapper_mirroring();
    r.append(&mut part);
    r.push(Step::Transfer(cpu_wr(0xA000, 0x01)));
    let mut part = detect_mapper_mirroring();
    r.append(&mut part);
    let mut part = ppu_ram_sense(0x1000);
    r.append(&mut part);
    r.push(Step::Transfer(exp0_pullup_test()));
    let mut part = init_mapper();
    r.append(&mut part);
    r.push(Step::Transfer(cpu_wr(0xD555, 0xAA)));
    r.push(Step::Transfer(cpu_wr(0xAAAA, 0x55)));
    r.push(Step::Transfer(cpu_wr(0xD555, 0x90)));
    r.push(Step::Transfer(cpu_rd(0x8000)));
    r.push(Step::Transfer(cpu_rd(0x8001)));
    r.push(Step::Transfer(cpu_wr(0x8000, 0xF0)));
    let mut part = init_mapper();
    r.append(&mut part);
    r.push(Step::Transfer(ppu_wr(0x1555, 0xAA)));
    r.push(Step::Transfer(ppu_wr(0x1AAA, 0x55)));
    r.push(Step::Transfer(ppu_wr(0x1555, 0x90)));
    r.push(Step::Transfer(ppu_rd(0x0000)));
    r.push(Step::Transfer(ppu_rd(0x0001)));
    r.push(Step::Transfer(ppu_wr(0x0000, 0xF0)));
    assert(r@ =~= spec_test_mmc3());
    r
}

pub open spec fn spec_cpu_wr(addr: u16, value: u8) -> Step {
    Step::Transfer(spec_request(DICT_NES, NES_CPU_WR, addr, value, 1, true))
}

pub open spec fn spec_init_mapper() -> Seq<Step> {
    seq![
        spec_cpu_wr(0xA001, 0x40),
        spec_cpu_wr(0xA000, 0x00),
        spec_cpu_wr(0x8000, 0x00),
        spec_cpu_wr(0x8001, 0x00),
        spec_cpu_wr(0x8000, 0x01),
        spec_cpu_wr(0x8001, 0x02),
        spec_cpu_wr(0x8000, 0x02),
        spec_cpu_wr(0x8001, 0x15),
        spec_cpu_wr(0x8000, 0x03),
        spec_cpu_wr(0x8001, 0x15),
        spec_cpu_wr(0x8000, 0x04),
        spec_cpu_wr(0x8001, 0x0A),
        spec_cpu_wr(0x8000, 0x05),
        spec_cpu_wr(0x8001, 0x0A),
        spec_cpu_wr(0x8000, 0x07),
        spec_cpu_wr(0x8001, 0x01),
        spec_cpu_wr(0x8000, 0x06),
        spec_cpu_wr(0x8001, 0x00),
        spec_cpu_wr(0x8000, 0x00),
    ]
}

/// Puts the mapper in a known state: WRAM disabled and write-protected,
/// vertical mirroring, CHR banks laid out so that PT1 serves flash commands,
/// PRG banks 0 and 1 at $8000 and $A000, and the bank-select register left on
/// a CHR register so that later writes to $8000/1 cannot move PRG banks.
pub fn init_mapper() -> (r: Vec<Step>)
    ensures
        r@ == spec_init_mapper(),
{
    let mut r: Vec<Step> = Vec::new();
    r.push(Step::Transfer(cpu_wr(0xA001, 0x40)));
    r.push(Step::Transfer(cpu_wr(0xA000, 0x00)));
    r.push(Step::Transfer(cpu_wr(0x8000, 0x00)));
    r.push(Step::Transfer(cpu_wr(0x8001, 0x00)));
    r.push(Step::Transfer(cpu_wr(0x8000, 0x01)));
    r.push(Step::Transfer(cpu_wr(0x8001, 0x02)));
    r.push(Step::Transfer(cpu_wr(0x8000, 0x02)));
    r.push(Step::Transfer(cpu_wr(0x8001, 0x15)));
    r.push(Step::Transfer(cpu_wr(0x8000, 0x03)));
    r.push(Step::Transfer(cpu_wr(0x8001, 0x15)));
    r.push(Step::Transfer(cpu_wr(0x8000, 0x04)));
    r.push(Step::Transfer(cpu_wr(0x8001, 0x0A)));
    r.push(Step::Transfer(cpu_wr(0x8000, 0x05)));
    r.push(Step::Transfer(cpu_wr(0x8001, 0x0A)));
    r.push(Step::Transfer(cpu_wr(0x8000, 0x07)));
    r.push(Step::Transfer(cpu_wr(0x8001, 0x01)));
    r.push(Step::Transfer(cpu_wr(0x8000, 0x06)));
    r.push(Step::Transfer(cpu_wr(0x8001, 0x00)));
    r.push(Step::Transfer(cpu_wr(0x8000, 0x00)));
    assert(r@ =~= spec_init_mapper());
    r
}

/// PRG banks `2i` and `2i + 1` (16 KB): select them at $8000 and $A000, then
/// dump the CPU window.
pub open spec fn spec_prg_group(i: nat) -> Seq<Step> {
    seq![
        spec_cpu_wr(0x8000, 0x06),
        spec_cpu_wr(0x8001, ((2 * i) % 256) as u8),
        spec_cpu_wr(0x8000, 0x07),
        spec_cpu_wr(0x8001, ((2 * i + 1) % 256) as u8),
        Step::Dump(ChunkDump { size_kb: 16, map: 0x08, mem: NESCPU_4KB }),
    ]
}

pub open spec fn spec_prg_groups(n: nat) -> Seq<Step>
    decreases n,
{
    if n == 0 {
        Seq::empty()
    } else {
        spec_prg_groups((n - 1) as nat) + spec_prg_group((n - 1) as nat)
    }
}

/// Dumps PRG-ROM of `rom_size_kb` KB, 16 KB at a time.
pub fn dump_prgrom(rom_size_kb: u16) -> (r: Vec<Step>)
    ensures
        r@ == spec_prg_groups((rom_size_kb / 16) as nat),
{
    let num_reads: u16 = rom_size_kb / 16;
    let mut r: Vec<Step> = Vec::new();
    let mut i: u16 = 0;
    while i < num_reads
        invariant
            i <= num_reads,
            num_reads == rom_size_kb / 16,
            r@ == spec_prg_groups(i as nat),
        decreases num_reads - i,
    {
        r.push(Step::Transfer(cpu_wr(0x8000, 0x06)));
        r.push(Step::Transfer(cpu_wr(0x8001, ((2 * i) % 256) as u8)));
        r.push(Step::Transfer(cpu_wr(0x8000, 0x07)));
        r.push(Step::Transfer(cpu_wr(0x8001, ((2 * i + 1) % 256) as u8)));
        r.push(dump(16, 0x08, NESCPU_4KB));
        i = i + 1;
        assert(r@ =~= spec_prg_groups(i as nat));
    }
    r
}

/// CHR 2 KB banks `2i` and `2i + 1` (4 KB): select them at PPU $0000 and
/// $0800, then dump the PPU window. The bank numbers count 1 KB units.
pub open spec fn spec_chr_group(i: nat) -> Seq<Step> {
    seq![
        spec_cpu_wr(0x8000, 0x00),
        spec_cpu_wr(0x8001, ((4 * i) % 256) as u8),
        spec_cpu_wr(0x8000, 0x01),
        spec_cpu_wr(0x8001, ((4 * i + 2) % 256) as u8),
        Step::Dump(ChunkDump { size_kb: 4, map: 0x00, mem: NESPPU_1KB }),
    ]
}

pub open spec fn spec_chr_groups(n: nat) -> Seq<Step>
    decreases n,
{
    if n == 0 {
        Seq::empty()
    } else {
        spec_chr_groups((n - 1) as nat) + spec_chr_group((n - 1) as nat)
    }
}

/// Dumps CHR-ROM of `rom_size_kb` KB, 4 KB at a time.
pub fn dump_chrrom(rom_size_kb: u16) -> (r: Vec<Step>)
    ensures
        r@ == spec_chr_groups((rom_size_kb / 4) as nat),
{
    let num_reads: u16 = rom_size_kb / 4;
    let mut r: Vec<Step> = Vec::new();
    let mut i: u16 = 0;
    while i < num_reads
        invariant
            i <= num_reads,
            num_reads == rom_size_kb / 4,
            r@ == spec_chr_groups(i as nat),
        decreases num_reads - i,
    {
        r.push(Step::Transfer(cpu_wr(0x8000, 0x00)));
        r.push(Step::Transfer(cpu_wr(0x8001, ((4 * i) % 256) as u8)));
        r.push(Step::Transfer(cpu_wr(0x8000, 0x01)));
        r.push(Step::Transfer(cpu_wr(0x8001, ((4 * i + 2) % 256) as u8)));
        r.push(dump(4, 0x00, NESPPU_1KB));
        i = i + 1;
        assert(r@ =~= spec_chr_groups(i as nat));
    }
    r
}

} // verus!
