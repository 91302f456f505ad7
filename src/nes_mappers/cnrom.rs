//! CNROM: fixed PRG-ROM, CHR-ROM switched in 8 KB banks by a CPU write.
use vstd::prelude::*;

use crate::nes::cpu_wr;
use crate::nes_mappers::nrom;
use crate::opcodes::{DICT_NES, NES_CPU_WR, NESPPU_1KB};
use crate::session::{dump, ChunkDump, Step};
use crate::transport::spec_request;

use crate::nes::{cpu_rd, detect_mapper_mirroring, discrete_exp0_prgrom_wr, ppu_rd, ppu_wr, spec_detect_mirroring};
use crate::io::exp0_pullup_test;
use crate::opcodes::{DICT_IO, DISCRETE_EXP0_PRGROM_WR, EXP0_PULLUP_TEST, NES_CPU_RD, NES_PPU_RD, NES_PPU_WR};

verus! {

pub open spec fn spec_test_cnrom() -> Seq<Step> {
    spec_detect_mirroring()
    + seq![
        Step::Transfer(spec_request(DICT_IO, EXP0_PULLUP_TEST, 0, 0, 3, true)),
        Step::Transfer(spec_request(DICT_NES, DISCRETE_EXP0_PRGROM_WR, 0x5555, 0xAA, 1, true)),
        Step::Transfer(spec_request(DICT_NES, DISCRETE_EXP0_PRGROM_WR, 0x2AAA, 0x55, 1, true)),
        Step::Transfer(spec_request(DICT_NES, DISCRETE_EXP0_PRGROM_WR, 0x5555, 0x90, 1, true)),
        Step::Transfer(spec_request(DICT_NES, NES_CPU_RD, 0x8000, 0, 3, true)),
        Step::Transfer(spec_request(DICT_NES, NES_CPU_RD, 0x8001, 0, 3, true)),
        Step::Transfer(spec_request(DICT_NES, DISCRETE_EXP0_PRGROM_WR, 0x8000, 0xF0, 1, true)),
        Step::Transfer(spec_request(DICT_NES, NES_CPU_WR, 0x8002, 0x02, 1, true)),
        Step::Transfer(spec_request(DICT_NES, NES_PPU_WR, 0x1555, 0xAA, 1, true)),
        Step::Transfer(spec_request(DICT_NES, NES_CPU_WR, 0x8001, 0x01, 1, true)),
        Step::Transfer(spec_request(DICT_NES, NES_PPU_WR, 0x0AAA, 0x55, 1, true)),
        Step::Transfer(spec_request(DICT_NES, NES_CPU_WR, 0x8002, 0x02, 1, true)),
        Step::Transfer(spec_request(DICT_NES, NES_PPU_WR, 0x1555, 0x90, 1, true)),
        Step::Transfer(spec_request(DICT_NES, NES_PPU_RD, 0x0000, 0, 3, true)),
        Step::Transfer(spec_request(DICT_NES, NES_PPU_RD, 0x0001, 0, 3, true)),
        Step::Transfer(spec_request(DICT_NES, NES_PPU_WR, 0x0000, 0xF0, 1, true)),
    ]
}

/// Probes the cartridge as NROM does, but selects the CHR bank that lines the
/// flash command addresses up before each CHR command. The readback holds the
/// mirroring reading, the pull-up result, the two PRG ids and the two CHR
/// ids.
pub fn test_cnrom() -> (r: Vec<Step>)
    ensures
        r@ == spec_test_cnrom(),
{
    let mut r: Vec<Step> = Vec::new();
    let mut part = detect_mapper_mirroring();
    r.append(&mut part);
    r.push(Step::Transfer(exp0_pullup_test()));
    r.push(Step::Transfer(discrete_exp0_prgrom_wr(0x5555, 0xAA)));
    r.push(Step::Transfer(discrete_exp0_prgrom_wr(0x2AAA, 0x55)));
    r.push(Step::Transfer(discrete_exp0_prgrom_wr(0x5555, 0x90)));
    r.push(Step::Transfer(cpu_rd(0x8000)));
    r.push(Step::Transfer(cpu_rd(0x8001)));
    r.push(Step::Transfer(discrete_exp0_prgrom_wr(0x8000, 0xF0)));
    r.push(Step::Transfer(cpu_wr(0x8002, 0x02)));
    r.push(Step::Transfer(ppu_wr(0x1555, 0xAA)));
    r.push(Step::Transfer(cpu_wr(0x8001, 0x01)));
    r.push(Step::Transfer(ppu_wr(0x0AAA, 0x55)));
    r.push(Step::Transfer(cpu_wr(0x8002, 0x02)));
    r.push(Step::Transfer(ppu_wr(0x1555, 0x90)));
    r.push(Step::Transfer(ppu_rd(0x0000)));
    r.push(Step::Transfer(ppu_rd(0x0001)));
    r.push(Step::Transfer(ppu_wr(0x0000, 0xF0)));
    assert(r@ =~= spec_test_cnrom());
    r
}

/// Dumps PRG-ROM exactly as NROM does.
pub fn dump_prgrom(rom_size_kb: u16) -> (r: Vec<Step>)
    ensures
        r@ == nrom::spec_dump_prgrom(rom_size_kb),
{
    nrom::dump_prgrom(rom_size_kb)
}

/// The writes and dump for CHR bank `i`: select the bank (twice, at $8000+i
/// to dodge bus conflicts and at $8003), then dump the PPU window.
pub open spec fn spec_chr_group(i: nat) -> Seq<Step> {
    seq![
        Step::Transfer(spec_request(DICT_NES, NES_CPU_WR, (0x8000 + i) as u16, (i % 256) as u8, 1, true)),
        Step::Transfer(spec_request(DICT_NES, NES_CPU_WR, 0x8003, (i % 256) as u8, 1, true)),
        Step::Dump(ChunkDump { size_kb: 8, map: 0x00, mem: NESPPU_1KB }),
    ]
}

pub open spec fn spec_chr_groups(n: nat) -> Seq<Step>
    decreases n,
{
    if n == 0 {
        Seq::empty()
    } else {
        spec_chr_groups((n - 1) as nat) + spec_chr_group((n - 1) as nat)
    }
}

/// Dumps CHR-ROM of `rom_size_kb` KB, one 8 KB bank at a time.
pub fn dump_chrrom(rom_size_kb: u16) -> (r: Vec<Step>)
    ensures
        r@ == spec_chr_groups((rom_size_kb / 8) as nat),
{
    let num_reads: u16 = rom_size_kb / 8;
    let mut r: Vec<Step> = Vec::new();
    let mut i: u16 = 0;
    while i < num_reads
        invariant
            i <= num_reads,
            num_reads == rom_size_kb / 8,
            r@ == spec_chr_groups(i as nat),
        decreases num_reads - i,
    {
        let bank: u8 = (i % 256) as u8;
        r.push(Step::Transfer(cpu_wr(0x8000 + i, bank)));
        r.push(Step::Transfer(cpu_wr(0x8003, bank)));
        r.push(dump(8, 0x00, NESPPU_1KB));
        i = i + 1;
        assert(r@ =~= spec_chr_groups(i as nat));
    }
    r
}

} // verus!
