//! UNROM: 16 KB PRG banks switched at $8000-$BFFF, the last bank fixed at
//! $C000. Bank writes must go to a byte of ROM that holds the value written,
//! or the ROM and the host fight over the bus; such bytes are found in the
//! fixed bank's bank table.
use vstd::prelude::*;

use crate::nes::cpu_wr;
use crate::opcodes::{DICT_NES, NES_CPU_WR, NESCPU_4KB};
use crate::session::{dump, ChunkDump, Step};
use crate::transport::spec_request;

use crate::nes::{cpu_rd, detect_mapper_mirroring, discrete_exp0_prgrom_wr, ppu_ram_sense, spec_detect_mirroring, spec_ram_sense};
use crate::io::exp0_pullup_test;
use crate::opcodes::{DICT_IO, DISCRETE_EXP0_PRGROM_WR, EXP0_PULLUP_TEST, NES_CPU_RD};

verus! {

pub open spec fn spec_test_unrom() -> Seq<Step> {
    spec_detect_mirroring()
    + spec_ram_sense(0x1000)
    + seq![
        Step::Transfer(spec_request(DICT_IO, EXP0_PULLUP_TEST, 0, 0, 3, true)),
        Step::Transfer(spec_request(DICT_NES, NES_CPU_WR, 0x8000, 0x00, 1, true)),
        Step::Transfer(spec_request(DICT_NES, DISCRETE_EXP0_PRGROM_WR, 0x5555, 0xAA, 1, true)),
        Step::Transfer(spec_request(DICT_NES, DISCRETE_EXP0_PRGROM_WR, 0x2AAA, 0x55, 1, true)),
        Step::Transfer(spec_request(DICT_NES, DISCRETE_EXP0_PRGROM_WR, 0x5555, 0x90, 1, true)),
        Step::Transfer(spec_request(DICT_NES, NES_CPU_RD, 0x8000, 0, 3, true)),
        Step::Transfer(spec_request(DICT_NES, NES_CPU_RD, 0x8001, 0, 3, true)),
        Step::Transfer(spec_request(DICT_NES, DISCRETE_EXP0_PRGROM_WR, 0x8000, 0xF0, 1, true)),
    ]
}

/// Probes the cartridge: senses mirroring, tests for CHR-RAM at PPU $1000 and
/// the EXP0 pull-up, selects bank 0, then reads the PRG-ROM flash ids. The
/// readback holds the mirroring reading, the two RAM-sense reads, the pull-up
/// result and the two PRG ids.
pub fn test_unrom() -> (r: Vec<Step>)
    ensures
        r@ == spec_test_unrom(),
{
    let mut r: Vec<Step> = Vec::new();
    let mut part = detect_mapper_mirroring();
    r.append(&mut part);
    let mut part = ppu_ram_sense(0x1000);
    r.append(&mut part);
    r.push(Step::Transfer(exp0_pullup_test()));
    r.push(Step::Transfer(cpu_wr(0x8000, 0x00)));
    r.push(Step::Transfer(discrete_exp0_prgrom_wr(0x5555, 0xAA)));
    r.push(Step::Transfer(discrete_exp0_prgrom_wr(0x2AAA, 0x55)));
    r.push(Step::Transfer(discrete_exp0_prgrom_wr(0x5555, 0x90)));
    r.push(Step::Transfer(cpu_rd(0x8000)));
    r.push(Step::Transfer(cpu_rd(0x8001)));
    r.push(Step::Transfer(discrete_exp0_prgrom_wr(0x8000, 0xF0)));
    assert(r@ =~= spec_test_unrom());
    r
}

/// Address at which the fixed bank appears on the CPU bus.
pub const FIXED_BANK_ADDR: u16 = 0xC000;

/// Size of the fixed bank, the space searched for the bank table.
pub const SEARCH_SPACE_KB: u16 = 16;

/// Whether `data` holds the run `0, 1, ..., len - 1` from offset `k` on.
pub open spec fn run_at(data: Seq<u8>, k: int, len: nat) -> bool {
    &&& 0 <= k
    &&& k + len <= data.len()
    &&& forall|j: int| 0 <= j < len ==> #[trigger] data[k + j] as int == j
}

/// The buffered dump of the fixed bank searched by `find_banktable`.
pub fn banktable_scan() -> (r: Vec<Step>)
    ensures
        r@ == seq![Step::Dump(ChunkDump { size_kb: SEARCH_SPACE_KB, map: 0x0C, mem: NESCPU_4KB })],
{
    let mut r: Vec<Step> = Vec::new();
    r.push(dump(SEARCH_SPACE_KB, 0x0C, NESCPU_4KB));
    assert(r@ =~= seq![Step::Dump(ChunkDump { size_kb: SEARCH_SPACE_KB, map: 0x0C, mem: NESCPU_4KB })]);
    r
}

/// Length of the bank table of a `prg_size_kb` KB ROM: one entry per
/// switchable bank, the fixed bank needing none. `None` for a ROM without a
/// switchable bank or with more than 256 banks.
pub fn banktable_size(prg_size_kb: u16) -> (r: Option<u8>)
    ensures
        prg_size_kb / 16 >= 1 && prg_size_kb / 16 - 1 <= 255 ==> r == Some(
            (prg_size_kb / 16 - 1) as u8,
        ),
        !(prg_size_kb / 16 >= 1 && prg_size_kb / 16 - 1 <= 255) ==> r is None,
{
    let banks: u16 = prg_size_kb / 16;
    if banks >= 1 && banks - 1 <= 255 {
        Some((banks - 1) as u8)
    } else {
        None
    }
}

/// Finds the bank table in `data`, the fixed bank as dumped from $C000: the
/// CPU address of the first run `0, 1, ..., banktable_size - 1`, or `None`
/// if there is none.
pub fn find_banktable(data: &[u8], banktable_size: u8) -> (r: Option<u16>)
    requires
        data@.len() <= SEARCH_SPACE_KB as int * 1024,
    ensures
        r matches Some(addr) ==> {
            &&& addr >= FIXED_BANK_ADDR
            &&& run_at(data@, addr - FIXED_BANK_ADDR, banktable_size as nat)
            &&& forall|k: int| 0 <= k < addr - FIXED_BANK_ADDR ==> !run_at(data@, k, banktable_size as nat)
        },
        r is None ==> forall|k: int| !run_at(data@, k, banktable_size as nat),
{
    let n: usize = data.len();
    let l: usize = banktable_size as usize;
    if l == 0 {
        assert(run_at(data@, 0, 0));
        return Some(FIXED_BANK_ADDR);
    }
    if l > n {
        return None;
    }
    let mut k: usize = 0;
    while k + l <= n
        invariant
            1 <= l <= n,
            k <= n,
            l == banktable_size,
            n == data@.len(),
            n <= 16384,
            forall|k2: int| 0 <= k2 < k ==> !run_at(data@, k2, l as nat),
        decreases n - k,
    {
        let mut j: usize = 0;
        let mut ok: bool = true;
        let ghost mut bad: int = 0;
        while j < l && ok
            invariant
                k + l <= n,
                n == data@.len(),
                j <= l,
                ok ==> forall|j2: int| 0 <= j2 < j ==> #[trigger] data@[k + j2] as int == j2,
                !ok ==> 0 <= bad < l && data@[k + bad] as int != bad,
            decreases l - j,
        {
            if data[k + j] as usize != j {
                ok = false;
                proof {
                    bad = j as int;
                }
                j = l;
            } else {
                j = j + 1;
            }
        }
        if ok {
            assert(run_at(data@, k as int, l as nat));
            return Some(FIXED_BANK_ADDR + k as u16);
        }
        assert(!run_at(data@, k as int, l as nat)) by {
            assert(data@[k + bad] as int != bad);
        }
        k = k + 1;
    }
    assert forall|k2: int| !run_at(data@, k2, l as nat) by {
        if 0 <= k2 && k2 >= k {
            assert(k2 + l > n);
        }
    }
    None
}

/// Switchable bank `i`: select it through bank-table entry `i`, then dump the
/// switchable window.
pub open spec fn spec_prg_group(banktable_base: u16, i: nat) -> Seq<Step> {
    seq![
        Step::Transfer(
            spec_request(DICT_NES, NES_CPU_WR, (banktable_base + i) as u16, (i % 256) as u8, 1, true),
        ),
        Step::Dump(ChunkDump { size_kb: 16, map: 0x08, mem: NESCPU_4KB }),
    ]
}

pub open spec fn spec_prg_groups(banktable_base: u16, n: nat) -> Seq<Step>
    decreases n,
{
    if n == 0 {
        Seq::empty()
    } else {
        spec_prg_groups(banktable_base, (n - 1) as nat) + spec_prg_group(banktable_base, (n - 1) as nat)
    }
}

/// The PRG-ROM plan: every switchable bank through the window at $8000, then
/// the fixed bank at $C000; nothing for a ROM under 16 KB.
pub open spec fn spec_dump_prgrom_unrom(rom_size_kb: u16, banktable_base: u16) -> Seq<Step> {
    let n = (rom_size_kb / 16) as nat;
    if n == 0 {
        Seq::empty()
    } else {
        spec_prg_groups(banktable_base, (n - 1) as nat).push(
            Step::Dump(ChunkDump { size_kb: 16, map: 0x0C, mem: NESCPU_4KB }),
        )
    }
}

/// Dumps PRG-ROM of `rom_size_kb` KB, writing bank numbers through the bank
/// table at `banktable_base`.
pub fn dump_prgrom_unrom(rom_size_kb: u16, banktable_base: u16) -> (r: Vec<Step>)
    ensures
        r@ == spec_dump_prgrom_unrom(rom_size_kb, banktable_base),
{
    let num_reads: u16 = rom_size_kb / 16;
    let mut r: Vec<Step> = Vec::new();
    if num_reads == 0 {
        return r;
    }
    let mut i: u16 = 0;
    while i < num_reads - 1
        invariant
            1 <= num_reads,
            i <= num_reads - 1,
            num_reads == rom_size_kb / 16,
            r@ == spec_prg_groups(banktable_base, i as nat),
        decreases num_reads - 1 - i,
    {
        let addr: u16 = ((banktable_base as u32 + i as u32) % 0x1_0000) as u16;
        assert(addr == (banktable_base + i) as u16) by (bit_vector)
            requires
                addr == ((banktable_base as u32 + i as u32) % 0x1_0000) as u16,
        ;
        r.push(Step::Transfer(cpu_wr(addr, (i % 256) as u8)));
        r.push(dump(16, 0x08, NESCPU_4KB));
        i = i + 1;
        assert(r@ =~= spec_prg_groups(banktable_base, i as nat));
    }
    r.push(dump(16, 0x0C, NESCPU_4KB));
    r
}

} // verus!
