use inlretro::nes::{
    classify_mirroring, cpu_wr, create_header, detect_mapper_mirroring, dump_nes, header_mirroring,
    mapper_number, mirroring_from_readback, mmc1_wr, parse_mapper, ppu_ram_sense, probe_plan,
    ram_sensed, Mirroring, NesMapper,
};
use inlretro::nes_mappers::{cnrom, mmc1, mmc3, nrom, unrom};
use inlretro::session::{ChunkDump, Step};
use inlretro::transport::DumpError;

#[test]
fn mirroring_classification() {
    assert_eq!(classify_mirroring(0, 0), Mirroring::SCNA);
    assert_eq!(classify_mirroring(0x0800, 0), Mirroring::VERT);
    assert_eq!(classify_mirroring(0, 0x0800), Mirroring::HORZ);
    assert_eq!(classify_mirroring(1, 1), Mirroring::SCNB);
    assert_eq!(classify_mirroring(0xFFFF, 0), Mirroring::VERT);
}

#[test]
fn mirroring_from_sensed_words() {
    assert_eq!(mirroring_from_readback(&[0, 0, 0, 0]), Ok(Mirroring::SCNA));
    assert_eq!(mirroring_from_readback(&[0, 8, 0, 0]), Ok(Mirroring::VERT));
    assert_eq!(mirroring_from_readback(&[0, 0, 1, 0]), Ok(Mirroring::HORZ));
    assert_eq!(mirroring_from_readback(&[1, 0, 0, 1]), Ok(Mirroring::SCNB));
    assert_eq!(mirroring_from_readback(&[0, 0, 0]), Err(DumpError::Transport));
}

#[test]
fn mirroring_sense_transfers() {
    let plan = detect_mapper_mirroring();
    assert_eq!(plan.len(), 4);
    match (plan[0], plan[1], plan[2], plan[3]) {
        (Step::Transfer(a), Step::Transfer(b), Step::Transfer(c), Step::Transfer(d)) => {
            assert_eq!((a.request, a.value, a.index), (1, 17, 0x0800));
            assert_eq!((b.request, b.value, b.index, b.length), (1, 6, 11, 4));
            assert_eq!((c.request, c.value, c.index), (1, 17, 0x0400));
            assert_eq!((d.request, d.value, d.index, d.length), (1, 6, 11, 4));
        }
        _ => panic!("mirroring sense holds single transfers only"),
    }
}

#[test]
fn ines_header_bytes() {
    let h = create_header(32, 8, 0, Mirroring::VERT);
    assert_eq!(h, vec![b'N', b'E', b'S', 0x1A, 2, 1, 0x01, 0x00, 0, 0, 0, 0, 0, 0, 0, 0]);
    let h = create_header(256, 128, 4, Mirroring::HORZ);
    assert_eq!(&h[4..8], &[16, 16, 0x40, 0x00]);
    let h = create_header(128, 0, 0x1B, Mirroring::VERT);
    assert_eq!(&h[4..8], &[8, 0, 0xB1, 0x10]);
    let h = create_header(16, 0, 2, Mirroring::SCNB);
    assert_eq!(&h[4..8], &[1, 0, 0x20, 0x00]);
    assert_eq!(h.len(), 16);
}

#[test]
fn mapper_names_in_any_case() {
    assert_eq!(parse_mapper("nrom"), Some(NesMapper::Nrom));
    assert_eq!(parse_mapper("NROM"), Some(NesMapper::Nrom));
    assert_eq!(parse_mapper("MMC1"), Some(NesMapper::Mmc1));
    assert_eq!(parse_mapper("UnRom"), Some(NesMapper::Unrom));
    assert_eq!(parse_mapper("cnrom"), Some(NesMapper::Cnrom));
    assert_eq!(parse_mapper("Mmc3"), Some(NesMapper::Mmc3));
    assert_eq!(parse_mapper("fme7"), None);
    assert_eq!(parse_mapper(""), None);
}

#[test]
fn mapper_numbers_and_header_mirroring() {
    assert_eq!(mapper_number(NesMapper::Nrom), 0);
    assert_eq!(mapper_number(NesMapper::Mmc1), 1);
    assert_eq!(mapper_number(NesMapper::Unrom), 2);
    assert_eq!(mapper_number(NesMapper::Cnrom), 3);
    assert_eq!(mapper_number(NesMapper::Mmc3), 4);
    assert_eq!(header_mirroring(NesMapper::Mmc1, Mirroring::VERT), Mirroring::HORZ);
    assert_eq!(header_mirroring(NesMapper::Nrom, Mirroring::VERT), Mirroring::VERT);
}

#[test]
fn nrom_plans() {
    let d32 = Step::Dump(ChunkDump { size_kb: 32, map: 0x08, mem: 0x20 });
    assert_eq!(nrom::dump_prgrom(16), vec![Step::Dump(ChunkDump { size_kb: 16, map: 0x08, mem: 0x20 })]);
    assert_eq!(nrom::dump_prgrom(64), vec![d32, d32]);
    assert!(nrom::dump_prgrom(0).is_empty());
    let c8 = Step::Dump(ChunkDump { size_kb: 8, map: 0x00, mem: 0x21 });
    assert_eq!(nrom::dump_chrrom(8), vec![c8]);
    assert!(nrom::dump_chrrom(0).is_empty());
    assert_eq!(cnrom::dump_prgrom(32), vec![d32]);
}

#[test]
fn cnrom_chr_plan() {
    let plan = cnrom::dump_chrrom(32);
    assert_eq!(plan.len(), 12);
    assert_eq!(plan[3], Step::Transfer(cpu_wr(0x8001, 1)));
    assert_eq!(plan[4], Step::Transfer(cpu_wr(0x8003, 1)));
    assert_eq!(plan[11], Step::Dump(ChunkDump { size_kb: 8, map: 0x00, mem: 0x21 }));
}

#[test]
fn mmc1_plans() {
    let prg = mmc1::dump_prgrom_mmc1(128);
    assert_eq!(prg.len(), 8);
    assert_eq!(prg[2], Step::Transfer(mmc1_wr(0xE000, 2)));
    assert_eq!(prg[6], Step::Transfer(mmc1_wr(0xE000, 6)));
    let chr = mmc1::dump_chrrom_mmc1(16);
    assert_eq!(chr.len(), 6);
    assert_eq!(chr[3], Step::Transfer(mmc1_wr(0xA000, 2)));
    assert_eq!(chr[4], Step::Transfer(mmc1_wr(0xC000, 3)));
    assert_eq!(mmc1::init_mapper_mmc1().len(), 6);
}

#[test]
fn mmc3_plans() {
    let prg = mmc3::dump_prgrom(32);
    assert_eq!(prg.len(), 10);
    assert_eq!(prg[6], Step::Transfer(cpu_wr(0x8001, 2)));
    assert_eq!(prg[8], Step::Transfer(cpu_wr(0x8001, 3)));
    let chr = mmc3::dump_chrrom(8);
    assert_eq!(chr.len(), 10);
    assert_eq!(chr[6], Step::Transfer(cpu_wr(0x8001, 4)));
    assert_eq!(chr[8], Step::Transfer(cpu_wr(0x8001, 6)));
    assert_eq!(chr[9], Step::Dump(ChunkDump { size_kb: 4, map: 0x00, mem: 0x21 }));
    assert_eq!(mmc3::init_mapper().len(), 19);
}

#[test]
fn unrom_plan_uses_bank_table() {
    let plan = unrom::dump_prgrom_unrom(64, 0xC100);
    assert_eq!(plan.len(), 7);
    assert_eq!(plan[0], Step::Transfer(cpu_wr(0xC100, 0)));
    assert_eq!(plan[2], Step::Transfer(cpu_wr(0xC101, 1)));
    assert_eq!(plan[4], Step::Transfer(cpu_wr(0xC102, 2)));
    assert_eq!(plan[6], Step::Dump(ChunkDump { size_kb: 16, map: 0x0C, mem: 0x20 }));
    assert!(unrom::dump_prgrom_unrom(8, 0xC000).is_empty());
    assert_eq!(unrom::dump_prgrom_unrom(16, 0xC000).len(), 1);
}

fn noise(seed: &mut u32) -> u8 {
    *seed = seed.wrapping_mul(1_103_515_245).wrapping_add(12345);
    ((*seed >> 16) & 0xFF) as u8 | 0x80
}

#[test]
fn bank_table_found_in_noise() {
    for &(k, l) in &[(0usize, 7u8), (0x123, 7), (5000, 15), (16384 - 31, 31), (9, 1)] {
        let mut seed = 0xBEEF + k as u32;
        let mut data: Vec<u8> = (0..16384).map(|_| noise(&mut seed)).collect();
        for j in 0..l as usize {
            data[k + j] = j as u8;
        }
        assert_eq!(unrom::find_banktable(&data, l), Some(0xC000 + k as u16));
    }
}

#[test]
fn bank_table_first_run_wins_and_broken_runs_do_not() {
    let mut data = vec![0xFFu8; 16384];
    // A run broken at its third entry, then a 0 right before a full run.
    data[10] = 0;
    data[11] = 1;
    data[12] = 7;
    data[99] = 0;
    for j in 0..4 {
        data[100 + j] = j as u8;
    }
    for j in 0..4 {
        data[3000 + j] = j as u8;
    }
    assert_eq!(unrom::find_banktable(&data, 4), Some(0xC000 + 100));
    assert_eq!(unrom::find_banktable(&data, 5), None);
    assert_eq!(unrom::find_banktable(&data, 0), Some(0xC000));
    assert_eq!(unrom::find_banktable(&[], 1), None);
}

#[test]
fn bank_table_size_of_rom() {
    assert_eq!(unrom::banktable_size(128), Some(7));
    assert_eq!(unrom::banktable_size(256), Some(15));
    assert_eq!(unrom::banktable_size(16), Some(0));
    assert_eq!(unrom::banktable_size(8), None);
    let scan = unrom::banktable_scan();
    assert_eq!(scan, vec![Step::Dump(ChunkDump { size_kb: 16, map: 0x0C, mem: 0x20 })]);
}

#[test]
fn dump_plans_per_mapper() {
    assert_eq!(dump_nes(NesMapper::Nrom, 32, 8, 0).len(), 2);
    assert_eq!(dump_nes(NesMapper::Mmc1, 128, 32, 0).len(), 6 + 8 + 12);
    assert_eq!(dump_nes(NesMapper::Unrom, 128, 0, 0xC000).len(), 15);
    assert_eq!(dump_nes(NesMapper::Cnrom, 32, 32, 0).len(), 1 + 12);
    assert_eq!(dump_nes(NesMapper::Mmc3, 64, 8, 0).len(), 19 + 20 + 10);
}

#[test]
fn probe_plans() {
    assert_eq!(probe_plan(NesMapper::Nrom).len(), 4 + 1 + 12);
    assert_eq!(probe_plan(NesMapper::Cnrom).len(), 4 + 1 + 6 + 9);
    assert_eq!(probe_plan(NesMapper::Unrom).len(), 4 + 4 + 1 + 1 + 6);
    assert_eq!(probe_plan(NesMapper::Mmc1).len(), 6 + 4 * 5 + 4 + 1 + 6 + 6 + 6 + 6);
    assert_eq!(probe_plan(NesMapper::Mmc3).len(), 19 + 2 * 5 + 4 + 1 + 19 + 6 + 19 + 6);
    let plan = nrom::test_nrom();
    match plan[5] {
        Step::Transfer(r) => assert_eq!((r.request, r.value, r.index), (3, 0xAA00, 0x5555)),
        _ => panic!("probe holds single transfers only"),
    }
}

#[test]
fn ram_sense_transfers_and_verdict() {
    let plan = ppu_ram_sense(0x1000);
    assert_eq!(plan.len(), 4);
    assert!(ram_sensed(&[0xAA, 0x55]));
    assert!(!ram_sensed(&[0xAA, 0x54]));
    assert!(!ram_sensed(&[0xAA]));
}
