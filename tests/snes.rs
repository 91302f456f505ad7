use inlretro::session::{ChunkDump, Step};
use inlretro::snes::{
    dump_ram, dump_rom, dump_snes, dump_snes_header, get_header, is_valid_header, mapping_of,
    match_destination, match_developer, match_hardware_type, match_map_mode, match_ram_size,
    match_rom_size_kb, match_rom_upper_bound, parse_header, ram_kb, set_bank, snes_header_reads,
    HeaderLocation, SnesLayout, SnesMapping,
};
use inlretro::transport::DumpError;

fn block(map_mode: u8, rom_type: u8, rom_size: u8, sram: u8, dest: u8, name: &[u8; 21]) -> Vec<u8> {
    let mut b = vec![map_mode, rom_type, rom_size, sram, 0x00, dest, 0x01, 0x02];
    b.extend_from_slice(name);
    b.extend_from_slice(&[0x12, 0x34, 0xAB, 0xCD]);
    assert_eq!(b.len(), 33);
    b
}

#[test]
fn only_lorom_candidate_valid_is_selected() {
    let hi = block(0x21, 0x99, 0x0A, 0x03, 0x01, b"HIROM GARBAGE        ");
    let lo = block(0x20, 0x02, 0x0A, 0x03, 0x01, b"SUPER TEST GAME      ");
    let ex = block(0x25, 0x00, 0x42, 0x00, 0x01, b"EXHIROM GARBAGE      ");
    let rb: Vec<u8> = [hi, lo, ex].concat();
    let h = dump_snes_header(&rb).unwrap();
    assert_eq!(h.rom_name, "SUPER TEST GAME      ");
    assert_eq!(h.map_mode, 0x20);
    assert_eq!(h.rom_type, 0x02);
    assert_eq!(h.rom_size, 0x0A);
    assert_eq!(h.sram_size, 0x03);
    assert_eq!(h.destination_code, 0x01);
    assert_eq!(h.developer_code, 0x01);
    assert_eq!(h.version, 0x02);
    assert_eq!(h.compliment_check, 0x1234);
    assert_eq!(h.checksum, 0xABCD);
}

#[test]
fn exhirom_then_hirom_take_precedence() {
    let hi = block(0x21, 0x00, 0x0B, 0x00, 0x00, b"HIROM GAME           ");
    let lo = block(0x20, 0x02, 0x0A, 0x03, 0x01, b"LOROM GAME           ");
    let ex_bad = block(0x25, 0x99, 0x0A, 0x00, 0x01, b"EX                   ");
    let ex_ok = block(0x25, 0x00, 0x0D, 0x00, 0x01, b"EX GAME              ");
    let rb = [hi.clone(), lo.clone(), ex_bad].concat();
    assert_eq!(dump_snes_header(&rb).unwrap().rom_name, "HIROM GAME           ");
    let rb = [hi, lo, ex_ok].concat();
    assert_eq!(dump_snes_header(&rb).unwrap().rom_name, "EX GAME              ");
}

#[test]
fn no_valid_candidate_is_configuration_error() {
    let bad = block(0x20, 0x99, 0x0A, 0x03, 0x01, b"NOTHING              ");
    let rb = [bad.clone(), bad.clone(), bad].concat();
    assert_eq!(dump_snes_header(&rb).map(|h| h.map_mode).unwrap_err(), DumpError::Configuration);
    assert_eq!(dump_snes_header(&rb[..98]).map(|h| h.map_mode).unwrap_err(), DumpError::Transport);
}

#[test]
fn header_reads_at_each_location() {
    let hi = get_header(HeaderLocation::HiRom);
    let lo = get_header(HeaderLocation::LoRom);
    let ex = get_header(HeaderLocation::ExHiRom);
    assert_eq!(hi.len(), 33);
    let index = |s: &Step| match s {
        Step::Transfer(r) => r.index,
        _ => panic!("header reads are single transfers"),
    };
    assert_eq!(index(&hi[0]), 0xFFD5);
    assert_eq!(index(&lo[0]), 0x7FD5);
    assert_eq!(index(&ex[0]), 0xFFD5);
    assert_eq!(index(&hi[4]), 0xFFBD);
    assert_eq!(index(&hi[8]), 0xFFC0);
    assert_eq!(index(&hi[28]), 0xFFD4);
    assert_eq!(index(&lo[29]), 0x7FDC);
    assert_eq!(index(&hi[32]), 0xFFDE);
    assert_eq!(snes_header_reads().len(), 99);
}

#[test]
fn parse_header_fields() {
    let b = block(0x31, 0x03, 0x0C, 0x05, 0x0D, b"0123456789ABCDEFGHIJK");
    let h = parse_header(&b);
    assert_eq!(h.rom_name, "0123456789ABCDEFGHIJK");
    assert_eq!(h.map_mode, 0x31);
    assert!(is_valid_header(&h));
}

#[test]
fn validity_tables() {
    assert!(match_hardware_type(0x00).is_some());
    assert!(match_hardware_type(0xF9).is_some());
    assert!(match_hardware_type(0x04).is_none());
    assert!(match_destination(13).is_some());
    assert!(match_destination(14).is_none());
    assert_eq!(match_rom_upper_bound(0x0A), Some("8 megabits"));
    assert!(match_rom_upper_bound(0x07).is_none());
    assert_eq!(match_ram_size(0x05), Some("256 kilobits"));
    assert!(match_ram_size(0x04).is_none());
    assert_eq!(match_map_mode(0x21), Some("HiROM"));
    assert_eq!(match_map_mode(0x30), Some("LoROM"));
    assert_eq!(match_map_mode(0x35), Some("ExHiROM"));
    assert!(match_map_mode(0x04).is_none());
    assert_eq!(match_developer(0x01), Some("Nintendo"));
    assert_eq!(match_developer(0x8f), Some("I\"\"Max"));
    assert!(match_developer(0x02).is_none());
}

#[test]
fn sizes_from_codes() {
    assert_eq!(match_rom_size_kb(0x08), Some(256));
    assert_eq!(match_rom_size_kb(0x0D), Some(8192));
    assert_eq!(match_rom_size_kb(0x0E), None);
    assert_eq!(ram_kb(0), 1);
    assert_eq!(ram_kb(3), 8);
    assert_eq!(ram_kb(6), 64);
    assert_eq!(ram_kb(7), 0);
    assert_eq!(mapping_of(0x20), Some(SnesMapping::LoROM));
    assert_eq!(mapping_of(0x31), Some(SnesMapping::HiROM));
    assert_eq!(mapping_of(0x25), None);
}

#[test]
fn layout_from_header() {
    let lo = parse_header(&block(0x20, 0x02, 0x0A, 0x03, 0x01, b"LOROM GAME           "));
    assert_eq!(
        dump_snes(&lo),
        Ok(SnesLayout { mapping: SnesMapping::LoROM, rom_bank: 0x00, ram_bank: 0x70, rom_size_kb: 1024, ram_size_kb: 8 })
    );
    let mut hb = block(0x21, 0x00, 0x0B, 0x07, 0x01, b"HIROM GAME           ");
    hb[4] = 0x02;
    let hi = parse_header(&hb);
    assert_eq!(
        dump_snes(&hi),
        Ok(SnesLayout { mapping: SnesMapping::HiROM, rom_bank: 0xC0, ram_bank: 0x30, rom_size_kb: 2048, ram_size_kb: 4 })
    );
    let ex = parse_header(&block(0x25, 0x00, 0x0B, 0x00, 0x01, b"EX                   "));
    assert_eq!(dump_snes(&ex), Err(DumpError::Configuration));
    let unknown_size = parse_header(&block(0x20, 0x00, 0x0E, 0x00, 0x01, b"X                    "));
    assert_eq!(dump_snes(&unknown_size), Err(DumpError::Configuration));
}

#[test]
fn snes_rom_and_ram_plans() {
    let rom = dump_rom(0xC0, 1024, SnesMapping::HiROM);
    assert_eq!(rom.len(), 32);
    assert_eq!(rom[0], Step::Transfer(set_bank(0xC0)));
    assert_eq!(rom[1], Step::Dump(ChunkDump { size_kb: 64, map: 0x00, mem: 0x24 }));
    assert_eq!(rom[30], Step::Transfer(set_bank(0xCF)));
    let rom = dump_rom(0x00, 1024, SnesMapping::LoROM);
    assert_eq!(rom.len(), 64);
    assert_eq!(rom[1], Step::Dump(ChunkDump { size_kb: 32, map: 0x80, mem: 0x24 }));
    let ram = dump_ram(0x30, 8, SnesMapping::HiROM);
    assert_eq!(ram, vec![Step::Transfer(set_bank(0x30)), Step::Dump(ChunkDump { size_kb: 8, map: 0x60, mem: 0x25 })]);
    let ram = dump_ram(0x70, 8, SnesMapping::LoROM);
    assert_eq!(ram, vec![Step::Transfer(set_bank(0x70)), Step::Dump(ChunkDump { size_kb: 8, map: 0x00, mem: 0x24 })]);
    let ram = dump_ram(0x30, 32, SnesMapping::HiROM);
    assert_eq!(ram.len(), 8);
    assert_eq!(ram[6], Step::Transfer(set_bank(0x33)));
}
