use inlretro::gb;
use inlretro::gba;
use inlretro::session::{ChunkDump, Step};

fn gb_readback(old_dev: u8, name: &[u8; 16]) -> Vec<u8> {
    let mut rb = vec![0x03, 0x13, 0x05, 0x03, 0x01, 0x02, 0x9A, 0x12, 0x34, old_dev, 0x30, 0x31];
    rb.extend_from_slice(name);
    rb
}

#[test]
fn gb_old_cartridge_header() {
    let h = gb::parse_header(&gb_readback(0x01, b"TETRIS     XXXXX"));
    assert_eq!(h.rom_name, "TETRIS     ");
    assert_eq!(h.developer_code, 0x01);
    assert_eq!(h.sgb_flag, 0x03);
    assert_eq!(h.cart_type, 0x13);
    assert_eq!(h.rom_size, 0x05);
    assert_eq!(h.ram_size, 0x03);
    assert_eq!(h.dest_code, 0x01);
    assert_eq!(h.version, 0x02);
    assert_eq!(h.header_checksum, 0x9A);
    assert_eq!(h.global_checksum, 0x1234);
}

#[test]
fn gb_new_cartridge_header() {
    let h = gb::parse_header(&gb_readback(0x33, b"POKEMON YELLOW  "));
    assert_eq!(h.rom_name, "POKEMON YELLOW  ");
    assert_eq!(h.developer_code, 0x01);
}

#[test]
fn gb_header_reads_and_tables() {
    let plan = gb::get_header();
    assert_eq!(plan.len(), 28);
    assert_eq!(plan[0], Step::Transfer(gb::rom_rd(0x146)));
    assert_eq!(plan[9], Step::Transfer(gb::rom_rd(0x14B)));
    assert_eq!(plan[12], Step::Transfer(gb::rom_rd(0x134)));
    assert_eq!(plan[27], Step::Transfer(gb::rom_rd(0x143)));
    assert_eq!(gb::match_cart_type(0x13), Some("MBC3+RAM+BATTERY 2"));
    assert_eq!(gb::match_ram_size(0x03), Some("32 kilobits"));
    assert!(gb::match_ram_size(0x01).is_none());
    assert_eq!(gb::match_developer(0x01), Some("Nintendo"));
}

#[test]
fn gba_header() {
    let mut rb = b"POKEMON EMERBPEE".to_vec();
    rb.extend_from_slice(&[0x01, 0x72]);
    let h = gba::parse_header(&rb);
    assert_eq!(h.rom_name, "POKEMON EMER");
    assert_eq!(h.game_code, "BPEE");
    assert_eq!(h.version, 0x01);
    assert_eq!(h.header_checksum, 0x72);
    let plan = gba::get_header();
    assert_eq!(plan.len(), 15);
    assert_eq!(plan[0], Step::Transfer(gba::latch_addr(0x50, 0)));
    assert_eq!(plan[8], Step::Transfer(gba::latch_addr(0x56, 0)));
    assert_eq!(plan[12], Step::Transfer(gba::latch_addr(0x5E, 0)));
}

#[test]
fn gba_empty_bank_detection() {
    assert!(gba::check_empty(&[0xFF; 64]));
    assert!(gba::check_empty(&[]));
    assert!(!gba::check_empty(&[0xFF, 0xFF, 0xFE]));
    let erased = vec![0xFFu8; 1024];
    let data = vec![0x00u8; 1024];
    assert!(!gba::keep_bank(32, &erased));
    assert!(!gba::keep_bank(64, &erased));
    assert!(!gba::keep_bank(128, &erased));
    assert!(gba::keep_bank(33, &erased));
    assert!(gba::keep_bank(32, &data));
    assert!(gba::keep_bank(0, &erased));
}

#[test]
fn gba_bank_plan() {
    let plan = gba::rom_bank(3);
    assert_eq!(plan.len(), 3);
    assert_eq!(plan[0], Step::Transfer(gba::latch_addr(0, 3)));
    assert_eq!(plan[1], Step::Dump(ChunkDump { size_kb: 128, map: 0x00, mem: 0x27 }));
    assert_eq!(plan[2], Step::Transfer(gba::release_bus()));
}

#[test]
fn gb_header_session_plan() {
    let plan = gb::dump_gb();
    assert_eq!(plan.len(), 3 + 28 + 1);
    assert_eq!(plan[0], Step::Transfer(inlretro::io::reset()));
    assert_eq!(plan[1], Step::Transfer(inlretro::io::gameboy_init()));
    assert_eq!(plan[2], Step::Transfer(inlretro::io::gb_power_5v()));
    assert_eq!(plan[3], Step::Transfer(gb::rom_rd(0x146)));
    assert_eq!(plan[31], Step::Transfer(inlretro::io::reset()));
}
