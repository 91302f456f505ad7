use inlretro::genesis::{
    double_bytes, dump_ram, dump_rom, get_header, match_extra_memory_type, parse_header,
    save_ram_supported, set_bank,
};
use inlretro::session::{ChunkDump, Step};

#[test]
fn save_ram_byte_doubling() {
    assert_eq!(double_bytes(&[0x12, 0x34]), vec![0xFF, 0x12, 0xFF, 0x34]);
    assert_eq!(double_bytes(&[]), Vec::<u8>::new());
    assert_eq!(double_bytes(&[0xFF]), vec![0xFF, 0xFF]);
}

/// Readback for a header whose bytes are `bytes` from 0x100 on: each word is
/// returned most significant byte first, and a word's low byte is the
/// header byte at the even address.
fn readback(bytes: &[u8; 0x100]) -> Vec<u8> {
    let mut rb = Vec::new();
    let words: Vec<usize> = (0x80..0xDE).chain(0xF8..0xFA).collect();
    for w in words {
        let off = 2 * w - 0x100;
        rb.push(bytes[off + 1]);
        rb.push(bytes[off]);
    }
    rb
}

fn put(bytes: &mut [u8; 0x100], addr: usize, data: &[u8]) {
    bytes[addr - 0x100..addr - 0x100 + data.len()].copy_from_slice(data);
}

#[test]
fn header_from_readback() {
    let mut b = [b' '; 0x100];
    put(&mut b, 0x100, b"SEGA MEGA DRIVE ");
    put(&mut b, 0x110, b"(C)SEGA 1991.APR");
    put(&mut b, 0x120, b"SONIC THE HEDGEHOG");
    put(&mut b, 0x150, b"SONIC THE HEDGEHOG OVERSEAS");
    put(&mut b, 0x180, b"GM 00001009-00");
    put(&mut b, 0x18E, &[0x26, 0x4A]);
    put(&mut b, 0x190, b"J               ");
    put(&mut b, 0x1A0, &[0, 0, 0, 0, 0xFF, 0x07, 0xFF, 0xFF]);
    put(&mut b, 0x1A8, &[0xFF, 0, 0, 0, 0xFF, 0xFF, 0xFF, 0xFF]);
    put(&mut b, 0x1B0, b"RA\xF8\x20\x00\x20\x00\x01\x00\x20\x3F\xFF");
    put(&mut b, 0x1F0, b"JUE ");
    let h = parse_header(&readback(&b));
    assert_eq!(h.system_type, "SEGA MEGA DRIVE ");
    assert_eq!(h.copyright, "(C)SEGA 1991.APR");
    assert!(h.rom_name_domestic.starts_with("SONIC THE HEDGEHOG"));
    assert!(h.rom_name_overseas.starts_with("SONIC THE HEDGEHOG OVERSEAS"));
    assert_eq!(h.serial_number, "GM 00001009-00");
    assert_eq!(h.checksum, 0x4A26);
    assert_eq!(h.rom_size, 512);
    assert_eq!(h.devices_supported[0], b'J');
    assert_eq!(h.region_support, b"JUE".to_vec());
    assert!(h.extra_memory);
    assert_eq!(h.extra_memory_type, 0xF8);
    assert!(save_ram_supported(&h));
    // Odd bytes from 0x200001 to 0x203FFF: 16 KB.
    assert_eq!(h.extra_memory_size, 16);
}

#[test]
fn header_without_extra_memory() {
    let b = [0u8; 0x100];
    let h = parse_header(&readback(&b));
    assert!(!h.extra_memory);
    assert_eq!(h.extra_memory_type, 0);
    assert_eq!(h.extra_memory_size, 0);
    assert_eq!(h.rom_size, 0);
    assert!(!save_ram_supported(&h));
}

#[test]
fn genesis_header_reads() {
    let plan = get_header();
    assert_eq!(plan.len(), 97);
    assert_eq!(plan[0], Step::Transfer(set_bank(0)));
    match (plan[1], plan[95], plan[96]) {
        (Step::Transfer(a), Step::Transfer(b), Step::Transfer(c)) => {
            assert_eq!((a.request, a.value, a.index, a.length), (14, 1, 0x80, 4));
            assert_eq!(b.index, 0xF8);
            assert_eq!(c.index, 0xF9);
        }
        _ => panic!("header reads are single transfers"),
    }
}

#[test]
fn genesis_rom_and_ram_plans() {
    let mut b = [0u8; 0x100];
    put(&mut b, 0x1B0, b"RA\xF8\x20\x00\x20\x00\x01\x00\x20\x3F\xFF");
    let mut h = parse_header(&readback(&b));
    h.extra_memory_size = 32;
    let ram = dump_ram(&h);
    assert_eq!(ram.len(), 4);
    assert_eq!(ram[0], Step::Transfer(set_bank(0x10)));
    assert_eq!(ram[2], Step::Transfer(set_bank(0x11)));
    assert_eq!(ram[3], Step::Dump(ChunkDump { size_kb: 8, map: 0x00, mem: 0x33 }));
    h.rom_size = 512;
    let rom = dump_rom(&h);
    assert_eq!(rom.len(), 12);
    assert_eq!(rom[3], Step::Transfer(set_bank(1)));
    assert_eq!(rom[4], Step::Dump(ChunkDump { size_kb: 64, map: 0x00, mem: 0x28 }));
    assert_eq!(rom[5], Step::Dump(ChunkDump { size_kb: 64, map: 0x00, mem: 0x29 }));
    assert_eq!(match_extra_memory_type(0xF8), Some("Save 8-bit (odd addresses)"));
    assert!(match_extra_memory_type(0x00).is_none());
}
