//! Numeric values of the device's dictionaries: the subsystem selectors that
//! go in `bRequest` and the opcodes and operands of each subsystem.
use vstd::prelude::*;

verus! {

// Subsystem selectors (bRequest).
pub const DICT_PINPORT: u8 = 1;
pub const DICT_IO: u8 = 2;
pub const DICT_NES: u8 = 3;
pub const DICT_SNES: u8 = 4;
pub const DICT_BUFFER: u8 = 5;
pub const DICT_OPER: u8 = 7;
pub const DICT_BOOTLOAD: u8 = 10;
pub const DICT_GB: u8 = 12;
pub const DICT_GBA: u8 = 13;
pub const DICT_GEN: u8 = 14;

// IO dictionary.
pub const IO_RESET: u8 = 0;
pub const NES_INIT: u8 = 1;
pub const SNES_INIT: u8 = 2;
pub const GAMEBOY_INIT: u8 = 5;
pub const GBA_INIT: u8 = 6;
pub const SEGA_INIT: u8 = 7;
pub const GB_POWER_5V: u8 = 9;
pub const GB_POWER_3V: u8 = 10;
pub const EXP0_PULLUP_TEST: u8 = 0x80;

// NES dictionary.
pub const DISCRETE_EXP0_PRGROM_WR: u8 = 0x00;
pub const NES_PPU_WR: u8 = 0x01;
pub const NES_CPU_WR: u8 = 0x02;
pub const NES_MMC1_WR: u8 = 0x04;
pub const NES_CPU_RD: u8 = 0x81;
pub const NES_PPU_RD: u8 = 0x82;

// SNES dictionary.
pub const SNES_SET_BANK: u8 = 0x00;
pub const SNES_ROM_RD: u8 = 0x01;
pub const SNES_ROM_WR: u8 = 0x02;
pub const FLASH_WR_5V: u8 = 0x03;
pub const FLASH_WR_3V: u8 = 0x04;
pub const SNES_SYS_RD: u8 = 0x05;
pub const SNES_SYS_WR: u8 = 0x06;

// Game Boy dictionary.
pub const GAMEBOY_RD: u8 = 0x00;

// GBA dictionary.
pub const GBA_RD: u8 = 0x00;
pub const GBA_LATCH_ADDR: u8 = 0x02;
pub const GBA_RELEASE_BUS: u8 = 0x03;

// Genesis dictionary.
pub const GEN_SET_ADDR: u8 = 0;
pub const GEN_ROM_RD: u8 = 1;
pub const GEN_SET_BANK: u8 = 2;

// Buffer dictionary.
pub const RAW_BUFFER_RESET: u8 = 0x00;
pub const SET_MEM_N_PART: u8 = 0x30;
pub const SET_MAP_N_MAPVAR: u8 = 0x32;
pub const GET_CUR_BUFF_STATUS: u8 = 0x61;
pub const BUFF_PAYLOAD: u8 = 0x70;
pub const ALLOCATE_BUFFER0: u8 = 0x80;
pub const ALLOCATE_BUFFER1: u8 = 0x81;
pub const SET_RELOAD_PAGENUM0: u8 = 0x90;
pub const SET_RELOAD_PAGENUM1: u8 = 0x91;

// Memory kinds a buffer reads from (operand of SET_MEM_N_PART).
pub const NESCPU_4KB: u8 = 0x20;
pub const NESPPU_1KB: u8 = 0x21;
pub const SNESROM_PAGE: u8 = 0x24;
pub const SNESSYS_PAGE: u8 = 0x25;
pub const GAMEBOY_PAGE: u8 = 0x26;
pub const GBA_ROM_PAGE: u8 = 0x27;
pub const GENESIS_ROM_PAGE0: u8 = 0x28;
pub const GENESIS_ROM_PAGE1: u8 = 0x29;
pub const GENESIS_RAM_PAGE: u8 = 0x33;

// Part number written beside the memory kind.
pub const PART_DEFAULT: u8 = 0xDD;

// Buffer states reported by GET_CUR_BUFF_STATUS.
pub const STATUS_DUMPED: u8 = 0xD8;

// Operation dictionary.
pub const SET_OPERATION: u8 = 0x00;
pub const COPY_BUFF0_TO_ELEMENTS: u8 = 0x01;
pub const COPY_ELEMENTS_TO_BUFF0: u8 = 0x02;
pub const SET_OPER_FUNC: u8 = 0x03;
pub const SET_RD_FUNC: u8 = 0x04;
pub const SET_WR_MEM_FUNC: u8 = 0x05;
pub const SET_WR_MAP_FUNC: u8 = 0x06;
pub const GET_OPERATION: u8 = 0x40;

// Operations (operand of SET_OPERATION).
pub const OPERATION_RESET: u16 = 0x01;
pub const OPERATION_STARTDUMP: u16 = 0xD2;

// Bootloader dictionary.
pub const LOAD_ADDRH: u8 = 2;
pub const JUMP_ADDR: u8 = 3;
pub const PREP_FWUPDATE: u8 = 4;
pub const SET_PTR_HI: u8 = 5;
pub const SET_PTR_LO: u8 = 6;
pub const GET_PTR: u8 = 7;
pub const RD_PTR_OFFSET: u8 = 8;
pub const WR_PTR_OFFSET: u8 = 9;
pub const RD_PTR_OFF_UP: u8 = 10;
pub const WR_PTR_OFF_UP: u8 = 11;
pub const GET_APP_VER: u8 = 12;

// Application version this host expects from the firmware.
pub const APP_VERSION: u8 = 3;

// Pinport dictionary.
pub const CTL_ENABLE: u8 = 0;
pub const CTL_IP_PU: u8 = 1;
pub const CTL_IP_FL: u8 = 2;
pub const CTL_OP: u8 = 3;
pub const CTL_SET_LO: u8 = 4;
pub const CTL_SET_HI: u8 = 5;
pub const CTL_RD: u8 = 6;
pub const DATA_ENABLE: u8 = 7;
pub const DATA_IP_PU: u8 = 8;
pub const DATA_IP: u8 = 9;
pub const DATA_OP: u8 = 10;
pub const DATA_SET: u8 = 11;
pub const DATA_RD: u8 = 12;
pub const ADDR_ENABLE: u8 = 13;
pub const ADDR_PU: u8 = 14;
pub const ADDR_IP: u8 = 15;
pub const ADDR_OP: u8 = 16;
pub const ADDR_SET: u8 = 17;
pub const EXP_ENABLE: u8 = 18;
pub const EXP_DISABLE: u8 = 19;
pub const EXP_SET: u8 = 20;
pub const HADDR_ENABLE: u8 = 21;
pub const HADDR_DISABLE: u8 = 22;
pub const HADDR_SET: u8 = 23;
pub const CTL_OD: u8 = 24;
pub const CTL_PP: u8 = 25;
pub const ADDR_RD: u8 = 26;
pub const FFADDR_ENABLE: u8 = 27;
pub const FFADDR_DISABLE: u8 = 28;
pub const FFADDR_SET: u8 = 29;

// Control port pins (operand of CTL_RD).
pub const PIN_CIA10: u16 = 11;

} // verus!
