//! The IO dictionary: resets and per-console initialisation of the device.
use vstd::prelude::*;

use crate::opcodes::{
    DICT_IO, EXP0_PULLUP_TEST, GAMEBOY_INIT, GBA_INIT, GB_POWER_3V, GB_POWER_5V, IO_RESET, NES_INIT,
    SEGA_INIT, SNES_INIT,
};
use crate::transport::{read_device, spec_request, ControlRequest};

verus! {

/// Returns every pin to its idle state.
pub fn reset() -> (r: ControlRequest)
    ensures
        r == spec_request(DICT_IO, IO_RESET, 0, 0, 1, true),
{
    read_device(DICT_IO, IO_RESET, 0, 0, 1)
}

/// Sets the pins up for an NES cartridge.
pub fn nes_init() -> (r: ControlRequest)
    ensures
        r == spec_request(DICT_IO, NES_INIT, 0, 0, 1, true),
{
    read_device(DICT_IO, NES_INIT, 0, 0, 1)
}

/// Sets the pins up for an SNES cartridge.
pub fn snes_init() -> (r: ControlRequest)
    ensures
        r == spec_request(DICT_IO, SNES_INIT, 0, 0, 1, true),
{
    read_device(DICT_IO, SNES_INIT, 0, 0, 1)
}

/// Sets the pins up for a Game Boy cartridge.
pub fn gameboy_init() -> (r: ControlRequest)
    ensures
        r == spec_request(DICT_IO, GAMEBOY_INIT, 0, 0, 1, true),
{
    read_device(DICT_IO, GAMEBOY_INIT, 0, 0, 1)
}

/// Sets the pins up for a Game Boy Advance cartridge.
pub fn gba_init() -> (r: ControlRequest)
    ensures
        r == spec_request(DICT_IO, GBA_INIT, 0, 0, 1, true),
{
    read_device(DICT_IO, GBA_INIT, 0, 0, 1)
}

/// Sets the pins up for a Genesis cartridge.
pub fn genesis_init() -> (r: ControlRequest)
    ensures
        r == spec_request(DICT_IO, SEGA_INIT, 0, 0, 1, true),
{
    read_device(DICT_IO, SEGA_INIT, 0, 0, 1)
}

/// Powers the Game Boy slot at 5 V.
pub fn gb_power_5v() -> (r: ControlRequest)
    ensures
        r == spec_request(DICT_IO, GB_POWER_5V, 0, 0, 1, true),
{
    read_device(DICT_IO, GB_POWER_5V, 0, 0, 1)
}

/// Powers the Game Boy slot at 3 V.
pub fn gb_power_3v() -> (r: ControlRequest)
    ensures
        r == spec_request(DICT_IO, GB_POWER_3V, 0, 0, 1, true),
{
    read_device(DICT_IO, GB_POWER_3V, 0, 0, 1)
}

/// Tests the EXP0 pull-up; the result is the data byte of the response.
pub fn exp0_pullup_test() -> (r: ControlRequest)
    ensures
        r == spec_request(DICT_IO, EXP0_PULLUP_TEST, 0, 0, 3, true),
{
    read_device(DICT_IO, EXP0_PULLUP_TEST, 0, 0, 3)
}

} // verus!
