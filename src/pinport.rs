//! The pinport dictionary: direct access to the device's address and control
//! pins.
use vstd::prelude::*;

use crate::opcodes::{ADDR_SET, CTL_RD, DICT_PINPORT};
use crate::transport::{read_device, spec_request, ControlRequest};

verus! {

/// Drives `address` onto the address bus.
pub fn addr_set(address: u16) -> (r: ControlRequest)
    ensures
        r == spec_request(DICT_PINPORT, ADDR_SET, address, 0, 1, true),
{
    read_device(DICT_PINPORT, ADDR_SET, address, 0, 1)
}

/// Reads control pin `operand`; the response carries a 16-bit word, low
/// byte first.
pub fn ctl_rd(operand: u16) -> (r: ControlRequest)
    ensures
        r == spec_request(DICT_PINPORT, CTL_RD, operand, 0, 4, true),
{
    read_device(DICT_PINPORT, CTL_RD, operand, 0, 4)
}

} // verus!
