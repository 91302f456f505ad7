//! The operation dictionary: the device-wide operation all buffers follow.
use vstd::prelude::*;

use crate::opcodes::{DICT_OPER, SET_OPERATION};
use crate::transport::{read_device, spec_request, ControlRequest};

verus! {

/// Sets the global operation: `OPERATION_RESET` halts, `OPERATION_STARTDUMP`
/// starts the staged capture.
pub fn set_operation(operand: u16) -> (r: ControlRequest)
    ensures
        r == spec_request(DICT_OPER, SET_OPERATION, operand, 0, 1, true),
{
    read_device(DICT_OPER, SET_OPERATION, operand, 0, 1)
}

} // verus!
