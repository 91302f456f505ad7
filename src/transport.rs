//! One vendor control transfer: how a request is laid out on the wire and how
//! its response is judged.
use vstd::prelude::*;

verus! {

/// `bmRequestType` of every transfer the device takes: direction in, vendor
/// request, recipient device.
pub const VENDOR_IN: u8 = 0xC0;

/// Why a dump stopped.
#[derive(Debug, Clone, Copy, PartialEq, Eq, Structural)]
pub enum DumpError {
    /// The transfer failed or returned fewer bytes than asked for.
    Transport,
    /// The device answered with a nonzero status byte.
    Device(u8),
    /// A buffer never reached the dumped state within the attempt budget.
    PollTimeout,
    /// The request cannot be carried out as configured.
    Configuration,
    /// The device's firmware is older than this host supports.
    Version,
}

/// The status byte at the head of a checked response.
#[derive(Debug, Clone, Copy, PartialEq, Eq, Structural)]
pub enum DeviceStatus {
    Success,
    Error(u8),
}

/// A control transfer, direction in, as it goes on the wire.
#[derive(Debug, Clone, Copy, PartialEq, Eq, Structural)]
pub struct ControlRequest {
    pub request_type: u8,
    /// Subsystem selector (`bRequest`).
    pub request: u8,
    /// `wValue`: misc byte high, opcode low.
    pub value: u16,
    /// `wIndex`: the operand.
    pub index: u16,
    /// Number of bytes the response must hold.
    pub length: u16,
    /// Whether byte 0 of the response is a status byte.
    pub checked: bool,
}

pub open spec fn spec_encode(opcode: u8, misc: u8) -> u16 {
    (misc as int * 256 + opcode as int) as u16
}

pub open spec fn spec_decode(value: u16) -> (u8, u8) {
    ((value as int % 256) as u8, (value as int / 256) as u8)
}

/// Lays out `wValue`: the misc byte in the high half, the opcode in the low.
pub fn encode_value(opcode: u8, misc: u8) -> (r: u16)
    ensures
        r == spec_encode(opcode, misc),
        r as int == misc as int * 256 + opcode as int,
{
    (misc as u16) * 256 + (opcode as u16)
}

/// Splits `wValue` back into opcode and misc byte.
pub fn decode_value(value: u16) -> (r: (u8, u8))
    ensures
        r == spec_decode(value),
{
    ((value % 256) as u8, (value / 256) as u8)
}

/// Encoding an opcode and misc byte into `wValue` and decoding it gives the
/// same pair back, and every `wValue` is the encoding of its decoding.
pub proof fn lemma_value_round_trip(opcode: u8, misc: u8, value: u16)
    ensures
        spec_decode(spec_encode(opcode, misc)) == (opcode, misc),
        spec_encode(spec_decode(value).0, spec_decode(value).1) == value,
{
}

/// Relies on rusb::request_type: the bit field of an inbound vendor request
/// to the device, `0x80 | 0x40 | 0x00`.
#[verifier::external_body]
fn vendor_in_request_type() -> (r: u8)
    ensures
        r == VENDOR_IN,
{
    rusb::request_type(rusb::Direction::In, rusb::RequestType::Vendor, rusb::Recipient::Device)
}

pub open spec fn spec_request(
    request: u8,
    opcode: u8,
    operand: u16,
    misc: u8,
    length: u16,
    checked: bool,
) -> ControlRequest {
    ControlRequest {
        request_type: VENDOR_IN,
        request,
        value: spec_encode(opcode, misc),
        index: operand,
        length,
        checked,
    }
}

/// A transfer whose response starts with a status byte.
pub fn read_device(request: u8, opcode: u8, operand: u16, misc: u8, length: u16) -> (r:
    ControlRequest)
    ensures
        r == spec_request(request, opcode, operand, misc, length, true),
{
    ControlRequest {
        request_type: vendor_in_request_type(),
        request,
        value: encode_value(opcode, misc),
        index: operand,
        length,
        checked: true,
    }
}

/// A transfer whose response is raw payload, with no status byte.
pub fn read_device_no_check(request: u8, opcode: u8, operand: u16, misc: u8, length: u16) -> (r:
    ControlRequest)
    ensures
        r == spec_request(request, opcode, operand, misc, length, false),
{
    ControlRequest {
        request_type: vendor_in_request_type(),
        request,
        value: encode_value(opcode, misc),
        index: operand,
        length,
        checked: false,
    }
}

pub open spec fn spec_status(code: u8) -> DeviceStatus {
    if code == 0 {
        DeviceStatus::Success
    } else {
        DeviceStatus::Error(code)
    }
}

/// Names a status byte.
pub fn device_status(code: u8) -> (r: DeviceStatus)
    ensures
        r == spec_status(code),
{
    if code == 0 {
        DeviceStatus::Success
    } else {
        DeviceStatus::Error(code)
    }
}

/// What a response to `req` means, given the bytes in `resp` of which
/// `received` arrived: too few bytes is a transport failure; on a checked
/// transfer a nonzero status byte is a device error.
pub open spec fn spec_check(req: ControlRequest, resp: Seq<u8>, received: nat) -> Result<(), DumpError> {
    if received < req.length || resp.len() < req.length || resp.len() == 0 {
        Err(DumpError::Transport)
    } else if req.checked && resp[0] != 0 {
        Err(DumpError::Device(resp[0]))
    } else {
        Ok(())
    }
}

/// Judges a response strictly: a short read fails with `Transport`, a nonzero
/// status byte on a checked transfer with `Device(code)`.
pub fn check_response(req: &ControlRequest, resp: &[u8], received: usize) -> (r: Result<
    (),
    DumpError,
>)
    ensures
        r == spec_check(*req, resp@, received as nat),
{
    if received < req.length as usize || resp.len() < req.length as usize || resp.len() == 0 {
        Err(DumpError::Transport)
    } else if req.checked && resp[0] != 0 {
        Err(DumpError::Device(resp[0]))
    } else {
        Ok(())
    }
}

/// Judges a response leniently: a short read still fails, but a nonzero status
/// byte is handed back for the caller to report rather than failing.
pub fn response_status(req: &ControlRequest, resp: &[u8], received: usize) -> (r: Result<
    DeviceStatus,
    DumpError,
>)
    ensures
        spec_check(*req, resp@, received as nat) == Err::<(), DumpError>(DumpError::Transport)
            ==> r == Err::<DeviceStatus, DumpError>(DumpError::Transport),
        spec_check(*req, resp@, received as nat) != Err::<(), DumpError>(DumpError::Transport)
            ==> r == Ok::<DeviceStatus, DumpError>(
            if req.checked {
                spec_status(resp[0])
            } else {
                DeviceStatus::Success
            },
        ),
{
    if received < req.length as usize || resp.len() < req.length as usize || resp.len() == 0 {
        Err(DumpError::Transport)
    } else if req.checked {
        Ok(device_status(resp[0]))
    } else {
        Ok(DeviceStatus::Success)
    }
}

/// The one data byte of a three-byte response.
pub fn payload_byte(resp: &[u8]) -> (r: u8)
    requires
        resp@.len() >= 3,
    ensures
        r == resp@[2],
{
    resp[2]
}

/// A 16-bit word sent least significant byte first after the status and
/// length bytes.
pub fn payload_u16_le(resp: &[u8]) -> (r: u16)
    requires
        resp@.len() >= 4,
    ensures
        r as int == resp@[3] as int * 256 + resp@[2] as int,
{
    (resp[3] as u16) * 256 + (resp[2] as u16)
}

/// A 16-bit word sent most significant byte first after the status and
/// length bytes.
pub fn payload_u16_be(resp: &[u8]) -> (r: u16)
    requires
        resp@.len() >= 4,
    ensures
        r as int == resp@[2] as int * 256 + resp@[3] as int,
{
    (resp[2] as u16) * 256 + (resp[3] as u16)
}

} // verus!
