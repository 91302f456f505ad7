//! The bootloader dictionary and the firmware checks made before any dump.
use vstd::prelude::*;

use crate::opcodes::{APP_VERSION, DICT_BOOTLOAD, GET_APP_VER};
use crate::text::same_text;
use crate::transport::{read_device, spec_request, ControlRequest, DumpError};

verus! {

/// Lowest firmware major version this host works with.
pub const MIN_MAJOR_FW_VERSION: u8 = 2;

/// USB vendor id of the device.
pub const VENDOR_ID: u16 = 0x16C0;

/// USB product id of the device.
pub const PRODUCT_ID: u16 = 0x05DC;

/// Asks for the application version; it is the data byte of the response.
pub fn get_app_ver() -> (r: ControlRequest)
    ensures
        r == spec_request(DICT_BOOTLOAD, GET_APP_VER, 0, 0, 3, true),
{
    read_device(DICT_BOOTLOAD, GET_APP_VER, 0, 0, 3)
}

/// Whether the application version the device reported is the one this host
/// speaks.
pub fn app_version_matches(reported: u8) -> (r: bool)
    ensures
        r == (reported == APP_VERSION),
{
    reported == APP_VERSION
}

/// A firmware version as the device descriptor gives it.
#[derive(Debug, Clone, Copy, PartialEq, Eq, Structural)]
pub struct FirmwareVersion {
    pub major: u8,
    pub minor: u8,
    pub sub_minor: u8,
}

pub open spec fn spec_version_ok(v: FirmwareVersion) -> bool {
    v.major >= MIN_MAJOR_FW_VERSION && (v.minor > 0 || v.sub_minor > 0)
}

/// Whether the firmware is recent enough: major version at least
/// `MIN_MAJOR_FW_VERSION`, and not an `x.0.0` release.
pub fn check_version(v: &FirmwareVersion) -> (r: bool)
    ensures
        r == spec_version_ok(*v),
{
    if v.major >= MIN_MAJOR_FW_VERSION {
        if v.minor > 0 {
            return true;
        }
        if v.sub_minor > 0 {
            return true;
        }
    }
    false
}

/// Whether a USB device is this programmer, from its vendor and product ids.
pub fn is_programmer_id(vendor_id: u16, product_id: u16) -> (r: bool)
    ensures
        r == (vendor_id == VENDOR_ID && product_id == PRODUCT_ID),
{
    vendor_id == VENDOR_ID && product_id == PRODUCT_ID
}

/// Whether the manufacturer and product strings of a device name this
/// programmer.
pub fn strings_match(manufacturer: &String, product: &String) -> (r: bool)
    ensures
        r == (manufacturer@ == "InfiniteNesLives.com"@ && product@ == "INL Retro-Prog"@),
{
    same_text(manufacturer, "InfiniteNesLives.com") && same_text(product, "INL Retro-Prog")
}

/// Decides whether a device may be used: it must name itself as the
/// programmer and run recent enough firmware.
pub fn accept_device(strings_match: bool, v: &FirmwareVersion) -> (r: Result<(), DumpError>)
    ensures
        !strings_match ==> r == Err::<(), DumpError>(DumpError::Configuration),
        strings_match && !spec_version_ok(*v) ==> r == Err::<(), DumpError>(DumpError::Version),
        strings_match && spec_version_ok(*v) ==> r == Ok::<(), DumpError>(()),
{
    if !strings_match {
        Err(DumpError::Configuration)
    } else if !check_version(v) {
        Err(DumpError::Version)
    } else {
        Ok(())
    }
}

} // verus!
