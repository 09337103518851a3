//! Recognising the wheel among the HID devices that the host lists.

use vstd::prelude::*;
use vstd::string::StringSliceAdditionalSpecFns;

verus! {

/// USB vendor id of Logitech.
pub const LOGITECH_VENDOR_ID: u16 = 1133;

/// USB product id of the G29 wheel.
pub const G29_PRODUCT_ID: u16 = 49743;

/// Product string of the G29 wheel.
pub const G29_PRODUCT_STRING: &'static str = "G29 Driving Force Racing Wheel";

/// Whether a device's product string is that of the G29 wheel, byte for
/// byte.
pub open spec fn names_g29(product_string: Option<&str>) -> bool {
    match product_string {
        Some(s) => s.spec_bytes() == G29_PRODUCT_STRING.spec_bytes(),
        None => false,
    }
}

fn same_bytes(a: &[u8], b: &[u8]) -> (r: bool)
    ensures
        r == (a@ == b@),
{
    if a.len() != b.len() {
        return false;
    }
    for i in 0..a.len()
        invariant
            a@.len() == b@.len(),
            forall|k: int| 0 <= k < i ==> a@[k] == b@[k],
    {
        if a[i] != b[i] {
            return false;
        }
    }
    assert(a@ =~= b@);
    true
}

/// Whether a device, described by its HID attributes, is the input
/// interface of a G29 wheel: a Logitech device named or numbered as the
/// G29, on interface 0 or in the generic desktop usage page.
pub fn is_logitech_g29(
    vendor_id: u16,
    product_string: Option<&str>,
    product_id: u16,
    interface_number: i32,
    usage_page: u16,
) -> (r: bool)
    ensures
        r == (vendor_id == LOGITECH_VENDOR_ID && (names_g29(product_string) || product_id
            == G29_PRODUCT_ID) && (interface_number == 0 || usage_page == 1)),
{
    let named = match product_string {
        Some(s) => same_bytes(s.as_bytes(), G29_PRODUCT_STRING.as_bytes()),
        None => false,
    };
    vendor_id == LOGITECH_VENDOR_ID && (named || product_id == G29_PRODUCT_ID) && (
    interface_number == 0 || usage_page == 1)
}

} // verus!
