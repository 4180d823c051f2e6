//! Trusted boundary to the `rusb` USB host-controller crate.
//!
//! Everything the library needs from the USB transport passes through the
//! declarations and wrappers in this module; their contracts state only what
//! the `rusb` documentation promises of each call.

use crate::version::Version;
use rusb::Error as RusbError;
use std::time::Duration;
use vstd::prelude::*;

verus! {

/// The `rusb` error enum, carried through opaquely and surfaced verbatim.
#[verifier::external_type_specification]
#[verifier::external_body]
pub struct ExRusbError(RusbError);

/// The `libusb` context shared by the whole process.
#[verifier::external_type_specification]
#[verifier::external_body]
pub struct ExGlobalContext(rusb::GlobalContext);

/// A cached USB device descriptor.
#[verifier::external_type_specification]
#[verifier::external_body]
pub struct ExDeviceDescriptor(rusb::DeviceDescriptor);

/// A reference to a detected USB device, under the process-wide context.
///
/// `rusb::Device` is generic over its context with an `rusb`-trait bound that
/// Verus refuses to declare, so the concrete instantiation is held opaquely in
/// a field instead.
#[verifier::external_body]
pub struct UsbDevice {
    dev: rusb::Device<rusb::GlobalContext>,
}

/// A handle to an open USB device, under the process-wide context.
///
/// Held opaquely for the same reason as [`UsbDevice`].
#[verifier::external_body]
pub struct UsbHandle {
    dh: rusb::DeviceHandle<rusb::GlobalContext>,
}

/// What `String::from_utf8_lossy` yields on a byte sequence; the result
/// depends on the bytes alone.
pub uninterp spec fn lossy_utf8(bytes: Seq<u8>) -> Seq<char>;

/// Relies on `rusb::devices` and `rusb::DeviceList::iter`: list the USB
/// devices the host currently sees. Which devices come back depends on the
/// machine, so nothing is promised of the result.
#[verifier::external_body]
pub(crate) fn list_devices() -> Result<Vec<UsbDevice>, rusb::Error> {
    let list = match rusb::devices() {
        Ok(list) => list,
        Err(e) => return Err(e),
    };
    let mut out: Vec<UsbDevice> = Vec::new();
    for dev in list.iter() {
        out.push(UsbDevice { dev });
    }
    Ok(out)
}

/// Relies on `rusb::Device::device_descriptor`: read the device descriptor.
#[verifier::external_body]
pub(crate) fn device_descriptor(dev: &UsbDevice) -> Result<rusb::DeviceDescriptor, rusb::Error> {
    dev.dev.device_descriptor()
}

/// Relies on `rusb::DeviceDescriptor::vendor_id`: the device's vendor ID.
#[verifier::external_body]
pub(crate) fn descriptor_vendor_id(desc: &rusb::DeviceDescriptor) -> u16 {
    desc.vendor_id()
}

/// Relies on `rusb::DeviceDescriptor::product_id`: the device's product ID.
#[verifier::external_body]
pub(crate) fn descriptor_product_id(desc: &rusb::DeviceDescriptor) -> u16 {
    desc.product_id()
}

/// Relies on `rusb::DeviceDescriptor::device_version`: the device's packed
/// BCD version field, decoded by `rusb::Version::from_bcd` into major, minor
/// and sub-minor parts, which this wrapper copies out field by field.
/// `rusb`'s decode of the 16-bit field is the same nibble-wise split this
/// library's `Version::from_bcd` states, so the result is the BCD decode of
/// some packed 16-bit value — the raw field itself is not reachable through
/// `rusb`.
#[verifier::external_body]
pub(crate) fn descriptor_device_version(desc: &rusb::DeviceDescriptor) -> (r: Version)
    ensures
        crate::version::is_bcd_decoded(r),
{
    let v: rusb::Version = desc.device_version();
    Version { major: v.0, minor: v.1, sub_minor: v.2 }
}

/// Relies on `rusb::Device::open`: open the device and return a handle.
#[verifier::external_body]
pub(crate) fn open_device(dev: &UsbDevice) -> Result<UsbHandle, rusb::Error> {
    match dev.dev.open() {
        Ok(dh) => Ok(UsbHandle { dh }),
        Err(e) => Err(e),
    }
}

/// Relies on `std::time::Duration::from_millis`: a timeout of `ms`
/// milliseconds.
#[verifier::external_body]
pub(crate) fn timeout_from_millis(ms: u64) -> Duration {
    Duration::from_millis(ms)
}

/// Relies on `rusb::DeviceHandle::read_control`, with the request type for a
/// vendor-specific device-to-host transfer built by `rusb::request_type`:
/// issue a control-in transfer. On `Ok(n)`, `rusb` documents that exactly the
/// first `n` bytes of `buf` were filled with data received from the device,
/// and `n` is at most the requested length.
#[verifier::external_body]
pub(crate) fn read_control(
    dh: &UsbHandle,
    request: u8,
    value: u16,
    index: u16,
    buf: &mut Vec<u8>,
    timeout: Duration,
) -> (r: Result<usize, rusb::Error>)
    requires
        old(buf).len() <= 0xFFFF,
    ensures
        final(buf).len() == old(buf).len(),
        r is Ok ==> r->Ok_0 <= old(buf).len(),
{
    let rt: u8 = rusb::request_type(rusb::Direction::In, rusb::RequestType::Vendor, rusb::Recipient::Device);
    dh.dh.read_control(rt, request, value, index, buf.as_mut_slice(), timeout)
}

/// Relies on `rusb::DeviceHandle::write_control`, with the request type for a
/// vendor-specific host-to-device transfer built by `rusb::request_type`:
/// issue a control-out transfer. On `Ok(n)`, `rusb` documents that `n` bytes
/// of `buf` were transferred, and `n` is at most `buf.len()`.
#[verifier::external_body]
pub(crate) fn write_control(
    dh: &UsbHandle,
    request: u8,
    value: u16,
    index: u16,
    buf: &[u8],
    timeout: Duration,
) -> (r: Result<usize, rusb::Error>)
    requires
        buf.len() <= 0xFFFF,
    ensures
        r is Ok ==> r->Ok_0 <= buf.len(),
{
    let rt: u8 = rusb::request_type(rusb::Direction::Out, rusb::RequestType::Vendor, rusb::Recipient::Device);
    dh.dh.write_control(rt, request, value, index, buf, timeout)
}

/// Relies on `rusb::DeviceHandle::read_bulk`: issue one bulk-in transfer on
/// `endpoint`. On `Ok(n)`, `rusb` documents that `buf` was filled with `n`
/// bytes received from the endpoint, and `n` is at most `buf.len()`.
#[verifier::external_body]
pub(crate) fn read_bulk(
    dh: &UsbHandle,
    endpoint: u8,
    buf: &mut Vec<u8>,
    timeout: Duration,
) -> (r: Result<usize, rusb::Error>)
    requires
        old(buf).len() <= 0x7FFFFFFF,
    ensures
        final(buf).len() == old(buf).len(),
        r is Ok ==> r->Ok_0 <= old(buf).len(),
{
    dh.dh.read_bulk(endpoint, buf.as_mut_slice(), timeout)
}

/// Relies on `String::from_utf8_lossy`: decode bytes as UTF-8, replacing
/// invalid sequences. The result depends on the bytes alone; an empty input
/// yields an empty string.
#[verifier::external_body]
pub(crate) fn lossy_string(bytes: &[u8]) -> (r: String)
    ensures
        r@ == lossy_utf8(bytes@),
        bytes@.len() == 0 ==> r@.len() == 0,
{
    String::from_utf8_lossy(bytes).into_owned()
}

} // verus!
