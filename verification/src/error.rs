//! The error kinds every fallible operation of this library distinguishes:
//! transport failures, transfer-length mismatches, too-old firmware, and
//! out-of-range or device-rejected arguments.

use crate::version::Version;
use vstd::prelude::*;

verus! {

/// Control transfer direction, as recorded in a transfer-length error.
#[derive(Debug, Clone, Copy, PartialEq, Eq, Structural)]
pub enum Direction {
    /// Device-to-host (read) transfer.
    In,
    /// Host-to-device (write) transfer.
    Out,
}

/// HackRF One errors.
#[derive(Debug, Clone, Copy, PartialEq, Eq)]
pub enum Error {
    /// USB error, surfaced verbatim from the transport.
    Usb(rusb::Error),
    /// Failed to transfer all bytes in a control transfer.
    CtrlTransfer {
        /// Control transfer direction.
        dir: Direction,
        /// Actual amount of bytes transferred.
        actual: usize,
        /// Expected number of bytes transferred.
        expected: usize,
    },
    /// An API call is not supported by the device's firmware version.
    Version {
        /// Current device version.
        device: Version,
        /// Minimum version required.
        min: Version,
    },
    /// A provided argument was out of range, or the device rejected it.
    Argument,
}

/// A failure of a control-in transfer that expected `n` bytes: a USB error
/// surfaced verbatim, or a length mismatch recording direction In, that
/// expected count, and the differing actual count. Never a version or
/// argument rejection.
pub open spec fn is_ctrl_in_failure(e: Error, n: int) -> bool {
    ||| e is Usb
    ||| (e matches Error::CtrlTransfer { dir, actual, expected } && dir == Direction::In
        && expected == n && actual != n)
}

/// A failure of a control-out transfer that carried `n` payload bytes: a
/// USB error surfaced verbatim, or a length mismatch recording direction
/// Out, that expected count, and the differing actual count. Never a
/// version or argument rejection.
pub open spec fn is_ctrl_out_failure(e: Error, n: int) -> bool {
    ||| e is Usb
    ||| (e matches Error::CtrlTransfer { dir, actual, expected } && dir == Direction::Out
        && expected == n && actual != n)
}

impl From<rusb::Error> for Error {
    fn from(e: rusb::Error) -> (r: Self) {
        Error::Usb(e)
    }
}

impl vstd::std_specs::convert::FromSpecImpl<rusb::Error> for Error {
    open spec fn obeys_from_spec() -> bool {
        true
    }

    open spec fn from_spec(e: rusb::Error) -> Error {
        Error::Usb(e)
    }
}

} // verus!
