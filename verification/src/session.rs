//! Device session and mode typestate machine.
//!
//! A [`HackRfOne<MODE>`] owns the open transport handle, the cached device
//! version and the per-call timeout. The `MODE` tag decides at compile time
//! which operations exist: configuration and identification on
//! [`UnknownMode`], streaming on [`RxMode`]. Transitions consume the session
//! and return one tagged with the destination mode.
//!
//! Every USB transfer a session issues is recorded in a ghost transfer log,
//! so each operation's contract states exactly which requests — with which
//! fields, payloads and requested lengths — reach the device, and what each
//! device-to-host transfer yielded.

use crate::encode::MAX_LNA_GAIN;
use crate::encode::MAX_TXVGA_GAIN;
use crate::encode::MAX_VGA_GAIN;
use crate::encode::REQUEST_AMP_ENABLE;
use crate::encode::REQUEST_ANTENNA_ENABLE;
use crate::encode::REQUEST_BASEBAND_FILTER_BANDWIDTH_SET;
use crate::encode::REQUEST_BOARD_ID_READ;
use crate::encode::REQUEST_CLKOUT_ENABLE;
use crate::encode::REQUEST_RESET;
use crate::encode::REQUEST_SAMPLE_RATE_SET;
use crate::encode::REQUEST_SET_FREQ;
use crate::encode::REQUEST_SET_LNA_GAIN;
use crate::encode::REQUEST_SET_TRANSCEIVER_MODE;
use crate::encode::REQUEST_SET_TXVGA_GAIN;
use crate::encode::REQUEST_SET_VGA_GAIN;
use crate::encode::REQUEST_VERSION_STRING_READ;
use crate::encode::TRANSCEIVER_MODE_OFF;
use crate::encode::TRANSCEIVER_MODE_RECEIVE;
use crate::encode::auto_filter_bandwidth;
use crate::encode::auto_filter_bandwidth_spec;
use crate::encode::bandwidth_index;
use crate::encode::bandwidth_params;
use crate::encode::bandwidth_value;
use crate::encode::freq_params;
use crate::encode::freq_params_spec;
use crate::encode::gain_accepted;
use crate::encode::lna_gain_params;
use crate::encode::sample_rate_params;
use crate::encode::sample_rate_params_spec;
use crate::encode::txvga_gain_params;
use crate::encode::vga_gain_params;
use crate::error::Direction;
use crate::error::Error;
use crate::error::is_ctrl_in_failure;
use crate::error::is_ctrl_out_failure;
use crate::usb;
use crate::usb::UsbDevice;
use crate::usb::UsbHandle;
use crate::usb::lossy_utf8;
use crate::version::Version;
use crate::version::check_version;
use crate::version::is_bcd_decoded;
use std::time::Duration;
use vstd::prelude::*;

verus! {

/// HackRF USB vendor ID.
pub const HACKRF_USB_VID: u16 = 0x1D50;

/// HackRF One USB product ID.
pub const HACKRF_ONE_USB_PID: u16 = 0x6089;

/// The device's bulk-IN endpoint for sample data.
pub const RX_ENDPOINT: u8 = 0x81;

/// Maximum transfer unit of one streaming read, in bytes.
pub const RX_MTU: usize = 131072;

/// Default per-call transfer timeout, in milliseconds.
pub const DEFAULT_TIMEOUT_MS: u64 = 1000;

/// Typestate for RX mode.
#[derive(Debug)]
pub struct RxMode;

/// Typestate for an unknown mode.
#[derive(Debug)]
pub struct UnknownMode;

/// One USB transfer issued to the device, as the transfer log records it.
pub ghost enum Transfer {
    /// A vendor control-out request; `data` is the payload handed over.
    ControlOut {
        /// Vendor request code.
        request: u8,
        /// The 16-bit "value" field of the setup packet.
        value: u16,
        /// The 16-bit "index" field of the setup packet.
        index: u16,
        /// Payload written to the device.
        data: Seq<u8>,
    },
    /// A vendor control-in request asking for `length` bytes; `data` is
    /// what the device returned.
    ControlIn {
        /// Vendor request code.
        request: u8,
        /// The 16-bit "value" field of the setup packet.
        value: u16,
        /// The 16-bit "index" field of the setup packet.
        index: u16,
        /// Requested transfer length.
        length: int,
        /// Bytes the device returned.
        data: Seq<u8>,
    },
    /// A bulk-in transfer on `endpoint` for up to `max_len` bytes; `data`
    /// is what the device returned.
    BulkIn {
        /// Endpoint address of the transfer.
        endpoint: u8,
        /// Largest number of bytes the transfer asked for.
        max_len: int,
        /// Bytes the device returned.
        data: Seq<u8>,
    },
}

/// Minimum firmware version required by the device-reset command.
pub open spec fn reset_min_version() -> Version {
    Version { major: 1, minor: 2, sub_minor: 0 }
}

/// Minimum firmware version required by the CLKOUT enable command.
pub open spec fn clkout_min_version() -> Version {
    Version { major: 1, minor: 3, sub_minor: 0 }
}

/// The fields a session keeps across operations and mode transitions:
/// device version, timeout and transport handle all carried over unchanged.
pub open spec fn same_config<M1, M2>(a: HackRfOne<M1>, b: HackRfOne<M2>) -> bool {
    &&& b.spec_device_version() == a.spec_device_version()
    &&& b.timeout() == a.timeout()
    &&& b.handle() == a.handle()
}

/// A vendor control-out request with payload `data`.
pub open spec fn control_out(request: u8, value: u16, index: u16, data: Seq<u8>) -> Transfer {
    Transfer::ControlOut { request, value, index, data }
}

/// A vendor control-in request for `length` bytes that yielded `data`.
pub open spec fn control_in(request: u8, value: u16, index: u16, length: int, data: Seq<u8>) -> Transfer {
    Transfer::ControlIn { request, value, index, length, data }
}

/// A bulk-in transfer on `endpoint` for up to `max_len` bytes that yielded
/// `data`.
pub open spec fn bulk_in(endpoint: u8, max_len: int, data: Seq<u8>) -> Transfer {
    Transfer::BulkIn { endpoint, max_len, data }
}

/// HackRF One software defined radio.
pub struct HackRfOne<MODE> {
    dh: UsbHandle,
    dev_version: Version,
    #[allow(dead_code)]
    mode: MODE,
    to: Duration,
    issued: Ghost<Seq<Transfer>>,
}

impl<MODE> HackRfOne<MODE> {
    /// The USB transfers this session has issued, oldest first.
    pub closed spec fn log(self) -> Seq<Transfer> {
        self.issued@
    }

    /// The cached device version from the USB descriptor.
    pub closed spec fn spec_device_version(self) -> Version {
        self.dev_version
    }

    /// The per-call transfer timeout.
    pub closed spec fn timeout(self) -> Duration {
        self.to
    }

    /// The owned transport handle.
    pub closed spec fn handle(self) -> UsbHandle {
        self.dh
    }

    /// Get the device version from the USB descriptor.
    pub fn device_version(&self) -> (v: Version)
        ensures
            v == self.spec_device_version(),
    {
        self.dev_version
    }

    /// Set the timeout for USB transfers; it applies to every subsequent
    /// control and bulk transfer on this session.
    pub fn set_timeout(&mut self, duration: Duration)
        ensures
            final(self).timeout() == duration,
            final(self).log() == old(self).log(),
            final(self).spec_device_version() == old(self).spec_device_version(),
            final(self).handle() == old(self).handle(),
    {
        self.to = duration;
    }

    /// Compare the device version against a required minimum, by the
    /// composite `(major, minor, sub_minor)` key; the boundary is inclusive.
    fn check_api_version(&self, min: Version) -> (r: Result<(), Error>)
        ensures
            r is Ok <==> self.spec_device_version().key() >= min.key(),
            r is Err ==> r == Err::<(), Error>(
                Error::Version { device: self.spec_device_version(), min },
            ),
    {
        check_version(self.dev_version, min)
    }

    /// Issue a control-in transfer of exactly `n` bytes; a transfer of any
    /// other length is a transfer-length error.
    fn read_control(&mut self, request: u8, value: u16, index: u16, n: usize) -> (r: Result<
        Vec<u8>,
        Error,
    >)
        requires
            n <= 0xFFFF,
        ensures
            final(self).spec_device_version() == old(self).spec_device_version(),
            final(self).timeout() == old(self).timeout(),
            final(self).handle() == old(self).handle(),
            r matches Ok(buf) ==> {
                &&& buf@.len() == n
                &&& final(self).log() == old(self).log().push(
                    control_in(request, value, index, n as int, buf@),
                )
            },
            r matches Err(e) ==> final(self).log() == old(self).log() && is_ctrl_in_failure(
                e,
                n as int,
            ),
    {
        let mut buf: Vec<u8> = Vec::new();
        let mut i: usize = 0;
        while i < n
            invariant
                i <= n,
                buf@.len() == i,
            decreases n - i,
        {
            buf.push(0u8);
            i += 1;
        }
        match usb::read_control(&self.dh, request, value, index, &mut buf, self.to) {
            Ok(actual) => {
                if actual != n {
                    Err(Error::CtrlTransfer { dir: Direction::In, actual, expected: n })
                } else {
                    self.issued = Ghost(
                        self.issued@.push(control_in(request, value, index, n as int, buf@)),
                    );
                    Ok(buf)
                }
            },
            Err(e) => Err(Error::Usb(e)),
        }
    }

    /// Issue a control-out transfer of all of `buf`; a partial write is a
    /// transfer-length error.
    fn write_control(&mut self, request: u8, value: u16, index: u16, buf: &[u8]) -> (r: Result<
        (),
        Error,
    >)
        requires
            buf@.len() <= 0xFFFF,
        ensures
            final(self).spec_device_version() == old(self).spec_device_version(),
            final(self).timeout() == old(self).timeout(),
            final(self).handle() == old(self).handle(),
            r is Ok ==> final(self).log() == old(self).log().push(
                control_out(request, value, index, buf@),
            ),
            r matches Err(e) ==> final(self).log() == old(self).log() && is_ctrl_out_failure(
                e,
                buf@.len() as int,
            ),
    {
        match usb::write_control(&self.dh, request, value, index, buf, self.to) {
            Ok(actual) => {
                if actual != buf.len() {
                    Err(Error::CtrlTransfer { dir: Direction::Out, actual, expected: buf.len() })
                } else {
                    self.issued = Ghost(
                        self.issued@.push(control_out(request, value, index, buf@)),
                    );
                    Ok(())
                }
            },
            Err(e) => Err(Error::Usb(e)),
        }
    }

    /// Issue the set-transceiver-mode command with the given mode value.
    fn set_transceiver_mode(&mut self, mode_value: u16) -> (r: Result<(), Error>)
        ensures
            same_config(*old(self), *final(self)),
            r is Ok ==> final(self).log() == old(self).log().push(
                control_out(REQUEST_SET_TRANSCEIVER_MODE, mode_value, 0, Seq::empty()),
            ),
            r matches Err(e) ==> final(self).log() == old(self).log() && is_ctrl_out_failure(
                e,
                0,
            ),
    {
        let buf: [u8; 0] = [];
        proof {
            assert(buf@ =~= Seq::<u8>::empty());
        }
        self.write_control(REQUEST_SET_TRANSCEIVER_MODE, mode_value, 0, buf.as_slice())
    }
}

impl HackRfOne<UnknownMode> {
    /// Open a new HackRF One: scan the USB devices the host sees, take the
    /// first whose descriptor matches the HackRF One vendor and product IDs,
    /// open it, and cache its device version, the BCD decode of the
    /// descriptor's packed version field. The fresh session has issued no
    /// transfers and carries the default timeout.
    pub fn new() -> (r: Option<HackRfOne<UnknownMode>>)
        ensures
            r matches Some(s) ==> {
                &&& s.log() == Seq::<Transfer>::empty()
                &&& is_bcd_decoded(s.spec_device_version())
            },
    {
        let devices: Vec<UsbDevice> = match usb::list_devices() {
            Ok(d) => d,
            Err(_) => { return None; },
        };
        let mut idx: usize = 0;
        while idx < devices.len()
            invariant
                idx <= devices@.len(),
            decreases devices@.len() - idx,
        {
            let dev = &devices[idx];
            idx += 1;
            let desc = match usb::device_descriptor(dev) {
                Ok(d) => d,
                Err(_) => { continue; },
            };
            if usb::descriptor_vendor_id(&desc) == HACKRF_USB_VID && usb::descriptor_product_id(
                &desc,
            ) == HACKRF_ONE_USB_PID {
                match usb::open_device(dev) {
                    Ok(handle) => {
                        return Some(
                            HackRfOne {
                                dh: handle,
                                dev_version: usb::descriptor_device_version(&desc),
                                mode: UnknownMode,
                                to: usb::timeout_from_millis(DEFAULT_TIMEOUT_MS),
                                issued: Ghost(Seq::empty()),
                            },
                        );
                    },
                    Err(_) => { continue; },
                }
            }
        }
        None
    }

    /// Read the board ID: one identification byte from the device, which
    /// the result returns as it came.
    pub fn board_id(&mut self) -> (r: Result<u8, Error>)
        ensures
            same_config(*old(self), *final(self)),
            r matches Ok(b) ==> final(self).log() == old(self).log().push(
                control_in(REQUEST_BOARD_ID_READ, 0, 0, 1, seq![b]),
            ),
            r matches Err(e) ==> final(self).log() == old(self).log() && is_ctrl_in_failure(e, 1),
    {
        let data: Vec<u8> = match self.read_control(REQUEST_BOARD_ID_READ, 0, 0, 1) {
            Ok(d) => d,
            Err(e) => { return Err(e); },
        };
        let b: u8 = data[0];
        proof {
            assert(data@ =~= seq![b]);
        }
        Ok(b)
    }

    /// Read the firmware version string: up to sixteen bytes from the
    /// device, decoded as UTF-8 with invalid sequences replaced. A short
    /// read is not an error; the string is the decode of exactly the bytes
    /// the transfer yielded.
    pub fn version(&mut self) -> (r: Result<String, Error>)
        ensures
            same_config(*old(self), *final(self)),
            r matches Ok(s) ==> exists|bs: Seq<u8>|
                {
                    &&& bs.len() <= 16
                    &&& s@ == lossy_utf8(bs)
                    &&& final(self).log() == old(self).log().push(
                        #[trigger] control_in(REQUEST_VERSION_STRING_READ, 0, 0, 16, bs),
                    )
                },
            r matches Err(e) ==> final(self).log() == old(self).log() && e is Usb,
    {
        let mut buf: Vec<u8> = Vec::new();
        let mut i: usize = 0;
        while i < 16
            invariant
                i <= 16,
                buf@.len() == i,
            decreases 16 - i,
        {
            buf.push(0u8);
            i += 1;
        }
        match usb::read_control(&self.dh, REQUEST_VERSION_STRING_READ, 0, 0, &mut buf, self.to) {
            Ok(n) => {
                buf.truncate(n);
                let s: String = usb::lossy_string(buf.as_slice());
                proof {
                    assert(buf@.len() <= 16 && s@ == lossy_utf8(buf@));
                }
                self.issued = Ghost(
                    self.issued@.push(control_in(REQUEST_VERSION_STRING_READ, 0, 0, 16, buf@)),
                );
                Ok(s)
            },
            Err(e) => Err(Error::Usb(e)),
        }
    }

    /// Set the center frequency, encoded as the saturating megahertz and
    /// residual-hertz split of [`freq_params`].
    pub fn set_freq(&mut self, hz: u64) -> (r: Result<(), Error>)
        ensures
            same_config(*old(self), *final(self)),
            r is Ok ==> final(self).log() == old(self).log().push(
                control_out(REQUEST_SET_FREQ, 0, 0, freq_params_spec(hz)),
            ),
            r matches Err(e) ==> final(self).log() == old(self).log() && is_ctrl_out_failure(
                e,
                8,
            ),
    {
        let buf: [u8; 8] = freq_params(hz);
        self.write_control(REQUEST_SET_FREQ, 0, 0, buf.as_slice())
    }

    /// Enable or disable the RX/TX RF amplifier.
    pub fn set_amp_enable(&mut self, en: bool) -> (r: Result<(), Error>)
        ensures
            same_config(*old(self), *final(self)),
            r is Ok ==> final(self).log() == old(self).log().push(
                control_out(REQUEST_AMP_ENABLE, if en { 1u16 } else { 0u16 }, 0, Seq::empty()),
            ),
            r matches Err(e) ==> final(self).log() == old(self).log() && is_ctrl_out_failure(
                e,
                0,
            ),
    {
        let value: u16 = if en { 1 } else { 0 };
        let buf: [u8; 0] = [];
        proof {
            assert(buf@ =~= Seq::<u8>::empty());
        }
        self.write_control(REQUEST_AMP_ENABLE, value, 0, buf.as_slice())
    }

    /// Set the baseband filter bandwidth: the bandwidth in Hz travels split
    /// across the value and index fields of the request, with no payload.
    ///
    /// Setting the sample rate issues this command automatically; to
    /// override that choice, call this after setting the sample rate.
    pub fn set_baseband_filter_bandwidth(&mut self, hz: u32) -> (r: Result<(), Error>)
        ensures
            same_config(*old(self), *final(self)),
            r is Ok ==> final(self).log() == old(self).log().push(
                control_out(
                    REQUEST_BASEBAND_FILTER_BANDWIDTH_SET,
                    bandwidth_value(hz),
                    bandwidth_index(hz),
                    Seq::empty(),
                ),
            ),
            r matches Err(e) ==> final(self).log() == old(self).log() && is_ctrl_out_failure(
                e,
                0,
            ),
    {
        let (value, index): (u16, u16) = bandwidth_params(hz);
        let buf: [u8; 0] = [];
        proof {
            assert(buf@ =~= Seq::<u8>::empty());
        }
        self.write_control(REQUEST_BASEBAND_FILTER_BANDWIDTH_SET, value, index, buf.as_slice())
    }

    /// Set the sample rate. The device applies `hz / div` as the effective
    /// rate. For anti-aliasing, a baseband-filter-bandwidth command at 75%
    /// of the effective rate, rounded down, is issued right after the rate
    /// itself; override it afterwards if another bandwidth is wanted.
    pub fn set_sample_rate(&mut self, hz: u32, div: u32) -> (r: Result<(), Error>)
        ensures
            same_config(*old(self), *final(self)),
            r is Ok ==> final(self).log() == old(self).log().push(
                control_out(REQUEST_SAMPLE_RATE_SET, 0, 0, sample_rate_params_spec(hz, div)),
            ).push(
                control_out(
                    REQUEST_BASEBAND_FILTER_BANDWIDTH_SET,
                    bandwidth_value(auto_filter_bandwidth_spec(hz, div)),
                    bandwidth_index(auto_filter_bandwidth_spec(hz, div)),
                    Seq::empty(),
                ),
            ),
            r matches Err(e) ==> {
                ||| (final(self).log() == old(self).log() && is_ctrl_out_failure(e, 8))
                ||| (final(self).log() == old(self).log().push(
                    control_out(REQUEST_SAMPLE_RATE_SET, 0, 0, sample_rate_params_spec(hz, div)),
                ) && is_ctrl_out_failure(e, 0))
            },
    {
        let buf: [u8; 8] = sample_rate_params(hz, div);
        match self.write_control(REQUEST_SAMPLE_RATE_SET, 0, 0, buf.as_slice()) {
            Ok(u) => u,
            Err(e) => { return Err(e); },
        }
        let bw: u32 = auto_filter_bandwidth(hz, div);
        self.set_baseband_filter_bandwidth(bw)
    }

    /// Set the LNA (low noise amplifier) gain: range 0 to 40 dB in 8 dB
    /// steps. A value over 40 is rejected outright; an accepted value is
    /// masked to the step granularity before it is sent, and a zero status
    /// byte from the device maps to the same argument error.
    pub fn set_lna_gain(&mut self, gain: u16) -> (r: Result<(), Error>)
        ensures
            same_config(*old(self), *final(self)),
            gain > MAX_LNA_GAIN ==> r == Err::<(), Error>(Error::Argument) && final(self).log()
                == old(self).log(),
            r is Ok ==> gain <= MAX_LNA_GAIN && exists|status: Seq<u8>|
                {
                    &&& status.len() == 1
                    &&& status[0] != 0
                    &&& final(self).log() == old(self).log().push(
                        #[trigger] control_in(REQUEST_SET_LNA_GAIN, gain & 0xFFF8, 0, 1, status),
                    )
                },
            r matches Err(e) ==> {
                ||| (e == Error::Argument && gain > MAX_LNA_GAIN && final(self).log() == old(
                    self,
                ).log())
                ||| (gain <= MAX_LNA_GAIN && is_ctrl_in_failure(e, 1) && final(self).log() == old(
                    self,
                ).log())
                ||| (gain <= MAX_LNA_GAIN && e == Error::Argument && exists|status: Seq<u8>|
                    {
                        &&& status.len() == 1
                        &&& status[0] == 0
                        &&& final(self).log() == old(self).log().push(
                            #[trigger] control_in(
                                REQUEST_SET_LNA_GAIN,
                                gain & 0xFFF8,
                                0,
                                1,
                                status,
                            ),
                        )
                    })
            },
    {
        let masked: u16 = match lna_gain_params(gain) {
            Ok(v) => v,
            Err(e) => { return Err(e); },
        };
        let buf: Vec<u8> = match self.read_control(REQUEST_SET_LNA_GAIN, masked, 0, 1) {
            Ok(b) => b,
            Err(e) => { return Err(e); },
        };
        proof {
            assert(self.log() == old(self).log().push(
                control_in(REQUEST_SET_LNA_GAIN, gain & 0xFFF8, 0, 1, buf@),
            ));
        }
        if gain_accepted(buf[0]) {
            Ok(())
        } else {
            Err(Error::Argument)
        }
    }

    /// Set the VGA (variable gain amplifier) gain: range 0 to 62 dB in 2 dB
    /// steps. A value over 62 is rejected outright; an accepted value is
    /// masked to the step granularity before it is sent, and a zero status
    /// byte from the device maps to the same argument error.
    pub fn set_vga_gain(&mut self, gain: u16) -> (r: Result<(), Error>)
        ensures
            same_config(*old(self), *final(self)),
            gain > MAX_VGA_GAIN ==> r == Err::<(), Error>(Error::Argument) && final(self).log()
                == old(self).log(),
            r is Ok ==> gain <= MAX_VGA_GAIN && exists|status: Seq<u8>|
                {
                    &&& status.len() == 1
                    &&& status[0] != 0
                    &&& final(self).log() == old(self).log().push(
                        #[trigger] control_in(REQUEST_SET_VGA_GAIN, gain & 0xFFFE, 0, 1, status),
                    )
                },
            r matches Err(e) ==> {
                ||| (e == Error::Argument && gain > MAX_VGA_GAIN && final(self).log() == old(
                    self,
                ).log())
                ||| (gain <= MAX_VGA_GAIN && is_ctrl_in_failure(e, 1) && final(self).log() == old(
                    self,
                ).log())
                ||| (gain <= MAX_VGA_GAIN && e == Error::Argument && exists|status: Seq<u8>|
                    {
                        &&& status.len() == 1
                        &&& status[0] == 0
                        &&& final(self).log() == old(self).log().push(
                            #[trigger] control_in(
                                REQUEST_SET_VGA_GAIN,
                                gain & 0xFFFE,
                                0,
                                1,
                                status,
                            ),
                        )
                    })
            },
    {
        let masked: u16 = match vga_gain_params(gain) {
            Ok(v) => v,
            Err(e) => { return Err(e); },
        };
        let buf: Vec<u8> = match self.read_control(REQUEST_SET_VGA_GAIN, masked, 0, 1) {
            Ok(b) => b,
            Err(e) => { return Err(e); },
        };
        proof {
            assert(self.log() == old(self).log().push(
                control_in(REQUEST_SET_VGA_GAIN, gain & 0xFFFE, 0, 1, buf@),
            ));
        }
        if gain_accepted(buf[0]) {
            Ok(())
        } else {
            Err(Error::Argument)
        }
    }

    /// Set the transmit VGA gain: range 0 to 47 dB in 1 dB steps. A value
    /// over 47 is rejected outright; the step is 1 dB, so accepted values
    /// go out unmasked, and a zero status byte from the device maps to the
    /// same argument error.
    pub fn set_txvga_gain(&mut self, gain: u16) -> (r: Result<(), Error>)
        ensures
            same_config(*old(self), *final(self)),
            gain > MAX_TXVGA_GAIN ==> r == Err::<(), Error>(Error::Argument) && final(self).log()
                == old(self).log(),
            r is Ok ==> gain <= MAX_TXVGA_GAIN && exists|status: Seq<u8>|
                {
                    &&& status.len() == 1
                    &&& status[0] != 0
                    &&& final(self).log() == old(self).log().push(
                        #[trigger] control_in(REQUEST_SET_TXVGA_GAIN, gain, 0, 1, status),
                    )
                },
            r matches Err(e) ==> {
                ||| (e == Error::Argument && gain > MAX_TXVGA_GAIN && final(self).log() == old(
                    self,
                ).log())
                ||| (gain <= MAX_TXVGA_GAIN && is_ctrl_in_failure(e, 1) && final(self).log()
                    == old(self).log())
                ||| (gain <= MAX_TXVGA_GAIN && e == Error::Argument && exists|status: Seq<u8>|
                    {
                        &&& status.len() == 1
                        &&& status[0] == 0
                        &&& final(self).log() == old(self).log().push(
                            #[trigger] control_in(REQUEST_SET_TXVGA_GAIN, gain, 0, 1, status),
                        )
                    })
            },
    {
        let value: u16 = match txvga_gain_params(gain) {
            Ok(v) => v,
            Err(e) => { return Err(e); },
        };
        let buf: Vec<u8> = match self.read_control(REQUEST_SET_TXVGA_GAIN, value, 0, 1) {
            Ok(b) => b,
            Err(e) => { return Err(e); },
        };
        proof {
            assert(self.log() == old(self).log().push(
                control_in(REQUEST_SET_TXVGA_GAIN, gain, 0, 1, buf@),
            ));
        }
        if gain_accepted(buf[0]) {
            Ok(())
        } else {
            Err(Error::Argument)
        }
    }

    /// Antenna power port control.
    pub fn set_antenna_enable(&mut self, value: u8) -> (r: Result<(), Error>)
        ensures
            same_config(*old(self), *final(self)),
            r is Ok ==> final(self).log() == old(self).log().push(
                control_out(REQUEST_ANTENNA_ENABLE, value as u16, 0, Seq::empty()),
            ),
            r matches Err(e) ==> final(self).log() == old(self).log() && is_ctrl_out_failure(
                e,
                0,
            ),
    {
        let buf: [u8; 0] = [];
        proof {
            assert(buf@ =~= Seq::<u8>::empty());
        }
        self.write_control(REQUEST_ANTENNA_ENABLE, value as u16, 0, buf.as_slice())
    }

    /// CLKOUT enable. Gated on firmware version 1.3.0 or newer; on an older
    /// device the command is refused before anything is sent.
    pub fn set_clkout_enable(&mut self, en: bool) -> (r: Result<(), Error>)
        ensures
            same_config(*old(self), *final(self)),
            old(self).spec_device_version().key() < clkout_min_version().key() ==> r == Err::<
                (),
                Error,
            >(
                Error::Version {
                    device: old(self).spec_device_version(),
                    min: clkout_min_version(),
                },
            ) && final(self).log() == old(self).log(),
            r is Ok ==> old(self).spec_device_version().key() >= clkout_min_version().key()
                && final(self).log() == old(self).log().push(
                control_out(REQUEST_CLKOUT_ENABLE, if en { 1u16 } else { 0u16 }, 0, Seq::empty()),
            ),
            r matches Err(e) ==> (old(self).spec_device_version().key()
                >= clkout_min_version().key() ==> final(self).log() == old(self).log()
                && is_ctrl_out_failure(e, 0)),
    {
        match self.check_api_version(Version::new(1, 3, 0)) {
            Ok(u) => u,
            Err(e) => { return Err(e); },
        }
        let value: u16 = if en { 1 } else { 0 };
        let buf: [u8; 0] = [];
        proof {
            assert(buf@ =~= Seq::<u8>::empty());
        }
        self.write_control(REQUEST_CLKOUT_ENABLE, value, 0, buf.as_slice())
    }

    /// Reset the radio. Gated on firmware version 1.2.0 or newer; on an
    /// older device the command is refused before anything is sent. The
    /// operation consumes the session and hands back a fresh
    /// `Unknown`-tagged one over the same transport connection; on failure
    /// the session is lost and the device state is indeterminate.
    pub fn reset(self) -> (r: Result<HackRfOne<UnknownMode>, Error>)
        ensures
            self.spec_device_version().key() < reset_min_version().key() ==> r == Err::<
                HackRfOne<UnknownMode>,
                Error,
            >(Error::Version { device: self.spec_device_version(), min: reset_min_version() }),
            r matches Ok(s) ==> {
                &&& self.spec_device_version().key() >= reset_min_version().key()
                &&& same_config(self, s)
                &&& s.log() == self.log().push(control_out(REQUEST_RESET, 0, 0, Seq::empty()))
            },
            r matches Err(e) ==> (self.spec_device_version().key() >= reset_min_version().key()
                ==> is_ctrl_out_failure(e, 0)),
    {
        let mut this = self;
        match this.check_api_version(Version::new(1, 2, 0)) {
            Ok(u) => u,
            Err(e) => { return Err(e); },
        }
        let buf: [u8; 0] = [];
        proof {
            assert(buf@ =~= Seq::<u8>::empty());
        }
        match this.write_control(REQUEST_RESET, 0, 0, buf.as_slice()) {
            Ok(u) => u,
            Err(e) => { return Err(e); },
        }
        Ok(
            HackRfOne {
                dh: this.dh,
                dev_version: this.dev_version,
                mode: UnknownMode,
                to: this.to,
                issued: this.issued,
            },
        )
    }

    /// Change the radio mode to RX: issue the begin-receive command and
    /// hand back a `Receive`-tagged session. On failure the session is
    /// lost and the device state is indeterminate.
    pub fn into_rx_mode(self) -> (r: Result<HackRfOne<RxMode>, Error>)
        ensures
            r matches Ok(s) ==> {
                &&& same_config(self, s)
                &&& s.log() == self.log().push(
                    control_out(
                        REQUEST_SET_TRANSCEIVER_MODE,
                        TRANSCEIVER_MODE_RECEIVE,
                        0,
                        Seq::empty(),
                    ),
                )
            },
            r matches Err(e) ==> is_ctrl_out_failure(e, 0),
    {
        let mut this = self;
        match this.set_transceiver_mode(TRANSCEIVER_MODE_RECEIVE) {
            Ok(u) => u,
            Err(e) => { return Err(e); },
        }
        Ok(
            HackRfOne {
                dh: this.dh,
                dev_version: this.dev_version,
                mode: RxMode,
                to: this.to,
                issued: this.issued,
            },
        )
    }
}

impl HackRfOne<RxMode> {
    /// Receive data from the radio: one bulk-in transfer on the sample
    /// endpoint requesting up to one maximum transfer unit of raw
    /// interleaved I/Q sample bytes. A short read is not an error; the
    /// result holds exactly the bytes the transfer yielded, neither padded
    /// nor truncated, as the recorded transfer states.
    pub fn rx(&mut self) -> (r: Result<Vec<u8>, Error>)
        ensures
            same_config(*old(self), *final(self)),
            r matches Ok(data) ==> {
                &&& data@.len() <= RX_MTU
                &&& final(self).log() == old(self).log().push(
                    bulk_in(RX_ENDPOINT, RX_MTU as int, data@),
                )
            },
            r matches Err(e) ==> final(self).log() == old(self).log() && e is Usb,
    {
        let mut buf: Vec<u8> = Vec::new();
        let mut i: usize = 0;
        while i < RX_MTU
            invariant
                i <= RX_MTU,
                buf@.len() == i,
            decreases RX_MTU - i,
        {
            buf.push(0u8);
            i += 1;
        }
        match usb::read_bulk(&self.dh, RX_ENDPOINT, &mut buf, self.to) {
            Ok(n) => {
                buf.truncate(n);
                self.issued = Ghost(self.issued@.push(bulk_in(RX_ENDPOINT, RX_MTU as int, buf@)));
                Ok(buf)
            },
            Err(e) => Err(Error::Usb(e)),
        }
    }

    /// Stop receiving: issue the transceiver-off command and hand back an
    /// `Unknown`-tagged session. On failure the session is lost and the
    /// device state is indeterminate.
    pub fn stop_rx(self) -> (r: Result<HackRfOne<UnknownMode>, Error>)
        ensures
            r matches Ok(s) ==> {
                &&& same_config(self, s)
                &&& s.log() == self.log().push(
                    control_out(
                        REQUEST_SET_TRANSCEIVER_MODE,
                        TRANSCEIVER_MODE_OFF,
                        0,
                        Seq::empty(),
                    ),
                )
            },
            r matches Err(e) ==> is_ctrl_out_failure(e, 0),
    {
        let mut this = self;
        match this.set_transceiver_mode(TRANSCEIVER_MODE_OFF) {
            Ok(u) => u,
            Err(e) => { return Err(e); },
        }
        Ok(
            HackRfOne {
                dh: this.dh,
                dev_version: this.dev_version,
                mode: UnknownMode,
                to: this.to,
                issued: this.issued,
            },
        )
    }
}

} // verus!
