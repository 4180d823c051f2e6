//! Command encoder: pure functions mapping typed radio parameters
//! (frequency, sample rate and divisor, bandwidth, gain) to the exact byte
//! sequences and 16-bit value/index fields of the vendor control requests.

use crate::error::Error;
use vstd::prelude::*;

verus! {

/// Vendor control request: set the transceiver mode.
pub const REQUEST_SET_TRANSCEIVER_MODE: u8 = 1;

/// Vendor control request: set the sample rate.
pub const REQUEST_SAMPLE_RATE_SET: u8 = 6;

/// Vendor control request: set the baseband filter bandwidth.
pub const REQUEST_BASEBAND_FILTER_BANDWIDTH_SET: u8 = 7;

/// Vendor control request: read the board ID.
pub const REQUEST_BOARD_ID_READ: u8 = 14;

/// Vendor control request: read the firmware version string.
pub const REQUEST_VERSION_STRING_READ: u8 = 15;

/// Vendor control request: set the center frequency.
pub const REQUEST_SET_FREQ: u8 = 16;

/// Vendor control request: enable or disable the RF amplifier.
pub const REQUEST_AMP_ENABLE: u8 = 17;

/// Vendor control request: set the LNA (low noise amplifier) gain.
pub const REQUEST_SET_LNA_GAIN: u8 = 19;

/// Vendor control request: set the VGA (variable gain amplifier) gain.
pub const REQUEST_SET_VGA_GAIN: u8 = 20;

/// Vendor control request: set the transmit VGA gain.
pub const REQUEST_SET_TXVGA_GAIN: u8 = 21;

/// Vendor control request: antenna power port control.
pub const REQUEST_ANTENNA_ENABLE: u8 = 23;

/// Vendor control request: reset the device.
pub const REQUEST_RESET: u8 = 30;

/// Vendor control request: CLKOUT enable.
pub const REQUEST_CLKOUT_ENABLE: u8 = 32;

/// Transceiver mode value: off.
pub const TRANSCEIVER_MODE_OFF: u16 = 0;

/// Transceiver mode value: receive.
pub const TRANSCEIVER_MODE_RECEIVE: u16 = 1;

/// Number of hertz in one megahertz.
pub const MHZ: u64 = 1_000_000;

/// Maximum accepted LNA gain in dB.
pub const MAX_LNA_GAIN: u16 = 40;

/// Maximum accepted VGA gain in dB.
pub const MAX_VGA_GAIN: u16 = 62;

/// Maximum accepted TX-VGA gain in dB.
pub const MAX_TXVGA_GAIN: u16 = 47;

/// Saturate an integer to the `u32` range (never below zero here).
pub open spec fn sat_u32(v: int) -> u32 {
    if v > u32::MAX { u32::MAX as u32 } else { v as u32 }
}

/// Little-endian byte layout of a 32-bit value.
pub open spec fn le_bytes_u32(v: u32) -> Seq<u8> {
    seq![
        (v & 0xFF) as u8,
        ((v >> 8) & 0xFF) as u8,
        ((v >> 16) & 0xFF) as u8,
        ((v >> 24) & 0xFF) as u8,
    ]
}

/// The frequency-set payload: whole megahertz and residual hertz, each
/// saturated to 32 bits and laid out little-endian, megahertz part first.
pub open spec fn freq_params_spec(hz: u64) -> Seq<u8> {
    let mhz = sat_u32(hz as int / MHZ as int);
    let sub_hz = sat_u32(hz as int - mhz as int * MHZ as int);
    le_bytes_u32(mhz) + le_bytes_u32(sub_hz)
}

/// Split a frequency in Hz into the 8-byte wire layout of the frequency-set
/// command: 32-bit whole-megahertz part then 32-bit residual-hertz part, both
/// little-endian, both saturating to `u32::MAX` rather than wrapping.
pub fn freq_params(hz: u64) -> (buf: [u8; 8])
    ensures
        buf@ == freq_params_spec(hz),
{
    let mhz_wide: u64 = hz / MHZ;
    let mhz: u32 = if mhz_wide > u32::MAX as u64 {
        u32::MAX
    } else {
        mhz_wide as u32
    };
    let rem_wide: u64 = hz - (mhz as u64) * MHZ;
    let sub_hz: u32 = if rem_wide > u32::MAX as u64 {
        u32::MAX
    } else {
        rem_wide as u32
    };
    proof {
        assert(mhz_wide == hz as int / MHZ as int);
        assert(rem_wide == hz as int - mhz as int * MHZ as int);
    }
    let buf: [u8; 8] = [
        (mhz & 0xFF) as u8,
        ((mhz >> 8) & 0xFF) as u8,
        ((mhz >> 16) & 0xFF) as u8,
        ((mhz >> 24) & 0xFF) as u8,
        (sub_hz & 0xFF) as u8,
        ((sub_hz >> 8) & 0xFF) as u8,
        ((sub_hz >> 16) & 0xFF) as u8,
        ((sub_hz >> 24) & 0xFF) as u8,
    ];
    proof {
        assert(buf@ =~= freq_params_spec(hz));
    }
    buf
}

/// The sample-rate payload: the rate in Hz little-endian in bytes 0 to 3 and
/// the divisor little-endian in bytes 4 to 7.
pub open spec fn sample_rate_params_spec(hz: u32, div: u32) -> Seq<u8> {
    le_bytes_u32(hz) + le_bytes_u32(div)
}

/// Pack a sample rate in Hz and its divisor into the 8-byte wire layout of
/// the sample-rate-set command, both little-endian, rate first. The device
/// applies the quotient `hz / div` as the effective rate.
pub fn sample_rate_params(hz: u32, div: u32) -> (buf: [u8; 8])
    ensures
        buf@ == sample_rate_params_spec(hz, div),
{
    let buf: [u8; 8] = [
        (hz & 0xFF) as u8,
        ((hz >> 8) & 0xFF) as u8,
        ((hz >> 16) & 0xFF) as u8,
        ((hz >> 24) & 0xFF) as u8,
        (div & 0xFF) as u8,
        ((div >> 8) & 0xFF) as u8,
        ((div >> 16) & 0xFF) as u8,
        ((div >> 24) & 0xFF) as u8,
    ];
    proof {
        assert(buf@ =~= sample_rate_params_spec(hz, div));
    }
    buf
}

/// The control-request "value" field of the bandwidth-set command: the low
/// 16 bits of the bandwidth in Hz.
pub open spec fn bandwidth_value(hz: u32) -> u16 {
    (hz & 0xFFFF) as u16
}

/// The control-request "index" field of the bandwidth-set command: bits 16
/// to 31 of the bandwidth in Hz.
pub open spec fn bandwidth_index(hz: u32) -> u16 {
    (hz >> 16) as u16
}

/// Split a baseband filter bandwidth in Hz into the value and index fields
/// of the bandwidth-set control request: low 16 bits into value, high 16
/// bits into index. The request carries no payload.
pub fn bandwidth_params(hz: u32) -> (r: (u16, u16))
    ensures
        r.0 == bandwidth_value(hz),
        r.1 == bandwidth_index(hz),
{
    ((hz & 0xFFFF) as u16, (hz >> 16) as u16)
}

/// The bandwidth the sample-rate setter configures alongside the rate:
/// 75% of the effective rate `hz / div`, rounded down. A zero divisor is
/// nonsensical; it saturates to the widest expressible value (or zero when
/// the rate is also zero) rather than failing.
pub open spec fn auto_filter_bandwidth_spec(hz: u32, div: u32) -> u32 {
    if div == 0 {
        if hz == 0 {
            0u32
        } else {
            u32::MAX
        }
    } else {
        ((3 * hz as int) / (4 * div as int)) as u32
    }
}

/// Compute the baseband filter bandwidth that setting the sample rate
/// automatically applies: `floor(0.75 * hz / div)`.
pub fn auto_filter_bandwidth(hz: u32, div: u32) -> (bw: u32)
    ensures
        bw == auto_filter_bandwidth_spec(hz, div),
{
    if div == 0 {
        if hz == 0 {
            0
        } else {
            u32::MAX
        }
    } else {
        let num: u64 = 3 * (hz as u64);
        let den: u64 = 4 * (div as u64);
        let q: u64 = num / den;
        proof {
            assert(q <= u32::MAX) by (nonlinear_arith)
                requires
                    num == 3 * hz,
                    den == 4 * div,
                    q == num / den,
                    div >= 1,
                    hz <= u32::MAX,
            ;
        }
        q as u32
    }
}

/// Check and quantize an LNA gain in dB: values over 40 are rejected, and
/// accepted values are masked down to the device's 8 dB step granularity by
/// clearing the low three bits.
pub fn lna_gain_params(gain: u16) -> (r: Result<u16, Error>)
    ensures
        gain > MAX_LNA_GAIN <==> r == Err::<u16, Error>(Error::Argument),
        gain <= MAX_LNA_GAIN <==> r == Ok::<u16, Error>((gain & 0xFFF8) as u16),
{
    if gain > MAX_LNA_GAIN {
        Err(Error::Argument)
    } else {
        Ok(gain & 0xFFF8)
    }
}

/// Check and quantize a VGA gain in dB: values over 62 are rejected, and
/// accepted values are masked down to the device's 2 dB step granularity by
/// clearing the low bit.
pub fn vga_gain_params(gain: u16) -> (r: Result<u16, Error>)
    ensures
        gain > MAX_VGA_GAIN <==> r == Err::<u16, Error>(Error::Argument),
        gain <= MAX_VGA_GAIN <==> r == Ok::<u16, Error>((gain & 0xFFFE) as u16),
{
    if gain > MAX_VGA_GAIN {
        Err(Error::Argument)
    } else {
        Ok(gain & 0xFFFE)
    }
}

/// Check a TX-VGA gain in dB: values over 47 are rejected; the device's step
/// is 1 dB, so accepted values pass through unmasked.
pub fn txvga_gain_params(gain: u16) -> (r: Result<u16, Error>)
    ensures
        gain > MAX_TXVGA_GAIN <==> r == Err::<u16, Error>(Error::Argument),
        gain <= MAX_TXVGA_GAIN <==> r == Ok::<u16, Error>(gain),
{
    if gain > MAX_TXVGA_GAIN {
        Err(Error::Argument)
    } else {
        Ok(gain)
    }
}

/// Interpret the single status byte a gain-set request returns: the firmware
/// signals rejection with zero and acceptance with any nonzero byte.
pub fn gain_accepted(status: u8) -> (ok: bool)
    ensures
        ok <==> status != 0,
{
    status != 0
}

} // verus!
