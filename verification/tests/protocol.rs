//! Tests of the pure protocol layer: version codec, command encoders, gain
//! bounds, version gate and sample decoding.

use hackrfone::encode;
use hackrfone::error::Direction;
use hackrfone::freq_params;
use hackrfone::iq_to_cplx_i8;
use hackrfone::version::check_version;
use hackrfone::Error;
use hackrfone::Version;

#[test]
fn nominal() {
    assert_eq!(freq_params(915_000_000), [0x93, 0x03, 0, 0, 0, 0, 0, 0]);
    assert_eq!(freq_params(915_000_001), [0x93, 0x03, 0, 0, 1, 0, 0, 0]);
    assert_eq!(
        freq_params(123456789),
        [0x7B, 0, 0, 0, 0x55, 0xF8, 0x06, 0x00]
    );
}

#[test]
fn min() {
    assert_eq!(freq_params(0), [0; 8]);
}

#[test]
fn max() {
    assert_eq!(freq_params(u64::MAX), [0xFF; 8]);
}

#[test]
fn version_decode() {
    assert_eq!(
        Version::from_bcd(0x1234),
        Version {
            major: 12,
            minor: 3,
            sub_minor: 4
        }
    );
    assert_eq!(
        Version::from_bcd(0x4321),
        Version {
            major: 43,
            minor: 2,
            sub_minor: 1
        }
    );
    assert_eq!(
        Version::from_bcd(0x0200),
        Version {
            major: 2,
            minor: 0,
            sub_minor: 0
        }
    );
    assert_eq!(
        Version::from_bcd(0x0110),
        Version {
            major: 1,
            minor: 1,
            sub_minor: 0
        }
    );
}

#[test]
fn version_ordering_key() {
    let v = Version::new(1, 2, 3);
    assert_eq!(v.to_key(), (1 << 16) | (2 << 8) | 3);
    assert!(Version::new(1, 2, 0).to_key() > Version::new(1, 1, 9).to_key());
}

#[test]
fn version_gate_rejects_old_firmware() {
    let device = Version::new(1, 1, 9);
    let min = Version::new(1, 2, 0);
    assert_eq!(check_version(device, min), Err(Error::Version { device, min }));
}

#[test]
fn version_gate_boundary_is_inclusive() {
    let device = Version::new(1, 2, 0);
    let min = Version::new(1, 2, 0);
    assert_eq!(check_version(device, min), Ok(()));
}

#[test]
fn lna_gain_bounds() {
    assert_eq!(encode::lna_gain_params(41), Err(Error::Argument));
    assert_eq!(encode::lna_gain_params(40), Ok(40));
}

#[test]
fn vga_gain_bounds() {
    assert_eq!(encode::vga_gain_params(63), Err(Error::Argument));
    assert_eq!(encode::vga_gain_params(62), Ok(62));
}

#[test]
fn txvga_gain_bounds() {
    assert_eq!(encode::txvga_gain_params(48), Err(Error::Argument));
    assert_eq!(encode::txvga_gain_params(47), Ok(47));
}

#[test]
fn gain_masking_to_step_granularity() {
    assert_eq!(encode::lna_gain_params(20), Ok(16));
    assert_eq!(encode::lna_gain_params(7), Ok(0));
    assert_eq!(encode::vga_gain_params(33), Ok(32));
    assert_eq!(encode::txvga_gain_params(33), Ok(33));
}

#[test]
fn gain_status_byte() {
    assert!(!encode::gain_accepted(0));
    assert!(encode::gain_accepted(1));
    assert!(encode::gain_accepted(0xFF));
}

#[test]
fn sample_rate_encoding() {
    let buf = encode::sample_rate_params(20_000_000, 2);
    assert_eq!(buf, [0x00, 0x2D, 0x31, 0x01, 0x02, 0x00, 0x00, 0x00]);
}

#[test]
fn bandwidth_encoding() {
    let (value, index) = encode::bandwidth_params(7_500_000);
    assert_eq!(value, 0x70E0);
    assert_eq!(index, 0x0072);
    let (value, index) = encode::bandwidth_params(0);
    assert_eq!(value, 0);
    assert_eq!(index, 0);
}

#[test]
fn sample_rate_auto_bandwidth() {
    assert_eq!(encode::auto_filter_bandwidth(20_000_000, 2), 7_500_000);
    assert_eq!(encode::auto_filter_bandwidth(10_000_000, 1), 7_500_000);
    assert_eq!(encode::auto_filter_bandwidth(8_000_000, 1), 6_000_000);
}

#[test]
fn iq_pair_decodes_as_signed() {
    assert_eq!(iq_to_cplx_i8(255, 1), num_complex::Complex::new(-1, 1));
    assert_eq!(iq_to_cplx_i8(0, 0), num_complex::Complex::new(0, 0));
    assert_eq!(iq_to_cplx_i8(127, 128), num_complex::Complex::new(127, -128));
}

#[test]
fn error_variants_compare() {
    assert_eq!(Error::Usb(rusb::Error::Timeout), Error::Usb(rusb::Error::Timeout));
    assert_ne!(Error::Usb(rusb::Error::Timeout), Error::Argument);
    let e = Error::CtrlTransfer {
        dir: Direction::In,
        actual: 0,
        expected: 1,
    };
    assert_eq!(
        e,
        Error::CtrlTransfer {
            dir: Direction::In,
            actual: 0,
            expected: 1,
        }
    );
    assert_eq!(Error::from(rusb::Error::NoDevice), Error::Usb(rusb::Error::NoDevice));
}
