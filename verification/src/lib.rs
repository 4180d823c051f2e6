//! Host-side control layer for the HackRF One software-defined radio.
//!
//! The library encodes high-level radio operations (frequency, sample rate,
//! gains, receive mode, sample streaming) into the device's vendor-specific
//! USB control-transfer protocol, gates version-dependent commands on the
//! firmware version, and decodes raw interleaved I/Q sample bytes.
//!
//! Which operations are callable depends on the session's mode tag: a
//! [`HackRfOne<UnknownMode>`] exposes identification reads, configuration
//! setters and the transition into receive mode, while a
//! [`HackRfOne<RxMode>`] exposes the streaming read and the transition back.
//! Illegal call sequences are unrepresentable rather than rejected at run
//! time.

pub mod encode;
pub mod error;
pub mod samples;
pub mod session;
pub mod usb;
pub mod version;

pub use encode::freq_params;
pub use error::Error;
pub use samples::iq_to_cplx_i8;
pub use session::HackRfOne;
pub use session::RxMode;
pub use session::UnknownMode;
pub use version::Version;
