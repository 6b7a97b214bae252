//! Host-side logic for the Infineon OPTIGA Trust M secure element.
//!
//! Data formats follow the chip, not any particular crypto crate:
//!
//! - ECC public keys are DER `BIT STRING`s wrapping the uncompressed point
//!   (`03 len 00 04 x y`). [`ecc_public_key_point`] strips the wrapper.
//! - ECDSA signatures are two bare DER `INTEGER`s, `r` then `s`, with no
//!   enclosing `SEQUENCE`. [`ecdsa_signature_to_rs`] converts to fixed-width
//!   `r || s` as used by JWS, COSE and most Rust crates, and
//!   [`ecdsa_signature_from_rs`] converts back.
//!
//! The modules hold the enums and their host library values (`types`), the
//! error type and status codes (`error`), the DER helpers (`der`), the checks
//! and reply handling around each chip command (`session`) and the helpers of
//! the read-only health check (`check`).

pub mod types;
pub mod error;
pub mod der;
pub mod text;
pub mod check;
pub mod session;

pub use types::{
    KeyId, KeyUsage, EccCurve, RsaKeyType, RsaSignatureScheme, HmacType, HkdfType, TlsPrfType,
    SymmetricKeyType, RngType, WriteType,
};
pub use error::{Error, Result};
pub use der::{der_len, ecc_public_key_point, ecdsa_signature_to_rs, ecdsa_signature_from_rs};
pub use check::{expect, bus_path, hex, strip_cert_header, find_p256_spki, Report};

use vstd::prelude::*;

verus! {

/// Default I2C bus device node.
pub const DEFAULT_BUS: &'static str = "/dev/i2c-1";

/// Default 7-bit I2C slave address of the Trust M.
pub const DEFAULT_ADDR: u8 = 0x30;

} // verus!
