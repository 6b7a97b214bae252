//! The error type and the host library's status codes.

use vstd::prelude::*;
use crate::text::{hex_digit, hex_digit_char, string_from_chars};

verus! {

/// The host library finished a command successfully.
pub const LIB_SUCCESS: u16 = 0x0000;
/// The host library is still working on a command.
pub const LIB_BUSY: u16 = 0x0001;
/// Bit set in every status code that the chip itself reported.
pub const DEVICE_ERROR: u16 = 0x8000;
/// Host library status: comms error.
pub const COMMS_ERROR: u16 = 0x0102;
/// Host library status: comms: invalid input.
pub const COMMS_ERROR_INVALID_INPUT: u16 = 0x0103;
/// Host library status: comms: insufficient memory.
pub const COMMS_ERROR_MEMORY_INSUFFICIENT: u16 = 0x0104;
/// Host library status: comms: stack memory.
pub const COMMS_ERROR_STACK_MEMORY: u16 = 0x0105;
/// Host library status: comms: fatal.
pub const COMMS_ERROR_FATAL: u16 = 0x0106;
/// Host library status: comms: handshake.
pub const COMMS_ERROR_HANDSHAKE: u16 = 0x0107;
/// Host library status: comms: session.
pub const COMMS_ERROR_SESSION: u16 = 0x0108;
/// Host library status: cmd error.
pub const CMD_ERROR: u16 = 0x0202;
/// Host library status: cmd: invalid input.
pub const CMD_ERROR_INVALID_INPUT: u16 = 0x0203;
/// Host library status: cmd: insufficient memory.
pub const CMD_ERROR_MEMORY_INSUFFICIENT: u16 = 0x0204;
/// Host library status: util error.
pub const UTIL_ERROR: u16 = 0x0302;
/// Host library status: util: invalid input.
pub const UTIL_ERROR_INVALID_INPUT: u16 = 0x0303;
/// Host library status: util: insufficient memory.
pub const UTIL_ERROR_MEMORY_INSUFFICIENT: u16 = 0x0304;
/// Host library status: util: instance in use.
pub const UTIL_ERROR_INSTANCE_IN_USE: u16 = 0x0305;
/// Host library status: crypt error.
pub const CRYPT_ERROR: u16 = 0x0402;
/// Host library status: crypt: invalid input.
pub const CRYPT_ERROR_INVALID_INPUT: u16 = 0x0403;
/// Host library status: crypt: insufficient memory.
pub const CRYPT_ERROR_MEMORY_INSUFFICIENT: u16 = 0x0404;
/// Host library status: crypt: instance in use.
pub const CRYPT_ERROR_INSTANCE_IN_USE: u16 = 0x0405;

/// Everything that can go wrong talking to the chip or reading its data.
#[derive(Debug, Clone, PartialEq, Eq)]
pub enum Error {
    /// Status code returned by the host library or the chip. Codes with the
    /// top bit set (`0x8xxx`) come from the chip; the low byte is its reason.
    Status(u16),
    /// The chip did not answer within the timeout.
    Timeout,
    /// Could not create a library instance (out of instances or memory).
    Instance,
    /// Another `Trustm` handle is alive in this process.
    AlreadyOpen,
    /// A caller-supplied argument was out of range for the chip.
    InvalidArgument(&'static str),
    /// The chip returned data in a shape that could not be parsed.
    BadData(&'static str),
}

/// Result of the library's fallible operations.
pub type Result<T> = std::result::Result<T, Error>;

/// Name of a chip error reason (the low byte of a chip status code), from the
/// Solution Reference Manual.
pub open spec fn chip_reason_name(reason: int) -> Option<&'static str> {
    if reason == 0x01 {
        Some("chip: invalid OID")
    }     else if reason == 0x03 {
        Some("chip: invalid parameter field")
    }     else if reason == 0x04 {
        Some("chip: invalid length field")
    }     else if reason == 0x05 {
        Some("chip: invalid parameter in data field")
    }     else if reason == 0x06 {
        Some("chip: internal process error")
    }     else if reason == 0x07 {
        Some("chip: access conditions not satisfied")
    }     else if reason == 0x08 {
        Some("chip: data object boundary exceeded")
    }     else if reason == 0x09 {
        Some("chip: metadata truncation error")
    }     else if reason == 0x0A {
        Some("chip: invalid command field")
    }     else if reason == 0x0B {
        Some("chip: command out of sequence")
    }     else if reason == 0x0C {
        Some("chip: command not available")
    }     else if reason == 0x0D {
        Some("chip: insufficient memory or buffer")
    }     else if reason == 0x0E {
        Some("chip: counter threshold limit exceeded")
    }     else if reason == 0x0F {
        Some("chip: invalid manifest")
    }     else if reason == 0x10 {
        Some("chip: wrong payload version")
    }     else if reason == 0x21 {
        Some("chip: unsorted input data")
    } else {
        None
    }
}

/// Name of a status code of the host library itself.
pub open spec fn host_status_name(code: u16) -> Option<&'static str> {
    if code == COMMS_ERROR {
        Some("comms error")
    }     else if code == COMMS_ERROR_INVALID_INPUT {
        Some("comms: invalid input")
    }     else if code == COMMS_ERROR_MEMORY_INSUFFICIENT {
        Some("comms: insufficient memory")
    }     else if code == COMMS_ERROR_STACK_MEMORY {
        Some("comms: stack memory")
    }     else if code == COMMS_ERROR_FATAL {
        Some("comms: fatal")
    }     else if code == COMMS_ERROR_HANDSHAKE {
        Some("comms: handshake")
    }     else if code == COMMS_ERROR_SESSION {
        Some("comms: session")
    }     else if code == CMD_ERROR {
        Some("cmd error")
    }     else if code == CMD_ERROR_INVALID_INPUT {
        Some("cmd: invalid input")
    }     else if code == CMD_ERROR_MEMORY_INSUFFICIENT {
        Some("cmd: insufficient memory")
    }     else if code == UTIL_ERROR {
        Some("util error")
    }     else if code == UTIL_ERROR_INVALID_INPUT {
        Some("util: invalid input")
    }     else if code == UTIL_ERROR_MEMORY_INSUFFICIENT {
        Some("util: insufficient memory")
    }     else if code == UTIL_ERROR_INSTANCE_IN_USE {
        Some("util: instance in use")
    }     else if code == CRYPT_ERROR {
        Some("crypt error")
    }     else if code == CRYPT_ERROR_INVALID_INPUT {
        Some("crypt: invalid input")
    }     else if code == CRYPT_ERROR_MEMORY_INSUFFICIENT {
        Some("crypt: insufficient memory")
    }     else if code == CRYPT_ERROR_INSTANCE_IN_USE {
        Some("crypt: instance in use")
    } else {
        None
    }
}

/// Human-readable name of a status code: chip codes (top bit set) are named
/// by their low byte, other codes by the host library's table.
pub open spec fn spec_status_name(code: u16) -> Option<&'static str> {
    if code >= DEVICE_ERROR {
        chip_reason_name((code % 256) as int)
    } else {
        host_status_name(code)
    }
}

/// A status code as four upper-case hexadecimal digits.
pub open spec fn hex4_upper(code: u16) -> Seq<char> {
    seq![
        hex_digit((code / 4096) as int, true),
        hex_digit(((code / 256) % 16) as int, true),
        hex_digit(((code / 16) % 16) as int, true),
        hex_digit((code % 16) as int, true),
    ]
}

/// The text of an error, as `Display` would print it.
pub open spec fn spec_error_message(e: Error) -> Seq<char> {
    match e {
        Error::Status(code) => match spec_status_name(code) {
            Some(name) => "OPTIGA error 0x"@ + hex4_upper(code) + " ("@ + name@ + ")"@,
            None => "OPTIGA error 0x"@ + hex4_upper(code),
        },
        Error::Timeout => "timed out waiting for the chip"@,
        Error::Instance => "could not create a host library instance"@,
        Error::AlreadyOpen => "a Trustm handle is already open in this process"@,
        Error::InvalidArgument(what) => "invalid argument: "@ + what@,
        Error::BadData(what) => "unexpected data from the chip: "@ + what@,
    }
}

fn chip_reason(reason: u16) -> (r: Option<&'static str>)
    ensures
        r == chip_reason_name(reason as int),
{
    match reason {
        0x01 => Some("chip: invalid OID"),
        0x03 => Some("chip: invalid parameter field"),
        0x04 => Some("chip: invalid length field"),
        0x05 => Some("chip: invalid parameter in data field"),
        0x06 => Some("chip: internal process error"),
        0x07 => Some("chip: access conditions not satisfied"),
        0x08 => Some("chip: data object boundary exceeded"),
        0x09 => Some("chip: metadata truncation error"),
        0x0A => Some("chip: invalid command field"),
        0x0B => Some("chip: command out of sequence"),
        0x0C => Some("chip: command not available"),
        0x0D => Some("chip: insufficient memory or buffer"),
        0x0E => Some("chip: counter threshold limit exceeded"),
        0x0F => Some("chip: invalid manifest"),
        0x10 => Some("chip: wrong payload version"),
        0x21 => Some("chip: unsorted input data"),
        _ => None,
    }
}

fn host_status(code: u16) -> (r: Option<&'static str>)
    ensures
        r == host_status_name(code),
{
    if code == COMMS_ERROR {
        Some("comms error")
    }     else if code == COMMS_ERROR_INVALID_INPUT {
        Some("comms: invalid input")
    }     else if code == COMMS_ERROR_MEMORY_INSUFFICIENT {
        Some("comms: insufficient memory")
    }     else if code == COMMS_ERROR_STACK_MEMORY {
        Some("comms: stack memory")
    }     else if code == COMMS_ERROR_FATAL {
        Some("comms: fatal")
    }     else if code == COMMS_ERROR_HANDSHAKE {
        Some("comms: handshake")
    }     else if code == COMMS_ERROR_SESSION {
        Some("comms: session")
    }     else if code == CMD_ERROR {
        Some("cmd error")
    }     else if code == CMD_ERROR_INVALID_INPUT {
        Some("cmd: invalid input")
    }     else if code == CMD_ERROR_MEMORY_INSUFFICIENT {
        Some("cmd: insufficient memory")
    }     else if code == UTIL_ERROR {
        Some("util error")
    }     else if code == UTIL_ERROR_INVALID_INPUT {
        Some("util: invalid input")
    }     else if code == UTIL_ERROR_MEMORY_INSUFFICIENT {
        Some("util: insufficient memory")
    }     else if code == UTIL_ERROR_INSTANCE_IN_USE {
        Some("util: instance in use")
    }     else if code == CRYPT_ERROR {
        Some("crypt error")
    }     else if code == CRYPT_ERROR_INVALID_INPUT {
        Some("crypt: invalid input")
    }     else if code == CRYPT_ERROR_MEMORY_INSUFFICIENT {
        Some("crypt: insufficient memory")
    }     else if code == CRYPT_ERROR_INSTANCE_IN_USE {
        Some("crypt: instance in use")
    } else {
        None
    }
}

/// A chip status code (top bit set) is named by its low byte alone: two chip
/// codes with the same low byte have the same name, the chip's name for that
/// reason.
pub proof fn lemma_chip_status_named_by_reason(a: u16, b: u16)
    requires
        a >= DEVICE_ERROR,
        b >= DEVICE_ERROR,
        a % 256 == b % 256,
    ensures
        spec_status_name(a) == spec_status_name(b),
        spec_status_name(a) == chip_reason_name((a % 256) as int),
{
}

impl Error {
    /// `Ok` for the success status, otherwise the status as an error.
    pub fn from_status(status: u16) -> (r: Result<()>)
        ensures
            status == LIB_SUCCESS ==> r == Ok::<(), Error>(()),
            status != LIB_SUCCESS ==> r == Err::<(), Error>(Error::Status(status)),
    {
        if status == LIB_SUCCESS {
            Ok(())
        } else {
            Err(Error::Status(status))
        }
    }

    /// Human-readable name for a status code, when known.
    pub fn status_name(code: u16) -> (r: Option<&'static str>)
        ensures
            r == spec_status_name(code),
    {
        if code >= DEVICE_ERROR {
            // Low byte: chip error codes from the Solution Reference Manual.
            chip_reason(code % 256)
        } else {
            host_status(code)
        }
    }

    /// The error as text: the status code in hexadecimal with its name where
    /// known, or a sentence for the other kinds.
    pub fn to_string(&self) -> (s: String)
        ensures
            s@ == spec_error_message(*self),
    {
        match self {
            Error::Status(code) => {
                let code = *code;
                let mut s = String::from_str("OPTIGA error 0x");
                let mut digits: Vec<char> = Vec::new();
                digits.push(hex_digit_char((code / 4096) as u8, true));
                digits.push(hex_digit_char(((code / 256) % 16) as u8, true));
                digits.push(hex_digit_char(((code / 16) % 16) as u8, true));
                digits.push(hex_digit_char((code % 16) as u8, true));
                assert(digits@ =~= hex4_upper(code));
                let hex = string_from_chars(digits);
                s.append(hex.as_str());
                match Error::status_name(code) {
                    Some(name) => {
                        s.append(" (");
                        s.append(name);
                        s.append(")");
                    },
                    None => {},
                }
                s
            },
            Error::Timeout => String::from_str("timed out waiting for the chip"),
            Error::Instance => String::from_str("could not create a host library instance"),
            Error::AlreadyOpen => String::from_str("a Trustm handle is already open in this process"),
            Error::InvalidArgument(what) => {
                let mut s = String::from_str("invalid argument: ");
                s.append(what);
                s
            },
            Error::BadData(what) => {
                let mut s = String::from_str("unexpected data from the chip: ");
                s.append(what);
                s
            },
        }
    }
}

} // verus!
