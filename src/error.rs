//! The result kinds shared by every layer of the client.
use vstd::prelude::*;

verus! {

/// Why a request failed: either on the link itself (`PacketTimeout`,
/// `PacketFormat`) or as reported by the device through a response's retcode.
#[derive(Debug, Clone, Copy, PartialEq, Eq, Structural)]
pub enum Error {
    Unknown,
    PacketTimeout,
    PacketFormat,
    NoError,
    NotSupported,
    InvalidArgsFormat,
    Uninitialized,
    Peripheral,
    InvalidArgs,
    Busy,
    Timeout,
}

/// The kind that a retcode stands for; every code outside 0..=7 is `Unknown`.
pub open spec fn error_of(code: i16) -> Error {
    if code == 0 {
        Error::NoError
    } else if code == 1 {
        Error::NotSupported
    } else if code == 2 {
        Error::InvalidArgsFormat
    } else if code == 3 {
        Error::Uninitialized
    } else if code == 4 {
        Error::Peripheral
    } else if code == 5 {
        Error::InvalidArgs
    } else if code == 6 {
        Error::Busy
    } else if code == 7 {
        Error::Timeout
    } else {
        Error::Unknown
    }
}

/// Whether a kind is one that a device reports through a retcode.
pub open spec fn is_device_kind(e: Error) -> bool {
    match e {
        Error::NoError | Error::NotSupported | Error::InvalidArgsFormat | Error::Uninitialized
        | Error::Peripheral | Error::InvalidArgs | Error::Busy | Error::Timeout => true,
        _ => false,
    }
}

impl From<i16> for Error {
    fn from(value: i16) -> (r: Error)
        ensures
            r == error_of(value),
    {
        match value {
            0 => Error::NoError,
            1 => Error::NotSupported,
            2 => Error::InvalidArgsFormat,
            3 => Error::Uninitialized,
            4 => Error::Peripheral,
            5 => Error::InvalidArgs,
            6 => Error::Busy,
            7 => Error::Timeout,
            _ => Error::Unknown,
        }
    }
}

impl vstd::std_specs::convert::FromSpecImpl<i16> for Error {
    open spec fn obeys_from_spec() -> bool {
        true
    }

    open spec fn from_spec(v: i16) -> Error {
        error_of(v)
    }
}

/// Every retcode maps to exactly one kind: the eight codes 0..=7 to eight
/// distinct device-reported kinds, and every other value, negative ones
/// included, to `Unknown`.
pub proof fn lemma_retcode_total(a: i16, b: i16)
    ensures
        0 <= a <= 7 ==> is_device_kind(error_of(a)),
        !(0 <= a <= 7) ==> error_of(a) == Error::Unknown,
        0 <= a <= 7 && 0 <= b <= 7 && error_of(a) == error_of(b) ==> a == b,
        error_of(a) == Error::NoError <==> a == 0,
{
}

} // verus!
