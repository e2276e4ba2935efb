//! The failures that the library reports to its callers.

use vstd::prelude::*;

verus! {

/// What is wrong with the parameters of a request to register or unregister.
#[derive(Clone, Copy, Debug, PartialEq, Eq, Structural)]
pub enum ParamError {
    /// The request has no query string.
    NoQuery,
    /// The query string has no `ip` parameter.
    NoIp,
    /// The query string has no `port` parameter.
    NoPort,
    /// The `ip` and `port` parameters together are no socket address.
    BadAddress,
}

/// Why a control operation failed. None of these ends the process.
#[derive(Clone, Copy, Debug, PartialEq, Eq, Structural)]
pub enum ControlError {
    /// A sampling task is alive already.
    AlreadyRunning,
    /// The sampling task could not be spawned.
    SpawnError,
    /// The endpoint is in the register already.
    AlreadyRegistered,
    /// The parameters of the request are missing or malformed.
    InvalidRequestParameters(ParamError),
    /// The reading could not be serialized.
    SerializationFailed,
}

/// Why the meter's telegram could not be turned into a reading.
#[derive(Clone, Copy, Debug, PartialEq, Eq, Structural)]
pub enum DecodeError {
    /// The telegram does not have the expected shape.
    InvalidFormat,
    /// The checksum in the telegram is not that of its data.
    InvalidChecksum,
    /// The telegram holds an object that is not known.
    UnknownObis,
}

/// Why a sampling session ended. Either is fatal to the session.
#[derive(Clone, Copy, Debug, PartialEq, Eq, Structural)]
pub enum SamplerFault {
    /// The serial device could not be opened, read or written.
    DeviceIo,
    /// The bytes read were no valid telegram.
    Decode(DecodeError),
}

} // verus!
