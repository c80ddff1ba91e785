//! Errors of the sound interface and of the wave decoder.
use vstd::prelude::*;

verus! {

/// Errors that can occur when working with Windows' sound API.
#[derive(Clone, Copy, Debug, PartialEq, Eq, Structural)]
pub enum Error {
    /// Unspecified error.
    Error,
    /// Device ID out of range.
    BadDeviceId,
    /// Driver failed enable.
    NotEnabled,
    /// Device already allocated.
    Allocated,
    /// Device handle is invalid.
    InvalidHandle,
    /// No device driver present.
    NoDriver,
    /// Memory allocation error.
    NoMemory,
    /// Function isn't supported.
    NotSupported,
    /// Error value out of range.
    BadErrorNumber,
    /// Invalid flag passed.
    InvalidFlag,
    /// Invalid parameter passed.
    InvalidParam,
    /// Handle being used.
    HandleBusy,
    /// Specified alias not found.
    InvalidAlias,
    /// Bad registry database.
    BadDatabase,
    /// Registry key not found.
    KeyNotFound,
    /// Registry read error.
    ReadError,
    /// Registry write error.
    WriteError,
    /// Registry delete error.
    DeleteError,
    /// Registry value not found.
    ValueNotFound,
    /// Driver does not call DriverCallback.
    NoDriverCallback,
    /// More data to be returned.
    MoreData,
    /// Attempted to open with an unsupported waveform-audio format.
    BadFormat,
    /// There are still buffers in the queue.
    StillPlaying,
    /// The data block pointed to by the parameter hasn't been prepared.
    Unprepared,
    /// The device is synchronous but the device was opened without using the `AllowSync` flag.
    Sync,
}

impl Error {
    /// The status code with which the native layer reports this error.
    pub open spec fn spec_code(self) -> u32 {
        match self {
            Error::Error => 1,
            Error::BadDeviceId => 2,
            Error::NotEnabled => 3,
            Error::Allocated => 4,
            Error::InvalidHandle => 5,
            Error::NoDriver => 6,
            Error::NoMemory => 7,
            Error::NotSupported => 8,
            Error::BadErrorNumber => 9,
            Error::InvalidFlag => 10,
            Error::InvalidParam => 11,
            Error::HandleBusy => 12,
            Error::InvalidAlias => 13,
            Error::BadDatabase => 14,
            Error::KeyNotFound => 15,
            Error::ReadError => 16,
            Error::WriteError => 17,
            Error::DeleteError => 18,
            Error::ValueNotFound => 19,
            Error::NoDriverCallback => 20,
            Error::MoreData => 21,
            Error::BadFormat => 32,
            Error::StillPlaying => 33,
            Error::Unprepared => 34,
            Error::Sync => 35,
        }
    }

    /// The member listed under a number; the first member where none is listed.
    #[verifier::opaque]
    pub open spec fn listed(value: u32) -> Error {
        match value {
            2 => Error::BadDeviceId,
            3 => Error::NotEnabled,
            4 => Error::Allocated,
            5 => Error::InvalidHandle,
            6 => Error::NoDriver,
            7 => Error::NoMemory,
            8 => Error::NotSupported,
            9 => Error::BadErrorNumber,
            10 => Error::InvalidFlag,
            11 => Error::InvalidParam,
            12 => Error::HandleBusy,
            13 => Error::InvalidAlias,
            14 => Error::BadDatabase,
            15 => Error::KeyNotFound,
            16 => Error::ReadError,
            17 => Error::WriteError,
            18 => Error::DeleteError,
            19 => Error::ValueNotFound,
            20 => Error::NoDriverCallback,
            21 => Error::MoreData,
            32 => Error::BadFormat,
            33 => Error::StillPlaying,
            34 => Error::Unprepared,
            35 => Error::Sync,
            _ => Error::Error,
        }
    }

    /// The error that a status code of the native layer reports.
    pub open spec fn spec_try_from(value: u32) -> Option<Error> {
        if Self::listed(value).spec_code() == value {
            Some(Self::listed(value))
        } else {
            None
        }
    }

    /// The status code with which the native layer reports this error.
    #[verifier::when_used_as_spec(spec_code)]
    pub fn code(self) -> (r: u32)
        ensures
            r == self.spec_code(),
    {
        match self {
            Error::Error => 1,
            Error::BadDeviceId => 2,
            Error::NotEnabled => 3,
            Error::Allocated => 4,
            Error::InvalidHandle => 5,
            Error::NoDriver => 6,
            Error::NoMemory => 7,
            Error::NotSupported => 8,
            Error::BadErrorNumber => 9,
            Error::InvalidFlag => 10,
            Error::InvalidParam => 11,
            Error::HandleBusy => 12,
            Error::InvalidAlias => 13,
            Error::BadDatabase => 14,
            Error::KeyNotFound => 15,
            Error::ReadError => 16,
            Error::WriteError => 17,
            Error::DeleteError => 18,
            Error::ValueNotFound => 19,
            Error::NoDriverCallback => 20,
            Error::MoreData => 21,
            Error::BadFormat => 32,
            Error::StillPlaying => 33,
            Error::Unprepared => 34,
            Error::Sync => 35,
        }
    }

    /// The member listed under a number; the first member where none is listed.
    fn lookup(value: u32) -> (r: Error)
        ensures
            r == Self::listed(value),
    {
        reveal(Error::listed);
        match value {
            2 => Error::BadDeviceId,
            3 => Error::NotEnabled,
            4 => Error::Allocated,
            5 => Error::InvalidHandle,
            6 => Error::NoDriver,
            7 => Error::NoMemory,
            8 => Error::NotSupported,
            9 => Error::BadErrorNumber,
            10 => Error::InvalidFlag,
            11 => Error::InvalidParam,
            12 => Error::HandleBusy,
            13 => Error::InvalidAlias,
            14 => Error::BadDatabase,
            15 => Error::KeyNotFound,
            16 => Error::ReadError,
            17 => Error::WriteError,
            18 => Error::DeleteError,
            19 => Error::ValueNotFound,
            20 => Error::NoDriverCallback,
            21 => Error::MoreData,
            32 => Error::BadFormat,
            33 => Error::StillPlaying,
            34 => Error::Unprepared,
            35 => Error::Sync,
            _ => Error::Error,
        }
    }

    /// The error that a status code of the native layer reports.
    /// A number that names nothing is handed back as the error.
    pub fn try_from(value: u32) -> (r: Result<Error, u32>)
        ensures
            r == (match Self::spec_try_from(value) {
                Some(x) => Ok::<Error, u32>(x),
                None => Err::<Error, u32>(value),
            }),
    {
        let found = Self::lookup(value);
        if found.code() == value {
            Ok(found)
        } else {
            Err(value)
        }
    }

    /// Reading a member's number back gives the same member.
    pub proof fn lemma_code_round_trip(self)
        ensures
            Self::spec_try_from(self.spec_code()) == Some(self),
    {
        reveal(Error::listed);
    }

    /// A number that names a member is that member's own number.
    pub proof fn lemma_try_from_is_exact(value: u32)
        ensures
            Self::spec_try_from(value) matches Some(x) ==> x.spec_code() == value,
    {
    }
}

/// Why a wave container or its format record could not be decoded.
#[derive(Clone, Copy, Debug, PartialEq, Eq, Structural)]
pub enum DecodeError {
    /// The container does not begin with its four-byte signature.
    MissingSignature,
    /// The marker of the format sub-chunk occurs nowhere in the container.
    MarkerNotFound,
    /// The data ends before the bytes that were to be read.
    Truncated,
    /// The format record holds a tag number that names no known tag.
    UnknownTag(u16),
}

} // verus!
