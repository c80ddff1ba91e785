//! Small helpers: little-endian reads, status codes, and the completion flag.
use crate::error::Error;
use vstd::prelude::*;

verus! {

/// The status code with which the native layer reports success.
pub const MMSYSERR_NOERROR: u32 = 0;

/// The 16-bit integer that two bytes at `at` hold, least significant byte first.
pub open spec fn le_u16(data: Seq<u8>, at: int) -> int {
    data[at] + 256 * data[at + 1]
}

/// The 32-bit integer that four bytes at `at` hold, least significant byte first.
pub open spec fn le_u32(data: Seq<u8>, at: int) -> int {
    data[at] + 256 * data[at + 1] + 65536 * data[at + 2] + 16777216 * data[at + 3]
}

/// Reads a little-endian `u16` at `at`; `None` where fewer than two bytes are left.
pub fn read_u16(data: &[u8], at: usize) -> (r: Option<u16>)
    ensures
        r == (if at + 2 <= data@.len() {
            Some(le_u16(data@, at as int) as u16)
        } else {
            None
        }),
        at + 2 <= data@.len() ==> 0 <= le_u16(data@, at as int) <= u16::MAX,
{
    if data.len() < 2 || at > data.len() - 2 {
        return None;
    }
    let low: u16 = data[at] as u16;
    let high: u16 = data[at + 1] as u16;
    Some(low + 256 * high)
}

/// Reads a little-endian `u32` at `at`; `None` where fewer than four bytes are left.
pub fn read_u32(data: &[u8], at: usize) -> (r: Option<u32>)
    ensures
        r == (if at + 4 <= data@.len() {
            Some(le_u32(data@, at as int) as u32)
        } else {
            None
        }),
        at + 4 <= data@.len() ==> 0 <= le_u32(data@, at as int) <= u32::MAX,
{
    if data.len() < 4 || at > data.len() - 4 {
        return None;
    }
    let b0: u32 = data[at] as u32;
    let b1: u32 = data[at + 1] as u32;
    let b2: u32 = data[at + 2] as u32;
    let b3: u32 = data[at + 3] as u32;
    Some(b0 + 256 * b1 + 65536 * b2 + 16777216 * b3)
}

/// Whether a status code is success or one of the errors this library names.
pub open spec fn is_known_status(result: u32) -> bool {
    result == MMSYSERR_NOERROR || Error::spec_try_from(result) is Some
}

/// What a status code of the native layer means: success, or the error it names.
pub open spec fn status_meaning(result: u32) -> Result<(), Error>
    recommends
        is_known_status(result),
{
    if result == MMSYSERR_NOERROR {
        Ok(())
    } else {
        Err(Error::spec_try_from(result).unwrap())
    }
}

/// Whether `result` is a status code that [`check_multimedia_error`] accepts.
pub fn is_multimedia_status(result: u32) -> (r: bool)
    ensures
        r == is_known_status(result),
{
    result == MMSYSERR_NOERROR || Error::try_from(result).is_ok()
}

/// Converts a status code of the native layer into `Ok` or the error it names.
/// The code must be one that the native layer documents.
pub fn check_multimedia_error(result: u32) -> (r: Result<(), Error>)
    requires
        is_known_status(result),
    ensures
        r == status_meaning(result),
        r is Ok <==> result == MMSYSERR_NOERROR,
{
    if result == MMSYSERR_NOERROR {
        Ok(())
    } else {
        match Error::try_from(result) {
            Ok(error) => Err(error),
            Err(_) => Err(Error::Error),
        }
    }
}

/// The completion flag shared by the driver's notification and the submitting
/// side. It records the flag only: parking a thread until the flag is set is the
/// caller's affair, which [`Event::wait`] tells it to do.
#[derive(Clone, Copy, Debug, PartialEq, Eq, Structural)]
pub struct Event {
    flag: bool,
}

impl Event {
    /// Whether the event is set.
    pub closed spec fn is_set(&self) -> bool {
        self.flag
    }

    /// The event that is set, or clear, as `set` says.
    pub closed spec fn with(set: bool) -> Event {
        Event { flag: set }
    }

    /// An event is what its flag is, and nothing more.
    pub proof fn lemma_with(self, set: bool)
        ensures
            Event::with(set).is_set() == set,
            self == Event::with(self.is_set()),
    {
    }

    /// A new event, initially clear.
    pub fn new() -> (r: Event)
        ensures
            !r.is_set(),
    {
        Event { flag: false }
    }

    /// Sets the event: every waiter passes from now on.
    pub fn set(&mut self)
        ensures
            final(self).is_set(),
    {
        self.flag = true;
    }

    /// Clears the event: waiters are held until the next `set`.
    pub fn clear(&mut self)
        ensures
            !final(self).is_set(),
    {
        self.flag = false;
    }

    /// Whether a waiter passes now. On `false` the caller waits for the next
    /// `set` before it goes on.
    pub fn wait(&self) -> (passes: bool)
        ensures
            passes == self.is_set(),
    {
        self.flag
    }
}

} // verus!
