//! Playing `.wav` files: finding the format in the container, and feeding the
//! two buffers of a device in turn.
use crate::error::{DecodeError, Error};
use crate::wave::buffer::filled_block;
use crate::wave::format::Format;
use crate::wave::out::{packed_volume, Action, Out, Request, State, FULL_VOLUME};
use vstd::prelude::*;
use vstd::slice::slice_subrange;

verus! {

/// The four bytes with which a wave container begins: `RIFF`.
pub open spec fn signature() -> Seq<u8> {
    seq![0x52u8, 0x49u8, 0x46u8, 0x46u8]
}

/// The four bytes that mark the format sub-chunk: `fmt` and a space.
pub open spec fn format_marker() -> Seq<u8> {
    seq![0x66u8, 0x6du8, 0x74u8, 0x20u8]
}

/// The number of bytes between the marker and the format record: the
/// sub-chunk's length field.
pub const OFFSET_FMT_LENGTH: u64 = 4;

/// Whether `target` stands in `file` at index `at`.
pub open spec fn occurs_at(file: Seq<u8>, target: Seq<u8>, at: int) -> bool {
    &&& 0 <= at
    &&& at + target.len() <= file.len()
    &&& file.subrange(at, at + target.len()) == target
}

/// Whether `at` is the first index at which `target` stands in `file`.
pub open spec fn is_first_occurrence(file: Seq<u8>, target: Seq<u8>, at: int) -> bool {
    &&& occurs_at(file, target, at)
    &&& forall|earlier: int| 0 <= earlier < at ==> !occurs_at(file, target, earlier)
}

/// The index just behind the first occurrence of `target` in `file`, if it
/// occurs at all.
pub open spec fn end_of_first(file: Seq<u8>, target: Seq<u8>) -> Option<int> {
    if exists|at: int| is_first_occurrence(file, target, at) {
        Some((choose|at: int| is_first_occurrence(file, target, at)) + target.len())
    } else {
        None
    }
}

/// The format that the header of a wave container holds, or why it has none.
/// The signature is judged before anything else is looked at.
pub open spec fn header_format(file: Seq<u8>) -> Result<Format, DecodeError> {
    if file.len() < 4 {
        Err(DecodeError::Truncated)
    } else if file.subrange(0, 4) != signature() {
        Err(DecodeError::MissingSignature)
    } else {
        match end_of_first(file, format_marker()) {
            None => Err(DecodeError::MarkerNotFound),
            Some(end) => Format::decode(file, end + OFFSET_FMT_LENGTH),
        }
    }
}

/// Helper to play `.wav` files.
pub struct Player {
    fmt: Format,
    file: Vec<u8>,
    position: usize,
    slot: usize,
    pending: Option<bool>,
    finished: bool,
}

impl Player {
    /// The format of the file.
    pub closed spec fn format(&self) -> Format {
        self.fmt
    }

    /// The bytes of the file.
    pub closed spec fn contents(&self) -> Seq<u8> {
        self.file@
    }

    /// How many bytes of the file have gone into buffers.
    pub closed spec fn position(&self) -> int {
        self.position as int
    }

    /// The slot that is filled and submitted next: 0 or 1.
    pub closed spec fn slot(&self) -> int {
        self.slot as int
    }

    /// Whether the buffer of the next slot is filled and waits to be
    /// submitted, and if so, whether that fill used up the file.
    pub closed spec fn pending(&self) -> Option<bool> {
        self.pending
    }

    /// Whether the last block of the file has been submitted.
    pub closed spec fn finished(&self) -> bool {
        self.finished
    }

    /// The bytes of the file that have not gone into a buffer yet.
    pub open spec fn remaining(&self) -> Seq<u8> {
        self.contents().subrange(self.position(), self.contents().len() as int)
    }

    /// What holds of a player at all times.
    pub open spec fn wf(&self) -> bool {
        &&& 0 <= self.position() <= self.contents().len()
        &&& 0 <= self.slot() < 2
        &&& self.finished() ==> self.pending() is None
    }

    /// Whether `target` stands in `file` at index `at`.
    fn matches_at(file: &[u8], target: &[u8], at: usize) -> (r: bool)
        requires
            at + target@.len() <= file@.len(),
        ensures
            r == occurs_at(file@, target@, at as int),
    {
        let length: usize = file.len();
        let mut i: usize = 0;
        while i < target.len()
            invariant
                length == file@.len(),
                i <= target@.len(),
                at + target@.len() <= file@.len(),
                forall|k: int| 0 <= k < i ==> file@[at + k] == target@[k],
            decreases target@.len() - i,
        {
            if file[at + i] != target[i] {
                assert(file@.subrange(at as int, at + target@.len())[i as int] == file@[at + i]);
                return false;
            }
            i = i + 1;
        }
        assert(file@.subrange(at as int, at + target@.len()) =~= target@);
        true
    }

    /// Seeks in the bytes of a file for the first occurrence of a certain
    /// string, and returns the index after the found string.
    pub fn find_string_in_file(file: &[u8], target: &[u8]) -> (r: Option<u64>)
        requires
            target@.len() > 0,
        ensures
            r matches Some(end) ==> end_of_first(file@, target@) == Some(end as int),
            r is None ==> end_of_first(file@, target@) is None,
            r is None <==> forall|at: int| !occurs_at(file@, target@, at),
    {
        if file.len() < target.len() {
            return None;
        }
        let last: usize = file.len() - target.len();
        let mut at: usize = 0;
        while at <= last
            invariant
                target@.len() > 0,
                file@.len() <= usize::MAX,
                last + target@.len() == file@.len(),
                at <= last + 1,
                forall|earlier: int| 0 <= earlier < at ==> !occurs_at(file@, target@, earlier),
            decreases last + 1 - at,
        {
            if Self::matches_at(file, target, at) {
                assert(is_first_occurrence(file@, target@, at as int));
                let ghost chosen = choose|c: int| is_first_occurrence(file@, target@, c);
                assert(chosen == at) by {
                    if chosen < at {
                        assert(!occurs_at(file@, target@, chosen));
                    }
                    if at < chosen {
                        assert(!occurs_at(file@, target@, at as int));
                    }
                }
                return Some((at + target.len()) as u64);
            }
            at = at + 1;
        }
        assert forall|c: int| !occurs_at(file@, target@, c) by {
            if 0 <= c < at {
            }
        }
        None
    }

    /// Creates a new `Player` from the bytes of a `.wav` file: it checks the
    /// container's signature, finds the format sub-chunk by its marker, and
    /// reads the format record behind the sub-chunk's length field. Playback
    /// starts at the first byte of the file, with the first slot.
    pub fn from_file(contents: Vec<u8>) -> (r: Result<Player, DecodeError>)
        ensures
            match r {
                Ok(player) => {
                    &&& header_format(contents@) == Ok::<Format, DecodeError>(player.format())
                    &&& player.wf()
                    &&& player.contents() == contents@
                    &&& player.position() == 0
                    &&& player.slot() == 0
                    &&& player.pending() is None
                    &&& !player.finished()
                },
                Err(error) => header_format(contents@) == Err::<Format, DecodeError>(error),
            },
    {
        if contents.len() < 4 {
            return Err(DecodeError::Truncated);
        }
        if contents[0] != 0x52 || contents[1] != 0x49 || contents[2] != 0x46 || contents[3]
            != 0x46 {
            assert(contents@.subrange(0, 4)[0] == contents@[0]);
            assert(contents@.subrange(0, 4)[1] == contents@[1]);
            assert(contents@.subrange(0, 4)[2] == contents@[2]);
            assert(contents@.subrange(0, 4)[3] == contents@[3]);
            return Err(DecodeError::MissingSignature);
        }
        assert(contents@.subrange(0, 4) =~= signature());
        let mut marker: Vec<u8> = Vec::new();
        marker.push(0x66);
        marker.push(0x6d);
        marker.push(0x74);
        marker.push(0x20);
        assert(marker@ =~= format_marker());
        let end: u64 = match Self::find_string_in_file(contents.as_slice(), marker.as_slice()) {
            Some(end) => end,
            None => { return Err(DecodeError::MarkerNotFound); },
        };
        if end > u64::MAX - OFFSET_FMT_LENGTH {
            return Err(DecodeError::Truncated);
        }
        let fmt = match Format::from_wav_stream(contents.as_slice(), end + OFFSET_FMT_LENGTH) {
            Ok(fmt) => fmt,
            Err(error) => { return Err(error); },
        };
        Ok(Player { fmt, file: contents, position: 0, slot: 0, pending: None, finished: false })
    }

    /// A container without the signature is refused for that reason, whatever
    /// else it holds: neither the marker nor a format record is looked at.
    pub proof fn lemma_signature_is_judged_first(file: Seq<u8>, other: Seq<u8>)
        requires
            file.len() >= 4,
            other.len() >= 4,
            file.subrange(0, 4) != signature(),
            other.subrange(0, 4) == file.subrange(0, 4),
        ensures
            header_format(file) == Err::<Format, DecodeError>(DecodeError::MissingSignature),
            header_format(other) == header_format(file),
    {
    }

    /// The format of the file.
    pub fn fmt(&self) -> (r: Format)
        ensures
            r == self.format(),
    {
        self.fmt
    }

    /// Whether the last block of the file has been submitted.
    pub fn is_finished(&self) -> (r: bool)
        ensures
            r == self.finished(),
    {
        self.finished
    }

    /// Sets the volume of the audio device that plays the file, each channel
    /// from 0 to `FULL_VOLUME`: the device's own volume setting.
    pub fn set_volume(&self, device: &Out, left: u32, right: u32) -> (r: Result<Action, Error>)
        ensures
            (left > FULL_VOLUME || right > FULL_VOLUME) ==> r == Err::<Action, Error>(
                Error::InvalidParam,
            ),
            (left <= FULL_VOLUME && right <= FULL_VOLUME) ==> r == Ok::<Action, Error>(
                device.when_ready(Request::SetVolume { volume: packed_volume(left, right) as u32 }),
            ),
    {
        device.set_volume(left, right)
    }

    /// Whether `self` is `before` in everything.
    pub open spec fn same_player(&self, before: &Player) -> bool {
        &&& self.format() == before.format()
        &&& self.contents() == before.contents()
        &&& self.position() == before.position()
        &&& self.slot() == before.slot()
        &&& self.pending() == before.pending()
        &&& self.finished() == before.finished()
    }

    /// How many bytes a fill takes from the file: what is left of it, but no
    /// more than a buffer holds.
    pub open spec fn fill_length(&self, capacity: int) -> int {
        if self.remaining().len() < capacity {
            self.remaining().len() as int
        } else {
            capacity
        }
    }

    /// One step of playing the file from beginning to end.
    ///
    /// The buffers are used in turn, the first one first. A step fills the
    /// buffer of the next slot from the file, unless it is filled already, and
    /// then submits it: as `Wait` where the device still plays the block before
    /// it, in which case the filled buffer is kept for the next step, and else
    /// as the write of that slot. The fill that uses up the file is the last:
    /// once its block is submitted the player is finished, and every further
    /// step is `Idle`, as is every step on a device that is not ready.
    pub fn play(&mut self, device: &mut Out) -> (r: Action)
        requires
            old(self).wf(),
            old(device).wf(),
        ensures
            final(self).wf(),
            final(device).wf(),
            final(self).format() == old(self).format(),
            final(self).contents() == old(self).contents(),
            final(device).state() == old(device).state(),
            final(device).device_id() == old(device).device_id(),
            final(device).format() == old(device).format(),
            (old(device).state() != State::Ready || old(self).finished()) ==> {
                &&& r == Action::Idle
                &&& final(self).same_player(old(self))
                &&& final(device).same_device(old(device))
                &&& final(device).same_signal(old(device))
            },
            (old(device).state() == State::Ready && !old(self).finished()) ==> {
                let slot = old(self).slot();
                let capacity = old(device).slots()[slot].bytes().len() as int;
                let fresh = old(self).pending() is None;
                let exhausted = if fresh {
                    old(self).remaining().len() < capacity
                } else {
                    old(self).pending().unwrap()
                };
                &&& final(device).slots()[1 - slot] == old(device).slots()[1 - slot]
                &&& fresh ==> {
                    &&& final(device).slots()[slot].bytes() == filled_block(
                        old(self).remaining(),
                        capacity as nat,
                    )
                    &&& final(device).slots()[slot].filled_length() == old(self).fill_length(
                        capacity,
                    )
                    &&& final(device).slots()[slot].header_flags() == old(
                        device,
                    ).slots()[slot].header_flags()
                    &&& final(self).position() == old(self).position() + old(self).fill_length(
                        capacity,
                    )
                }
                &&& !fresh ==> {
                    &&& final(device).slots()[slot] == old(device).slots()[slot]
                    &&& final(self).position() == old(self).position()
                }
                &&& old(device).signal() ==> {
                    &&& r == Action::Call(Request::Write { slot: slot as usize })
                    &&& !final(device).signal()
                    &&& final(device).submissions() == old(device).submissions() + 1
                    &&& final(device).completions() == old(device).completions()
                    &&& final(self).slot() == 1 - slot
                    &&& final(self).pending() is None
                    &&& final(self).finished() == exhausted
                }
                &&& !old(device).signal() ==> {
                    &&& r == Action::Wait
                    &&& final(device).same_signal(old(device))
                    &&& final(self).slot() == slot
                    &&& final(self).pending() == Some(exhausted)
                    &&& !final(self).finished()
                }
            },
    {
        if !device.is_ready() || self.finished {
            return Action::Idle;
        }
        let slot: usize = self.slot;
        let exhausted: bool = match self.pending {
            Some(exhausted) => exhausted,
            None => {
                let rest = slice_subrange(self.file.as_slice(), self.position, self.file.len());
                let buffers = device.buffers();
                let exhausted = buffers[slot].read(rest);
                let taken: u32 = buffers[slot].len();
                self.position = self.position + taken as usize;
                exhausted
            },
        };
        let action = if slot == 0 {
            device.write_first()
        } else {
            device.write_second()
        };
        match action {
            Action::Call(_) => {
                self.slot = 1 - slot;
                self.pending = None;
                self.finished = exhausted;
            },
            _ => {
                self.pending = Some(exhausted);
            },
        }
        action
    }
}

} // verus!
