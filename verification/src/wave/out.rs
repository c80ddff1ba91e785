//! The wave output device: setup, double-buffered submission, teardown.
//!
//! [`Out`] is the device's protocol as a state machine. It never touches the
//! native layer itself: it names the call to make as a [`Request`], and takes the
//! call's status code back through [`Out::reply`].
use crate::error::Error;
use crate::util::{check_multimedia_error, is_known_status, status_meaning, Event};
use crate::wave::buffer::{Buffer, WHDR_PREPARED};
use crate::wave::format::Format;
use vstd::prelude::*;

verus! {

/// Individual buffer size for each of the two buffers, before alignment.
pub const BUFFER_SIZE: u32 = 262144;

/// The driver's message that the device was opened.
pub const WOM_OPEN: u32 = 0x3BB;

/// The driver's message that the device was closed.
pub const WOM_CLOSE: u32 = 0x3BC;

/// The driver's message that a block has finished playing.
pub const WOM_DONE: u32 = 0x3BD;

/// The largest gain of one channel in the native fixed-point form.
pub const FULL_VOLUME: u32 = 0xffff;

/// A call into the native layer that the caller is to make for the device.
#[derive(Clone, Copy, Debug, PartialEq, Eq, Structural)]
pub enum Request {
    /// Open the output device `device_id` for `format`, with the completion
    /// notification registered.
    Open { device_id: u32, format: Format },
    /// Register the buffer in `slot` with the driver; the reply carries the
    /// header flags that the driver left.
    PrepareHeader { slot: usize },
    /// Hand the buffer in `slot` to the driver for playback.
    Write { slot: usize },
    /// Take the registration of the buffer in `slot` back.
    UnprepareHeader { slot: usize },
    /// Set both channel gains, packed in one word.
    SetVolume { volume: u32 },
    /// Pause playback.
    Pause,
    /// Resume paused playback.
    Restart,
    /// Stop playback and mark every pending block as done.
    Reset,
    /// Release the device.
    Close,
}

/// What the caller is to do next.
#[derive(Clone, Copy, Debug, PartialEq, Eq, Structural)]
pub enum Action {
    /// Nothing: there is no call to make.
    Idle,
    /// Wait until the driver reports a finished block, pass that message to
    /// [`Out::callback`], and ask again.
    Wait,
    /// Make this call.
    Call(Request),
}

/// Where a device stands in its life.
#[derive(Clone, Copy, Debug, PartialEq, Eq, Structural)]
pub enum State {
    /// The device is being opened.
    Opening,
    /// The device is open and the buffer in `slot` is being registered.
    Preparing { slot: usize },
    /// Registering a buffer failed with `error`; the device is being released.
    Aborting { error: Error },
    /// Setup failed with `error`, and nothing is held.
    Failed { error: Error },
    /// Both buffers are registered; blocks can be submitted.
    Ready,
    /// Teardown: playback is being stopped.
    Stopping,
    /// Teardown: the registration of the buffer in `slot` is being taken back.
    Unpreparing { slot: usize },
    /// Teardown: the device is being released.
    Closing,
    /// The device was released.
    Closed,
}

/// One turn at the completion signal.
#[derive(Clone, Copy, Debug, PartialEq, Eq, Structural)]
pub enum Turn {
    /// The submitting side attempts to submit a buffer.
    Submit,
    /// The driver reports that a block has finished playing.
    Done,
}

/// How many completions `turns` holds.
pub open spec fn completions_in(turns: Seq<Turn>) -> nat
    decreases turns.len(),
{
    if turns.len() == 0 {
        0
    } else {
        (if turns[0] == Turn::Done {
            1nat
        } else {
            0nat
        }) + completions_in(turns.drop_first())
    }
}

/// `size` rounded up to the next multiple of `align`.
pub open spec fn rounded_up(size: int, align: int) -> int
    recommends
        align > 0,
{
    if size % align != 0 {
        size + (align - size % align)
    } else {
        size
    }
}

/// Rounding up reaches a multiple of the alignment, and the nearest one.
pub proof fn lemma_rounded_up(size: int, align: int)
    requires
        size >= 0,
        align > 0,
    ensures
        rounded_up(size, align) % align == 0,
        size <= rounded_up(size, align) < size + align,
{
    let r = size % align;
    let q = size / align;
    assert(size == align * q + r && 0 <= r < align) by (nonlinear_arith)
        requires
            r == size % align,
            q == size / align,
            align > 0,
    ;
    if r != 0 {
        assert((size + (align - r)) % align == 0) by (nonlinear_arith)
            requires
                size == align * q + r,
                align > 0,
        ;
    }
}

/// Both channel gains in one word: left in the low half, right in the high half.
pub open spec fn packed_volume(left: u32, right: u32) -> int {
    left + 65536 * right
}

/// Access to a wave output device.
pub struct Out {
    state: State,
    device_id: u32,
    format: Format,
    cb_done: Event,
    // The buffers stay where they are while the device is playing them: the
    // driver reads from their memory between submission and completion.
    buffers: [Buffer; 2],
    submitted: Ghost<nat>,
    completed: Ghost<nat>,
}

impl Out {
    /// Where the device stands.
    pub closed spec fn state(&self) -> State {
        self.state
    }

    /// The device that was asked for.
    pub closed spec fn device_id(&self) -> u32 {
        self.device_id
    }

    /// The format that the device was opened for.
    pub closed spec fn format(&self) -> Format {
        self.format
    }

    /// Whether the completion signal is set: no block is with the driver.
    pub closed spec fn signal(&self) -> bool {
        self.cb_done.is_set()
    }

    /// The two buffers.
    pub closed spec fn slots(&self) -> Seq<Buffer> {
        self.buffers@
    }

    /// How many blocks were handed out for playback so far.
    pub closed spec fn submissions(&self) -> nat {
        self.submitted@
    }

    /// How many completions the submitting side has taken note of so far.
    pub closed spec fn completions(&self) -> nat {
        self.completed@
    }

    /// The length of each buffer of a device with this block alignment.
    pub open spec fn block_size(align: u16) -> int {
        rounded_up(BUFFER_SIZE as int, align as int)
    }

    /// What holds of a device at all times: its buffers are whole blocks of the
    /// format, a step that names a slot names one of the two, and the signal is
    /// clear exactly while one submitted block has not been reported back.
    pub open spec fn wf(&self) -> bool {
        &&& self.format().block_align > 0
        &&& self.slots().len() == 2
        &&& self.slots()[0].wf()
        &&& self.slots()[1].wf()
        &&& self.slots()[0].bytes().len() == Self::block_size(self.format().block_align)
        &&& self.slots()[1].bytes().len() == Self::block_size(self.format().block_align)
        &&& (self.state() matches State::Preparing { slot } ==> slot < 2)
        &&& (self.state() matches State::Unpreparing { slot } ==> slot < 2)
        &&& (self.signal() ==> self.submissions() == self.completions())
        &&& (!self.signal() ==> self.submissions() == self.completions() + 1)
    }

    /// The call that the device is waiting on, if any. While it stands, the
    /// caller makes it and hands the status to [`Out::reply`].
    pub open spec fn spec_request(&self) -> Option<Request> {
        match self.state() {
            State::Opening => Some(
                Request::Open { device_id: self.device_id(), format: self.format() },
            ),
            State::Preparing { slot } => Some(Request::PrepareHeader { slot }),
            State::Aborting { error } => Some(Request::Close),
            State::Stopping => Some(Request::Reset),
            State::Unpreparing { slot } => Some(Request::UnprepareHeader { slot }),
            State::Closing => Some(Request::Close),
            State::Failed { error } => None,
            State::Ready => None,
            State::Closed => None,
        }
    }

    /// The teardown step that follows the one on `slot`, or on none yet where
    /// `slot` is `None`: the next buffer that is still registered, then the
    /// release of the device.
    pub open spec fn teardown_after(&self, slot: Option<usize>) -> State {
        if slot is None && self.slots()[0].prepared() {
            State::Unpreparing { slot: 0 }
        } else if (slot is None || slot == Some(0usize)) && self.slots()[1].prepared() {
            State::Unpreparing { slot: 1 }
        } else {
            State::Closing
        }
    }

    /// The state after the pending call was answered with `status` and, for a
    /// registration, the header flags `flags`.
    pub open spec fn next_state(&self, status: u32, flags: u32) -> State {
        match self.state() {
            State::Opening => match status_meaning(status) {
                Ok(_) => State::Preparing { slot: 0 },
                Err(error) => State::Failed { error },
            },
            State::Preparing { slot } => match status_meaning(status) {
                Err(error) => State::Aborting { error },
                Ok(_) => if flags & WHDR_PREPARED == 0 {
                    State::Aborting { error: Error::InvalidFlag }
                } else if slot == 0 {
                    State::Preparing { slot: 1 }
                } else {
                    State::Ready
                },
            },
            State::Aborting { error } => State::Failed { error },
            State::Stopping => self.teardown_after(None),
            State::Unpreparing { slot } => self.teardown_after(Some(slot)),
            State::Closing => State::Closed,
            State::Failed { error } => self.state(),
            State::Ready => self.state(),
            State::Closed => self.state(),
        }
    }

    /// The header flags of the buffer in `slot` after the pending call was
    /// answered: a successful registration records the flags that the driver
    /// left, a successful unregistering takes the mark away.
    pub open spec fn next_flags(&self, slot: int, status: u32, flags: u32) -> u32 {
        let before = self.slots()[slot].header_flags();
        match self.state() {
            State::Preparing { slot: pending } => if pending == slot && status == 0 && flags
                & WHDR_PREPARED != 0 {
                flags
            } else {
                before
            },
            State::Unpreparing { slot: pending } => if pending == slot && status == 0 {
                before & !WHDR_PREPARED
            } else {
                before
            },
            _ => before,
        }
    }

    /// The device after the pending call was answered.
    pub closed spec fn after_reply(self, status: u32, flags: u32) -> Out {
        Out {
            state: self.next_state(status, flags),
            device_id: self.device_id,
            format: self.format,
            cb_done: self.cb_done,
            buffers: [
                self.buffers[0].with_flags(self.next_flags(0, status, flags)),
                self.buffers[1].with_flags(self.next_flags(1, status, flags)),
            ],
            submitted: self.submitted,
            completed: self.completed,
        }
    }

    /// What a reply changes: the state and the header flags, as
    /// [`Out::next_state`] and [`Out::next_flags`] say, and nothing else.
    pub proof fn lemma_after_reply(self, status: u32, flags: u32)
        requires
            self.wf(),
        ensures
            self.after_reply(status, flags).wf(),
            self.after_reply(status, flags).state() == self.next_state(status, flags),
            self.after_reply(status, flags).device_id() == self.device_id(),
            self.after_reply(status, flags).format() == self.format(),
            self.after_reply(status, flags).signal() == self.signal(),
            self.after_reply(status, flags).submissions() == self.submissions(),
            self.after_reply(status, flags).completions() == self.completions(),
            self.after_reply(status, flags).slots().len() == 2,
            forall|slot: int|
                0 <= slot < 2 ==> {
                    let after = #[trigger] self.after_reply(status, flags).slots()[slot];
                    &&& after.header_flags() == self.next_flags(slot, status, flags)
                    &&& after.bytes() == self.slots()[slot].bytes()
                    &&& after.filled_length() == self.slots()[slot].filled_length()
                    &&& after.wf()
                },
    {
        self.buffers[0].lemma_with_flags(self.next_flags(0, status, flags));
        self.buffers[1].lemma_with_flags(self.next_flags(1, status, flags));
    }

    /// Prepares a data block for playback: `size` bytes, rounded up to a whole
    /// number of blocks of `align` bytes, all zero, not yet registered.
    pub fn prepare_block(align: u16, size: u32) -> (r: Buffer)
        requires
            align > 0,
            size + align <= u32::MAX,
        ensures
            r.wf(),
            r.bytes() == crate::wave::buffer::zeros(rounded_up(size as int, align as int) as nat),
            r.filled_length() == rounded_up(size as int, align as int),
            r.header_flags() == 0,
            (r.bytes().len() as int) % (align as int) == 0,
            size <= r.bytes().len() < size + align,
    {
        proof {
            lemma_rounded_up(size as int, align as int);
        }
        let mut size: u32 = size;
        let wide: u32 = align as u32;
        if size % wide != 0 {
            size = size + (wide - size % wide);
        }
        Buffer::new(size)
    }

    /// Starts to open the waveform-audio output device `device_id` for playback
    /// of `fmt`. The device comes back in state `Opening`, with the completion
    /// signal set, so that the first submission does not wait.
    ///
    /// The device identifier is a number below the device count, or
    /// `device::WAVE_MAPPER` to have a compatible device selected.
    pub fn open(device_id: u32, fmt: &Format) -> (r: Out)
        requires
            fmt.block_align > 0,
        ensures
            r.wf(),
            r.state() == State::Opening,
            r.device_id() == device_id,
            r.format() == *fmt,
            r.signal(),
            r.submissions() == 0,
            r.completions() == 0,
            forall|slot: int|
                0 <= slot < 2 ==> {
                    &&& (#[trigger] r.slots()[slot]).header_flags() == 0
                    &&& r.slots()[slot].bytes() == crate::wave::buffer::zeros(
                        Self::block_size(fmt.block_align) as nat,
                    )
                },
    {
        let mut cb_done = Event::new();
        cb_done.set();
        let first = Self::prepare_block(fmt.block_align, BUFFER_SIZE);
        let second = Self::prepare_block(fmt.block_align, BUFFER_SIZE);
        Out {
            state: State::Opening,
            device_id,
            format: *fmt,
            cb_done,
            buffers: [first, second],
            submitted: Ghost(0),
            completed: Ghost(0),
        }
    }

    /// Where the device stands.
    pub fn current_state(&self) -> (r: State)
        ensures
            r == self.state(),
    {
        self.state
    }

    /// Whether blocks can be submitted.
    pub fn is_ready(&self) -> (r: bool)
        ensures
            r == (self.state() == State::Ready),
    {
        match self.state {
            State::Ready => true,
            _ => false,
        }
    }

    /// The call that the device is waiting on, if any.
    pub fn request(&self) -> (r: Option<Request>)
        ensures
            r == self.spec_request(),
    {
        match self.state {
            State::Opening => Some(
                Request::Open { device_id: self.device_id, format: self.format },
            ),
            State::Preparing { slot } => Some(Request::PrepareHeader { slot }),
            State::Aborting { error: _ } => Some(Request::Close),
            State::Stopping => Some(Request::Reset),
            State::Unpreparing { slot } => Some(Request::UnprepareHeader { slot }),
            State::Closing => Some(Request::Close),
            State::Failed { error: _ } => None,
            State::Ready => None,
            State::Closed => None,
        }
    }

    /// The first teardown step after `slot`: see [`Out::teardown_after`].
    fn next_teardown(&self, slot: Option<usize>) -> (r: State)
        requires
            self.wf(),
        ensures
            r == self.teardown_after(slot),
    {
        if slot.is_none() && self.buffers[0].is_prepared() {
            State::Unpreparing { slot: 0 }
        } else if (slot.is_none() || slot == Some(0)) && self.buffers[1].is_prepared() {
            State::Unpreparing { slot: 1 }
        } else {
            State::Closing
        }
    }

    /// Takes the answer to the pending call: its status code and, for a
    /// registration, the header flags that the driver left.
    ///
    /// During setup a failure ends it: a failed open leaves nothing held, a
    /// failed registration has the device released first. During teardown no
    /// failure stops the next step. Where no call is pending nothing changes.
    /// During setup the status must be one that the native layer documents.
    pub fn reply(&mut self, status: u32, flags: u32)
        requires
            old(self).wf(),
            (old(self).state() is Opening || old(self).state() is Preparing) ==> is_known_status(
                status,
            ),
        ensures
            final(self).wf(),
            *final(self) == old(self).after_reply(status, flags),
            final(self).state() == old(self).next_state(status, flags),
            final(self).device_id() == old(self).device_id(),
            final(self).format() == old(self).format(),
            final(self).same_signal(old(self)),
            forall|slot: int|
                0 <= slot < 2 ==> {
                    let after = #[trigger] final(self).slots()[slot];
                    &&& after.header_flags() == old(self).next_flags(slot, status, flags)
                    &&& after.bytes() == old(self).slots()[slot].bytes()
                    &&& after.filled_length() == old(self).slots()[slot].filled_length()
                },
    {
        proof {
            self.lemma_after_reply(status, flags);
            self.buffers[0].lemma_with_flags(self.buffers[0].header_flags());
            self.buffers[1].lemma_with_flags(self.buffers[1].header_flags());
        }
        let ghost before = *self;
        match self.state {
            State::Opening => {
                self.state = match check_multimedia_error(status) {
                    Ok(_) => State::Preparing { slot: 0 },
                    Err(error) => State::Failed { error },
                };
            },
            State::Preparing { slot } => {
                match check_multimedia_error(status) {
                    Err(error) => {
                        self.state = State::Aborting { error };
                    },
                    Ok(_) => {
                        if flags & WHDR_PREPARED == 0 {
                            self.state = State::Aborting { error: Error::InvalidFlag };
                        } else {
                            self.buffers[slot].set_flags(flags);
                            self.state = if slot == 0 {
                                State::Preparing { slot: 1 }
                            } else {
                                State::Ready
                            };
                        }
                    },
                }
            },
            State::Aborting { error } => {
                self.state = State::Failed { error };
            },
            State::Stopping => {
                self.state = self.next_teardown(None);
            },
            State::Unpreparing { slot } => {
                let next = self.next_teardown(Some(slot));
                if status == 0 {
                    let cleared: u32 = self.buffers[slot].flags() & !WHDR_PREPARED;
                    self.buffers[slot].set_flags(cleared);
                }
                self.state = next;
            },
            State::Closing => {
                self.state = State::Closed;
            },
            State::Failed { error: _ } => {},
            State::Ready => {},
            State::Closed => {},
        }
        assert(self.buffers =~= before.after_reply(status, flags).buffers);
    }

    /// The outcome of setup: `Ok` once the device is ready or beyond, the error
    /// where setup failed, and `None` while setup is still under way.
    pub fn opened(&self) -> (r: Option<Result<(), Error>>)
        ensures
            r == (match self.state() {
                State::Opening => None::<Result<(), Error>>,
                State::Preparing { slot } => None::<Result<(), Error>>,
                State::Aborting { error } => None::<Result<(), Error>>,
                State::Failed { error } => Some(Err::<(), Error>(error)),
                _ => Some(Ok::<(), Error>(())),
            }),
    {
        match self.state {
            State::Opening => None,
            State::Preparing { slot: _ } => None,
            State::Aborting { error: _ } => None,
            State::Failed { error } => Some(Err(error)),
            _ => Some(Ok(())),
        }
    }

    /// Whether `self` is `before` but for the completion signal and its counts.
    pub open spec fn same_device(&self, before: &Out) -> bool {
        &&& self.state() == before.state()
        &&& self.device_id() == before.device_id()
        &&& self.format() == before.format()
        &&& self.slots() == before.slots()
    }

    /// Whether signal and counts of `self` are those of `before`.
    pub open spec fn same_signal(&self, before: &Out) -> bool {
        &&& self.signal() == before.signal()
        &&& self.submissions() == before.submissions()
        &&& self.completions() == before.completions()
    }

    /// Get a mutable reference to the buffers so that they can be read into.
    pub fn buffers(&mut self) -> (r: &mut [Buffer; 2])
        ensures
            r@ == old(self).slots(),
            final(self).slots() == final(r)@,
            final(self).state() == old(self).state(),
            final(self).device_id() == old(self).device_id(),
            final(self).format() == old(self).format(),
            final(self).same_signal(old(self)),
    {
        &mut self.buffers
    }

    /// What a submission of the buffer in `slot` comes to: nothing unless the
    /// device is ready, a wait while the last block is still with the driver,
    /// and else the write.
    pub open spec fn submission(&self, slot: usize) -> Action {
        if self.state() != State::Ready {
            Action::Idle
        } else if !self.signal() {
            Action::Wait
        } else {
            Action::Call(Request::Write { slot })
        }
    }

    /// The device after an attempt to submit a buffer: a ready device whose
    /// signal is set has the signal cleared and one submission more; any other
    /// is as it was.
    pub closed spec fn after_submit(self) -> Out {
        if self.state == State::Ready && self.cb_done.is_set() {
            Out {
                state: self.state,
                device_id: self.device_id,
                format: self.format,
                cb_done: Event::with(false),
                buffers: self.buffers,
                submitted: Ghost(self.submitted@ + 1),
                completed: self.completed,
            }
        } else {
            self
        }
    }

    /// The device after a message of the driver: a finished block sets the
    /// signal, and counts as a completion if the signal was clear.
    pub closed spec fn after_callback(self, msg: u32) -> Out {
        if msg == WOM_DONE {
            Out {
                state: self.state,
                device_id: self.device_id,
                format: self.format,
                cb_done: Event::with(true),
                buffers: self.buffers,
                submitted: self.submitted,
                completed: Ghost(
                    if self.cb_done.is_set() {
                        self.completed@
                    } else {
                        self.completed@ + 1
                    },
                ),
            }
        } else {
            self
        }
    }

    /// What an attempt to submit changes: signal and count, and only where the
    /// write is handed out.
    pub proof fn lemma_after_submit(self, slot: usize)
        requires
            self.wf(),
        ensures
            self.after_submit().wf(),
            self.after_submit().same_device(&self),
            self.submission(slot) is Call ==> {
                &&& self.signal()
                &&& self.completions() == self.submissions()
                &&& !self.after_submit().signal()
                &&& self.after_submit().submissions() == self.submissions() + 1
                &&& self.after_submit().completions() == self.completions()
            },
            !(self.submission(slot) is Call) ==> self.after_submit() == self,
    {
        self.cb_done.lemma_with(false);
    }

    /// What a message of the driver changes: a finished block sets the signal
    /// and brings the completions up to the submissions.
    pub proof fn lemma_after_callback(self, msg: u32)
        requires
            self.wf(),
        ensures
            self.after_callback(msg).wf(),
            self.after_callback(msg).same_device(&self),
            self.after_callback(msg).submissions() == self.submissions(),
            msg == WOM_DONE ==> self.after_callback(msg).signal() && self.after_callback(
                msg,
            ).completions() == self.submissions(),
            msg != WOM_DONE ==> self.after_callback(msg) == self,
    {
        self.cb_done.lemma_with(true);
    }

    /// Submits the buffer in `slot`, if the last submitted block has completed.
    fn submit(&mut self, slot: usize) -> (r: Action)
        requires
            old(self).wf(),
        ensures
            final(self).wf(),
            r == old(self).submission(slot),
            *final(self) == old(self).after_submit(),
            final(self).same_device(old(self)),
            r is Call ==> {
                &&& old(self).signal()
                &&& old(self).completions() == old(self).submissions()
                &&& !final(self).signal()
                &&& final(self).submissions() == old(self).submissions() + 1
                &&& final(self).completions() == old(self).completions()
            },
            !(r is Call) ==> final(self).same_signal(old(self)),
    {
        proof {
            self.lemma_after_submit(slot);
        }
        if !self.is_ready() {
            Action::Idle
        } else if !self.cb_done.wait() {
            Action::Wait
        } else {
            self.cb_done.clear();
            self.submitted = Ghost(self.submitted@ + 1);
            proof {
                self.cb_done.lemma_with(false);
            }
            Action::Call(Request::Write { slot })
        }
    }

    /// Write the data block from the first buffer to the device.
    ///
    /// This has to wait until the previous block completes: while the signal is
    /// clear the answer is `Wait` and nothing changes. Once it is set, the signal
    /// is cleared and the write is handed out in the same step, so that no
    /// completion is taken for two submissions. While playback is paused the
    /// block does not complete, and the wait does not end.
    pub fn write_first(&mut self) -> (r: Action)
        requires
            old(self).wf(),
        ensures
            final(self).wf(),
            r == old(self).submission(0),
            *final(self) == old(self).after_submit(),
            final(self).same_device(old(self)),
            r is Call ==> {
                &&& old(self).signal()
                &&& old(self).completions() == old(self).submissions()
                &&& !final(self).signal()
                &&& final(self).submissions() == old(self).submissions() + 1
                &&& final(self).completions() == old(self).completions()
            },
            !(r is Call) ==> final(self).same_signal(old(self)),
    {
        self.submit(0)
    }

    /// Write the data block from the second buffer to the device.
    ///
    /// It waits and clears as [`Out::write_first`] does.
    pub fn write_second(&mut self) -> (r: Action)
        requires
            old(self).wf(),
        ensures
            final(self).wf(),
            r == old(self).submission(1),
            *final(self) == old(self).after_submit(),
            final(self).same_device(old(self)),
            r is Call ==> {
                &&& old(self).signal()
                &&& old(self).completions() == old(self).submissions()
                &&& !final(self).signal()
                &&& final(self).submissions() == old(self).submissions() + 1
                &&& final(self).completions() == old(self).completions()
            },
            !(r is Call) ==> final(self).same_signal(old(self)),
    {
        self.submit(1)
    }

    /// Whether the device has finished playing the last block written. On
    /// `false` the caller waits for the driver's next message.
    pub fn wait(&self) -> (done: bool)
        ensures
            done == self.signal(),
    {
        self.cb_done.wait()
    }

    /// Takes a message of the driver's notification. A finished block sets the
    /// completion signal; opening and closing change nothing. The message must
    /// be one of these three.
    ///
    /// A completion counts once: one that arrives while the signal is set
    /// already is not kept for a later submission.
    pub fn callback(&mut self, msg: u32)
        requires
            old(self).wf(),
            msg == WOM_OPEN || msg == WOM_CLOSE || msg == WOM_DONE,
        ensures
            final(self).wf(),
            *final(self) == old(self).after_callback(msg),
            final(self).same_device(old(self)),
            final(self).submissions() == old(self).submissions(),
            msg == WOM_DONE ==> final(self).signal() && final(self).completions() == old(
                self,
            ).submissions(),
            msg != WOM_DONE ==> final(self).same_signal(old(self)),
    {
        proof {
            self.lemma_after_callback(msg);
        }
        if msg == WOM_DONE {
            if !self.cb_done.wait() {
                self.completed = Ghost(self.completed@ + 1);
            }
            self.cb_done.set();
            proof {
                self.cb_done.lemma_with(true);
            }
        }
    }

    /// A call that is made only on a ready device.
    pub open spec fn when_ready(&self, request: Request) -> Action {
        if self.state() == State::Ready {
            Action::Call(request)
        } else {
            Action::Idle
        }
    }

    /// Pauses playback on the output device. The current position is saved.
    ///
    /// Pausing a paused device has no effect, and the native call succeeds.
    pub fn pause(&self) -> (r: Action)
        ensures
            r == self.when_ready(Request::Pause),
    {
        if self.is_ready() {
            Action::Call(Request::Pause)
        } else {
            Action::Idle
        }
    }

    /// Resume playback on the paused output device.
    ///
    /// Resuming a device that is not paused has no effect, and the native call
    /// succeeds.
    pub fn resume(&self) -> (r: Action)
        ensures
            r == self.when_ready(Request::Restart),
    {
        if self.is_ready() {
            Action::Call(Request::Restart)
        } else {
            Action::Idle
        }
    }

    /// Stops playback on the output device and resets the current position to
    /// zero. All pending playback buffers are marked as done.
    pub fn stop(&self) -> (r: Action)
        ensures
            r == self.when_ready(Request::Reset),
    {
        if self.is_ready() {
            Action::Call(Request::Reset)
        } else {
            Action::Idle
        }
    }

    /// New volume setting, each channel from 0 (silence) to `FULL_VOLUME`. A
    /// gain above that is refused as an invalid parameter, and no call is made.
    ///
    /// If a device does not support both left and right volume control, it uses
    /// the left volume level and ignores the right one.
    pub fn set_volume(&self, left: u32, right: u32) -> (r: Result<Action, Error>)
        ensures
            (left > FULL_VOLUME || right > FULL_VOLUME) ==> r == Err::<Action, Error>(
                Error::InvalidParam,
            ),
            (left <= FULL_VOLUME && right <= FULL_VOLUME) ==> r == Ok::<Action, Error>(
                self.when_ready(Request::SetVolume { volume: packed_volume(left, right) as u32 }),
            ),
            (left <= FULL_VOLUME && right <= FULL_VOLUME) ==> packed_volume(left, right)
                <= u32::MAX,
    {
        if left > FULL_VOLUME || right > FULL_VOLUME {
            return Err(Error::InvalidParam);
        }
        let volume: u32 = left | (right << 16);
        assert(left | (right << 16) == left + 65536 * right) by (bit_vector)
            requires
                left <= 0xffff,
                right <= 0xffff,
        ;
        if self.is_ready() {
            Ok(Action::Call(Request::SetVolume { volume }))
        } else {
            Ok(Action::Idle)
        }
    }

    /// Begins teardown of a ready device: playback is stopped, then every buffer
    /// that is still registered is unregistered, then the device is released,
    /// each through [`Out::request`] and [`Out::reply`]. A device that is not
    /// ready is left as it is.
    pub fn close(&mut self)
        requires
            old(self).wf(),
        ensures
            final(self).wf(),
            final(self).state() == (if old(self).state() == State::Ready {
                State::Stopping
            } else {
                old(self).state()
            }),
            final(self).device_id() == old(self).device_id(),
            final(self).format() == old(self).format(),
            final(self).slots() == old(self).slots(),
            final(self).same_signal(old(self)),
    {
        if self.is_ready() {
            self.state = State::Stopping;
        }
    }

    /// The calls that teardown still has to make, in their order.
    pub open spec fn teardown_left(&self) -> Seq<Request> {
        let second = if self.slots()[1].prepared() {
            seq![Request::UnprepareHeader { slot: 1 }, Request::Close]
        } else {
            seq![Request::Close]
        };
        match self.state() {
            State::Stopping => if self.slots()[0].prepared() {
                seq![Request::Reset, Request::UnprepareHeader { slot: 0 }] + second
            } else {
                seq![Request::Reset] + second
            },
            State::Unpreparing { slot } => if slot == 0 {
                seq![Request::UnprepareHeader { slot: 0 }] + second
            } else {
                seq![Request::UnprepareHeader { slot: 1 }, Request::Close]
            },
            State::Closing => seq![Request::Close],
            _ => Seq::empty(),
        }
    }

    /// The calls that the device asks for while the answers in `replies` come
    /// in, one answer for each call, each a status and header flags.
    pub open spec fn requests_under(self, replies: Seq<(u32, u32)>) -> Seq<Request>
        decreases replies.len(),
    {
        if replies.len() == 0 || self.spec_request() is None {
            Seq::empty()
        } else {
            seq![self.spec_request().unwrap()] + self.after_reply(
                replies[0].0,
                replies[0].1,
            ).requests_under(replies.drop_first())
        }
    }

    /// The device after the answers in `replies` came in, one for each call
    /// that it asked for.
    pub open spec fn after_replies(self, replies: Seq<(u32, u32)>) -> Out
        decreases replies.len(),
    {
        if replies.len() == 0 || self.spec_request() is None {
            self
        } else {
            self.after_reply(replies[0].0, replies[0].1).after_replies(replies.drop_first())
        }
    }

    /// Teardown attempts all of its steps, whatever the native layer answers:
    /// the stop, the unregistering of each buffer that is registered, and the
    /// release of the device, in this order, also where an earlier step failed.
    /// After them the device is closed.
    pub proof fn lemma_teardown_runs_every_step(self, replies: Seq<(u32, u32)>)
        requires
            self.wf(),
            self.state() is Stopping || self.state() is Unpreparing || self.state() is Closing,
            replies.len() >= self.teardown_left().len(),
        ensures
            self.requests_under(replies) =~= self.teardown_left(),
            self.after_replies(replies).state() == State::Closed,
        decreases replies.len(),
    {
        let status = replies[0].0;
        let flags = replies[0].1;
        let next = self.after_reply(status, flags);
        let rest = replies.drop_first();
        self.lemma_after_reply(status, flags);
        assert(next.slots()[1].header_flags() == self.next_flags(1, status, flags));
        assert(next.slots()[0].header_flags() == self.next_flags(0, status, flags));
        if self.state() is Closing {
            assert(next.spec_request() is None);
            assert(next.requests_under(rest) =~= Seq::empty());
            assert(next.after_replies(rest) == next);
        } else {
            if self.state() is Unpreparing && self.state()->Unpreparing_slot == 0 {
                assert(next.slots()[1].prepared() == self.slots()[1].prepared());
            }
            next.lemma_teardown_runs_every_step(rest);
        }
    }

    /// A registration that fails during setup has the device released before
    /// setup ends with that error: a status that names an error, or header
    /// flags without the registered mark, which count as an invalid flag.
    pub proof fn lemma_failed_preparation_releases(self, status: u32, flags: u32, closed: u32)
        requires
            self.wf(),
            self.state() is Preparing,
            is_known_status(status),
            status != 0 || flags & WHDR_PREPARED == 0,
        ensures
            self.after_reply(status, flags).spec_request() == Some(Request::Close),
            self.after_reply(status, flags).after_reply(closed, 0).spec_request() is None,
            self.after_reply(status, flags).after_reply(closed, 0).state() == (State::Failed {
                error: if status != 0 {
                    status_meaning(status)->Err_0
                } else {
                    Error::InvalidFlag
                },
            }),
    {
        self.lemma_after_reply(status, flags);
        self.after_reply(status, flags).lemma_after_reply(closed, 0);
    }

    /// How many writes are handed out while the turns of `turns` are taken in
    /// their order, each an attempt to submit or the completion of a block.
    pub open spec fn writes_under(self, turns: Seq<Turn>) -> nat
        decreases turns.len(),
    {
        if turns.len() == 0 {
            0
        } else {
            match turns[0] {
                Turn::Submit => (if self.submission(0) is Call {
                    1nat
                } else {
                    0nat
                }) + self.after_submit().writes_under(turns.drop_first()),
                Turn::Done => self.after_callback(WOM_DONE).writes_under(turns.drop_first()),
            }
        }
    }

    /// Completions are neither skipped nor used twice. However attempts to
    /// submit and completions follow each other, a write is handed out only
    /// against a completion of its own: the writes are never more than the
    /// completions in the same turns, but for the one write that the signal
    /// admits where it is set at the start. And a completion is never lost:
    /// the attempt that follows it is a write.
    pub proof fn lemma_every_write_has_its_completion(self, turns: Seq<Turn>)
        requires
            self.wf(),
            self.state() == State::Ready,
        ensures
            self.writes_under(turns) <= completions_in(turns) + (if self.signal() {
                1nat
            } else {
                0nat
            }),
            forall|slot: usize| #[trigger]
                self.after_callback(WOM_DONE).submission(slot) is Call,
        decreases turns.len(),
    {
        self.lemma_after_submit(0);
        self.lemma_after_callback(WOM_DONE);
        if turns.len() > 0 {
            let rest = turns.drop_first();
            match turns[0] {
                Turn::Submit => {
                    self.after_submit().lemma_every_write_has_its_completion(rest);
                },
                Turn::Done => {
                    self.after_callback(WOM_DONE).lemma_every_write_has_its_completion(rest);
                },
            }
        }
    }

    /// At most one block is with the driver at any time: the submissions are
    /// never more than one ahead of the completions, and the signal is clear
    /// exactly while they are.
    pub proof fn lemma_one_block_in_flight(&self)
        requires
            self.wf(),
        ensures
            self.completions() <= self.submissions() <= self.completions() + 1,
            self.signal() <==> self.submissions() == self.completions(),
    {
    }
}

} // verus!
