//! Playback buffers: a block of bytes and the header fields kept beside it.
use vstd::prelude::*;

verus! {

/// The header flag that marks a buffer as registered with the driver.
pub const WHDR_PREPARED: u32 = 2;

/// `count` zero bytes.
pub open spec fn zeros(count: nat) -> Seq<u8> {
    Seq::new(count, |i: int| 0u8)
}

/// What a block of `capacity` bytes holds after it was filled from `stream`:
/// the bytes of the stream as far as they fit, then zeros.
pub open spec fn filled_block(stream: Seq<u8>, capacity: nat) -> Seq<u8> {
    if stream.len() >= capacity {
        stream.take(capacity as int)
    } else {
        stream + zeros((capacity - stream.len()) as nat)
    }
}

/// A filled block holds the stream's bytes as far as they reach, and zero in
/// every byte beyond them.
pub proof fn lemma_filled_block(stream: Seq<u8>, capacity: nat, i: int)
    requires
        0 <= i < capacity,
    ensures
        filled_block(stream, capacity).len() == capacity,
        i < stream.len() ==> filled_block(stream, capacity)[i] == stream[i],
        i >= stream.len() ==> filled_block(stream, capacity)[i] == 0,
{
}

/// Buffer (header fields and data) that can be sent to an output device.
#[derive(Debug)]
pub struct Buffer {
    flags: u32,
    length: u32,
    buffer: Vec<u8>,
}

impl Buffer {
    /// A buffer never holds more bytes than its length field can count.
    pub closed spec fn wf(&self) -> bool {
        self.buffer@.len() <= u32::MAX
    }

    /// The bytes of the block, all of its capacity.
    pub closed spec fn bytes(&self) -> Seq<u8> {
        self.buffer@
    }

    /// The number of meaningful bytes, as the header tells it to the device.
    pub closed spec fn filled_length(&self) -> u32 {
        self.length
    }

    /// The header flags, as the driver left them.
    pub closed spec fn header_flags(&self) -> u32 {
        self.flags
    }

    /// This buffer with other header flags.
    pub closed spec fn with_flags(self, flags: u32) -> Buffer {
        Buffer { flags, length: self.length, buffer: self.buffer }
    }

    /// Changing the header flags changes nothing else.
    pub proof fn lemma_with_flags(self, flags: u32)
        ensures
            self.with_flags(flags).header_flags() == flags,
            self.with_flags(flags).bytes() == self.bytes(),
            self.with_flags(flags).filled_length() == self.filled_length(),
            self.with_flags(flags).wf() == self.wf(),
            self.with_flags(self.header_flags()) == self,
    {
    }

    /// Whether the driver has the buffer registered.
    pub open spec fn prepared(&self) -> bool {
        self.header_flags() & WHDR_PREPARED != 0
    }

    /// A block of `capacity` zero bytes that the driver has not seen yet. Its
    /// length field counts the whole block.
    pub fn new(capacity: u32) -> (r: Buffer)
        ensures
            r.wf(),
            r.bytes() == zeros(capacity as nat),
            r.filled_length() == capacity,
            r.header_flags() == 0,
    {
        let mut buffer: Vec<u8> = Vec::new();
        let mut i: u32 = 0;
        while i < capacity
            invariant
                i <= capacity,
                buffer@ =~= zeros(i as nat),
            decreases capacity - i,
        {
            buffer.push(0);
            i = i + 1;
        }
        Buffer { flags: 0, length: capacity, buffer }
    }

    /// Reads the next chunk of data into the block; what the stream does not
    /// fill is zeroed, and the length field counts the bytes that came from the
    /// stream. Returns `true` if the stream could not fill the block, meaning
    /// that its end has been reached and no more data can be read.
    ///
    /// `stream` is what is left of the source; the caller moves on by the
    /// length that the buffer then reports.
    pub fn read(&mut self, stream: &[u8]) -> (exhausted: bool)
        requires
            old(self).wf(),
        ensures
            final(self).wf(),
            final(self).header_flags() == old(self).header_flags(),
            final(self).bytes() == filled_block(stream@, old(self).bytes().len()),
            final(self).bytes().len() == old(self).bytes().len(),
            exhausted == (stream@.len() < old(self).bytes().len()),
            exhausted ==> final(self).filled_length() == stream@.len(),
            !exhausted ==> final(self).filled_length() == old(self).bytes().len(),
    {
        let capacity: usize = self.buffer.len();
        let read: usize = if stream.len() < capacity {
            stream.len()
        } else {
            capacity
        };
        let mut i: usize = 0;
        while i < capacity
            invariant
                i <= capacity,
                read <= capacity,
                read <= stream@.len(),
                self.buffer@.len() == capacity,
                self.flags == old(self).flags,
                forall|j: int| 0 <= j < i && j < read ==> self.buffer@[j] == stream@[j],
                forall|j: int| read <= j < i ==> self.buffer@[j] == 0u8,
            decreases capacity - i,
        {
            let byte: u8 = if i < read {
                stream[i]
            } else {
                0
            };
            self.buffer.set(i, byte);
            i = i + 1;
        }
        self.length = read as u32;
        assert(self.buffer@ =~= filled_block(stream@, capacity as nat));
        read < capacity
    }

    /// The bytes of the block, all of its capacity.
    pub fn data(&self) -> (r: &[u8])
        ensures
            r@ == self.bytes(),
    {
        self.buffer.as_slice()
    }

    /// The number of meaningful bytes in the block.
    pub fn len(&self) -> (r: u32)
        ensures
            r == self.filled_length(),
    {
        self.length
    }

    /// The number of bytes that the block can hold.
    pub fn capacity(&self) -> (r: usize)
        ensures
            r == self.bytes().len(),
    {
        self.buffer.len()
    }

    /// The header flags of the buffer.
    pub fn flags(&self) -> (r: u32)
        ensures
            r == self.header_flags(),
    {
        self.flags
    }

    /// Whether the driver has the buffer registered.
    pub fn is_prepared(&self) -> (r: bool)
        ensures
            r == self.prepared(),
    {
        self.flags & WHDR_PREPARED != 0
    }

    /// Records the header flags that the driver reported for this buffer.
    pub(crate) fn set_flags(&mut self, flags: u32)
        ensures
            *final(self) == old(self).with_flags(flags),
    {
        self.flags = flags;
    }
}

} // verus!
