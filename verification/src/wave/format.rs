//! The format record of waveform-audio data.
use crate::error::DecodeError;
use crate::util::{le_u16, le_u32, read_u16, read_u32};
use crate::wave::tag::Tag;
use vstd::prelude::*;

verus! {

/// The number of bytes of a format record in a wave container.
pub const FORMAT_RECORD_LENGTH: usize = 16;

/// Defines the format of waveform-audio data. Only format information common to all
/// waveform-audio data formats is included in this structure.
#[derive(Clone, Copy, Debug, PartialEq, Eq, Structural)]
pub struct Format {
    /// Waveform-audio format type.
    pub format_tag: Tag,
    /// Number of channels in the waveform-audio data. Monaural data uses one
    /// channel and stereo data uses two channels.
    pub channels: u16,
    /// Sample rate, in samples per second (hertz).
    pub samples_per_sec: u32,
    /// Required average data-transfer rate, in bytes per second, for the
    /// format tag. For PCM data it should be equal to the product of
    /// `samples_per_sec` and `block_align`.
    pub avg_bytes_per_sec: u32,
    /// Block alignment, in bytes: the minimum atomic unit of data for the
    /// format type. For PCM data it must be equal to the product of `channels`
    /// and `bits_per_sample` divided by 8.
    ///
    /// Data written to a device is always a multiple of `block_align` bytes.
    pub block_align: u16,
    /// Bits per sample for the format type; 8 or 16 for PCM data.
    pub bits_per_sample: u16,
}

/// The two bytes of a 16-bit integer, least significant first.
pub open spec fn u16_bytes(value: u16) -> Seq<u8> {
    seq![(value % 256) as u8, (value / 256) as u8]
}

/// The four bytes of a 32-bit integer, least significant first.
pub open spec fn u32_bytes(value: u32) -> Seq<u8> {
    seq![
        (value % 256) as u8,
        (value / 256 % 256) as u8,
        (value / 65536 % 256) as u8,
        (value / 16777216) as u8,
    ]
}

impl Format {
    /// The sixteen bytes that store this format in a wave container: tag,
    /// channels, samples per second, average bytes per second, block alignment
    /// and bits per sample, each little-endian.
    pub open spec fn wav_bytes(self) -> Seq<u8> {
        u16_bytes(self.format_tag.spec_code()) + u16_bytes(self.channels) + u32_bytes(
            self.samples_per_sec,
        ) + u32_bytes(self.avg_bytes_per_sec) + u16_bytes(self.block_align) + u16_bytes(
            self.bits_per_sample,
        )
    }

    /// The format that the sixteen bytes at `offset` store, or why there is none.
    /// The tag is read and judged first; the other fields follow it.
    pub open spec fn decode(file: Seq<u8>, offset: int) -> Result<Format, DecodeError> {
        if offset + 2 > file.len() {
            Err(DecodeError::Truncated)
        } else {
            match Tag::spec_try_from(le_u16(file, offset) as u16) {
                None => Err(DecodeError::UnknownTag(le_u16(file, offset) as u16)),
                Some(tag) => if offset + 16 > file.len() {
                    Err(DecodeError::Truncated)
                } else {
                    Ok(
                        Format {
                            format_tag: tag,
                            channels: le_u16(file, offset + 2) as u16,
                            samples_per_sec: le_u32(file, offset + 4) as u32,
                            avg_bytes_per_sec: le_u32(file, offset + 8) as u32,
                            block_align: le_u16(file, offset + 12) as u16,
                            bits_per_sample: le_u16(file, offset + 14) as u16,
                        },
                    )
                },
            }
        }
    }

    /// Reads the format record that a `.wav` file holds at `offset`.
    pub fn from_wav_stream(file: &[u8], offset: u64) -> (r: Result<Format, DecodeError>)
        ensures
            r == Self::decode(file@, offset as int),
            r matches Ok(format) ==> format.wav_bytes() =~= file@.subrange(
                offset as int,
                offset + 16,
            ),
    {
        if offset > file.len() as u64 {
            return Err(DecodeError::Truncated);
        }
        let at: usize = offset as usize;
        let code: u16 = match read_u16(file, at) {
            Some(code) => code,
            None => { return Err(DecodeError::Truncated); },
        };
        let format_tag: Tag = match Tag::try_from(code) {
            Ok(tag) => tag,
            Err(code) => { return Err(DecodeError::UnknownTag(code)); },
        };
        if file.len() - at < FORMAT_RECORD_LENGTH {
            return Err(DecodeError::Truncated);
        }
        let channels: u16 = match read_u16(file, at + 2) {
            Some(value) => value,
            None => { return Err(DecodeError::Truncated); },
        };
        let samples_per_sec: u32 = match read_u32(file, at + 4) {
            Some(value) => value,
            None => { return Err(DecodeError::Truncated); },
        };
        let avg_bytes_per_sec: u32 = match read_u32(file, at + 8) {
            Some(value) => value,
            None => { return Err(DecodeError::Truncated); },
        };
        let block_align: u16 = match read_u16(file, at + 12) {
            Some(value) => value,
            None => { return Err(DecodeError::Truncated); },
        };
        let bits_per_sample: u16 = match read_u16(file, at + 14) {
            Some(value) => value,
            None => { return Err(DecodeError::Truncated); },
        };
        let format = Format {
            format_tag,
            channels,
            samples_per_sec,
            avg_bytes_per_sec,
            block_align,
            bits_per_sample,
        };
        proof {
            Self::lemma_stored_exactly(file@, offset as int);
        }
        Ok(format)
    }

    /// A format that decodes from a container is stored there byte for byte:
    /// writing its six fields out again gives the sixteen bytes that were read.
    pub proof fn lemma_stored_exactly(file: Seq<u8>, offset: int)
        requires
            0 <= offset,
            Self::decode(file, offset) is Ok,
        ensures
            Self::decode(file, offset).unwrap().wav_bytes() =~= file.subrange(offset, offset + 16),
    {
        let format = Self::decode(file, offset).unwrap();
        Tag::lemma_try_from_is_exact(le_u16(file, offset) as u16);
        lemma_u16_stored(file, offset);
        lemma_u16_stored(file, offset + 2);
        lemma_u32_stored(file, offset + 4);
        lemma_u32_stored(file, offset + 8);
        lemma_u16_stored(file, offset + 12);
        lemma_u16_stored(file, offset + 14);
        assert(format.format_tag.spec_code() == le_u16(file, offset) as u16);
    }

    /// Every format decodes from its own sixteen bytes, wherever they stand.
    pub proof fn lemma_round_trip(self, before: Seq<u8>, after: Seq<u8>)
        ensures
            Self::decode(before + self.wav_bytes() + after, before.len() as int) == Ok::<
                Format,
                DecodeError,
            >(self),
    {
        self.format_tag.lemma_code_round_trip();
        let file = before + self.wav_bytes() + after;
        let offset = before.len() as int;
        let code = self.format_tag.spec_code();
        assert forall|i: int| 0 <= i < 16 implies #[trigger] file[offset + i]
            == self.wav_bytes()[i] by {}
        lemma_u16_read_back(code);
        lemma_u16_read_back(self.channels);
        lemma_u32_read_back(self.samples_per_sec);
        lemma_u32_read_back(self.avg_bytes_per_sec);
        lemma_u16_read_back(self.block_align);
        lemma_u16_read_back(self.bits_per_sample);
        assert(file[offset + 0] == u16_bytes(code)[0]);
        assert(file[offset + 1] == u16_bytes(code)[1]);
        assert(file[offset + 2] == u16_bytes(self.channels)[0]);
        assert(file[offset + 3] == u16_bytes(self.channels)[1]);
        assert(file[offset + 4] == u32_bytes(self.samples_per_sec)[0]);
        assert(file[offset + 5] == u32_bytes(self.samples_per_sec)[1]);
        assert(file[offset + 6] == u32_bytes(self.samples_per_sec)[2]);
        assert(file[offset + 7] == u32_bytes(self.samples_per_sec)[3]);
        assert(file[offset + 8] == u32_bytes(self.avg_bytes_per_sec)[0]);
        assert(file[offset + 9] == u32_bytes(self.avg_bytes_per_sec)[1]);
        assert(file[offset + 10] == u32_bytes(self.avg_bytes_per_sec)[2]);
        assert(file[offset + 11] == u32_bytes(self.avg_bytes_per_sec)[3]);
        assert(file[offset + 12] == u16_bytes(self.block_align)[0]);
        assert(file[offset + 13] == u16_bytes(self.block_align)[1]);
        assert(file[offset + 14] == u16_bytes(self.bits_per_sample)[0]);
        assert(file[offset + 15] == u16_bytes(self.bits_per_sample)[1]);
        assert(le_u16(file, offset) == code);
    }
}

/// The two bytes at `at` are those of the 16-bit integer read there.
pub proof fn lemma_u16_stored(data: Seq<u8>, at: int)
    requires
        0 <= at,
        at + 2 <= data.len(),
    ensures
        0 <= le_u16(data, at) <= u16::MAX,
        u16_bytes(le_u16(data, at) as u16) =~= data.subrange(at, at + 2),
{
}

/// The four bytes at `at` are those of the 32-bit integer read there.
pub proof fn lemma_u32_stored(data: Seq<u8>, at: int)
    requires
        0 <= at,
        at + 4 <= data.len(),
    ensures
        0 <= le_u32(data, at) <= u32::MAX,
        u32_bytes(le_u32(data, at) as u32) =~= data.subrange(at, at + 4),
{
    let b0 = data[at] as int;
    let b1 = data[at + 1] as int;
    let b2 = data[at + 2] as int;
    let b3 = data[at + 3] as int;
    let x = le_u32(data, at);
    let x1 = b1 + 256 * b2 + 65536 * b3;
    let x2 = b2 + 256 * b3;
    assert(x == b0 + 256 * x1);
    assert(x % 256 == b0 && x / 256 == x1);
    assert(x1 == b1 + 256 * x2);
    assert(x1 % 256 == b1 && x1 / 256 == x2);
    assert(x2 % 256 == b2 && x2 / 256 == b3);
    assert(x / 65536 == x2) by {
        assert(x == (b0 + 256 * b1) + 65536 * x2);
    }
    assert(x / 16777216 == b3) by {
        assert(x == (b0 + 256 * b1 + 65536 * b2) + 16777216 * b3);
    }
}

/// A 16-bit integer is read back from its two bytes.
pub proof fn lemma_u16_read_back(value: u16)
    ensures
        u16_bytes(value).len() == 2,
        le_u16(u16_bytes(value), 0) == value,
        value == u16_bytes(value)[0] + 256 * u16_bytes(value)[1],
{
}

/// A 32-bit integer is read back from its four bytes.
pub proof fn lemma_u32_read_back(value: u32)
    ensures
        u32_bytes(value).len() == 4,
        le_u32(u32_bytes(value), 0) == value,
        value == u32_bytes(value)[0] + 256 * u32_bytes(value)[1] + 65536 * u32_bytes(value)[2]
            + 16777216 * u32_bytes(value)[3],
{
    let x = value as int;
    let x1 = x / 256;
    let x2 = x / 65536;
    let x3 = x / 16777216;
    assert(x == x % 256 + 256 * x1);
    assert(x2 == x1 / 256);
    assert(x1 == x1 % 256 + 256 * x2);
    assert(x3 == x2 / 256);
    assert(x2 == x2 % 256 + 256 * x3);
}

} // verus!
