//! Capabilities of waveform-audio output devices.
pub mod manufacturer;
pub mod product;

pub use manufacturer::Manufacturer;
pub use product::Product;
use crate::error::Error;
use crate::util::{check_multimedia_error, is_known_status, status_meaning};
use vstd::prelude::*;

verus! {

/// Used to select a waveform-audio output device capable of playing the given format.
pub const WAVE_MAPPER: u32 = 0xFFFFFFFF;

/// The length of a product name in a capability record, terminator included.
pub const MAXPNAMELEN: usize = 32;

/// Standard device formats.
#[derive(Clone, Copy, Debug, PartialEq, Eq, Structural)]
pub enum Format {
    /// 11.025 kHz, mono, 8-bit.
    Mono8b11Khz,
    /// 11.025 kHz, mono, 16-bit.
    Mono16b11Khz,
    /// 11.025 kHz, stereo, 8-bit.
    Stereo8b11Khz,
    /// 11.025 kHz, stereo, 16-bit.
    Stereo16b11Khz,
    /// 22.05 kHz, mono, 8-bit.
    Mono8b22Khz,
    /// 22.05 kHz, mono, 16-bit.
    Mono16b22Khz,
    /// 22.05 kHz, stereo, 8-bit.
    Stereo8b22Khz,
    /// 22.05 kHz, stereo, 16-bit.
    Stereo16b22Khz,
    /// 44.1 kHz, mono, 8-bit.
    Mono8b44Khz,
    /// 44.1 kHz, mono, 16-bit.
    Mono16b44Khz,
    /// 44.1 kHz, stereo, 8-bit.
    Stereo8b44Khz,
    /// 44.1 kHz, stereo, 16-bit.
    Stereo16b44Khz,
    /// 96 kHz, mono, 8-bit.
    Mono8b96Khz,
    /// 96 kHz, mono, 16-bit.
    Mono16b96Khz,
    /// 96 kHz, stereo, 8-bit.
    Stereo8b96Khz,
    /// 96 kHz, stereo, 16-bit.
    Stereo16b96Khz,
}

impl Format {
    /// The bit that stands for this format in a capability mask.
    pub open spec fn spec_bit(self) -> u32 {
        match self {
            Format::Mono8b11Khz => 0x1,
            Format::Mono16b11Khz => 0x4,
            Format::Stereo8b11Khz => 0x2,
            Format::Stereo16b11Khz => 0x8,
            Format::Mono8b22Khz => 0x10,
            Format::Mono16b22Khz => 0x40,
            Format::Stereo8b22Khz => 0x20,
            Format::Stereo16b22Khz => 0x80,
            Format::Mono8b44Khz => 0x100,
            Format::Mono16b44Khz => 0x400,
            Format::Stereo8b44Khz => 0x200,
            Format::Stereo16b44Khz => 0x800,
            Format::Mono8b96Khz => 0x10000,
            Format::Mono16b96Khz => 0x40000,
            Format::Stereo8b96Khz => 0x20000,
            Format::Stereo16b96Khz => 0x80000,
        }
    }

    /// The bit that stands for this format in a capability mask.
    #[verifier::when_used_as_spec(spec_bit)]
    pub fn bit(self) -> (r: u32)
        ensures
            r == self.spec_bit(),
    {
        match self {
            Format::Mono8b11Khz => 0x1,
            Format::Mono16b11Khz => 0x4,
            Format::Stereo8b11Khz => 0x2,
            Format::Stereo16b11Khz => 0x8,
            Format::Mono8b22Khz => 0x10,
            Format::Mono16b22Khz => 0x40,
            Format::Stereo8b22Khz => 0x20,
            Format::Stereo16b22Khz => 0x80,
            Format::Mono8b44Khz => 0x100,
            Format::Mono16b44Khz => 0x400,
            Format::Stereo8b44Khz => 0x200,
            Format::Stereo16b44Khz => 0x800,
            Format::Mono8b96Khz => 0x10000,
            Format::Mono16b96Khz => 0x40000,
            Format::Stereo8b96Khz => 0x20000,
            Format::Stereo16b96Khz => 0x80000,
        }
    }

    /// Every member, in the order in which a device's members are listed.
    pub open spec fn all() -> Seq<Format> {
        seq![
            Format::Mono8b11Khz,
            Format::Mono16b11Khz,
            Format::Stereo8b11Khz,
            Format::Stereo16b11Khz,
            Format::Mono8b22Khz,
            Format::Mono16b22Khz,
            Format::Stereo8b22Khz,
            Format::Stereo16b22Khz,
            Format::Mono8b44Khz,
            Format::Mono16b44Khz,
            Format::Stereo8b44Khz,
            Format::Stereo16b44Khz,
            Format::Mono8b96Khz,
            Format::Mono16b96Khz,
            Format::Stereo8b96Khz,
            Format::Stereo16b96Khz,
        ]
    }

    /// The members whose bit is set in `mask`, in the order of [`Format::all`].
    pub open spec fn in_mask(mask: u32) -> Seq<Format> {
        Self::all().filter(|member: Format| mask & member.spec_bit() != 0)
    }

    /// The members whose bit is set in `mask`, in the order of [`Format::all`].
    pub fn from_mask(mask: u32) -> (r: Vec<Format>)
        ensures
            r@ == Self::in_mask(mask),
    {
        let all: [Format; 16] = [
            Format::Mono8b11Khz,
            Format::Mono16b11Khz,
            Format::Stereo8b11Khz,
            Format::Stereo16b11Khz,
            Format::Mono8b22Khz,
            Format::Mono16b22Khz,
            Format::Stereo8b22Khz,
            Format::Stereo16b22Khz,
            Format::Mono8b44Khz,
            Format::Mono16b44Khz,
            Format::Stereo8b44Khz,
            Format::Stereo16b44Khz,
            Format::Mono8b96Khz,
            Format::Mono16b96Khz,
            Format::Stereo8b96Khz,
            Format::Stereo16b96Khz,
        ];
        assert(all@ =~= Self::all());
        let ghost pred = |member: Format| mask & member.spec_bit() != 0;
        let mut found: Vec<Format> = Vec::new();
        let mut i: usize = 0;
        proof {
            reveal(Seq::filter);
            assert(all@.take(0) =~= Seq::empty());
        }
        while i < all.len()
            invariant
                i <= all@.len(),
                all@.len() == 16,
                pred == |member: Format| mask & member.spec_bit() != 0,
                found@ == all@.take(i as int).filter(pred),
            decreases all@.len() - i,
        {
            proof {
                reveal(Seq::filter);
                assert(all@.take(i + 1).drop_last() =~= all@.take(i as int));
            }
            let member = all[i];
            if mask & member.bit() != 0 {
                found.push(member);
            }
            i = i + 1;
        }
        assert(all@.take(i as int) =~= all@);
        found
    }
}
/// Additional functionality a device may provide.
#[derive(Clone, Copy, Debug, PartialEq, Eq, Structural)]
pub enum Functionality {
    /// Supports separate left and right volume control.
    LrVolume,
    /// Supports pitch control.
    Pitch,
    /// Supports playback rate control.
    PlaybackRate,
    /// The driver is synchronous and will block while playing a buffer.
    Sync,
    /// Supports volume control.
    Volume,
    /// Returns sample-accurate position information.
    SampleAccurate,
}

impl Functionality {
    /// The bit that stands for this functionality in a support mask.
    pub open spec fn spec_bit(self) -> u32 {
        match self {
            Functionality::LrVolume => 0x8,
            Functionality::Pitch => 0x1,
            Functionality::PlaybackRate => 0x2,
            Functionality::Sync => 0x10,
            Functionality::Volume => 0x4,
            Functionality::SampleAccurate => 0x20,
        }
    }

    /// The bit that stands for this functionality in a support mask.
    #[verifier::when_used_as_spec(spec_bit)]
    pub fn bit(self) -> (r: u32)
        ensures
            r == self.spec_bit(),
    {
        match self {
            Functionality::LrVolume => 0x8,
            Functionality::Pitch => 0x1,
            Functionality::PlaybackRate => 0x2,
            Functionality::Sync => 0x10,
            Functionality::Volume => 0x4,
            Functionality::SampleAccurate => 0x20,
        }
    }

    /// Every member, in the order in which a device's members are listed.
    pub open spec fn all() -> Seq<Functionality> {
        seq![
            Functionality::LrVolume,
            Functionality::Pitch,
            Functionality::PlaybackRate,
            Functionality::Sync,
            Functionality::Volume,
            Functionality::SampleAccurate,
        ]
    }

    /// The members whose bit is set in `mask`, in the order of [`Functionality::all`].
    pub open spec fn in_mask(mask: u32) -> Seq<Functionality> {
        Self::all().filter(|member: Functionality| mask & member.spec_bit() != 0)
    }

    /// The members whose bit is set in `mask`, in the order of [`Functionality::all`].
    pub fn from_mask(mask: u32) -> (r: Vec<Functionality>)
        ensures
            r@ == Self::in_mask(mask),
    {
        let all: [Functionality; 6] = [
            Functionality::LrVolume,
            Functionality::Pitch,
            Functionality::PlaybackRate,
            Functionality::Sync,
            Functionality::Volume,
            Functionality::SampleAccurate,
        ];
        assert(all@ =~= Self::all());
        let ghost pred = |member: Functionality| mask & member.spec_bit() != 0;
        let mut found: Vec<Functionality> = Vec::new();
        let mut i: usize = 0;
        proof {
            reveal(Seq::filter);
            assert(all@.take(0) =~= Seq::empty());
        }
        while i < all.len()
            invariant
                i <= all@.len(),
                all@.len() == 6,
                pred == |member: Functionality| mask & member.spec_bit() != 0,
                found@ == all@.take(i as int).filter(pred),
            decreases all@.len() - i,
        {
            proof {
                reveal(Seq::filter);
                assert(all@.take(i + 1).drop_last() =~= all@.take(i as int));
            }
            let member = all[i];
            if mask & member.bit() != 0 {
                found.push(member);
            }
            i = i + 1;
        }
        assert(all@.take(i as int) =~= all@);
        found
    }
}
/// The text that a sequence of UTF-16 code units encodes; `None` where the
/// sequence is not valid UTF-16.
pub uninterp spec fn utf16_text(units: Seq<u16>) -> Option<Seq<char>>;

/// The index of the first zero in `units`, or their number where none is zero.
pub open spec fn nul_index(units: Seq<u16>) -> int
    decreases units.len(),
{
    if units.len() == 0 || units[0] == 0 {
        0
    } else {
        1 + nul_index(units.drop_first())
    }
}

/// The index of the first zero is the one before which nothing is zero.
pub proof fn lemma_nul_index(units: Seq<u16>, at: int)
    requires
        0 <= at <= units.len(),
        forall|i: int| 0 <= i < at ==> units[i] != 0,
        at < units.len() ==> units[at] == 0,
    ensures
        nul_index(units) == at,
    decreases at,
{
    if at > 0 {
        let rest = units.drop_first();
        assert forall|i: int| 0 <= i < at - 1 implies rest[i] != 0 by {
            assert(rest[i] == units[i + 1]);
        }
        lemma_nul_index(rest, at - 1);
    }
}

/// Decodes UTF-16 code units with `widestring::U16Str::to_string`: the text
/// that the units encode where they are valid UTF-16, and `None` where the
/// decoder reports an error.
#[verifier::external_body]
fn decode_utf16(units: &[u16]) -> (r: Option<String>)
    ensures
        r matches Some(text) ==> utf16_text(units@) == Some(text@),
        r is None ==> utf16_text(units@) is None,
{
    widestring::U16Str::from_slice(units).to_string().ok()
}

/// Describes the capabilities of a waveform-audio output device, as the native
/// layer reports them.
#[derive(Clone, Copy, Debug, PartialEq, Eq)]
pub struct Capabilities {
    /// Manufacturer identifier of the device driver.
    pub manufacturer_id: u16,
    /// Product identifier of the device.
    pub product_id: u16,
    /// Version number of the device driver: major in the high byte, minor in
    /// the low byte.
    pub version: u16,
    /// Product name in UTF-16, ended by a zero.
    pub product_name: [u16; 32],
    /// Bits of the standard formats that are supported.
    pub formats: u32,
    /// Whether the device supports mono (1) or stereo (2) output.
    pub channel_count: u16,
    /// Bits of the optional functionality that is supported.
    pub support: u32,
}

impl Capabilities {
    /// The code units of the product name, up to its terminator.
    pub open spec fn name_units(&self) -> Seq<u16> {
        self.product_name@.take(nul_index(self.product_name@))
    }

    /// The capabilities with these seven fields.
    pub fn new(
        manufacturer_id: u16,
        product_id: u16,
        version: u16,
        product_name: [u16; 32],
        formats: u32,
        channel_count: u16,
        support: u32,
    ) -> (r: Capabilities)
        ensures
            r == (Capabilities {
                manufacturer_id,
                product_id,
                version,
                product_name,
                formats,
                channel_count,
                support,
            }),
    {
        Capabilities {
            manufacturer_id,
            product_id,
            version,
            product_name,
            formats,
            channel_count,
            support,
        }
    }

    /// Manufacturer for the device driver for the device. The identifier must
    /// be one that names a manufacturer.
    pub fn manufacturer(&self) -> (r: Manufacturer)
        requires
            Manufacturer::spec_try_from(self.manufacturer_id) is Some,
        ensures
            Manufacturer::spec_try_from(self.manufacturer_id) == Some(r),
            r.spec_code() == self.manufacturer_id,
    {
        match Manufacturer::try_from(self.manufacturer_id) {
            Ok(manufacturer) => manufacturer,
            Err(_) => Manufacturer::Microsoft,
        }
    }

    /// Product identifier for the device; `None` for an identifier that is not
    /// among the listed products.
    pub fn product(&self) -> (r: Option<Product>)
        ensures
            r == Product::spec_try_from(self.product_id),
    {
        match Product::try_from(self.product_id) {
            Ok(product) => Some(product),
            Err(_) => None,
        }
    }

    /// Version number of the device driver for the device: major and minor.
    pub fn driver_version(&self) -> (r: (u8, u8))
        ensures
            r.0 == self.version / 256,
            r.1 == self.version % 256,
    {
        let version: u16 = self.version;
        let major: u16 = (version >> 8) & 0xff;
        let minor: u16 = version & 0xff;
        assert((version >> 8) & 0xff == version / 256) by (bit_vector);
        assert(version & 0xff == version % 256) by (bit_vector);
        (major as u8, minor as u8)
    }

    /// The number of code units of the product name before its terminator.
    fn name_length(&self) -> (r: usize)
        ensures
            r == nul_index(self.product_name@),
            r <= 32,
    {
        let mut at: usize = 0;
        while at < 32 && self.product_name[at] != 0
            invariant
                at <= 32,
                self.product_name@.len() == 32,
                forall|i: int| 0 <= i < at ==> self.product_name@[i] != 0,
            decreases 32 - at,
        {
            at = at + 1;
        }
        proof {
            lemma_nul_index(self.product_name@, at as int);
        }
        at
    }

    /// Product name. It must be valid UTF-16 up to its terminator.
    pub fn name(&self) -> (r: String)
        requires
            utf16_text(self.name_units()) is Some,
        ensures
            utf16_text(self.name_units()) == Some(r@),
    {
        let length = self.name_length();
        let units = vstd::slice::slice_subrange(self.product_name.as_slice(), 0, length);
        assert(units@ =~= self.name_units());
        match decode_utf16(units) {
            Some(text) => text,
            None => String::new(),
        }
    }

    /// Product name, or `None` where it is not valid UTF-16.
    pub fn try_name(&self) -> (r: Option<String>)
        ensures
            r matches Some(text) ==> utf16_text(self.name_units()) == Some(text@),
            r is None ==> utf16_text(self.name_units()) is None,
    {
        let length = self.name_length();
        let units = vstd::slice::slice_subrange(self.product_name.as_slice(), 0, length);
        assert(units@ =~= self.name_units());
        match decode_utf16(units) {
            Some(_) => Some(self.name()),
            None => None,
        }
    }

    /// Standard formats that are supported.
    pub fn supported_formats(&self) -> (r: Vec<Format>)
        ensures
            r@ == Format::in_mask(self.formats),
    {
        Format::from_mask(self.formats)
    }

    /// Number specifying whether the device supports mono (1) or stereo (2) output.
    pub fn channels(&self) -> (r: u16)
        ensures
            r == self.channel_count,
    {
        self.channel_count
    }

    /// Optional functionality supported by the device.
    pub fn functionality(&self) -> (r: Vec<Functionality>)
        ensures
            r@ == Functionality::in_mask(self.support),
    {
        Functionality::from_mask(self.support)
    }
}

/// Gives the capabilities that the native query filled in, if its status says
/// that it succeeded, and else the error that the status names. The status
/// must be one that the native layer documents.
pub fn get_capabilities(status: u32, caps: Capabilities) -> (r: Result<Capabilities, Error>)
    requires
        is_known_status(status),
    ensures
        r == (match status_meaning(status) {
            Ok(_) => Ok::<Capabilities, Error>(caps),
            Err(error) => Err::<Capabilities, Error>(error),
        }),
{
    match check_multimedia_error(status) {
        Ok(_) => Ok(caps),
        Err(error) => Err(error),
    }
}

} // verus!
