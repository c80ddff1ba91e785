//! Product identifiers of devices.
use vstd::prelude::*;

verus! {

/// Product identifier for a device.
#[derive(Clone, Copy, Debug, PartialEq, Eq, Structural)]
pub enum Product {
    /// Adlib-compatible synthesizer.
    Adlib,
    /// G.711 codec.
    AcmG711,
    /// GSM 610 codec.
    AcmGsm610,
    /// IMA ADPCM codec.
    ImaAdpcm,
    /// Joystick adapter.
    Joystick,
    /// MIDI mapper.
    Midi,
    /// MPU 401-compatible MIDI input port.
    Mpu401MidiIn,
    /// MPU 401-compatible MIDI output port.
    Mpu401MidiOut,
    /// MS ADPCM codec.
    AcmAdpcm,
    /// MS audio board stereo FM synthesizer.
    FmSynthStereo,
    /// MS audio board aux port.
    Aux,
    /// MS audio board mixer driver.
    Mixer,
    /// MS audio board waveform input.
    WaveIn,
    /// MS audio board waveform output.
    WaveOut,
    /// MS audio compression manager.
    Acm,
    /// MS filter.
    AcmFilter,
    /// MS OEM audio aux port.
    OemAux,
    /// MS OEM audio board mixer driver.
    OemMixer,
    /// MS OEM audio board stereo FM synthesizer.
    OemFmSynthStereo,
    /// MS OEM audio board waveform input.
    OemWaveIn,
    /// MS OEM audio board waveform output.
    OemWaveOut,
    /// MS vanilla driver aux (CD).
    GenericAuxCd,
    /// MS vanilla driver aux (line in).
    GenericAuxLine,
    /// MS vanilla driver aux (mic).
    GenericAuxMic,
    /// MS vanilla driver MIDI external out.
    GenericMidiOut,
    /// MS vanilla driver MIDI in.
    GenericMidiIn,
    /// MS vanilla driver MIDI synthesizer.
    GenericMidiSynth,
    /// MS vanilla driver waveform input.
    GenericWaveIn,
    /// MS vanilla driver wavefrom output.
    GenericWaveOut,
    /// PC speaker waveform output.
    SpeakerWaveOut,
    /// PCM converter.
    AcmPcm,
    /// Sound Blaster internal synthesizer.
    SoundBlasterSynth,
    /// Sound Blaster MIDI input port.
    SoundBlasterMidiIn,
    /// Sound Blaster MIDI output port.
    SoundBlasterMidiOut,
    /// Sound Blaster waveform input.
    SoundBlasterWaveIn,
    /// Sound Blaster waveform output.
    SoundBlasterWaveOut,
    /// Wave mapper.
    WaveMapper,
}

impl Product {
    /// The 16-bit identifier of this product.
    pub open spec fn spec_code(self) -> u16 {
        match self {
            Product::Adlib => 9,
            Product::AcmG711 => 37,
            Product::AcmGsm610 => 36,
            Product::ImaAdpcm => 34,
            Product::Joystick => 12,
            Product::Midi => 1,
            Product::Mpu401MidiIn => 11,
            Product::Mpu401MidiOut => 10,
            Product::AcmAdpcm => 33,
            Product::FmSynthStereo => 16,
            Product::Aux => 21,
            Product::Mixer => 17,
            Product::WaveIn => 14,
            Product::WaveOut => 15,
            Product::Acm => 32,
            Product::AcmFilter => 35,
            Product::OemAux => 22,
            Product::OemMixer => 31,
            Product::OemFmSynthStereo => 20,
            Product::OemWaveIn => 18,
            Product::OemWaveOut => 19,
            Product::GenericAuxCd => 30,
            Product::GenericAuxLine => 28,
            Product::GenericAuxMic => 29,
            Product::GenericMidiOut => 26,
            Product::GenericMidiIn => 25,
            Product::GenericMidiSynth => 27,
            Product::GenericWaveIn => 23,
            Product::GenericWaveOut => 24,
            Product::SpeakerWaveOut => 13,
            Product::AcmPcm => 38,
            Product::SoundBlasterSynth => 5,
            Product::SoundBlasterMidiIn => 4,
            Product::SoundBlasterMidiOut => 3,
            Product::SoundBlasterWaveIn => 7,
            Product::SoundBlasterWaveOut => 6,
            Product::WaveMapper => 2,
        }
    }

    /// The member listed under a number; the first member where none is listed.
    #[verifier::opaque]
    pub open spec fn listed(value: u16) -> Product {
        match value {
            37 => Product::AcmG711,
            36 => Product::AcmGsm610,
            34 => Product::ImaAdpcm,
            12 => Product::Joystick,
            1 => Product::Midi,
            11 => Product::Mpu401MidiIn,
            10 => Product::Mpu401MidiOut,
            33 => Product::AcmAdpcm,
            16 => Product::FmSynthStereo,
            21 => Product::Aux,
            17 => Product::Mixer,
            14 => Product::WaveIn,
            15 => Product::WaveOut,
            32 => Product::Acm,
            35 => Product::AcmFilter,
            22 => Product::OemAux,
            31 => Product::OemMixer,
            20 => Product::OemFmSynthStereo,
            18 => Product::OemWaveIn,
            19 => Product::OemWaveOut,
            30 => Product::GenericAuxCd,
            28 => Product::GenericAuxLine,
            29 => Product::GenericAuxMic,
            26 => Product::GenericMidiOut,
            25 => Product::GenericMidiIn,
            27 => Product::GenericMidiSynth,
            23 => Product::GenericWaveIn,
            24 => Product::GenericWaveOut,
            13 => Product::SpeakerWaveOut,
            38 => Product::AcmPcm,
            5 => Product::SoundBlasterSynth,
            4 => Product::SoundBlasterMidiIn,
            3 => Product::SoundBlasterMidiOut,
            7 => Product::SoundBlasterWaveIn,
            6 => Product::SoundBlasterWaveOut,
            2 => Product::WaveMapper,
            _ => Product::Adlib,
        }
    }

    /// The product that a 16-bit identifier names.
    pub open spec fn spec_try_from(value: u16) -> Option<Product> {
        if Self::listed(value).spec_code() == value {
            Some(Self::listed(value))
        } else {
            None
        }
    }

    /// The 16-bit identifier of this product.
    #[verifier::when_used_as_spec(spec_code)]
    pub fn code(self) -> (r: u16)
        ensures
            r == self.spec_code(),
    {
        match self {
            Product::Adlib => 9,
            Product::AcmG711 => 37,
            Product::AcmGsm610 => 36,
            Product::ImaAdpcm => 34,
            Product::Joystick => 12,
            Product::Midi => 1,
            Product::Mpu401MidiIn => 11,
            Product::Mpu401MidiOut => 10,
            Product::AcmAdpcm => 33,
            Product::FmSynthStereo => 16,
            Product::Aux => 21,
            Product::Mixer => 17,
            Product::WaveIn => 14,
            Product::WaveOut => 15,
            Product::Acm => 32,
            Product::AcmFilter => 35,
            Product::OemAux => 22,
            Product::OemMixer => 31,
            Product::OemFmSynthStereo => 20,
            Product::OemWaveIn => 18,
            Product::OemWaveOut => 19,
            Product::GenericAuxCd => 30,
            Product::GenericAuxLine => 28,
            Product::GenericAuxMic => 29,
            Product::GenericMidiOut => 26,
            Product::GenericMidiIn => 25,
            Product::GenericMidiSynth => 27,
            Product::GenericWaveIn => 23,
            Product::GenericWaveOut => 24,
            Product::SpeakerWaveOut => 13,
            Product::AcmPcm => 38,
            Product::SoundBlasterSynth => 5,
            Product::SoundBlasterMidiIn => 4,
            Product::SoundBlasterMidiOut => 3,
            Product::SoundBlasterWaveIn => 7,
            Product::SoundBlasterWaveOut => 6,
            Product::WaveMapper => 2,
        }
    }

    /// The member listed under a number; the first member where none is listed.
    fn lookup(value: u16) -> (r: Product)
        ensures
            r == Self::listed(value),
    {
        reveal(Product::listed);
        match value {
            37 => Product::AcmG711,
            36 => Product::AcmGsm610,
            34 => Product::ImaAdpcm,
            12 => Product::Joystick,
            1 => Product::Midi,
            11 => Product::Mpu401MidiIn,
            10 => Product::Mpu401MidiOut,
            33 => Product::AcmAdpcm,
            16 => Product::FmSynthStereo,
            21 => Product::Aux,
            17 => Product::Mixer,
            14 => Product::WaveIn,
            15 => Product::WaveOut,
            32 => Product::Acm,
            35 => Product::AcmFilter,
            22 => Product::OemAux,
            31 => Product::OemMixer,
            20 => Product::OemFmSynthStereo,
            18 => Product::OemWaveIn,
            19 => Product::OemWaveOut,
            30 => Product::GenericAuxCd,
            28 => Product::GenericAuxLine,
            29 => Product::GenericAuxMic,
            26 => Product::GenericMidiOut,
            25 => Product::GenericMidiIn,
            27 => Product::GenericMidiSynth,
            23 => Product::GenericWaveIn,
            24 => Product::GenericWaveOut,
            13 => Product::SpeakerWaveOut,
            38 => Product::AcmPcm,
            5 => Product::SoundBlasterSynth,
            4 => Product::SoundBlasterMidiIn,
            3 => Product::SoundBlasterMidiOut,
            7 => Product::SoundBlasterWaveIn,
            6 => Product::SoundBlasterWaveOut,
            2 => Product::WaveMapper,
            _ => Product::Adlib,
        }
    }

    /// The product that a 16-bit identifier names.
    /// A number that names nothing is handed back as the error.
    pub fn try_from(value: u16) -> (r: Result<Product, u16>)
        ensures
            r == (match Self::spec_try_from(value) {
                Some(x) => Ok::<Product, u16>(x),
                None => Err::<Product, u16>(value),
            }),
    {
        let found = Self::lookup(value);
        if found.code() == value {
            Ok(found)
        } else {
            Err(value)
        }
    }

    /// Reading a member's number back gives the same member.
    pub proof fn lemma_code_round_trip(self)
        ensures
            Self::spec_try_from(self.spec_code()) == Some(self),
    {
        reveal(Product::listed);
    }

    /// A number that names a member is that member's own number.
    pub proof fn lemma_try_from_is_exact(value: u16)
        ensures
            Self::spec_try_from(value) matches Some(x) ==> x.spec_code() == value,
    {
    }
}

} // verus!
