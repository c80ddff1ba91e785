//! Waveform-audio format tags.
use vstd::prelude::*;

verus! {

/// Waveform-audio format type.
#[derive(Clone, Copy, Debug, PartialEq, Eq, Structural)]
pub enum Tag {
    /// Format used for For one- or two-channel PCM data.
    Pcm,
    /// Microsoft Corporation.
    Unknown,
    /// Microsoft Corporation.
    AdPcm,
    /// Microsoft Corporation.
    IeeeFloat,
    /// Compaq Computer Corp.
    Vselp,
    /// IBM Corporation.
    IbmCvsd,
    /// Microsoft Corporation.
    Alaw,
    /// Microsoft Corporation.
    Mulaw,
    /// Microsoft Corporation.
    Dts,
    /// Microsoft Corporation.
    Drm,
    /// Microsoft Corporation.
    WmaVoice9,
    /// Microsoft Corporation.
    WmaVoice10,
    /// OKI.
    OkiAdPcm,
    /// Intel Corporation. DVI and IMA formats.
    DviImaAdPcm,
    /// Videologic.
    MediaspaceAdPcm,
    /// Sierra Semiconductor Corp.
    SierraAdPcm,
    /// Antex Electronics Corporation.
    G723AdPcm,
    /// DSP Solutions, Inc.
    DigiStd,
    /// DSP Solutions, Inc.
    DigiFix,
    /// Dialogic Corporation.
    DialogicOkiAdPcm,
    /// Media Vision, Inc.
    MediavisionAdPcm,
    /// Hewlett-Packard Company.
    CuCodec,
    /// Hewlett-Packard Company.
    HpDynVoice,
    /// Yamaha Corporation of America.
    YamahaAdPcm,
    /// Speech Compression.
    Sonarc,
    /// DSP Group, Inc.
    DspGroupTrueSpeech,
    /// Echo Speech Corporation.
    EchoSc1,
    /// Virtual Music, Inc.
    AudiofileAf36,
    /// Audio Processing Technology.
    Aptx,
    /// Virtual Music, Inc.
    AudiofileAf10,
    /// Aculab plc.
    Prosody1612,
    /// Merging Technologies S.A.
    Lrc,
    /// Dolby Laboratories.
    DolbyAc2,
    /// Microsoft Corporation.
    MsGsm610,
    /// Microsoft Corporation.
    MsnAudio,
    /// Antex Electronics Corporation.
    AntexAdpcme,
    /// Control Resources Limited.
    ControlResVqlpc,
    /// DSP Solutions, Inc.
    Digireal,
    /// DSP Solutions, Inc.
    DigiAdPcm,
    /// Control Resources Limited.
    ControlResCr10,
    /// Natural MicroSystems.
    NmsVbxAdPcm,
    /// Crystal Semiconductor IMA ADPCM.
    CsImaAdPcm,
    /// Echo Speech Corporation.
    EchoSc3,
    /// Rockwell International.
    RockwellAdPcm,
    /// Rockwell International.
    RockwellDigitalk,
    /// Xebec Multimedia Solutions Limited.
    Xebec,
    /// Antex Electronics Corporation.
    G721AdPcm,
    /// Antex Electronics Corporation.
    G728Celp,
    /// Microsoft Corporation.
    Msg723,
    /// Intel Corp.
    IntelG7231,
    /// Intel Corp.
    IntelG729,
    /// Sharp.
    SharpG726,
    /// Microsoft Corporation.
    Mpeg,
    /// InSoft, Inc.
    Rt24,
    /// InSoft, Inc.
    Pac,
    /// ISO/MPEG Layer3 Format Tag.
    MpegLayer3,
    /// Lucent Technologies.
    LucentG723,
    /// Cirrus Logic.
    Cirrus,
    /// ESS Technology.
    EsPcm,
    /// Voxware Inc.
    Voxware,
    /// Canopus, co., Ltd.
    CanopusAtrac,
    /// APICOM.
    G726AdPcm,
    /// APICOM.
    G722AdPcm,
    /// Microsoft Corporation.
    Dsat,
    /// Microsoft Corporation.
    DsatDisplay,
    /// Voxware Inc.
    VoxwareByteAligned,
    /// Voxware Inc.
    VoxwareAc8,
    /// Voxware Inc.
    VoxwareAc10,
    /// Voxware Inc.
    VoxwareAc16,
    /// Voxware Inc.
    VoxwareAc20,
    /// Voxware Inc.
    VoxwareRt24,
    /// Voxware Inc.
    VoxwareRt29,
    /// Voxware Inc.
    VoxwareRt29HW,
    /// Voxware Inc.
    VoxwareVr12,
    /// Voxware Inc.
    VoxwareVr18,
    /// Voxware Inc.
    VoxwareTq40,
    /// Voxware Inc.
    VoxwareSc3,
    /// Voxware Inc.
    VoxwareSc31,
    /// Softsound, Ltd.
    Softsound,
    /// Voxware Inc.
    VoxwareTq60,
    /// Microsoft Corporation.
    Msrt24,
    /// AT&T Labs, Inc.
    G729A,
    /// Motion Pixels.
    Mvi2,
    /// DataFusion Systems (Pty) (Ltd).
    DfG726,
    /// DataFusion Systems (Pty) (Ltd).
    DfGsm610,
    /// Iterated Systems, Inc.
    IsiAudio,
    /// OnLive! Technologies, Inc.
    OnLive,
    /// Multitude Inc.
    MultitudeFtSx20,
    /// Infocom.
    InfocomItsG721AdPcm,
    /// Convedia Corp.
    ConvediaG729,
    /// Congruency Inc.
    Congruency,
    /// Siemens Business Communications Sys.
    Sbc24,
    /// Sonic Foundry.
    DolbyAc3Spdif,
    /// MediaSonic.
    MediasonicG723,
    /// Aculab plc.
    Prosody8Kbps,
    /// ZyXEL Communications, Inc.
    ZyxelAdPcm,
    /// Philips Speech Processing.
    PhilipsLpcbb,
    /// Studer Professional Audio AG.
    Packed,
    /// Malden Electronics Ltd.
    MaldenPhonytalk,
    /// Racal recorders.
    RacalRecorderGsm,
    /// Racal recorders.
    RacalRecorderG720A,
    /// Racal recorders.
    RacalRecorderG7231,
    /// Racal recorders.
    RacalRecorderTetraAcelp,
    /// NEC Corp.
    NecAac,
    /// For Raw AAC, with format block of "audio specific config" (as defined by MPEG-4), that follows a wave format structure.
    RawAac1,
    /// Rhetorex Inc.
    RhetorexAdPcm,
    /// BeCubed Software Inc.
    Irat,
    /// Vivo Software.
    VivoG723,
    /// Vivo Software.
    VivoSiren,
    /// Philips Speech Processing.
    PhilipsCelp,
    /// Philips Speech Processing.
    PhilipsGrundig,
    /// Digital Equipment Corporation.
    DigitalG723,
    /// Sanyo Electric Co., Ltd.
    SanyoLdAdPcm,
    /// Sipro Lab Telecom Inc.
    SiprolabAceplnet,
    /// Sipro Lab Telecom Inc.
    SiprolabAcelp4800,
    /// Sipro Lab Telecom Inc.
    SiprolabAcelp8V3,
    /// Sipro Lab Telecom Inc.
    SiprolabG729,
    /// Sipro Lab Telecom Inc.
    SiprolabG729A,
    /// Sipro Lab Telecom Inc.
    SiprolabKelvin,
    /// VoiceAge Corp.
    VoiceageAmr,
    /// Dictaphone Corporation.
    G726Adpcm,
    /// Dictaphone Corporation.
    DictaphoneCelp68,
    /// Dictaphone Corporation.
    DictaphoneCelp54,
    /// Qualcomm, Inc.
    QualcommPurevoice,
    /// Qualcomm, Inc.
    QualcommHalfrate,
    /// Ring Zero Systems, Inc.
    Tubgsm,
    /// Microsoft Corporation.
    Msaudio1,
    /// Microsoft Corporation.
    Wmaudio2,
    /// Microsoft Corporation.
    Wmaudio3,
    /// Microsoft Corporation.
    WmaudioLossless,
    /// Microsoft Corporation.
    Wmaspdif,
    /// Unisys Corp.
    UnisysNapAdPcm,
    /// Unisys Corp.
    UnisysNapUlaw,
    /// Unisys Corp.
    UnisysNapAlaw,
    /// Unisys Corp.
    UnisysNap16K,
    /// SyCom Technologies.
    SycomAcmSyc008,
    /// SyCom Technologies.
    SycomAcmSyc701G726L,
    /// SyCom Technologies.
    SycomAcmSyc701Celp54,
    /// SyCom Technologies.
    SycomAcmSyc701Celp68,
    /// Knowledge Adventure, Inc.
    KnowledgeAdventureAdPcm,
    /// Fraunhofer IIS.
    FraunhoferIisMpeg2Aac,
    /// Digital Theatre Systems, Inc.
    DtsDs,
    /// Creative Labs, Inc.
    CreativeAdPcm,
    /// Creative Labs, Inc.
    CreativeFastspeech8,
    /// Creative Labs, Inc.
    CreativeFastspeech10,
    /// UHER informatic GmbH.
    UherAdPcm,
    /// Ulead Systems, Inc.
    UleadDvAudio,
    /// Ulead Systems, Inc.
    UleadDvAudio1,
    /// Quarterdeck Corporation.
    Quarterdeck,
    /// I-link Worldwide.
    IlinkVc,
    /// Aureal Semiconductor.
    RawSport,
    /// ESS Technology, Inc.
    EsstAc3,
    /// Generic format.
    GenericPassthru,
    /// Interactive Products, Inc.
    IpiHsx,
    /// Interactive Products, Inc.
    IpiRpelp,
    /// Consistent Software.
    Cs2,
    /// Sony Corp.
    SonyScx,
    /// Sony Corp.
    SonyScy,
    /// Sony Corp.
    SonyAtrac3,
    /// Sony Corp.
    SonySpc,
    /// Telum Inc.
    TelumAudio,
    /// Telum Inc.
    TelumIaAudio,
    /// Norcom Electronics Corp.
    NorcomVoiceSystemsAdPcm,
    /// Fujitsu Corp.
    FmTownsSnd,
    /// Micronas Semiconductors, Inc.
    Micronas,
    /// Micronas Semiconductors, Inc.
    MicronasCelp833,
    /// Brooktree Corporation.
    BtvDigital,
    /// Intel Corp.
    IntelMusicCoder,
    /// Ligos.
    IndeoAudio,
    /// QDesign Corporation.
    QdesignMusic,
    /// On2 Technologies.
    On2Vp7Audio,
    /// On2 Technologies.
    On2Vp6Audio,
    /// AT&T Labs, Inc.
    VmeVmpcm,
    /// AT&T Labs, Inc.
    Tpc,
    /// Clearjump.
    LightwaveLossless,
    /// Ing C. Olivetti & C., S.p.A.
    Oligsm,
    /// Ing C. Olivetti & C., S.p.A.
    Oliadpcm,
    /// Ing C. Olivetti & C., S.p.A.
    Olicelp,
    /// Ing C. Olivetti & C., S.p.A.
    Olisbc,
    /// Ing C. Olivetti & C., S.p.A.
    Oliopr,
    /// Lernout & Hauspie.
    LhCodec,
    /// Lernout & Hauspie.
    LhCodecCelp,
    /// Lernout & Hauspie.
    LhCodecSbc8,
    /// Lernout & Hauspie.
    LhCodecSbc12,
    /// Lernout & Hauspie.
    LhCodecSbc16,
    /// Norris Communications, Inc.
    Norris,
    /// ISIAudio.
    Isiaudio2,
    /// AT&T Labs, Inc.
    SoundspaceMusicompress,
    /// Microsoft Corporation.
    MpegAdtsAac,
    /// Microsoft Corporation.
    MpegRawAac,
    /// Microsoft Corporation (MPEG-4 Audio Transport Streams (LOAS/LATM).
    MpegLoas,
    /// Microsoft Corporation.
    NokiaMpegAdtsAac,
    /// Microsoft Corporation.
    NokiaMpegRawAac,
    /// Microsoft Corporation.
    VodafoneMpegAdtsAac,
    /// Microsoft Corporation.
    VodafoneMpegRawAac,
    /// Microsoft Corporation (MPEG-2 AAC or MPEG-4 HE-AAC v1/v2 streams with any payload (ADTS, ADIF, LOAS/LATM, RAW). Format block includes MP4 "audio specific config".
    MpegHeaac,
    /// Voxware Inc.
    Voxwarert24Speech,
    /// Sonic Foundry.
    SonicfoundryLossless,
    /// Innings Telecom Inc.
    InningsTelecomAdPcm,
    /// Lucent Technologies.
    LucentSx8300P,
    /// Lucent Technologies.
    LucentSx5363S,
    /// CUSeeMe.
    Cuseeme,
    /// NTCSoft.
    NtcsoftAlf2CmAcm,
    /// FAST Multimedia AG.
    Dvm,
    /// DTS 2 format.
    Dts2,
    /// Make AVIs format.
    Makeavis,
    /// Divio, Inc.
    DivioMpeg4Aac,
    /// Nokia.
    NokiaAdaptiveMultirate,
    /// Divio, Inc.
    DivioG726,
    /// LEAD Technologies.
    LeadSpeech,
    /// LEAD Technologies.
    LeadVorbis,
    /// xiph.org.
    WavpackAudio,
    /// Apple Lossless.
    Alac,
    /// Ogg Vorbis.
    OggVorbisMode1,
    /// Ogg Vorbis.
    OggVorbisMode2,
    /// Ogg Vorbis.
    OggVorbisMode3,
    /// Ogg Vorbis.
    OggVorbisMode1Plus,
    /// Ogg Vorbis.
    OggVorbisMode2Plus,
    /// Ogg Vorbis.
    OggVorbisMode3Plus,
    /// 3COM Corp.
    ThreeComNbx,
    /// Opus.
    Opus,
    /// FAAD AAC format.
    FaadAac,
    /// AMR Narrowband.
    AmrNb,
    /// AMR Wideband.
    AmrWb,
    /// AMR Wideband Plus.
    AmrWp,
    /// GSMA/3GPP.
    GsmAmrCbr,
    /// GSMA/3GPP.
    GsmAmrVbrSid,
    /// Comverse Infosys.
    ComverseInfosysG7231,
    /// Comverse Infosys.
    ComverseInfosysAvqsbc,
    /// Comverse Infosys.
    ComverseInfosysSbc,
    /// Symbol Technologies.
    SymbolG729A,
    /// VoiceAge Corp.
    VoiceageAmrWb,
    /// Ingenient Technologies, Inc.
    IngenientG726,
    /// ISO/MPEG-4.
    Mpeg4Aac,
    /// Encore Software.
    EncoreG726,
    /// ZOLL Medical Corp.
    ZollAsao,
    /// xiph.org.
    SpeexVoice,
    /// Vianix LLC.
    VianixMasc,
    /// Microsoft.
    Wm9SpectrumAnalyzer,
    /// Microsoft.
    WmfSpectrumAnayzer,
    /// GSM 610 format.
    Gsm610,
    /// GSM 620 format .
    Gsm620,
    /// GSM 660 format .
    Gsm660,
    /// GSM 690 format .
    Gsm690,
    /// GSM Adaptive Multirate format .
    GsmAdaptiveMultirateWb,
    /// Polycom.
    PolycomG722,
    /// Polycom.
    PolycomG728,
    /// Polycom.
    PolycomG729A,
    /// Polycom.
    PolycomSiren,
    /// Global IP.
    GlobalIpIlbc,
    /// RadioTime.
    RadiotimeTimeShiftRadio,
    /// Nice Systems.
    NiceAca,
    /// Nice Systems.
    NiceAdPcm,
    /// Vocord Telecom.
    VocordG721,
    /// Vocord Telecom.
    VocordG726,
    /// Vocord Telecom.
    VocordG7221,
    /// Vocord Telecom.
    VocordG728,
    /// Vocord Telecom.
    VocordG729,
    /// Vocord Telecom.
    VocordG729A,
    /// Vocord Telecom.
    VocordG7231,
    /// Vocord Telecom.
    VocordLbc,
    /// Nice Systems.
    NiceG728,
    /// France Telecom.
    FraceTelecomG729,
    /// CODIAN.
    Codian,
    /// flac.sourceforge.net.
    Flac,
}

impl Tag {
    /// The 16-bit number that stands for this tag in a format record.
    pub open spec fn spec_code(self) -> u16 {
        match self {
            Tag::Pcm => 1,
            Tag::Unknown => 0,
            Tag::AdPcm => 2,
            Tag::IeeeFloat => 3,
            Tag::Vselp => 4,
            Tag::IbmCvsd => 5,
            Tag::Alaw => 6,
            Tag::Mulaw => 7,
            Tag::Dts => 8,
            Tag::Drm => 9,
            Tag::WmaVoice9 => 10,
            Tag::WmaVoice10 => 11,
            Tag::OkiAdPcm => 16,
            Tag::DviImaAdPcm => 17,
            Tag::MediaspaceAdPcm => 18,
            Tag::SierraAdPcm => 19,
            Tag::G723AdPcm => 20,
            Tag::DigiStd => 21,
            Tag::DigiFix => 22,
            Tag::DialogicOkiAdPcm => 23,
            Tag::MediavisionAdPcm => 24,
            Tag::CuCodec => 25,
            Tag::HpDynVoice => 26,
            Tag::YamahaAdPcm => 32,
            Tag::Sonarc => 33,
            Tag::DspGroupTrueSpeech => 34,
            Tag::EchoSc1 => 35,
            Tag::AudiofileAf36 => 36,
            Tag::Aptx => 37,
            Tag::AudiofileAf10 => 38,
            Tag::Prosody1612 => 39,
            Tag::Lrc => 40,
            Tag::DolbyAc2 => 48,
            Tag::MsGsm610 => 49,
            Tag::MsnAudio => 50,
            Tag::AntexAdpcme => 51,
            Tag::ControlResVqlpc => 52,
            Tag::Digireal => 53,
            Tag::DigiAdPcm => 54,
            Tag::ControlResCr10 => 55,
            Tag::NmsVbxAdPcm => 56,
            Tag::CsImaAdPcm => 57,
            Tag::EchoSc3 => 58,
            Tag::RockwellAdPcm => 59,
            Tag::RockwellDigitalk => 60,
            Tag::Xebec => 61,
            Tag::G721AdPcm => 64,
            Tag::G728Celp => 65,
            Tag::Msg723 => 66,
            Tag::IntelG7231 => 67,
            Tag::IntelG729 => 68,
            Tag::SharpG726 => 69,
            Tag::Mpeg => 80,
            Tag::Rt24 => 82,
            Tag::Pac => 83,
            Tag::MpegLayer3 => 85,
            Tag::LucentG723 => 89,
            Tag::Cirrus => 96,
            Tag::EsPcm => 97,
            Tag::Voxware => 98,
            Tag::CanopusAtrac => 99,
            Tag::G726AdPcm => 100,
            Tag::G722AdPcm => 101,
            Tag::Dsat => 102,
            Tag::DsatDisplay => 103,
            Tag::VoxwareByteAligned => 105,
            Tag::VoxwareAc8 => 112,
            Tag::VoxwareAc10 => 113,
            Tag::VoxwareAc16 => 114,
            Tag::VoxwareAc20 => 115,
            Tag::VoxwareRt24 => 116,
            Tag::VoxwareRt29 => 117,
            Tag::VoxwareRt29HW => 118,
            Tag::VoxwareVr12 => 119,
            Tag::VoxwareVr18 => 120,
            Tag::VoxwareTq40 => 121,
            Tag::VoxwareSc3 => 122,
            Tag::VoxwareSc31 => 123,
            Tag::Softsound => 128,
            Tag::VoxwareTq60 => 129,
            Tag::Msrt24 => 130,
            Tag::G729A => 131,
            Tag::Mvi2 => 132,
            Tag::DfG726 => 133,
            Tag::DfGsm610 => 134,
            Tag::IsiAudio => 136,
            Tag::OnLive => 137,
            Tag::MultitudeFtSx20 => 138,
            Tag::InfocomItsG721AdPcm => 139,
            Tag::ConvediaG729 => 140,
            Tag::Congruency => 141,
            Tag::Sbc24 => 145,
            Tag::DolbyAc3Spdif => 146,
            Tag::MediasonicG723 => 147,
            Tag::Prosody8Kbps => 148,
            Tag::ZyxelAdPcm => 151,
            Tag::PhilipsLpcbb => 152,
            Tag::Packed => 153,
            Tag::MaldenPhonytalk => 160,
            Tag::RacalRecorderGsm => 161,
            Tag::RacalRecorderG720A => 162,
            Tag::RacalRecorderG7231 => 163,
            Tag::RacalRecorderTetraAcelp => 164,
            Tag::NecAac => 176,
            Tag::RawAac1 => 255,
            Tag::RhetorexAdPcm => 256,
            Tag::Irat => 257,
            Tag::VivoG723 => 273,
            Tag::VivoSiren => 274,
            Tag::PhilipsCelp => 288,
            Tag::PhilipsGrundig => 289,
            Tag::DigitalG723 => 291,
            Tag::SanyoLdAdPcm => 293,
            Tag::SiprolabAceplnet => 304,
            Tag::SiprolabAcelp4800 => 305,
            Tag::SiprolabAcelp8V3 => 306,
            Tag::SiprolabG729 => 307,
            Tag::SiprolabG729A => 308,
            Tag::SiprolabKelvin => 309,
            Tag::VoiceageAmr => 310,
            Tag::G726Adpcm => 320,
            Tag::DictaphoneCelp68 => 321,
            Tag::DictaphoneCelp54 => 322,
            Tag::QualcommPurevoice => 336,
            Tag::QualcommHalfrate => 337,
            Tag::Tubgsm => 341,
            Tag::Msaudio1 => 352,
            Tag::Wmaudio2 => 353,
            Tag::Wmaudio3 => 354,
            Tag::WmaudioLossless => 355,
            Tag::Wmaspdif => 356,
            Tag::UnisysNapAdPcm => 368,
            Tag::UnisysNapUlaw => 369,
            Tag::UnisysNapAlaw => 370,
            Tag::UnisysNap16K => 371,
            Tag::SycomAcmSyc008 => 372,
            Tag::SycomAcmSyc701G726L => 373,
            Tag::SycomAcmSyc701Celp54 => 374,
            Tag::SycomAcmSyc701Celp68 => 375,
            Tag::KnowledgeAdventureAdPcm => 376,
            Tag::FraunhoferIisMpeg2Aac => 384,
            Tag::DtsDs => 400,
            Tag::CreativeAdPcm => 512,
            Tag::CreativeFastspeech8 => 514,
            Tag::CreativeFastspeech10 => 515,
            Tag::UherAdPcm => 528,
            Tag::UleadDvAudio => 533,
            Tag::UleadDvAudio1 => 534,
            Tag::Quarterdeck => 544,
            Tag::IlinkVc => 560,
            Tag::RawSport => 576,
            Tag::EsstAc3 => 577,
            Tag::GenericPassthru => 585,
            Tag::IpiHsx => 592,
            Tag::IpiRpelp => 593,
            Tag::Cs2 => 608,
            Tag::SonyScx => 624,
            Tag::SonyScy => 625,
            Tag::SonyAtrac3 => 626,
            Tag::SonySpc => 627,
            Tag::TelumAudio => 640,
            Tag::TelumIaAudio => 641,
            Tag::NorcomVoiceSystemsAdPcm => 645,
            Tag::FmTownsSnd => 768,
            Tag::Micronas => 848,
            Tag::MicronasCelp833 => 849,
            Tag::BtvDigital => 1024,
            Tag::IntelMusicCoder => 1025,
            Tag::IndeoAudio => 1026,
            Tag::QdesignMusic => 1104,
            Tag::On2Vp7Audio => 1280,
            Tag::On2Vp6Audio => 1281,
            Tag::VmeVmpcm => 1664,
            Tag::Tpc => 1665,
            Tag::LightwaveLossless => 2222,
            Tag::Oligsm => 4096,
            Tag::Oliadpcm => 4097,
            Tag::Olicelp => 4098,
            Tag::Olisbc => 4099,
            Tag::Oliopr => 4100,
            Tag::LhCodec => 4352,
            Tag::LhCodecCelp => 4353,
            Tag::LhCodecSbc8 => 4354,
            Tag::LhCodecSbc12 => 4355,
            Tag::LhCodecSbc16 => 4356,
            Tag::Norris => 5120,
            Tag::Isiaudio2 => 5121,
            Tag::SoundspaceMusicompress => 5376,
            Tag::MpegAdtsAac => 5632,
            Tag::MpegRawAac => 5633,
            Tag::MpegLoas => 5634,
            Tag::NokiaMpegAdtsAac => 5640,
            Tag::NokiaMpegRawAac => 5641,
            Tag::VodafoneMpegAdtsAac => 5642,
            Tag::VodafoneMpegRawAac => 5643,
            Tag::MpegHeaac => 5648,
            Tag::Voxwarert24Speech => 6172,
            Tag::SonicfoundryLossless => 6513,
            Tag::InningsTelecomAdPcm => 6521,
            Tag::LucentSx8300P => 7175,
            Tag::LucentSx5363S => 7180,
            Tag::Cuseeme => 7939,
            Tag::NtcsoftAlf2CmAcm => 8132,
            Tag::Dvm => 8192,
            Tag::Dts2 => 8193,
            Tag::Makeavis => 13075,
            Tag::DivioMpeg4Aac => 16707,
            Tag::NokiaAdaptiveMultirate => 16897,
            Tag::DivioG726 => 16963,
            Tag::LeadSpeech => 17228,
            Tag::LeadVorbis => 22092,
            Tag::WavpackAudio => 22358,
            Tag::Alac => 27745,
            Tag::OggVorbisMode1 => 26447,
            Tag::OggVorbisMode2 => 26448,
            Tag::OggVorbisMode3 => 26449,
            Tag::OggVorbisMode1Plus => 26479,
            Tag::OggVorbisMode2Plus => 26480,
            Tag::OggVorbisMode3Plus => 26481,
            Tag::ThreeComNbx => 28672,
            Tag::Opus => 28751,
            Tag::FaadAac => 28781,
            Tag::AmrNb => 29537,
            Tag::AmrWb => 29538,
            Tag::AmrWp => 29539,
            Tag::GsmAmrCbr => 31265,
            Tag::GsmAmrVbrSid => 31266,
            Tag::ComverseInfosysG7231 => 41216,
            Tag::ComverseInfosysAvqsbc => 41217,
            Tag::ComverseInfosysSbc => 41218,
            Tag::SymbolG729A => 41219,
            Tag::VoiceageAmrWb => 41220,
            Tag::IngenientG726 => 41221,
            Tag::Mpeg4Aac => 41222,
            Tag::EncoreG726 => 41223,
            Tag::ZollAsao => 41224,
            Tag::SpeexVoice => 41225,
            Tag::VianixMasc => 41226,
            Tag::Wm9SpectrumAnalyzer => 41227,
            Tag::WmfSpectrumAnayzer => 41228,
            Tag::Gsm610 => 41229,
            Tag::Gsm620 => 41230,
            Tag::Gsm660 => 41231,
            Tag::Gsm690 => 41232,
            Tag::GsmAdaptiveMultirateWb => 41233,
            Tag::PolycomG722 => 41234,
            Tag::PolycomG728 => 41235,
            Tag::PolycomG729A => 41236,
            Tag::PolycomSiren => 41237,
            Tag::GlobalIpIlbc => 41238,
            Tag::RadiotimeTimeShiftRadio => 41239,
            Tag::NiceAca => 41240,
            Tag::NiceAdPcm => 41241,
            Tag::VocordG721 => 41242,
            Tag::VocordG726 => 41243,
            Tag::VocordG7221 => 41244,
            Tag::VocordG728 => 41245,
            Tag::VocordG729 => 41246,
            Tag::VocordG729A => 41247,
            Tag::VocordG7231 => 41248,
            Tag::VocordLbc => 41249,
            Tag::NiceG728 => 41250,
            Tag::FraceTelecomG729 => 41251,
            Tag::Codian => 41252,
            Tag::Flac => 61868,
        }
    }

    /// The member listed under a number; the first member where none is listed.
    #[verifier::opaque]
    pub open spec fn listed(value: u16) -> Tag {
        match value {
            0 => Tag::Unknown,
            2 => Tag::AdPcm,
            3 => Tag::IeeeFloat,
            4 => Tag::Vselp,
            5 => Tag::IbmCvsd,
            6 => Tag::Alaw,
            7 => Tag::Mulaw,
            8 => Tag::Dts,
            9 => Tag::Drm,
            10 => Tag::WmaVoice9,
            11 => Tag::WmaVoice10,
            16 => Tag::OkiAdPcm,
            17 => Tag::DviImaAdPcm,
            18 => Tag::MediaspaceAdPcm,
            19 => Tag::SierraAdPcm,
            20 => Tag::G723AdPcm,
            21 => Tag::DigiStd,
            22 => Tag::DigiFix,
            23 => Tag::DialogicOkiAdPcm,
            24 => Tag::MediavisionAdPcm,
            25 => Tag::CuCodec,
            26 => Tag::HpDynVoice,
            32 => Tag::YamahaAdPcm,
            33 => Tag::Sonarc,
            34 => Tag::DspGroupTrueSpeech,
            35 => Tag::EchoSc1,
            36 => Tag::AudiofileAf36,
            37 => Tag::Aptx,
            38 => Tag::AudiofileAf10,
            39 => Tag::Prosody1612,
            40 => Tag::Lrc,
            48 => Tag::DolbyAc2,
            49 => Tag::MsGsm610,
            50 => Tag::MsnAudio,
            51 => Tag::AntexAdpcme,
            52 => Tag::ControlResVqlpc,
            53 => Tag::Digireal,
            54 => Tag::DigiAdPcm,
            55 => Tag::ControlResCr10,
            56 => Tag::NmsVbxAdPcm,
            57 => Tag::CsImaAdPcm,
            58 => Tag::EchoSc3,
            59 => Tag::RockwellAdPcm,
            60 => Tag::RockwellDigitalk,
            61 => Tag::Xebec,
            64 => Tag::G721AdPcm,
            65 => Tag::G728Celp,
            66 => Tag::Msg723,
            67 => Tag::IntelG7231,
            68 => Tag::IntelG729,
            69 => Tag::SharpG726,
            80 => Tag::Mpeg,
            82 => Tag::Rt24,
            83 => Tag::Pac,
            85 => Tag::MpegLayer3,
            89 => Tag::LucentG723,
            96 => Tag::Cirrus,
            97 => Tag::EsPcm,
            98 => Tag::Voxware,
            99 => Tag::CanopusAtrac,
            100 => Tag::G726AdPcm,
            101 => Tag::G722AdPcm,
            102 => Tag::Dsat,
            103 => Tag::DsatDisplay,
            105 => Tag::VoxwareByteAligned,
            112 => Tag::VoxwareAc8,
            113 => Tag::VoxwareAc10,
            114 => Tag::VoxwareAc16,
            115 => Tag::VoxwareAc20,
            116 => Tag::VoxwareRt24,
            117 => Tag::VoxwareRt29,
            118 => Tag::VoxwareRt29HW,
            119 => Tag::VoxwareVr12,
            120 => Tag::VoxwareVr18,
            121 => Tag::VoxwareTq40,
            122 => Tag::VoxwareSc3,
            123 => Tag::VoxwareSc31,
            128 => Tag::Softsound,
            129 => Tag::VoxwareTq60,
            130 => Tag::Msrt24,
            131 => Tag::G729A,
            132 => Tag::Mvi2,
            133 => Tag::DfG726,
            134 => Tag::DfGsm610,
            136 => Tag::IsiAudio,
            137 => Tag::OnLive,
            138 => Tag::MultitudeFtSx20,
            139 => Tag::InfocomItsG721AdPcm,
            140 => Tag::ConvediaG729,
            141 => Tag::Congruency,
            145 => Tag::Sbc24,
            146 => Tag::DolbyAc3Spdif,
            147 => Tag::MediasonicG723,
            148 => Tag::Prosody8Kbps,
            151 => Tag::ZyxelAdPcm,
            152 => Tag::PhilipsLpcbb,
            153 => Tag::Packed,
            160 => Tag::MaldenPhonytalk,
            161 => Tag::RacalRecorderGsm,
            162 => Tag::RacalRecorderG720A,
            163 => Tag::RacalRecorderG7231,
            164 => Tag::RacalRecorderTetraAcelp,
            176 => Tag::NecAac,
            255 => Tag::RawAac1,
            256 => Tag::RhetorexAdPcm,
            257 => Tag::Irat,
            273 => Tag::VivoG723,
            274 => Tag::VivoSiren,
            288 => Tag::PhilipsCelp,
            289 => Tag::PhilipsGrundig,
            291 => Tag::DigitalG723,
            293 => Tag::SanyoLdAdPcm,
            304 => Tag::SiprolabAceplnet,
            305 => Tag::SiprolabAcelp4800,
            306 => Tag::SiprolabAcelp8V3,
            307 => Tag::SiprolabG729,
            308 => Tag::SiprolabG729A,
            309 => Tag::SiprolabKelvin,
            310 => Tag::VoiceageAmr,
            320 => Tag::G726Adpcm,
            321 => Tag::DictaphoneCelp68,
            322 => Tag::DictaphoneCelp54,
            336 => Tag::QualcommPurevoice,
            337 => Tag::QualcommHalfrate,
            341 => Tag::Tubgsm,
            352 => Tag::Msaudio1,
            353 => Tag::Wmaudio2,
            354 => Tag::Wmaudio3,
            355 => Tag::WmaudioLossless,
            356 => Tag::Wmaspdif,
            368 => Tag::UnisysNapAdPcm,
            369 => Tag::UnisysNapUlaw,
            370 => Tag::UnisysNapAlaw,
            371 => Tag::UnisysNap16K,
            372 => Tag::SycomAcmSyc008,
            373 => Tag::SycomAcmSyc701G726L,
            374 => Tag::SycomAcmSyc701Celp54,
            375 => Tag::SycomAcmSyc701Celp68,
            376 => Tag::KnowledgeAdventureAdPcm,
            384 => Tag::FraunhoferIisMpeg2Aac,
            400 => Tag::DtsDs,
            512 => Tag::CreativeAdPcm,
            514 => Tag::CreativeFastspeech8,
            515 => Tag::CreativeFastspeech10,
            528 => Tag::UherAdPcm,
            533 => Tag::UleadDvAudio,
            534 => Tag::UleadDvAudio1,
            544 => Tag::Quarterdeck,
            560 => Tag::IlinkVc,
            576 => Tag::RawSport,
            577 => Tag::EsstAc3,
            585 => Tag::GenericPassthru,
            592 => Tag::IpiHsx,
            593 => Tag::IpiRpelp,
            608 => Tag::Cs2,
            624 => Tag::SonyScx,
            625 => Tag::SonyScy,
            626 => Tag::SonyAtrac3,
            627 => Tag::SonySpc,
            640 => Tag::TelumAudio,
            641 => Tag::TelumIaAudio,
            645 => Tag::NorcomVoiceSystemsAdPcm,
            768 => Tag::FmTownsSnd,
            848 => Tag::Micronas,
            849 => Tag::MicronasCelp833,
            1024 => Tag::BtvDigital,
            1025 => Tag::IntelMusicCoder,
            1026 => Tag::IndeoAudio,
            1104 => Tag::QdesignMusic,
            1280 => Tag::On2Vp7Audio,
            1281 => Tag::On2Vp6Audio,
            1664 => Tag::VmeVmpcm,
            1665 => Tag::Tpc,
            2222 => Tag::LightwaveLossless,
            4096 => Tag::Oligsm,
            4097 => Tag::Oliadpcm,
            4098 => Tag::Olicelp,
            4099 => Tag::Olisbc,
            4100 => Tag::Oliopr,
            4352 => Tag::LhCodec,
            4353 => Tag::LhCodecCelp,
            4354 => Tag::LhCodecSbc8,
            4355 => Tag::LhCodecSbc12,
            4356 => Tag::LhCodecSbc16,
            5120 => Tag::Norris,
            5121 => Tag::Isiaudio2,
            5376 => Tag::SoundspaceMusicompress,
            5632 => Tag::MpegAdtsAac,
            5633 => Tag::MpegRawAac,
            5634 => Tag::MpegLoas,
            5640 => Tag::NokiaMpegAdtsAac,
            5641 => Tag::NokiaMpegRawAac,
            5642 => Tag::VodafoneMpegAdtsAac,
            5643 => Tag::VodafoneMpegRawAac,
            5648 => Tag::MpegHeaac,
            6172 => Tag::Voxwarert24Speech,
            6513 => Tag::SonicfoundryLossless,
            6521 => Tag::InningsTelecomAdPcm,
            7175 => Tag::LucentSx8300P,
            7180 => Tag::LucentSx5363S,
            7939 => Tag::Cuseeme,
            8132 => Tag::NtcsoftAlf2CmAcm,
            8192 => Tag::Dvm,
            8193 => Tag::Dts2,
            13075 => Tag::Makeavis,
            16707 => Tag::DivioMpeg4Aac,
            16897 => Tag::NokiaAdaptiveMultirate,
            16963 => Tag::DivioG726,
            17228 => Tag::LeadSpeech,
            22092 => Tag::LeadVorbis,
            22358 => Tag::WavpackAudio,
            27745 => Tag::Alac,
            26447 => Tag::OggVorbisMode1,
            26448 => Tag::OggVorbisMode2,
            26449 => Tag::OggVorbisMode3,
            26479 => Tag::OggVorbisMode1Plus,
            26480 => Tag::OggVorbisMode2Plus,
            26481 => Tag::OggVorbisMode3Plus,
            28672 => Tag::ThreeComNbx,
            28751 => Tag::Opus,
            28781 => Tag::FaadAac,
            29537 => Tag::AmrNb,
            29538 => Tag::AmrWb,
            29539 => Tag::AmrWp,
            31265 => Tag::GsmAmrCbr,
            31266 => Tag::GsmAmrVbrSid,
            41216 => Tag::ComverseInfosysG7231,
            41217 => Tag::ComverseInfosysAvqsbc,
            41218 => Tag::ComverseInfosysSbc,
            41219 => Tag::SymbolG729A,
            41220 => Tag::VoiceageAmrWb,
            41221 => Tag::IngenientG726,
            41222 => Tag::Mpeg4Aac,
            41223 => Tag::EncoreG726,
            41224 => Tag::ZollAsao,
            41225 => Tag::SpeexVoice,
            41226 => Tag::VianixMasc,
            41227 => Tag::Wm9SpectrumAnalyzer,
            41228 => Tag::WmfSpectrumAnayzer,
            41229 => Tag::Gsm610,
            41230 => Tag::Gsm620,
            41231 => Tag::Gsm660,
            41232 => Tag::Gsm690,
            41233 => Tag::GsmAdaptiveMultirateWb,
            41234 => Tag::PolycomG722,
            41235 => Tag::PolycomG728,
            41236 => Tag::PolycomG729A,
            41237 => Tag::PolycomSiren,
            41238 => Tag::GlobalIpIlbc,
            41239 => Tag::RadiotimeTimeShiftRadio,
            41240 => Tag::NiceAca,
            41241 => Tag::NiceAdPcm,
            41242 => Tag::VocordG721,
            41243 => Tag::VocordG726,
            41244 => Tag::VocordG7221,
            41245 => Tag::VocordG728,
            41246 => Tag::VocordG729,
            41247 => Tag::VocordG729A,
            41248 => Tag::VocordG7231,
            41249 => Tag::VocordLbc,
            41250 => Tag::NiceG728,
            41251 => Tag::FraceTelecomG729,
            41252 => Tag::Codian,
            61868 => Tag::Flac,
            _ => Tag::Pcm,
        }
    }

    /// The tag that a 16-bit number of a format record names.
    pub open spec fn spec_try_from(value: u16) -> Option<Tag> {
        if Self::listed(value).spec_code() == value {
            Some(Self::listed(value))
        } else {
            None
        }
    }

    /// The 16-bit number that stands for this tag in a format record.
    #[verifier::when_used_as_spec(spec_code)]
    pub fn code(self) -> (r: u16)
        ensures
            r == self.spec_code(),
    {
        match self {
            Tag::Pcm => 1,
            Tag::Unknown => 0,
            Tag::AdPcm => 2,
            Tag::IeeeFloat => 3,
            Tag::Vselp => 4,
            Tag::IbmCvsd => 5,
            Tag::Alaw => 6,
            Tag::Mulaw => 7,
            Tag::Dts => 8,
            Tag::Drm => 9,
            Tag::WmaVoice9 => 10,
            Tag::WmaVoice10 => 11,
            Tag::OkiAdPcm => 16,
            Tag::DviImaAdPcm => 17,
            Tag::MediaspaceAdPcm => 18,
            Tag::SierraAdPcm => 19,
            Tag::G723AdPcm => 20,
            Tag::DigiStd => 21,
            Tag::DigiFix => 22,
            Tag::DialogicOkiAdPcm => 23,
            Tag::MediavisionAdPcm => 24,
            Tag::CuCodec => 25,
            Tag::HpDynVoice => 26,
            Tag::YamahaAdPcm => 32,
            Tag::Sonarc => 33,
            Tag::DspGroupTrueSpeech => 34,
            Tag::EchoSc1 => 35,
            Tag::AudiofileAf36 => 36,
            Tag::Aptx => 37,
            Tag::AudiofileAf10 => 38,
            Tag::Prosody1612 => 39,
            Tag::Lrc => 40,
            Tag::DolbyAc2 => 48,
            Tag::MsGsm610 => 49,
            Tag::MsnAudio => 50,
            Tag::AntexAdpcme => 51,
            Tag::ControlResVqlpc => 52,
            Tag::Digireal => 53,
            Tag::DigiAdPcm => 54,
            Tag::ControlResCr10 => 55,
            Tag::NmsVbxAdPcm => 56,
            Tag::CsImaAdPcm => 57,
            Tag::EchoSc3 => 58,
            Tag::RockwellAdPcm => 59,
            Tag::RockwellDigitalk => 60,
            Tag::Xebec => 61,
            Tag::G721AdPcm => 64,
            Tag::G728Celp => 65,
            Tag::Msg723 => 66,
            Tag::IntelG7231 => 67,
            Tag::IntelG729 => 68,
            Tag::SharpG726 => 69,
            Tag::Mpeg => 80,
            Tag::Rt24 => 82,
            Tag::Pac => 83,
            Tag::MpegLayer3 => 85,
            Tag::LucentG723 => 89,
            Tag::Cirrus => 96,
            Tag::EsPcm => 97,
            Tag::Voxware => 98,
            Tag::CanopusAtrac => 99,
            Tag::G726AdPcm => 100,
            Tag::G722AdPcm => 101,
            Tag::Dsat => 102,
            Tag::DsatDisplay => 103,
            Tag::VoxwareByteAligned => 105,
            Tag::VoxwareAc8 => 112,
            Tag::VoxwareAc10 => 113,
            Tag::VoxwareAc16 => 114,
            Tag::VoxwareAc20 => 115,
            Tag::VoxwareRt24 => 116,
            Tag::VoxwareRt29 => 117,
            Tag::VoxwareRt29HW => 118,
            Tag::VoxwareVr12 => 119,
            Tag::VoxwareVr18 => 120,
            Tag::VoxwareTq40 => 121,
            Tag::VoxwareSc3 => 122,
            Tag::VoxwareSc31 => 123,
            Tag::Softsound => 128,
            Tag::VoxwareTq60 => 129,
            Tag::Msrt24 => 130,
            Tag::G729A => 131,
            Tag::Mvi2 => 132,
            Tag::DfG726 => 133,
            Tag::DfGsm610 => 134,
            Tag::IsiAudio => 136,
            Tag::OnLive => 137,
            Tag::MultitudeFtSx20 => 138,
            Tag::InfocomItsG721AdPcm => 139,
            Tag::ConvediaG729 => 140,
            Tag::Congruency => 141,
            Tag::Sbc24 => 145,
            Tag::DolbyAc3Spdif => 146,
            Tag::MediasonicG723 => 147,
            Tag::Prosody8Kbps => 148,
            Tag::ZyxelAdPcm => 151,
            Tag::PhilipsLpcbb => 152,
            Tag::Packed => 153,
            Tag::MaldenPhonytalk => 160,
            Tag::RacalRecorderGsm => 161,
            Tag::RacalRecorderG720A => 162,
            Tag::RacalRecorderG7231 => 163,
            Tag::RacalRecorderTetraAcelp => 164,
            Tag::NecAac => 176,
            Tag::RawAac1 => 255,
            Tag::RhetorexAdPcm => 256,
            Tag::Irat => 257,
            Tag::VivoG723 => 273,
            Tag::VivoSiren => 274,
            Tag::PhilipsCelp => 288,
            Tag::PhilipsGrundig => 289,
            Tag::DigitalG723 => 291,
            Tag::SanyoLdAdPcm => 293,
            Tag::SiprolabAceplnet => 304,
            Tag::SiprolabAcelp4800 => 305,
            Tag::SiprolabAcelp8V3 => 306,
            Tag::SiprolabG729 => 307,
            Tag::SiprolabG729A => 308,
            Tag::SiprolabKelvin => 309,
            Tag::VoiceageAmr => 310,
            Tag::G726Adpcm => 320,
            Tag::DictaphoneCelp68 => 321,
            Tag::DictaphoneCelp54 => 322,
            Tag::QualcommPurevoice => 336,
            Tag::QualcommHalfrate => 337,
            Tag::Tubgsm => 341,
            Tag::Msaudio1 => 352,
            Tag::Wmaudio2 => 353,
            Tag::Wmaudio3 => 354,
            Tag::WmaudioLossless => 355,
            Tag::Wmaspdif => 356,
            Tag::UnisysNapAdPcm => 368,
            Tag::UnisysNapUlaw => 369,
            Tag::UnisysNapAlaw => 370,
            Tag::UnisysNap16K => 371,
            Tag::SycomAcmSyc008 => 372,
            Tag::SycomAcmSyc701G726L => 373,
            Tag::SycomAcmSyc701Celp54 => 374,
            Tag::SycomAcmSyc701Celp68 => 375,
            Tag::KnowledgeAdventureAdPcm => 376,
            Tag::FraunhoferIisMpeg2Aac => 384,
            Tag::DtsDs => 400,
            Tag::CreativeAdPcm => 512,
            Tag::CreativeFastspeech8 => 514,
            Tag::CreativeFastspeech10 => 515,
            Tag::UherAdPcm => 528,
            Tag::UleadDvAudio => 533,
            Tag::UleadDvAudio1 => 534,
            Tag::Quarterdeck => 544,
            Tag::IlinkVc => 560,
            Tag::RawSport => 576,
            Tag::EsstAc3 => 577,
            Tag::GenericPassthru => 585,
            Tag::IpiHsx => 592,
            Tag::IpiRpelp => 593,
            Tag::Cs2 => 608,
            Tag::SonyScx => 624,
            Tag::SonyScy => 625,
            Tag::SonyAtrac3 => 626,
            Tag::SonySpc => 627,
            Tag::TelumAudio => 640,
            Tag::TelumIaAudio => 641,
            Tag::NorcomVoiceSystemsAdPcm => 645,
            Tag::FmTownsSnd => 768,
            Tag::Micronas => 848,
            Tag::MicronasCelp833 => 849,
            Tag::BtvDigital => 1024,
            Tag::IntelMusicCoder => 1025,
            Tag::IndeoAudio => 1026,
            Tag::QdesignMusic => 1104,
            Tag::On2Vp7Audio => 1280,
            Tag::On2Vp6Audio => 1281,
            Tag::VmeVmpcm => 1664,
            Tag::Tpc => 1665,
            Tag::LightwaveLossless => 2222,
            Tag::Oligsm => 4096,
            Tag::Oliadpcm => 4097,
            Tag::Olicelp => 4098,
            Tag::Olisbc => 4099,
            Tag::Oliopr => 4100,
            Tag::LhCodec => 4352,
            Tag::LhCodecCelp => 4353,
            Tag::LhCodecSbc8 => 4354,
            Tag::LhCodecSbc12 => 4355,
            Tag::LhCodecSbc16 => 4356,
            Tag::Norris => 5120,
            Tag::Isiaudio2 => 5121,
            Tag::SoundspaceMusicompress => 5376,
            Tag::MpegAdtsAac => 5632,
            Tag::MpegRawAac => 5633,
            Tag::MpegLoas => 5634,
            Tag::NokiaMpegAdtsAac => 5640,
            Tag::NokiaMpegRawAac => 5641,
            Tag::VodafoneMpegAdtsAac => 5642,
            Tag::VodafoneMpegRawAac => 5643,
            Tag::MpegHeaac => 5648,
            Tag::Voxwarert24Speech => 6172,
            Tag::SonicfoundryLossless => 6513,
            Tag::InningsTelecomAdPcm => 6521,
            Tag::LucentSx8300P => 7175,
            Tag::LucentSx5363S => 7180,
            Tag::Cuseeme => 7939,
            Tag::NtcsoftAlf2CmAcm => 8132,
            Tag::Dvm => 8192,
            Tag::Dts2 => 8193,
            Tag::Makeavis => 13075,
            Tag::DivioMpeg4Aac => 16707,
            Tag::NokiaAdaptiveMultirate => 16897,
            Tag::DivioG726 => 16963,
            Tag::LeadSpeech => 17228,
            Tag::LeadVorbis => 22092,
            Tag::WavpackAudio => 22358,
            Tag::Alac => 27745,
            Tag::OggVorbisMode1 => 26447,
            Tag::OggVorbisMode2 => 26448,
            Tag::OggVorbisMode3 => 26449,
            Tag::OggVorbisMode1Plus => 26479,
            Tag::OggVorbisMode2Plus => 26480,
            Tag::OggVorbisMode3Plus => 26481,
            Tag::ThreeComNbx => 28672,
            Tag::Opus => 28751,
            Tag::FaadAac => 28781,
            Tag::AmrNb => 29537,
            Tag::AmrWb => 29538,
            Tag::AmrWp => 29539,
            Tag::GsmAmrCbr => 31265,
            Tag::GsmAmrVbrSid => 31266,
            Tag::ComverseInfosysG7231 => 41216,
            Tag::ComverseInfosysAvqsbc => 41217,
            Tag::ComverseInfosysSbc => 41218,
            Tag::SymbolG729A => 41219,
            Tag::VoiceageAmrWb => 41220,
            Tag::IngenientG726 => 41221,
            Tag::Mpeg4Aac => 41222,
            Tag::EncoreG726 => 41223,
            Tag::ZollAsao => 41224,
            Tag::SpeexVoice => 41225,
            Tag::VianixMasc => 41226,
            Tag::Wm9SpectrumAnalyzer => 41227,
            Tag::WmfSpectrumAnayzer => 41228,
            Tag::Gsm610 => 41229,
            Tag::Gsm620 => 41230,
            Tag::Gsm660 => 41231,
            Tag::Gsm690 => 41232,
            Tag::GsmAdaptiveMultirateWb => 41233,
            Tag::PolycomG722 => 41234,
            Tag::PolycomG728 => 41235,
            Tag::PolycomG729A => 41236,
            Tag::PolycomSiren => 41237,
            Tag::GlobalIpIlbc => 41238,
            Tag::RadiotimeTimeShiftRadio => 41239,
            Tag::NiceAca => 41240,
            Tag::NiceAdPcm => 41241,
            Tag::VocordG721 => 41242,
            Tag::VocordG726 => 41243,
            Tag::VocordG7221 => 41244,
            Tag::VocordG728 => 41245,
            Tag::VocordG729 => 41246,
            Tag::VocordG729A => 41247,
            Tag::VocordG7231 => 41248,
            Tag::VocordLbc => 41249,
            Tag::NiceG728 => 41250,
            Tag::FraceTelecomG729 => 41251,
            Tag::Codian => 41252,
            Tag::Flac => 61868,
        }
    }

    /// The member listed under a number; the first member where none is listed.
    fn lookup(value: u16) -> (r: Tag)
        ensures
            r == Self::listed(value),
    {
        reveal(Tag::listed);
        match value {
            0 => Tag::Unknown,
            2 => Tag::AdPcm,
            3 => Tag::IeeeFloat,
            4 => Tag::Vselp,
            5 => Tag::IbmCvsd,
            6 => Tag::Alaw,
            7 => Tag::Mulaw,
            8 => Tag::Dts,
            9 => Tag::Drm,
            10 => Tag::WmaVoice9,
            11 => Tag::WmaVoice10,
            16 => Tag::OkiAdPcm,
            17 => Tag::DviImaAdPcm,
            18 => Tag::MediaspaceAdPcm,
            19 => Tag::SierraAdPcm,
            20 => Tag::G723AdPcm,
            21 => Tag::DigiStd,
            22 => Tag::DigiFix,
            23 => Tag::DialogicOkiAdPcm,
            24 => Tag::MediavisionAdPcm,
            25 => Tag::CuCodec,
            26 => Tag::HpDynVoice,
            32 => Tag::YamahaAdPcm,
            33 => Tag::Sonarc,
            34 => Tag::DspGroupTrueSpeech,
            35 => Tag::EchoSc1,
            36 => Tag::AudiofileAf36,
            37 => Tag::Aptx,
            38 => Tag::AudiofileAf10,
            39 => Tag::Prosody1612,
            40 => Tag::Lrc,
            48 => Tag::DolbyAc2,
            49 => Tag::MsGsm610,
            50 => Tag::MsnAudio,
            51 => Tag::AntexAdpcme,
            52 => Tag::ControlResVqlpc,
            53 => Tag::Digireal,
            54 => Tag::DigiAdPcm,
            55 => Tag::ControlResCr10,
            56 => Tag::NmsVbxAdPcm,
            57 => Tag::CsImaAdPcm,
            58 => Tag::EchoSc3,
            59 => Tag::RockwellAdPcm,
            60 => Tag::RockwellDigitalk,
            61 => Tag::Xebec,
            64 => Tag::G721AdPcm,
            65 => Tag::G728Celp,
            66 => Tag::Msg723,
            67 => Tag::IntelG7231,
            68 => Tag::IntelG729,
            69 => Tag::SharpG726,
            80 => Tag::Mpeg,
            82 => Tag::Rt24,
            83 => Tag::Pac,
            85 => Tag::MpegLayer3,
            89 => Tag::LucentG723,
            96 => Tag::Cirrus,
            97 => Tag::EsPcm,
            98 => Tag::Voxware,
            99 => Tag::CanopusAtrac,
            100 => Tag::G726AdPcm,
            101 => Tag::G722AdPcm,
            102 => Tag::Dsat,
            103 => Tag::DsatDisplay,
            105 => Tag::VoxwareByteAligned,
            112 => Tag::VoxwareAc8,
            113 => Tag::VoxwareAc10,
            114 => Tag::VoxwareAc16,
            115 => Tag::VoxwareAc20,
            116 => Tag::VoxwareRt24,
            117 => Tag::VoxwareRt29,
            118 => Tag::VoxwareRt29HW,
            119 => Tag::VoxwareVr12,
            120 => Tag::VoxwareVr18,
            121 => Tag::VoxwareTq40,
            122 => Tag::VoxwareSc3,
            123 => Tag::VoxwareSc31,
            128 => Tag::Softsound,
            129 => Tag::VoxwareTq60,
            130 => Tag::Msrt24,
            131 => Tag::G729A,
            132 => Tag::Mvi2,
            133 => Tag::DfG726,
            134 => Tag::DfGsm610,
            136 => Tag::IsiAudio,
            137 => Tag::OnLive,
            138 => Tag::MultitudeFtSx20,
            139 => Tag::InfocomItsG721AdPcm,
            140 => Tag::ConvediaG729,
            141 => Tag::Congruency,
            145 => Tag::Sbc24,
            146 => Tag::DolbyAc3Spdif,
            147 => Tag::MediasonicG723,
            148 => Tag::Prosody8Kbps,
            151 => Tag::ZyxelAdPcm,
            152 => Tag::PhilipsLpcbb,
            153 => Tag::Packed,
            160 => Tag::MaldenPhonytalk,
            161 => Tag::RacalRecorderGsm,
            162 => Tag::RacalRecorderG720A,
            163 => Tag::RacalRecorderG7231,
            164 => Tag::RacalRecorderTetraAcelp,
            176 => Tag::NecAac,
            255 => Tag::RawAac1,
            256 => Tag::RhetorexAdPcm,
            257 => Tag::Irat,
            273 => Tag::VivoG723,
            274 => Tag::VivoSiren,
            288 => Tag::PhilipsCelp,
            289 => Tag::PhilipsGrundig,
            291 => Tag::DigitalG723,
            293 => Tag::SanyoLdAdPcm,
            304 => Tag::SiprolabAceplnet,
            305 => Tag::SiprolabAcelp4800,
            306 => Tag::SiprolabAcelp8V3,
            307 => Tag::SiprolabG729,
            308 => Tag::SiprolabG729A,
            309 => Tag::SiprolabKelvin,
            310 => Tag::VoiceageAmr,
            320 => Tag::G726Adpcm,
            321 => Tag::DictaphoneCelp68,
            322 => Tag::DictaphoneCelp54,
            336 => Tag::QualcommPurevoice,
            337 => Tag::QualcommHalfrate,
            341 => Tag::Tubgsm,
            352 => Tag::Msaudio1,
            353 => Tag::Wmaudio2,
            354 => Tag::Wmaudio3,
            355 => Tag::WmaudioLossless,
            356 => Tag::Wmaspdif,
            368 => Tag::UnisysNapAdPcm,
            369 => Tag::UnisysNapUlaw,
            370 => Tag::UnisysNapAlaw,
            371 => Tag::UnisysNap16K,
            372 => Tag::SycomAcmSyc008,
            373 => Tag::SycomAcmSyc701G726L,
            374 => Tag::SycomAcmSyc701Celp54,
            375 => Tag::SycomAcmSyc701Celp68,
            376 => Tag::KnowledgeAdventureAdPcm,
            384 => Tag::FraunhoferIisMpeg2Aac,
            400 => Tag::DtsDs,
            512 => Tag::CreativeAdPcm,
            514 => Tag::CreativeFastspeech8,
            515 => Tag::CreativeFastspeech10,
            528 => Tag::UherAdPcm,
            533 => Tag::UleadDvAudio,
            534 => Tag::UleadDvAudio1,
            544 => Tag::Quarterdeck,
            560 => Tag::IlinkVc,
            576 => Tag::RawSport,
            577 => Tag::EsstAc3,
            585 => Tag::GenericPassthru,
            592 => Tag::IpiHsx,
            593 => Tag::IpiRpelp,
            608 => Tag::Cs2,
            624 => Tag::SonyScx,
            625 => Tag::SonyScy,
            626 => Tag::SonyAtrac3,
            627 => Tag::SonySpc,
            640 => Tag::TelumAudio,
            641 => Tag::TelumIaAudio,
            645 => Tag::NorcomVoiceSystemsAdPcm,
            768 => Tag::FmTownsSnd,
            848 => Tag::Micronas,
            849 => Tag::MicronasCelp833,
            1024 => Tag::BtvDigital,
            1025 => Tag::IntelMusicCoder,
            1026 => Tag::IndeoAudio,
            1104 => Tag::QdesignMusic,
            1280 => Tag::On2Vp7Audio,
            1281 => Tag::On2Vp6Audio,
            1664 => Tag::VmeVmpcm,
            1665 => Tag::Tpc,
            2222 => Tag::LightwaveLossless,
            4096 => Tag::Oligsm,
            4097 => Tag::Oliadpcm,
            4098 => Tag::Olicelp,
            4099 => Tag::Olisbc,
            4100 => Tag::Oliopr,
            4352 => Tag::LhCodec,
            4353 => Tag::LhCodecCelp,
            4354 => Tag::LhCodecSbc8,
            4355 => Tag::LhCodecSbc12,
            4356 => Tag::LhCodecSbc16,
            5120 => Tag::Norris,
            5121 => Tag::Isiaudio2,
            5376 => Tag::SoundspaceMusicompress,
            5632 => Tag::MpegAdtsAac,
            5633 => Tag::MpegRawAac,
            5634 => Tag::MpegLoas,
            5640 => Tag::NokiaMpegAdtsAac,
            5641 => Tag::NokiaMpegRawAac,
            5642 => Tag::VodafoneMpegAdtsAac,
            5643 => Tag::VodafoneMpegRawAac,
            5648 => Tag::MpegHeaac,
            6172 => Tag::Voxwarert24Speech,
            6513 => Tag::SonicfoundryLossless,
            6521 => Tag::InningsTelecomAdPcm,
            7175 => Tag::LucentSx8300P,
            7180 => Tag::LucentSx5363S,
            7939 => Tag::Cuseeme,
            8132 => Tag::NtcsoftAlf2CmAcm,
            8192 => Tag::Dvm,
            8193 => Tag::Dts2,
            13075 => Tag::Makeavis,
            16707 => Tag::DivioMpeg4Aac,
            16897 => Tag::NokiaAdaptiveMultirate,
            16963 => Tag::DivioG726,
            17228 => Tag::LeadSpeech,
            22092 => Tag::LeadVorbis,
            22358 => Tag::WavpackAudio,
            27745 => Tag::Alac,
            26447 => Tag::OggVorbisMode1,
            26448 => Tag::OggVorbisMode2,
            26449 => Tag::OggVorbisMode3,
            26479 => Tag::OggVorbisMode1Plus,
            26480 => Tag::OggVorbisMode2Plus,
            26481 => Tag::OggVorbisMode3Plus,
            28672 => Tag::ThreeComNbx,
            28751 => Tag::Opus,
            28781 => Tag::FaadAac,
            29537 => Tag::AmrNb,
            29538 => Tag::AmrWb,
            29539 => Tag::AmrWp,
            31265 => Tag::GsmAmrCbr,
            31266 => Tag::GsmAmrVbrSid,
            41216 => Tag::ComverseInfosysG7231,
            41217 => Tag::ComverseInfosysAvqsbc,
            41218 => Tag::ComverseInfosysSbc,
            41219 => Tag::SymbolG729A,
            41220 => Tag::VoiceageAmrWb,
            41221 => Tag::IngenientG726,
            41222 => Tag::Mpeg4Aac,
            41223 => Tag::EncoreG726,
            41224 => Tag::ZollAsao,
            41225 => Tag::SpeexVoice,
            41226 => Tag::VianixMasc,
            41227 => Tag::Wm9SpectrumAnalyzer,
            41228 => Tag::WmfSpectrumAnayzer,
            41229 => Tag::Gsm610,
            41230 => Tag::Gsm620,
            41231 => Tag::Gsm660,
            41232 => Tag::Gsm690,
            41233 => Tag::GsmAdaptiveMultirateWb,
            41234 => Tag::PolycomG722,
            41235 => Tag::PolycomG728,
            41236 => Tag::PolycomG729A,
            41237 => Tag::PolycomSiren,
            41238 => Tag::GlobalIpIlbc,
            41239 => Tag::RadiotimeTimeShiftRadio,
            41240 => Tag::NiceAca,
            41241 => Tag::NiceAdPcm,
            41242 => Tag::VocordG721,
            41243 => Tag::VocordG726,
            41244 => Tag::VocordG7221,
            41245 => Tag::VocordG728,
            41246 => Tag::VocordG729,
            41247 => Tag::VocordG729A,
            41248 => Tag::VocordG7231,
            41249 => Tag::VocordLbc,
            41250 => Tag::NiceG728,
            41251 => Tag::FraceTelecomG729,
            41252 => Tag::Codian,
            61868 => Tag::Flac,
            _ => Tag::Pcm,
        }
    }

    /// The tag that a 16-bit number of a format record names.
    /// A number that names nothing is handed back as the error.
    pub fn try_from(value: u16) -> (r: Result<Tag, u16>)
        ensures
            r == (match Self::spec_try_from(value) {
                Some(x) => Ok::<Tag, u16>(x),
                None => Err::<Tag, u16>(value),
            }),
    {
        let found = Self::lookup(value);
        if found.code() == value {
            Ok(found)
        } else {
            Err(value)
        }
    }

    /// Reading a member's number back gives the same member.
    pub proof fn lemma_code_round_trip(self)
        ensures
            Self::spec_try_from(self.spec_code()) == Some(self),
    {
        reveal(Tag::listed);
    }

    /// A number that names a member is that member's own number.
    pub proof fn lemma_try_from_is_exact(value: u16)
        ensures
            Self::spec_try_from(value) matches Some(x) ==> x.spec_code() == value,
    {
    }
}

} // verus!
