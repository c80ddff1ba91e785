//! Manufacturer identifiers of device drivers.
use vstd::prelude::*;

verus! {

/// Manufacturer for the device driver for a device.
#[derive(Clone, Copy, Debug, PartialEq, Eq, Structural)]
pub enum Manufacturer {
    /// Advanced Gravis Computer Technology, Ltd.
    Gravis,
    /// Antex Electronics Corporation.
    Antex,
    /// APPS Software.
    Apps,
    /// Artisoft, Inc.
    Artisoft,
    /// AST Research, Inc.
    Ast,
    /// ATI Technologies, Inc.
    Ati,
    /// Audio, Inc.
    AudioFile,
    /// Audio Processing Technology.
    Apt,
    /// Audio Processing Technology.
    AudioPt,
    /// Auravision Corporation.
    AuraVision,
    /// Aztech Labs, Inc.
    Aztech,
    /// Canopus, Co., Ltd.
    Canopus,
    /// Compusic.
    Compusic,
    /// Computer Aided Technology, Inc.
    Cat,
    /// Computer Friends, Inc.
    ComputerFriends,
    /// Control Resources Corporation.
    ControlRes,
    /// Creative Labs, Inc.
    Creative,
    /// Dialogic Corporation.
    Dialogic,
    /// Dolby Laboratories, Inc.
    Dolby,
    /// DSP Group, Inc.
    DspGroup,
    /// DSP Solutions, Inc.
    DspSolutions,
    /// Echo Speech Corporation.
    Echo,
    /// ESS Technology, Inc.
    Ess,
    /// Everex Systems, Inc.
    Everex,
    /// EXAN, Ltd.
    Exan,
    /// Fujitsu, Ltd.
    Fujitsu,
    /// I/O Magic Corporation.
    IoMagic,
    /// ICL Personal Systems.
    IclPs,
    /// Ing. C. Olivetti & C., S.p.A.
    Olivetti,
    /// Integrated Circuit Systems, Inc.
    Ics,
    /// Intel Corporation.
    Intel,
    /// InterActive, Inc.
    Interactive,
    /// International Business Machines.
    Ibm,
    /// Iterated Systems, Inc.
    IteratedSys,
    /// Logitech, Inc.
    Logitech,
    /// Lyrrus, Inc.
    Lyrrus,
    /// Matsushita Electric Corporation of America.
    Matsushita,
    /// Media Vision, Inc.
    MediaVision,
    /// Metheus Corporation.
    Metheus,
    /// microEngineering Labs.
    MeLabs,
    /// Microsoft Corporation.
    Microsoft,
    /// MOSCOM Corporation.
    Moscom,
    /// Motorola, Inc.
    Motorola,
    /// Natural MicroSystems Corporation.
    Nms,
    /// NCR Corporation.
    Ncr,
    /// NEC Corporation.
    Nec,
    /// New Media Corporation.
    NewMedia,
    /// OKI.
    Oki,
    /// OPTi, Inc.
    Opti,
    /// Roland Corporation.
    Roland,
    /// SCALACS.
    Scalacs,
    /// Seiko Epson Corporation, Inc.
    Epson,
    /// Sierra Semiconductor Corporation.
    Sierra,
    /// Silicon Software, Inc.
    SiliconSoft,
    /// Sonic Foundry.
    SonicFoundry,
    /// Speech Compression.
    SpeechComp,
    /// Supermac Technology, Inc.
    Supermac,
    /// Tandy Corporation.
    Tandy,
    /// Toshihiko Okuhura, Korg, Inc.
    Korg,
    /// Truevision, Inc.
    Truevision,
    /// Turtle Beach Systems.
    TurtleBeach,
    /// Video Associates Labs, Inc.
    Val,
    /// VideoLogic, Inc.
    VideoLogic,
    /// Visual Information Technologies, Inc.
    Vitec,
    /// VocalTec, Inc.
    VocalTec,
    /// Voyetra Technologies.
    Voyetra,
    /// Wang Laboratories.
    WangLabs,
    /// Willow Pond Corporation.
    WillowPond,
    /// Winnov, LP.
    Winnov,
    /// Xebec Multimedia Solutions Limitedv.
    Xebec,
    /// Yamaha Corporation of America.
    Yamaha,
}

impl Manufacturer {
    /// The 16-bit identifier of this manufacturer.
    pub open spec fn spec_code(self) -> u16 {
        match self {
            Manufacturer::Gravis => 34,
            Manufacturer::Antex => 31,
            Manufacturer::Apps => 42,
            Manufacturer::Artisoft => 20,
            Manufacturer::Ast => 64,
            Manufacturer::Ati => 27,
            Manufacturer::AudioFile => 47,
            Manufacturer::Apt => 56,
            Manufacturer::AudioPt => 74,
            Manufacturer::AuraVision => 80,
            Manufacturer::Aztech => 52,
            Manufacturer::Canopus => 49,
            Manufacturer::Compusic => 89,
            Manufacturer::Cat => 41,
            Manufacturer::ComputerFriends => 45,
            Manufacturer::ControlRes => 84,
            Manufacturer::Creative => 2,
            Manufacturer::Dialogic => 93,
            Manufacturer::Dolby => 78,
            Manufacturer::DspGroup => 43,
            Manufacturer::DspSolutions => 25,
            Manufacturer::Echo => 39,
            Manufacturer::Ess => 46,
            Manufacturer::Everex => 38,
            Manufacturer::Exan => 63,
            Manufacturer::Fujitsu => 4,
            Manufacturer::IoMagic => 82,
            Manufacturer::IclPs => 32,
            Manufacturer::Olivetti => 81,
            Manufacturer::Ics => 57,
            Manufacturer::Intel => 33,
            Manufacturer::Interactive => 36,
            Manufacturer::Ibm => 22,
            Manufacturer::IteratedSys => 58,
            Manufacturer::Logitech => 60,
            Manufacturer::Lyrrus => 88,
            Manufacturer::Matsushita => 83,
            Manufacturer::MediaVision => 3,
            Manufacturer::Metheus => 59,
            Manufacturer::MeLabs => 44,
            Manufacturer::Microsoft => 1,
            Manufacturer::Moscom => 68,
            Manufacturer::Motorola => 48,
            Manufacturer::Nms => 87,
            Manufacturer::Ncr => 62,
            Manufacturer::Nec => 26,
            Manufacturer::NewMedia => 86,
            Manufacturer::Oki => 79,
            Manufacturer::Opti => 90,
            Manufacturer::Roland => 24,
            Manufacturer::Scalacs => 54,
            Manufacturer::Epson => 50,
            Manufacturer::Sierra => 40,
            Manufacturer::SiliconSoft => 69,
            Manufacturer::SonicFoundry => 66,
            Manufacturer::SpeechComp => 76,
            Manufacturer::Supermac => 73,
            Manufacturer::Tandy => 29,
            Manufacturer::Korg => 55,
            Manufacturer::Truevision => 51,
            Manufacturer::TurtleBeach => 21,
            Manufacturer::Val => 35,
            Manufacturer::VideoLogic => 53,
            Manufacturer::Vitec => 67,
            Manufacturer::VocalTec => 23,
            Manufacturer::Voyetra => 30,
            Manufacturer::WangLabs => 28,
            Manufacturer::WillowPond => 65,
            Manufacturer::Winnov => 61,
            Manufacturer::Xebec => 85,
            Manufacturer::Yamaha => 37,
        }
    }

    /// The member listed under a number; the first member where none is listed.
    #[verifier::opaque]
    pub open spec fn listed(value: u16) -> Manufacturer {
        match value {
            31 => Manufacturer::Antex,
            42 => Manufacturer::Apps,
            20 => Manufacturer::Artisoft,
            64 => Manufacturer::Ast,
            27 => Manufacturer::Ati,
            47 => Manufacturer::AudioFile,
            56 => Manufacturer::Apt,
            74 => Manufacturer::AudioPt,
            80 => Manufacturer::AuraVision,
            52 => Manufacturer::Aztech,
            49 => Manufacturer::Canopus,
            89 => Manufacturer::Compusic,
            41 => Manufacturer::Cat,
            45 => Manufacturer::ComputerFriends,
            84 => Manufacturer::ControlRes,
            2 => Manufacturer::Creative,
            93 => Manufacturer::Dialogic,
            78 => Manufacturer::Dolby,
            43 => Manufacturer::DspGroup,
            25 => Manufacturer::DspSolutions,
            39 => Manufacturer::Echo,
            46 => Manufacturer::Ess,
            38 => Manufacturer::Everex,
            63 => Manufacturer::Exan,
            4 => Manufacturer::Fujitsu,
            82 => Manufacturer::IoMagic,
            32 => Manufacturer::IclPs,
            81 => Manufacturer::Olivetti,
            57 => Manufacturer::Ics,
            33 => Manufacturer::Intel,
            36 => Manufacturer::Interactive,
            22 => Manufacturer::Ibm,
            58 => Manufacturer::IteratedSys,
            60 => Manufacturer::Logitech,
            88 => Manufacturer::Lyrrus,
            83 => Manufacturer::Matsushita,
            3 => Manufacturer::MediaVision,
            59 => Manufacturer::Metheus,
            44 => Manufacturer::MeLabs,
            1 => Manufacturer::Microsoft,
            68 => Manufacturer::Moscom,
            48 => Manufacturer::Motorola,
            87 => Manufacturer::Nms,
            62 => Manufacturer::Ncr,
            26 => Manufacturer::Nec,
            86 => Manufacturer::NewMedia,
            79 => Manufacturer::Oki,
            90 => Manufacturer::Opti,
            24 => Manufacturer::Roland,
            54 => Manufacturer::Scalacs,
            50 => Manufacturer::Epson,
            40 => Manufacturer::Sierra,
            69 => Manufacturer::SiliconSoft,
            66 => Manufacturer::SonicFoundry,
            76 => Manufacturer::SpeechComp,
            73 => Manufacturer::Supermac,
            29 => Manufacturer::Tandy,
            55 => Manufacturer::Korg,
            51 => Manufacturer::Truevision,
            21 => Manufacturer::TurtleBeach,
            35 => Manufacturer::Val,
            53 => Manufacturer::VideoLogic,
            67 => Manufacturer::Vitec,
            23 => Manufacturer::VocalTec,
            30 => Manufacturer::Voyetra,
            28 => Manufacturer::WangLabs,
            65 => Manufacturer::WillowPond,
            61 => Manufacturer::Winnov,
            85 => Manufacturer::Xebec,
            37 => Manufacturer::Yamaha,
            _ => Manufacturer::Gravis,
        }
    }

    /// The manufacturer that a 16-bit identifier names.
    pub open spec fn spec_try_from(value: u16) -> Option<Manufacturer> {
        if Self::listed(value).spec_code() == value {
            Some(Self::listed(value))
        } else {
            None
        }
    }

    /// The 16-bit identifier of this manufacturer.
    #[verifier::when_used_as_spec(spec_code)]
    pub fn code(self) -> (r: u16)
        ensures
            r == self.spec_code(),
    {
        match self {
            Manufacturer::Gravis => 34,
            Manufacturer::Antex => 31,
            Manufacturer::Apps => 42,
            Manufacturer::Artisoft => 20,
            Manufacturer::Ast => 64,
            Manufacturer::Ati => 27,
            Manufacturer::AudioFile => 47,
            Manufacturer::Apt => 56,
            Manufacturer::AudioPt => 74,
            Manufacturer::AuraVision => 80,
            Manufacturer::Aztech => 52,
            Manufacturer::Canopus => 49,
            Manufacturer::Compusic => 89,
            Manufacturer::Cat => 41,
            Manufacturer::ComputerFriends => 45,
            Manufacturer::ControlRes => 84,
            Manufacturer::Creative => 2,
            Manufacturer::Dialogic => 93,
            Manufacturer::Dolby => 78,
            Manufacturer::DspGroup => 43,
            Manufacturer::DspSolutions => 25,
            Manufacturer::Echo => 39,
            Manufacturer::Ess => 46,
            Manufacturer::Everex => 38,
            Manufacturer::Exan => 63,
            Manufacturer::Fujitsu => 4,
            Manufacturer::IoMagic => 82,
            Manufacturer::IclPs => 32,
            Manufacturer::Olivetti => 81,
            Manufacturer::Ics => 57,
            Manufacturer::Intel => 33,
            Manufacturer::Interactive => 36,
            Manufacturer::Ibm => 22,
            Manufacturer::IteratedSys => 58,
            Manufacturer::Logitech => 60,
            Manufacturer::Lyrrus => 88,
            Manufacturer::Matsushita => 83,
            Manufacturer::MediaVision => 3,
            Manufacturer::Metheus => 59,
            Manufacturer::MeLabs => 44,
            Manufacturer::Microsoft => 1,
            Manufacturer::Moscom => 68,
            Manufacturer::Motorola => 48,
            Manufacturer::Nms => 87,
            Manufacturer::Ncr => 62,
            Manufacturer::Nec => 26,
            Manufacturer::NewMedia => 86,
            Manufacturer::Oki => 79,
            Manufacturer::Opti => 90,
            Manufacturer::Roland => 24,
            Manufacturer::Scalacs => 54,
            Manufacturer::Epson => 50,
            Manufacturer::Sierra => 40,
            Manufacturer::SiliconSoft => 69,
            Manufacturer::SonicFoundry => 66,
            Manufacturer::SpeechComp => 76,
            Manufacturer::Supermac => 73,
            Manufacturer::Tandy => 29,
            Manufacturer::Korg => 55,
            Manufacturer::Truevision => 51,
            Manufacturer::TurtleBeach => 21,
            Manufacturer::Val => 35,
            Manufacturer::VideoLogic => 53,
            Manufacturer::Vitec => 67,
            Manufacturer::VocalTec => 23,
            Manufacturer::Voyetra => 30,
            Manufacturer::WangLabs => 28,
            Manufacturer::WillowPond => 65,
            Manufacturer::Winnov => 61,
            Manufacturer::Xebec => 85,
            Manufacturer::Yamaha => 37,
        }
    }

    /// The member listed under a number; the first member where none is listed.
    fn lookup(value: u16) -> (r: Manufacturer)
        ensures
            r == Self::listed(value),
    {
        reveal(Manufacturer::listed);
        match value {
            31 => Manufacturer::Antex,
            42 => Manufacturer::Apps,
            20 => Manufacturer::Artisoft,
            64 => Manufacturer::Ast,
            27 => Manufacturer::Ati,
            47 => Manufacturer::AudioFile,
            56 => Manufacturer::Apt,
            74 => Manufacturer::AudioPt,
            80 => Manufacturer::AuraVision,
            52 => Manufacturer::Aztech,
            49 => Manufacturer::Canopus,
            89 => Manufacturer::Compusic,
            41 => Manufacturer::Cat,
            45 => Manufacturer::ComputerFriends,
            84 => Manufacturer::ControlRes,
            2 => Manufacturer::Creative,
            93 => Manufacturer::Dialogic,
            78 => Manufacturer::Dolby,
            43 => Manufacturer::DspGroup,
            25 => Manufacturer::DspSolutions,
            39 => Manufacturer::Echo,
            46 => Manufacturer::Ess,
            38 => Manufacturer::Everex,
            63 => Manufacturer::Exan,
            4 => Manufacturer::Fujitsu,
            82 => Manufacturer::IoMagic,
            32 => Manufacturer::IclPs,
            81 => Manufacturer::Olivetti,
            57 => Manufacturer::Ics,
            33 => Manufacturer::Intel,
            36 => Manufacturer::Interactive,
            22 => Manufacturer::Ibm,
            58 => Manufacturer::IteratedSys,
            60 => Manufacturer::Logitech,
            88 => Manufacturer::Lyrrus,
            83 => Manufacturer::Matsushita,
            3 => Manufacturer::MediaVision,
            59 => Manufacturer::Metheus,
            44 => Manufacturer::MeLabs,
            1 => Manufacturer::Microsoft,
            68 => Manufacturer::Moscom,
            48 => Manufacturer::Motorola,
            87 => Manufacturer::Nms,
            62 => Manufacturer::Ncr,
            26 => Manufacturer::Nec,
            86 => Manufacturer::NewMedia,
            79 => Manufacturer::Oki,
            90 => Manufacturer::Opti,
            24 => Manufacturer::Roland,
            54 => Manufacturer::Scalacs,
            50 => Manufacturer::Epson,
            40 => Manufacturer::Sierra,
            69 => Manufacturer::SiliconSoft,
            66 => Manufacturer::SonicFoundry,
            76 => Manufacturer::SpeechComp,
            73 => Manufacturer::Supermac,
            29 => Manufacturer::Tandy,
            55 => Manufacturer::Korg,
            51 => Manufacturer::Truevision,
            21 => Manufacturer::TurtleBeach,
            35 => Manufacturer::Val,
            53 => Manufacturer::VideoLogic,
            67 => Manufacturer::Vitec,
            23 => Manufacturer::VocalTec,
            30 => Manufacturer::Voyetra,
            28 => Manufacturer::WangLabs,
            65 => Manufacturer::WillowPond,
            61 => Manufacturer::Winnov,
            85 => Manufacturer::Xebec,
            37 => Manufacturer::Yamaha,
            _ => Manufacturer::Gravis,
        }
    }

    /// The manufacturer that a 16-bit identifier names.
    /// A number that names nothing is handed back as the error.
    pub fn try_from(value: u16) -> (r: Result<Manufacturer, u16>)
        ensures
            r == (match Self::spec_try_from(value) {
                Some(x) => Ok::<Manufacturer, u16>(x),
                None => Err::<Manufacturer, u16>(value),
            }),
    {
        let found = Self::lookup(value);
        if found.code() == value {
            Ok(found)
        } else {
            Err(value)
        }
    }

    /// Reading a member's number back gives the same member.
    pub proof fn lemma_code_round_trip(self)
        ensures
            Self::spec_try_from(self.spec_code()) == Some(self),
    {
        reveal(Manufacturer::listed);
    }

    /// A number that names a member is that member's own number.
    pub proof fn lemma_try_from_is_exact(value: u16)
        ensures
            Self::spec_try_from(value) matches Some(x) ==> x.spec_code() == value,
    {
    }
}

} // verus!
