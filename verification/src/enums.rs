//! The closed enumerations of the metadata model: scan errors, the frame
//! header fields decoded from 1-2 bit groups, and the legacy genre vocabulary.

use vstd::prelude::*;

verus! {

/// The errors a scan can surface to its caller.
#[derive(Copy, Clone, Debug, Eq, PartialEq, Structural)]
pub enum Error {
    /// An I/O failure while opening or reading a source; never produced by
    /// the in-memory scan itself.
    FileError,
    /// The scan finished without recognizing a single MPEG frame.
    NotMP3,
    /// Reserved for a stream with no recognizable container at all.
    NoHeader,
    /// A second legacy fixed tag was met in one buffer.
    DuplicatedIDV3,
    /// The end-of-scan consistency check failed.
    InvalidData,
}

impl Error {
    /// A human-readable description of the error.
    pub fn description(&self) -> (r: &'static str)
        ensures
            r@ == error_text(*self),
    {
        match *self {
            Error::FileError => "An I/O error occurred",
            Error::NotMP3 => "The file is not a valid MP3 file",
            Error::NoHeader => "The file is missing an MP3 header",
            Error::DuplicatedIDV3 => "The MP3 file contains a duplicate IDv3 frame",
            Error::InvalidData => "The MP3 metadata is invalid",
        }
    }
}

/// The description text belonging to each error.
pub open spec fn error_text(e: Error) -> Seq<char> {
    match e {
        Error::FileError => "An I/O error occurred"@,
        Error::NotMP3 => "The file is not a valid MP3 file"@,
        Error::NoHeader => "The file is missing an MP3 header"@,
        Error::DuplicatedIDV3 => "The MP3 file contains a duplicate IDv3 frame"@,
        Error::InvalidData => "The MP3 metadata is invalid"@,
    }
}

/// The MPEG audio version of a frame.
#[allow(non_camel_case_types)]
#[derive(Copy, Clone, Debug, Eq, PartialEq, Structural)]
pub enum Version {
    Reserved,
    MPEG1,
    MPEG2,
    MPEG2_5,
    Unknown,
}

impl Default for Version {
    /// The conservative member of the enumeration.
    fn default() -> (r: Self)
        ensures
            r == Version::Unknown,
    {
        Version::Unknown
    }
}

/// The member encoded by the 2-bit group `c` of a frame header.
pub open spec fn version_of_bits(c: u32) -> Version {
    if c == 0x00 { Version::MPEG2_5 } else
    if c == 0x01 { Version::Reserved } else
    if c == 0x02 { Version::MPEG2 } else
    { Version::MPEG1 }
}

impl Version {
    /// Decodes the 2-bit group `c` of a frame header.
    pub fn from_code(c: u32) -> (r: Self)
        requires
            c < 4,
        ensures
            r == version_of_bits(c),
    {
        if c == 0x00 { Version::MPEG2_5 } else
        if c == 0x01 { Version::Reserved } else
        if c == 0x02 { Version::MPEG2 } else
        { Version::MPEG1 }
    }
}

/// The MPEG audio layer of a frame.
#[derive(Copy, Clone, Debug, Eq, PartialEq, Structural)]
pub enum Layer {
    Reserved,
    Layer1,
    Layer2,
    Layer3,
    Unknown,
}

impl Default for Layer {
    /// The conservative member of the enumeration.
    fn default() -> (r: Self)
        ensures
            r == Layer::Unknown,
    {
        Layer::Unknown
    }
}

/// The member encoded by the 2-bit group `c` of a frame header.
pub open spec fn layer_of_bits(c: u32) -> Layer {
    if c == 0x0 { Layer::Reserved } else
    if c == 0x1 { Layer::Layer3 } else
    if c == 0x2 { Layer::Layer2 } else
    { Layer::Layer1 }
}

impl Layer {
    /// Decodes the 2-bit group `c` of a frame header.
    pub fn from_code(c: u32) -> (r: Self)
        requires
            c < 4,
        ensures
            r == layer_of_bits(c),
    {
        if c == 0x0 { Layer::Reserved } else
        if c == 0x1 { Layer::Layer3 } else
        if c == 0x2 { Layer::Layer2 } else
        { Layer::Layer1 }
    }
}

/// Whether a frame carries a cyclic redundancy check.
#[derive(Copy, Clone, Debug, Eq, PartialEq, Structural)]
pub enum CRC {
    /// Redundancy added.
    Added,
    /// Redundancy not added.
    NotAdded,
}

impl Default for CRC {
    /// The conservative member of the enumeration.
    fn default() -> (r: Self)
        ensures
            r == CRC::NotAdded,
    {
        CRC::NotAdded
    }
}

/// The member encoded by the 1-bit group `c` of a frame header.
pub open spec fn crc_of_bits(c: u32) -> CRC {
    if c == 0x00 { CRC::Added } else
    { CRC::NotAdded }
}

impl CRC {
    /// Decodes the 1-bit group `c` of a frame header.
    pub fn from_code(c: u32) -> (r: Self)
        requires
            c < 2,
        ensures
            r == crc_of_bits(c),
    {
        if c == 0x00 { CRC::Added } else
        { CRC::NotAdded }
    }
}

/// The channel mode of a frame.
#[derive(Copy, Clone, Debug, Eq, PartialEq, Structural)]
pub enum ChannelType {
    Stereo,
    JointStereo,
    DualChannel,
    SingleChannel,
    Unknown,
}

impl Default for ChannelType {
    /// The conservative member of the enumeration.
    fn default() -> (r: Self)
        ensures
            r == ChannelType::Unknown,
    {
        ChannelType::Unknown
    }
}

/// The member encoded by the 2-bit group `c` of a frame header.
pub open spec fn channeltype_of_bits(c: u32) -> ChannelType {
    if c == 0x0 { ChannelType::Stereo } else
    if c == 0x1 { ChannelType::JointStereo } else
    if c == 0x2 { ChannelType::DualChannel } else
    { ChannelType::SingleChannel }
}

impl ChannelType {
    /// Decodes the 2-bit group `c` of a frame header.
    pub fn from_code(c: u32) -> (r: Self)
        requires
            c < 4,
        ensures
            r == channeltype_of_bits(c),
    {
        if c == 0x0 { ChannelType::Stereo } else
        if c == 0x1 { ChannelType::JointStereo } else
        if c == 0x2 { ChannelType::DualChannel } else
        { ChannelType::SingleChannel }
    }
}

/// The copyright flag of a frame.
#[derive(Copy, Clone, Debug, Eq, PartialEq, Structural)]
pub enum Copyright {
    /// No copyright claimed.
    Absent,
    /// Copyright claimed.
    Present,
}

impl Default for Copyright {
    /// The conservative member of the enumeration.
    fn default() -> (r: Self)
        ensures
            r == Copyright::Present,
    {
        Copyright::Present
    }
}

/// The member encoded by the 1-bit group `c` of a frame header.
pub open spec fn copyright_of_bits(c: u32) -> Copyright {
    if c == 0x0 { Copyright::Absent } else
    { Copyright::Present }
}

impl Copyright {
    /// Decodes the 1-bit group `c` of a frame header.
    pub fn from_code(c: u32) -> (r: Self)
        requires
            c < 2,
        ensures
            r == copyright_of_bits(c),
    {
        if c == 0x0 { Copyright::Absent } else
        { Copyright::Present }
    }
}

/// Whether a frame belongs to an original or a copy.
#[derive(Copy, Clone, Debug, Eq, PartialEq, Structural)]
pub enum Status {
    Copy,
    Original,
    Unknown,
}

impl Default for Status {
    /// The conservative member of the enumeration.
    fn default() -> (r: Self)
        ensures
            r == Status::Unknown,
    {
        Status::Unknown
    }
}

/// The member encoded by the 1-bit group `c` of a frame header.
pub open spec fn status_of_bits(c: u32) -> Status {
    if c == 0x0 { Status::Copy } else
    { Status::Original }
}

impl Status {
    /// Decodes the 1-bit group `c` of a frame header.
    pub fn from_code(c: u32) -> (r: Self)
        requires
            c < 2,
        ensures
            r == status_of_bits(c),
    {
        if c == 0x0 { Status::Copy } else
        { Status::Original }
    }
}

/// The de-emphasis to apply when playing a frame back.
#[derive(Copy, Clone, Debug, Eq, PartialEq, Structural)]
pub enum Emphasis {
    /// No emphasis
    NoEmphasis,
    /// 50/15 Micro seconds
    MicroSeconds,
    /// Reserved
    Reserved,
    /// CCIT J.17
    CCITT,
    Unknown,
}

impl Default for Emphasis {
    /// The conservative member of the enumeration.
    fn default() -> (r: Self)
        ensures
            r == Emphasis::Unknown,
    {
        Emphasis::Unknown
    }
}

/// The member encoded by the 2-bit group `c` of a frame header.
pub open spec fn emphasis_of_bits(c: u32) -> Emphasis {
    if c == 0x0 { Emphasis::NoEmphasis } else
    if c == 0x1 { Emphasis::MicroSeconds } else
    if c == 0x2 { Emphasis::Reserved } else
    { Emphasis::CCITT }
}

impl Emphasis {
    /// Decodes the 2-bit group `c` of a frame header.
    pub fn from_code(c: u32) -> (r: Self)
        requires
            c < 4,
        ensures
            r == emphasis_of_bits(c),
    {
        if c == 0x0 { Emphasis::NoEmphasis } else
        if c == 0x1 { Emphasis::MicroSeconds } else
        if c == 0x2 { Emphasis::Reserved } else
        { Emphasis::CCITT }
    }
}

/// A music genre: one of the legacy numeric codes, a free-text value, or
/// the unknown sentinel.
#[derive(Clone, Debug, Eq, PartialEq)]
pub enum Genre {
    Blues,
    ClassicRock,
    Country,
    Dance,
    Disco,
    Funk,
    Grunge,
    HipHop,
    Jazz,
    Metal,
    NewAge,
    Oldies,
    Other,
    Pop,
    RAndB,
    Rap,
    Reggae,
    Rock,
    Techno,
    Industrial,
    Alternative,
    Ska,
    DeathMetal,
    Pranks,
    Soundtrack,
    EuroTechno,
    Ambient,
    TripHop,
    Vocal,
    JazzFunk,
    Fusion,
    Trance,
    Classical,
    Instrumental,
    Acid,
    House,
    Game,
    SoundClip,
    Gospel,
    Noise,
    AlternRock,
    Bass,
    Soul,
    Punk,
    Space,
    Meditative,
    InstrumentalPop,
    InstrumentalRock,
    Ethnic,
    Gothic,
    Darkwave,
    TechnoIndustrial,
    Electronic,
    PopFolk,
    Eurodance,
    Dream,
    SouthernRock,
    Comedy,
    Cult,
    Gangsta,
    Top40,
    ChristianRap,
    PopFunk,
    Jungle,
    NativeAmerican,
    Cabaret,
    NewWave,
    Psychadelic,
    Rave,
    Showtunes,
    Trailer,
    LoFi,
    Tribal,
    AcidPunk,
    AcidJazz,
    Polka,
    Retro,
    Musical,
    RockAndRoll,
    HardRock,
    Folk,
    FolkRock,
    NationalFolk,
    Swing,
    FastFusion,
    Bebob,
    Latin,
    Revival,
    Celtic,
    Bluegrass,
    Avantgarde,
    GothicRock,
    ProgressiveRock,
    PsychedelicRock,
    SymphonicRock,
    SlowRock,
    BigBand,
    Chorus,
    EasyListening,
    Acoustic,
    Humour,
    Speech,
    Chanson,
    Opera,
    ChamberMusic,
    Sonata,
    Symphony,
    BootyBrass,
    Primus,
    PornGroove,
    Satire,
    SlowJam,
    Club,
    Tango,
    Samba,
    Folklore,
    Ballad,
    PowerBallad,
    RhytmicSoul,
    Freestyle,
    Duet,
    PunkRock,
    DrumSolo,
    ACapela,
    EuroHouse,
    DanceHall,
    Something(String),
    Unknown,
}

/// The mathematical shape of a genre: the numeric code of a legacy member,
/// the characters of a free-text value, or the unknown sentinel.
pub ghost enum GenreV {
    Code(u8),
    Text(Seq<char>),
    Unknown,
}

impl View for Genre {
    type V = GenreV;

    open spec fn view(&self) -> GenreV {
        match self {
            Genre::Blues => GenreV::Code(0),
            Genre::ClassicRock => GenreV::Code(1),
            Genre::Country => GenreV::Code(2),
            Genre::Dance => GenreV::Code(3),
            Genre::Disco => GenreV::Code(4),
            Genre::Funk => GenreV::Code(5),
            Genre::Grunge => GenreV::Code(6),
            Genre::HipHop => GenreV::Code(7),
            Genre::Jazz => GenreV::Code(8),
            Genre::Metal => GenreV::Code(9),
            Genre::NewAge => GenreV::Code(10),
            Genre::Oldies => GenreV::Code(11),
            Genre::Other => GenreV::Code(12),
            Genre::Pop => GenreV::Code(13),
            Genre::RAndB => GenreV::Code(14),
            Genre::Rap => GenreV::Code(15),
            Genre::Reggae => GenreV::Code(16),
            Genre::Rock => GenreV::Code(17),
            Genre::Techno => GenreV::Code(18),
            Genre::Industrial => GenreV::Code(19),
            Genre::Alternative => GenreV::Code(20),
            Genre::Ska => GenreV::Code(21),
            Genre::DeathMetal => GenreV::Code(22),
            Genre::Pranks => GenreV::Code(23),
            Genre::Soundtrack => GenreV::Code(24),
            Genre::EuroTechno => GenreV::Code(25),
            Genre::Ambient => GenreV::Code(26),
            Genre::TripHop => GenreV::Code(27),
            Genre::Vocal => GenreV::Code(28),
            Genre::JazzFunk => GenreV::Code(29),
            Genre::Fusion => GenreV::Code(30),
            Genre::Trance => GenreV::Code(31),
            Genre::Classical => GenreV::Code(32),
            Genre::Instrumental => GenreV::Code(33),
            Genre::Acid => GenreV::Code(34),
            Genre::House => GenreV::Code(35),
            Genre::Game => GenreV::Code(36),
            Genre::SoundClip => GenreV::Code(37),
            Genre::Gospel => GenreV::Code(38),
            Genre::Noise => GenreV::Code(39),
            Genre::AlternRock => GenreV::Code(40),
            Genre::Bass => GenreV::Code(41),
            Genre::Soul => GenreV::Code(42),
            Genre::Punk => GenreV::Code(43),
            Genre::Space => GenreV::Code(44),
            Genre::Meditative => GenreV::Code(45),
            Genre::InstrumentalPop => GenreV::Code(46),
            Genre::InstrumentalRock => GenreV::Code(47),
            Genre::Ethnic => GenreV::Code(48),
            Genre::Gothic => GenreV::Code(49),
            Genre::Darkwave => GenreV::Code(50),
            Genre::TechnoIndustrial => GenreV::Code(51),
            Genre::Electronic => GenreV::Code(52),
            Genre::PopFolk => GenreV::Code(53),
            Genre::Eurodance => GenreV::Code(54),
            Genre::Dream => GenreV::Code(55),
            Genre::SouthernRock => GenreV::Code(56),
            Genre::Comedy => GenreV::Code(57),
            Genre::Cult => GenreV::Code(58),
            Genre::Gangsta => GenreV::Code(59),
            Genre::Top40 => GenreV::Code(60),
            Genre::ChristianRap => GenreV::Code(61),
            Genre::PopFunk => GenreV::Code(62),
            Genre::Jungle => GenreV::Code(63),
            Genre::NativeAmerican => GenreV::Code(64),
            Genre::Cabaret => GenreV::Code(65),
            Genre::NewWave => GenreV::Code(66),
            Genre::Psychadelic => GenreV::Code(67),
            Genre::Rave => GenreV::Code(68),
            Genre::Showtunes => GenreV::Code(69),
            Genre::Trailer => GenreV::Code(70),
            Genre::LoFi => GenreV::Code(71),
            Genre::Tribal => GenreV::Code(72),
            Genre::AcidPunk => GenreV::Code(73),
            Genre::AcidJazz => GenreV::Code(74),
            Genre::Polka => GenreV::Code(75),
            Genre::Retro => GenreV::Code(76),
            Genre::Musical => GenreV::Code(77),
            Genre::RockAndRoll => GenreV::Code(78),
            Genre::HardRock => GenreV::Code(79),
            Genre::Folk => GenreV::Code(80),
            Genre::FolkRock => GenreV::Code(81),
            Genre::NationalFolk => GenreV::Code(82),
            Genre::Swing => GenreV::Code(83),
            Genre::FastFusion => GenreV::Code(84),
            Genre::Bebob => GenreV::Code(85),
            Genre::Latin => GenreV::Code(86),
            Genre::Revival => GenreV::Code(87),
            Genre::Celtic => GenreV::Code(88),
            Genre::Bluegrass => GenreV::Code(89),
            Genre::Avantgarde => GenreV::Code(90),
            Genre::GothicRock => GenreV::Code(91),
            Genre::ProgressiveRock => GenreV::Code(92),
            Genre::PsychedelicRock => GenreV::Code(93),
            Genre::SymphonicRock => GenreV::Code(94),
            Genre::SlowRock => GenreV::Code(95),
            Genre::BigBand => GenreV::Code(96),
            Genre::Chorus => GenreV::Code(97),
            Genre::EasyListening => GenreV::Code(98),
            Genre::Acoustic => GenreV::Code(99),
            Genre::Humour => GenreV::Code(100),
            Genre::Speech => GenreV::Code(101),
            Genre::Chanson => GenreV::Code(102),
            Genre::Opera => GenreV::Code(103),
            Genre::ChamberMusic => GenreV::Code(104),
            Genre::Sonata => GenreV::Code(105),
            Genre::Symphony => GenreV::Code(106),
            Genre::BootyBrass => GenreV::Code(107),
            Genre::Primus => GenreV::Code(108),
            Genre::PornGroove => GenreV::Code(109),
            Genre::Satire => GenreV::Code(110),
            Genre::SlowJam => GenreV::Code(111),
            Genre::Club => GenreV::Code(112),
            Genre::Tango => GenreV::Code(113),
            Genre::Samba => GenreV::Code(114),
            Genre::Folklore => GenreV::Code(115),
            Genre::Ballad => GenreV::Code(116),
            Genre::PowerBallad => GenreV::Code(117),
            Genre::RhytmicSoul => GenreV::Code(118),
            Genre::Freestyle => GenreV::Code(119),
            Genre::Duet => GenreV::Code(120),
            Genre::PunkRock => GenreV::Code(121),
            Genre::DrumSolo => GenreV::Code(122),
            Genre::ACapela => GenreV::Code(123),
            Genre::EuroHouse => GenreV::Code(124),
            Genre::DanceHall => GenreV::Code(125),
            Genre::Something(s) => GenreV::Text(s@),
            Genre::Unknown => GenreV::Unknown,
        }
    }
}

impl DeepView for Genre {
    type V = GenreV;

    open spec fn deep_view(&self) -> GenreV {
        self.view()
    }
}

/// The genre encoded by the raw byte `c`: the member with that code, or
/// the unknown sentinel for a byte past the closed vocabulary.
pub open spec fn genre_of_code(c: u8) -> GenreV {
    if c <= 125 {
        GenreV::Code(c)
    } else {
        GenreV::Unknown
    }
}

impl Default for Genre {
    /// The unknown sentinel.
    fn default() -> (r: Self)
        ensures
            r == Genre::Unknown,
    {
        Genre::Unknown
    }
}

impl Genre {
    /// Maps a raw genre byte to its member of the closed vocabulary.
    pub fn from_code(c: u8) -> (r: Self)
        ensures
            r@ == genre_of_code(c),
    {
        match c {
            0 => Genre::Blues,
            1 => Genre::ClassicRock,
            2 => Genre::Country,
            3 => Genre::Dance,
            4 => Genre::Disco,
            5 => Genre::Funk,
            6 => Genre::Grunge,
            7 => Genre::HipHop,
            8 => Genre::Jazz,
            9 => Genre::Metal,
            10 => Genre::NewAge,
            11 => Genre::Oldies,
            12 => Genre::Other,
            13 => Genre::Pop,
            14 => Genre::RAndB,
            15 => Genre::Rap,
            16 => Genre::Reggae,
            17 => Genre::Rock,
            18 => Genre::Techno,
            19 => Genre::Industrial,
            20 => Genre::Alternative,
            21 => Genre::Ska,
            22 => Genre::DeathMetal,
            23 => Genre::Pranks,
            24 => Genre::Soundtrack,
            25 => Genre::EuroTechno,
            26 => Genre::Ambient,
            27 => Genre::TripHop,
            28 => Genre::Vocal,
            29 => Genre::JazzFunk,
            30 => Genre::Fusion,
            31 => Genre::Trance,
            32 => Genre::Classical,
            33 => Genre::Instrumental,
            34 => Genre::Acid,
            35 => Genre::House,
            36 => Genre::Game,
            37 => Genre::SoundClip,
            38 => Genre::Gospel,
            39 => Genre::Noise,
            40 => Genre::AlternRock,
            41 => Genre::Bass,
            42 => Genre::Soul,
            43 => Genre::Punk,
            44 => Genre::Space,
            45 => Genre::Meditative,
            46 => Genre::InstrumentalPop,
            47 => Genre::InstrumentalRock,
            48 => Genre::Ethnic,
            49 => Genre::Gothic,
            50 => Genre::Darkwave,
            51 => Genre::TechnoIndustrial,
            52 => Genre::Electronic,
            53 => Genre::PopFolk,
            54 => Genre::Eurodance,
            55 => Genre::Dream,
            56 => Genre::SouthernRock,
            57 => Genre::Comedy,
            58 => Genre::Cult,
            59 => Genre::Gangsta,
            60 => Genre::Top40,
            61 => Genre::ChristianRap,
            62 => Genre::PopFunk,
            63 => Genre::Jungle,
            64 => Genre::NativeAmerican,
            65 => Genre::Cabaret,
            66 => Genre::NewWave,
            67 => Genre::Psychadelic,
            68 => Genre::Rave,
            69 => Genre::Showtunes,
            70 => Genre::Trailer,
            71 => Genre::LoFi,
            72 => Genre::Tribal,
            73 => Genre::AcidPunk,
            74 => Genre::AcidJazz,
            75 => Genre::Polka,
            76 => Genre::Retro,
            77 => Genre::Musical,
            78 => Genre::RockAndRoll,
            79 => Genre::HardRock,
            80 => Genre::Folk,
            81 => Genre::FolkRock,
            82 => Genre::NationalFolk,
            83 => Genre::Swing,
            84 => Genre::FastFusion,
            85 => Genre::Bebob,
            86 => Genre::Latin,
            87 => Genre::Revival,
            88 => Genre::Celtic,
            89 => Genre::Bluegrass,
            90 => Genre::Avantgarde,
            91 => Genre::GothicRock,
            92 => Genre::ProgressiveRock,
            93 => Genre::PsychedelicRock,
            94 => Genre::SymphonicRock,
            95 => Genre::SlowRock,
            96 => Genre::BigBand,
            97 => Genre::Chorus,
            98 => Genre::EasyListening,
            99 => Genre::Acoustic,
            100 => Genre::Humour,
            101 => Genre::Speech,
            102 => Genre::Chanson,
            103 => Genre::Opera,
            104 => Genre::ChamberMusic,
            105 => Genre::Sonata,
            106 => Genre::Symphony,
            107 => Genre::BootyBrass,
            108 => Genre::Primus,
            109 => Genre::PornGroove,
            110 => Genre::Satire,
            111 => Genre::SlowJam,
            112 => Genre::Club,
            113 => Genre::Tango,
            114 => Genre::Samba,
            115 => Genre::Folklore,
            116 => Genre::Ballad,
            117 => Genre::PowerBallad,
            118 => Genre::RhytmicSoul,
            119 => Genre::Freestyle,
            120 => Genre::Duet,
            121 => Genre::PunkRock,
            122 => Genre::DrumSolo,
            123 => Genre::ACapela,
            124 => Genre::EuroHouse,
            125 => Genre::DanceHall,
            _ => Genre::Unknown,
        }
    }

    /// The display text of the genre: its name, or the free-text value.
    pub fn to_string(&self) -> (r: String)
        ensures
            r@ == genre_text(self@),
    {
        match self {
            Genre::Blues => "Blues".to_owned(),
            Genre::ClassicRock => "ClassicRock".to_owned(),
            Genre::Country => "Country".to_owned(),
            Genre::Dance => "Dance".to_owned(),
            Genre::Disco => "Disco".to_owned(),
            Genre::Funk => "Funk".to_owned(),
            Genre::Grunge => "Grunge".to_owned(),
            Genre::HipHop => "HipHop".to_owned(),
            Genre::Jazz => "Jazz".to_owned(),
            Genre::Metal => "Metal".to_owned(),
            Genre::NewAge => "NewAge".to_owned(),
            Genre::Oldies => "Oldies".to_owned(),
            Genre::Other => "Other".to_owned(),
            Genre::Pop => "Pop".to_owned(),
            Genre::RAndB => "RAndB".to_owned(),
            Genre::Rap => "Rap".to_owned(),
            Genre::Reggae => "Reggae".to_owned(),
            Genre::Rock => "Rock".to_owned(),
            Genre::Techno => "Techno".to_owned(),
            Genre::Industrial => "Industrial".to_owned(),
            Genre::Alternative => "Alternative".to_owned(),
            Genre::Ska => "Ska".to_owned(),
            Genre::DeathMetal => "DeathMetal".to_owned(),
            Genre::Pranks => "Pranks".to_owned(),
            Genre::Soundtrack => "Soundtrack".to_owned(),
            Genre::EuroTechno => "EuroTechno".to_owned(),
            Genre::Ambient => "Ambient".to_owned(),
            Genre::TripHop => "TripHop".to_owned(),
            Genre::Vocal => "Vocal".to_owned(),
            Genre::JazzFunk => "JazzFunk".to_owned(),
            Genre::Fusion => "Fusion".to_owned(),
            Genre::Trance => "Trance".to_owned(),
            Genre::Classical => "Classical".to_owned(),
            Genre::Instrumental => "Instrumental".to_owned(),
            Genre::Acid => "Acid".to_owned(),
            Genre::House => "House".to_owned(),
            Genre::Game => "Game".to_owned(),
            Genre::SoundClip => "SoundClip".to_owned(),
            Genre::Gospel => "Gospel".to_owned(),
            Genre::Noise => "Noise".to_owned(),
            Genre::AlternRock => "AlternRock".to_owned(),
            Genre::Bass => "Bass".to_owned(),
            Genre::Soul => "Soul".to_owned(),
            Genre::Punk => "Punk".to_owned(),
            Genre::Space => "Space".to_owned(),
            Genre::Meditative => "Meditative".to_owned(),
            Genre::InstrumentalPop => "InstrumentalPop".to_owned(),
            Genre::InstrumentalRock => "InstrumentalRock".to_owned(),
            Genre::Ethnic => "Ethnic".to_owned(),
            Genre::Gothic => "Gothic".to_owned(),
            Genre::Darkwave => "Darkwave".to_owned(),
            Genre::TechnoIndustrial => "TechnoIndustrial".to_owned(),
            Genre::Electronic => "Electronic".to_owned(),
            Genre::PopFolk => "PopFolk".to_owned(),
            Genre::Eurodance => "Eurodance".to_owned(),
            Genre::Dream => "Dream".to_owned(),
            Genre::SouthernRock => "SouthernRock".to_owned(),
            Genre::Comedy => "Comedy".to_owned(),
            Genre::Cult => "Cult".to_owned(),
            Genre::Gangsta => "Gangsta".to_owned(),
            Genre::Top40 => "Top40".to_owned(),
            Genre::ChristianRap => "ChristianRap".to_owned(),
            Genre::PopFunk => "PopFunk".to_owned(),
            Genre::Jungle => "Jungle".to_owned(),
            Genre::NativeAmerican => "NativeAmerican".to_owned(),
            Genre::Cabaret => "Cabaret".to_owned(),
            Genre::NewWave => "NewWave".to_owned(),
            Genre::Psychadelic => "Psychadelic".to_owned(),
            Genre::Rave => "Rave".to_owned(),
            Genre::Showtunes => "Showtunes".to_owned(),
            Genre::Trailer => "Trailer".to_owned(),
            Genre::LoFi => "LoFi".to_owned(),
            Genre::Tribal => "Tribal".to_owned(),
            Genre::AcidPunk => "AcidPunk".to_owned(),
            Genre::AcidJazz => "AcidJazz".to_owned(),
            Genre::Polka => "Polka".to_owned(),
            Genre::Retro => "Retro".to_owned(),
            Genre::Musical => "Musical".to_owned(),
            Genre::RockAndRoll => "RockAndRoll".to_owned(),
            Genre::HardRock => "HardRock".to_owned(),
            Genre::Folk => "Folk".to_owned(),
            Genre::FolkRock => "FolkRock".to_owned(),
            Genre::NationalFolk => "NationalFolk".to_owned(),
            Genre::Swing => "Swing".to_owned(),
            Genre::FastFusion => "FastFusion".to_owned(),
            Genre::Bebob => "Bebob".to_owned(),
            Genre::Latin => "Latin".to_owned(),
            Genre::Revival => "Revival".to_owned(),
            Genre::Celtic => "Celtic".to_owned(),
            Genre::Bluegrass => "Bluegrass".to_owned(),
            Genre::Avantgarde => "Avantgarde".to_owned(),
            Genre::GothicRock => "GothicRock".to_owned(),
            Genre::ProgressiveRock => "ProgressiveRock".to_owned(),
            Genre::PsychedelicRock => "PsychedelicRock".to_owned(),
            Genre::SymphonicRock => "SymphonicRock".to_owned(),
            Genre::SlowRock => "SlowRock".to_owned(),
            Genre::BigBand => "BigBand".to_owned(),
            Genre::Chorus => "Chorus".to_owned(),
            Genre::EasyListening => "EasyListening".to_owned(),
            Genre::Acoustic => "Acoustic".to_owned(),
            Genre::Humour => "Humour".to_owned(),
            Genre::Speech => "Speech".to_owned(),
            Genre::Chanson => "Chanson".to_owned(),
            Genre::Opera => "Opera".to_owned(),
            Genre::ChamberMusic => "ChamberMusic".to_owned(),
            Genre::Sonata => "Sonata".to_owned(),
            Genre::Symphony => "Symphony".to_owned(),
            Genre::BootyBrass => "BootyBrass".to_owned(),
            Genre::Primus => "Primus".to_owned(),
            Genre::PornGroove => "PornGroove".to_owned(),
            Genre::Satire => "Satire".to_owned(),
            Genre::SlowJam => "SlowJam".to_owned(),
            Genre::Club => "Club".to_owned(),
            Genre::Tango => "Tango".to_owned(),
            Genre::Samba => "Samba".to_owned(),
            Genre::Folklore => "Folklore".to_owned(),
            Genre::Ballad => "Ballad".to_owned(),
            Genre::PowerBallad => "PowerBallad".to_owned(),
            Genre::RhytmicSoul => "RhytmicSoul".to_owned(),
            Genre::Freestyle => "Freestyle".to_owned(),
            Genre::Duet => "Duet".to_owned(),
            Genre::PunkRock => "PunkRock".to_owned(),
            Genre::DrumSolo => "DrumSolo".to_owned(),
            Genre::ACapela => "ACapela".to_owned(),
            Genre::EuroHouse => "EuroHouse".to_owned(),
            Genre::DanceHall => "DanceHall".to_owned(),
            Genre::Something(s) => s.as_str().to_owned(),
            Genre::Unknown => "Unknown".to_owned(),
        }
    }
}

/// The display text belonging to a genre.
pub open spec fn genre_text(g: GenreV) -> Seq<char> {
    match g {
        GenreV::Code(0_u8) => "Blues"@,
        GenreV::Code(1_u8) => "ClassicRock"@,
        GenreV::Code(2_u8) => "Country"@,
        GenreV::Code(3_u8) => "Dance"@,
        GenreV::Code(4_u8) => "Disco"@,
        GenreV::Code(5_u8) => "Funk"@,
        GenreV::Code(6_u8) => "Grunge"@,
        GenreV::Code(7_u8) => "HipHop"@,
        GenreV::Code(8_u8) => "Jazz"@,
        GenreV::Code(9_u8) => "Metal"@,
        GenreV::Code(10_u8) => "NewAge"@,
        GenreV::Code(11_u8) => "Oldies"@,
        GenreV::Code(12_u8) => "Other"@,
        GenreV::Code(13_u8) => "Pop"@,
        GenreV::Code(14_u8) => "RAndB"@,
        GenreV::Code(15_u8) => "Rap"@,
        GenreV::Code(16_u8) => "Reggae"@,
        GenreV::Code(17_u8) => "Rock"@,
        GenreV::Code(18_u8) => "Techno"@,
        GenreV::Code(19_u8) => "Industrial"@,
        GenreV::Code(20_u8) => "Alternative"@,
        GenreV::Code(21_u8) => "Ska"@,
        GenreV::Code(22_u8) => "DeathMetal"@,
        GenreV::Code(23_u8) => "Pranks"@,
        GenreV::Code(24_u8) => "Soundtrack"@,
        GenreV::Code(25_u8) => "EuroTechno"@,
        GenreV::Code(26_u8) => "Ambient"@,
        GenreV::Code(27_u8) => "TripHop"@,
        GenreV::Code(28_u8) => "Vocal"@,
        GenreV::Code(29_u8) => "JazzFunk"@,
        GenreV::Code(30_u8) => "Fusion"@,
        GenreV::Code(31_u8) => "Trance"@,
        GenreV::Code(32_u8) => "Classical"@,
        GenreV::Code(33_u8) => "Instrumental"@,
        GenreV::Code(34_u8) => "Acid"@,
        GenreV::Code(35_u8) => "House"@,
        GenreV::Code(36_u8) => "Game"@,
        GenreV::Code(37_u8) => "SoundClip"@,
        GenreV::Code(38_u8) => "Gospel"@,
        GenreV::Code(39_u8) => "Noise"@,
        GenreV::Code(40_u8) => "AlternRock"@,
        GenreV::Code(41_u8) => "Bass"@,
        GenreV::Code(42_u8) => "Soul"@,
        GenreV::Code(43_u8) => "Punk"@,
        GenreV::Code(44_u8) => "Space"@,
        GenreV::Code(45_u8) => "Meditative"@,
        GenreV::Code(46_u8) => "InstrumentalPop"@,
        GenreV::Code(47_u8) => "InstrumentalRock"@,
        GenreV::Code(48_u8) => "Ethnic"@,
        GenreV::Code(49_u8) => "Gothic"@,
        GenreV::Code(50_u8) => "Darkwave"@,
        GenreV::Code(51_u8) => "TechnoIndustrial"@,
        GenreV::Code(52_u8) => "Electronic"@,
        GenreV::Code(53_u8) => "PopFolk"@,
        GenreV::Code(54_u8) => "Eurodance"@,
        GenreV::Code(55_u8) => "Dream"@,
        GenreV::Code(56_u8) => "SouthernRock"@,
        GenreV::Code(57_u8) => "Comedy"@,
        GenreV::Code(58_u8) => "Cult"@,
        GenreV::Code(59_u8) => "Gangsta"@,
        GenreV::Code(60_u8) => "Top40"@,
        GenreV::Code(61_u8) => "ChristianRap"@,
        GenreV::Code(62_u8) => "PopFunk"@,
        GenreV::Code(63_u8) => "Jungle"@,
        GenreV::Code(64_u8) => "NativeAmerican"@,
        GenreV::Code(65_u8) => "Cabaret"@,
        GenreV::Code(66_u8) => "NewWave"@,
        GenreV::Code(67_u8) => "Psychadelic"@,
        GenreV::Code(68_u8) => "Rave"@,
        GenreV::Code(69_u8) => "Showtunes"@,
        GenreV::Code(70_u8) => "Trailer"@,
        GenreV::Code(71_u8) => "LoFi"@,
        GenreV::Code(72_u8) => "Tribal"@,
        GenreV::Code(73_u8) => "AcidPunk"@,
        GenreV::Code(74_u8) => "AcidJazz"@,
        GenreV::Code(75_u8) => "Polka"@,
        GenreV::Code(76_u8) => "Retro"@,
        GenreV::Code(77_u8) => "Musical"@,
        GenreV::Code(78_u8) => "RockAndRoll"@,
        GenreV::Code(79_u8) => "HardRock"@,
        GenreV::Code(80_u8) => "Folk"@,
        GenreV::Code(81_u8) => "FolkRock"@,
        GenreV::Code(82_u8) => "NationalFolk"@,
        GenreV::Code(83_u8) => "Swing"@,
        GenreV::Code(84_u8) => "FastFusion"@,
        GenreV::Code(85_u8) => "Bebob"@,
        GenreV::Code(86_u8) => "Latin"@,
        GenreV::Code(87_u8) => "Revival"@,
        GenreV::Code(88_u8) => "Celtic"@,
        GenreV::Code(89_u8) => "Bluegrass"@,
        GenreV::Code(90_u8) => "Avantgarde"@,
        GenreV::Code(91_u8) => "GothicRock"@,
        GenreV::Code(92_u8) => "ProgressiveRock"@,
        GenreV::Code(93_u8) => "PsychedelicRock"@,
        GenreV::Code(94_u8) => "SymphonicRock"@,
        GenreV::Code(95_u8) => "SlowRock"@,
        GenreV::Code(96_u8) => "BigBand"@,
        GenreV::Code(97_u8) => "Chorus"@,
        GenreV::Code(98_u8) => "EasyListening"@,
        GenreV::Code(99_u8) => "Acoustic"@,
        GenreV::Code(100_u8) => "Humour"@,
        GenreV::Code(101_u8) => "Speech"@,
        GenreV::Code(102_u8) => "Chanson"@,
        GenreV::Code(103_u8) => "Opera"@,
        GenreV::Code(104_u8) => "ChamberMusic"@,
        GenreV::Code(105_u8) => "Sonata"@,
        GenreV::Code(106_u8) => "Symphony"@,
        GenreV::Code(107_u8) => "BootyBrass"@,
        GenreV::Code(108_u8) => "Primus"@,
        GenreV::Code(109_u8) => "PornGroove"@,
        GenreV::Code(110_u8) => "Satire"@,
        GenreV::Code(111_u8) => "SlowJam"@,
        GenreV::Code(112_u8) => "Club"@,
        GenreV::Code(113_u8) => "Tango"@,
        GenreV::Code(114_u8) => "Samba"@,
        GenreV::Code(115_u8) => "Folklore"@,
        GenreV::Code(116_u8) => "Ballad"@,
        GenreV::Code(117_u8) => "PowerBallad"@,
        GenreV::Code(118_u8) => "RhytmicSoul"@,
        GenreV::Code(119_u8) => "Freestyle"@,
        GenreV::Code(120_u8) => "Duet"@,
        GenreV::Code(121_u8) => "PunkRock"@,
        GenreV::Code(122_u8) => "DrumSolo"@,
        GenreV::Code(123_u8) => "ACapela"@,
        GenreV::Code(124_u8) => "EuroHouse"@,
        GenreV::Code(125_u8) => "DanceHall"@,
        GenreV::Code(_) => "Unknown"@,
        GenreV::Text(s) => s,
        GenreV::Unknown => "Unknown"@,
    }
}

/// True of an ASCII decimal digit.
pub open spec fn is_ascii_digit(c: char) -> bool {
    '0' <= c && c <= '9'
}

/// The value of the decimal digits of `s` from position `i` on, accumulated
/// onto `acc`.
pub open spec fn digits_value_acc(s: Seq<char>, i: int, acc: int) -> int
    decreases s.len() - i,
{
    if i < 0 || i >= s.len() {
        acc
    } else {
        digits_value_acc(s, i + 1, acc * 10 + (s[i] as int - '0' as int))
    }
}

/// True when every character of `s` from position `i` on is an ASCII
/// decimal digit.
pub open spec fn all_ascii_digits_from(s: Seq<char>, i: int) -> bool
    decreases s.len() - i,
{
    if i < 0 || i >= s.len() {
        true
    } else {
        is_ascii_digit(s[i]) && all_ascii_digits_from(s, i + 1)
    }
}

/// How a byte is read from decimal text: an optional leading plus sign,
/// then at least one ASCII digit, with a value that fits in a byte;
/// anything else does not parse.
pub open spec fn parse_u8_of(s: Seq<char>) -> Option<u8> {
    let t = if s.len() >= 1 && s[0] == '+' {
        s.skip(1)
    } else {
        s
    };
    if t.len() >= 1 && all_ascii_digits_from(t, 0) && digits_value_acc(t, 0, 0) <= 255 {
        Some(digits_value_acc(t, 0, 0) as u8)
    } else {
        None
    }
}

/// Reads a byte from decimal text: one optional plus sign, then digits.
pub fn parse_u8_str(s: &str) -> (r: Option<u8>)
    ensures
        r == parse_u8_of(s@),
{
    let n = s.unicode_len();
    let start: usize = if n >= 1 && s.get_char(0) == '+' {
        1
    } else {
        0
    };
    let ghost t = if start == 1 {
        s@.skip(1)
    } else {
        s@
    };
    if n == start {
        return None;
    }
    let mut i: usize = start;
    let mut acc: u32 = 0;
    let ghost mut gval: int = 0;
    while i < n
        invariant
            start <= i <= n,
            n == s@.len(),
            start == 0 || start == 1,
            start == 1 <==> (s@.len() >= 1 && s@[0] == '+'),
            t == (if start == 1 { s@.skip(1) } else { s@ }),
            t.len() == n - start,
            all_ascii_digits_from(t, 0) <==> all_ascii_digits_from(t, i - start),
            acc == (if gval > 255 { 256int } else { gval }),
            digits_value_acc(t, i - start, gval) == digits_value_acc(t, 0, 0),
            gval >= 0,
        decreases n - i,
    {
        let c = s.get_char(i);
        let cv = c as u32;
        if cv < 48 || cv > 57 {
            proof {
                assert(t[i - start] == s@[i as int]);
                assert(!is_ascii_digit(t[i - start]));
                assert(!all_ascii_digits_from(t, i - start));
            }
            return None;
        }
        let d = cv - 48;
        let nacc = acc * 10 + d;
        proof {
            gval = gval * 10 + d;
        }
        acc = if nacc > 255 {
            256
        } else {
            nacc
        };
        i = i + 1;
    }
    proof {
        assert(digits_value_acc(t, t.len() as int, gval) == gval);
        assert(all_ascii_digits_from(t, t.len() as int));
    }
    if acc <= 255 {
        Some(acc as u8)
    } else {
        None
    }
}

/// The genre a free-text value resolves to: the member with the numeric
/// value of the text where the text parses as a byte, else the text itself.
pub open spec fn genre_of_text(s: Seq<char>) -> GenreV {
    match parse_u8_of(s) {
        Some(n) => genre_of_code(n),
        None => GenreV::Text(s),
    }
}

/// The characters of `s` from position `i` on with every `c` dropped,
/// appended to `cur`.
pub open spec fn remove_all_acc(s: Seq<char>, c: char, i: int, cur: Seq<char>) -> Seq<char>
    decreases s.len() - i,
{
    if i < 0 || i >= s.len() {
        cur
    } else if s[i] == c {
        remove_all_acc(s, c, i + 1, cur)
    } else {
        remove_all_acc(s, c, i + 1, cur.push(s[i]))
    }
}

/// The characters of `s` with every `c` dropped.
pub open spec fn remove_all(s: Seq<char>, c: char) -> Seq<char> {
    remove_all_acc(s, c, 0, Seq::empty())
}

/// The segments of `s` between occurrences of `sep` from position `i` on,
/// empty segments kept, with `cur` the segment being read and `acc` the
/// segments already read.
pub open spec fn split_keep_acc(s: Seq<char>, sep: char, i: int, cur: Seq<char>, acc: Seq<Seq<char>>) -> Seq<Seq<char>>
    decreases s.len() - i,
{
    if i < 0 || i >= s.len() {
        acc.push(cur)
    } else if s[i] == sep {
        split_keep_acc(s, sep, i + 1, Seq::empty(), acc.push(cur))
    } else {
        split_keep_acc(s, sep, i + 1, cur.push(s[i]), acc)
    }
}

/// The segments of `s` between occurrences of `sep`, empty segments kept.
pub open spec fn split_keep(s: Seq<char>, sep: char) -> Seq<Seq<char>> {
    split_keep_acc(s, sep, 0, Seq::empty(), Seq::empty())
}

/// The genres of those segments from position `i` on whose text, with
/// every opening parenthesis dropped, parses as a byte.
pub open spec fn numeric_genres(parts: Seq<Seq<char>>, i: int, acc: Seq<GenreV>) -> Seq<GenreV>
    decreases parts.len() - i,
{
    if i < 0 || i >= parts.len() {
        acc
    } else {
        match parse_u8_of(remove_all(parts[i], '(')) {
            Some(n) => numeric_genres(parts, i + 1, acc.push(genre_of_code(n))),
            None => numeric_genres(parts, i + 1, acc),
        }
    }
}

/// The genres a content-type text resolves to: nothing for the empty text;
/// for a text wrapped in parentheses, every parenthesized numeric
/// reference, or the whole text where none parses; any other text stands
/// for itself.
pub open spec fn genre_list_of(s: Seq<char>) -> Seq<GenreV> {
    if s.len() == 0 {
        Seq::empty()
    } else if s[0] == '(' && s[s.len() - 1] == ')' {
        let refs = numeric_genres(split_keep(s, ')'), 0, Seq::empty());
        if refs.len() > 0 {
            refs
        } else {
            seq![genre_of_text(s)]
        }
    } else {
        seq![genre_of_text(s)]
    }
}

impl Genre {
    /// Resolves a free-text genre value: a numeric text picks the member
    /// with that code, anything else stands for itself.
    pub fn from_text(s: &str) -> (r: Self)
        ensures
            r@ == genre_of_text(s@),
    {
        match parse_u8_str(s) {
            Some(n) => Genre::from_code(n),
            None => Genre::Something(s.to_owned()),
        }
    }
}

/// Drops every opening parenthesis of `s`.
fn drop_open_parens(s: &String) -> (r: String)
    ensures
        r@ == remove_all(s@, '('),
{
    let n = s.as_str().unicode_len();
    let mut i: usize = 0;
    let mut cur = String::new();
    while i < n
        invariant
            i <= n,
            n == s@.len(),
            remove_all_acc(s@, '(', i as int, cur@) == remove_all(s@, '('),
        decreases n - i,
    {
        let c = s.as_str().get_char(i);
        if c != '(' {
            crate::utils::push_char(&mut cur, c);
        }
        i = i + 1;
    }
    cur
}

/// Splits `s` at every closing parenthesis, keeping empty segments.
fn split_close_parens(s: &str) -> (r: Vec<String>)
    ensures
        r.deep_view() == split_keep(s@, ')'),
{
    let n = s.unicode_len();
    let mut i: usize = 0;
    let mut cur = String::new();
    let mut parts: Vec<String> = Vec::new();
    let ghost mut acc: Seq<Seq<char>> = Seq::empty();
    while i < n
        invariant
            i <= n,
            n == s@.len(),
            parts.deep_view() == acc,
            split_keep_acc(s@, ')', i as int, cur@, acc) == split_keep(s@, ')'),
        decreases n - i,
    {
        let c = s.get_char(i);
        if c == ')' {
            let ghost prev = parts.deep_view();
            proof {
                acc = acc.push(cur@);
            }
            parts.push(cur);
            cur = String::new();
            proof {
                assert(parts.deep_view() =~~= prev.push(acc.last()));
                assert(cur@ =~= Seq::<char>::empty());
            }
        } else {
            crate::utils::push_char(&mut cur, c);
        }
        i = i + 1;
    }
    let ghost prev = parts.deep_view();
    proof {
        acc = acc.push(cur@);
    }
    parts.push(cur);
    proof {
        assert(parts.deep_view() =~~= prev.push(acc.last()));
    }
    parts
}

/// Resolves a content-type text into its genres: every parenthesized
/// numeric reference of a parenthesized text, or the text itself.
pub fn resolve_genre_list(s: &str) -> (r: Vec<Genre>)
    ensures
        r.deep_view() == genre_list_of(s@),
{
    let n = s.unicode_len();
    let mut r: Vec<Genre> = Vec::new();
    if n == 0 {
        proof {
            assert(r.deep_view() =~~= genre_list_of(s@));
        }
        return r;
    }
    if s.get_char(0) == '(' && s.get_char(n - 1) == ')' {
        let parts = split_close_parens(s);
        let ghost pv = parts.deep_view();
        let ghost mut acc: Seq<GenreV> = Seq::empty();
        let mut j: usize = 0;
        while j < parts.len()
            invariant
                j <= parts.len(),
                pv == parts.deep_view(),
                pv.len() == parts@.len(),
                forall|k: int| 0 <= k < parts@.len() ==> (#[trigger] parts@[k])@ == pv[k],
                r.deep_view() == acc,
                numeric_genres(pv, j as int, acc) == numeric_genres(pv, 0, Seq::empty()),
            decreases parts@.len() - j,
        {
            let filtered = drop_open_parens(&parts[j]);
            match parse_u8_str(filtered.as_str()) {
                Some(num) => {
                    let ghost prev = r.deep_view();
                    let g = Genre::from_code(num);
                    proof {
                        acc = acc.push(g@);
                    }
                    r.push(g);
                    proof {
                        assert(r.deep_view() =~~= prev.push(acc.last()));
                    }
                },
                None => {},
            }
            j = j + 1;
        }
        if r.len() > 0 {
            r
        } else {
            let g = Genre::from_text(s);
            r.push(g);
            proof {
                assert(r.deep_view() =~~= seq![genre_of_text(s@)]);
            }
            r
        }
    } else {
        let g = Genre::from_text(s);
        r.push(g);
        proof {
            assert(r.deep_view() =~~= seq![genre_of_text(s@)]);
        }
        r
    }
}

} // verus!
