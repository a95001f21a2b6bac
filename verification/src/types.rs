//! The data structures a scan produces: the per-frame record, the two tag
//! shapes, and the aggregate result, together with their mathematical views.

use vstd::prelude::*;

use crate::enums::{ChannelType, Copyright, Emphasis, Genre, GenreV, Layer, Status, Version, CRC};

verus! {

/// A span of time, split into whole seconds and the nanoseconds left over.
#[derive(Copy, Clone, Debug, Eq, PartialEq, Ord, PartialOrd, Hash, Structural)]
pub struct Duration {
    /// Whole seconds.
    pub secs: u64,
    /// Nanoseconds left over, always below one billion.
    pub nanos: u32,
}

/// Whether the nanosecond part is in its reduced form.
pub open spec fn dur_wf(d: Duration) -> bool {
    d.nanos < 1_000_000_000
}

/// The zero span of time.
pub open spec fn dur_zero() -> Duration {
    Duration { secs: 0, nanos: 0 }
}

/// The sum of two spans, with the nanosecond carry folded into the seconds.
pub open spec fn dur_sum(a: Duration, b: Duration) -> Duration {
    if a.nanos + b.nanos >= 1_000_000_000 {
        Duration {
            secs: (a.secs + b.secs + 1) as u64,
            nanos: (a.nanos + b.nanos - 1_000_000_000) as u32,
        }
    } else {
        Duration { secs: (a.secs + b.secs) as u64, nanos: (a.nanos + b.nanos) as u32 }
    }
}

impl Duration {
    /// Builds a span out of whole seconds and a reduced nanosecond part.
    pub fn new(secs: u64, nanos: u32) -> (r: Self)
        requires
            nanos < 1_000_000_000,
        ensures
            r == (Duration { secs, nanos }),
    {
        Duration { secs, nanos }
    }

    /// Adds another span to this one.
    pub fn add(self, other: Self) -> (r: Self)
        requires
            dur_wf(self),
            dur_wf(other),
            self.secs + other.secs + 1 <= u64::MAX,
        ensures
            r == dur_sum(self, other),
            dur_wf(r),
    {
        let mut secs = self.secs + other.secs;
        let mut nanos = self.nanos + other.nanos;
        if nanos >= 1_000_000_000 {
            secs = secs + 1;
            nanos = nanos - 1_000_000_000;
        }
        Duration { secs, nanos }
    }
}

impl Default for Duration {
    /// The zero span.
    fn default() -> (r: Self)
        ensures
            r == dur_zero(),
    {
        Duration { secs: 0, nanos: 0 }
    }
}

/// One decoded MPEG frame header.
#[derive(Copy, Clone, Debug, Eq, PartialEq)]
pub struct Frame {
    /// The byte size of the frame, header included.
    pub size: u32,
    /// The MPEG audio version.
    pub version: Version,
    /// The MPEG audio layer.
    pub layer: Layer,
    /// Whether a cyclic redundancy check follows the header.
    pub crc: CRC,
    /// The bitrate in kilobits per second; 0 marks a free or invalid value.
    pub bitrate: u16,
    /// The sampling frequency in hertz; 0 marks an invalid value.
    pub sampling_freq: u16,
    /// The padding slot used to adjust the bitrate.
    pub padding: bool,
    /// The private bit, free for application use.
    pub private_bit: bool,
    /// The channel mode.
    pub chan_type: ChannelType,
    /// Whether intensity stereo is switched on; meaningful in joint stereo.
    pub intensity_stereo: bool,
    /// Whether mid/side stereo is switched on; meaningful in joint stereo.
    pub ms_stereo: bool,
    /// The copyright flag.
    pub copyright: Copyright,
    /// Whether the frame belongs to an original or a copy.
    pub status: Status,
    /// The de-emphasis to apply on playback.
    pub emphasis: Emphasis,
    /// How long the frame plays for, when the header determines it.
    pub duration: Option<Duration>,
    /// The running playback time of the stream before this frame.
    pub position: Duration,
    /// The byte offset of the frame header in the buffer.
    pub offset: u32,
}

/// A thin wrapper over the decoded text of a URL; nothing is validated.
#[derive(Clone, Debug, Eq, PartialEq)]
pub struct Url(pub String);

impl View for Url {
    type V = Seq<char>;

    open spec fn view(&self) -> Seq<char> {
        self.0@
    }
}

impl DeepView for Url {
    type V = Seq<char>;

    open spec fn deep_view(&self) -> Seq<char> {
        self.0@
    }
}

/// The legacy fixed-layout trailer tag.
#[derive(Clone, Debug, Eq, PartialEq)]
pub struct AudioTag {
    /// The title, decoded from its fixed 30 bytes.
    pub title: String,
    /// The artist, decoded from its fixed 30 bytes.
    pub artist: String,
    /// The album, decoded from its fixed 30 bytes.
    pub album: String,
    /// The year, parsed from its 4 bytes; 0 when they do not parse.
    pub year: u16,
    /// The comment, decoded from 30 bytes, or 28 before a track marker.
    pub comment: String,
    /// The genre, mapped from its single raw byte.
    pub genre: Genre,
}

/// The mathematical shape of a fixed trailer tag.
#[verifier::ext_equal]
pub ghost struct AudioTagV {
    pub title: Seq<char>,
    pub artist: Seq<char>,
    pub album: Seq<char>,
    pub year: u16,
    pub comment: Seq<char>,
    pub genre: GenreV,
}

impl View for AudioTag {
    type V = AudioTagV;

    open spec fn view(&self) -> AudioTagV {
        AudioTagV {
            title: self.title@,
            artist: self.artist@,
            album: self.album@,
            year: self.year,
            comment: self.comment@,
            genre: self.genre@,
        }
    }
}

impl DeepView for AudioTag {
    type V = AudioTagV;

    open spec fn deep_view(&self) -> AudioTagV {
        self.view()
    }
}


impl Default for Url {
    /// The empty URL text.
    fn default() -> (r: Self)
        ensures
            r@ == Seq::<char>::empty(),
    {
        Url(String::new())
    }
}

impl Default for AudioTag {
    /// Every text empty, the year zero, the genre unknown.
    fn default() -> (r: Self)
        ensures
            r@ == (AudioTagV {
                title: Seq::empty(),
                artist: Seq::empty(),
                album: Seq::empty(),
                year: 0,
                comment: Seq::empty(),
                genre: GenreV::Unknown,
            }),
    {
        let r = AudioTag {
            title: String::new(),
            artist: String::new(),
            album: String::new(),
            year: 0,
            comment: String::new(),
            genre: Genre::Unknown,
        };
        proof {
            assert(r@ =~~= (AudioTagV {
                title: Seq::empty(),
                artist: Seq::empty(),
                album: Seq::empty(),
                year: 0,
                comment: Seq::empty(),
                genre: GenreV::Unknown,
            }));
        }
        r
    }
}

/// The frame every field of which is still unknown.
pub open spec fn frame_unknown() -> Frame {
    Frame {
        size: 0,
        version: Version::Unknown,
        layer: Layer::Unknown,
        crc: CRC::NotAdded,
        bitrate: 0,
        sampling_freq: 0,
        padding: false,
        private_bit: false,
        chan_type: ChannelType::Unknown,
        intensity_stereo: false,
        ms_stereo: false,
        copyright: Copyright::Present,
        status: Status::Unknown,
        emphasis: Emphasis::Unknown,
        duration: None,
        position: Duration { secs: 0, nanos: 0 },
        offset: 0,
    }
}

impl Default for Frame {
    /// The conservative member of every field.
    fn default() -> (r: Self)
        ensures
            r == frame_unknown(),
    {
        Frame {
            size: 0,
            version: Version::Unknown,
            layer: Layer::Unknown,
            crc: CRC::NotAdded,
            bitrate: 0,
            sampling_freq: 0,
            padding: false,
            private_bit: false,
            chan_type: ChannelType::Unknown,
            intensity_stereo: false,
            ms_stereo: false,
            copyright: Copyright::Present,
            status: Status::Unknown,
            emphasis: Emphasis::Unknown,
            duration: None,
            position: Duration { secs: 0, nanos: 0 },
            offset: 0,
        }
    }
}

/// One parse of an extensible tag container: the sub-fields it assigned.
#[derive(Clone, Debug, Eq, PartialEq)]
pub struct OptionalAudioTags {
    /// How many frames the scan had recorded when this tag was met.
    pub position: u32,
    /// The major version byte of the container.
    pub major_version: u8,
    /// The minor version byte of the container.
    pub minor_version: u8,
    /// The album, movie or show title the audio is taken from.
    pub album_movie_show: Option<String>,
    /// Beats per minute of the main part, as a numeric string.
    pub bpm: Option<String>,
    /// The name of each composer.
    pub composers: Vec<String>,
    /// The content type: genre references or free text.
    pub content_type: Vec<Genre>,
    /// The copyright message, beginning with a year and a space.
    pub copyright: Option<String>,
    /// The recording date as a DDMM numeric string.
    pub date: Option<String>,
    /// Milliseconds of silence between songs of a playlist.
    pub playlist_delay: Option<String>,
    /// Who encoded the audio file.
    pub encoded_by: Option<String>,
    /// The writer of each text or lyric.
    pub text_writers: Vec<String>,
    /// The type of audio the tag describes.
    pub file_type: Option<String>,
    /// The recording time as a HHMM numeric string.
    pub time: Option<String>,
    /// The larger category of sounds the audio belongs to.
    pub content_group_description: Option<String>,
    /// A refinement directly related to the title.
    pub subtitle_refinement_description: Option<String>,
    /// The actual name of the piece.
    pub title: Option<String>,
    /// The musical key the sound starts in.
    pub initial_key: Option<String>,
    /// The languages of the text or lyrics.
    pub language: Option<String>,
    /// The length of the audio file in milliseconds.
    pub length: Option<String>,
    /// The media the sound originated from.
    pub media_type: Option<String>,
    /// The title of the original recording.
    pub original_album_move_show_title: Option<String>,
    /// The preferred filename for the file.
    pub original_filename: Option<String>,
    /// The text writer of each original recording.
    pub original_text_writers: Vec<String>,
    /// The performer of each original recording.
    pub original_artists: Vec<String>,
    /// The year the original recording was released.
    pub original_release_year: Option<String>,
    /// The owner or licensee of the file.
    pub file_owner: Option<String>,
    /// The main artist or each of them.
    pub performers: Vec<String>,
    /// Additional information about the performers.
    pub band: Option<String>,
    /// The name of the conductor.
    pub conductor: Option<String>,
    /// Who interpreted, remixed or otherwise modified the piece.
    pub interpreted: Option<String>,
    /// Which part of a set the audio came from.
    pub part_of_a_set: Option<String>,
    /// The name of the label or publisher.
    pub publisher: Option<String>,
    /// The order number of the audio file on its recording.
    pub track_number: Option<String>,
    /// The recording dates as free text.
    pub recording_dates: Option<String>,
    /// The name of the internet radio station.
    pub internet_radio_station_name: Option<String>,
    /// The owner of the internet radio station.
    pub internet_radio_station_owner: Option<String>,
    /// The size of the audio file in bytes, excluding the tag.
    pub size: Option<String>,
    /// The International Standard Recording Code.
    pub international_standard_recording_code: Option<String>,
    /// The encoder software or hardware and its settings.
    pub soft_hard_setting: Option<String>,
    /// The year of the recording.
    pub year: Option<String>,
    /// The people involved and how they were involved.
    pub involved_people: Option<String>,
    /// Webpages with commercial information.
    pub commercial_info_url: Vec<Url>,
    /// A webpage describing terms of use and ownership.
    pub copyright_info_url: Option<Url>,
    /// A file-specific webpage.
    pub official_webpage: Option<Url>,
    /// The official webpage of each performer.
    pub official_artist_webpage: Vec<Url>,
    /// The official webpage of the source of the audio.
    pub official_audio_source_webpage: Option<Url>,
    /// The homepage of the internet radio station.
    pub official_internet_radio_webpage: Option<Url>,
    /// A webpage handling payment for the file.
    pub payment_url: Option<Url>,
    /// The official webpage of the publisher.
    pub publishers_official_webpage: Option<Url>,
}

/// The mathematical shape of an extensible tag parse.
#[verifier::ext_equal]
pub ghost struct OptionalAudioTagsV {
    pub position: u32,
    pub major_version: u8,
    pub minor_version: u8,
    pub album_movie_show: Option<Seq<char>>,
    pub bpm: Option<Seq<char>>,
    pub composers: Seq<Seq<char>>,
    pub content_type: Seq<GenreV>,
    pub copyright: Option<Seq<char>>,
    pub date: Option<Seq<char>>,
    pub playlist_delay: Option<Seq<char>>,
    pub encoded_by: Option<Seq<char>>,
    pub text_writers: Seq<Seq<char>>,
    pub file_type: Option<Seq<char>>,
    pub time: Option<Seq<char>>,
    pub content_group_description: Option<Seq<char>>,
    pub subtitle_refinement_description: Option<Seq<char>>,
    pub title: Option<Seq<char>>,
    pub initial_key: Option<Seq<char>>,
    pub language: Option<Seq<char>>,
    pub length: Option<Seq<char>>,
    pub media_type: Option<Seq<char>>,
    pub original_album_move_show_title: Option<Seq<char>>,
    pub original_filename: Option<Seq<char>>,
    pub original_text_writers: Seq<Seq<char>>,
    pub original_artists: Seq<Seq<char>>,
    pub original_release_year: Option<Seq<char>>,
    pub file_owner: Option<Seq<char>>,
    pub performers: Seq<Seq<char>>,
    pub band: Option<Seq<char>>,
    pub conductor: Option<Seq<char>>,
    pub interpreted: Option<Seq<char>>,
    pub part_of_a_set: Option<Seq<char>>,
    pub publisher: Option<Seq<char>>,
    pub track_number: Option<Seq<char>>,
    pub recording_dates: Option<Seq<char>>,
    pub internet_radio_station_name: Option<Seq<char>>,
    pub internet_radio_station_owner: Option<Seq<char>>,
    pub size: Option<Seq<char>>,
    pub international_standard_recording_code: Option<Seq<char>>,
    pub soft_hard_setting: Option<Seq<char>>,
    pub year: Option<Seq<char>>,
    pub involved_people: Option<Seq<char>>,
    pub commercial_info_url: Seq<Seq<char>>,
    pub copyright_info_url: Option<Seq<char>>,
    pub official_webpage: Option<Seq<char>>,
    pub official_artist_webpage: Seq<Seq<char>>,
    pub official_audio_source_webpage: Option<Seq<char>>,
    pub official_internet_radio_webpage: Option<Seq<char>>,
    pub payment_url: Option<Seq<char>>,
    pub publishers_official_webpage: Option<Seq<char>>,
}

impl View for OptionalAudioTags {
    type V = OptionalAudioTagsV;

    open spec fn view(&self) -> OptionalAudioTagsV {
        OptionalAudioTagsV {
            position: self.position,
            major_version: self.major_version,
            minor_version: self.minor_version,
            album_movie_show: self.album_movie_show.deep_view(),
            bpm: self.bpm.deep_view(),
            composers: self.composers.deep_view(),
            content_type: self.content_type.deep_view(),
            copyright: self.copyright.deep_view(),
            date: self.date.deep_view(),
            playlist_delay: self.playlist_delay.deep_view(),
            encoded_by: self.encoded_by.deep_view(),
            text_writers: self.text_writers.deep_view(),
            file_type: self.file_type.deep_view(),
            time: self.time.deep_view(),
            content_group_description: self.content_group_description.deep_view(),
            subtitle_refinement_description: self.subtitle_refinement_description.deep_view(),
            title: self.title.deep_view(),
            initial_key: self.initial_key.deep_view(),
            language: self.language.deep_view(),
            length: self.length.deep_view(),
            media_type: self.media_type.deep_view(),
            original_album_move_show_title: self.original_album_move_show_title.deep_view(),
            original_filename: self.original_filename.deep_view(),
            original_text_writers: self.original_text_writers.deep_view(),
            original_artists: self.original_artists.deep_view(),
            original_release_year: self.original_release_year.deep_view(),
            file_owner: self.file_owner.deep_view(),
            performers: self.performers.deep_view(),
            band: self.band.deep_view(),
            conductor: self.conductor.deep_view(),
            interpreted: self.interpreted.deep_view(),
            part_of_a_set: self.part_of_a_set.deep_view(),
            publisher: self.publisher.deep_view(),
            track_number: self.track_number.deep_view(),
            recording_dates: self.recording_dates.deep_view(),
            internet_radio_station_name: self.internet_radio_station_name.deep_view(),
            internet_radio_station_owner: self.internet_radio_station_owner.deep_view(),
            size: self.size.deep_view(),
            international_standard_recording_code: self.international_standard_recording_code.deep_view(),
            soft_hard_setting: self.soft_hard_setting.deep_view(),
            year: self.year.deep_view(),
            involved_people: self.involved_people.deep_view(),
            commercial_info_url: self.commercial_info_url.deep_view(),
            copyright_info_url: self.copyright_info_url.deep_view(),
            official_webpage: self.official_webpage.deep_view(),
            official_artist_webpage: self.official_artist_webpage.deep_view(),
            official_audio_source_webpage: self.official_audio_source_webpage.deep_view(),
            official_internet_radio_webpage: self.official_internet_radio_webpage.deep_view(),
            payment_url: self.payment_url.deep_view(),
            publishers_official_webpage: self.publishers_official_webpage.deep_view(),
        }
    }
}

impl DeepView for OptionalAudioTags {
    type V = OptionalAudioTagsV;

    open spec fn deep_view(&self) -> OptionalAudioTagsV {
        self.view()
    }
}

/// The extensible tag parse with nothing assigned yet.
pub open spec fn opt_tags_empty() -> OptionalAudioTagsV {
    OptionalAudioTagsV {
        position: 0,
        major_version: 0,
        minor_version: 0,
        album_movie_show: None,
        bpm: None,
        composers: Seq::empty(),
        content_type: Seq::empty(),
        copyright: None,
        date: None,
        playlist_delay: None,
        encoded_by: None,
        text_writers: Seq::empty(),
        file_type: None,
        time: None,
        content_group_description: None,
        subtitle_refinement_description: None,
        title: None,
        initial_key: None,
        language: None,
        length: None,
        media_type: None,
        original_album_move_show_title: None,
        original_filename: None,
        original_text_writers: Seq::empty(),
        original_artists: Seq::empty(),
        original_release_year: None,
        file_owner: None,
        performers: Seq::empty(),
        band: None,
        conductor: None,
        interpreted: None,
        part_of_a_set: None,
        publisher: None,
        track_number: None,
        recording_dates: None,
        internet_radio_station_name: None,
        internet_radio_station_owner: None,
        size: None,
        international_standard_recording_code: None,
        soft_hard_setting: None,
        year: None,
        involved_people: None,
        commercial_info_url: Seq::empty(),
        copyright_info_url: None,
        official_webpage: None,
        official_artist_webpage: Seq::empty(),
        official_audio_source_webpage: None,
        official_internet_radio_webpage: None,
        payment_url: None,
        publishers_official_webpage: None,
    }
}

impl Default for OptionalAudioTags {
    /// The parse with nothing assigned yet.
    fn default() -> (r: Self)
        ensures
            r@ == opt_tags_empty(),
    {
        let r = OptionalAudioTags {
            position: 0,
            major_version: 0,
            minor_version: 0,
            album_movie_show: None,
            bpm: None,
            composers: Vec::new(),
            content_type: Vec::new(),
            copyright: None,
            date: None,
            playlist_delay: None,
            encoded_by: None,
            text_writers: Vec::new(),
            file_type: None,
            time: None,
            content_group_description: None,
            subtitle_refinement_description: None,
            title: None,
            initial_key: None,
            language: None,
            length: None,
            media_type: None,
            original_album_move_show_title: None,
            original_filename: None,
            original_text_writers: Vec::new(),
            original_artists: Vec::new(),
            original_release_year: None,
            file_owner: None,
            performers: Vec::new(),
            band: None,
            conductor: None,
            interpreted: None,
            part_of_a_set: None,
            publisher: None,
            track_number: None,
            recording_dates: None,
            internet_radio_station_name: None,
            internet_radio_station_owner: None,
            size: None,
            international_standard_recording_code: None,
            soft_hard_setting: None,
            year: None,
            involved_people: None,
            commercial_info_url: Vec::new(),
            copyright_info_url: None,
            official_webpage: None,
            official_artist_webpage: Vec::new(),
            official_audio_source_webpage: None,
            official_internet_radio_webpage: None,
            payment_url: None,
            publishers_official_webpage: None,
        };
        proof {
            assert(r@ =~~= opt_tags_empty());
        }
        r
    }
}

/// The aggregate result of one scan.
#[derive(Clone, Debug, PartialEq)]
pub struct MP3Metadata {
    /// The sum of the durations of all recorded frames.
    pub duration: Duration,
    /// The recorded frames, in byte order.
    pub frames: Vec<Frame>,
    /// The legacy fixed trailer tag, met at most once.
    pub tag: Option<AudioTag>,
    /// Every extensible tag parse that assigned at least one sub-field.
    pub optional_info: Vec<OptionalAudioTags>,
}

/// The mathematical shape of a scan result.
#[verifier::ext_equal]
pub ghost struct MP3MetadataV {
    pub duration: Duration,
    pub frames: Seq<Frame>,
    pub tag: Option<AudioTagV>,
    pub optional_info: Seq<OptionalAudioTagsV>,
}

impl View for MP3Metadata {
    type V = MP3MetadataV;

    open spec fn view(&self) -> MP3MetadataV {
        MP3MetadataV {
            duration: self.duration,
            frames: self.frames@,
            tag: self.tag.deep_view(),
            optional_info: self.optional_info.deep_view(),
        }
    }
}

/// The result a scan starts from: no time, no frames, no tags.
pub open spec fn meta_empty() -> MP3MetadataV {
    MP3MetadataV {
        duration: dur_zero(),
        frames: Seq::empty(),
        tag: None,
        optional_info: Seq::empty(),
    }
}

} // verus!

