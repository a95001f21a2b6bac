use mp3_metadata::read_from_slice;
use mp3_metadata::{ChannelType, Copyright, Duration, Emphasis, Error, Genre, Layer, Status, Version, CRC};

/// One valid frame: MPEG1 layer 3, CRC added, 128 kbit/s, 44100 Hz, single
/// channel, copy status — 417 bytes long.
fn one_frame() -> Vec<u8> {
    let mut v = vec![0xFF, 0xFA, 0x90, 0xC0];
    v.extend(std::iter::repeat(0u8).take(413));
    v
}

/// The 128-byte fixed trailer tag of the known stream.
fn fixed_tag() -> Vec<u8> {
    let mut v = Vec::new();
    v.extend(b"TAG");
    let mut title = b"Test of MP3 File".to_vec();
    title.resize(30, b' ');
    v.extend(&title);
    let mut artist = b"Me".to_vec();
    artist.resize(30, b' ');
    v.extend(&artist);
    let mut album = b"Me".to_vec();
    album.resize(30, b' ');
    v.extend(&album);
    v.extend(b"2006");
    let mut comment = b"test".to_vec();
    comment.resize(28, b' ');
    v.extend(&comment);
    v.push(0); // zero sentinel: the comment stops at 28 bytes
    v.push(0); // old-style track number
    v.push(12); // genre byte: Other
    assert_eq!(v.len(), 128);
    v
}

#[test]
fn first_frame_fields() {
    let mut data = one_frame();
    data.extend(fixed_tag());
    let meta = read_from_slice(&data).unwrap();
    assert_eq!(meta.frames.len(), 1);
    let f = &meta.frames[0];
    assert_eq!(f.size, 417);
    assert_eq!(f.version, Version::MPEG1);
    assert_eq!(f.layer, Layer::Layer3);
    assert_eq!(f.crc, CRC::Added);
    assert_eq!(f.bitrate, 128);
    assert_eq!(f.sampling_freq, 44100);
    assert_eq!(f.padding, false);
    assert_eq!(f.private_bit, false);
    assert_eq!(f.chan_type, ChannelType::SingleChannel);
    assert_eq!(f.intensity_stereo, false);
    assert_eq!(f.ms_stereo, false);
    assert_eq!(f.copyright, Copyright::Absent);
    assert_eq!(f.status, Status::Copy);
    assert_eq!(f.emphasis, Emphasis::NoEmphasis);
    assert_eq!(f.duration, Some(Duration::new(0, 26122448)));
    assert_eq!(f.position, Duration::new(0, 0));
    assert_eq!(f.offset, 0);
    assert_eq!(meta.duration, Duration::new(0, 26122448));
}

#[test]
fn fixed_tag_fields() {
    let mut data = one_frame();
    data.extend(fixed_tag());
    let meta = read_from_slice(&data).unwrap();
    let tag = meta.tag.expect("the fixed tag was present");
    assert_eq!(tag.title, "Test of MP3 File              ");
    assert_eq!(tag.artist, "Me                            ");
    assert_eq!(tag.album, "Me                            ");
    assert_eq!(tag.year, 2006);
    assert_eq!(tag.comment, "test                        ");
    assert_eq!(tag.genre, Genre::Other);
}

#[test]
fn bad_year_reads_as_zero() {
    let mut data = one_frame();
    let mut tag = fixed_tag();
    tag[93..97].copy_from_slice(b"20x6");
    data.extend(tag);
    let meta = read_from_slice(&data).unwrap();
    assert_eq!(meta.tag.unwrap().year, 0);
}

#[test]
fn year_accepts_a_leading_plus_sign() {
    let mut data = one_frame();
    let mut tag = fixed_tag();
    tag[93..97].copy_from_slice(b"+206");
    data.extend(tag);
    let meta = read_from_slice(&data).unwrap();
    assert_eq!(meta.tag.unwrap().year, 206);
}

#[test]
fn several_frames_accumulate_time() {
    let mut data = one_frame();
    data.extend(one_frame());
    data.extend(one_frame());
    data.extend(fixed_tag());
    let meta = read_from_slice(&data).unwrap();
    assert_eq!(meta.frames.len(), 3);
    assert_eq!(meta.frames[1].position, Duration::new(0, 26122448));
    assert_eq!(meta.frames[1].offset, 417);
    assert_eq!(meta.frames[2].position, Duration::new(0, 2 * 26122448));
    assert_eq!(meta.duration, Duration::new(0, 3 * 26122448));
}

#[test]
fn empty_buffer_is_not_mp3() {
    assert_eq!(read_from_slice(&[]).unwrap_err(), Error::NotMP3);
}

#[test]
fn short_buffer_is_not_mp3() {
    assert_eq!(read_from_slice(&[0xFF, 0xFB, 0x90]).unwrap_err(), Error::NotMP3);
}

#[test]
fn no_sync_pattern_is_not_mp3() {
    let data = vec![0x11u8; 300];
    assert_eq!(read_from_slice(&data).unwrap_err(), Error::NotMP3);
}

#[test]
fn double_fixed_tag_is_rejected() {
    let mut data = Vec::new();
    let tag = fixed_tag();
    data.extend(&tag);
    data.extend(&tag);
    assert_eq!(read_from_slice(&data).unwrap_err(), Error::DuplicatedIDV3);
}

#[test]
fn truncated_single_frame_is_invalid_data() {
    let data = &one_frame()[..10];
    assert_eq!(read_from_slice(data).unwrap_err(), Error::InvalidData);
}

#[test]
fn reading_twice_gives_equal_results() {
    let mut data = one_frame();
    data.extend(fixed_tag());
    let first = read_from_slice(&data);
    let second = read_from_slice(&data);
    assert_eq!(first, second);
    let garbage: Vec<u8> = (0u8..=255).cycle().take(1000).collect();
    assert_eq!(read_from_slice(&garbage), read_from_slice(&garbage));
}

#[test]
fn full_stream_totals() {
    let mut data = Vec::new();
    for _ in 0..475 {
        data.extend(one_frame());
    }
    data.extend(fixed_tag());
    let meta = read_from_slice(&data).unwrap();
    assert_eq!(meta.frames.len(), 475);
    assert_eq!(meta.duration, Duration::new(12, 408_162_800));
    assert_eq!(meta.frames[474].offset, 474 * 417);
    let tag = meta.tag.unwrap();
    assert_eq!(tag.year, 2006);
    assert_eq!(tag.genre, Genre::Other);
}
