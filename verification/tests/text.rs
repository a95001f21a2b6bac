use mp3_metadata::utils::{
    compute_duration, create_latin1_str, create_utf16_str, create_utf8_str, get_field,
    get_layer_value, get_line, get_samp_line, get_text_field, get_text_fields, get_url_field,
    get_url_fields,
};
use mp3_metadata::{Duration, Error, Layer, Url, Version};

#[test]
fn latin1_keeps_every_byte() {
    assert_eq!(create_latin1_str(&[0x41, 0xFF, 0x20]), "A\u{FF} ");
    assert_eq!(create_latin1_str(&[]), "");
}

#[test]
fn utf16_with_byte_order_marks() {
    // big-endian mark, then 'H' 'i'
    assert_eq!(create_utf16_str(&[0xFE, 0xFF, 0x00, 0x48, 0x00, 0x69]), "Hi");
    // little-endian mark, then 'H' 'i'
    assert_eq!(create_utf16_str(&[0xFF, 0xFE, 0x48, 0x00, 0x69, 0x00]), "Hi");
    // no mark: read little-endian
    assert_eq!(create_utf16_str(&[0x48, 0x00, 0x69, 0x00]), "Hi");
    assert_eq!(create_utf16_str(&[]), "");
    // a lone trailing byte is dropped with the half pair
    assert_eq!(create_utf16_str(&[0x48, 0x00, 0x69]), "H");
}

#[test]
fn utf8_falls_back_to_empty() {
    assert_eq!(create_utf8_str(b"hello"), "hello");
    assert_eq!(create_utf8_str(&[0xC3, 0xA9]), "\u{E9}");
    assert_eq!(create_utf8_str(&[0xFF, 0xFE]), "");
}

#[test]
fn field_selector_byte_picks_the_encoding() {
    assert_eq!(get_field(&[0x00, 0x41, 0xFF], 0, 3), "A\u{FF}");
    assert_eq!(get_field(&[0x03, b'o', b'k'], 0, 3), "ok");
    assert_eq!(get_field(&[0x02, b'o', b'k'], 0, 3), "");
    assert_eq!(get_field(&[0x01, 0xFF, 0xFE, 0x48, 0x00], 0, 5), "H");
    assert_eq!(get_field(&[9, 9, 0x00, b'a', 9], 2, 2), "a");
}

#[test]
fn text_field_first_assignment_wins() {
    let buf = [0x00, b'a', b'b'];
    let mut changes = false;
    let mut slot: Option<String> = None;
    get_text_field(&buf, 0, 3, &mut changes, &mut slot);
    assert_eq!(slot, Some("ab".to_string()));
    assert!(changes);
    get_text_field(&buf, 0, 3, &mut changes, &mut slot);
    assert_eq!(slot, Some("ab".to_string()));
    let mut small: Option<String> = None;
    let mut untouched = false;
    get_text_field(&buf, 0, 1, &mut untouched, &mut small);
    assert_eq!(small, None);
    assert!(!untouched);
}

#[test]
fn text_fields_split_on_slash() {
    let buf = [0x00, b'a', b'/', b'/', b'b', b'c', b'/'];
    let mut changes = false;
    let mut slots: Vec<String> = vec!["kept".to_string()];
    get_text_fields(&buf, 0, 7, &mut changes, &mut slots);
    assert_eq!(slots, vec!["kept".to_string(), "a".to_string(), "bc".to_string()]);
    assert!(changes);
}

#[test]
fn url_fields_take_raw_bytes() {
    let buf = b"http://e.example";
    let mut changes = false;
    let mut slot: Option<Url> = None;
    get_url_field(buf, 0, 16, &mut changes, &mut slot);
    assert_eq!(slot, Some(Url("http://e.example".to_string())));
    assert!(changes);
    let mut list: Vec<Url> = Vec::new();
    let mut more = false;
    get_url_fields(buf, 7, 9, &mut more, &mut list);
    assert_eq!(list, vec![Url("e.example".to_string())]);
    let mut short = false;
    get_url_fields(buf, 0, 1, &mut short, &mut list);
    assert_eq!(list.len(), 1);
    assert!(!short);
}

#[test]
fn duration_per_frame() {
    assert_eq!(
        compute_duration(Version::MPEG1, Layer::Layer3, 44100),
        Some(Duration::new(0, 26122448))
    );
    assert_eq!(
        compute_duration(Version::MPEG2, Layer::Layer3, 22050),
        Some(Duration::new(0, 26122448))
    );
    assert_eq!(compute_duration(Version::MPEG1, Layer::Layer3, 0), None);
    assert_eq!(compute_duration(Version::Reserved, Layer::Layer3, 44100), None);
    assert_eq!(compute_duration(Version::Unknown, Layer::Layer3, 44100), None);
}

#[test]
fn table_rows() {
    assert_eq!(get_line(Version::MPEG1, Layer::Layer3), 2);
    assert_eq!(get_line(Version::MPEG2_5, Layer::Layer1), 3);
    assert_eq!(get_line(Version::MPEG2, Layer::Layer3), 4);
    assert_eq!(get_layer_value(Layer::Layer1), 0);
    assert_eq!(get_layer_value(Layer::Unknown), 3);
    assert_eq!(get_samp_line(Version::MPEG1), 0);
    assert_eq!(get_samp_line(Version::MPEG2_5), 2);
    assert_eq!(get_samp_line(Version::Reserved), 1);
}

#[test]
fn durations_add_with_carry() {
    let a = Duration::new(1, 600_000_000);
    let b = Duration::new(2, 700_000_000);
    assert_eq!(a.add(b), Duration::new(4, 300_000_000));
    assert_eq!(Duration::default(), Duration::new(0, 0));
}

#[test]
fn error_descriptions() {
    assert_eq!(Error::NotMP3.description(), "The file is not a valid MP3 file");
    assert_eq!(Error::FileError.description(), "An I/O error occurred");
    assert_eq!(Error::NoHeader.description(), "The file is missing an MP3 header");
    assert_eq!(
        Error::DuplicatedIDV3.description(),
        "The MP3 file contains a duplicate IDv3 frame"
    );
    assert_eq!(Error::InvalidData.description(), "The MP3 metadata is invalid");
}
