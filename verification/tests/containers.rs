use mp3_metadata::read_from_slice;
use mp3_metadata::{Genre, Url};

/// One valid frame: MPEG1 layer 3, 128 kbit/s, 44100 Hz — 417 bytes long.
fn one_frame() -> Vec<u8> {
    let mut v = vec![0xFF, 0xFA, 0x90, 0xC0];
    v.extend(std::iter::repeat(0u8).take(413));
    v
}

/// An extensible tag container, major version 3, holding the given
/// sub-field region; `declared` is the low size byte of its header, chosen
/// so that the declared size folds to `declared + 10`.
fn container(flags: u8, declared: u8, body: &[u8]) -> Vec<u8> {
    assert_eq!(declared & 0b1010, 0, "the size byte must not collide");
    let mut v = Vec::new();
    v.extend(b"ID3");
    v.push(3); // major version
    v.push(0); // minor version
    v.push(flags);
    v.extend([0, 0, 0, declared]);
    v.extend(body);
    v
}

/// A sub-field of a major-version-3 container: four-letter identifier,
/// big-endian size, two flag bytes, then the payload.
fn subfield(name: &[u8; 4], payload: &[u8]) -> Vec<u8> {
    let mut v = Vec::new();
    v.extend(name);
    v.extend((payload.len() as u32).to_be_bytes());
    v.extend([0, 0]);
    v.extend(payload);
    v
}

#[test]
fn title_and_performers() {
    let mut body = subfield(b"TIT2", &[0x00, b'H', b'e', b'l', b'l', b'o']);
    body.extend(subfield(b"TPE1", &[0x00, b'M', b'e', b'/', b'Y', b'o', b'u']));
    body.extend(subfield(b"WPAY", b"pay.example"));
    // the declared size runs 10 bytes past the sub-fields, per the header fold
    let declared = (body.len() as u8 + 6) & !0b1010;
    let pad = declared as usize + 10 - body.len();
    body.extend(std::iter::repeat(0u8).take(pad));
    let mut data = container(0, declared, &body);
    data.extend(one_frame());
    let meta = read_from_slice(&data).unwrap();
    assert_eq!(meta.optional_info.len(), 1);
    let op = &meta.optional_info[0];
    assert_eq!(op.major_version, 3);
    assert_eq!(op.minor_version, 0);
    assert_eq!(op.position, 0);
    assert_eq!(op.title, Some("Hello".to_string()));
    assert_eq!(op.performers, vec!["Me".to_string(), "You".to_string()]);
    assert_eq!(op.payment_url, Some(Url("pay.example".to_string())));
    assert_eq!(meta.frames.len(), 1);
}

#[test]
fn genre_subfield_with_references() {
    let mut body = subfield(b"TCON", &[0x00, b'(', b'5', b'1', b')', b'(', b'3', b'9', b')']);
    let declared = (body.len() as u8 + 6) & !0b1010;
    let pad = declared as usize + 10 - body.len();
    body.extend(std::iter::repeat(0u8).take(pad));
    let mut data = container(0, declared, &body);
    data.extend(one_frame());
    let meta = read_from_slice(&data).unwrap();
    let op = &meta.optional_info[0];
    assert_eq!(op.content_type, vec![Genre::TechnoIndustrial, Genre::Noise]);
}

#[test]
fn first_assignment_wins() {
    let mut body = subfield(b"TIT2", &[0x00, b'O', b'n', b'e']);
    body.extend(subfield(b"TIT2", &[0x00, b'T', b'w', b'o']));
    let declared = (body.len() as u8 + 6) & !0b1010;
    let pad = declared as usize + 10 - body.len();
    body.extend(std::iter::repeat(0u8).take(pad));
    let mut data = container(0, declared, &body);
    data.extend(one_frame());
    let meta = read_from_slice(&data).unwrap();
    assert_eq!(meta.optional_info[0].title, Some("One".to_string()));
}

#[test]
fn desynchronized_body_is_compacted() {
    // raw payload 0x00 0xFF 0x00 0x41 compacts to 0x00 0xFF 0x41: the
    // declared sub-field size of 3 speaks of the compacted bytes
    let mut body = Vec::new();
    body.extend(b"TIT2");
    body.extend([0, 0, 0, 3]);
    body.extend([0, 0]);
    body.extend([0x00, 0xFF, 0x00, 0x41]);
    let declared = (body.len() as u8 + 6) & !0b1010;
    let pad = declared as usize + 10 - body.len();
    body.extend(std::iter::repeat(0u8).take(pad));
    let mut data = container(0x80, declared, &body);
    data.extend(one_frame());
    let meta = read_from_slice(&data).unwrap();
    assert_eq!(meta.optional_info[0].title, Some("\u{FF}A".to_string()));
}

#[test]
fn unrecognized_subfields_are_skipped() {
    let mut body = subfield(b"XYZW", &[0x00, 1, 2, 3]);
    let declared = (body.len() as u8 + 6) & !0b1010;
    let pad = declared as usize + 10 - body.len();
    body.extend(std::iter::repeat(0u8).take(pad));
    let mut data = container(0, declared, &body);
    data.extend(one_frame());
    let meta = read_from_slice(&data).unwrap();
    assert!(meta.optional_info.is_empty());
}

#[test]
fn unsupported_major_version_is_skipped() {
    let mut data = Vec::new();
    data.extend(b"ID3");
    data.push(5); // past the highest supported major version
    data.extend(std::iter::repeat(0u8).take(20));
    data.extend(one_frame());
    let meta = read_from_slice(&data).unwrap();
    assert!(meta.optional_info.is_empty());
    assert_eq!(meta.frames.len(), 1);
}

#[test]
fn ape_marker_is_skipped() {
    let mut data = Vec::new();
    data.extend(b"APETAGEX");
    data.extend(std::iter::repeat(0u8).take(40));
    data.extend(one_frame());
    let meta = read_from_slice(&data).unwrap();
    assert!(meta.optional_info.is_empty());
    assert_eq!(meta.frames.len(), 1);
}

#[test]
fn empty_genre_text_still_marks_the_parse() {
    // a two-byte genre sub-field whose selector decodes to the empty
    // string assigns nothing, yet the attempted assignment is recorded
    let mut body = subfield(b"TCON", &[0x02, 0x00]);
    let declared = (body.len() as u8 + 6) & !0b1010;
    let pad = declared as usize + 10 - body.len();
    body.extend(std::iter::repeat(0u8).take(pad));
    let mut data = container(0, declared, &body);
    data.extend(one_frame());
    let meta = read_from_slice(&data).unwrap();
    assert_eq!(meta.optional_info.len(), 1);
    assert!(meta.optional_info[0].content_type.is_empty());
}
