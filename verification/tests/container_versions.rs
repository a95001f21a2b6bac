use mp3_metadata::read_from_slice;

fn one_frame() -> Vec<u8> {
    let mut v = vec![0xFF, 0xFA, 0x90, 0xC0];
    v.extend(std::iter::repeat(0u8).take(413));
    v
}

/// An extensible tag container of the given major version; `declared` must
/// not collide with the header fold of the size bytes.
fn container(major: u8, flags: u8, declared: u8, body: &[u8]) -> Vec<u8> {
    assert_eq!(declared & 0b1010, 0, "the size byte must not collide");
    let mut v = Vec::new();
    v.extend(b"ID3");
    v.push(major);
    v.push(1);
    v.push(flags);
    v.extend([0, 0, 0, declared]);
    v.extend(body);
    v
}

#[test]
fn oldest_version_uses_three_letter_identifiers() {
    // a version-2 container: "TIT" + 3-byte size + payload
    let mut body = Vec::new();
    body.extend(b"TIT");
    body.extend([0, 0, 4]);
    body.extend([0x00, b'O', b'l', b'd']);
    let declared = 20u8; // region of 30 bytes covers the 10 field bytes
    body.resize(declared as usize + 10, 0);
    let mut data = container(2, 0, declared, &body);
    data.extend(one_frame());
    let meta = read_from_slice(&data).unwrap();
    assert_eq!(meta.optional_info.len(), 1);
    assert_eq!(meta.optional_info[0].major_version, 2);
    assert_eq!(meta.optional_info[0].minor_version, 1);
    assert_eq!(meta.optional_info[0].title, Some("Old".to_string()));
}

#[test]
fn newest_version_uses_seven_bit_sizes() {
    // a version-4 container: four-letter identifier, 7-bit-group size
    let mut body = Vec::new();
    body.extend(b"TALB");
    body.extend([0, 0, 1, 0x04]); // 7-bit groups: 1 * 128 + 4 = 132
    body.extend([0, 0]);
    let mut payload = vec![0x00];
    payload.extend(std::iter::repeat(b'a').take(131));
    body.extend(&payload);
    let declared = 0xC4u8; // 196: region of 206 bytes covers the field
    body.resize(declared as usize + 10, 0);
    let mut data = container(4, 0, declared, &body);
    data.extend(one_frame());
    let meta = read_from_slice(&data).unwrap();
    let album = meta.optional_info[0].album_movie_show.clone().unwrap();
    assert_eq!(album.len(), 131);
    assert!(album.chars().all(|c| c == 'a'));
}

#[test]
fn extended_header_is_skipped() {
    // flag bit 6: an extended header of declared size 8 sits before the
    // sub-fields, which begin four bytes past its size field
    let mut body = Vec::new();
    body.extend([0, 0, 0, 8]); // extended header size, 7-bit groups
    body.extend(b"TIT2");
    body.extend([0, 0, 0, 3]);
    body.extend([0, 0]);
    body.extend([0x00, b'E', b'h']);
    let declared = 20u8;
    body.resize(4 + declared as usize + 10, 0);
    let mut data = container(3, 0x40, declared, &body);
    data.extend(one_frame());
    let meta = read_from_slice(&data).unwrap();
    assert_eq!(meta.optional_info[0].title, Some("Eh".to_string()));
}

#[test]
fn container_counts_frames_already_seen() {
    let mut body = Vec::new();
    body.extend(b"TIT2");
    body.extend([0, 0, 0, 3]);
    body.extend([0, 0]);
    body.extend([0x00, b'H', b'i']);
    let declared = 20u8;
    body.resize(declared as usize + 10, 0);
    let mut data = one_frame();
    data.extend(container(3, 0, declared, &body));
    data.extend(one_frame());
    let meta = read_from_slice(&data).unwrap();
    assert_eq!(meta.frames.len(), 2);
    assert_eq!(meta.optional_info[0].position, 1);
}
