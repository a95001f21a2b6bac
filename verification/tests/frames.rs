use mp3_metadata::read_from_slice;
use mp3_metadata::{ChannelType, Emphasis, Layer, Status, Version};

/// Builds a buffer of one frame from its four header bytes, padded with
/// zeros to the given total size, followed by a few trailing bytes so the
/// cursor ends past the frame and the end-of-scan check stays quiet.
fn stream_of(header: [u8; 4], size: usize) -> Vec<u8> {
    let mut v = header.to_vec();
    v.resize(size, 0);
    v.extend([0xAA; 5]);
    v
}

#[test]
fn padding_bit_adds_one_byte() {
    // same frame as FF FA 90 C0 with the padding bit set
    let meta = read_from_slice(&stream_of([0xFF, 0xFA, 0x92, 0xC0], 418)).unwrap();
    assert_eq!(meta.frames[0].size, 418);
    assert_eq!(meta.frames[0].padding, true);
}

#[test]
fn mpeg2_5_layer3_frame() {
    // version 2.5 (bits 00), layer 3, 32 kbit/s (index 4), 11025 Hz (index 0)
    let header = [0xFF, 0xE2, 0x40, 0xC0];
    // 576 / 8 * 32000 / 11025 = 208
    let meta = read_from_slice(&stream_of(header, 208)).unwrap();
    let f = &meta.frames[0];
    assert_eq!(f.version, Version::MPEG2_5);
    assert_eq!(f.layer, Layer::Layer3);
    assert_eq!(f.bitrate, 32);
    assert_eq!(f.sampling_freq, 11025);
    assert_eq!(f.size, 208);
}

#[test]
fn joint_stereo_mode_extension() {
    // channel mode 01 (joint stereo), mode extension 11: both flags
    // raised; the original bit and a reserved emphasis besides
    let header = [0xFF, 0xFA, 0x90, 0x76];
    let meta = read_from_slice(&stream_of(header, 417)).unwrap();
    let f = &meta.frames[0];
    assert_eq!(f.chan_type, ChannelType::JointStereo);
    assert_eq!(f.intensity_stereo, true);
    assert_eq!(f.ms_stereo, true);
    assert_eq!(f.status, Status::Original);
    assert_eq!(f.emphasis, Emphasis::Reserved);
}

#[test]
fn free_bitrate_frame_is_not_recorded() {
    // bitrate index 0 gives a free (zero) bitrate: the size computes to
    // zero and the decoder refuses the frame, so nothing else is found
    let mut v = vec![0xFF, 0xFA, 0x00, 0xC0];
    v.resize(40, 0);
    assert!(read_from_slice(&v).is_err());
}

#[test]
fn resynchronization_skips_garbage() {
    let mut v = vec![0x00, 0x13, 0x37];
    v.extend(stream_of([0xFF, 0xFA, 0x90, 0xC0], 417));
    let meta = read_from_slice(&v).unwrap();
    assert_eq!(meta.frames.len(), 1);
    assert_eq!(meta.frames[0].offset, 3);
}
