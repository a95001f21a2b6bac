//! The scanning engine: the frame-header decoder, the two tag extractors,
//! and the driver that threads a byte cursor through them, together with
//! the mathematical model of the whole scan.

use vstd::prelude::*;

use vstd::slice::slice_subrange;

use crate::enums::{
    channeltype_of_bits, copyright_of_bits, crc_of_bits, emphasis_of_bits, genre_of_code,
    layer_of_bits, status_of_bits, version_of_bits, ChannelType, Copyright, Emphasis, Error, Genre,
    Layer, Status, Version, CRC,
};
use crate::types::{
    dur_sum, dur_wf, meta_empty, AudioTag, AudioTagV, Duration, Frame, MP3Metadata, MP3MetadataV,
};
use crate::utils::{
    bitrate_at, bitrate_of, duration_of, get_line, get_samp_line, line_of, samp_line_of,
    sampling_freq_at, sampling_freq_of,
};

verus! {

/// The 32-bit big-endian word at byte offset `x`.
pub open spec fn word_at(b: Seq<u8>, x: int) -> u32 {
    (b[x] as int * 0x1000000 + b[x + 1] as int * 0x10000 + b[x + 2] as int * 0x100 + b[
        x + 3
    ] as int) as u32
}

/// Whether the word opens a frame: the sync pattern in the top bits, a
/// non-reserved layer, a non-reserved bitrate index and a non-reserved
/// sampling-frequency index.
pub open spec fn header_sync_ok(h: u32) -> bool {
    &&& h & 0xffe00000 == 0xffe00000
    &&& h & (3u32 << 17) != 0
    &&& h & (0xfu32 << 12) != (0xfu32 << 12)
    &&& h & (3u32 << 10) != (3u32 << 10)
}

/// How many samples one frame of this version and layer carries.
pub open spec fn frame_samples_of(v: Version, l: Layer) -> u64 {
    match l {
        Layer::Layer3 => if v == Version::MPEG1 {
            1152
        } else {
            576
        },
        Layer::Layer2 => 1152,
        Layer::Layer1 => 384,
        _ => 0,
    }
}

/// The frame byte size before the padding slot: samples over eight, times
/// the bitrate in bits per second, over the sampling frequency.
pub open spec fn frame_base_size(h: u32) -> int {
    let v = version_of_bits((h >> 19) & 3);
    let l = layer_of_bits((h >> 17) & 3);
    let bitrate = bitrate_of(line_of(v, l), ((h >> 12) & 0xF) as int);
    let sf = sampling_freq_of(samp_line_of(v), ((h >> 10) & 3) as int);
    if sf > 0 {
        (frame_samples_of(v, l) / 8) * bitrate * 1000 / (sf as int)
    } else {
        0
    }
}

/// The frame decoded from the word at offset `x`, stamped with the running
/// playback time `position`.
pub open spec fn frame_of(b: Seq<u8>, x: int, position: Duration) -> Frame {
    let h = word_at(b, x);
    let v = version_of_bits((h >> 19) & 3);
    let l = layer_of_bits((h >> 17) & 3);
    let bitrate = bitrate_of(line_of(v, l), ((h >> 12) & 0xF) as int);
    let sf = sampling_freq_of(samp_line_of(v), ((h >> 10) & 3) as int);
    let padding = (h >> 9) & 1 == 1;
    Frame {
        size: (frame_base_size(h) + if padding {
            1int
        } else {
            0
        }) as u32,
        version: v,
        layer: l,
        crc: crc_of_bits((h >> 16) & 1),
        bitrate,
        sampling_freq: sf,
        padding,
        private_bit: (h >> 8) & 1 == 1,
        chan_type: channeltype_of_bits((h >> 6) & 3),
        intensity_stereo: ((h >> 4) & 3) == 1 || ((h >> 4) & 3) == 3,
        ms_stereo: ((h >> 4) & 3) == 2 || ((h >> 4) & 3) == 3,
        copyright: copyright_of_bits((h >> 3) & 1),
        status: status_of_bits((h >> 2) & 1),
        emphasis: emphasis_of_bits(h & 3),
        duration: duration_of(v, l, sf),
        position,
        offset: x as u32,
    }
}

/// What a frame-header attempt at offset `x` does to the scan: nothing for
/// an invalid word or a zero computed size; otherwise the cursor moves past
/// the frame, the frame is recorded, and its duration joins the total.
pub open spec fn try_frame(b: Seq<u8>, x: u32, m: MP3MetadataV) -> Option<(u32, MP3MetadataV)> {
    let h = word_at(b, x as int);
    if header_sync_ok(h) && frame_base_size(h) >= 1 {
        let fr = frame_of(b, x as int, m.duration);
        let d2 = match fr.duration {
            Some(d) => dur_sum(m.duration, d),
            None => m.duration,
        };
        Some(
            (
                (x + fr.size) as u32,
                MP3MetadataV { duration: d2, frames: m.frames.push(fr), ..m },
            ),
        )
    } else {
        None
    }
}

/// The bit groups of a header word are small enough to index the tables.
proof fn lemma_header_masks(h: u32)
    by (bit_vector)
    ensures
        (h >> 19) & 3 < 4,
        (h >> 17) & 3 < 4,
        (h >> 16) & 1 < 2,
        (h >> 12) & 0xF < 16,
        (h >> 10) & 3 < 4,
        (h >> 6) & 3 < 4,
        (h >> 4) & 3 < 4,
        (h >> 3) & 1 < 2,
        (h >> 2) & 1 < 2,
        h & 3 < 4,
        h & (3u32 << 10) != (3u32 << 10) ==> (h >> 10) & 3 != 3,
{
}

/// Every sampling frequency of the table short of the reserved index is at
/// least eight kilohertz.
proof fn lemma_sampling_freq_at_least(line: int, idx: int)
    requires
        0 <= idx < 3,
    ensures
        sampling_freq_of(line, idx) >= 8000,
{
}

/// A product grows no faster than the bounds of its factors.
proof fn lemma_mul_bound(a: int, b: int, ca: int, cb: int)
    by (nonlinear_arith)
    requires
        0 <= a <= ca,
        0 <= b <= cb,
    ensures
        a * b <= ca * cb,
{
}

/// A division by a positive divisor never exceeds the dividend.
proof fn lemma_div_le(a: int, d: int)
    by (nonlinear_arith)
    requires
        a >= 0,
        d >= 1,
    ensures
        a / d <= a,
        a / d >= 0,
{
}

/// Decodes the frame header at the cursor; on success the frame is recorded
/// and the cursor advances by the frame's byte size.
#[verifier::rlimit(100)]
fn read_header(buf: &[u8], i: &mut u32, meta: &mut MP3Metadata) -> (r: Result<bool, Error>)
    requires
        buf@.len() < 0x8000_0000,
        *old(i) + 3 < buf@.len(),
        dur_wf(old(meta).duration),
        old(meta).duration.secs <= 1153 * old(meta).frames@.len(),
        old(meta).frames@.len() <= *old(i),
    ensures
        r is Ok,
        (match (r, try_frame(buf@, *old(i), old(meta)@)) {
            (Ok(true), Some((i2, m2))) => *final(i) == i2 && final(meta)@ == m2,
            (Ok(false), None) => *final(i) == *old(i) && final(meta)@ == old(meta)@ && *final(meta)
                == *old(meta),
            _ => false,
        }),
        *final(i) >= *old(i),
        *final(i) as int <= *old(i) + 0x4000000,
        dur_wf(final(meta).duration),
        final(meta).duration.secs <= 1153 * final(meta).frames@.len(),
        final(meta).frames@.len() <= *final(i),
{
    let x = *i as usize;
    let header: u32 = (buf[x] as u32) * 0x1000000 + (buf[x + 1] as u32) * 0x10000 + (buf[x
        + 2] as u32) * 0x100 + (buf[x + 3] as u32);
    proof {
        assert(header == word_at(buf@, *old(i) as int));
        lemma_header_masks(header);
    }
    if header & 0xffe00000 == 0xffe00000 && header & (3u32 << 17) != 0 && header & (0xfu32 << 12)
        != (0xfu32 << 12) && header & (3u32 << 10) != (3u32 << 10) {
        let version = Version::from_code((header >> 19) & 3);
        let layer = Layer::from_code((header >> 17) & 3);
        let crc = CRC::from_code((header >> 16) & 1);
        let bitrate = bitrate_at(get_line(version, layer), ((header >> 12) & 0xF) as usize);
        let sampling_freq = sampling_freq_at(
            get_samp_line(version),
            ((header >> 10) & 3) as usize,
        );
        let padding = (header >> 9) & 1 == 1;
        let private_bit = (header >> 8) & 1 == 1;
        let chan_type = ChannelType::from_code((header >> 6) & 3);
        let mode_ext = (header >> 4) & 3;
        let intensity_stereo = mode_ext == 1 || mode_ext == 3;
        let ms_stereo = mode_ext == 2 || mode_ext == 3;
        let copyright = Copyright::from_code((header >> 3) & 1);
        let status = Status::from_code((header >> 2) & 1);
        let emphasis = Emphasis::from_code(header & 3);
        let duration = crate::utils::compute_duration(version, layer, sampling_freq);
        let samples_per_frame: u64 = match layer {
            Layer::Layer3 => if version == Version::MPEG1 {
                1152
            } else {
                576
            },
            Layer::Layer2 => 1152,
            Layer::Layer1 => 384,
            _ => 0,
        };
        proof {
            lemma_sampling_freq_at_least(
                samp_line_of(version),
                ((header >> 10) & 3) as int,
            );
            lemma_div_le(
                (samples_per_frame / 8) as int * bitrate as int * 1000,
                sampling_freq as int,
            );
        }
        let base: u64 = samples_per_frame / 8 * (bitrate as u64) * 1000 / (sampling_freq as u64);
        if base < 1 {
            return Ok(false);
        }
        let size: u32 = if padding {
            (base + 1) as u32
        } else {
            base as u32
        };
        let frame = Frame {
            size,
            version,
            layer,
            crc,
            bitrate,
            sampling_freq,
            padding,
            private_bit,
            chan_type,
            intensity_stereo,
            ms_stereo,
            copyright,
            status,
            emphasis,
            duration,
            position: meta.duration,
            offset: *i,
        };
        proof {
            assert(frame == frame_of(buf@, *old(i) as int, old(meta)@.duration));
        }
        match duration {
            Some(d) => {
                meta.duration = meta.duration.add(d);
            },
            None => {},
        }
        *i = *i + size;
        meta.frames.push(frame);
        proof {
            assert(meta@ =~~= try_frame(buf@, *old(i), old(meta)@).unwrap().1);
        }
        Ok(true)
    } else {
        Ok(false)
    }
}

/// The bytes of a desynchronized region from position `i` on with every
/// `0xFF, 0x00` pair compacted to a bare `0xFF`, appended to `acc`.
pub open spec fn unsync_acc(s: Seq<u8>, i: int, acc: Seq<u8>) -> Seq<u8>
    decreases s.len() - i,
{
    if i < 0 || i >= s.len() {
        acc
    } else if s[i] == 0xFF && i + 1 < s.len() && s[i + 1] == 0 {
        unsync_acc(s, i + 2, acc.push(0xFF))
    } else {
        unsync_acc(s, i + 1, acc.push(s[i]))
    }
}

/// The bytes of a desynchronized region with every `0xFF, 0x00` pair
/// compacted to a bare `0xFF`.
pub open spec fn unsync_decode(s: Seq<u8>) -> Seq<u8> {
    unsync_acc(s, 0, Seq::empty())
}

/// Compacts a desynchronized region: every `0xFF, 0x00` pair becomes a
/// bare `0xFF`.
fn decode_unsync(body: &[u8]) -> (v: Vec<u8>)
    ensures
        v@ == unsync_decode(body@),
        v@.len() <= body@.len(),
{
    let n = body.len();
    let mut v: Vec<u8> = Vec::new();
    let mut i: usize = 0;
    while i < n
        invariant
            i <= n,
            n == body@.len(),
            v@.len() <= i,
            unsync_acc(body@, i as int, v@) == unsync_decode(body@),
        decreases n - i,
    {
        let b = body[i];
        if b == 0xFF && i + 1 < n && body[i + 1] == 0 {
            v.push(0xFF);
            i = i + 2;
        } else {
            v.push(b);
            i = i + 1;
        }
    }
    v
}

/// The identifier bytes of the sub-field at `pos`, packed big-endian:
/// three bytes for the oldest container version, four for the newer ones.
pub open spec fn subfield_id(w: Seq<u8>, pos: int, is3: bool) -> u32 {
    if is3 {
        (w[pos] as int * 0x10000 + w[pos + 1] as int * 0x100 + w[pos + 2] as int) as u32
    } else {
        (w[pos] as int * 0x1000000 + w[pos + 1] as int * 0x10000 + w[pos + 2] as int * 0x100 + w[
            pos + 3
        ] as int) as u32
    }
}

/// The declared size of the sub-field at `pos`: three big-endian bytes for
/// the oldest container version, four for version three, and four 7-bit
/// groups for the newest.
pub open spec fn subfield_size(w: Seq<u8>, pos: int, maj: u8) -> u32 {
    if maj < 3 {
        (w[pos + 5] as int + w[pos + 4] as int * 0x100 + w[pos + 3] as int * 0x10000) as u32
    } else if maj < 4 {
        (w[pos + 7] as int + w[pos + 6] as int * 0x100 + w[pos + 5] as int * 0x10000 + w[
            pos + 4
        ] as int * 0x1000000) as u32
    } else {
        (w[pos + 7] as u32) | ((w[pos + 6] as u32) << 7) | ((w[pos + 5] as u32) << 14) | ((w[
            pos + 4
        ] as u32) << 21)
    }
}

/// The accumulators after reading the sub-fields of `w` from `pos` on: the
/// iteration stops at the first position without room for another header,
/// with a leading byte that is no uppercase ASCII letter, or with a
/// declared size past the end of the region.
pub open spec fn fields_acc(w: Seq<u8>, maj: u8, pos: int, op: crate::types::OptionalAudioTagsV, changes: bool) -> (
    crate::types::OptionalAudioTagsV,
    bool,
)
    decreases w.len() - pos,
{
    let hdr: int = if maj < 3 {
        6
    } else {
        10
    };
    if pos < 0 || pos + hdr > w.len() {
        (op, changes)
    } else if w[pos] < 0x41 || w[pos] > 0x5A {
        (op, changes)
    } else {
        let id = subfield_id(w, pos, maj < 3);
        let fsize = subfield_size(w, pos, maj);
        let pos2 = pos + hdr;
        if pos2 + fsize > w.len() {
            (op, changes)
        } else {
            let r = crate::fields::field_step(w, maj < 3, id, pos2, fsize as int, op, changes);
            fields_acc(w, maj, pos2 + fsize, r.0, r.1)
        }
    }
}

/// Reads the sub-fields of `w` into the accumulators, dispatching each
/// recognized identifier to its slot.
fn parse_fields(w: &[u8], maj: u8, op: &mut crate::types::OptionalAudioTags, changes: &mut bool)
    requires
        w@.len() < 0x8000_0000,
    ensures
        (final(op)@, *final(changes)) == fields_acc(w@, maj, 0, old(op)@, *old(changes)),
{
    let hdr: usize = if maj < 3 {
        6
    } else {
        10
    };
    let n = w.len();
    let mut pos: usize = 0;
    loop
        invariant_except_break
            pos <= n,
            n == w@.len(),
            n < 0x8000_0000,
            hdr == (if maj < 3 { 6int } else { 10 }),
            fields_acc(w@, maj, pos as int, op@, *changes) == fields_acc(w@, maj, 0, old(op)@, *old(changes)),
        ensures
            (op@, *changes) == fields_acc(w@, maj, 0, old(op)@, *old(changes)),
        decreases n - pos,
    {
        if pos + hdr > n {
            break ;
        }
        let c = w[pos];
        if c < 0x41 || c > 0x5A {
            break ;
        }
        let id: u32;
        let fsize: u32;
        if maj < 3 {
            id = (w[pos] as u32) * 0x10000 + (w[pos + 1] as u32) * 0x100 + (w[pos + 2] as u32);
            fsize = (w[pos + 5] as u32) + (w[pos + 4] as u32) * 0x100 + (w[pos + 3] as u32)
                * 0x10000;
        } else {
            id = (w[pos] as u32) * 0x1000000 + (w[pos + 1] as u32) * 0x10000 + (w[pos + 2] as u32)
                * 0x100 + (w[pos + 3] as u32);
            if maj < 4 {
                fsize = (w[pos + 7] as u32) + (w[pos + 6] as u32) * 0x100 + (w[pos + 5] as u32)
                    * 0x10000 + (w[pos + 4] as u32) * 0x1000000;
            } else {
                fsize = (w[pos + 7] as u32) | ((w[pos + 6] as u32) << 7) | ((w[pos + 5] as u32)
                    << 14) | ((w[pos + 4] as u32) << 21);
            }
        }
        proof {
            assert(id == subfield_id(w@, pos as int, maj < 3));
            assert(fsize == subfield_size(w@, pos as int, maj));
        }
        let pos2 = pos + hdr;
        if (pos2 as u64) + (fsize as u64) > (n as u64) {
            break ;
        }
        crate::fields::apply_field(w, maj < 3, id, pos2, fsize, op, changes);
        pos = pos2 + fsize as usize;
    }
}

/// The legacy fixed tag whose marker stands at offset `x`: three fixed
/// 30-byte text fields, a numeric year, a comment of 30 bytes or of 28
/// before an old-style track marker, and a genre byte.
pub open spec fn tag_v1_of(b: Seq<u8>, x: int) -> AudioTagV {
    AudioTagV {
        title: crate::utils::utf8_or_empty(b.subrange(x + 3, x + 33)),
        artist: crate::utils::utf8_or_empty(b.subrange(x + 33, x + 63)),
        album: crate::utils::utf8_or_empty(b.subrange(x + 63, x + 93)),
        year: crate::utils::year_of(b.subrange(x + 93, x + 97)),
        comment: crate::utils::utf8_or_empty(
            b.subrange(x + 97, x + 97 + (if b[x + 125] != 0 { 30int } else { 28 })),
        ),
        genre: genre_of_code(b[x + 127]),
    }
}

/// The declared size of an extensible tag container at offset `x`, header
/// bytes folded in as the scan reads them.
pub open spec fn container_size(b: Seq<u8>, x: int) -> u32 {
    (b[x + 9] as u32) | ((b[x + 8] as u32) << 7) | ((b[x + 7] as u32) << 14) | (((((b[
        x + 6
    ] as u32) << 21) + 10) as u32))
}

/// The declared size of an extended header at offset `x1`.
pub open spec fn ext_header_size(b: Seq<u8>, x1: int) -> u32 {
    ((b[x1] as u32) << 21) | ((b[x1 + 1] as u32) << 14) | ((b[x1 + 2] as u32) << 7) | (b[
        x1 + 3
    ] as u32)
}

/// The container's declared size always covers its header and stays below
/// half a gigabyte.
proof fn lemma_container_size_bounds(b6: u8, b7: u8, b8: u8, b9: u8)
    by (bit_vector)
    ensures
        (b6 as u32) << 21 <= 0x1FE00000,
        10 <= ((b9 as u32) | ((b8 as u32) << 7) | ((b7 as u32) << 14) | (((((b6 as u32) << 21)
            + 10) as u32))),
        ((b9 as u32) | ((b8 as u32) << 7) | ((b7 as u32) << 14) | (((((b6 as u32) << 21) + 10) as u32)))
            < 0x20000000,
{
}

/// An extended header's declared size stays below half a gigabyte.
proof fn lemma_ext_size_bound(c0: u8, c1: u8, c2: u8, c3: u8)
    by (bit_vector)
    ensures
        (((c0 as u32) << 21) | ((c1 as u32) << 14) | ((c2 as u32) << 7) | (c3 as u32))
            < 0x20000000,
{
}

/// What an extensible tag container at the cursor does to the scan: an
/// unsupported major version leaves everything alone; otherwise the cursor
/// moves to the declared end, and the sub-fields are read — through the
/// desynchronization compaction when the header flags it — with the parse
/// recorded only when some slot was assigned.
pub open spec fn id3v2_step(b: Seq<u8>, i: u32, m: MP3MetadataV) -> (u32, MP3MetadataV) {
    let x = i as int;
    let maj = b[x + 3];
    let minv = b[x + 4];
    if maj > 4 {
        (i, m)
    } else {
        let tag_size = container_size(b, x) as int;
        let use_sync = b[x + 5] & 0x80 != 0;
        let has_ext = b[x + 5] & 0x40 != 0;
        let x1 = x + 10;
        if has_ext && x1 + 4 >= b.len() {
            (x1 as u32, m)
        } else if has_ext && ext_header_size(b, x1) < 4 {
            (i, m)
        } else {
            let x2 = if has_ext {
                x1 + ext_header_size(b, x1) - 4
            } else {
                x1
            };
            let ni = (x2 + tag_size) as u32;
            if x2 + tag_size >= b.len() {
                (ni, m)
            } else {
                let body = b.subrange(x2, x2 + tag_size);
                let wseq = if use_sync {
                    unsync_decode(body)
                } else {
                    body
                };
                let r = fields_acc(wseq, maj, 0, crate::types::opt_tags_empty(), false);
                if r.1 {
                    let op = crate::types::OptionalAudioTagsV {
                        position: m.frames.len() as u32,
                        major_version: maj,
                        minor_version: minv,
                        ..r.0
                    };
                    (ni, MP3MetadataV { optional_info: m.optional_info.push(op), ..m })
                } else {
                    (ni, m)
                }
            }
        }
    }
}

/// True when the eight-byte marker of the skipped auxiliary tag stands at
/// offset `x`.
pub open spec fn ape_marker_at(b: Seq<u8>, x: int) -> bool {
    &&& b[x] == 0x41
    &&& b[x + 1] == 0x50
    &&& b[x + 2] == 0x45
    &&& b[x + 3] == 0x54
    &&& b[x + 4] == 0x41
    &&& b[x + 5] == 0x47
    &&& b[x + 6] == 0x45
    &&& b[x + 7] == 0x58
}

/// True when the marker of the legacy fixed tag stands at offset `x`.
pub open spec fn tag_marker_at(b: Seq<u8>, x: int) -> bool {
    b[x] == 0x54 && b[x + 1] == 0x41 && b[x + 2] == 0x47
}

/// True when the marker of the extensible tag container stands at `x`.
pub open spec fn id3_marker_at(b: Seq<u8>, x: int) -> bool {
    b[x] == 0x49 && b[x + 1] == 0x44 && b[x + 2] == 0x33
}

/// What one tag-extraction attempt at the cursor does to the scan: the
/// auxiliary tag is skipped wholesale, a second fixed tag aborts the scan,
/// a first one is decoded and recorded, and an extensible container is
/// read as [`id3v2_step`] says; any other bytes leave everything alone.
pub open spec fn id3_step(b: Seq<u8>, i: u32, m: MP3MetadataV) -> Result<(u32, MP3MetadataV), Error> {
    let x = i as int;
    if b.len() > 32 && x + 32 < b.len() && ape_marker_at(b, x) {
        Ok(((i + 31) as u32, m))
    } else if b.len() > 127 && x + 127 < b.len() && tag_marker_at(b, x) {
        if m.tag is Some {
            Err(Error::DuplicatedIDV3)
        } else {
            Ok(((i + 128) as u32, MP3MetadataV { tag: Some(tag_v1_of(b, x)), ..m }))
        }
    } else if b.len() > x + 13 && id3_marker_at(b, x) {
        Ok(id3v2_step(b, i, m))
    } else {
        Ok((i, m))
    }
}

/// Decodes the legacy fixed tag whose marker stands at the cursor; a
/// second one in the same buffer aborts the scan.
#[verifier::rlimit(60)]
fn tag_v1_exec(i: &mut u32, buf: &[u8], meta: &mut MP3Metadata) -> (r: Result<(), Error>)
    requires
        buf@.len() < 0x8000_0000,
        *old(i) as int + 127 < buf@.len(),
    ensures
        (match r {
            Ok(()) => old(meta).tag is None && *final(i) == *old(i) + 128 && final(meta)@
                == (MP3MetadataV { tag: Some(tag_v1_of(buf@, *old(i) as int)), ..old(meta)@ }),
            Err(e) => e == Error::DuplicatedIDV3 && old(meta).tag is Some && *final(meta) == *old(
                meta,
            ) && *final(i) == *old(i),
        }),
        final(meta).duration == old(meta).duration,
        final(meta).frames@ == old(meta).frames@,
{
    let x = *i as usize;
    if meta.tag.is_some() {
        return Err(Error::DuplicatedIDV3);
    }
    let clen: usize = if buf[x + 125] != 0 {
        30
    } else {
        28
    };
    let tag = AudioTag {
        title: crate::utils::create_utf8_str(slice_subrange(buf, x + 3, x + 33)),
        artist: crate::utils::create_utf8_str(slice_subrange(buf, x + 33, x + 63)),
        album: crate::utils::create_utf8_str(slice_subrange(buf, x + 63, x + 93)),
        year: crate::utils::parse_year(slice_subrange(buf, x + 93, x + 97)),
        comment: crate::utils::create_utf8_str(slice_subrange(buf, x + 97, x + 97 + clen)),
        genre: Genre::from_code(buf[x + 127]),
    };
    meta.tag = Some(tag);
    *i = *i + 128;
    proof {
        assert(meta@ =~~= (MP3MetadataV {
            tag: Some(tag_v1_of(buf@, *old(i) as int)),
            ..old(meta)@
        }));
    }
    Ok(())
}

/// Reads the extensible tag container whose marker stands at the cursor.
#[verifier::rlimit(100)]
fn id3v2_exec(i: &mut u32, buf: &[u8], meta: &mut MP3Metadata)
    requires
        buf@.len() < 0x8000_0000,
        buf@.len() > *old(i) as int + 13,
    ensures
        (*final(i), final(meta)@) == id3v2_step(buf@, *old(i), old(meta)@),
        *final(i) >= *old(i),
        *final(i) == *old(i) || *final(i) as int <= buf@.len() + 0x40000000,
        final(meta).duration == old(meta).duration,
        final(meta).frames@ == old(meta).frames@,
{
    let x = *i as usize;
    let n = buf.len();
    let maj = buf[x + 3];
    let minv = buf[x + 4];
    if maj > 4 {
        return ;
    }
    proof {
        lemma_container_size_bounds(buf@[x + 6], buf@[x + 7], buf@[x + 8], buf@[x + 9]);
    }
    let tag_size_u32: u32 = (buf[x + 9] as u32) | ((buf[x + 8] as u32) << 7) | ((buf[x
        + 7] as u32) << 14) | (((buf[x + 6] as u32) << 21) + 10);
    proof {
        assert(tag_size_u32 == container_size(buf@, x as int));
    }
    let use_sync = buf[x + 5] & 0x80 != 0;
    let has_ext = buf[x + 5] & 0x40 != 0;
    let mut x2 = x + 10;
    if has_ext {
        if x2 + 4 >= n {
            *i = x2 as u32;
            return ;
        }
        let hsize: u32 = ((buf[x2] as u32) << 21) | ((buf[x2 + 1] as u32) << 14) | ((buf[x2
            + 2] as u32) << 7) | (buf[x2 + 3] as u32);
        proof {
            lemma_ext_size_bound(buf@[x2 as int], buf@[x2 + 1], buf@[x2 + 2], buf@[x2 + 3]);
            assert(hsize == ext_header_size(buf@, x2 as int));
        }
        if hsize < 4 {
            return ;
        }
        x2 = x2 + (hsize as usize - 4);
    }
    let tag_size = tag_size_u32 as usize;
    *i = (x2 + tag_size) as u32;
    if x2 + tag_size >= n {
        return ;
    }
    let body = slice_subrange(buf, x2, x2 + tag_size);
    let mut op = crate::types::OptionalAudioTags::default();
    let mut changes = false;
    if use_sync {
        let wv = decode_unsync(body);
        parse_fields(wv.as_slice(), maj, &mut op, &mut changes);
    } else {
        parse_fields(body, maj, &mut op, &mut changes);
    }
    if changes {
        op.position = meta.frames.len() as u32;
        op.major_version = maj;
        op.minor_version = minv;
        meta.optional_info.push(op);
        proof {
            assert(meta@ =~~= (MP3MetadataV {
                optional_info: old(meta)@.optional_info.push(op@),
                ..old(meta)@
            }));
        }
    }
}

/// Attempts tag extraction at the cursor.
fn get_id3(i: &mut u32, buf: &[u8], meta: &mut MP3Metadata) -> (r: Result<(), Error>)
    requires
        buf@.len() < 0x8000_0000,
        *old(i) as int <= buf@.len() + 0x40000000,
    ensures
        (match (r, id3_step(buf@, *old(i), old(meta)@)) {
            (Ok(()), Ok((i2, m2))) => *final(i) == i2 && final(meta)@ == m2,
            (Err(e), Err(e2)) => e == e2,
            _ => false,
        }),
        *final(i) >= *old(i),
        *final(i) == *old(i) || *final(i) as int <= buf@.len() + 0x40000000,
        final(meta).duration == old(meta).duration,
        final(meta).frames@ == old(meta).frames@,
{
    let x = *i as usize;
    let n = buf.len();
    if n > 32 && x + 32 < n && buf[x] == 0x41 && buf[x + 1] == 0x50 && buf[x + 2] == 0x45 && buf[x
        + 3] == 0x54 && buf[x + 4] == 0x41 && buf[x + 5] == 0x47 && buf[x + 6] == 0x45 && buf[x
        + 7] == 0x58 {
        *i = *i + 31;
        Ok(())
    } else if n > 127 && x + 127 < n && buf[x] == 0x54 && buf[x + 1] == 0x41 && buf[x + 2]
        == 0x47 {
        tag_v1_exec(i, buf, meta)
    } else if n > x + 13 && buf[x] == 0x49 && buf[x + 1] == 0x44 && buf[x + 2] == 0x33 {
        id3v2_exec(i, buf, meta);
        Ok(())
    } else {
        Ok(())
    }
}

/// How many bytes are left before the cursor reaches the end.
pub open spec fn scan_rem(b: Seq<u8>, i: u32) -> int {
    if i as int <= b.len() {
        b.len() - i
    } else {
        0
    }
}

/// A tag-extraction attempt never moves the cursor backwards and touches
/// neither the frames nor the running time.
pub(crate) proof fn lemma_id3_step_cursor(b: Seq<u8>, i: u32, m: MP3MetadataV)
    requires
        b.len() < 0x8000_0000,
    ensures
        (match id3_step(b, i, m) {
            Ok((i2, m2)) => i2 >= i && m2.frames == m.frames && m2.duration == m.duration,
            Err(_) => true,
        }),
{
    let x = i as int;
    if b.len() > 32 && x + 32 < b.len() && ape_marker_at(b, x) {
    } else if b.len() > 127 && x + 127 < b.len() && tag_marker_at(b, x) {
    } else if b.len() > x + 13 && id3_marker_at(b, x) {
        lemma_container_size_bounds(b[x + 6], b[x + 7], b[x + 8], b[x + 9]);
        let maj = b[x + 3];
        if maj <= 4 {
            let has_ext = b[x + 5] & 0x40 != 0;
            let x1 = x + 10;
            if has_ext && x1 + 4 >= b.len() {
            } else if has_ext && ext_header_size(b, x1) < 4 {
            } else {
                lemma_ext_size_bound(b[x1], b[x1 + 1], b[x1 + 2], b[x1 + 3]);
            }
        }
    }
}

/// The computed frame size is nonnegative and bounded by the largest
/// table product.
pub(crate) proof fn lemma_frame_base_bound(b: Seq<u8>, x: u32)
    ensures
        0 <= frame_base_size(word_at(b, x as int)) <= 64512000,
{
    let h = word_at(b, x as int);
    lemma_header_masks(h);
    let v = version_of_bits((h >> 19) & 3);
    let l = layer_of_bits((h >> 17) & 3);
    let bitrate = bitrate_of(line_of(v, l), ((h >> 12) & 0xF) as int);
    let sf = sampling_freq_of(samp_line_of(v), ((h >> 10) & 3) as int);
    if sf > 0 {
        assert(bitrate <= 448);
        assert(frame_samples_of(v, l) / 8 <= 144);
        lemma_mul_bound((frame_samples_of(v, l) / 8) as int, bitrate as int, 144, 448);
        lemma_div_le((frame_samples_of(v, l) / 8) as int * bitrate * 1000, sf as int);
    }
}

/// A successful frame decode moves the cursor strictly forward.
pub(crate) proof fn lemma_try_frame_cursor(b: Seq<u8>, x: u32, m: MP3MetadataV)
    requires
        b.len() < 0x8000_0000,
        x + 3 < b.len(),
    ensures
        (match try_frame(b, x, m) {
            Some((i2, m2)) => i2 > x && m2.frames.len() == m.frames.len() + 1,
            None => true,
        }),
{
    let h = word_at(b, x as int);
    lemma_header_masks(h);
    if header_sync_ok(h) && frame_base_size(h) >= 1 {
        let v = version_of_bits((h >> 19) & 3);
        let l = layer_of_bits((h >> 17) & 3);
        let bitrate = bitrate_of(line_of(v, l), ((h >> 12) & 0xF) as int);
        let sf = sampling_freq_of(samp_line_of(v), ((h >> 10) & 3) as int);
        assert(bitrate <= 448);
        assert(frame_samples_of(v, l) / 8 <= 144);
        lemma_sampling_freq_at_least(samp_line_of(v), ((h >> 10) & 3) as int);
        lemma_mul_bound((frame_samples_of(v, l) / 8) as int, bitrate as int, 144, 448);
        lemma_div_le((frame_samples_of(v, l) / 8) as int * bitrate * 1000, sf as int);
        assert(frame_base_size(h) <= 64512000);
    }
}

/// The scan from cursor `i` on with partial result `m`: tag extraction,
/// the end check, a frame attempt, a second tag attempt, and the one-byte
/// resynchronization step, repeated to the end of the buffer.  Buffers at
/// or past two gigabytes are outside the cursor's range and left alone.
pub open spec fn scan_from(b: Seq<u8>, i: u32, m: MP3MetadataV) -> Result<(u32, MP3MetadataV), Error>
    decreases scan_rem(b, i),
    via scan_from_dec
{
    if b.len() >= 0x8000_0000 {
        Ok((i, m))
    } else if i as int >= b.len() {
        Ok((i, m))
    } else {
        match id3_step(b, i, m) {
            Err(e) => Err(e),
            Ok((i1, m1)) => {
                if i1 + 3 >= b.len() {
                    Ok((i1, m1))
                } else {
                    match try_frame(b, i1, m1) {
                        Some((i2, m2)) => scan_from(b, i2, m2),
                        None => match id3_step(b, i1, m1) {
                            Err(e) => Err(e),
                            Ok((i3, m3)) => {
                                let i4: u32 = if i3 == i1 {
                                    (i3 + 1) as u32
                                } else {
                                    i3
                                };
                                if i4 as int >= b.len() {
                                    Ok((i4, m3))
                                } else {
                                    scan_from(b, i4, m3)
                                }
                            },
                        },
                    }
                }
            },
        }
    }
}

#[via_fn]
proof fn scan_from_dec(b: Seq<u8>, i: u32, m: MP3MetadataV) {
    if b.len() < 0x8000_0000 && (i as int) < b.len() {
        lemma_id3_step_cursor(b, i, m);
        match id3_step(b, i, m) {
            Ok((i1, m1)) => {
                if i1 + 3 < b.len() {
                    lemma_try_frame_cursor(b, i1, m1);
                    lemma_id3_step_cursor(b, i1, m1);
                }
            },
            Err(_) => {},
        }
    }
}

/// The whole scan of a buffer, started with the empty result.
pub open spec fn scan_result(b: Seq<u8>) -> Result<(u32, MP3MetadataV), Error> {
    scan_from(b, 0, meta_empty())
}

/// What reading a buffer yields: the scan's result, held to the end
/// checks — the last frame must end before the final cursor unless a fixed
/// tag closed the stream, and a scan without a single frame is no MPEG
/// audio at all.
pub open spec fn parse_of(b: Seq<u8>) -> Result<MP3MetadataV, Error> {
    match scan_result(b) {
        Err(e) => Err(e),
        Ok((i, m)) => {
            if m.tag is None && m.frames.len() > 0 && i <= m.frames.last().size {
                Err(Error::InvalidData)
            } else if m.frames.len() == 0 {
                Err(Error::NotMP3)
            } else {
                Ok(m)
            }
        },
    }
}

/// True when an in-memory read returned exactly what the model of the
/// scan says the buffer holds.
pub open spec fn read_matches(r: Result<MP3Metadata, Error>, b: Seq<u8>) -> bool {
    match (r, parse_of(b)) {
        (Ok(m), Ok(mv)) => m@ == mv,
        (Err(e), Err(e2)) => e == e2,
        _ => false,
    }
}

/// Reads the metadata of an MPEG audio stream held in memory: its frames,
/// at most one legacy fixed tag, and every extensible tag container that
/// assigned a sub-field.
///
/// The buffer must stay below two gigabytes: the scan addresses it through
/// 32-bit offsets, as the `offset` field of [`Frame`] does.
pub fn read_from_slice(buf: &[u8]) -> (r: Result<MP3Metadata, Error>)
    requires
        buf@.len() < 0x8000_0000,
    ensures
        read_matches(r, buf@),
{
    let mut meta = MP3Metadata {
        duration: Duration::new(0, 0),
        frames: Vec::new(),
        tag: None,
        optional_info: Vec::new(),
    };
    proof {
        assert(meta@ =~~= meta_empty());
    }
    let mut i: u32 = 0;
    let n = buf.len();
    let n32 = n as u32;
    while i < n32
        invariant_except_break
            buf@.len() < 0x8000_0000,
            n == buf@.len(),
            n32 == n,
            i as int <= buf@.len() + 0x40000000,
            scan_from(buf@, i, meta@) == scan_result(buf@),
            dur_wf(meta.duration),
            meta.duration.secs <= 1153 * meta.frames@.len(),
            meta.frames@.len() <= i,
        ensures
            scan_result(buf@) == Ok::<_, Error>((i, meta@)),
        decreases n32 + 0x40000001u64 - i,
    {
        match get_id3(&mut i, buf, &mut meta) {
            Err(e) => {
                return Err(e);
            },
            Ok(()) => {},
        }
        if i + 3 >= n32 {
            break ;
        }
        let hr = match read_header(buf, &mut i, &mut meta) {
            Err(e) => {
                return Err(e);
            },
            Ok(v) => v,
        };
        if !hr {
            let old_i = i;
            match get_id3(&mut i, buf, &mut meta) {
                Err(e) => {
                    return Err(e);
                },
                Ok(()) => {},
            }
            if i == old_i {
                i = i + 1;
            }
            if i >= n32 {
                break ;
            }
        }
    }
    if meta.tag.is_none() {
        if meta.frames.len() > 0 {
            let last_size = meta.frames[meta.frames.len() - 1].size;
            if i <= last_size {
                return Err(Error::InvalidData);
            }
        }
    }
    if meta.frames.len() == 0 {
        Err(Error::NotMP3)
    } else {
        Ok(meta)
    }
}

} // verus!
