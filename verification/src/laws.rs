//! The laws of the scan: statements that hold of every read, proved once
//! and for all against the model.

use vstd::prelude::*;

use crate::enums::Error;
use crate::metadata::{
    frame_of, header_sync_ok, id3_step, parse_of, read_matches, scan_from, scan_rem,
    tag_marker_at, try_frame, unsync_acc, unsync_decode, word_at,
};
use crate::types::{dur_sum, dur_wf, dur_zero, meta_empty, Frame, MP3Metadata, MP3MetadataV};
use crate::utils::{bitrate_of, duration_of, line_of, samp_line_of, sampling_freq_of};
use crate::Version;

verus! {

/// Reading the same buffer twice yields structurally equal results: the
/// outcome is a function of the bytes alone.
pub proof fn lemma_read_from_slice_idempotent(
    b: Seq<u8>,
    r1: Result<MP3Metadata, Error>,
    r2: Result<MP3Metadata, Error>,
)
    requires
        read_matches(r1, b),
        read_matches(r2, b),
    ensures
        (match (r1, r2) {
            (Ok(m1), Ok(m2)) => m1@ == m2@,
            (Err(e1), Err(e2)) => e1 == e2,
            _ => false,
        }),
{
}

/// True of a frame the scan may record: its size is positive, the word at
/// its offset carries the sync pattern, every field is the decode of that
/// word — the bitrate and sampling frequency in particular equal the table
/// entries their indices select — and the playback time is absent exactly
/// when the sampling frequency is zero or the version carries none.
pub open spec fn frame_recorded_ok(b: Seq<u8>, fr: crate::types::Frame) -> bool {
    let h = word_at(b, fr.offset as int);
    &&& fr.size > 0
    &&& header_sync_ok(h)
    &&& fr == frame_of(b, fr.offset as int, fr.position)
    &&& fr.bitrate == bitrate_of(line_of(fr.version, fr.layer), ((h >> 12) & 0xF) as int)
    &&& fr.sampling_freq == sampling_freq_of(samp_line_of(fr.version), ((h >> 10) & 3) as int)
    &&& (fr.duration is None <==> (fr.sampling_freq == 0 || (fr.version != Version::MPEG1
        && fr.version != Version::MPEG2 && fr.version != Version::MPEG2_5)))
}

/// True when every recorded frame of `m` satisfies [`frame_recorded_ok`].
pub open spec fn frames_ok(b: Seq<u8>, m: MP3MetadataV) -> bool {
    forall|k: int| 0 <= k < m.frames.len() ==> frame_recorded_ok(b, #[trigger] m.frames[k])
}

/// The scan only ever appends frames that satisfy [`frame_recorded_ok`].
proof fn lemma_scan_frames_ok(b: Seq<u8>, i: u32, m: MP3MetadataV)
    requires
        frames_ok(b, m),
    ensures
        (match scan_from(b, i, m) {
            Ok((i2, m2)) => frames_ok(b, m2),
            Err(_) => true,
        }),
    decreases scan_rem(b, i),
{
    if b.len() >= 0x8000_0000 || i as int >= b.len() {
    } else {
        crate::metadata::lemma_id3_step_cursor(b, i, m);
        lemma_id3_step_frames(b, i, m);
        match id3_step(b, i, m) {
            Err(_) => {},
            Ok((i1, m1)) => {
                if i1 + 3 >= b.len() {
                } else {
                    crate::metadata::lemma_try_frame_cursor(b, i1, m1);
                    lemma_try_frame_ok(b, i1, m1);
                    match try_frame(b, i1, m1) {
                        Some((i2, m2)) => {
                            lemma_scan_frames_ok(b, i2, m2);
                        },
                        None => {
                            crate::metadata::lemma_id3_step_cursor(b, i1, m1);
                            lemma_id3_step_frames(b, i1, m1);
                            match id3_step(b, i1, m1) {
                                Err(_) => {},
                                Ok((i3, m3)) => {
                                    let i4: u32 = if i3 == i1 {
                                        (i3 + 1) as u32
                                    } else {
                                        i3
                                    };
                                    if i4 as int >= b.len() {
                                    } else {
                                        lemma_scan_frames_ok(b, i4, m3);
                                    }
                                },
                            }
                        },
                    }
                }
            },
        }
    }
}

/// Tag extraction leaves the recorded frames untouched.
proof fn lemma_id3_step_frames(b: Seq<u8>, i: u32, m: MP3MetadataV)
    requires
        frames_ok(b, m),
    ensures
        (match id3_step(b, i, m) {
            Ok((i2, m2)) => m2.frames == m.frames && frames_ok(b, m2),
            Err(_) => true,
        }),
{
}

/// A successful frame decode appends a frame satisfying
/// [`frame_recorded_ok`].
proof fn lemma_try_frame_ok(b: Seq<u8>, x: u32, m: MP3MetadataV)
    requires
        b.len() < 0x8000_0000,
        x + 3 < b.len(),
        frames_ok(b, m),
    ensures
        (match try_frame(b, x, m) {
            Some((i2, m2)) => frames_ok(b, m2),
            None => true,
        }),
{
    let h = word_at(b, x as int);
    crate::metadata::lemma_frame_base_bound(b, x);
    if header_sync_ok(h) && crate::metadata::frame_base_size(h) >= 1 {
        let fr = frame_of(b, x as int, m.duration);
        assert(frame_recorded_ok(b, fr));
        let m2 = try_frame(b, x, m).unwrap().1;
        assert forall|k: int| 0 <= k < m2.frames.len() implies frame_recorded_ok(
            b,
            #[trigger] m2.frames[k],
        ) by {
            if k < m.frames.len() {
                assert(m2.frames[k] == m.frames[k]);
            } else {
                assert(m2.frames[k] == fr);
            }
        }
    }
}

/// Every frame of a successful read satisfies [`frame_recorded_ok`]: in
/// particular its size is positive and its bitrate and sampling frequency
/// are the table entries selected by the decoded indices.
pub proof fn lemma_frames_well_formed(b: Seq<u8>, m: MP3MetadataV)
    requires
        parse_of(b) == Ok::<MP3MetadataV, Error>(m),
    ensures
        frames_ok(b, m),
{
    assert(frames_ok(b, crate::types::meta_empty()));
    lemma_scan_frames_ok(b, 0, crate::types::meta_empty());
}

/// The compaction of a region is the accumulator followed by the
/// compaction started empty.
proof fn lemma_unsync_acc_prefix(s: Seq<u8>, i: int, acc: Seq<u8>)
    ensures
        unsync_acc(s, i, acc) == acc + unsync_acc(s, i, Seq::empty()),
    decreases s.len() - i,
{
    if i < 0 || i >= s.len() {
        assert(acc + Seq::<u8>::empty() =~= acc);
    } else if s[i] == 0xFF && i + 1 < s.len() && s[i + 1] == 0 {
        lemma_unsync_acc_prefix(s, i + 2, acc.push(0xFF));
        lemma_unsync_acc_prefix(s, i + 2, Seq::<u8>::empty().push(0xFF));
        assert(acc.push(0xFFu8) + unsync_acc(s, i + 2, Seq::empty()) =~= acc + (Seq::<
            u8,
        >::empty().push(0xFF) + unsync_acc(s, i + 2, Seq::empty())));
    } else {
        lemma_unsync_acc_prefix(s, i + 1, acc.push(s[i]));
        lemma_unsync_acc_prefix(s, i + 1, Seq::<u8>::empty().push(s[i]));
        assert(acc.push(s[i]) + unsync_acc(s, i + 1, Seq::empty()) =~= acc + (Seq::<
            u8,
        >::empty().push(s[i]) + unsync_acc(s, i + 1, Seq::empty())));
    }
}

/// The compaction from position `k` on is the compaction of the region
/// with the first `k` bytes dropped.
proof fn lemma_unsync_skip(s: Seq<u8>, k: int)
    requires
        0 <= k <= s.len(),
    ensures
        unsync_acc(s, k, Seq::empty()) == unsync_decode(s.skip(k)),
    decreases s.len() - k,
{
    let t = s.skip(k);
    if k >= s.len() {
        assert(t.len() == 0);
    } else {
        assert(t[0] == s[k]);
        if s[k] == 0xFF && k + 1 < s.len() && s[k + 1] == 0 {
            assert(t[1] == s[k + 1]);
            lemma_unsync_acc_prefix(s, k + 2, Seq::<u8>::empty().push(0xFF));
            lemma_unsync_skip(s, k + 2);
            lemma_unsync_acc_prefix(t, 2, Seq::<u8>::empty().push(0xFF));
            lemma_unsync_skip(t, 2);
            assert(s.skip(k + 2) =~= t.skip(2));
        } else {
            lemma_unsync_acc_prefix(s, k + 1, Seq::<u8>::empty().push(s[k]));
            lemma_unsync_skip(s, k + 1);
            lemma_unsync_acc_prefix(t, 1, Seq::<u8>::empty().push(t[0]));
            lemma_unsync_skip(t, 1);
            assert(s.skip(k + 1) =~= t.skip(1));
        }
    }
}

/// Within a desynchronized container, every occurrence of the byte pair
/// `0xFF, 0x00` in the raw body is rendered as a single `0xFF` in the
/// compacted body used for sub-field decoding; every other byte passes
/// through unchanged.
pub proof fn lemma_unsync_renders_pairs(s: Seq<u8>)
    ensures
        s.len() == 0 ==> unsync_decode(s) == Seq::<u8>::empty(),
        (s.len() >= 2 && s[0] == 0xFF && s[1] == 0) ==> unsync_decode(s) == seq![0xFFu8]
            + unsync_decode(s.skip(2)),
        (s.len() >= 1 && !(s.len() >= 2 && s[0] == 0xFF && s[1] == 0)) ==> unsync_decode(s)
            == seq![s[0]] + unsync_decode(s.skip(1)),
{
    if s.len() == 0 {
    } else if s.len() >= 2 && s[0] == 0xFF && s[1] == 0 {
        lemma_unsync_acc_prefix(s, 2, Seq::<u8>::empty().push(0xFF));
        lemma_unsync_skip(s, 2);
        assert(Seq::<u8>::empty().push(0xFFu8) =~= seq![0xFFu8]);
    } else {
        lemma_unsync_acc_prefix(s, 1, Seq::<u8>::empty().push(s[0]));
        lemma_unsync_skip(s, 1);
        assert(Seq::<u8>::empty().push(s[0]) =~= seq![s[0]]);
    }
}

/// A buffer shorter than one frame header reads as no MPEG audio at all.
pub proof fn lemma_short_buffer_not_mp3(b: Seq<u8>)
    requires
        b.len() < 4,
    ensures
        parse_of(b) == Err::<MP3MetadataV, Error>(Error::NotMP3),
{
    assert(scan_from(b, 0, meta_empty()) == Ok::<(u32, MP3MetadataV), Error>(
        (0u32, meta_empty()),
    ));
}

/// True when no offset of the buffer carries a word with a valid sync
/// pattern.
pub open spec fn no_sync_anywhere(b: Seq<u8>) -> bool {
    forall|j: int| 0 <= j && j + 3 < b.len() ==> !header_sync_ok(#[trigger] word_at(b, j))
}

/// True when at most one offset of the buffer can trigger the legacy
/// fixed-tag extractor.
pub open spec fn at_most_one_tag_marker(b: Seq<u8>) -> bool {
    forall|j: int, k: int|
        (0 <= j && j + 127 < b.len() && #[trigger] tag_marker_at(b, j) && 0 <= k && k + 127
            < b.len() && #[trigger] tag_marker_at(b, k)) ==> j == k
}

/// The partial scan state on such a buffer: no frame yet, and a recorded
/// fixed tag always stems from a marker the cursor has passed.
spec fn no_sync_state(b: Seq<u8>, i: u32, m: MP3MetadataV) -> bool {
    &&& m.frames.len() == 0
    &&& (m.tag is Some ==> exists|j: int|
        0 <= j && j + 127 < b.len() && #[trigger] tag_marker_at(b, j) && j < i)
}

/// One tag-extraction attempt keeps that state: the only fixed tag ever
/// recorded came from the single marker, so no duplicate can arise.
proof fn lemma_id3_step_no_dup(b: Seq<u8>, i: u32, m: MP3MetadataV)
    requires
        b.len() < 0x8000_0000,
        at_most_one_tag_marker(b),
        no_sync_state(b, i, m),
    ensures
        (match id3_step(b, i, m) {
            Ok((i2, m2)) => no_sync_state(b, i2, m2) && i2 >= i,
            Err(_) => false,
        }),
{
    crate::metadata::lemma_id3_step_cursor(b, i, m);
    let x = i as int;
    if b.len() > 127 && x + 127 < b.len() && tag_marker_at(b, x) && m.tag is Some {
        let j = choose|j: int|
            0 <= j && j + 127 < b.len() && #[trigger] tag_marker_at(b, j) && j < i;
        assert(j == x);
        assert(false);
    }
}

/// A buffer without a single valid sync pattern, and with at most one
/// fixed-tag marker, reads as no MPEG audio at all.
pub proof fn lemma_no_sync_not_mp3(b: Seq<u8>)
    requires
        b.len() < 0x8000_0000,
        no_sync_anywhere(b),
        at_most_one_tag_marker(b),
    ensures
        parse_of(b) == Err::<MP3MetadataV, Error>(Error::NotMP3),
{
    lemma_no_sync_scan(b, 0, meta_empty());
}

/// The scan of such a buffer runs to its end without recording a frame
/// and without an error.
proof fn lemma_no_sync_scan(b: Seq<u8>, i: u32, m: MP3MetadataV)
    requires
        b.len() < 0x8000_0000,
        no_sync_anywhere(b),
        at_most_one_tag_marker(b),
        no_sync_state(b, i, m),
    ensures
        (match scan_from(b, i, m) {
            Ok((i2, m2)) => m2.frames.len() == 0,
            Err(_) => false,
        }),
    decreases scan_rem(b, i),
{
    if b.len() >= 0x8000_0000 || i as int >= b.len() {
    } else {
        lemma_id3_step_no_dup(b, i, m);
        match id3_step(b, i, m) {
            Err(_) => {},
            Ok((i1, m1)) => {
                if i1 + 3 >= b.len() {
                } else {
                    assert(!header_sync_ok(word_at(b, i1 as int)));
                    assert(try_frame(b, i1, m1) is None);
                    lemma_id3_step_no_dup(b, i1, m1);
                    match id3_step(b, i1, m1) {
                        Err(_) => {},
                        Ok((i3, m3)) => {
                            let i4: u32 = if i3 == i1 {
                                (i3 + 1) as u32
                            } else {
                                i3
                            };
                            if i4 as int >= b.len() {
                            } else {
                                lemma_no_sync_scan(b, i4, m3);
                            }
                        },
                    }
                }
            },
        }
    }
}

/// The playback time of a run of frames: the sum of the durations they
/// carry, frames without one adding nothing.
pub open spec fn sum_durations(frames: Seq<Frame>) -> crate::types::Duration
    decreases frames.len(),
{
    if frames.len() == 0 {
        dur_zero()
    } else {
        match frames.last().duration {
            Some(d) => dur_sum(sum_durations(frames.drop_last()), d),
            None => sum_durations(frames.drop_last()),
        }
    }
}

/// True when the total of `m` is the sum of its frames' durations and
/// every frame is stamped with the running total before it.
pub open spec fn times_ok(m: MP3MetadataV) -> bool {
    &&& m.duration == sum_durations(m.frames)
    &&& forall|k: int|
        0 <= k < m.frames.len() ==> (#[trigger] m.frames[k]).position == sum_durations(
            m.frames.take(k),
        )
}

/// The scan keeps the running total equal to the sum of the recorded
/// frames' durations.
proof fn lemma_scan_times_ok(b: Seq<u8>, i: u32, m: MP3MetadataV)
    requires
        times_ok(m),
    ensures
        (match scan_from(b, i, m) {
            Ok((i2, m2)) => times_ok(m2),
            Err(_) => true,
        }),
    decreases scan_rem(b, i),
{
    if b.len() >= 0x8000_0000 || i as int >= b.len() {
    } else {
        crate::metadata::lemma_id3_step_cursor(b, i, m);
        match id3_step(b, i, m) {
            Err(_) => {},
            Ok((i1, m1)) => {
                if i1 + 3 >= b.len() {
                } else {
                    crate::metadata::lemma_try_frame_cursor(b, i1, m1);
                    lemma_try_frame_times(b, i1, m1);
                    match try_frame(b, i1, m1) {
                        Some((i2, m2)) => {
                            lemma_scan_times_ok(b, i2, m2);
                        },
                        None => {
                            crate::metadata::lemma_id3_step_cursor(b, i1, m1);
                            match id3_step(b, i1, m1) {
                                Err(_) => {},
                                Ok((i3, m3)) => {
                                    let i4: u32 = if i3 == i1 {
                                        (i3 + 1) as u32
                                    } else {
                                        i3
                                    };
                                    if i4 as int >= b.len() {
                                    } else {
                                        lemma_scan_times_ok(b, i4, m3);
                                    }
                                },
                            }
                        },
                    }
                }
            },
        }
    }
}

/// A successful frame decode stamps the new frame with the old total and
/// folds its duration into the new one.
proof fn lemma_try_frame_times(b: Seq<u8>, x: u32, m: MP3MetadataV)
    requires
        times_ok(m),
    ensures
        (match try_frame(b, x, m) {
            Some((i2, m2)) => times_ok(m2),
            None => true,
        }),
{
    let h = word_at(b, x as int);
    if header_sync_ok(h) && crate::metadata::frame_base_size(h) >= 1 {
        let fr = frame_of(b, x as int, m.duration);
        let m2 = try_frame(b, x, m).unwrap().1;
        assert(m2.frames.drop_last() =~= m.frames);
        assert(m2.frames.take(m.frames.len() as int) =~= m.frames);
        assert forall|k: int| 0 <= k < m2.frames.len() implies (#[trigger] m2.frames[k]).position
            == sum_durations(m2.frames.take(k)) by {
            assert(m2.frames.take(k) =~= m.frames.take(k));
            if k < m.frames.len() {
                assert(m2.frames[k] == m.frames[k]);
            } else {
                assert(m2.frames[k] == fr);
            }
        }
    }
}

/// The total duration of a successful read is the sum of its frames'
/// durations, and every frame's `position` is the running total of the
/// frames before it.
pub proof fn lemma_duration_is_sum(b: Seq<u8>, m: MP3MetadataV)
    requires
        parse_of(b) == Ok::<MP3MetadataV, Error>(m),
    ensures
        times_ok(m),
{
    assert(times_ok(meta_empty())) by {
        assert(sum_durations(Seq::<Frame>::empty()) == dur_zero());
    }
    lemma_scan_times_ok(b, 0, meta_empty());
}

} // verus!
