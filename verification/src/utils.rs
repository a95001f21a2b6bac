//! Small helpers of the scan: the constant lookup tables indexed by the
//! decoded header fields, playback-time arithmetic, and the text decoders
//! for tag sub-fields.

use vstd::prelude::*;

use crate::enums::{Layer, Version};
use crate::types::{dur_wf, Duration, Url};
use vstd::slice::{slice_subrange, slice_to_vec};

verus! {

/// The row of the bitrate table that a version and layer pair selects.
pub open spec fn line_of(v: Version, l: Layer) -> int {
    match (v, l) {
        (Version::MPEG1, Layer::Layer1) => 0,
        (Version::MPEG1, Layer::Layer2) => 1,
        (Version::MPEG1, Layer::Layer3) => 2,
        (Version::MPEG2, Layer::Layer1) => 3,
        (Version::MPEG2_5, Layer::Layer1) => 3,
        _ => 4,
    }
}

/// Selects the row of the bitrate table for a version and layer pair.
pub fn get_line(v: Version, l: Layer) -> (r: usize)
    ensures
        r == line_of(v, l),
{
    match (v, l) {
        (Version::MPEG1, Layer::Layer1) => 0,
        (Version::MPEG1, Layer::Layer2) => 1,
        (Version::MPEG1, Layer::Layer3) => 2,
        (Version::MPEG2, Layer::Layer1) | (Version::MPEG2_5, Layer::Layer1) => 3,
        _ => 4,
    }
}

/// The column of the samples-per-frame table that a layer selects.
pub open spec fn layer_value_of(l: Layer) -> int {
    match l {
        Layer::Layer1 => 0,
        Layer::Layer2 => 1,
        Layer::Layer3 => 2,
        _ => 3,
    }
}

/// Selects the column of the samples-per-frame table for a layer.
pub fn get_layer_value(l: Layer) -> (r: usize)
    ensures
        r == layer_value_of(l),
{
    match l {
        Layer::Layer1 => 0,
        Layer::Layer2 => 1,
        Layer::Layer3 => 2,
        _ => 3,
    }
}

/// The row of the sampling-frequency table that a version selects.
pub open spec fn samp_line_of(v: Version) -> int {
    match v {
        Version::MPEG1 => 0,
        Version::MPEG2 => 1,
        Version::MPEG2_5 => 2,
        _ => 1,
    }
}

/// Selects the row of the sampling-frequency table for a version.
pub fn get_samp_line(v: Version) -> (r: usize)
    ensures
        r == samp_line_of(v),
{
    match v {
        Version::MPEG1 => 0,
        Version::MPEG2 => 1,
        Version::MPEG2_5 => 2,
        _ => 1,
    }
}

/// The bitrate table in kilobits per second, indexed by line and bitrate index.
pub open spec fn bitrate_of(row: int, col: int) -> u16 {
    if row == 0 { if col == 0 { 0 } else if col == 1 { 32 } else if col == 2 { 64 } else if col == 3 { 96 } else if col == 4 { 128 } else if col == 5 { 160 } else if col == 6 { 192 } else if col == 7 { 224 } else if col == 8 { 256 } else if col == 9 { 288 } else if col == 10 { 320 } else if col == 11 { 352 } else if col == 12 { 384 } else if col == 13 { 416 } else if col == 14 { 448 } else { 0 } } else
    if row == 1 { if col == 0 { 0 } else if col == 1 { 32 } else if col == 2 { 48 } else if col == 3 { 56 } else if col == 4 { 64 } else if col == 5 { 80 } else if col == 6 { 96 } else if col == 7 { 112 } else if col == 8 { 128 } else if col == 9 { 160 } else if col == 10 { 192 } else if col == 11 { 224 } else if col == 12 { 256 } else if col == 13 { 320 } else if col == 14 { 384 } else { 0 } } else
    if row == 2 { if col == 0 { 0 } else if col == 1 { 32 } else if col == 2 { 40 } else if col == 3 { 48 } else if col == 4 { 56 } else if col == 5 { 64 } else if col == 6 { 80 } else if col == 7 { 96 } else if col == 8 { 112 } else if col == 9 { 128 } else if col == 10 { 160 } else if col == 11 { 192 } else if col == 12 { 224 } else if col == 13 { 256 } else if col == 14 { 320 } else { 0 } } else
    if row == 3 { if col == 0 { 0 } else if col == 1 { 32 } else if col == 2 { 48 } else if col == 3 { 56 } else if col == 4 { 64 } else if col == 5 { 80 } else if col == 6 { 96 } else if col == 7 { 112 } else if col == 8 { 128 } else if col == 9 { 144 } else if col == 10 { 160 } else if col == 11 { 176 } else if col == 12 { 192 } else if col == 13 { 224 } else if col == 14 { 256 } else { 0 } } else
    if row == 4 { if col == 0 { 0 } else if col == 1 { 8 } else if col == 2 { 16 } else if col == 3 { 24 } else if col == 4 { 32 } else if col == 5 { 40 } else if col == 6 { 48 } else if col == 7 { 56 } else if col == 8 { 64 } else if col == 9 { 80 } else if col == 10 { 96 } else if col == 11 { 112 } else if col == 12 { 128 } else if col == 13 { 144 } else if col == 14 { 160 } else { 0 } } else
    { if col == 0 { 0 } else if col == 1 { 8 } else if col == 2 { 16 } else if col == 3 { 24 } else if col == 4 { 32 } else if col == 5 { 40 } else if col == 6 { 48 } else if col == 7 { 56 } else if col == 8 { 64 } else if col == 9 { 80 } else if col == 10 { 96 } else if col == 11 { 112 } else if col == 12 { 128 } else if col == 13 { 144 } else if col == 14 { 160 } else { 0 } }
}

/// The sampling-frequency table in hertz, indexed by sampling line and frequency index.
pub open spec fn sampling_freq_of(row: int, col: int) -> u16 {
    if row == 0 { if col == 0 { 44100 } else if col == 1 { 48000 } else if col == 2 { 32000 } else { 0 } } else
    if row == 1 { if col == 0 { 22050 } else if col == 1 { 24000 } else if col == 2 { 16000 } else { 0 } } else
    if row == 2 { if col == 0 { 11025 } else if col == 1 { 12000 } else if col == 2 { 8000 } else { 0 } } else
    { if col == 0 { 11025 } else if col == 1 { 12000 } else if col == 2 { 8000 } else { 0 } }
}

/// The samples-per-frame table, indexed by version row and layer value.
pub open spec fn samples_per_frame_of(row: int, col: int) -> u16 {
    if row == 0 { if col == 0 { 384 } else if col == 1 { 1152 } else if col == 2 { 1152 } else { 0 } } else
    if row == 1 { if col == 0 { 384 } else if col == 1 { 1152 } else if col == 2 { 576 } else { 0 } } else
    { if col == 0 { 384 } else if col == 1 { 1152 } else if col == 2 { 576 } else { 0 } }
}

/// Looks the value up in the table behind [`bitrate_of`].
pub fn bitrate_at(row: usize, col: usize) -> (r: u16)
    ensures
        r == bitrate_of(row as int, col as int),
{
    if row == 0 { if col == 0 { 0 } else if col == 1 { 32 } else if col == 2 { 64 } else if col == 3 { 96 } else if col == 4 { 128 } else if col == 5 { 160 } else if col == 6 { 192 } else if col == 7 { 224 } else if col == 8 { 256 } else if col == 9 { 288 } else if col == 10 { 320 } else if col == 11 { 352 } else if col == 12 { 384 } else if col == 13 { 416 } else if col == 14 { 448 } else { 0 } } else
    if row == 1 { if col == 0 { 0 } else if col == 1 { 32 } else if col == 2 { 48 } else if col == 3 { 56 } else if col == 4 { 64 } else if col == 5 { 80 } else if col == 6 { 96 } else if col == 7 { 112 } else if col == 8 { 128 } else if col == 9 { 160 } else if col == 10 { 192 } else if col == 11 { 224 } else if col == 12 { 256 } else if col == 13 { 320 } else if col == 14 { 384 } else { 0 } } else
    if row == 2 { if col == 0 { 0 } else if col == 1 { 32 } else if col == 2 { 40 } else if col == 3 { 48 } else if col == 4 { 56 } else if col == 5 { 64 } else if col == 6 { 80 } else if col == 7 { 96 } else if col == 8 { 112 } else if col == 9 { 128 } else if col == 10 { 160 } else if col == 11 { 192 } else if col == 12 { 224 } else if col == 13 { 256 } else if col == 14 { 320 } else { 0 } } else
    if row == 3 { if col == 0 { 0 } else if col == 1 { 32 } else if col == 2 { 48 } else if col == 3 { 56 } else if col == 4 { 64 } else if col == 5 { 80 } else if col == 6 { 96 } else if col == 7 { 112 } else if col == 8 { 128 } else if col == 9 { 144 } else if col == 10 { 160 } else if col == 11 { 176 } else if col == 12 { 192 } else if col == 13 { 224 } else if col == 14 { 256 } else { 0 } } else
    { if col == 0 { 0 } else if col == 1 { 8 } else if col == 2 { 16 } else if col == 3 { 24 } else if col == 4 { 32 } else if col == 5 { 40 } else if col == 6 { 48 } else if col == 7 { 56 } else if col == 8 { 64 } else if col == 9 { 80 } else if col == 10 { 96 } else if col == 11 { 112 } else if col == 12 { 128 } else if col == 13 { 144 } else if col == 14 { 160 } else { 0 } }
}

/// Looks the value up in the table behind [`sampling_freq_of`].
pub fn sampling_freq_at(row: usize, col: usize) -> (r: u16)
    ensures
        r == sampling_freq_of(row as int, col as int),
{
    if row == 0 { if col == 0 { 44100 } else if col == 1 { 48000 } else if col == 2 { 32000 } else { 0 } } else
    if row == 1 { if col == 0 { 22050 } else if col == 1 { 24000 } else if col == 2 { 16000 } else { 0 } } else
    { if col == 0 { 11025 } else if col == 1 { 12000 } else if col == 2 { 8000 } else { 0 } }
}

/// Looks the value up in the table behind [`samples_per_frame_of`].
pub fn samples_per_frame_at(row: usize, col: usize) -> (r: u16)
    ensures
        r == samples_per_frame_of(row as int, col as int),
{
    if row == 0 { if col == 0 { 384 } else if col == 1 { 1152 } else if col == 2 { 1152 } else { 0 } } else
    { if col == 0 { 384 } else if col == 1 { 1152 } else if col == 2 { 576 } else { 0 } }
}

/// The playback time of one frame: the samples it carries divided by the
/// sampling frequency, or nothing when the frequency is zero or the version
/// carries no samples-per-frame entry.
pub open spec fn duration_of(v: Version, l: Layer, sample_rate: u16) -> Option<Duration> {
    if sample_rate == 0 {
        None
    } else if v == Version::MPEG1 || v == Version::MPEG2 || v == Version::MPEG2_5 {
        let row: int = if v == Version::MPEG1 { 0 } else { 1 };
        let spf = samples_per_frame_of(row, layer_value_of(l));
        let big = (spf * 1_000_000_000) / (sample_rate as int);
        Some(Duration { secs: (big / 1_000_000_000) as u64, nanos: (big % 1_000_000_000) as u32 })
    } else {
        None
    }
}

/// Computes the playback time of one frame.
///
/// The result is absent exactly when the sampling frequency is zero or the
/// version is reserved or unknown.
pub fn compute_duration(v: Version, l: Layer, sample_rate: u16) -> (r: Option<Duration>)
    ensures
        r == duration_of(v, l, sample_rate),
        r is None <==> (sample_rate == 0 || (v != Version::MPEG1 && v != Version::MPEG2
            && v != Version::MPEG2_5)),
        r matches Some(d) ==> dur_wf(d) && d.secs <= 1152,
{
    if sample_rate == 0 {
        return None;
    }
    let row: usize = match v {
        Version::MPEG1 => 0,
        Version::MPEG2 | Version::MPEG2_5 => 1,
        _ => {
            return None;
        },
    };
    let spf = samples_per_frame_at(row, get_layer_value(l));
    let big: u64 = spf as u64 * 1_000_000_000 / (sample_rate as u64);
    proof {
        assert(spf * 1_000_000_000 <= 1152_000_000_000) by {
            assert(spf <= 1152);
        }
        assert(big == (spf * 1_000_000_000) / (sample_rate as int)) by {
            assert(sample_rate >= 1);
        }
        assert(big / 1_000_000_000 <= 1152);
    }
    Some(Duration { secs: big / 1_000_000_000, nanos: (big % 1_000_000_000) as u32 })
}


/// What the characters of a Latin-1 field are: each byte read as the code
/// point with the same value.
pub open spec fn latin1_of(b: Seq<u8>) -> Seq<char> {
    b.map_values(|x: u8| x as char)
}

/// Relies on String::push: it appends exactly the given character.
#[verifier::external_body]
pub(crate) fn push_char(s: &mut String, c: char)
    ensures
        final(s)@ == old(s)@.push(c),
{
    s.push(c);
}

/// What String::from_utf16_lossy returns for these code units; the result
/// depends on the units alone.
pub uninterp spec fn utf16_lossy_of(units: Seq<u16>) -> Seq<char>;

/// Relies on String::from_utf16_lossy: the result is a function of the code
/// units alone.
#[verifier::external_body]
fn utf16_lossy(units: &Vec<u16>) -> (r: String)
    ensures
        r@ == utf16_lossy_of(units@),
{
    String::from_utf16_lossy(units)
}

/// What String::from_utf8 returns for these bytes, when they are valid
/// UTF-8; the result depends on the bytes alone.
pub uninterp spec fn utf8_decoded(bytes: Seq<u8>) -> Option<Seq<char>>;

/// Relies on String::from_utf8: decoding either succeeds or reports the
/// bytes malformed, and the outcome is a function of the bytes alone.
#[verifier::external_body]
fn try_utf8(bytes: Vec<u8>) -> (r: Option<String>)
    ensures
        r.deep_view() == utf8_decoded(bytes@),
{
    String::from_utf8(bytes).ok()
}

/// The characters of a UTF-8 field: the decoded bytes, or the empty string
/// when they are malformed.
pub open spec fn utf8_or_empty(bytes: Seq<u8>) -> Seq<char> {
    match utf8_decoded(bytes) {
        Some(s) => s,
        None => Seq::empty(),
    }
}

/// Decodes a single-byte Latin-1 field: every byte becomes the code point
/// with the same value.
pub fn create_latin1_str(buf: &[u8]) -> (r: String)
    ensures
        r@ == latin1_of(buf@),
{
    let mut r = String::new();
    let mut i: usize = 0;
    while i < buf.len()
        invariant
            i <= buf@.len(),
            r@ == latin1_of(buf@.subrange(0, i as int)),
        decreases buf@.len() - i,
    {
        let b = buf[i];
        push_char(&mut r, b as char);
        proof {
            assert(buf@.subrange(0, i + 1 as int)
                =~= buf@.subrange(0, i as int).push(buf@[i as int]));
            assert(latin1_of(buf@.subrange(0, i + 1 as int))
                =~= latin1_of(buf@.subrange(0, i as int)).push(b as char));
        }
        i = i + 1;
    }
    proof {
        assert(buf@.subrange(0, buf@.len() as int) =~= buf@);
    }
    r
}

/// The 16-bit code units read from `count` byte pairs starting at byte
/// offset `2 * from`, each pair big-endian when `be` holds and little-endian
/// otherwise.
pub open spec fn utf16_units_of(b: Seq<u8>, from: int, count: int, be: bool) -> Seq<u16> {
    Seq::new(count as nat,
        |k: int| if be {
            (b[2 * (from + k)] as int * 256 + b[2 * (from + k) + 1] as int) as u16
        } else {
            (b[2 * (from + k) + 1] as int * 256 + b[2 * (from + k)] as int) as u16
        })
}

/// The characters of a UTF-16 field: the code units after an optional
/// byte-order mark, decoded lossily; without a mark the bytes are read
/// little-endian.
pub open spec fn utf16_text_of(b: Seq<u8>) -> Seq<char> {
    if b.len() >= 2 && b[0] == 0xfe && b[1] == 0xff {
        utf16_lossy_of(utf16_units_of(b, 1, b.len() as int / 2 - 1, true))
    } else if b.len() >= 2 && b[0] == 0xff && b[1] == 0xfe {
        utf16_lossy_of(utf16_units_of(b, 1, b.len() as int / 2 - 1, false))
    } else {
        utf16_lossy_of(utf16_units_of(b, 0, b.len() as int / 2, false))
    }
}

/// Assembles code units from byte pairs of `buf`, starting at pair `from`.
fn collect_units(buf: &[u8], from: usize, be: bool) -> (r: Vec<u16>)
    requires
        1 <= buf@.len(),
        from <= buf@.len() / 2,
    ensures
        r@ == utf16_units_of(buf@, from as int, buf@.len() as int / 2 - from as int, be),
{
    let mut v: Vec<u16> = Vec::new();
    let mut i: usize = from;
    let n = buf.len();
    let half = n / 2;
    proof {
        assert(2 * (buf@.len() / 2) <= buf@.len());
    }
    while i < half
        invariant
            from <= i <= half,
            half == buf@.len() / 2,
            2 * half <= buf@.len(),
            buf@.len() <= usize::MAX,
            v@ == utf16_units_of(buf@, from as int, i - from, be),
        decreases half - i,
    {
        let lo: u8 = buf[2 * i];
        let hi: u8 = buf[2 * i + 1];
        let unit: u16 = if be {
            lo as u16 * 256 + hi as u16
        } else {
            hi as u16 * 256 + lo as u16
        };
        v.push(unit);
        proof {
            assert(v@ =~= utf16_units_of(buf@, from as int, i + 1 - from, be));
        }
        i = i + 1;
    }
    v
}

/// Decodes a UTF-16 field, honouring a leading byte-order mark and assuming
/// little-endian order without one; invalid sequences are replaced, and the
/// mark itself never reaches the output.
pub fn create_utf16_str(buf: &[u8]) -> (r: String)
    ensures
        r@ == utf16_text_of(buf@),
{
    if buf.len() >= 2 {
        let b0 = buf[0];
        let b1 = buf[1];
        if b0 == 0xfe && b1 == 0xff {
            let v = collect_units(buf, 1, true);
            return utf16_lossy(&v);
        } else if b0 == 0xff && b1 == 0xfe {
            let v = collect_units(buf, 1, false);
            return utf16_lossy(&v);
        }
    }
    if buf.len() == 0 {
        let v: Vec<u16> = Vec::new();
        proof {
            assert(v@ =~= utf16_units_of(buf@, 0, 0, false));
        }
        utf16_lossy(&v)
    } else {
        let v = collect_units(buf, 0, false);
        utf16_lossy(&v)
    }
}

/// Decodes a UTF-8 field, falling back to the empty string on malformed
/// input.
pub fn create_utf8_str(buf: &[u8]) -> (r: String)
    ensures
        r@ == utf8_or_empty(buf@),
{
    let v = slice_to_vec(buf);
    match try_utf8(v) {
        Some(s) => s,
        None => String::new(),
    }
}

/// The decoded text of a sub-field: the leading byte selects Latin-1,
/// UTF-16 or UTF-8, and any other selector decodes to the empty string.
pub open spec fn field_text_of(b: Seq<u8>, pos: int, size: int) -> Seq<char> {
    let r = b.subrange(pos, pos + size);
    if r.len() < 1 {
        Seq::empty()
    } else if r[0] == 0 {
        latin1_of(r.skip(1))
    } else if r[0] == 1 {
        utf16_text_of(r.skip(1))
    } else if r[0] == 3 {
        utf8_or_empty(r.skip(1))
    } else {
        Seq::empty()
    }
}

/// Decodes the text of the sub-field of `size` bytes at `pos`, dispatching
/// on its leading encoding-selector byte.
pub fn get_field(buf: &[u8], pos: usize, size: u32) -> (r: String)
    requires
        pos + size <= buf@.len(),
    ensures
        r@ == field_text_of(buf@, pos as int, size as int),
{
    // buf.len() fits a usize, which bounds the subrange arithmetic
    let _n = buf.len();
    let sub = slice_subrange(buf, pos, pos + size as usize);
    proof {
        assert(sub@.skip(1) =~= buf@.subrange(pos as int, pos as int + size as int).skip(1));
    }
    if sub.len() < 1 {
        String::new()
    } else if sub[0] == 0 {
        create_latin1_str(slice_subrange(sub, 1, sub.len()))
    } else if sub[0] == 1 {
        create_utf16_str(slice_subrange(sub, 1, sub.len()))
    } else if sub[0] == 3 {
        create_utf8_str(slice_subrange(sub, 1, sub.len()))
    } else {
        String::new()
    }
}

/// The segments of `s` between occurrences of `sep` from position `i` on,
/// with `cur` the segment being read and `acc` the segments already read;
/// empty segments are dropped.
pub open spec fn split_drop_acc(s: Seq<char>, sep: char, i: int, cur: Seq<char>, acc: Seq<Seq<char>>) -> Seq<Seq<char>>
    decreases s.len() - i,
{
    if i < 0 || i >= s.len() {
        if cur.len() > 0 {
            acc.push(cur)
        } else {
            acc
        }
    } else if s[i] == sep {
        split_drop_acc(s, sep, i + 1, Seq::empty(), if cur.len() > 0 {
            acc.push(cur)
        } else {
            acc
        })
    } else {
        split_drop_acc(s, sep, i + 1, cur.push(s[i]), acc)
    }
}

/// The segments of `s` between occurrences of `sep`, dropping empty ones.
pub open spec fn split_drop(s: Seq<char>, sep: char) -> Seq<Seq<char>> {
    split_drop_acc(s, sep, 0, Seq::empty(), Seq::empty())
}

/// What a single-text slot holds after an assignment attempt: untouched when
/// already filled or when the sub-field is shorter than two bytes, else the
/// decoded text, with the change flag raised.
pub open spec fn text_field_upd(b: Seq<u8>, pos: int, size: int, changes: bool, value: Option<Seq<char>>) -> (bool, Option<
    Seq<char>,
>) {
    if value is Some || size < 2 {
        (changes, value)
    } else {
        (true, Some(field_text_of(b, pos, size)))
    }
}

/// Assigns the decoded text of the sub-field at `pos` to an empty slot; a
/// filled slot and a sub-field shorter than two bytes are left alone.
pub fn get_text_field(buf: &[u8], pos: usize, size: u32, changes: &mut bool, value: &mut Option<String>)
    requires
        (*old(value)) is Some || size < 2 || pos + size <= buf@.len(),
    ensures
        (*final(changes), final(value).deep_view()) == text_field_upd(
            buf@,
            pos as int,
            size as int,
            *old(changes),
            old(value).deep_view(),
        ),
{
    if value.is_some() || size < 2 {
        return ;
    }
    *changes = true;
    *value = Some(get_field(buf, pos, size));
}

/// What a multi-text slot holds after an assignment attempt: the decoded
/// text split on the separator, empty segments dropped, appended to the
/// segments already held; the change flag is always raised.
pub open spec fn text_fields_upd(b: Seq<u8>, pos: int, size: int, values: Seq<Seq<char>>) -> Seq<Seq<char>> {
    values + split_drop(field_text_of(b, pos, size), '/')
}

/// Appends the decoded text of the sub-field at `pos`, split on `/` with
/// empty segments dropped.
pub fn get_text_fields(buf: &[u8], pos: usize, size: u32, changes: &mut bool, value: &mut Vec<String>)
    requires
        pos + size <= buf@.len(),
    ensures
        final(value).deep_view() == text_fields_upd(buf@, pos as int, size as int, old(value).deep_view()),
        *final(changes),
{
    let tmp = get_field(buf, pos, size);
    let n = tmp.as_str().unicode_len();
    let mut i: usize = 0;
    let mut cur = String::new();
    let ghost base = value.deep_view();
    let ghost mut acc: Seq<Seq<char>> = Seq::empty();
    proof {
        assert(value.deep_view() =~~= base + acc);
    }
    while i < n
        invariant
            i <= n,
            n == tmp@.len(),
            value.deep_view() == base + acc,
            split_drop_acc(tmp@, '/', i as int, cur@, acc) == split_drop(tmp@, '/'),
        decreases n - i,
    {
        let c = tmp.as_str().get_char(i);
        let ghost oldcur = cur@;
        let ghost oldacc = acc;
        if c == '/' {
            if cur.as_str().unicode_len() > 0 {
                let ghost prev = value.deep_view();
                proof {
                    acc = acc.push(cur@);
                }
                value.push(cur);
                cur = String::new();
                proof {
                    assert(value.deep_view() =~~= prev.push(acc.last()));
                    assert(value.deep_view() =~~= base + acc);
                }
            }
            proof {
                assert(cur@ =~= Seq::<char>::empty());
                assert(split_drop_acc(tmp@, '/', i as int, oldcur, oldacc)
                    == split_drop_acc(tmp@, '/', i as int + 1, cur@, acc));
            }
        } else {
            push_char(&mut cur, c);
            proof {
                assert(cur@ == oldcur.push(tmp@[i as int]));
                assert(split_drop_acc(tmp@, '/', i as int, oldcur, oldacc)
                    == split_drop_acc(tmp@, '/', i as int + 1, cur@, acc));
            }
        }
        i = i + 1;
    }
    if cur.as_str().unicode_len() > 0 {
        let ghost prev = value.deep_view();
        proof {
            acc = acc.push(cur@);
        }
        value.push(cur);
        proof {
            assert(value.deep_view() =~~= prev.push(acc.last()));
            assert(value.deep_view() =~~= base + acc);
        }
    }
    proof {
        assert(split_drop_acc(tmp@, '/', n as int, Seq::<char>::empty(), acc) == split_drop(tmp@, '/'));
    }
    if *changes == false {
        *changes = true;
    }
}

/// What a single-URL slot holds after an assignment attempt: untouched when
/// already filled or when the sub-field is shorter than two bytes, else the
/// raw bytes decoded as UTF-8, with the change flag raised.
pub open spec fn url_field_upd(b: Seq<u8>, pos: int, size: int, changes: bool, value: Option<Seq<char>>) -> (bool, Option<
    Seq<char>,
>) {
    if value is Some || size < 2 {
        (changes, value)
    } else {
        (true, Some(utf8_or_empty(b.subrange(pos, pos + size))))
    }
}

/// Assigns the sub-field at `pos`, decoded as UTF-8, to an empty URL slot; a
/// filled slot and a sub-field shorter than two bytes are left alone.
pub fn get_url_field(buf: &[u8], pos: usize, size: u32, changes: &mut bool, value: &mut Option<Url>)
    requires
        (*old(value)) is Some || size < 2 || pos + size <= buf@.len(),
    ensures
        (*final(changes), final(value).deep_view()) == url_field_upd(
            buf@,
            pos as int,
            size as int,
            *old(changes),
            old(value).deep_view(),
        ),
{
    if value.is_some() || size < 2 {
        return ;
    }
    if *changes == false {
        *changes = true;
    }
    // buf.len() fits a usize, which bounds the subrange arithmetic
    let _n = buf.len();
    let sub = slice_subrange(buf, pos, pos + size as usize);
    *value = Some(Url(create_utf8_str(sub)));
}

/// What a multi-URL slot holds after an assignment attempt: the decoded URL
/// appended when the sub-field is at least two bytes, and the change flag
/// raised with it.
pub open spec fn url_fields_upd(b: Seq<u8>, pos: int, size: int, changes: bool, urls: Seq<Seq<char>>) -> (bool, Seq<
    Seq<char>,
>) {
    let r = url_field_upd(b, pos, size, changes, None);
    match r.1 {
        Some(u) => (r.0, urls.push(u)),
        None => (r.0, urls),
    }
}

/// Appends the sub-field at `pos`, decoded as UTF-8, to a URL list; a
/// sub-field shorter than two bytes is ignored.
pub fn get_url_fields(buf: &[u8], pos: usize, size: u32, changes: &mut bool, value: &mut Vec<Url>)
    requires
        size < 2 || pos + size <= buf@.len(),
    ensures
        (*final(changes), final(value).deep_view()) == url_fields_upd(
            buf@,
            pos as int,
            size as int,
            *old(changes),
            old(value).deep_view(),
        ),
{
    let mut tmp: Option<Url> = None;
    get_url_field(buf, pos, size, changes, &mut tmp);
    match tmp {
        Some(t) => {
            value.push(t);
            proof {
                assert(value.deep_view() =~~= url_fields_upd(
                    buf@,
                    pos as int,
                    size as int,
                    *old(changes),
                    old(value).deep_view(),
                ).1);
            }
        },
        None => {},
    }
}

/// The value of the decimal digit bytes of `s` from position `i` on,
/// accumulated onto `acc`.
pub open spec fn byte_digits_value_acc(s: Seq<u8>, i: int, acc: int) -> int
    decreases s.len() - i,
{
    if i < 0 || i >= s.len() {
        acc
    } else {
        byte_digits_value_acc(s, i + 1, acc * 10 + (s[i] as int - 0x30))
    }
}

/// True when every byte of `s` from position `i` on is an ASCII decimal
/// digit.
pub open spec fn all_digit_bytes_from(s: Seq<u8>, i: int) -> bool
    decreases s.len() - i,
{
    if i < 0 || i >= s.len() {
        true
    } else {
        0x30 <= s[i] <= 0x39 && all_digit_bytes_from(s, i + 1)
    }
}

/// How the year bytes are read: an optional leading plus sign, then at
/// least one digit, with a value that fits in sixteen bits; anything else
/// reads as zero.  Decimal text is ASCII, on which UTF-8 decoding is the
/// identity, so the bytes are read directly.
pub open spec fn year_of(s: Seq<u8>) -> u16 {
    let t = if s.len() >= 1 && s[0] == 0x2B {
        s.skip(1)
    } else {
        s
    };
    if t.len() >= 1 && all_digit_bytes_from(t, 0) && byte_digits_value_acc(t, 0, 0) <= 65535 {
        byte_digits_value_acc(t, 0, 0) as u16
    } else {
        0
    }
}

/// Reads the year from its raw bytes, substituting zero when they do not
/// parse as a number.
pub fn parse_year(buf: &[u8]) -> (r: u16)
    ensures
        r == year_of(buf@),
{
    let n = buf.len();
    let start: usize = if n >= 1 && buf[0] == 0x2B {
        1
    } else {
        0
    };
    let ghost t = if start == 1 {
        buf@.skip(1)
    } else {
        buf@
    };
    if n == start {
        return 0;
    }
    let mut i: usize = start;
    let mut acc: u32 = 0;
    let ghost mut gval: int = 0;
    while i < n
        invariant
            start <= i <= n,
            n == buf@.len(),
            start == 0 || start == 1,
            start == 1 <==> (buf@.len() >= 1 && buf@[0] == 0x2B),
            t == (if start == 1 { buf@.skip(1) } else { buf@ }),
            t.len() == n - start,
            all_digit_bytes_from(t, 0) <==> all_digit_bytes_from(t, i - start),
            acc == (if gval > 65535 { 65536int } else { gval }),
            digits_so_far(t, i - start, gval),
        decreases n - i,
    {
        let b = buf[i];
        if b < 0x30 || b > 0x39 {
            proof {
                assert(t[i - start] == buf@[i as int]);
                assert(!all_digit_bytes_from(t, i - start));
            }
            return 0;
        }
        let d = (b - 0x30) as u32;
        let nacc = acc * 10 + d;
        proof {
            gval = gval * 10 + d;
        }
        acc = if nacc > 65535 {
            65536
        } else {
            nacc
        };
        i = i + 1;
    }
    proof {
        assert(byte_digits_value_acc(t, t.len() as int, gval) == gval);
        assert(all_digit_bytes_from(t, t.len() as int));
    }
    if acc <= 65535 {
        acc as u16
    } else {
        0
    }
}

/// The digits read so far accumulate to `v`: finishing the read from
/// position `j` with `v` gives the value of the whole text.
pub open spec fn digits_so_far(t: Seq<u8>, j: int, v: int) -> bool {
    byte_digits_value_acc(t, j, v) == byte_digits_value_acc(t, 0, 0) && v >= 0
}

} // verus!

