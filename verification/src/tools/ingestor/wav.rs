//! The WAV (RIFF) container: finding the format and the audio data in the
//! file's bytes, and reading the integer samples.
//!
//! Turning samples into floating-point values, mixing channels and
//! resampling are floating-point work done by the caller.

use vstd::prelude::*;
use crate::text::{decimal, decimal_chars, from_chars, to_chars, append_chars};

verus! {

/// The little-endian unsigned value of two bytes at `p`.
pub open spec fn le16(d: Seq<u8>, p: int) -> int {
    d[p] + 256 * d[p + 1]
}

/// The little-endian unsigned value of four bytes at `p`.
pub open spec fn le32(d: Seq<u8>, p: int) -> int {
    d[p] + 256 * d[p + 1] + 65536 * d[p + 2] + 16777216 * d[p + 3]
}

/// The four bytes at `p` spell the ASCII tag `t`.
pub open spec fn tag_at(d: Seq<u8>, p: int, t: Seq<u8>) -> bool {
    0 <= p && p + 4 <= d.len() && d.subrange(p, p + 4) == t
}

pub open spec fn riff_tag() -> Seq<u8> {
    seq![0x52u8, 0x49u8, 0x46u8, 0x46u8]
}

pub open spec fn wave_tag() -> Seq<u8> {
    seq![0x57u8, 0x41u8, 0x56u8, 0x45u8]
}

pub open spec fn fmt_tag() -> Seq<u8> {
    seq![0x66u8, 0x6Du8, 0x74u8, 0x20u8]
}

pub open spec fn data_tag() -> Seq<u8> {
    seq![0x64u8, 0x61u8, 0x74u8, 0x61u8]
}

/// Where a WAV file keeps its audio, and how it is encoded.
#[derive(Debug, Clone, Copy, PartialEq, Eq, Structural)]
pub struct WavLayout {
    pub channels: u16,
    pub sample_rate: u32,
    pub bits_per_sample: u16,
    /// The audio data is `data[data_start..data_end]`.
    pub data_start: usize,
    pub data_end: usize,
}

/// Why bytes are not a usable WAV file.
#[derive(Debug, Clone, Copy, PartialEq, Eq, Structural)]
pub enum WavError {
    TooSmall,
    MissingRiff,
    MissingWave,
    NoDataChunk,
    UnsupportedBits(u16),
}

/// The outcome of walking the chunks from `pos`.
pub enum ChunkWalk {
    /// The data chunk, with the format read before it.
    Found(WavLayout),
    /// No data chunk before the end.
    NoData,
    /// A format chunk claims 16 bytes or more but the file ends first.
    Truncated,
}

/// Where the chunk after the one at `pos`, of the given size, begins:
/// past its header and body, moved to an even offset when the size is odd
/// and the offset is not.
pub open spec fn next_chunk(pos: int, size: int) -> int {
    let n = pos + 8 + size;
    if size % 2 != 0 && n % 2 != 0 {
        n + 1
    } else {
        n
    }
}

/// Walk the chunks from `pos`, with the format found so far: the first
/// data chunk ends the walk; a format chunk of at least 16 bytes sets the
/// channel count, sample rate and sample width from the two bytes at offset
/// 14, the four at 16 and the two at 22, counted from the chunk's tag;
/// other chunks are skipped.
pub open spec fn walk_chunks(d: Seq<u8>, pos: int, ch: u16, rate: u32, bits: u16) -> ChunkWalk
    decreases d.len() - pos,
{
    if pos < 0 || pos + 8 >= d.len() {
        ChunkWalk::NoData
    } else {
        let size = le32(d, pos + 4);
        let next = next_chunk(pos, size);
        if tag_at(d, pos, data_tag()) {
            let start = pos + 8;
            let end = if start + size < d.len() { start + size } else { d.len() as int };
            ChunkWalk::Found(
                WavLayout {
                    channels: ch,
                    sample_rate: rate,
                    bits_per_sample: bits,
                    data_start: start as usize,
                    data_end: end as usize,
                },
            )
        } else if tag_at(d, pos, fmt_tag()) && size >= 16 && pos + 24 > d.len() {
            ChunkWalk::Truncated
        } else if next >= d.len() {
            ChunkWalk::NoData
        } else if tag_at(d, pos, fmt_tag()) && size >= 16 {
            walk_chunks(
                d,
                next,
                le16(d, pos + 14) as u16,
                le32(d, pos + 16) as u32,
                le16(d, pos + 22) as u16,
            )
        } else {
            walk_chunks(d, next, ch, rate, bits)
        }
    }
}

/// The layout of a WAV file: at least 44 bytes, "RIFF" at 0, "WAVE" at 8,
/// then chunks from offset 12, read with a default of one channel at
/// 16000 Hz and 16 bits until a format chunk says otherwise.
pub open spec fn wav_layout(d: Seq<u8>) -> Result<WavLayout, WavError> {
    if d.len() < 44 {
        Err(WavError::TooSmall)
    } else if !tag_at(d, 0, riff_tag()) {
        Err(WavError::MissingRiff)
    } else if !tag_at(d, 8, wave_tag()) {
        Err(WavError::MissingWave)
    } else {
        match walk_chunks(d, 12, 1, 16000, 16) {
            ChunkWalk::Found(l) => Ok(l),
            _ => Err(WavError::NoDataChunk),
        }
    }
}

/// A format chunk would be read past the end of the file.
pub open spec fn wav_truncated(d: Seq<u8>) -> bool {
    d.len() >= 44 && tag_at(d, 0, riff_tag()) && tag_at(d, 8, wave_tag()) && walk_chunks(
        d,
        12,
        1,
        16000,
        16,
    ) is Truncated
}

fn tag_matches(d: &[u8], p: usize, t: &[u8; 4]) -> (r: bool)
    requires
        p + 4 <= d@.len(),
    ensures
        r == tag_at(d@, p as int, t@),
{
    let ok = d[p] == t[0] && d[p + 1] == t[1] && d[p + 2] == t[2] && d[p + 3] == t[3];
    if ok {
        assert(d@.subrange(p as int, p + 4) =~= t@);
    } else {
        assert(d@.subrange(p as int, p + 4) != t@) by {
            if d@.subrange(p as int, p + 4) == t@ {
                assert(d@.subrange(p as int, p + 4)[0] == t@[0]);
                assert(d@.subrange(p as int, p + 4)[1] == t@[1]);
                assert(d@.subrange(p as int, p + 4)[2] == t@[2]);
                assert(d@.subrange(p as int, p + 4)[3] == t@[3]);
            }
        }
    }
    ok
}

fn read_le16(d: &[u8], p: usize) -> (r: u16)
    requires
        p + 2 <= d@.len(),
    ensures
        r == le16(d@, p as int),
{
    (d[p] as u16) + 256 * (d[p + 1] as u16)
}

fn read_le32(d: &[u8], p: usize) -> (r: u32)
    requires
        p + 4 <= d@.len(),
    ensures
        r == le32(d@, p as int),
{
    (d[p] as u32) + 256 * (d[p + 1] as u32) + 65536 * (d[p + 2] as u32) + 16777216 * (
    d[p + 3] as u32)
}

/// Whether reading the file would run a format chunk past its end; the
/// reader must not be given such a file.
pub fn wav_header_truncated(data: &[u8]) -> (r: bool)
    ensures
        r == wav_truncated(data@),
{
    let riff: [u8; 4] = [0x52, 0x49, 0x46, 0x46];
    let wave: [u8; 4] = [0x57, 0x41, 0x56, 0x45];
    assert(riff@ =~= riff_tag());
    assert(wave@ =~= wave_tag());
    if data.len() < 44 || !tag_matches(data, 0, &riff) || !tag_matches(data, 8, &wave) {
        return false;
    }
    match walk(data) {
        ChunkOutcome::Truncated => true,
        _ => false,
    }
}

enum ChunkOutcome {
    Found(WavLayout),
    NoData,
    Truncated,
}

fn walk(data: &[u8]) -> (r: ChunkOutcome)
    requires
        data@.len() >= 44,
    ensures
        match walk_chunks(data@, 12, 1, 16000, 16) {
            ChunkWalk::Found(l) => r == ChunkOutcome::Found(l),
            ChunkWalk::NoData => r is NoData,
            ChunkWalk::Truncated => r is Truncated,
        },
{
    let fmt: [u8; 4] = [0x66, 0x6D, 0x74, 0x20];
    let dat: [u8; 4] = [0x64, 0x61, 0x74, 0x61];
    assert(fmt@ =~= fmt_tag());
    assert(dat@ =~= data_tag());
    let len = data.len();
    let mut pos: usize = 12;
    let mut ch: u16 = 1;
    let mut rate: u32 = 16000;
    let mut bits: u16 = 16;
    while pos < len - 8
        invariant
            len == data@.len(),
            len >= 44,
            fmt@ == fmt_tag(),
            dat@ == data_tag(),
            walk_chunks(data@, pos as int, ch, rate, bits) == walk_chunks(data@, 12, 1, 16000, 16),
        decreases len - pos,
    {
        let size = read_le32(data, pos + 4);
        let wide_next: u128 = pos as u128 + 8 + size as u128;
        if tag_matches(data, pos, &dat) {
            let start = pos + 8;
            let end: usize = if (start as u128) + (size as u128) < len as u128 {
                start + size as usize
            } else {
                len
            };
            return ChunkOutcome::Found(
                WavLayout {
                    channels: ch,
                    sample_rate: rate,
                    bits_per_sample: bits,
                    data_start: start,
                    data_end: end,
                },
            );
        }
        let is_fmt = tag_matches(data, pos, &fmt);
        if is_fmt && size >= 16 && len - pos < 24 {
            return ChunkOutcome::Truncated;
        }
        let next_wide: u128 = if size % 2 != 0 && wide_next % 2 != 0 {
            wide_next + 1
        } else {
            wide_next
        };
        assert(next_wide == next_chunk(pos as int, size as int));
        if next_wide >= len as u128 {
            return ChunkOutcome::NoData;
        }
        if is_fmt && size >= 16 {
            ch = read_le16(data, pos + 14);
            rate = read_le32(data, pos + 16);
            bits = read_le16(data, pos + 22);
        }
        pos = next_wide as usize;
    }
    ChunkOutcome::NoData
}

/// Find the format and audio data of a WAV file; see `wav_layout`.
pub fn parse_wav_layout(data: &[u8]) -> (r: Result<WavLayout, WavError>)
    requires
        !wav_truncated(data@),
    ensures
        r == wav_layout(data@),
{
    let riff: [u8; 4] = [0x52, 0x49, 0x46, 0x46];
    let wave: [u8; 4] = [0x57, 0x41, 0x56, 0x45];
    assert(riff@ =~= riff_tag());
    assert(wave@ =~= wave_tag());
    if data.len() < 44 {
        return Err(WavError::TooSmall);
    }
    if !tag_matches(data, 0, &riff) {
        return Err(WavError::MissingRiff);
    }
    if !tag_matches(data, 8, &wave) {
        return Err(WavError::MissingWave);
    }
    match walk(data) {
        ChunkOutcome::Found(l) => Ok(l),
        _ => Err(WavError::NoDataChunk),
    }
}

/// The signed value of a sample of `bits` bits at `o`: 8-bit samples are
/// unsigned and centred on 128; 16- and 32-bit samples are little-endian
/// two's complement; a 24-bit sample is read as the 32-bit value whose low
/// byte is zero and whose upper three bytes are the sample's.
pub open spec fn sample_value(d: Seq<u8>, o: int, bits: u16) -> int {
    if bits == 8 {
        d[o] - 128
    } else if bits == 16 {
        let u = le16(d, o);
        if u >= 32768 { u - 65536 } else { u }
    } else if bits == 24 {
        let u = 256 * d[o] + 65536 * d[o + 1] + 16777216 * d[o + 2];
        if u >= 0x8000_0000 { u - 0x1_0000_0000 } else { u }
    } else {
        let u = le32(d, o);
        if u >= 0x8000_0000 { u - 0x1_0000_0000 } else { u }
    }
}

/// The sample widths that can be decoded.
pub open spec fn supported_bits(bits: u16) -> bool {
    bits == 8 || bits == 16 || bits == 24 || bits == 32
}

/// Decode audio data into integer samples of `bits_per_sample` bits, as
/// many as whole samples fit. Data too short to hold one sample gives no
/// samples whatever the width; otherwise a width other than 8, 16, 24 or
/// 32 bits is refused. Widths under 8 bits are left out: they give no
/// whole byte per sample.
pub fn decode_wav_samples(data: &[u8], bits_per_sample: u16) -> (r: Result<Vec<i32>, WavError>)
    requires
        bits_per_sample >= 8,
    ensures
        ({
            let bps = (bits_per_sample / 8) as int;
            let n = (data@.len() as int) / bps;
            if n == 0 {
                r matches Ok(v) && v@.len() == 0
            } else if supported_bits(bits_per_sample) {
                r matches Ok(v) && v@.len() == n && forall|i: int|
                    0 <= i < n ==> v@[i] == sample_value(data@, i * bps, bits_per_sample)
            } else {
                r == Err::<Vec<i32>, WavError>(WavError::UnsupportedBits(bits_per_sample))
            }
        }),
{
    let bps: usize = (bits_per_sample / 8) as usize;
    let n = data.len() / bps;
    let mut samples: Vec<i32> = Vec::new();
    if n == 0 {
        return Ok(samples);
    }
    if !(bits_per_sample == 8 || bits_per_sample == 16 || bits_per_sample == 24
        || bits_per_sample == 32) {
        return Err(WavError::UnsupportedBits(bits_per_sample));
    }
    let dl = data.len();
    let mut i: usize = 0;
    while i < n
        invariant
            dl == data@.len(),
            bps == bits_per_sample / 8,
            bps >= 1,
            n == (data@.len() as int) / (bps as int),
            supported_bits(bits_per_sample),
            i <= n,
            samples@.len() == i,
            forall|j: int| 0 <= j < i ==> samples@[j] == sample_value(data@, j * bps, bits_per_sample),
        decreases n - i,
    {
        proof {
            lemma_sample_in_bounds(i as int, n as int, bps as int, data@.len() as int);
            assert((i as int) * (bps as int) + (bps as int) <= data@.len());
        }
        let o = i * bps;
        let v: i32 = if bits_per_sample == 8 {
            data[o] as i32 - 128
        } else if bits_per_sample == 16 {
            let u: i32 = data[o] as i32 + 256 * (data[o + 1] as i32);
            if u >= 32768 { u - 65536 } else { u }
        } else if bits_per_sample == 24 {
            let u: i64 = 256 * (data[o] as i64) + 65536 * (data[o + 1] as i64) + 16777216 * (
            data[o + 2] as i64);
            let s: i64 = if u >= 0x8000_0000 { u - 0x1_0000_0000 } else { u };
            s as i32
        } else {
            let u: i64 = data[o] as i64 + 256 * (data[o + 1] as i64) + 65536 * (data[o + 2] as i64)
                + 16777216 * (data[o + 3] as i64);
            let s: i64 = if u >= 0x8000_0000 { u - 0x1_0000_0000 } else { u };
            s as i32
        };
        samples.push(v);
        i += 1;
    }
    Ok(samples)
}

proof fn lemma_sample_in_bounds(i: int, n: int, bps: int, len: int)
    requires
        0 <= i < n,
        bps >= 1,
        len >= 0,
        n == len / bps,
    ensures
        i * bps + bps <= len,
        0 <= i * bps,
{
    vstd::arithmetic::div_mod::lemma_fundamental_div_mod(len, bps);
    vstd::arithmetic::mul::lemma_mul_inequality(i + 1, n, bps);
    vstd::arithmetic::mul::lemma_mul_is_distributive_add_other_way(bps, i, 1);
    vstd::arithmetic::mul::lemma_mul_nonnegative(i, bps);
    vstd::arithmetic::mul::lemma_mul_is_commutative(n, bps);
}

/// The message of each error.
pub open spec fn wav_error_message(e: WavError) -> Seq<char> {
    match e {
        WavError::TooSmall => "File too small to be a valid WAV file"@,
        WavError::MissingRiff => "Invalid WAV file: missing RIFF header"@,
        WavError::MissingWave => "Invalid WAV file: missing WAVE format"@,
        WavError::NoDataChunk => "Invalid WAV file: no data chunk found"@,
        WavError::UnsupportedBits(b) => "Unsupported bits per sample: "@ + decimal(b as nat),
    }
}

impl WavError {
    /// The message of the error; see `wav_error_message`.
    pub fn message(&self) -> (r: String)
        ensures
            r@ == wav_error_message(*self),
    {
        match self {
            WavError::TooSmall => crate::text::owned("File too small to be a valid WAV file"),
            WavError::MissingRiff => crate::text::owned("Invalid WAV file: missing RIFF header"),
            WavError::MissingWave => crate::text::owned("Invalid WAV file: missing WAVE format"),
            WavError::NoDataChunk => crate::text::owned("Invalid WAV file: no data chunk found"),
            WavError::UnsupportedBits(b) => {
                let mut v = to_chars("Unsupported bits per sample: ");
                let d = decimal_chars(*b as u64);
                append_chars(&mut v, d.as_slice());
                from_chars(v.as_slice())
            },
        }
    }
}

} // verus!
