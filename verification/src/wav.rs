//! Structure of a RIFF/WAVE byte stream: locating the `fmt ` and `data`
//! chunks, validating the 16-bit PCM format and deriving the duration, plus
//! the integer sample access that the amplitude envelope is built from.

use vstd::prelude::*;
use vstd::string::StringExecFns;
use crate::text::{decimal, u64_to_decimal};

verus! {

/// Number of amplitude buckets in the envelope.
pub const BUCKETS: usize = 64;

/// Little-endian unsigned 16-bit value at `i`.
pub open spec fn le_u16(b: Seq<u8>, i: int) -> int {
    b[i] as int + 256 * (b[i + 1] as int)
}

/// Little-endian unsigned 32-bit value at `i`.
pub open spec fn le_u32(b: Seq<u8>, i: int) -> int {
    b[i] as int + 256 * (b[i + 1] as int) + 65536 * (b[i + 2] as int) + 16777216 * (b[i + 3] as int)
}

/// Whether the four bytes at `i` spell the given tag.
pub open spec fn has_tag(b: Seq<u8>, i: int, t: Seq<u8>) -> bool {
    &&& 0 <= i && i + 4 <= b.len()
    &&& t.len() == 4
    &&& b[i] == t[0] && b[i + 1] == t[1] && b[i + 2] == t[2] && b[i + 3] == t[3]
}

pub open spec fn tag_riff() -> Seq<u8> { seq![0x52u8, 0x49, 0x46, 0x46] }
pub open spec fn tag_wave() -> Seq<u8> { seq![0x57u8, 0x41, 0x56, 0x45] }
pub open spec fn tag_fmt() -> Seq<u8> { seq![0x66u8, 0x6d, 0x74, 0x20] }
pub open spec fn tag_data() -> Seq<u8> { seq![0x64u8, 0x61, 0x74, 0x61] }

/// The fields of a `fmt ` chunk that the analysis reads.
#[derive(Debug, Clone, Copy, PartialEq, Eq, Structural)]
pub struct WavFormat {
    pub audio_format: u16,
    pub channels: u16,
    pub sample_rate: u32,
    pub bits_per_sample: u16,
}

/// Where the samples are and what they mean.
#[derive(Debug, Clone, Copy, PartialEq, Eq, Structural)]
pub struct WavLayout {
    pub channels: u16,
    pub sample_rate: u32,
    /// Byte offset of the first sample.
    pub data_offset: usize,
    /// Declared byte size of the `data` chunk (fits in the stream).
    pub data_size: u32,
    /// Number of frames (one sample per channel).
    pub frames: u64,
    /// Length of the audio in milliseconds.
    pub duration_ms: u64,
}

/// Why a byte stream is not an analysable WAV.
#[derive(Debug, Clone, Copy, PartialEq, Eq, Structural)]
pub enum WavError {
    /// Fewer than 12 bytes.
    TooShort,
    /// The first four bytes are not `RIFF`.
    NotRiff,
    /// Bytes 8..12 are not `WAVE`.
    NotWave,
    /// A `fmt ` chunk shorter than 16 bytes, or cut off by the end of the stream.
    FmtTooSmall,
    /// No `fmt ` chunk before the `data` chunk (or the end).
    MissingFmt,
    /// No `data` chunk.
    MissingData,
    /// `audio_format` is not 1 (PCM).
    NotPcm(u16),
    /// `bits_per_sample` is not 16.
    NotSixteenBit(u16),
    /// `channels` is 0.
    ZeroChannels,
    /// `sample_rate` is 0.
    ZeroSampleRate,
    /// The `data` chunk claims more bytes than the stream holds.
    DataOutOfBounds { declared: u32, available: usize },
}

/// The message shown for each WAV error.
pub open spec fn wav_error_message(e: WavError) -> Seq<char> {
    match e {
        WavError::TooShort => "WAV 字节流过短（< 12 字节），不是合法 RIFF 头"@,
        WavError::NotRiff => "WAV 缺少 RIFF 标识：前 4 字节应为 \"RIFF\""@,
        WavError::NotWave => "WAV 缺少 WAVE 标识：byte 8..12 应为 \"WAVE\""@,
        WavError::FmtTooSmall => "fmt 块大小不足（< 16 字节）"@,
        WavError::MissingFmt => "WAV 缺少 fmt 块"@,
        WavError::MissingData => "WAV 找不到 data 块"@,
        WavError::NotPcm(f) => "WAV audio_format = "@ + decimal(f as nat)
            + "（非 PCM=1），暂不支持 IEEE float / ADPCM / 其它压缩格式"@,
        WavError::NotSixteenBit(b) => "WAV bits_per_sample = "@ + decimal(b as nat)
            + "（非 16-bit），暂不支持 24-bit / 8-bit / 32-bit"@,
        WavError::ZeroChannels => "WAV channels = 0（非法）"@,
        WavError::ZeroSampleRate => "WAV sample_rate = 0（非法）"@,
        WavError::DataOutOfBounds { declared, available } => "WAV data 越界：声明 "@
            + decimal(declared as nat) + " 字节，实际剩余 "@ + decimal(available as nat) + " 字节"@,
    }
}

impl WavError {
    /// The message of the error (see [`wav_error_message`]).
    pub fn message(&self) -> (m: String)
        ensures
            m@ == wav_error_message(*self),
    {
        match self {
            WavError::TooShort => String::from_str("WAV 字节流过短（< 12 字节），不是合法 RIFF 头"),
            WavError::NotRiff => String::from_str("WAV 缺少 RIFF 标识：前 4 字节应为 \"RIFF\""),
            WavError::NotWave => String::from_str("WAV 缺少 WAVE 标识：byte 8..12 应为 \"WAVE\""),
            WavError::FmtTooSmall => String::from_str("fmt 块大小不足（< 16 字节）"),
            WavError::MissingFmt => String::from_str("WAV 缺少 fmt 块"),
            WavError::MissingData => String::from_str("WAV 找不到 data 块"),
            WavError::NotPcm(f) => {
                let mut m = String::from_str("WAV audio_format = ");
                m.append(u64_to_decimal(*f as u64).as_str());
                m.append("（非 PCM=1），暂不支持 IEEE float / ADPCM / 其它压缩格式");
                m
            },
            WavError::NotSixteenBit(b) => {
                let mut m = String::from_str("WAV bits_per_sample = ");
                m.append(u64_to_decimal(*b as u64).as_str());
                m.append("（非 16-bit），暂不支持 24-bit / 8-bit / 32-bit");
                m
            },
            WavError::ZeroChannels => String::from_str("WAV channels = 0（非法）"),
            WavError::ZeroSampleRate => String::from_str("WAV sample_rate = 0（非法）"),
            WavError::DataOutOfBounds { declared, available } => {
                let mut m = String::from_str("WAV data 越界：声明 ");
                m.append(u64_to_decimal(*declared as u64).as_str());
                m.append(" 字节，实际剩余 ");
                m.append(u64_to_decimal(*available as u64).as_str());
                m.append(" 字节");
                m
            },
        }
    }
}

/// What a walk over the sub-chunks found.
pub enum ChunkScan {
    /// A `fmt ` chunk was too small.
    BadFmt,
    /// The walk ended; the last `fmt ` seen before it, and the first `data`
    /// chunk (body offset and declared size), if any.
    Done { fmt: Option<WavFormat>, data: Option<(int, u32)> },
}

/// The `fmt ` fields of a chunk whose body starts at `body`.
pub open spec fn fmt_at(b: Seq<u8>, body: int) -> WavFormat {
    WavFormat {
        audio_format: le_u16(b, body) as u16,
        channels: le_u16(b, body + 2) as u16,
        sample_rate: le_u32(b, body + 4) as u32,
        bits_per_sample: le_u16(b, body + 14) as u16,
    }
}

/// Bytes left after `cursor` in a stream of length `len`.
pub open spec fn remaining(len: int, cursor: int) -> nat {
    if cursor < len { (len - cursor) as nat } else { 0 }
}

/// The sub-chunk walk starting at `cursor`: each chunk is an id, a 32-bit
/// little-endian size and a body padded to an even length.  Chunks other
/// than `fmt ` and `data` are skipped; the walk stops at `data` or when
/// fewer than 8 bytes remain.
pub open spec fn scan_chunks(b: Seq<u8>, cursor: int, fmt: Option<WavFormat>) -> ChunkScan
    decreases remaining(b.len() as int, cursor),
{
    if cursor < 0 || cursor + 8 > b.len() {
        ChunkScan::Done { fmt, data: None }
    } else {
        let size = le_u32(b, cursor + 4);
        let body = cursor + 8;
        let next = body + size;
        proof {
            assert(size >= 0);
            assert(next % 2 >= 0);
        }
        if has_tag(b, cursor, tag_fmt()) {
            if size < 16 || body + 16 > b.len() {
                ChunkScan::BadFmt
            } else {
                scan_chunks(b, next + next % 2, Some(fmt_at(b, body)))
            }
        } else if has_tag(b, cursor, tag_data()) {
            ChunkScan::Done { fmt, data: Some((body, size as u32)) }
        } else {
            scan_chunks(b, next + next % 2, fmt)
        }
    }
}

/// The result of analysing the structure of a WAV byte stream.
pub open spec fn spec_wav_layout(b: Seq<u8>) -> Result<WavLayout, WavError> {
    if b.len() < 12 {
        Err(WavError::TooShort)
    } else if !has_tag(b, 0, tag_riff()) {
        Err(WavError::NotRiff)
    } else if !has_tag(b, 8, tag_wave()) {
        Err(WavError::NotWave)
    } else {
        match scan_chunks(b, 12, None) {
            ChunkScan::BadFmt => Err(WavError::FmtTooSmall),
            ChunkScan::Done { fmt, data } => {
                if fmt is None {
                    Err(WavError::MissingFmt)
                } else if data is None {
                    Err(WavError::MissingData)
                } else {
                    let f = fmt->0;
                    let (off, size) = data->0;
                    if f.audio_format != 1 {
                        Err(WavError::NotPcm(f.audio_format))
                    } else if f.bits_per_sample != 16 {
                        Err(WavError::NotSixteenBit(f.bits_per_sample))
                    } else if f.channels == 0 {
                        Err(WavError::ZeroChannels)
                    } else if f.sample_rate == 0 {
                        Err(WavError::ZeroSampleRate)
                    } else if off + size > b.len() {
                        Err(WavError::DataOutOfBounds { declared: size, available: (b.len() - off) as usize })
                    } else {
                        let frames = size as int / (2 * f.channels as int);
                        Ok(WavLayout {
                            channels: f.channels,
                            sample_rate: f.sample_rate,
                            data_offset: off as usize,
                            data_size: size,
                            frames: frames as u64,
                            duration_ms: (frames * 1000 / f.sample_rate as int) as u64,
                        })
                    }
                }
            },
        }
    }
}

fn read_u16(b: &[u8], i: usize) -> (r: u16)
    requires
        i + 2 <= b@.len(),
    ensures
        r as int == le_u16(b@, i as int),
{
    (b[i] as u16) + (b[i + 1] as u16) * 256
}

fn read_u32(b: &[u8], i: usize) -> (r: u32)
    requires
        i + 4 <= b@.len(),
    ensures
        r as int == le_u32(b@, i as int),
{
    (b[i] as u32) + (b[i + 1] as u32) * 256 + (b[i + 2] as u32) * 65536 + (b[i + 3] as u32) * 16777216
}

fn tag_is(b: &[u8], i: usize, t0: u8, t1: u8, t2: u8, t3: u8) -> (r: bool)
    requires
        i + 4 <= b@.len(),
    ensures
        r == has_tag(b@, i as int, seq![t0, t1, t2, t3]),
{
    b[i] == t0 && b[i + 1] == t1 && b[i + 2] == t2 && b[i + 3] == t3
}

/// Analyse the structure of a WAV byte stream: RIFF/WAVE header, `fmt `
/// and `data` chunks, 16-bit PCM only, and the duration.
pub fn wav_layout(bytes: &[u8]) -> (r: Result<WavLayout, WavError>)
    ensures
        r == spec_wav_layout(bytes@),
{
    let len = bytes.len();
    if len < 12 {
        return Err(WavError::TooShort);
    }
    if !tag_is(bytes, 0, 0x52, 0x49, 0x46, 0x46) {
        return Err(WavError::NotRiff);
    }
    if !tag_is(bytes, 8, 0x57, 0x41, 0x56, 0x45) {
        return Err(WavError::NotWave);
    }
    let ghost b = bytes@;
    let mut cursor: u128 = 12;
    let mut fmt: Option<WavFormat> = None;
    let mut data: Option<(usize, u32)> = None;
    while cursor + 8 <= len as u128
        invariant_except_break
            len == b.len(),
            len >= 12,
            has_tag(b, 0, tag_riff()),
            has_tag(b, 8, tag_wave()),
            b == bytes@,
            data is None,
            scan_chunks(b, 12, None) == scan_chunks(b, cursor as int, fmt),
        invariant
            cursor <= u64::MAX as u128 + 0x2_0000_0002,
        ensures
            len == b.len(),
            len >= 12,
            has_tag(b, 0, tag_riff()),
            has_tag(b, 8, tag_wave()),
            b == bytes@,
            scan_chunks(b, 12, None) == (match data {
                Some((o, s)) => ChunkScan::Done { fmt, data: Some((o as int, s)) },
                None => scan_chunks(b, cursor as int, fmt),
            }),
            data is None ==> cursor + 8 > len as u128,
            data matches Some((o, s)) ==> o <= len,
        decreases len as u128 + 0x2_0000_0003 - cursor,
    {
        let c = cursor as usize;
        let size = read_u32(bytes, c + 4);
        let body: u128 = cursor + 8;
        if tag_is(bytes, c, 0x66, 0x6d, 0x74, 0x20) {
            if size < 16 || body + 16 > len as u128 {
                assert(has_tag(b, cursor as int, tag_fmt()));
                assert(scan_chunks(b, cursor as int, fmt) is BadFmt);
                return Err(WavError::FmtTooSmall);
            }
            let bi = body as usize;
            fmt = Some(WavFormat {
                audio_format: read_u16(bytes, bi),
                channels: read_u16(bytes, bi + 2),
                sample_rate: read_u32(bytes, bi + 4),
                bits_per_sample: read_u16(bytes, bi + 14),
            });
        } else if tag_is(bytes, c, 0x64, 0x61, 0x74, 0x61) {
            data = Some((body as usize, size));
            break;
        }
        let next: u128 = body + size as u128;
        cursor = next + next % 2;
    }
    let f = match fmt {
        Some(f) => f,
        None => return Err(WavError::MissingFmt),
    };
    let (off, size) = match data {
        Some(d) => d,
        None => return Err(WavError::MissingData),
    };
    if f.audio_format != 1 {
        return Err(WavError::NotPcm(f.audio_format));
    }
    if f.bits_per_sample != 16 {
        return Err(WavError::NotSixteenBit(f.bits_per_sample));
    }
    if f.channels == 0 {
        return Err(WavError::ZeroChannels);
    }
    if f.sample_rate == 0 {
        return Err(WavError::ZeroSampleRate);
    }
    if off as u128 + size as u128 > len as u128 {
        return Err(WavError::DataOutOfBounds { declared: size, available: len - off });
    }
    let block_align: u64 = (f.channels as u64) * 2;
    let frames: u64 = size as u64 / block_align;
    let duration_ms: u64 = frames * 1000 / (f.sample_rate as u64);
    Ok(WavLayout {
        channels: f.channels,
        sample_rate: f.sample_rate,
        data_offset: off,
        data_size: size,
        frames,
        duration_ms,
    })
}

/// Magnitude of the signed 16-bit sample whose little-endian encoding has
/// unsigned value `u` (`i16::unsigned_abs`).
pub open spec fn sample_magnitude(u: int) -> int {
    if u >= 32768 { 65536 - u } else { u }
}

/// Sum of the sample magnitudes of the first `k` channels of frame `frame`.
pub open spec fn frame_magnitude_sum(data: Seq<u8>, frame: int, channels: int, k: int) -> int
    decreases k,
{
    if k <= 0 {
        0
    } else {
        frame_magnitude_sum(data, frame, channels, k - 1)
            + sample_magnitude(le_u16(data, frame * channels * 2 + (k - 1) * 2))
    }
}

/// Sum over the channels of one frame of the 16-bit sample magnitudes, or
/// `None` when the frame runs past the end of `data` or there are no
/// channels.  Dividing by `channels * i16::MAX` gives the frame's mean
/// normalised amplitude.
pub fn frame_abs_sum(data: &[u8], frame: u64, channels: u16) -> (r: Option<u32>)
    ensures
        r == (if channels == 0 || (frame + 1) * channels * 2 > data@.len() {
            None
        } else {
            Some(frame_magnitude_sum(data@, frame as int, channels as int, channels as int) as u32)
        }),
{
    if channels == 0 {
        return None;
    }
    let ch = channels as u128;
    let len = data.len() as u128;
    proof {
        assert((frame as u128 + 1) * ch * 2 <= 0x1_0000_0000_0000_0000u128 * 0x1_0000u128 * 2) by (nonlinear_arith)
            requires ch <= 0xFFFFu128, frame as u128 + 1 <= 0x1_0000_0000_0000_0000u128;
    }
    if (frame as u128 + 1) * ch * 2 > len {
        proof {
            assert((frame + 1) * channels * 2 == (frame as u128 + 1) * ch * 2) by (nonlinear_arith)
                requires ch == channels;
        }
        return None;
    }
    proof {
        assert((frame + 1) * channels * 2 == (frame as u128 + 1) * ch * 2) by (nonlinear_arith)
            requires ch == channels;
    }
    proof {
        assert(frame as u128 * ch * 2 <= (frame as u128 + 1) * ch * 2) by (nonlinear_arith);
        assert(frame as u128 * ch <= (frame as u128 + 1) * ch) by (nonlinear_arith);
    }
    let base: usize = (frame as u128 * ch * 2) as usize;
    proof {
        assert(base == frame * channels * 2) by (nonlinear_arith)
            requires base == frame as u128 * ch * 2, ch == channels;
        assert((frame + 1) * channels * 2 == frame * channels * 2 + channels * 2) by (nonlinear_arith);
    }
    let mut acc: u32 = 0;
    let mut c: u16 = 0;
    while c < channels
        invariant
            c <= channels,
            base == frame * channels * 2,
            base + channels * 2 <= data@.len(),
            data@.len() <= usize::MAX,
            acc as int == frame_magnitude_sum(data@, frame as int, channels as int, c as int),
            acc <= c as int * 32768,
        decreases channels - c,
    {
        assert(base + (c as usize) * 2 + 2 <= data@.len());
        let pos: usize = base + (c as usize) * 2;
        let u = read_u16(data, pos);
        let m: u32 = if u >= 32768 { 65536 - (u as u32) } else { u as u32 };
        acc = acc + m;
        c = c + 1;
    }
    Some(acc)
}

/// Frame range `[start, end)` of bucket `bucket` in an envelope of
/// [`BUCKETS`] buckets over `frames` frames: `start = bucket * frames / 64`,
/// `end = max(start + 1, (bucket + 1) * frames / 64)` capped at `frames`.
/// Every bucket gets at least one frame while any remain.
pub fn bucket_frame_range(bucket: u64, frames: u64) -> (r: (u64, u64))
    requires
        bucket < 64,
        frames <= u32::MAX,
    ensures
        r.0 == bucket * frames / 64,
        r.1 == ({
            let e = (bucket + 1) * frames / 64;
            let e2 = if e > r.0 + 1 { e } else { r.0 + 1 };
            if e2 < frames { e2 } else { frames as int }
        }),
        r.0 < frames ==> r.0 < r.1,
        r.1 <= frames,
        frames > 0 ==> r.0 < r.1,
{
    proof {
        assert(bucket * frames <= 64 * 0xFFFF_FFFF) by (nonlinear_arith)
            requires bucket < 64, frames <= 0xFFFF_FFFFu64;
        assert((bucket + 1) * frames <= 64 * 0xFFFF_FFFF) by (nonlinear_arith)
            requires bucket < 64, frames <= 0xFFFF_FFFFu64;
    }
    let start = bucket * frames / 64;
    proof {
        if frames > 0 {
            assert(bucket * frames / 64 < frames) by (nonlinear_arith)
                requires bucket < 64, frames > 0;
        }
    }
    let e = (bucket + 1) * frames / 64;
    let e2 = if e > start + 1 { e } else { start + 1 };
    let end = if e2 < frames { e2 } else { frames };
    (start, end)
}

/// A `data` chunk found by the walk starts after the walk's start.
proof fn lemma_scan_data_after(b: Seq<u8>, cursor: int, fmt: Option<WavFormat>)
    requires
        cursor >= 0,
    ensures
        scan_chunks(b, cursor, fmt) matches ChunkScan::Done { data: Some(d), .. } ==> d.0 >= cursor + 8,
    decreases remaining(b.len() as int, cursor),
{
    if cursor + 8 <= b.len() {
        let size = le_u32(b, cursor + 4);
        let body = cursor + 8;
        let next = body + size;
        assert(size >= 0);
        assert(next % 2 >= 0);
        if has_tag(b, cursor, tag_fmt()) {
            if !(size < 16 || body + 16 > b.len()) {
                lemma_scan_data_after(b, next + next % 2, Some(fmt_at(b, body)));
            }
        } else if !has_tag(b, cursor, tag_data()) {
            lemma_scan_data_after(b, next + next % 2, fmt);
        }
    }
}

/// Law of WAV validation: a stream is accepted only when it is at least 12
/// bytes long, starts with `RIFF`, names `WAVE`, and its chunks hold a
/// 16-bit PCM `fmt ` chunk before a `data` chunk inside the stream, with
/// channels and a sample rate; the layout then counts the whole frames of
/// the data and their duration in milliseconds.  Every other stream is an
/// error.
pub proof fn law_wav_accepts_only_well_formed(b: Seq<u8>)
    requires
        b.len() <= usize::MAX,
    ensures
        spec_wav_layout(b) matches Ok(l) ==> {
            &&& b.len() >= 12
            &&& has_tag(b, 0, tag_riff())
            &&& has_tag(b, 8, tag_wave())
            &&& l.channels > 0
            &&& l.sample_rate > 0
            &&& l.data_offset + l.data_size <= b.len()
            &&& l.frames * l.channels * 2 <= l.data_size
            &&& l.frames == l.data_size as int / (2 * l.channels as int)
            &&& l.duration_ms == l.frames as int * 1000 / l.sample_rate as int
            &&& scan_chunks(b, 12, None) matches ChunkScan::Done { fmt: Some(f), data: Some(d) }
                && f.audio_format == 1 && f.bits_per_sample == 16
                && f.channels == l.channels && f.sample_rate == l.sample_rate
                && d.0 == l.data_offset && d.1 == l.data_size
        },
{
    lemma_scan_data_after(b, 12, None);
    if let Ok(l) = spec_wav_layout(b) {
        let size = l.data_size as int;
        let ch = l.channels as int;
        assert(l.frames == size / (2 * ch));
        assert((size / (2 * ch)) * ch * 2 <= size) by (nonlinear_arith)
            requires ch > 0, size >= 0;
        let fr = size / (2 * ch);
        let rate = l.sample_rate as int;
        assert(0 <= fr <= size) by (nonlinear_arith)
            requires ch > 0, size >= 0, fr == size / (2 * ch);
        assert(0 <= fr * 1000 / rate <= fr * 1000) by (nonlinear_arith)
            requires rate > 0, fr >= 0;
        assert(l.duration_ms == fr * 1000 / rate);
        if let ChunkScan::Done { fmt: Some(f), data: Some(d) } = scan_chunks(b, 12, None) {
            assert(f.audio_format == 1 && f.bits_per_sample == 16);
            assert(d.0 == l.data_offset && d.1 == l.data_size);
        }
    }
}

} // verus!
