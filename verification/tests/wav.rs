use fingertip::wav::{bucket_frame_range, frame_abs_sum, wav_layout, WavError, BUCKETS};

fn mono_header(sample_rate: u32, data_size: u32) -> Vec<u8> {
    let mut buf = Vec::new();
    buf.extend_from_slice(b"RIFF");
    buf.extend_from_slice(&(36 + data_size).to_le_bytes());
    buf.extend_from_slice(b"WAVE");
    buf.extend_from_slice(b"fmt ");
    buf.extend_from_slice(&16u32.to_le_bytes());
    buf.extend_from_slice(&1u16.to_le_bytes());
    buf.extend_from_slice(&1u16.to_le_bytes());
    buf.extend_from_slice(&sample_rate.to_le_bytes());
    buf.extend_from_slice(&(sample_rate * 2).to_le_bytes());
    buf.extend_from_slice(&2u16.to_le_bytes());
    buf.extend_from_slice(&16u16.to_le_bytes());
    buf
}

fn constant_mono(duration_ms: u32, sample_rate: u32, value: i16) -> Vec<u8> {
    let n = (duration_ms as usize) * sample_rate as usize / 1000;
    let mut buf = mono_header(sample_rate, (n * 2) as u32);
    buf.extend_from_slice(b"data");
    buf.extend_from_slice(&((n * 2) as u32).to_le_bytes());
    for _ in 0..n {
        buf.extend_from_slice(&value.to_le_bytes());
    }
    buf
}

#[test]
fn analyze_wav_parses_pcm_and_extracts_64_buckets() {
    let wav = constant_mono(1000, 44100, 8000);
    let l = wav_layout(&wav).expect("标准 PCM WAV 应能解析");
    assert_eq!(l.duration_ms, 1000, "1 秒 → duration_ms = 1000");
    assert_eq!(l.frames, 44100);
    assert_eq!(l.channels, 1);
    assert_eq!(l.data_offset, 44);
    assert_eq!(BUCKETS, 64);
}

#[test]
fn analyze_wav_silent_returns_zeros() {
    let wav = constant_mono(500, 44100, 0);
    let l = wav_layout(&wav).expect("静音 WAV 仍合法");
    assert_eq!(l.duration_ms, 500);
    let data = &wav[l.data_offset..];
    for f in 0..l.frames {
        assert_eq!(frame_abs_sum(data, f, l.channels), Some(0));
    }
}

#[test]
fn analyze_wav_short_returns_shorter_buckets_filled() {
    let mut buf = mono_header(44100, 88);
    buf.extend_from_slice(b"data");
    buf.extend_from_slice(&88u32.to_le_bytes());
    for _ in 0..44 {
        buf.extend_from_slice(&16000i16.to_le_bytes());
    }
    let l = wav_layout(&buf).expect("44 帧恒定振幅应能解析");
    assert_eq!(l.frames, 44);
    for b in 0..64u64 {
        let (s, e) = bucket_frame_range(b, l.frames);
        assert!(s < e && e <= 44, "bucket {} got {}..{}", b, s, e);
    }
}

#[test]
fn analyze_wav_stereo_opposite_channels_not_silent() {
    let n = 4410usize;
    let mut buf = Vec::new();
    buf.extend_from_slice(b"RIFF");
    buf.extend_from_slice(&((4 + 8 + 16 + 8 + n * 4) as u32).to_le_bytes());
    buf.extend_from_slice(b"WAVE");
    buf.extend_from_slice(b"fmt ");
    buf.extend_from_slice(&16u32.to_le_bytes());
    buf.extend_from_slice(&1u16.to_le_bytes());
    buf.extend_from_slice(&2u16.to_le_bytes());
    buf.extend_from_slice(&44100u32.to_le_bytes());
    buf.extend_from_slice(&(44100u32 * 4).to_le_bytes());
    buf.extend_from_slice(&4u16.to_le_bytes());
    buf.extend_from_slice(&16u16.to_le_bytes());
    buf.extend_from_slice(b"data");
    buf.extend_from_slice(&((n * 4) as u32).to_le_bytes());
    for _ in 0..n {
        buf.extend_from_slice(&20000i16.to_le_bytes());
        buf.extend_from_slice(&(-20000i16).to_le_bytes());
    }
    let l = wav_layout(&buf).expect("反相立体声 WAV 应能解析");
    assert_eq!(l.channels, 2);
    assert_eq!(l.duration_ms, 100);
    let data = &buf[l.data_offset..];
    assert_eq!(frame_abs_sum(data, 0, 2), Some(40000), "反相立体声不应被判为静音");
}

#[test]
fn analyze_wav_errors_on_not_riff() {
    let mut bad = b"NOTRIFF".to_vec();
    bad.extend_from_slice(&[0u8; 100]);
    assert_eq!(wav_layout(&bad), Err(WavError::NotRiff), "非 RIFF 标识应报错");
}

#[test]
fn analyze_wav_errors_on_missing_data_chunk() {
    let bad = mono_header(44100, 0);
    assert!(wav_layout(&bad).is_err(), "缺 data 块应报错");
    assert_eq!(wav_layout(&bad), Err(WavError::MissingData));
}

#[test]
fn analyze_wav_errors_on_non_pcm() {
    let mut bad = Vec::new();
    bad.extend_from_slice(b"RIFF");
    bad.extend_from_slice(&36u32.to_le_bytes());
    bad.extend_from_slice(b"WAVE");
    bad.extend_from_slice(b"fmt ");
    bad.extend_from_slice(&16u32.to_le_bytes());
    bad.extend_from_slice(&3u16.to_le_bytes());
    bad.extend_from_slice(&1u16.to_le_bytes());
    bad.extend_from_slice(&44100u32.to_le_bytes());
    bad.extend_from_slice(&88200u32.to_le_bytes());
    bad.extend_from_slice(&2u16.to_le_bytes());
    bad.extend_from_slice(&16u16.to_le_bytes());
    bad.extend_from_slice(b"data");
    bad.extend_from_slice(&4u32.to_le_bytes());
    bad.extend_from_slice(&[0u8; 4]);
    assert_eq!(wav_layout(&bad), Err(WavError::NotPcm(3)), "非 PCM 格式应报错");
}

#[test]
fn analyze_wav_handles_list_chunk_before_data() {
    let n = 100usize;
    let data_size = (n * 2) as u32;
    let mut wav = mono_header(44100, data_size);
    wav.extend_from_slice(b"LIST");
    wav.extend_from_slice(&8u32.to_le_bytes());
    wav.extend_from_slice(b"INFO");
    wav.extend_from_slice(b"abcd");
    wav.extend_from_slice(b"data");
    wav.extend_from_slice(&data_size.to_le_bytes());
    for i in 0..n {
        wav.extend_from_slice(&((i as i16) * 10).to_le_bytes());
    }
    let l = wav_layout(&wav).expect("LIST chunk 后应能跳过，正确解析 data");
    assert_eq!(l.frames, 100);
    assert_eq!(l.data_offset, 44 + 16);
}

#[test]
fn wav_layout_reports_short_and_truncated_streams() {
    assert_eq!(wav_layout(b"RIFF"), Err(WavError::TooShort));
    let mut w = constant_mono(10, 8000, 1);
    w.truncate(w.len() - 2);
    assert!(matches!(wav_layout(&w), Err(WavError::DataOutOfBounds { .. })));
}

#[test]
fn wav_errors_have_their_messages() {
    assert_eq!(WavError::TooShort.message(), "WAV 字节流过短（< 12 字节），不是合法 RIFF 头");
    assert_eq!(WavError::NotRiff.message(), "WAV 缺少 RIFF 标识：前 4 字节应为 \"RIFF\"");
    assert_eq!(
        WavError::NotPcm(3).message(),
        "WAV audio_format = 3（非 PCM=1），暂不支持 IEEE float / ADPCM / 其它压缩格式"
    );
    assert_eq!(
        WavError::DataOutOfBounds { declared: 1000, available: 12 }.message(),
        "WAV data 越界：声明 1000 字节，实际剩余 12 字节"
    );
    assert_eq!(WavError::ZeroSampleRate.message(), "WAV sample_rate = 0（非法）");
}
