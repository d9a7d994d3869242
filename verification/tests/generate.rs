use fingertip::generate::{
    build_model_art_adapter, build_model_music_adapter, ArtAdapter, ArtPrompt, ModelArtAdapter,
    ModelMusicAdapter, MusicAdapter, MusicPrompt, AMPLITUDE_SAMPLE_COUNT,
};

#[test]
fn music_prompt_has_description_field() {
    let p = MusicPrompt {
        events: vec![],
        mood: Some("happy".into()),
        style: "jazz".into(),
        theme_word: "x".into(),
        description: Some("happy jazz tune".into()),
    };
    assert_eq!(p.description.as_deref(), Some("happy jazz tune"));
}

#[test]
fn art_prompt_has_description_field() {
    let p = ArtPrompt {
        events: vec![],
        mood: Some("happy".into()),
        style: "jazz".into(),
        theme_word: "x".into(),
        description: Some("bright colors".into()),
    };
    assert_eq!(p.description.as_deref(), Some("bright colors"));
}

fn minimal_png() -> Vec<u8> {
    vec![
        0x89, 0x50, 0x4E, 0x47, 0x0D, 0x0A, 0x1A, 0x0A, 0x00, 0x00, 0x00, 0x0D, 0x49, 0x48, 0x44,
        0x52, 0x00, 0x00, 0x00, 0x01, 0x00, 0x00, 0x00, 0x01, 0x08, 0x06, 0x00, 0x00, 0x00, 0x1F,
        0x15, 0xC4, 0x89, 0x00, 0x00, 0x00, 0x0D, 0x49, 0x44, 0x41, 0x54, 0x78, 0x9C, 0x62, 0x00,
        0x00, 0x00, 0x00, 0x05, 0x00, 0x01, 0x0D, 0x0A, 0x2D, 0xB4, 0x00, 0x00, 0x00, 0x00, 0x49,
        0x45, 0x4E, 0x44, 0xAE, 0x42, 0x60, 0x82,
    ]
}

fn sample_art_prompt() -> ArtPrompt {
    ArtPrompt {
        events: vec![],
        mood: Some("happy".into()),
        style: "jazz".into(),
        theme_word: "hello".into(),
        description: Some("orange abstract with swirling shapes".into()),
    }
}

#[test]
fn model_art_uses_description_and_returns_png_bytes() {
    let png = minimal_png();
    let adapter = ModelArtAdapter::new("sd-cpp");
    let prompt = sample_art_prompt();
    let sent = adapter.request(&prompt).unwrap();
    assert_eq!(sent, "orange abstract with swirling shapes");
    let out = adapter.complete(&prompt, Ok(png.clone())).unwrap();
    assert_eq!(out.art.description, "orange abstract with swirling shapes");
    assert_eq!(out.art.model, "sd-cpp");
    assert_eq!(out.art.theme_word, "hello");
    assert_eq!(out.art.mood.as_deref(), Some("happy"));
    assert_eq!(out.png, png);
    assert_eq!(out.png[0..8], [0x89, 0x50, 0x4E, 0x47, 0x0D, 0x0A, 0x1A, 0x0A]);
}

#[test]
fn model_art_errors_when_description_missing() {
    let adapter = ModelArtAdapter::new("sd-cpp");
    let mut p = sample_art_prompt();
    p.description = None;
    let err = adapter.request(&p).unwrap_err();
    assert!(err.contains("description") || err.contains("编排器"), "{}", err);
    let err = adapter.complete(&p, Ok(minimal_png())).unwrap_err();
    assert!(err.contains("description") || err.contains("编排器"), "{}", err);
}

#[test]
fn model_art_propagates_image_client_errors() {
    let adapter = ModelArtAdapter::new("MiniMax-image");
    let err = adapter.complete(&sample_art_prompt(), Err("MiniMax rate limit".into())).unwrap_err();
    assert!(err.contains("MiniMax"), "{}", err);
    assert!(err.contains("MiniMax-image"), "{}", err);
    assert_eq!(err, "ModelArtAdapter: ImageClient(MiniMax-image) 生成失败: MiniMax rate limit");
}

#[test]
fn model_art_constructor_takes_model_name() {
    let a = ModelArtAdapter::new("minimax-image");
    assert_eq!(a.model(), "minimax-image");
    assert_eq!(a.name(), "model");
}

#[test]
fn build_model_art_adapter_factory_works() {
    let a = build_model_art_adapter("minimax-image");
    assert_eq!(a.model(), "minimax-image");
}

fn sample_music_prompt() -> MusicPrompt {
    MusicPrompt {
        events: vec![],
        mood: Some("calm".into()),
        style: "ambient".into(),
        theme_word: "rain".into(),
        description: Some("calm piano with rain ambience".into()),
    }
}

fn tiny_wav() -> Vec<u8> {
    let mut buf = Vec::new();
    buf.extend_from_slice(b"RIFF");
    buf.extend_from_slice(&40u32.to_le_bytes());
    buf.extend_from_slice(b"WAVE");
    buf.extend_from_slice(b"fmt ");
    buf.extend_from_slice(&[16, 0, 0, 0, 1, 0, 1, 0, 0x44, 0xAC, 0, 0, 0x88, 0x58, 1, 0, 2, 0, 16, 0]);
    buf.extend_from_slice(b"data");
    buf.extend_from_slice(&4u32.to_le_bytes());
    buf.extend_from_slice(&[1, 0, 2, 0]);
    buf
}

#[test]
fn model_music_uses_prompt_description_and_returns_wav_bytes() {
    let wav = tiny_wav();
    let adapter = ModelMusicAdapter::new("step-audio");
    let prompt = sample_music_prompt();
    assert_eq!(adapter.request(&prompt).unwrap(), "calm piano with rain ambience");
    let outcome = adapter.complete(&prompt, Ok(wav.clone())).unwrap();
    assert_eq!(outcome.music.description, "calm piano with rain ambience");
    assert_eq!(outcome.music.model, "step-audio");
    assert_eq!(outcome.music.bpm, 0);
    assert_eq!(outcome.music.duration_ms, 0);
    assert_eq!(outcome.wav, wav);
    assert_eq!(&outcome.wav[0..4], b"RIFF");
    assert_eq!(&outcome.wav[8..12], b"WAVE");
    assert_eq!(AMPLITUDE_SAMPLE_COUNT, 64);
}

#[test]
fn model_music_errors_when_description_missing() {
    let adapter = ModelMusicAdapter::new("step-audio");
    let mut p = sample_music_prompt();
    p.description = None;
    let err = adapter.request(&p).unwrap_err();
    assert!(err.contains("description") || err.contains("编排器"), "{}", err);
}

#[test]
fn model_music_propagates_audio_client_errors() {
    let adapter = ModelMusicAdapter::new("MiniMax-music");
    let err = adapter.complete(&sample_music_prompt(), Err("MiniMax 上传失败".into())).unwrap_err();
    assert!(err.contains("MiniMax"), "{}", err);
    assert_eq!(err, "ModelMusicAdapter: AudioClient(MiniMax-music) 生成失败: MiniMax 上传失败");
}

#[test]
fn model_music_does_not_validate_wav_bytes_adapter_passes_through() {
    let adapter = ModelMusicAdapter::new("step-audio");
    let outcome = adapter.complete(&sample_music_prompt(), Ok(b"NOT a valid wav".to_vec())).unwrap();
    assert_eq!(outcome.wav, b"NOT a valid wav".to_vec());
}

#[test]
fn model_music_constructor_takes_model_name() {
    let a = ModelMusicAdapter::new("MiniMax-music");
    assert_eq!(a.model(), "MiniMax-music");
    assert_eq!(a.name(), "model");
    let b = build_model_music_adapter("step-audio");
    assert_eq!(b.model(), "step-audio");
}
