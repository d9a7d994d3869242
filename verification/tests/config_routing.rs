use fingertip::config::{
    cloud_audio_ok, cloud_image_ok, cloud_llm_ok, plan_clients, route_capability, Backend,
    CapabilityMode, EngineConfig, EngineHealth, FingertipConfig, RouteDecision,
    AUDIO_CLOUD_MODEL_DEFAULT, IMAGE_CLOUD_MODEL_DEFAULT, LLM_CLOUD_MODEL_DEFAULT,
    MINIMAX_API_BASE,
};

#[test]
fn default_config_has_engine_base_url_and_local_first_modes() {
    let c = FingertipConfig::default();
    assert_eq!(c.engine.base_url, "http://127.0.0.1:8765");
    assert_eq!(c.llm.mode, CapabilityMode::LocalFirst);
    assert_eq!(c.image.mode, CapabilityMode::LocalFirst);
    assert_eq!(c.audio.mode, CapabilityMode::LocalFirst);
    assert_eq!(c.llm.cloud_base, MINIMAX_API_BASE);
    assert_eq!(c.llm.cloud_model, LLM_CLOUD_MODEL_DEFAULT);
    assert_eq!(c.image.cloud_model, IMAGE_CLOUD_MODEL_DEFAULT);
    assert_eq!(c.audio.minimax_base, MINIMAX_API_BASE);
    assert_eq!(c.audio.minimax_model, AUDIO_CLOUD_MODEL_DEFAULT);
    assert!(c.llm.cloud_key.is_empty());
}

#[test]
fn route_local_first_uses_local_when_available() {
    assert_eq!(route_capability(CapabilityMode::LocalFirst, true, false, "llm"), RouteDecision::Local);
}

#[test]
fn route_local_first_falls_back_to_cloud_when_local_down() {
    assert_eq!(route_capability(CapabilityMode::LocalFirst, false, true, "image"), RouteDecision::Cloud);
}

#[test]
fn route_local_first_unavailable_when_both_down() {
    let d = route_capability(CapabilityMode::LocalFirst, false, false, "audio");
    assert!(matches!(d, RouteDecision::Unavailable(reason) if reason.contains("audio")));
}

#[test]
fn route_cloud_only_never_uses_local() {
    assert!(matches!(route_capability(CapabilityMode::CloudOnly, true, false, "llm"), RouteDecision::Unavailable(_)));
    assert_eq!(route_capability(CapabilityMode::CloudOnly, true, true, "llm"), RouteDecision::Cloud);
}

#[test]
fn route_local_only_never_uses_cloud() {
    assert!(matches!(route_capability(CapabilityMode::LocalOnly, false, true, "image"), RouteDecision::Unavailable(_)));
}

#[test]
fn route_local_only_uses_local_when_available() {
    assert_eq!(route_capability(CapabilityMode::LocalOnly, true, true, "llm"), RouteDecision::Local);
    assert_eq!(route_capability(CapabilityMode::LocalOnly, true, false, "llm"), RouteDecision::Local);
}

#[test]
fn route_local_first_prefers_local_when_both_available() {
    assert_eq!(route_capability(CapabilityMode::LocalFirst, true, true, "llm"), RouteDecision::Local);
}

#[test]
fn route_reason_texts_name_the_capability_and_mode() {
    assert_eq!(
        route_capability(CapabilityMode::LocalFirst, false, false, "audio"),
        RouteDecision::Unavailable("audio 不可用：本地引擎未就绪且云端未配置".to_string())
    );
    assert_eq!(
        route_capability(CapabilityMode::CloudOnly, true, false, "llm"),
        RouteDecision::Unavailable("llm 不可用：云端未配置（仅云端模式）".to_string())
    );
    assert_eq!(
        route_capability(CapabilityMode::LocalOnly, false, true, "image"),
        RouteDecision::Unavailable("image 不可用：本地引擎未就绪（仅本地模式）".to_string())
    );
}

fn cfg_no_cloud() -> FingertipConfig {
    FingertipConfig {
        engine: EngineConfig { enabled: true, base_url: "http://127.0.0.1:8765".into() },
        ..FingertipConfig::default()
    }
}

fn cfg_with_cloud() -> FingertipConfig {
    let mut c = FingertipConfig::default();
    c.llm.cloud_base = "https://api.openai.com".into();
    c.llm.cloud_key = "sk-x".into();
    c.llm.cloud_model = "gpt-4o-mini".into();
    c.image.cloud_base = "https://api.minimaxi.com".into();
    c.image.cloud_key = "mm-x".into();
    c.image.cloud_model = "image-01".into();
    c.audio.minimax_base = "https://api.MiniMax.chat".into();
    c.audio.minimax_key = "mm-x".into();
    c.audio.minimax_model = "music-01".into();
    c
}

#[test]
fn build_clients_routes_local_first_to_engine_when_available() {
    let cfg = cfg_no_cloud();
    let h = EngineHealth { llm: true, image: true, audio: true };
    let p = plan_clients(&cfg, &h).expect("LocalFirst + 全本地 应成功");
    assert_eq!(p.chat, Backend::Local);
    assert_eq!(p.music, Backend::Local);
    assert_eq!(p.image, Backend::Local);
}

#[test]
fn build_clients_errors_when_local_only_and_engine_down() {
    let mut cfg = cfg_no_cloud();
    cfg.llm.mode = CapabilityMode::LocalOnly;
    cfg.audio.mode = CapabilityMode::LocalOnly;
    cfg.image.mode = CapabilityMode::LocalOnly;
    let h = EngineHealth::default();
    let msg = plan_clients(&cfg, &h).unwrap_err();
    assert!(
        msg.contains("编排器 LLM 路由不可用") || msg.contains("LLM 路由不可用")
            || msg.contains("音乐") || msg.contains("图像"),
        "错误信息应说明哪个能力不可用，实际: {}",
        msg
    );
}

#[test]
fn build_clients_routes_cloud_when_local_first_but_engine_down() {
    let mut cfg = cfg_with_cloud();
    cfg.llm.mode = CapabilityMode::LocalFirst;
    cfg.audio.mode = CapabilityMode::LocalFirst;
    cfg.image.mode = CapabilityMode::LocalFirst;
    let h = EngineHealth::default();
    let p = plan_clients(&cfg, &h).expect("LocalFirst + 本地 down + 云端已配 应走云端");
    assert_eq!(p.chat, Backend::Cloud);
    assert_eq!(p.music, Backend::Cloud);
    assert_eq!(p.image, Backend::Cloud);
}

#[test]
fn build_clients_sets_cloud_model_identifiers_when_routed_cloud() {
    let mut cfg = cfg_with_cloud();
    cfg.llm.mode = CapabilityMode::LocalFirst;
    cfg.audio.mode = CapabilityMode::LocalFirst;
    cfg.image.mode = CapabilityMode::LocalFirst;
    let h = EngineHealth::default();
    let p = plan_clients(&cfg, &h).expect("云端已配应走云端");
    assert_eq!(p.music_model, "MiniMax-music", "云端音频出处应标 MiniMax-music");
    assert_eq!(p.image_model, "MiniMax-image", "云端图像出处应标 MiniMax-image");
}

#[test]
fn build_clients_sets_local_model_identifiers_when_routed_local() {
    let cfg = cfg_no_cloud();
    let h = EngineHealth { llm: true, image: true, audio: true };
    let p = plan_clients(&cfg, &h).expect("LocalFirst + 全本地 应成功");
    assert_eq!(p.music_model, "step-audio", "本地音频出处应标 step-audio");
    assert_eq!(p.image_model, "sd-cpp", "本地图像出处应标 sd-cpp");
}

#[test]
fn build_clients_errors_when_cloud_only_without_keys() {
    let mut cfg = FingertipConfig::default();
    cfg.llm.mode = CapabilityMode::CloudOnly;
    cfg.audio.mode = CapabilityMode::CloudOnly;
    cfg.image.mode = CapabilityMode::CloudOnly;
    let h = EngineHealth::default();
    let msg = plan_clients(&cfg, &h).unwrap_err();
    assert!(
        msg.contains("编排器 LLM 路由不可用") || msg.contains("LLM 路由不可用") || msg.contains("音乐"),
        "{}",
        msg
    );
    assert_eq!(msg, "编排器 LLM 路由不可用: llm 不可用：云端未配置（仅云端模式）");
}

#[test]
fn plan_reports_music_before_image() {
    let mut c = FingertipConfig::default();
    c.audio.mode = CapabilityMode::LocalOnly;
    c.image.mode = CapabilityMode::LocalOnly;
    let h = EngineHealth { llm: true, image: false, audio: false };
    assert_eq!(plan_clients(&c, &h).unwrap_err(), "音乐客户端路由不可用: audio 不可用：本地引擎未就绪（仅本地模式）");
    let h = EngineHealth { llm: true, image: false, audio: true };
    assert_eq!(plan_clients(&c, &h).unwrap_err(), "图像客户端路由不可用: image 不可用：本地引擎未就绪（仅本地模式）");
}

#[test]
fn cloud_ok_requires_non_blank_base_key_and_model() {
    let mut c = FingertipConfig::default();
    assert!(!cloud_llm_ok(&c));
    c.llm.cloud_key = "  ".into();
    assert!(!cloud_llm_ok(&c));
    c.llm.cloud_key = "sk-1".into();
    assert!(cloud_llm_ok(&c));
    c.llm.cloud_model = "\t".into();
    assert!(!cloud_llm_ok(&c));
    c.image.cloud_key = "x".into();
    assert!(cloud_image_ok(&c));
    c.audio.minimax_key = "x".into();
    assert!(cloud_audio_ok(&c));
    c.audio.minimax_base = String::new();
    assert!(!cloud_audio_ok(&c));
}

#[test]
fn engine_config_default_is_disabled() {
    let e = EngineConfig::default();
    assert!(!e.enabled);
    assert_eq!(e.base_url, "http://127.0.0.1:8765");
}
