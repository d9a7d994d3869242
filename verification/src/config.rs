//! Capability routing and the generation configuration model.

use vstd::prelude::*;
use vstd::string::StringExecFns;
use crate::text::{is_blank, str_is_blank};

verus! {

/// Three routing modes for one capability (LLM, image, audio).
#[derive(Debug, Clone, Copy, PartialEq, Eq, Structural)]
pub enum CapabilityMode {
    LocalFirst,
    CloudOnly,
    LocalOnly,
}

/// The outcome of routing one capability.
#[derive(Debug, Clone, PartialEq, Eq)]
pub enum RouteDecision {
    Local,
    Cloud,
    Unavailable(String),
}

/// Reason text when both sides are down in `LocalFirst` mode.
pub open spec fn reason_local_first(cap: Seq<char>) -> Seq<char> {
    cap + " 不可用：本地引擎未就绪且云端未配置"@
}

/// Reason text when the cloud is not configured in `CloudOnly` mode.
pub open spec fn reason_cloud_only(cap: Seq<char>) -> Seq<char> {
    cap + " 不可用：云端未配置（仅云端模式）"@
}

/// Reason text when the local engine is down in `LocalOnly` mode.
pub open spec fn reason_local_only(cap: Seq<char>) -> Seq<char> {
    cap + " 不可用：本地引擎未就绪（仅本地模式）"@
}

/// Which route a capability takes, abstracting from the reason text.
pub open spec fn spec_route(mode: CapabilityMode, local_ok: bool, cloud_ok: bool) -> Option<bool> {
    // Some(true) = local, Some(false) = cloud, None = unavailable
    match mode {
        CapabilityMode::LocalFirst => if local_ok { Some(true) } else if cloud_ok { Some(false) } else { None },
        CapabilityMode::CloudOnly => if cloud_ok { Some(false) } else { None },
        CapabilityMode::LocalOnly => if local_ok { Some(true) } else { None },
    }
}

/// Decide where a capability runs, from the mode and the availability of
/// each side. `cap` names the capability and only enters the reason text.
pub fn route_capability(mode: CapabilityMode, local_ok: bool, cloud_ok: bool, cap: &str) -> (d: RouteDecision)
    ensures
        spec_route(mode, local_ok, cloud_ok) == Some(true) <==> d is Local,
        spec_route(mode, local_ok, cloud_ok) == Some(false) <==> d is Cloud,
        d matches RouteDecision::Unavailable(r) ==> r@ == (match mode {
            CapabilityMode::LocalFirst => reason_local_first(cap@),
            CapabilityMode::CloudOnly => reason_cloud_only(cap@),
            CapabilityMode::LocalOnly => reason_local_only(cap@),
        }),
{
    match mode {
        CapabilityMode::LocalFirst => {
            if local_ok {
                RouteDecision::Local
            } else if cloud_ok {
                RouteDecision::Cloud
            } else {
                let r = String::from_str(cap).concat(" 不可用：本地引擎未就绪且云端未配置");
                RouteDecision::Unavailable(r)
            }
        },
        CapabilityMode::CloudOnly => {
            if cloud_ok {
                RouteDecision::Cloud
            } else {
                let r = String::from_str(cap).concat(" 不可用：云端未配置（仅云端模式）");
                RouteDecision::Unavailable(r)
            }
        },
        CapabilityMode::LocalOnly => {
            if local_ok {
                RouteDecision::Local
            } else {
                let r = String::from_str(cap).concat(" 不可用：本地引擎未就绪（仅本地模式）");
                RouteDecision::Unavailable(r)
            }
        },
    }
}

/// Default base URL of the MiniMax cloud API.
pub const MINIMAX_API_BASE: &'static str = "https://api.minimaxi.com";
/// Default cloud model of the orchestrator LLM.
pub const LLM_CLOUD_MODEL_DEFAULT: &'static str = "MiniMax-M3";
/// Default cloud image model.
pub const IMAGE_CLOUD_MODEL_DEFAULT: &'static str = "image-01";
/// Default cloud music model.
pub const AUDIO_CLOUD_MODEL_DEFAULT: &'static str = "music-3.0";
/// Default base URL of the local engine.
pub const ENGINE_BASE_URL_DEFAULT: &'static str = "http://127.0.0.1:8765";

/// Connection to the optional local engine.
#[derive(Debug, Clone, PartialEq)]
pub struct EngineConfig {
    pub enabled: bool,
    pub base_url: String,
}

impl Default for EngineConfig {
    fn default() -> (c: Self)
        ensures
            !c.enabled,
            c.base_url@ == ENGINE_BASE_URL_DEFAULT@,
    {
        EngineConfig { enabled: false, base_url: String::from_str(ENGINE_BASE_URL_DEFAULT) }
    }
}

/// Orchestrator LLM settings; several local GGUF paths may be listed.
#[derive(Debug, Clone, PartialEq)]
pub struct LlmConfig {
    pub mode: CapabilityMode,
    pub local_gguf: Vec<String>,
    pub cloud_base: String,
    pub cloud_key: String,
    pub cloud_model: String,
}

impl Default for LlmConfig {
    fn default() -> (c: Self)
        ensures
            c.mode == CapabilityMode::LocalFirst,
            c.local_gguf@.len() == 0,
            c.cloud_base@ == MINIMAX_API_BASE@,
            c.cloud_key@.len() == 0,
            c.cloud_model@ == LLM_CLOUD_MODEL_DEFAULT@,
    {
        LlmConfig {
            mode: CapabilityMode::LocalFirst,
            local_gguf: Vec::new(),
            cloud_base: String::from_str(MINIMAX_API_BASE),
            cloud_key: String::new(),
            cloud_model: String::from_str(LLM_CLOUD_MODEL_DEFAULT),
        }
    }
}

/// Image generation settings; one local model path.
#[derive(Debug, Clone, PartialEq)]
pub struct ImageConfig {
    pub mode: CapabilityMode,
    pub local_model_path: String,
    pub cloud_base: String,
    pub cloud_key: String,
    pub cloud_model: String,
}

impl Default for ImageConfig {
    fn default() -> (c: Self)
        ensures
            c.mode == CapabilityMode::LocalFirst,
            c.local_model_path@.len() == 0,
            c.cloud_base@ == MINIMAX_API_BASE@,
            c.cloud_key@.len() == 0,
            c.cloud_model@ == IMAGE_CLOUD_MODEL_DEFAULT@,
    {
        ImageConfig {
            mode: CapabilityMode::LocalFirst,
            local_model_path: String::new(),
            cloud_base: String::from_str(MINIMAX_API_BASE),
            cloud_key: String::new(),
            cloud_model: String::from_str(IMAGE_CLOUD_MODEL_DEFAULT),
        }
    }
}

/// Audio generation settings.
#[derive(Debug, Clone, PartialEq)]
pub struct AudioConfig {
    pub mode: CapabilityMode,
    pub minimax_base: String,
    pub minimax_key: String,
    pub minimax_model: String,
}

impl Default for AudioConfig {
    fn default() -> (c: Self)
        ensures
            c.mode == CapabilityMode::LocalFirst,
            c.minimax_base@ == MINIMAX_API_BASE@,
            c.minimax_key@.len() == 0,
            c.minimax_model@ == AUDIO_CLOUD_MODEL_DEFAULT@,
    {
        AudioConfig {
            mode: CapabilityMode::LocalFirst,
            minimax_base: String::from_str(MINIMAX_API_BASE),
            minimax_key: String::new(),
            minimax_model: String::from_str(AUDIO_CLOUD_MODEL_DEFAULT),
        }
    }
}

/// The whole generation configuration.
#[derive(Debug, Clone, PartialEq)]
pub struct FingertipConfig {
    pub engine: EngineConfig,
    pub llm: LlmConfig,
    pub image: ImageConfig,
    pub audio: AudioConfig,
}

/// `c` is the default configuration.
pub open spec fn is_default_config(c: FingertipConfig) -> bool {
    &&& !c.engine.enabled
    &&& c.engine.base_url@ == ENGINE_BASE_URL_DEFAULT@
    &&& c.llm.mode == CapabilityMode::LocalFirst
    &&& c.llm.local_gguf@.len() == 0
    &&& c.llm.cloud_base@ == MINIMAX_API_BASE@
    &&& c.llm.cloud_key@.len() == 0
    &&& c.llm.cloud_model@ == LLM_CLOUD_MODEL_DEFAULT@
    &&& c.image.mode == CapabilityMode::LocalFirst
    &&& c.image.local_model_path@.len() == 0
    &&& c.image.cloud_base@ == MINIMAX_API_BASE@
    &&& c.image.cloud_key@.len() == 0
    &&& c.image.cloud_model@ == IMAGE_CLOUD_MODEL_DEFAULT@
    &&& c.audio.mode == CapabilityMode::LocalFirst
    &&& c.audio.minimax_base@ == MINIMAX_API_BASE@
    &&& c.audio.minimax_key@.len() == 0
    &&& c.audio.minimax_model@ == AUDIO_CLOUD_MODEL_DEFAULT@
}

impl Default for FingertipConfig {
    fn default() -> (c: Self)
        ensures
            is_default_config(c),
    {
        FingertipConfig {
            engine: EngineConfig::default(),
            llm: LlmConfig::default(),
            image: ImageConfig::default(),
            audio: AudioConfig::default(),
        }
    }
}

/// Capabilities reported by the local engine's health probe.
#[derive(Debug, Clone, Copy, Default, PartialEq, Eq, Structural)]
pub struct EngineHealth {
    pub llm: bool,
    pub image: bool,
    pub audio: bool,
}

/// A cloud endpoint counts as configured when its base URL, key and model
/// are all non-blank.
pub open spec fn cloud_configured(base: Seq<char>, key: Seq<char>, model: Seq<char>) -> bool {
    !is_blank(base) && !is_blank(key) && !is_blank(model)
}

/// Whether the cloud LLM is configured.
pub fn cloud_llm_ok(cfg: &FingertipConfig) -> (b: bool)
    ensures
        b == cloud_configured(cfg.llm.cloud_base@, cfg.llm.cloud_key@, cfg.llm.cloud_model@),
{
    !str_is_blank(cfg.llm.cloud_base.as_str()) && !str_is_blank(cfg.llm.cloud_key.as_str())
        && !str_is_blank(cfg.llm.cloud_model.as_str())
}

/// Whether the cloud image service is configured.
pub fn cloud_image_ok(cfg: &FingertipConfig) -> (b: bool)
    ensures
        b == cloud_configured(cfg.image.cloud_base@, cfg.image.cloud_key@, cfg.image.cloud_model@),
{
    !str_is_blank(cfg.image.cloud_base.as_str()) && !str_is_blank(cfg.image.cloud_key.as_str())
        && !str_is_blank(cfg.image.cloud_model.as_str())
}

/// Whether the cloud music service is configured.
pub fn cloud_audio_ok(cfg: &FingertipConfig) -> (b: bool)
    ensures
        b == cloud_configured(cfg.audio.minimax_base@, cfg.audio.minimax_key@, cfg.audio.minimax_model@),
{
    !str_is_blank(cfg.audio.minimax_base.as_str()) && !str_is_blank(cfg.audio.minimax_key.as_str())
        && !str_is_blank(cfg.audio.minimax_model.as_str())
}

/// Where one capability runs.
#[derive(Debug, Clone, Copy, PartialEq, Eq, Structural)]
pub enum Backend {
    Local,
    Cloud,
}

/// The routing of all three capabilities, with the model labels recorded
/// for music and art.
#[derive(Debug, Clone, Copy, PartialEq, Eq)]
pub struct ClientPlan {
    pub chat: Backend,
    pub music: Backend,
    pub image: Backend,
    /// `step-audio` locally, `MiniMax-music` in the cloud.
    pub music_model: &'static str,
    /// `sd-cpp` locally, `MiniMax-image` in the cloud.
    pub image_model: &'static str,
}

/// The backend of a route, if any.
pub open spec fn backend_of(r: Option<bool>) -> Option<Backend> {
    match r {
        Some(true) => Some(Backend::Local),
        Some(false) => Some(Backend::Cloud),
        None => None,
    }
}

/// The reason text of an unavailable route.
pub open spec fn route_reason(mode: CapabilityMode, cap: Seq<char>) -> Seq<char> {
    match mode {
        CapabilityMode::LocalFirst => reason_local_first(cap),
        CapabilityMode::CloudOnly => reason_cloud_only(cap),
        CapabilityMode::LocalOnly => reason_local_only(cap),
    }
}

/// The client routing of a configuration given the engine's health: the
/// LLM, then music, then image, each routed by its mode; the first
/// capability with no route makes the whole plan fail with its reason.
pub open spec fn spec_plan(cfg: FingertipConfig, h: EngineHealth) -> Result<ClientPlan, Seq<char>> {
    let llm = spec_route(cfg.llm.mode, h.llm, cloud_configured(cfg.llm.cloud_base@, cfg.llm.cloud_key@, cfg.llm.cloud_model@));
    let audio = spec_route(cfg.audio.mode, h.audio, cloud_configured(cfg.audio.minimax_base@, cfg.audio.minimax_key@, cfg.audio.minimax_model@));
    let image = spec_route(cfg.image.mode, h.image, cloud_configured(cfg.image.cloud_base@, cfg.image.cloud_key@, cfg.image.cloud_model@));
    if llm is None {
        Err("编排器 LLM 路由不可用: "@ + route_reason(cfg.llm.mode, "llm"@))
    } else if audio is None {
        Err("音乐客户端路由不可用: "@ + route_reason(cfg.audio.mode, "audio"@))
    } else if image is None {
        Err("图像客户端路由不可用: "@ + route_reason(cfg.image.mode, "image"@))
    } else {
        Ok(ClientPlan {
            chat: backend_of(llm)->0,
            music: backend_of(audio)->0,
            image: backend_of(image)->0,
            music_model: if audio == Some(true) { "step-audio" } else { "MiniMax-music" },
            image_model: if image == Some(true) { "sd-cpp" } else { "MiniMax-image" },
        })
    }
}

fn backend_from(d: &RouteDecision) -> (b: Backend)
    requires
        !(d is Unavailable),
    ensures
        d is Local ==> b == Backend::Local,
        d is Cloud ==> b == Backend::Cloud,
{
    match d {
        RouteDecision::Local => Backend::Local,
        _ => Backend::Cloud,
    }
}

/// Route the LLM, music and image clients (see [`spec_plan`]).
pub fn plan_clients(cfg: &FingertipConfig, health: &EngineHealth) -> (r: Result<ClientPlan, String>)
    ensures
        match (r, spec_plan(*cfg, *health)) {
            (Ok(p), Ok(q)) => p == q,
            (Err(e), Err(f)) => e@ == f,
            _ => false,
        },
{
    let llm = route_capability(cfg.llm.mode, health.llm, cloud_llm_ok(cfg), "llm");
    if let RouteDecision::Unavailable(reason) = &llm {
        return Err(String::from_str("编排器 LLM 路由不可用: ").concat(reason.as_str()));
    }
    let audio = route_capability(cfg.audio.mode, health.audio, cloud_audio_ok(cfg), "audio");
    if let RouteDecision::Unavailable(reason) = &audio {
        return Err(String::from_str("音乐客户端路由不可用: ").concat(reason.as_str()));
    }
    let image = route_capability(cfg.image.mode, health.image, cloud_image_ok(cfg), "image");
    if let RouteDecision::Unavailable(reason) = &image {
        return Err(String::from_str("图像客户端路由不可用: ").concat(reason.as_str()));
    }
    let music_model: &'static str = match audio { RouteDecision::Local => "step-audio", _ => "MiniMax-music" };
    let image_model: &'static str = match image { RouteDecision::Local => "sd-cpp", _ => "MiniMax-image" };
    Ok(ClientPlan {
        chat: backend_from(&llm),
        music: backend_from(&audio),
        image: backend_from(&image),
        music_model,
        image_model,
    })
}

/// Laws of routing: local-only never uses the cloud and cloud-only never
/// the local engine; local-first uses a ready local engine and falls back
/// to the cloud only when the engine is not ready; a capability is
/// unavailable exactly when every side that its mode allows is down.
pub proof fn law_route_respects_mode(mode: CapabilityMode, local_ok: bool, cloud_ok: bool)
    ensures
        mode == CapabilityMode::LocalOnly ==> spec_route(mode, local_ok, cloud_ok) != Some(false),
        mode == CapabilityMode::CloudOnly ==> spec_route(mode, local_ok, cloud_ok) != Some(true),
        mode == CapabilityMode::LocalFirst && local_ok ==> spec_route(mode, local_ok, cloud_ok) == Some(true),
        spec_route(mode, local_ok, cloud_ok) == Some(true) ==> local_ok,
        spec_route(mode, local_ok, cloud_ok) == Some(false) ==> cloud_ok
            && !(mode == CapabilityMode::LocalFirst && local_ok),
        spec_route(mode, local_ok, cloud_ok) is None <==> match mode {
            CapabilityMode::LocalFirst => !local_ok && !cloud_ok,
            CapabilityMode::CloudOnly => !cloud_ok,
            CapabilityMode::LocalOnly => !local_ok,
        },
{
}

/// Law of the client plan: a plan exists exactly when all three
/// capabilities have a route; each capability then runs where its route
/// says, and the recorded music and image models name that side.
pub proof fn law_plan_follows_routes(cfg: FingertipConfig, h: EngineHealth)
    ensures
        spec_plan(cfg, h) is Ok <==> (
            spec_route(cfg.llm.mode, h.llm, cloud_configured(cfg.llm.cloud_base@, cfg.llm.cloud_key@, cfg.llm.cloud_model@)) is Some
            && spec_route(cfg.audio.mode, h.audio, cloud_configured(cfg.audio.minimax_base@, cfg.audio.minimax_key@, cfg.audio.minimax_model@)) is Some
            && spec_route(cfg.image.mode, h.image, cloud_configured(cfg.image.cloud_base@, cfg.image.cloud_key@, cfg.image.cloud_model@)) is Some),
        spec_plan(cfg, h) matches Ok(p) ==> (
            (p.music == Backend::Local <==> p.music_model@ == "step-audio"@)
            && (p.music == Backend::Cloud <==> p.music_model@ == "MiniMax-music"@)
            && (p.image == Backend::Local <==> p.image_model@ == "sd-cpp"@)
            && (p.image == Backend::Cloud <==> p.image_model@ == "MiniMax-image"@)
            && (p.chat == Backend::Local ==> h.llm)
            && (p.music == Backend::Local ==> h.audio)
            && (p.image == Backend::Local ==> h.image)),
{
    reveal_strlit("step-audio");
    reveal_strlit("MiniMax-music");
    reveal_strlit("sd-cpp");
    reveal_strlit("MiniMax-image");
    let audio = spec_route(cfg.audio.mode, h.audio, cloud_configured(cfg.audio.minimax_base@, cfg.audio.minimax_key@, cfg.audio.minimax_model@));
    let image = spec_route(cfg.image.mode, h.image, cloud_configured(cfg.image.cloud_base@, cfg.image.cloud_key@, cfg.image.cloud_model@));
    if let Ok(p) = spec_plan(cfg, h) {
        assert("step-audio"@[0] != "MiniMax-music"@[0]);
        assert("sd-cpp"@[0] != "MiniMax-image"@[0]);
        if audio == Some(true) {
            assert(p.music == Backend::Local && p.music_model@ == "step-audio"@);
        } else {
            assert(audio == Some(false));
            assert(p.music == Backend::Cloud && p.music_model@ == "MiniMax-music"@);
        }
        if image == Some(true) {
            assert(p.image == Backend::Local && p.image_model@ == "sd-cpp"@);
        } else {
            assert(p.image == Backend::Cloud && p.image_model@ == "MiniMax-image"@);
        }
    }
}

} // verus!
