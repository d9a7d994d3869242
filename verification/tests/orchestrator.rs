use fingertip::json::{JsonNumber, JsonValue};
use fingertip::orchestrator::{
    after_first_attempt, after_retry, orchestrator_prompt, parse_orchestrator_value,
    render_first_active, render_hourly_summary, render_top_keys, AttemptStep, OrchestratorResult,
    PromptSignals,
};

fn conv(v: &serde_json::Value) -> JsonValue {
    match v {
        serde_json::Value::Null => JsonValue::Null,
        serde_json::Value::Bool(b) => JsonValue::Bool(*b),
        serde_json::Value::Number(n) => {
            if let Some(u) = n.as_u64() {
                JsonValue::Number(JsonNumber::PosInt(u))
            } else if let Some(i) = n.as_i64() {
                JsonValue::Number(JsonNumber::NegInt(i))
            } else {
                JsonValue::Number(JsonNumber::Other(n.to_string()))
            }
        }
        serde_json::Value::String(s) => JsonValue::Str(s.clone()),
        serde_json::Value::Array(a) => JsonValue::Array(a.iter().map(conv).collect()),
        serde_json::Value::Object(o) => {
            JsonValue::Object(o.iter().map(|(k, v)| (k.clone(), conv(v))).collect())
        }
    }
}

fn parse_orchestrator_json(text: &str) -> Result<OrchestratorResult, String> {
    let v: serde_json::Value =
        serde_json::from_str(text).map_err(|e| format!("编排器输出非合法 JSON: {}", e))?;
    parse_orchestrator_value(&conv(&v))
}

fn sample_ctx() -> PromptSignals {
    PromptSignals {
        theme_word: "rain".into(),
        mood: Some("calm".into()),
        style: "ambient".into(),
        intensity: format!("{}", 120.0f64),
        steadiness: format!("{}", 0.5f64),
        fluency: format!("{}", 0.05f64),
        activity_hours: 6,
        top_keys: vec![(65, 50), (66, 30)],
        hourly: [0; 24],
        first_active_ms: 1_700_000_000_000,
        backspace_count: 3,
        delete_count: 1,
        enter_count: 12,
        space_count: 40,
        wasd_count: 0,
        total_events: 80,
    }
}

#[test]
fn orchestrator_prompt_contains_daily_signals() {
    let p = orchestrator_prompt(&sample_ctx());
    assert!(p.contains("rain"), "prompt 必须含主题词");
    assert!(p.contains("calm"), "prompt 必须含 mood");
    assert!(p.contains("ambient"), "prompt 必须含 style");
    assert!(p.contains("intensity"), "prompt 必须含四指标名");
    assert!(p.contains("120"), "intensity 数值进 prompt");
}

#[test]
fn parse_orchestrator_json_valid() {
    let j = r#"{"music_description":"calm piano","image_description":"orange abstract","sentence":"A quiet day of focus"}"#;
    let r = parse_orchestrator_json(j).unwrap();
    assert_eq!(r.sentence, "A quiet day of focus");
    assert_eq!(r.music_description, "calm piano");
    assert_eq!(r.funny_summary, "");
}

#[test]
fn parse_orchestrator_json_extracts_funny_summary() {
    let j = r#"{"music_description":"m","image_description":"i","sentence":"s","funny_summary":"凌晨三点还在敲键盘"}"#;
    let r = parse_orchestrator_json(j).unwrap();
    assert_eq!(r.funny_summary, "凌晨三点还在敲键盘");
}

#[test]
fn parse_orchestrator_json_unwraps_single_wrapper_key_with_funny() {
    let j = r#"{"orchestrator_output":{"music_description":"m","image_description":"i","sentence":"s","funny_summary":"你的回车键按得比咖啡师还勤"}}"#;
    let r = parse_orchestrator_json(j).unwrap();
    assert_eq!(r.funny_summary, "你的回车键按得比咖啡师还勤");
}

#[test]
fn parse_orchestrator_json_unwraps_single_wrapper_key() {
    let j = r#"{"orchestrator_output":{"music_description":"m","image_description":"i","sentence":"s"}}"#;
    let r = parse_orchestrator_json(j).unwrap();
    assert_eq!(r.sentence, "s");
    assert_eq!(r.music_description, "m");
}

#[test]
fn parse_orchestrator_json_rejects_missing_fields() {
    assert!(parse_orchestrator_json(r#"{"music_description":"x"}"#).is_err());
    assert!(parse_orchestrator_json(r#"{}"#).is_err());
    assert!(parse_orchestrator_json(r#""#).is_err());
}

#[test]
fn parse_orchestrator_json_rejects_non_object() {
    assert!(parse_orchestrator_json("[1,2,3]").is_err());
    assert!(parse_orchestrator_json("\"string\"").is_err());
    assert!(parse_orchestrator_json("42").is_err());
    assert!(parse_orchestrator_json("null").is_err());
    let err = parse_orchestrator_json("[1,2,3]").unwrap_err();
    assert!(err.contains("对象"), "非 object 错误信息应含「对象」");
}

#[test]
fn parse_orchestrator_json_rejects_whitespace_only_fields() {
    assert!(parse_orchestrator_json(r#"{"music_description":"  ","image_description":"i","sentence":"s"}"#).is_err());
    assert!(parse_orchestrator_json(r#"{"music_description":"x","image_description":"\t","sentence":"s"}"#).is_err());
    assert!(parse_orchestrator_json(r#"{"music_description":"x","image_description":"i","sentence":"\n"}"#).is_err());
}

#[test]
fn parse_orchestrator_value_trims_optional_fields_only() {
    let j = r#"{"music_description":" m ","image_description":"i","sentence":"s","english_sentence":"  Hi  ","theme_explanation":"\tt\n"}"#;
    let r = parse_orchestrator_json(j).unwrap();
    assert_eq!(r.music_description, " m ");
    assert_eq!(r.english_sentence, "Hi");
    assert_eq!(r.theme_explanation, "t");
    let err = parse_orchestrator_json(r#"{"a":1,"b":2}"#).unwrap_err();
    assert_eq!(err, "编排器输出缺 music_description/image_description/sentence 必填三字段");
}

#[test]
fn orchestrator_prompt_includes_first_active_time() {
    let p = orchestrator_prompt(&sample_ctx());
    assert!(p.contains("1700000000000"), "first_active_ms=1700000000000 应进 prompt");
    assert!(p.contains("首次活动时间"));
    let mut ctx = sample_ctx();
    ctx.first_active_ms = 0;
    let p = orchestrator_prompt(&ctx);
    assert!(p.contains("尚未首次活动"));
    assert!(!p.contains("epoch_ms=0"));
}

#[test]
fn prompt_describes_music_image_sentence_separately() {
    let p = orchestrator_prompt(&sample_ctx());
    assert!(p.contains("music_description") || p.contains("音乐描述") || p.contains("音乐"));
    assert!(p.contains("image_description") || p.contains("图像描述") || p.contains("图像"));
    assert!(p.contains("sentence") || p.contains("句子"));
}

fn attempt(reply: &str, calls: &mut usize) -> Result<OrchestratorResult, String> {
    *calls += 1;
    parse_orchestrator_json(reply)
}

fn run(replies: &[&str], calls: &mut usize) -> Result<OrchestratorResult, String> {
    match after_first_attempt(attempt(replies[0], calls)) {
        AttemptStep::Done(r) => r,
        AttemptStep::Retry(e1) => after_retry(&e1, attempt(replies[1], calls)),
    }
}

#[test]
fn run_orchestrator_retries_once_on_invalid_json() {
    let mut calls = 0;
    let r = run(&[r#"{"bad": true}"#, r#"{"music_description":"m","image_description":"i","sentence":"s"}"#], &mut calls)
        .unwrap();
    assert_eq!(r.sentence, "s");
    assert_eq!(calls, 2, "应调用 2 次：1 次失败 + 1 次成功");
}

#[test]
fn run_orchestrator_fails_after_two_invalid_attempts() {
    let mut calls = 0;
    let res = run(&[r#"{"still_bad": true}"#, r#"{"still_bad": true}"#], &mut calls);
    assert!(res.is_err());
    let err = res.unwrap_err();
    assert!(err.contains("编排器") && err.contains("重试"), "错误信息应说明编排器重试后仍失败");
    assert_eq!(calls, 2, "应调用 2 次：1 次失败 + 1 次重试");
}

#[test]
fn first_success_ends_the_run_without_retry() {
    let mut calls = 0;
    let r = run(&[r#"{"music_description":"m","image_description":"i","sentence":"s"}"#, "unused"], &mut calls);
    assert!(r.is_ok());
    assert_eq!(calls, 1);
}

#[test]
fn render_helpers_produce_exact_lines() {
    assert_eq!(render_first_active(0), "尚未首次活动");
    assert_eq!(render_first_active(-5), "epoch_ms=-5");
    assert_eq!(render_top_keys(&[]), "（无）");
    assert_eq!(
        render_top_keys(&[(65, 50), (66, 30), (1, 1), (2, 2), (3, 3), (4, 4)]),
        "key_code(65): 50, key_code(66): 30, key_code(1): 1, key_code(2): 2, key_code(3): 3"
    );
    let mut hourly = [0usize; 24];
    assert_eq!(render_hourly_summary(&hourly), "（无）");
    hourly[9] = 1;
    hourly[10] = 4;
    hourly[23] = 2;
    assert_eq!(render_hourly_summary(&hourly), "活跃小时: 9, 10, 23");
}

#[test]
fn only_the_first_five_top_keys_reach_the_prompt() {
    let many = [(65u32, 9usize), (66, 8), (67, 7), (68, 6), (69, 5), (70, 4), (71, 3)];
    assert_eq!(render_top_keys(&many), render_top_keys(&many[..5]));
    let line = render_top_keys(&many);
    assert!(!line.contains("key_code(70)"));
    assert_eq!(line.matches("key_code(").count(), 5);
}
