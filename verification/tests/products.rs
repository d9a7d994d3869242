use base64::Engine as _;
use fingertip::json::JsonValue;
use fingertip::orchestrator::OrchestratorResult;
use fingertip::share::{
    activity_description, activity_level, activity_tone, configured_or_default, escape_html,
    share_url, uploaded_link, ActivityTone, QrArtifact, DEFAULT_LANDING_PAGE_URL,
};
use fingertip::storage::{
    column_present, column_probe_sql, column_upgrades, insert_many_sql, truncate_mood, ArtifactRow,
    SCHEMA_SQL,
};
use fingertip::text::{str_is_blank, trim_str, u64_to_decimal, i64_to_decimal};
use fingertip::workflow::{
    event_window, first_present, first_present_text, nonempty_text, outcome_texts, prompts_for,
    regenerated_texts, resolve_mood, share_english_sentence, share_links, top1_key_label,
    trimmed_nonblank, EventWindow,
};

fn orch(funny: &str, en: &str, te: &str) -> OrchestratorResult {
    OrchestratorResult {
        music_description: "m".into(),
        image_description: "i".into(),
        sentence: "s".into(),
        english_sentence: en.into(),
        theme_explanation: te.into(),
        funny_summary: funny.into(),
    }
}

#[test]
fn upsert_mood_truncates_to_64_characters() {
    let long = "x".repeat(100);
    assert_eq!(truncate_mood(&long).len(), 64);
    assert_eq!(truncate_mood("开心"), "开心");
    let wide = "情".repeat(70);
    assert_eq!(truncate_mood(&wide).chars().count(), 64);
}

#[test]
fn insert_many_builds_one_group_per_event() {
    assert_eq!(
        insert_many_sql(0),
        "INSERT INTO key_events (key_code, timestamp_ms, session_id, modifiers) VALUES "
    );
    assert_eq!(
        insert_many_sql(2),
        "INSERT INTO key_events (key_code, timestamp_ms, session_id, modifiers) VALUES (?, ?, ?, ?), (?, ?, ?, ?)"
    );
}

#[test]
fn upgrades_probe_each_column_in_order() {
    let ups = column_upgrades();
    assert_eq!(ups.len(), 7);
    assert_eq!(ups[0].column, "intensity");
    assert!(ups[0].upgrade_sql.contains("key_class_json"));
    assert_eq!(ups[6].table, "artifacts");
    assert_eq!(ups[6].upgrade_sql, "ALTER TABLE artifacts ADD COLUMN funny_summary TEXT;");
    assert_eq!(
        column_probe_sql("artifacts", "sentence"),
        "SELECT COUNT(*) FROM pragma_table_info('artifacts') WHERE name='sentence'"
    );
    assert!(column_present(Some(1)));
    assert!(!column_present(Some(0)));
    assert!(!column_present(None));
    assert!(SCHEMA_SQL.contains("CREATE TABLE IF NOT EXISTS artifacts"));
}

#[test]
fn artifact_row_holds_optional_texts() {
    let row = ArtifactRow {
        date: "2026-07-25".into(),
        music_json: "{}".into(),
        art_json: "{}".into(),
        music_wav_path: None,
        art_png_path: Some("/tmp/a.png".into()),
        sentence: Some("s".into()),
        english_sentence: None,
        theme_explanation: None,
        time_range_label: None,
        funny_summary: None,
        created_at: 1,
    };
    assert_eq!(row.clone(), row);
}

#[test]
fn escape_html_replaces_markup_characters() {
    assert_eq!(escape_html(r#"<a href="x">Tom & 'J'</a>"#), "&lt;a href=&quot;x&quot;&gt;Tom &amp; &#39;J&#39;&lt;/a&gt;");
    assert_eq!(escape_html("plain 文本"), "plain 文本");
}

#[test]
fn share_card_texts() {
    assert_eq!(share_english_sentence(&Some("Hi".into()), &Some("Old".into())), "Hi");
    assert_eq!(share_english_sentence(&Some("  ".into()), &Some("Old".into())), "Old");
    assert_eq!(share_english_sentence(&None, &None), "");
    assert_eq!(top1_key_label(&[(32, 9), (65, 3)]), "Space");
    assert_eq!(top1_key_label(&[]), "—");
    assert_eq!(share_links(Some("w".into()), Some("p".into())), Some(("w".into(), "p".into())));
    assert_eq!(share_links(Some("w".into()), None), None);
    assert_eq!(configured_or_default(None, DEFAULT_LANDING_PAGE_URL), DEFAULT_LANDING_PAGE_URL);
    assert_eq!(configured_or_default(Some("x".into()), DEFAULT_LANDING_PAGE_URL), "x");
    let q = QrArtifact { local_path: "/p".into(), audio_ok: true, share_url: "u".into() };
    assert!(q.audio_ok);
}

#[test]
fn generation_texts_are_trimmed_or_dropped() {
    let t = outcome_texts(&orch("  funny  ", "", " te "));
    assert_eq!(t.sentence, "s");
    assert_eq!(t.funny_summary.as_deref(), Some("funny"));
    assert_eq!(t.english_sentence, None);
    assert_eq!(t.theme_explanation.as_deref(), Some("te"));
    let r = regenerated_texts(&orch("   ", "en", ""), &Some("old funny".into()));
    assert_eq!(r.funny_summary.as_deref(), Some("old funny"));
    assert_eq!(r.english_sentence.as_deref(), Some("en"));
    assert_eq!(r.theme_explanation, None);
    let r = regenerated_texts(&orch(" new ", " ", ""), &Some("old".into()));
    assert_eq!(r.funny_summary.as_deref(), Some("new"));
    assert_eq!(r.english_sentence.as_deref(), Some(" "));
}

#[test]
fn generation_inputs() {
    assert_eq!(event_window(Some(1), Some(2)), EventWindow::Custom { start_ms: 1, end_ms: 2 });
    assert_eq!(event_window(Some(1), None), EventWindow::WholeDay);
    assert_eq!(nonempty_text(""), None);
    assert_eq!(nonempty_text("calm").as_deref(), Some("calm"));
    assert_eq!(trimmed_nonblank(" \t"), None);
    assert_eq!(resolve_mood("happy", &Some("calm".into()), "tired").as_deref(), Some("happy"));
    assert_eq!(resolve_mood("", &Some("calm".into()), "tired").as_deref(), Some("calm"));
    assert_eq!(resolve_mood("", &None, "tired").as_deref(), Some("tired"));
    assert_eq!(first_present_text(&None, &Some("b".into())).as_deref(), Some("b"));
    assert_eq!(first_present(&[false, true, true]), Some(1));
    assert_eq!(first_present(&[false]), None);
    let (m, a) = prompts_for(&orch("", "", ""), &Some("calm".into()), "ambient", "rain");
    assert_eq!(m.description.as_deref(), Some("m"));
    assert_eq!(a.description.as_deref(), Some("i"));
    assert_eq!(m.theme_word, "rain");
    assert_eq!(a.style, "ambient");
    assert!(m.events.is_empty());
}

#[test]
fn text_helpers() {
    assert_eq!(trim_str("\u{3000} a b \n"), "a b");
    assert!(str_is_blank(" \u{2003}\t"));
    assert!(!str_is_blank(" x "));
    assert_eq!(u64_to_decimal(0), "0");
    assert_eq!(u64_to_decimal(18446744073709551615), "18446744073709551615");
    assert_eq!(i64_to_decimal(i64::MIN), "-9223372036854775808");
}

#[test]
fn activity_level_scales_hours_to_five_steps() {
    assert_eq!(activity_level(-3), 0);
    assert_eq!(activity_level(0), 0);
    assert_eq!(activity_level(1), 0);
    assert_eq!(activity_level(2), 1);
    assert_eq!(activity_level(8), 3);
    assert_eq!(activity_level(13), 4);
    assert_eq!(activity_level(16), 5);
    assert_eq!(activity_level(24), 5);
    assert_eq!(activity_description(0), "几乎没动");
    assert_eq!(activity_description(3), "中度活跃");
    assert_eq!(activity_description(5), "超活跃");
    assert_eq!(activity_tone(1), ActivityTone::Muted);
    assert_eq!(activity_tone(2), ActivityTone::Warm);
    assert_eq!(activity_tone(4), ActivityTone::Green);
}

#[test]
fn upload_reply_link_is_read_in_order() {
    let s = |t: &str| JsonValue::Str(t.to_string());
    let obj = |es: Vec<(&str, JsonValue)>| {
        JsonValue::Object(es.into_iter().map(|(k, v)| (k.to_string(), v)).collect())
    };
    let direct = obj(vec![("downloadLink", s("https://a/1")), ("url", s("https://c/3"))]);
    assert_eq!(uploaded_link(&direct), Some("https://a/1".to_string()));
    let nested = obj(vec![("data", obj(vec![("link", s("https://b/2"))])), ("url", s("https://c/3"))]);
    assert_eq!(uploaded_link(&nested), Some("https://b/2".to_string()));
    let plain = obj(vec![("downloadLink", JsonValue::Null), ("url", s("https://c/3"))]);
    assert_eq!(uploaded_link(&plain), Some("https://c/3".to_string()));
    assert_eq!(uploaded_link(&obj(vec![("status", s("ok"))])), None);
}

#[test]
fn share_url_embeds_decodable_payload() {
    let mut payload = serde_json::Map::new();
    payload.insert("v".into(), serde_json::Value::from(1));
    payload.insert("w".into(), serde_json::Value::from("https://x/music.wav"));
    payload.insert("p".into(), serde_json::Value::from("https://x/art.png"));
    payload.insert(
        "s".into(),
        serde_json::Value::from("今天键盘很有节奏，每一次敲击都像在给这一天写下一句悄悄话，安静又完整。"),
    );
    let json = serde_json::to_string(&serde_json::Value::Object(payload)).unwrap();
    let url = share_url(DEFAULT_LANDING_PAGE_URL, &json);
    assert!(url.starts_with(DEFAULT_LANDING_PAGE_URL));
    let fragment = url.split_once("#d=").unwrap().1;
    assert!(fragment.chars().all(|c| c.is_ascii_alphanumeric() || c == '-' || c == '_'));
    let bytes = base64::engine::general_purpose::URL_SAFE_NO_PAD.decode(fragment).unwrap();
    let v: serde_json::Value = serde_json::from_slice(&bytes).unwrap();
    assert_eq!(v["w"], "https://x/music.wav");
    assert_eq!(v["p"], "https://x/art.png");
    assert_eq!(v["s"], "今天键盘很有节奏，每一次敲击都像在给这一天写下一句悄悄话，安静又完整。");
}

#[test]
fn share_url_uses_unpadded_url_safe_base64() {
    assert_eq!(share_url("x", "Man"), "x#d=TWFu");
    assert_eq!(share_url("x", "Ma"), "x#d=TWE");
    assert_eq!(share_url("x", "M"), "x#d=TQ");
    assert_eq!(share_url("x", ""), "x#d=");
    assert_eq!(share_url("x", "\u{fbff}"), "x#d=76-_");
}
