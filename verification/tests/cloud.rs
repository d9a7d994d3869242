use base64::Engine as _;
use fingertip::cloud::{
    check_minimax_base_resp, decode_hex, engine_audio_body, engine_chat_body, engine_chat_text,
    engine_image_body, engine_image_bytes, hex_nibble, image_bytes_to_png, minimax_chat_body,
    minimax_chat_text, minimax_image_body, minimax_image_payload, minimax_music_audio,
    minimax_music_body, minimax_png_from_base64, strip_llm_json_noise, strip_noise_checked,
    HexError, ImagePayload,
};
use fingertip::json::{unwrap_single_object, JsonNumber, JsonValue};

fn conv(v: &serde_json::Value) -> JsonValue {
    match v {
        serde_json::Value::Null => JsonValue::Null,
        serde_json::Value::Bool(b) => JsonValue::Bool(*b),
        serde_json::Value::Number(n) => {
            if let Some(u) = n.as_u64() {
                JsonValue::Number(JsonNumber::PosInt(u))
            } else if let Some(i) = n.as_i64() {
                JsonValue::Number(JsonNumber::NegInt(i))
            } else {
                JsonValue::Number(JsonNumber::Other(n.to_string()))
            }
        }
        serde_json::Value::String(s) => JsonValue::Str(s.clone()),
        serde_json::Value::Array(a) => JsonValue::Array(a.iter().map(conv).collect()),
        serde_json::Value::Object(o) => {
            JsonValue::Object(o.iter().map(|(k, v)| (k.clone(), conv(v))).collect())
        }
    }
}

fn back(v: &JsonValue) -> serde_json::Value {
    match v {
        JsonValue::Null => serde_json::Value::Null,
        JsonValue::Bool(b) => serde_json::Value::Bool(*b),
        JsonValue::Number(JsonNumber::PosInt(u)) => serde_json::Value::from(*u),
        JsonValue::Number(JsonNumber::NegInt(i)) => serde_json::Value::from(*i),
        JsonValue::Number(JsonNumber::Other(t)) => serde_json::from_str(t).unwrap(),
        JsonValue::Str(s) => serde_json::Value::String(s.clone()),
        JsonValue::Array(a) => serde_json::Value::Array(a.iter().map(back).collect()),
        JsonValue::Object(o) => {
            serde_json::Value::Object(o.iter().map(|(k, v)| (k.clone(), back(v))).collect())
        }
    }
}

fn json(text: &str) -> JsonValue {
    conv(&serde_json::from_str(text).unwrap())
}

#[test]
fn strip_noise_removes_think_and_code_fence() {
    let raw = "<think>用户想放松</think>```json\n{\"music_description\":\"m\"}\n```";
    assert_eq!(strip_llm_json_noise(raw), "{\"music_description\":\"m\"}");
}

#[test]
fn strip_noise_keeps_pure_json_untouched() {
    let raw = "  {\"music_description\":\"m\"}  ";
    assert_eq!(strip_llm_json_noise(raw), "{\"music_description\":\"m\"}");
}

#[test]
fn strip_noise_removes_multiple_think_blocks() {
    let raw = "<think>a</think><think>b</think>{\"sentence\":\"s\"}";
    assert_eq!(strip_llm_json_noise(raw), "{\"sentence\":\"s\"}");
}

#[test]
fn strip_noise_handles_fence_without_think() {
    let raw = "```json\n{\"image_description\":\"i\"}\n```";
    assert_eq!(strip_llm_json_noise(raw), "{\"image_description\":\"i\"}");
}

#[test]
fn strip_noise_returns_empty_object_when_only_think_block_truncated() {
    let raw_closed = "<think>Let me analyze the signals carefully...</think>";
    assert_eq!(strip_llm_json_noise(raw_closed), "{}", "剥闭合 think 后空应返空对象");
    let raw_truncated = "<think>Let me analyze the signals carefully: Theme REWRITE Emotion excited";
    assert_eq!(strip_llm_json_noise(raw_truncated), "{}", "未闭合 think 应按空响应处理");
}

#[test]
fn strip_noise_plain_fence_and_unclosed_fence() {
    assert_eq!(strip_llm_json_noise("```\n{\"a\":1}\n```"), "{\"a\":1}");
    assert_eq!(strip_llm_json_noise("   "), "{}");
    assert_eq!(strip_noise_checked("```json {\"a\":1}"), None);
    assert_eq!(strip_noise_checked("``` x"), None);
    assert_eq!(strip_noise_checked("</think> then <think> x"), Some("</think> then <think> x".to_string()));
}

#[test]
fn minimax_chat_reply_unwraps_schema_wrapper() {
    let reply = json(r#"{"base_resp":{"status_code":0},"choices":[{"message":{"content":"{\"orchestrator_output\":{\"music_description\":\"m\",\"image_description\":\"i\",\"sentence\":\"s\"}}"}}]}"#);
    let text = minimax_chat_text(&reply).unwrap();
    let v = unwrap_single_object(json(&text));
    assert_eq!(back(&v)["music_description"], "m");
}

#[test]
fn minimax_chat_reply_strips_reasoning_noise() {
    let reply = json(r#"{"base_resp":{"status_code":0},"choices":[{"message":{"content":"<think>分析用户心情</think>```json\n{\"orchestrator_output\":{\"music_description\":\"m\",\"image_description\":\"i\",\"sentence\":\"s\"}}\n```"}}]}"#);
    let v = unwrap_single_object(json(&minimax_chat_text(&reply).unwrap()));
    assert_eq!(back(&v)["music_description"], "m");
    assert_eq!(back(&v)["sentence"], "s");
}

#[test]
fn minimax_chat_reply_reports_business_error_and_missing_content() {
    let err = minimax_chat_text(&json(r#"{"base_resp":{"status_code":1004,"status_msg":"login fail"}}"#)).unwrap_err();
    assert_eq!(err, "MiniMax 业务错误 status_code=1004: login fail");
    let err = minimax_chat_text(&json(r#"{"choices":[]}"#)).unwrap_err();
    assert_eq!(err, "MiniMax chat 响应缺 content");
    let err = minimax_chat_text(&json(r#"{"base_resp":{"status_code":-3}}"#)).unwrap_err();
    assert_eq!(err, "MiniMax 业务错误 status_code=-3: 未知错误");
}

#[test]
fn base_resp_zero_or_missing_is_success() {
    assert!(check_minimax_base_resp(&json(r#"{"base_resp":{"status_code":0}}"#)).is_ok());
    assert!(check_minimax_base_resp(&json(r#"{"data":{}}"#)).is_ok());
    assert!(check_minimax_base_resp(&json(r#"{"base_resp":{"status_code":"x"}}"#)).is_ok());
    assert!(check_minimax_base_resp(&json(r#"[1]"#)).is_ok());
}

#[test]
fn minimax_music_reply_decodes_hex_audio() {
    let b = minimax_music_audio(&json(r#"{"data":{"audio":"524946462020202057415645"}}"#)).unwrap();
    assert_eq!(b.len(), 12);
    assert_eq!(&b[0..4], b"RIFF");
    assert_eq!(&b[8..12], b"WAVE");
}

#[test]
fn minimax_music_reply_errors() {
    let err = minimax_music_audio(&json(r#"{"data":{"audio":"ZZZZ"}}"#)).unwrap_err();
    assert!(err.contains("hex 解码失败"), "{}", err);
    assert_eq!(err, "MiniMax music hex 解码失败: 非法 hex 字符 0x5a");
    let err = minimax_music_audio(&json(r#"{"data":{}}"#)).unwrap_err();
    assert!(err.contains("缺 audio"), "{}", err);
    let err = minimax_music_audio(&json(r#"{"base_resp":{"status_code":1004,"status_msg":"login fail"}}"#)).unwrap_err();
    assert!(err.contains("login fail") || err.contains("1004"));
    let err = minimax_music_audio(&json(r#"{"data":{"audio":"abc"}}"#)).unwrap_err();
    assert_eq!(err, "MiniMax music hex 解码失败: hex 长度为奇数（3 字节）");
}

#[test]
fn decode_hex_reads_both_cases() {
    assert_eq!(decode_hex("00ff7Fa0").unwrap(), vec![0x00, 0xff, 0x7f, 0xa0]);
    assert_eq!(decode_hex("").unwrap(), Vec::<u8>::new());
    assert_eq!(decode_hex("0g"), Err(HexError::InvalidDigit(b'g')));
    assert_eq!(decode_hex("é0"), Err(HexError::OddLength(3)));
    assert_eq!(decode_hex("é00"), Err(HexError::InvalidDigit(0xc3)));
    assert_eq!(decode_hex("123"), Err(HexError::OddLength(3)));
    assert_eq!(hex_nibble(b'F'), Ok(15));
    assert_eq!(hex_nibble(b'G'), Err(HexError::InvalidDigit(b'G')));
    assert_eq!(HexError::InvalidDigit(0x0a).message(), "非法 hex 字符 0x0a");
}

fn jpeg_bytes() -> Vec<u8> {
    let img = image::RgbImage::from_pixel(2, 2, image::Rgb([200, 100, 50]));
    let mut cursor = std::io::Cursor::new(Vec::new());
    img.write_to(&mut cursor, image::ImageFormat::Jpeg).unwrap();
    cursor.into_inner()
}

#[test]
fn minimax_image_base64_payload_becomes_png() {
    let b64 = base64::engine::general_purpose::STANDARD.encode(jpeg_bytes());
    let reply = json(&format!(r#"{{"base_resp":{{"status_code":0}},"data":{{"image_base64":["{}"]}}}}"#, b64));
    let payload = minimax_image_payload(&reply).unwrap();
    let text = match payload {
        ImagePayload::Base64(t) => t,
        ImagePayload::Url(_) => panic!("expected base64"),
    };
    let png = minimax_png_from_base64(&text).unwrap();
    assert_eq!(&png[..8], b"\x89PNG\r\n\x1a\n", "返回应为 PNG 字节");
}

#[test]
fn minimax_image_payload_falls_back_to_url_then_errors() {
    let p = minimax_image_payload(&json(r#"{"data":{"image_urls":["http://x/img.jpg"]}}"#)).unwrap();
    assert_eq!(p, ImagePayload::Url("http://x/img.jpg".into()));
    let err = minimax_image_payload(&json(r#"{"data":{}}"#)).unwrap_err();
    assert_eq!(err, "MiniMax image 响应缺 image_base64/image_urls");
    let err = minimax_image_payload(&json(r#"{"base_resp":{"status_code":1004,"status_msg":"login fail"}}"#)).unwrap_err();
    assert!(err.contains("login fail") || err.contains("1004"));
}

#[test]
fn image_transcoding_rejects_non_images() {
    let png = image_bytes_to_png(&jpeg_bytes()).unwrap();
    assert_eq!(&png[..8], b"\x89PNG\r\n\x1a\n");
    let err = image_bytes_to_png(b"not an image").unwrap_err();
    assert!(err.starts_with("MiniMax image 图片解码失败（非 JPEG/PNG？）: "), "{}", err);
    let err = minimax_png_from_base64("!!!").unwrap_err();
    assert!(err.starts_with("MiniMax image base64 解码失败: "), "{}", err);
}

#[test]
fn engine_replies_give_content_and_image_bytes() {
    let reply = json(r#"{"choices":[{"message":{"content":"{\"sentence\":\"s\"}"}}]}"#);
    assert_eq!(engine_chat_text(&reply).unwrap(), "{\"sentence\":\"s\"}");
    assert_eq!(engine_chat_text(&json("{}")).unwrap_err(), "chat 响应缺 content");
    let b64 = base64::engine::general_purpose::STANDARD.encode(b"PNGDATA");
    let reply = json(&format!(r#"{{"data":[{{"b64_json":"{}"}}]}}"#, b64));
    assert_eq!(engine_image_bytes(&reply).unwrap(), b"PNGDATA".to_vec());
    assert_eq!(engine_image_bytes(&json(r#"{"data":[]}"#)).unwrap_err(), "image 响应缺 b64_json");
    let err = engine_image_bytes(&json(r#"{"data":[{"b64_json":"%%"}]}"#)).unwrap_err();
    assert!(err.starts_with("image b64 解码失败: "), "{}", err);
}

#[test]
fn request_bodies_carry_the_contract_fields() {
    let chat = back(&minimax_chat_body("MiniMax-M3", "sys", "user"));
    assert_eq!(chat["model"], "MiniMax-M3");
    assert_eq!(chat["messages"][0]["role"], "system");
    assert_eq!(chat["messages"][1]["content"], "user");
    assert_eq!(chat["response_format"]["type"], "json_schema");
    assert_eq!(chat["response_format"]["json_schema"]["name"], "orchestrator_output");
    assert_eq!(chat["response_format"]["json_schema"]["schema"]["required"][2], "sentence");
    assert_eq!(chat["response_format"]["json_schema"]["schema"]["properties"]["funny_summary"]["type"], "string");
    assert_eq!(chat["max_tokens"], 4096);
    let music = back(&minimax_music_body("music-3.0", "calm piano"));
    assert_eq!(music["is_instrumental"], true);
    assert_eq!(music["audio_setting"]["format"], "wav");
    assert_eq!(music["audio_setting"]["sample_rate"], 44100);
    let img = back(&minimax_image_body("image-01", "x"));
    assert_eq!(img["response_format"], "base64");
    assert_eq!(img["n"], 1);
    let ec = back(&engine_chat_body("s", "u"));
    assert_eq!(ec["model"], "fingertip-llm");
    assert_eq!(ec["response_format"]["type"], "json_object");
    let ei = back(&engine_image_body("p"));
    assert_eq!(ei["size"], "1024x1024");
    assert_eq!(back(&engine_audio_body("t"))["text"], "t");
}

#[test]
fn strip_noise_result_is_a_piece_of_the_reply_or_empty_object() {
    let replies = [
        "  <think>x</think>\n```json\n {\"a\":1} \n```  ",
        "<think>a</think><think>b</think>{\"s\":\"t\"}",
        "<think>never closed",
        "```\n\n```",
        "{\"k\":\"v\"}",
    ];
    for r in replies {
        let out = strip_llm_json_noise(r);
        assert!(out == "{}" || r.contains(out.as_str()), "{out:?} from {r:?}");
        assert_eq!(out.trim(), out);
    }
    assert_eq!(strip_llm_json_noise("<think>never closed"), "{}");
    assert_eq!(strip_llm_json_noise("```\n\n```"), "{}");
}
