//! Request bodies and reply handling of the MiniMax cloud services (chat,
//! music, image): reasoning-noise removal, business error codes, hex audio
//! and base64 image payloads.

use vstd::prelude::*;
use base64::Engine;
use vstd::string::StringExecFns;
use vstd::string::StringSliceAdditionalSpecFns;
use crate::json::{json_at, json_get, json_i64, json_str, opt_at, opt_get, opt_str, JsonNumber, JsonValue};
use crate::text::{
    chars_of, contains_seq, find_first, find_first_exec, find_last, find_last_exec,
    lemma_find_from_sound, lemma_rfind_from_sound, lemma_trim_start_len, signed_decimal,
    lemma_trim_edges, lemma_trim_start_edges, is_ws, lemma_trim_start_suffix, lemma_trim_subrange,
    starts_with_exec, starts_with_seq, string_from_chars, sub_chars, trim, trim_chars,
    trim_start, trim_start_chars, i64_to_decimal,
};

verus! {

/// Path of the chat endpoint.
pub const MINIMAX_CHAT_PATH: &'static str = "/v1/chat/completions";
/// Schema name that wraps the orchestrator output in JSON-schema mode.
pub const MINIMAX_ORCHESTRATOR_SCHEMA_NAME: &'static str = "orchestrator_output";
/// Path of the music endpoint.
pub const MINIMAX_MUSIC_PATH: &'static str = "/v1/music_generation";
/// Path of the image endpoint.
pub const MINIMAX_IMAGE_PATH: &'static str = "/v1/image_generation";

/// Removes every `<think>…</think>` span from the first opening tag to the
/// last closing tag, with the whitespace after it, as long as a closing tag
/// follows an opening one.
pub open spec fn strip_think(s: Seq<char>) -> Seq<char>
    decreases s.len(),
{
    match (find_first(s, "<think>"@), find_last(s, "</think>"@)) {
        (Some(a), Some(b)) => if b > a {
            proof {
                lemma_rfind_from_sound(s, "</think>"@, s.len() - "</think>"@.len());
                lemma_trim_start_len(s.subrange((b + "</think>"@.len()) as int, s.len() as int));
            }
            strip_think(trim_start(s.subrange((b + "</think>"@.len()) as int, s.len() as int)))
        } else {
            s
        },
        _ => s,
    }
}

/// An opening `<think>` without any closing tag: the reply was cut off
/// while the model was still reasoning.
pub open spec fn unclosed_think(s: Seq<char>) -> bool {
    contains_seq(s, "<think>"@) && !contains_seq(s, "</think>"@)
}

/// The length of the opening code fence of `s` (`` ```json `` or `` ``` ``), or 0.
pub open spec fn fence_len(s: Seq<char>) -> int {
    if starts_with_seq(s, "```json"@) {
        "```json"@.len() as int
    } else if starts_with_seq(s, "```"@) {
        "```"@.len() as int
    } else {
        0
    }
}

/// The last fence of a fenced text lies after its opening fence.
pub open spec fn fence_closes(s: Seq<char>) -> bool {
    fence_len(s) > 0 ==> (find_last(s, "```"@) matches Some(c) && c >= fence_len(s))
}

/// A fenced text reduced to what lies between the opening fence and the
/// last fence, trimmed; an unfenced text as it is.
pub open spec fn unfence(s: Seq<char>) -> Seq<char> {
    if fence_len(s) > 0 {
        trim(s.subrange(fence_len(s), find_last(s, "```"@)->0 as int))
    } else {
        s
    }
}

/// The texts that the noise removal handles: where a fence opens, a later
/// fence closes it.
pub open spec fn strip_noise_defined(content: Seq<char>) -> bool {
    let s1 = strip_think(trim(content));
    unclosed_think(s1) || fence_closes(s1)
}

/// A chat reply without reasoning blocks and code fences; `{}` when
/// nothing is left or the reasoning was cut off.
pub open spec fn spec_strip_noise(content: Seq<char>) -> Seq<char> {
    let s1 = strip_think(trim(content));
    if unclosed_think(s1) {
        "{}"@
    } else {
        let s2 = unfence(s1);
        if s2.len() == 0 {
            "{}"@
        } else {
            s2
        }
    }
}

fn strip_think_chars(s: Vec<char>) -> (r: Vec<char>)
    ensures
        r@ == strip_think(s@),
    decreases s@.len(),
{
    let open_tag = chars_of("<think>");
    let close_tag = chars_of("</think>");
    match find_first_exec(&s, &open_tag) {
        Some(a) => match find_last_exec(&s, &close_tag) {
            Some(b) => {
                if b > a {
                    proof {
                        lemma_last_fits(s@, "</think>"@);
                        assert(close_tag@ == "</think>"@);
                        assert(b + close_tag@.len() <= s@.len());
                        lemma_trim_start_len(s@.subrange((b + "</think>"@.len()) as int, s@.len() as int));
                    }
                    let n = s.len();
                    let m = close_tag.len();
                    assert(b + m <= n);
                    let rest = sub_chars(&s, b + m, n);
                    strip_think_chars(trim_start_chars(&rest))
                } else {
                    s
                }
            },
            None => s,
        },
        None => s,
    }
}

/// Strips reasoning noise (see [`spec_strip_noise`]); `None` for a text
/// whose opening fence has no later closing fence.
pub fn strip_noise_checked(content: &str) -> (r: Option<String>)
    ensures
        r is Some <==> strip_noise_defined(content@),
        r matches Some(t) ==> t@ == spec_strip_noise(content@),
{
    let t = trim_chars(&chars_of(content));
    let s1 = strip_think_chars(t);
    let has_open = find_first_exec(&s1, &chars_of("<think>")).is_some();
    let has_close = find_first_exec(&s1, &chars_of("</think>")).is_some();
    if has_open && !has_close {
        return Some(String::from_str("{}"));
    }
    let json_fence = chars_of("```json");
    let plain_fence = chars_of("```");
    let fence: usize = if starts_with_exec(&s1, &json_fence) {
        json_fence.len()
    } else if starts_with_exec(&s1, &plain_fence) {
        plain_fence.len()
    } else {
        0
    };
    proof {
        lemma_literal_nonempty();
    }
    let s2 = if fence > 0 {
        match find_last_exec(&s1, &plain_fence) {
            Some(c) => {
                if c < fence {
                    return None;
                }
                proof {
                    lemma_rfind_from_sound(s1@, "```"@, s1@.len() - "```"@.len());
                }
                trim_chars(&sub_chars(&s1, fence, c))
            },
            None => {
                return None;
            },
        }
    } else {
        s1
    };
    if s2.len() == 0 {
        return Some(String::from_str("{}"));
    }
    Some(string_from_chars(&s2))
}

proof fn lemma_last_fits(s: Seq<char>, pat: Seq<char>)
    ensures
        find_last(s, pat) matches Some(b) ==> b + pat.len() <= s.len(),
{
    lemma_rfind_from_sound(s, pat, s.len() - pat.len());
}

proof fn lemma_literal_nonempty()
    ensures
        "```json"@.len() > 0,
        "```"@.len() > 0,
{
    reveal_strlit("```json");
    reveal_strlit("```");
}

/// Removes reasoning blocks and code fences from a chat reply (see
/// [`spec_strip_noise`]).
pub fn strip_llm_json_noise(content: &str) -> (r: String)
    requires
        strip_noise_defined(content@),
    ensures
        r@ == spec_strip_noise(content@),
{
    match strip_noise_checked(content) {
        Some(t) => t,
        None => String::new(),
    }
}

/// Why a hex text could not be decoded.
#[derive(Debug, Clone, Copy, PartialEq, Eq, Structural)]
pub enum HexError {
    /// The text has an odd number of bytes.
    OddLength(usize),
    /// A byte that is not a hex digit.
    InvalidDigit(u8),
}

/// The value of a hex digit byte.
pub open spec fn nibble_value(b: u8) -> Option<u8> {
    if 0x30 <= b <= 0x39 {
        Some((b - 0x30) as u8)
    } else if 0x61 <= b <= 0x66 {
        Some((b - 0x61 + 10) as u8)
    } else if 0x41 <= b <= 0x46 {
        Some((b - 0x41 + 10) as u8)
    } else {
        None
    }
}

/// The value of one hex digit byte (`0-9`, `a-f`, `A-F`).
pub fn hex_nibble(b: u8) -> (r: Result<u8, HexError>)
    ensures
        match nibble_value(b) {
            Some(v) => r == Ok::<u8, HexError>(v),
            None => r == Err::<u8, HexError>(HexError::InvalidDigit(b)),
        },
{
    if 0x30 <= b && b <= 0x39 {
        Ok(b - 0x30)
    } else if 0x61 <= b && b <= 0x66 {
        Ok(b - 0x61 + 10)
    } else if 0x41 <= b && b <= 0x46 {
        Ok(b - 0x41 + 10)
    } else {
        Err(HexError::InvalidDigit(b))
    }
}

/// The index of the first byte of `b` before `n` that is not a hex digit.
pub open spec fn first_bad_digit(b: Seq<u8>, n: int) -> Option<int>
    decreases n,
{
    if n <= 0 {
        None
    } else {
        match first_bad_digit(b, n - 1) {
            Some(i) => Some(i),
            None => if nibble_value(b[n - 1]) is None { Some(n - 1) } else { None },
        }
    }
}

/// The bytes that the hex text `b` (of even length, all digits) encodes.
pub open spec fn hex_bytes(b: Seq<u8>) -> Seq<u8> {
    Seq::new(b.len() / 2, |k: int| (nibble_value(b[2 * k])->0 * 16 + nibble_value(b[2 * k + 1])->0) as u8)
}

/// Decoding of a hex text by its bytes: odd length, then the first byte
/// that is not a hex digit, are the errors.
pub open spec fn spec_decode_hex(b: Seq<u8>) -> Result<Seq<u8>, HexError> {
    if b.len() % 2 != 0 {
        Err(HexError::OddLength(b.len() as usize))
    } else {
        match first_bad_digit(b, b.len() as int) {
            Some(i) => Err(HexError::InvalidDigit(b[i])),
            None => Ok(hex_bytes(b)),
        }
    }
}

/// Decodes a hex text into bytes (see [`spec_decode_hex`]).
pub fn decode_hex(s: &str) -> (r: Result<Vec<u8>, HexError>)
    ensures
        match (r, spec_decode_hex(s.spec_bytes())) {
            (Ok(v), Ok(w)) => v@ == w,
            (Err(e), Err(f)) => e == f,
            _ => false,
        },
{
    let bytes = s.as_bytes();
    let n = bytes.len();
    if n % 2 != 0 {
        return Err(HexError::OddLength(n));
    }
    let mut out: Vec<u8> = Vec::new();
    let mut i: usize = 0;
    while i < n
        invariant
            bytes@ == s.spec_bytes(),
            n == bytes@.len(),
            n % 2 == 0,
            i % 2 == 0,
            i <= n,
            first_bad_digit(bytes@, i as int) is None,
            out@.len() == i / 2,
            forall|k: int| 0 <= k < i / 2 ==> out@[k] == hex_bytes(bytes@)[k],
        decreases n - i,
    {
        let hi = match hex_nibble(bytes[i]) {
            Ok(v) => v,
            Err(e) => {
                proof {
                    lemma_first_bad_extends(bytes@, i as int, n as int);
                }
                return Err(e);
            },
        };
        assert(first_bad_digit(bytes@, i + 1) is None);
        let lo = match hex_nibble(bytes[i + 1]) {
            Ok(v) => v,
            Err(e) => {
                proof {
                    lemma_first_bad_extends(bytes@, i + 1, n as int);
                }
                return Err(e);
            },
        };
        assert(first_bad_digit(bytes@, i + 2) is None);
        assert(hi < 16 && lo < 16);
        out.push(hi * 16 + lo);
        proof {
            assert((i + 2) / 2 == i / 2 + 1);
            assert(2 * (i / 2) == i);
        }
        i = i + 2;
    }
    assert(out@ =~= hex_bytes(bytes@));
    Ok(out)
}

proof fn lemma_first_bad_extends(b: Seq<u8>, i: int, n: int)
    requires
        0 <= i < n,
        first_bad_digit(b, i) is None,
        nibble_value(b[i]) is None,
    ensures
        first_bad_digit(b, n) == Some(i),
    decreases n - i,
{
    if n > i + 1 {
        lemma_first_bad_extends(b, i, n - 1);
    }
}

/// Two lowercase hex digits of a byte.
pub open spec fn hex2(b: u8) -> Seq<char> {
    seq![lower_hex_digit((b / 16) as nat), lower_hex_digit((b % 16) as nat)]
}

/// The lowercase hex digit of `d < 16`.
pub open spec fn lower_hex_digit(d: nat) -> char {
    if d < 10 { (('0' as u32) + d) as char } else { (('a' as u32) + d - 10) as char }
}

fn lower_hex_char(d: u8) -> (c: char)
    requires
        d < 16,
    ensures
        c == lower_hex_digit(d as nat),
{
    let c = match d {
        0 => '0',
        1 => '1',
        2 => '2',
        3 => '3',
        4 => '4',
        5 => '5',
        6 => '6',
        7 => '7',
        8 => '8',
        9 => '9',
        10 => 'a',
        11 => 'b',
        12 => 'c',
        13 => 'd',
        14 => 'e',
        _ => 'f',
    };
    c
}

/// The message of a hex error.
pub open spec fn hex_error_message(e: HexError) -> Seq<char> {
    match e {
        HexError::OddLength(n) => "hex 长度为奇数（"@ + crate::text::decimal(n as nat) + " 字节）"@,
        HexError::InvalidDigit(b) => "非法 hex 字符 0x"@ + hex2(b),
    }
}

impl HexError {
    /// The human-readable message of the error.
    pub fn message(&self) -> (m: String)
        ensures
            m@ == hex_error_message(*self),
    {
        match self {
            HexError::OddLength(n) => {
                let mut m = String::from_str("hex 长度为奇数（");
                m.append(crate::orchestrator::usize_to_decimal(*n).as_str());
                m.append(" 字节）");
                m
            },
            HexError::InvalidDigit(b) => {
                let mut m = String::from_str("非法 hex 字符 0x");
                crate::text::push_char(&mut m, lower_hex_char(*b / 16));
                crate::text::push_char(&mut m, lower_hex_char(*b % 16));
                m
            },
        }
    }
}

/// The members of an object value; empty for any other value.
pub open spec fn members(v: JsonValue) -> Seq<(String, JsonValue)> {
    match v {
        JsonValue::Object(es) => es@,
        _ => Seq::empty(),
    }
}

/// The elements of an array value; empty for any other value.
pub open spec fn elements(v: JsonValue) -> Seq<JsonValue> {
    match v {
        JsonValue::Array(xs) => xs@,
        _ => Seq::empty(),
    }
}

/// `v` is the string `t`.
pub open spec fn text_is(v: JsonValue, t: Seq<char>) -> bool {
    v matches JsonValue::Str(s) && s@ == t
}

/// `v` is the non-negative integer `n`.
pub open spec fn uint_is(v: JsonValue, n: int) -> bool {
    v matches JsonValue::Number(JsonNumber::PosInt(k)) && k == n
}

/// Member `i` of `es` is named `k`.
pub open spec fn named(es: Seq<(String, JsonValue)>, i: int, k: Seq<char>) -> bool {
    0 <= i < es.len() && es[i].0@ == k
}

/// `v` is an object with exactly the one member `k: t` (a string).
pub open spec fn single_text_object(v: JsonValue, k: Seq<char>, t: Seq<char>) -> bool {
    v is Object && members(v).len() == 1 && named(members(v), 0, k) && text_is(members(v)[0].1, t)
}

/// `v` is a chat message `{"role": role, "content": content}`.
pub open spec fn is_message(v: JsonValue, role: Seq<char>, content: Seq<char>) -> bool {
    let es = members(v);
    &&& v is Object
    &&& es.len() == 2
    &&& named(es, 0, "role"@) && text_is(es[0].1, role)
    &&& named(es, 1, "content"@) && text_is(es[1].1, content)
}

/// `v` is `[{"role":"system",…}, {"role":"user",…}]`.
pub open spec fn is_chat_messages(v: JsonValue, system: Seq<char>, user: Seq<char>) -> bool {
    v is Array && elements(v).len() == 2 && is_message(elements(v)[0], "system"@, system)
        && is_message(elements(v)[1], "user"@, user)
}

/// The names of the six orchestrator texts, in order.
pub open spec fn six_field_names() -> Seq<Seq<char>> {
    seq!["music_description"@, "image_description"@, "sentence"@, "english_sentence"@,
        "theme_explanation"@, "funny_summary"@]
}

/// `v` is the JSON schema of the orchestrator output: an object whose six
/// string properties are listed in order and whose first three are required.
pub open spec fn is_orchestrator_schema(v: JsonValue) -> bool {
    let es = members(v);
    let props = members(es[1].1);
    let req = elements(es[2].1);
    &&& v is Object && es.len() == 3
    &&& named(es, 0, "type"@) && text_is(es[0].1, "object"@)
    &&& named(es, 1, "properties"@) && es[1].1 is Object && props.len() == 6
    &&& forall|i: int| 0 <= i < 6 ==> named(props, i, six_field_names()[i])
        && single_text_object(#[trigger] props[i].1, "type"@, "string"@)
    &&& named(es, 2, "required"@) && es[2].1 is Array && req.len() == 3
    &&& forall|i: int| 0 <= i < 3 ==> text_is(#[trigger] req[i], six_field_names()[i])
}

/// `v` is the JSON-schema response format named `orchestrator_output`.
pub open spec fn is_orchestrator_response_format(v: JsonValue) -> bool {
    let es = members(v);
    let js = members(es[1].1);
    &&& v is Object && es.len() == 2
    &&& named(es, 0, "type"@) && text_is(es[0].1, "json_schema"@)
    &&& named(es, 1, "json_schema"@) && es[1].1 is Object && js.len() == 2
    &&& named(js, 0, "name"@) && text_is(js[0].1, MINIMAX_ORCHESTRATOR_SCHEMA_NAME@)
    &&& named(js, 1, "schema"@) && is_orchestrator_schema(js[1].1)
}

fn text_value(s: &str) -> (v: JsonValue)
    ensures
        text_is(v, s@),
{
    JsonValue::Str(String::from_str(s))
}

fn member(key: &str, v: JsonValue) -> (m: (String, JsonValue))
    ensures
        m.0@ == key@,
        m.1 == v,
{
    (String::from_str(key), v)
}

fn message(role: &str, content: &str) -> (v: JsonValue)
    ensures
        is_message(v, role@, content@),
{
    let mut es: Vec<(String, JsonValue)> = Vec::new();
    es.push(member("role", text_value(role)));
    es.push(member("content", text_value(content)));
    JsonValue::Object(es)
}

fn chat_messages(system: &str, user: &str) -> (v: JsonValue)
    ensures
        is_chat_messages(v, system@, user@),
{
    let mut xs: Vec<JsonValue> = Vec::new();
    xs.push(message("system", system));
    xs.push(message("user", user));
    JsonValue::Array(xs)
}

fn string_type() -> (v: JsonValue)
    ensures
        single_text_object(v, "type"@, "string"@),
{
    let mut ty: Vec<(String, JsonValue)> = Vec::new();
    ty.push(member("type", text_value("string")));
    JsonValue::Object(ty)
}

fn orchestrator_schema() -> (v: JsonValue)
    ensures
        is_orchestrator_schema(v),
{
    let mut props: Vec<(String, JsonValue)> = Vec::new();
    props.push(member("music_description", string_type()));
    props.push(member("image_description", string_type()));
    props.push(member("sentence", string_type()));
    props.push(member("english_sentence", string_type()));
    props.push(member("theme_explanation", string_type()));
    props.push(member("funny_summary", string_type()));
    assert(forall|k: int| 0 <= k < 6 ==> named(props@, k, six_field_names()[k])
        && single_text_object(#[trigger] props@[k].1, "type"@, "string"@));
    let mut req: Vec<JsonValue> = Vec::new();
    req.push(text_value("music_description"));
    req.push(text_value("image_description"));
    req.push(text_value("sentence"));
    let mut es: Vec<(String, JsonValue)> = Vec::new();
    es.push(member("type", text_value("object")));
    es.push(member("properties", JsonValue::Object(props)));
    es.push(member("required", JsonValue::Array(req)));
    let v = JsonValue::Object(es);
    assert(forall|k: int| 0 <= k < 3 ==> text_is(#[trigger] elements(members(v)[2].1)[k], six_field_names()[k]));
    v
}

/// The request body of the MiniMax chat call: the model, the system and
/// user messages, the JSON-schema response format and a token limit of 4096.
pub fn minimax_chat_body(model: &str, system: &str, user: &str) -> (v: JsonValue)
    ensures
        v is Object,
        members(v).len() == 4,
        named(members(v), 0, "model"@) && text_is(members(v)[0].1, model@),
        named(members(v), 1, "messages"@) && is_chat_messages(members(v)[1].1, system@, user@),
        named(members(v), 2, "response_format"@) && is_orchestrator_response_format(members(v)[2].1),
        named(members(v), 3, "max_tokens"@) && uint_is(members(v)[3].1, 4096),
{
    let mut js: Vec<(String, JsonValue)> = Vec::new();
    js.push(member("name", text_value(MINIMAX_ORCHESTRATOR_SCHEMA_NAME)));
    js.push(member("schema", orchestrator_schema()));
    let mut rf: Vec<(String, JsonValue)> = Vec::new();
    rf.push(member("type", text_value("json_schema")));
    rf.push(member("json_schema", JsonValue::Object(js)));
    let mut es: Vec<(String, JsonValue)> = Vec::new();
    es.push(member("model", text_value(model)));
    es.push(member("messages", chat_messages(system, user)));
    es.push(member("response_format", JsonValue::Object(rf)));
    es.push(member("max_tokens", JsonValue::Number(JsonNumber::PosInt(4096))));
    JsonValue::Object(es)
}

/// The request body of the MiniMax music call: instrumental WAV at
/// 44100 Hz and 256000 bit/s.
pub fn minimax_music_body(model: &str, text: &str) -> (v: JsonValue)
    ensures
        v is Object,
        members(v).len() == 4,
        named(members(v), 0, "model"@) && text_is(members(v)[0].1, model@),
        named(members(v), 1, "prompt"@) && text_is(members(v)[1].1, text@),
        named(members(v), 2, "is_instrumental"@) && members(v)[2].1 == JsonValue::Bool(true),
        named(members(v), 3, "audio_setting"@) && members(v)[3].1 is Object,
        members(members(v)[3].1).len() == 3,
        named(members(members(v)[3].1), 0, "sample_rate"@) && uint_is(members(members(v)[3].1)[0].1, 44100),
        named(members(members(v)[3].1), 1, "bitrate"@) && uint_is(members(members(v)[3].1)[1].1, 256000),
        named(members(members(v)[3].1), 2, "format"@) && text_is(members(members(v)[3].1)[2].1, "wav"@),
{
    let mut audio: Vec<(String, JsonValue)> = Vec::new();
    audio.push(member("sample_rate", JsonValue::Number(JsonNumber::PosInt(44100))));
    audio.push(member("bitrate", JsonValue::Number(JsonNumber::PosInt(256000))));
    audio.push(member("format", text_value("wav")));
    let mut es: Vec<(String, JsonValue)> = Vec::new();
    es.push(member("model", text_value(model)));
    es.push(member("prompt", text_value(text)));
    es.push(member("is_instrumental", JsonValue::Bool(true)));
    es.push(member("audio_setting", JsonValue::Object(audio)));
    JsonValue::Object(es)
}

/// The request body of the MiniMax image call: one square image, base64
/// response, prompt optimizer on.
pub fn minimax_image_body(model: &str, prompt: &str) -> (v: JsonValue)
    ensures
        v is Object,
        members(v).len() == 6,
        named(members(v), 0, "model"@) && text_is(members(v)[0].1, model@),
        named(members(v), 1, "prompt"@) && text_is(members(v)[1].1, prompt@),
        named(members(v), 2, "aspect_ratio"@) && text_is(members(v)[2].1, "1:1"@),
        named(members(v), 3, "response_format"@) && text_is(members(v)[3].1, "base64"@),
        named(members(v), 4, "n"@) && uint_is(members(v)[4].1, 1),
        named(members(v), 5, "prompt_optimizer"@) && members(v)[5].1 == JsonValue::Bool(true),
{
    let mut es: Vec<(String, JsonValue)> = Vec::new();
    es.push(member("model", text_value(model)));
    es.push(member("prompt", text_value(prompt)));
    es.push(member("aspect_ratio", text_value("1:1")));
    es.push(member("response_format", text_value("base64")));
    es.push(member("n", JsonValue::Number(JsonNumber::PosInt(1))));
    es.push(member("prompt_optimizer", JsonValue::Bool(true)));
    JsonValue::Object(es)
}

/// Model name that the local engine's chat endpoint expects.
pub const ENGINE_CHAT_MODEL: &'static str = "fingertip-llm";
/// Model name that the local engine's image endpoint expects.
pub const ENGINE_IMAGE_MODEL: &'static str = "fingertip-image";

/// The request body of the local engine's chat call (JSON-object output).
pub fn engine_chat_body(system: &str, user: &str) -> (v: JsonValue)
    ensures
        v is Object,
        members(v).len() == 3,
        named(members(v), 0, "model"@) && text_is(members(v)[0].1, ENGINE_CHAT_MODEL@),
        named(members(v), 1, "messages"@) && is_chat_messages(members(v)[1].1, system@, user@),
        named(members(v), 2, "response_format"@)
            && single_text_object(members(v)[2].1, "type"@, "json_object"@),
{
    let mut rf: Vec<(String, JsonValue)> = Vec::new();
    rf.push(member("type", text_value("json_object")));
    let mut es: Vec<(String, JsonValue)> = Vec::new();
    es.push(member("model", text_value(ENGINE_CHAT_MODEL)));
    es.push(member("messages", chat_messages(system, user)));
    es.push(member("response_format", JsonValue::Object(rf)));
    JsonValue::Object(es)
}

/// The request body of the local engine's image call (1024x1024, base64).
pub fn engine_image_body(prompt: &str) -> (v: JsonValue)
    ensures
        v is Object,
        members(v).len() == 4,
        named(members(v), 0, "model"@) && text_is(members(v)[0].1, ENGINE_IMAGE_MODEL@),
        named(members(v), 1, "prompt"@) && text_is(members(v)[1].1, prompt@),
        named(members(v), 2, "size"@) && text_is(members(v)[2].1, "1024x1024"@),
        named(members(v), 3, "response_format"@) && text_is(members(v)[3].1, "b64_json"@),
{
    let mut es: Vec<(String, JsonValue)> = Vec::new();
    es.push(member("model", text_value(ENGINE_IMAGE_MODEL)));
    es.push(member("prompt", text_value(prompt)));
    es.push(member("size", text_value("1024x1024")));
    es.push(member("response_format", text_value("b64_json")));
    JsonValue::Object(es)
}

/// The request body of the local engine's audio call.
pub fn engine_audio_body(text: &str) -> (v: JsonValue)
    ensures
        single_text_object(v, "text"@, text@),
{
    let mut es: Vec<(String, JsonValue)> = Vec::new();
    es.push(member("text", text_value(text)));
    JsonValue::Object(es)
}

/// `base_resp.status_code` of a reply, as an `i64`.
pub open spec fn base_resp_code(v: JsonValue) -> Option<int> {
    match opt_get(json_get(v, "base_resp"@), "status_code"@) {
        Some(c) => json_i64(c),
        None => None,
    }
}

/// `base_resp.status_msg` of a reply, or a placeholder.
pub open spec fn base_resp_message(v: JsonValue) -> Seq<char> {
    match opt_str(opt_get(json_get(v, "base_resp"@), "status_msg"@)) {
        Some(m) => m,
        None => "未知错误"@,
    }
}

/// The business error that a MiniMax reply reports, if any: a status code
/// other than 0. A missing code counts as success.
pub open spec fn spec_business_error(v: JsonValue) -> Option<Seq<char>> {
    match base_resp_code(v) {
        Some(c) => if c != 0 {
            Some("MiniMax 业务错误 status_code="@ + signed_decimal(c) + ": "@ + base_resp_message(v))
        } else {
            None
        },
        None => None,
    }
}

/// Checks the business status of a MiniMax reply (see [`spec_business_error`]).
pub fn check_minimax_base_resp(v: &JsonValue) -> (r: Result<(), String>)
    ensures
        match spec_business_error(*v) {
            Some(m) => r matches Err(e) && e@ == m,
            None => r is Ok,
        },
{
    let base = match v.get("base_resp") {
        Some(b) => b,
        None => return Ok(()),
    };
    let code = match base.get("status_code") {
        Some(c) => match c.as_i64() {
            Some(n) => n,
            None => return Ok(()),
        },
        None => return Ok(()),
    };
    if code == 0 {
        return Ok(());
    }
    let msg: &str = match base.get("status_msg") {
        Some(m) => match m.as_str() {
            Some(t) => t,
            None => "未知错误",
        },
        None => "未知错误",
    };
    let mut e = String::from_str("MiniMax 业务错误 status_code=");
    e.append(i64_to_decimal(code).as_str());
    e.append(": ");
    e.append(msg);
    Err(e)
}

/// `v["choices"][0]["message"]["content"]` as text.
pub open spec fn choice_content(v: JsonValue) -> Option<Seq<char>> {
    opt_str(opt_get(opt_get(opt_at(json_get(v, "choices"@), 0), "message"@), "content"@))
}

fn choice_content_of(v: &JsonValue) -> (r: Option<&str>)
    ensures
        match r {
            Some(t) => choice_content(*v) == Some(t@),
            None => choice_content(*v) is None,
        },
{
    let choices = match v.get("choices") {
        Some(c) => c,
        None => return None,
    };
    let first = match choices.at(0) {
        Some(c) => c,
        None => return None,
    };
    let message = match first.get("message") {
        Some(m) => m,
        None => return None,
    };
    match message.get("content") {
        Some(c) => c.as_str(),
        None => None,
    }
}

/// Error text for a fenced chat reply whose fence is never closed.
pub open spec fn unclosed_fence_message() -> Seq<char> {
    "MiniMax chat 返回非 JSON: 代码块未闭合"@
}

/// The JSON text carried by a MiniMax chat reply: business errors first,
/// then the message content, cleaned of reasoning noise.
pub open spec fn spec_minimax_chat_text(v: JsonValue) -> Result<Seq<char>, Seq<char>> {
    match spec_business_error(v) {
        Some(m) => Err(m),
        None => match choice_content(v) {
            None => Err("MiniMax chat 响应缺 content"@),
            Some(c) => if strip_noise_defined(c) {
                Ok(spec_strip_noise(c))
            } else {
                Err(unclosed_fence_message())
            },
        },
    }
}

/// Extracts the JSON text of a MiniMax chat reply (see [`spec_minimax_chat_text`]).
pub fn minimax_chat_text(v: &JsonValue) -> (r: Result<String, String>)
    ensures
        match (r, spec_minimax_chat_text(*v)) {
            (Ok(t), Ok(u)) => t@ == u,
            (Err(e), Err(f)) => e@ == f,
            _ => false,
        },
{
    check_minimax_base_resp(v)?;
    let content = match choice_content_of(v) {
        Some(c) => c,
        None => return Err(String::from_str("MiniMax chat 响应缺 content")),
    };
    match strip_noise_checked(content) {
        Some(t) => Ok(t),
        None => Err(String::from_str("MiniMax chat 返回非 JSON: 代码块未闭合")),
    }
}

/// `v["data"]["audio"]` as text.
pub open spec fn data_audio(v: JsonValue) -> Option<Seq<char>> {
    opt_str(opt_get(json_get(v, "data"@), "audio"@))
}

/// The audio bytes carried by a MiniMax music reply: business errors
/// first, then the hex payload `data.audio`.
pub open spec fn spec_minimax_music_audio(v: JsonValue) -> Result<Seq<u8>, Seq<char>> {
    match spec_business_error(v) {
        Some(m) => Err(m),
        None => match data_audio(v) {
            None => Err("MiniMax music 响应缺 audio"@),
            Some(h) => match spec_decode_hex(vstd::utf8::encode_utf8(h)) {
                Ok(b) => Ok(b),
                Err(e) => Err("MiniMax music hex 解码失败: "@ + hex_error_message(e)),
            },
        },
    }
}

/// Extracts the audio of a MiniMax music reply (see [`spec_minimax_music_audio`]).
pub fn minimax_music_audio(v: &JsonValue) -> (r: Result<Vec<u8>, String>)
    ensures
        match (r, spec_minimax_music_audio(*v)) {
            (Ok(t), Ok(u)) => t@ == u,
            (Err(e), Err(f)) => e@ == f,
            _ => false,
        },
{
    check_minimax_base_resp(v)?;
    let hex: &str = match v.get("data") {
        Some(d) => match d.get("audio") {
            Some(a) => match a.as_str() {
                Some(t) => t,
                None => return Err(String::from_str("MiniMax music 响应缺 audio")),
            },
            None => return Err(String::from_str("MiniMax music 响应缺 audio")),
        },
        None => return Err(String::from_str("MiniMax music 响应缺 audio")),
    };
    match decode_hex(hex) {
        Ok(b) => Ok(b),
        Err(e) => Err(String::from_str("MiniMax music hex 解码失败: ").concat(e.message().as_str())),
    }
}

/// Where the image of a MiniMax image reply is.
#[derive(Debug, Clone, PartialEq, Eq)]
pub enum ImagePayload {
    /// Base64 image bytes (`data.image_base64[0]`).
    Base64(String),
    /// A download address (`data.image_urls[0]`).
    Url(String),
}

/// `v["data"][key][0]` as text.
pub open spec fn data_first_text(v: JsonValue, key: Seq<char>) -> Option<Seq<char>> {
    opt_str(opt_at(opt_get(json_get(v, "data"@), key), 0))
}

fn data_first_text_of<'a>(v: &'a JsonValue, key: &str) -> (r: Option<&'a str>)
    ensures
        match r {
            Some(t) => data_first_text(*v, key@) == Some(t@),
            None => data_first_text(*v, key@) is None,
        },
{
    match v.get("data") {
        Some(d) => match d.get(key) {
            Some(a) => match a.at(0) {
                Some(x) => x.as_str(),
                None => None,
            },
            None => None,
        },
        None => None,
    }
}

/// The image payload of a MiniMax image reply: business errors first, then
/// the base64 image, then the image address.
pub open spec fn spec_minimax_image_payload(v: JsonValue) -> Result<(bool, Seq<char>), Seq<char>> {
    match spec_business_error(v) {
        Some(m) => Err(m),
        None => match data_first_text(v, "image_base64"@) {
            Some(b) => Ok((true, b)),
            None => match data_first_text(v, "image_urls"@) {
                Some(u) => Ok((false, u)),
                None => Err("MiniMax image 响应缺 image_base64/image_urls"@),
            },
        },
    }
}

/// Extracts the image payload of a MiniMax image reply (see
/// [`spec_minimax_image_payload`]; `true` marks base64).
pub fn minimax_image_payload(v: &JsonValue) -> (r: Result<ImagePayload, String>)
    ensures
        match (r, spec_minimax_image_payload(*v)) {
            (Ok(ImagePayload::Base64(t)), Ok((true, u))) => t@ == u,
            (Ok(ImagePayload::Url(t)), Ok((false, u))) => t@ == u,
            (Err(e), Err(f)) => e@ == f,
            _ => false,
        },
{
    check_minimax_base_resp(v)?;
    if let Some(b) = data_first_text_of(v, "image_base64") {
        return Ok(ImagePayload::Base64(String::from_str(b)));
    }
    if let Some(u) = data_first_text_of(v, "image_urls") {
        return Ok(ImagePayload::Url(String::from_str(u)));
    }
    Err(String::from_str("MiniMax image 响应缺 image_base64/image_urls"))
}

/// What the standard base64 engine decodes a text's bytes to; `None` when
/// it rejects them.
pub uninterp spec fn base64_standard_decode(text: Seq<u8>) -> Option<Seq<u8>>;

/// Decodes base64 with `base64::engine::general_purpose::STANDARD.decode`.
/// The contract claims only that the result is the engine's decoding of the
/// text's bytes, named [`base64_standard_decode`]; the error text is the
/// engine's message and is left unsaid.
#[verifier::external_body]
fn base64_decode_standard(text: &str) -> (r: Result<Vec<u8>, String>)
    ensures
        match r {
            Ok(b) => base64_standard_decode(text.spec_bytes()) == Some(b@),
            Err(_) => base64_standard_decode(text.spec_bytes()) is None,
        },
{
    match base64::engine::general_purpose::STANDARD.decode(text) {
        Ok(b) => Ok(b),
        Err(e) => Err(format!("{}", e)),
    }
}

/// Whether `image::load_from_memory` decodes the bytes (in any format that
/// `image` recognises).
pub uninterp spec fn image_decodes(src: Seq<u8>) -> bool;

/// The PNG bytes that `DynamicImage::write_to` (PNG format) writes for the
/// image that `image::load_from_memory` decodes from the bytes.
pub uninterp spec fn png_reencoding(src: Seq<u8>) -> Seq<u8>;

/// Which step of an image transcoding failed, with the library's message.
#[derive(Debug, Clone, PartialEq, Eq)]
pub enum TranscodeError {
    Decode(String),
    Encode(String),
}

/// Decodes image bytes with `image::load_from_memory` and writes the image
/// as PNG with `DynamicImage::write_to` into a buffer. Both depend on the
/// bytes alone. The contract claims that decoding fails exactly when
/// [`image_decodes`] does not hold, and that PNG bytes written are
/// [`png_reencoding`] of the input; whether the writing of a decoded image
/// fails, and the messages, are left unsaid.
#[verifier::external_body]
fn transcode_to_png(src: &[u8]) -> (r: Result<Vec<u8>, TranscodeError>)
    ensures
        r matches Ok(p) ==> p@ == png_reencoding(src@),
        r matches Err(TranscodeError::Decode(_)) <==> !image_decodes(src@),
{
    let img = match image::load_from_memory(src) {
        Ok(i) => i,
        Err(e) => return Err(TranscodeError::Decode(format!("{}", e))),
    };
    let mut png: Vec<u8> = Vec::new();
    match img.write_to(&mut std::io::Cursor::new(&mut png), image::ImageFormat::Png) {
        Ok(()) => Ok(png),
        Err(e) => Err(TranscodeError::Encode(format!("{}", e))),
    }
}

/// The messages of a failed transcoding.
pub open spec fn transcode_message(e: TranscodeError) -> Seq<char> {
    match e {
        TranscodeError::Decode(m) => "MiniMax image 图片解码失败（非 JPEG/PNG？）: "@ + m@,
        TranscodeError::Encode(m) => "MiniMax image PNG 编码失败: "@ + m@,
    }
}

/// Turns the outcome of a transcoding into the client's result.
pub fn png_outcome(t: Result<Vec<u8>, TranscodeError>) -> (r: Result<Vec<u8>, String>)
    ensures
        match t {
            Ok(b) => r == Ok::<Vec<u8>, String>(b),
            Err(e) => r matches Err(m) && m@ == transcode_message(e),
        },
{
    match t {
        Ok(b) => Ok(b),
        Err(TranscodeError::Decode(m)) => {
            Err(String::from_str("MiniMax image 图片解码失败（非 JPEG/PNG？）: ").concat(m.as_str()))
        },
        Err(TranscodeError::Encode(m)) => Err(String::from_str("MiniMax image PNG 编码失败: ").concat(m.as_str())),
    }
}

/// What re-encoding bytes as PNG gives: bytes that do not decode fail
/// with the decoding message; decoded bytes give their PNG re-encoding
/// ([`png_reencoding`]), or fail with the encoding message.
pub open spec fn png_conversion(src: Seq<u8>, r: Result<Vec<u8>, String>) -> bool {
    if image_decodes(src) {
        (r matches Ok(p) && p@ == png_reencoding(src))
            || (r matches Err(m) && exists|e: Seq<char>| m@ == "MiniMax image PNG 编码失败: "@ + e)
    } else {
        r matches Err(m) && exists|e: Seq<char>| m@ == "MiniMax image 图片解码失败（非 JPEG/PNG？）: "@ + e
    }
}

/// Re-encodes downloaded or decoded image bytes as PNG (see
/// [`png_conversion`]).
pub fn image_bytes_to_png(src: &[u8]) -> (r: Result<Vec<u8>, String>)
    ensures
        png_conversion(src@, r),
{
    let t = transcode_to_png(src);
    let ghost g = t;
    let r = png_outcome(t);
    proof {
        match g {
            Err(TranscodeError::Decode(m)) => {
                assert(r matches Err(x) && x@ == "MiniMax image 图片解码失败（非 JPEG/PNG？）: "@ + m@);
            },
            Err(TranscodeError::Encode(m)) => {
                assert(r matches Err(x) && x@ == "MiniMax image PNG 编码失败: "@ + m@);
            },
            Ok(_) => {},
        }
    }
    r
}

/// Turns the outcome of a base64 decoding of a MiniMax image into PNG bytes.
pub fn minimax_png_from_decoded(decoded: Result<Vec<u8>, String>) -> (r: Result<Vec<u8>, String>)
    ensures
        match decoded {
            Ok(b) => png_conversion(b@, r),
            Err(e) => r matches Err(m) && m@ == "MiniMax image base64 解码失败: "@ + e@,
        },
{
    match decoded {
        Ok(b) => image_bytes_to_png(b.as_slice()),
        Err(e) => Err(String::from_str("MiniMax image base64 解码失败: ").concat(e.as_str())),
    }
}

/// Decodes the base64 image of a MiniMax reply and re-encodes it as PNG.
pub fn minimax_png_from_base64(b64: &str) -> (r: Result<Vec<u8>, String>)
    ensures
        match base64_standard_decode(b64.spec_bytes()) {
            Some(b) => png_conversion(b, r),
            None => r matches Err(m)
                && exists|e: Seq<char>| m@ == "MiniMax image base64 解码失败: "@ + e,
        },
{
    let decoded = base64_decode_standard(b64);
    let ghost d = decoded;
    let r = minimax_png_from_decoded(decoded);
    proof {
        if let Err(e) = d {
            assert(r matches Err(m) && m@ == "MiniMax image base64 解码失败: "@ + e@);
        }
    }
    r
}

/// The message text of a local engine chat reply.
pub fn engine_chat_text(v: &JsonValue) -> (r: Result<String, String>)
    ensures
        match choice_content(*v) {
            Some(c) => r matches Ok(t) && t@ == c,
            None => r matches Err(e) && e@ == "chat 响应缺 content"@,
        },
{
    match choice_content_of(v) {
        Some(c) => Ok(String::from_str(c)),
        None => Err(String::from_str("chat 响应缺 content")),
    }
}

/// `v["data"][0]["b64_json"]` as text.
pub open spec fn engine_b64(v: JsonValue) -> Option<Seq<char>> {
    opt_str(opt_get(opt_at(json_get(v, "data"@), 0), "b64_json"@))
}

/// Turns the outcome of a base64 decoding of an engine image into the
/// client's result.
pub fn engine_image_from_decoded(decoded: Result<Vec<u8>, String>) -> (r: Result<Vec<u8>, String>)
    ensures
        match decoded {
            Ok(b) => r == Ok::<Vec<u8>, String>(b),
            Err(e) => r matches Err(m) && m@ == "image b64 解码失败: "@ + e@,
        },
{
    match decoded {
        Ok(b) => Ok(b),
        Err(e) => Err(String::from_str("image b64 解码失败: ").concat(e.as_str())),
    }
}

/// The image bytes of a local engine image reply: `data[0].b64_json`,
/// base64-decoded.
pub fn engine_image_bytes(v: &JsonValue) -> (r: Result<Vec<u8>, String>)
    ensures
        match engine_b64(*v) {
            None => r matches Err(e) && e@ == "image 响应缺 b64_json"@,
            Some(t) => match base64_standard_decode(vstd::utf8::encode_utf8(t)) {
                Some(b) => r matches Ok(x) && x@ == b,
                None => r matches Err(m) && exists|e: Seq<char>| m@ == "image b64 解码失败: "@ + e,
            },
        },
{
    let b64: &str = match v.get("data") {
        Some(d) => match d.at(0) {
            Some(first) => match first.get("b64_json") {
                Some(x) => match x.as_str() {
                    Some(t) => t,
                    None => return Err(String::from_str("image 响应缺 b64_json")),
                },
                None => return Err(String::from_str("image 响应缺 b64_json")),
            },
            None => return Err(String::from_str("image 响应缺 b64_json")),
        },
        None => return Err(String::from_str("image 响应缺 b64_json")),
    };
    let decoded = base64_decode_standard(b64);
    let ghost d = decoded;
    let r = engine_image_from_decoded(decoded);
    proof {
        if let Err(e) = d {
            assert(r matches Err(m) && m@ == "image b64 解码失败: "@ + e@);
        }
    }
    r
}

/// Law of the noise removal: its result is never empty, so the reply
/// always reaches the JSON parser with something to read.
pub proof fn law_strip_noise_nonempty(content: Seq<char>)
    ensures
        spec_strip_noise(content).len() > 0,
{
    reveal_strlit("{}");
}

/// Law of hex decoding: a decoded text yields half as many bytes as it has.
pub proof fn law_decode_hex_halves(b: Seq<u8>)
    ensures
        spec_decode_hex(b) matches Ok(out) ==> 2 * out.len() == b.len(),
{
}

/// Whether a text neither starts nor ends with whitespace.
pub open spec fn trimmed_edges(s: Seq<char>) -> bool {
    s.len() == 0 || (!is_ws(s[0]) && !is_ws(s.last()))
}

proof fn lemma_strip_think_edges(s: Seq<char>)
    requires
        trimmed_edges(s),
    ensures
        trimmed_edges(strip_think(s)),
    decreases s.len(),
{
    match (find_first(s, "<think>"@), find_last(s, "</think>"@)) {
        (Some(a), Some(b)) => {
            if b > a {
                lemma_rfind_from_sound(s, "</think>"@, s.len() - "</think>"@.len());
                let rest = s.subrange((b + "</think>"@.len()) as int, s.len() as int);
                lemma_trim_start_len(rest);
                lemma_trim_start_edges(rest);
                let t = trim_start(rest);
                if t.len() > 0 {
                    assert(rest.last() == s.last());
                }
                lemma_strip_think_edges(t);
            }
        },
        _ => {},
    }
}

/// Law of the noise removal: what comes out is `{}`, or a non-empty text
/// that neither starts nor ends with whitespace.
pub proof fn law_strip_noise_trimmed(content: Seq<char>)
    ensures
        spec_strip_noise(content) == "{}"@
            || (spec_strip_noise(content).len() > 0 && trimmed_edges(spec_strip_noise(content))),
{
    lemma_trim_edges(content);
    let s1 = strip_think(trim(content));
    lemma_strip_think_edges(trim(content));
    if !unclosed_think(s1) && fence_len(s1) > 0 {
        lemma_trim_edges(s1.subrange(fence_len(s1), find_last(s1, "```"@)->0 as int));
    }
}

proof fn lemma_sub_of_sub(s: Seq<char>, a: int, b: int, c: int, d: int)
    requires
        0 <= a <= b <= s.len(),
        0 <= c <= d <= b - a,
    ensures
        s.subrange(a, b).subrange(c, d) == s.subrange(a + c, a + d),
{
    assert(s.subrange(a, b).subrange(c, d) =~= s.subrange(a + c, a + d));
}

#[verifier::rlimit(50)]
proof fn lemma_strip_think_subrange(s: Seq<char>) -> (ij: (int, int))
    ensures
        0 <= ij.0 <= ij.1 <= s.len(),
        strip_think(s) == s.subrange(ij.0, ij.1),
    decreases s.len(),
{
    assert(s.subrange(0, s.len() as int) =~= s);
    match (find_first(s, "<think>"@), find_last(s, "</think>"@)) {
        (Some(a), Some(b)) => {
            if b > a {
                lemma_rfind_from_sound(s, "</think>"@, s.len() - "</think>"@.len());
                let k = (b + "</think>"@.len()) as int;
                let rest = s.subrange(k, s.len() as int);
                lemma_trim_start_len(rest);
                let f = lemma_trim_start_suffix(rest);
                let t = trim_start(rest);
                assert(strip_think(s) == strip_think(t));
                let (i, j) = lemma_strip_think_subrange(t);
                lemma_sub_of_sub(s, k, s.len() as int, f, rest.len() as int);
                lemma_sub_of_sub(s, k + f, s.len() as int, i, j);
                (k + f + i, k + f + j)
            } else {
                (0, s.len() as int)
            }
        },
        _ => (0, s.len() as int),
    }
}

/// Law of the noise removal: for any reply it handles, a reply whose
/// reasoning was cut off, or that holds nothing once the reasoning and the
/// fence are removed, becomes `{}`; anything else comes out as a
/// contiguous part of the reply.
pub proof fn law_strip_noise_from_content(content: Seq<char>)
    requires
        strip_noise_defined(content),
    ensures
        unclosed_think(strip_think(trim(content))) ==> spec_strip_noise(content) == "{}"@,
        !unclosed_think(strip_think(trim(content))) && unfence(strip_think(trim(content))).len() == 0
            ==> spec_strip_noise(content) == "{}"@,
        spec_strip_noise(content) == "{}"@ || exists|i: int, j: int|
            0 <= i <= j <= content.len() && spec_strip_noise(content) == #[trigger] content.subrange(i, j),
{
    let (a0, b0) = lemma_trim_subrange(content);
    let t = trim(content);
    let (a1, b1) = lemma_strip_think_subrange(t);
    let s1 = strip_think(t);
    lemma_sub_of_sub(content, a0, b0, a1, b1);
    if !unclosed_think(s1) {
        let s2 = unfence(s1);
        if s2.len() > 0 {
            if fence_len(s1) > 0 {
                lemma_rfind_from_sound(s1, "```"@, s1.len() - "```"@.len());
                let c = find_last(s1, "```"@)->0 as int;
                let fl = fence_len(s1);
                let inner = s1.subrange(fl, c);
                let (a2, b2) = lemma_trim_subrange(inner);
                lemma_sub_of_sub(content, a0 + a1, a0 + b1, fl, c);
                lemma_sub_of_sub(content, a0 + a1 + fl, a0 + a1 + c, a2, b2);
                assert(spec_strip_noise(content) == content.subrange(a0 + a1 + fl + a2, a0 + a1 + fl + b2));
            } else {
                assert(spec_strip_noise(content) == content.subrange(a0 + a1, a0 + b1));
            }
        }
    }
}

} // verus!
