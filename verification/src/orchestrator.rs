//! The orchestrator step: the prompt sent to the language model, the
//! validation of its JSON reply into six texts, and the single retry.

use vstd::prelude::*;
use vstd::string::StringExecFns;
use crate::json::{json_get, json_single_member, opt_str, JsonValue};
use crate::text::{
    decimal, i64_to_decimal, is_blank, signed_decimal, str_is_blank, trim, trim_str,
    u64_to_decimal, occurs_at,
};

verus! {

/// System prompt of the orchestrator: its role and the JSON contract.
pub const ORCHESTRATOR_SYSTEM: &'static str = "你是 FingerTip 的创作编排器。基于键盘活动信号，输出一个 JSON 对象，只包含以下六个字段，不要 markdown、不要解释：\n\n【输出字段】\n- `music_description`：音乐描述。一段话，覆盖「风格/情绪/主题词」三维度，兼容 Step-Audio 与 MiniMax 纯器乐 prompt，不要歌词。\n- `image_description`：图像描述。一段话，描述画面构图与色彩倾向，给 SD1.5 / 文生图 API 用，避免人物面孔以免肖像问题。\n- `sentence`：当日结语。**一句话 ≤ 60 个汉字**，呼应主题词与情绪，可诗意、可克制，避免说教。\n- `funny_summary`：AI 键盘诊断。**恰好 2 句话、共 40-80 个汉字**（不要写成 3 句及以上的长段），以吐槽/调侃风格总结用户今天的键盘行为特点（如「你的回车键按得比咖啡师还勤，是个急于表达的人」「凌晨三点的键盘党，建议换个养生枕头」）。可挖苦但不能冒犯，避免性别/年龄/职业歧视。\n\n【硬约束】\n1. 必须输出合法 JSON 对象，**只包含以上四个字段**，不要 markdown 代码块、不要多余字段、不要解释。\n2. 任一字段值**不能为空字符串**——空内容等同于未产出。";

/// The six texts that the orchestrator produces.
#[derive(Debug, Clone, PartialEq, Eq)]
pub struct OrchestratorResult {
    pub music_description: String,
    pub image_description: String,
    pub sentence: String,
    pub english_sentence: String,
    pub theme_explanation: String,
    pub funny_summary: String,
}

/// The six texts as character sequences, in field order.
pub type SixTexts = (Seq<char>, Seq<char>, Seq<char>, Seq<char>, Seq<char>, Seq<char>);

/// The view of a result as its six texts.
pub open spec fn texts_of(r: OrchestratorResult) -> SixTexts {
    (r.music_description@, r.image_description@, r.sentence@, r.english_sentence@,
        r.theme_explanation@, r.funny_summary@)
}

/// The text of member `key` of `v`, if it is a string.
pub open spec fn member_text(v: JsonValue, key: Seq<char>) -> Option<Seq<char>> {
    opt_str(json_get(v, key))
}

/// The text of an optional member, trimmed, or empty when missing.
pub open spec fn optional_text(v: JsonValue, key: Seq<char>) -> Seq<char> {
    match member_text(v, key) {
        Some(t) => trim(t),
        None => Seq::empty(),
    }
}

/// The six texts read from one object: the three required ones must be
/// strings that are not blank and are kept as they are; the three optional
/// ones are trimmed and default to empty.
pub open spec fn spec_six_fields(v: JsonValue) -> Option<SixTexts> {
    let m = member_text(v, "music_description"@);
    let i = member_text(v, "image_description"@);
    let s = member_text(v, "sentence"@);
    if !(v is Object) || m is None || i is None || s is None {
        None
    } else if is_blank(m->0) || is_blank(i->0) || is_blank(s->0) {
        None
    } else {
        Some((m->0, i->0, s->0, optional_text(v, "english_sentence"@),
            optional_text(v, "theme_explanation"@), optional_text(v, "funny_summary"@)))
    }
}

/// Error text for a reply that is not an object.
pub open spec fn not_object_message() -> Seq<char> {
    "编排器输出不是 JSON 对象"@
}

/// Error text for an object without the three required texts.
pub open spec fn missing_fields_message() -> Seq<char> {
    "编排器输出缺 music_description/image_description/sentence 必填三字段"@
}

/// The reading of a reply: the six texts at the top level, or else inside
/// the only member of a one-member object; otherwise the matching error.
pub open spec fn spec_parse_reply(v: JsonValue) -> Result<SixTexts, Seq<char>> {
    match spec_six_fields(v) {
        Some(t) => Ok(t),
        None => match json_single_member(v) {
            Some(inner) if spec_six_fields(inner) is Some => Ok(spec_six_fields(inner)->0),
            _ => if v is Object { Err(missing_fields_message()) } else { Err(not_object_message()) },
        },
    }
}

fn member_str<'a>(v: &'a JsonValue, key: &str) -> (r: Option<&'a str>)
    ensures
        match r {
            Some(s) => member_text(*v, key@) == Some(s@),
            None => member_text(*v, key@) is None,
        },
{
    match v.get(key) {
        Some(x) => x.as_str(),
        None => None,
    }
}

fn optional_member(v: &JsonValue, key: &str) -> (r: String)
    ensures
        r@ == optional_text(*v, key@),
{
    match member_str(v, key) {
        Some(t) => trim_str(t),
        None => String::new(),
    }
}

/// Reads the six texts from one object (see [`spec_six_fields`]).
fn extract_six_fields(v: &JsonValue) -> (r: Option<OrchestratorResult>)
    ensures
        match r {
            Some(res) => spec_six_fields(*v) == Some(texts_of(res)),
            None => spec_six_fields(*v) is None,
        },
{
    if !v.is_object() {
        return None;
    }
    let m = match member_str(v, "music_description") {
        Some(t) => t,
        None => return None,
    };
    let i = match member_str(v, "image_description") {
        Some(t) => t,
        None => return None,
    };
    let s = match member_str(v, "sentence") {
        Some(t) => t,
        None => return None,
    };
    if str_is_blank(m) || str_is_blank(i) || str_is_blank(s) {
        return None;
    }
    Some(OrchestratorResult {
        music_description: String::from_str(m),
        image_description: String::from_str(i),
        sentence: String::from_str(s),
        english_sentence: optional_member(v, "english_sentence"),
        theme_explanation: optional_member(v, "theme_explanation"),
        funny_summary: optional_member(v, "funny_summary"),
    })
}

/// Validates a parsed reply of the language model (see [`spec_parse_reply`]).
pub fn parse_orchestrator_value(v: &JsonValue) -> (r: Result<OrchestratorResult, String>)
    ensures
        match (r, spec_parse_reply(*v)) {
            (Ok(res), Ok(t)) => texts_of(res) == t,
            (Err(e), Err(f)) => e@ == f,
            _ => false,
        },
{
    if let Some(res) = extract_six_fields(v) {
        return Ok(res);
    }
    if let Some(inner) = v.single_member() {
        if let Some(res) = extract_six_fields(inner) {
            return Ok(res);
        }
    }
    if !v.is_object() {
        return Err(String::from_str("编排器输出不是 JSON 对象"));
    }
    Err(String::from_str("编排器输出缺 music_description/image_description/sentence 必填三字段"))
}

/// What follows one attempt of the orchestrator.
#[derive(Debug)]
pub enum AttemptStep {
    /// The run is over with this result.
    Done(Result<OrchestratorResult, String>),
    /// The first attempt failed with this error: try once more.
    Retry(String),
}

/// After the first attempt: a success ends the run, a failure asks for
/// exactly one retry.
pub fn after_first_attempt(outcome: Result<OrchestratorResult, String>) -> (s: AttemptStep)
    ensures
        outcome is Ok ==> s == AttemptStep::Done(outcome),
        outcome matches Err(e) ==> s == AttemptStep::Retry(e),
{
    match outcome {
        Ok(r) => AttemptStep::Done(Ok(r)),
        Err(e) => AttemptStep::Retry(e),
    }
}

/// The error text when both attempts failed.
pub open spec fn retry_failed_message(first: Seq<char>, second: Seq<char>) -> Seq<char> {
    "编排器重试后仍失败（首次: "@ + first + "; 重试: "@ + second + "）"@
}

/// After the retry: its success is the result; its failure ends the run
/// with both errors.
pub fn after_retry(first_error: &str, outcome: Result<OrchestratorResult, String>) -> (r: Result<OrchestratorResult, String>)
    ensures
        outcome is Ok ==> r == outcome,
        outcome matches Err(e) ==> r matches Err(m) && m@ == retry_failed_message(first_error@, e@),
{
    match outcome {
        Ok(res) => Ok(res),
        Err(e) => {
            let mut m = String::from_str("编排器重试后仍失败（首次: ");
            m.append(first_error);
            m.append("; 重试: ");
            m.append(e.as_str());
            m.append("）");
            Err(m)
        },
    }
}

/// The decimal rendering of a `usize`.
pub fn usize_to_decimal(n: usize) -> (s: String)
    ensures
        s@ == decimal(n as nat),
{
    u64_to_decimal(n as u64)
}

/// The first-activity line: a placeholder for the sentinel `0`.
pub open spec fn spec_first_active(ms: int) -> Seq<char> {
    if ms == 0 {
        "尚未首次活动"@
    } else {
        "epoch_ms="@ + signed_decimal(ms)
    }
}

/// Renders the first-activity time (see [`spec_first_active`]).
pub fn render_first_active(first_active_ms: i64) -> (s: String)
    ensures
        s@ == spec_first_active(first_active_ms as int),
{
    if first_active_ms == 0 {
        return String::from_str("尚未首次活动");
    }
    String::from_str("epoch_ms=").concat(i64_to_decimal(first_active_ms).as_str())
}

/// One top-key item, `key_code(CODE): COUNT`.
pub open spec fn key_item(k: (u32, usize)) -> Seq<char> {
    "key_code("@ + decimal(k.0 as nat) + "): "@ + decimal(k.1 as nat)
}

/// The first `n` items of `keys`, joined by `", "`.
pub open spec fn join_key_items(keys: Seq<(u32, usize)>, n: nat) -> Seq<char>
    decreases n,
{
    if n == 0 {
        Seq::empty()
    } else if n == 1 {
        key_item(keys[0])
    } else {
        join_key_items(keys, (n - 1) as nat) + ", "@ + key_item(keys[n - 1])
    }
}

/// The top-key line: at most the first five items, or a placeholder.
pub open spec fn spec_top_keys(keys: Seq<(u32, usize)>) -> Seq<char> {
    if keys.len() == 0 {
        "（无）"@
    } else {
        join_key_items(keys, if keys.len() < 5 { keys.len() } else { 5 })
    }
}

fn key_item_text(k: (u32, usize)) -> (s: String)
    ensures
        s@ == key_item(k),
{
    let mut s = String::from_str("key_code(");
    s.append(u64_to_decimal(k.0 as u64).as_str());
    s.append("): ");
    s.append(usize_to_decimal(k.1).as_str());
    s
}

/// Renders the top keys (see [`spec_top_keys`]).
pub fn render_top_keys(keys: &[(u32, usize)]) -> (s: String)
    ensures
        s@ == spec_top_keys(keys@),
{
    if keys.len() == 0 {
        return String::from_str("（无）");
    }
    let n: usize = if keys.len() < 5 { keys.len() } else { 5 };
    let mut s = key_item_text(keys[0]);
    let mut i: usize = 1;
    while i < n
        invariant
            1 <= i <= n,
            n <= keys@.len(),
            s@ == join_key_items(keys@, i as nat),
        decreases n - i,
    {
        s.append(", ");
        s.append(key_item_text(keys[i]).as_str());
        i = i + 1;
    }
    s
}

/// The hours `0..n` whose count is positive, in order.
pub open spec fn active_hour_list(hourly: Seq<usize>, n: nat) -> Seq<nat>
    decreases n,
{
    if n == 0 {
        Seq::empty()
    } else if hourly[n - 1] > 0 {
        active_hour_list(hourly, (n - 1) as nat).push((n - 1) as nat)
    } else {
        active_hour_list(hourly, (n - 1) as nat)
    }
}

/// Decimal numbers joined by `", "`.
pub open spec fn join_decimals(xs: Seq<nat>) -> Seq<char>
    decreases xs.len(),
{
    if xs.len() == 0 {
        Seq::empty()
    } else if xs.len() == 1 {
        decimal(xs[0])
    } else {
        join_decimals(xs.drop_last()) + ", "@ + decimal(xs.last())
    }
}

/// The active-hours line: the hours with a positive count, or a placeholder.
pub open spec fn spec_hourly_summary(hourly: Seq<usize>) -> Seq<char> {
    let hs = active_hour_list(hourly, 24);
    if hs.len() == 0 {
        "（无）"@
    } else {
        "活跃小时: "@ + join_decimals(hs)
    }
}

/// Renders the hourly activity (see [`spec_hourly_summary`]).
pub fn render_hourly_summary(hourly: &[usize; 24]) -> (s: String)
    ensures
        s@ == spec_hourly_summary(hourly@),
{
    let mut joined = String::new();
    let mut any = false;
    let mut h: usize = 0;
    while h < 24
        invariant
            h <= 24,
            hourly@.len() == 24,
            joined@ == join_decimals(active_hour_list(hourly@, h as nat)),
            any == (active_hour_list(hourly@, h as nat).len() > 0),
        decreases 24 - h,
    {
        let ghost before = active_hour_list(hourly@, h as nat);
        if hourly[h] > 0 {
            let ghost after = active_hour_list(hourly@, (h + 1) as nat);
            assert(after == before.push(h as nat));
            assert(after.drop_last() =~= before);
            if any {
                joined.append(", ");
            }
            joined.append(usize_to_decimal(h).as_str());
            any = true;
        }
        h = h + 1;
    }
    if !any {
        return String::from_str("（无）");
    }
    String::from_str("活跃小时: ").concat(joined.as_str())
}

/// The day's signals that go into the orchestrator prompt. The three
/// ratios are carried in their rendered decimal form.
#[derive(Debug, Clone)]
pub struct PromptSignals {
    pub theme_word: String,
    pub mood: Option<String>,
    pub style: String,
    pub intensity: String,
    pub steadiness: String,
    pub fluency: String,
    pub activity_hours: i32,
    pub top_keys: Vec<(u32, usize)>,
    pub hourly: [usize; 24],
    pub first_active_ms: i64,
    pub backspace_count: usize,
    pub delete_count: usize,
    pub enter_count: usize,
    pub space_count: usize,
    pub wasd_count: usize,
    pub total_events: usize,
}

/// The mood line of the prompt, empty without a mood.
pub open spec fn spec_mood_line(mood: Option<String>) -> Seq<char> {
    match mood {
        Some(m) => "情绪："@ + m@ + "\n"@,
        None => Seq::empty(),
    }
}

/// The user prompt of the orchestrator: the day's signals, the four
/// indicators, the special-key counts, the top keys, the active hours and
/// the six-field output contract.
pub open spec fn spec_prompt(c: PromptSignals) -> Seq<char> {
    "【当日信号】\n主题词："@ + c.theme_word@ + "\n"@
    + spec_mood_line(c.mood)
    + "风格："@ + c.style@ + "\n首次活动时间："@ + spec_first_active(c.first_active_ms as int)
    + "\n\n【四指标】\n- intensity（强度，按键数）："@ + c.intensity@
    + "\n- steadiness（节奏稳定性，0..1）："@ + c.steadiness@
    + "\n- fluency（流畅度，0..1）："@ + c.fluency@
    + "\n- activity_hours（活跃小时数）："@ + signed_decimal(c.activity_hours as int)
    + "\n\n【特殊键统计】\n- 退格（Backspace）："@ + decimal(c.backspace_count as nat)
    + "\n- 删除（Delete）："@ + decimal(c.delete_count as nat)
    + "\n- 回车（Enter）："@ + decimal(c.enter_count as nat)
    + "\n- 空格（Space）："@ + decimal(c.space_count as nat)
    + "\n- WASD（游戏键）："@ + decimal(c.wasd_count as nat)
    + "\n- 总按键："@ + decimal(c.total_events as nat)
    + "\n\n【Top 按键】\n"@ + spec_top_keys(c.top_keys@)
    + "\n\n【活跃时段】\n"@ + spec_hourly_summary(c.hourly@)
    + "\n\n【产物契约】请按以下六个字段输出 JSON：\n- music_description（音乐描述，纯器乐）\n- image_description（图像描述，海报画面）\n- sentence（中文当日结语，≤ 60 汉字）\n- english_sentence（英文结语，≤ 120 英文字符）\n- theme_explanation（主题词解释，8-20 汉字）\n- funny_summary（搞笑键盘吐槽，2 句话，40-80 字）\n只输出 JSON 对象，不要 markdown 代码块或多余字段。"@
}

/// Builds the orchestrator's user prompt (see [`spec_prompt`]).
pub fn orchestrator_prompt(c: &PromptSignals) -> (p: String)
    ensures
        p@ == spec_prompt(*c),
{
    let mut p = String::from_str("【当日信号】\n主题词：");
    p.append(c.theme_word.as_str());
    p.append("\n");
    match &c.mood {
        Some(m) => {
            p.append("情绪：");
            p.append(m.as_str());
            p.append("\n");
        },
        None => {},
    }
    p.append("风格：");
    p.append(c.style.as_str());
    p.append("\n首次活动时间：");
    p.append(render_first_active(c.first_active_ms).as_str());
    p.append("\n\n【四指标】\n- intensity（强度，按键数）：");
    p.append(c.intensity.as_str());
    p.append("\n- steadiness（节奏稳定性，0..1）：");
    p.append(c.steadiness.as_str());
    p.append("\n- fluency（流畅度，0..1）：");
    p.append(c.fluency.as_str());
    p.append("\n- activity_hours（活跃小时数）：");
    p.append(i64_to_decimal(c.activity_hours as i64).as_str());
    p.append("\n\n【特殊键统计】\n- 退格（Backspace）：");
    p.append(usize_to_decimal(c.backspace_count).as_str());
    p.append("\n- 删除（Delete）：");
    p.append(usize_to_decimal(c.delete_count).as_str());
    p.append("\n- 回车（Enter）：");
    p.append(usize_to_decimal(c.enter_count).as_str());
    p.append("\n- 空格（Space）：");
    p.append(usize_to_decimal(c.space_count).as_str());
    p.append("\n- WASD（游戏键）：");
    p.append(usize_to_decimal(c.wasd_count).as_str());
    p.append("\n- 总按键：");
    p.append(usize_to_decimal(c.total_events).as_str());
    p.append("\n\n【Top 按键】\n");
    p.append(render_top_keys(c.top_keys.as_slice()).as_str());
    p.append("\n\n【活跃时段】\n");
    p.append(render_hourly_summary(&c.hourly).as_str());
    p.append("\n\n【产物契约】请按以下六个字段输出 JSON：\n- music_description（音乐描述，纯器乐）\n- image_description（图像描述，海报画面）\n- sentence（中文当日结语，≤ 60 汉字）\n- english_sentence（英文结语，≤ 120 英文字符）\n- theme_explanation（主题词解释，8-20 汉字）\n- funny_summary（搞笑键盘吐槽，2 句话，40-80 字）\n只输出 JSON 对象，不要 markdown 代码块或多余字段。");
    p
}

/// Law of reply validation: an accepted reply always carries the three
/// required texts, none of them blank, and its optional texts trimmed.
pub proof fn law_accepted_reply_complete(v: JsonValue)
    ensures
        spec_parse_reply(v) matches Ok(t) ==> !is_blank(t.0) && !is_blank(t.1) && !is_blank(t.2)
            && trim(t.3) == t.3 && trim(t.4) == t.4 && trim(t.5) == t.5,
{
    match spec_parse_reply(v) {
        Ok(t) => {
            let src = if spec_six_fields(v) is Some { v } else { json_single_member(v)->0 };
            assert(spec_six_fields(src) == Some(t));
            lemma_optional_text_trimmed(src, "english_sentence"@);
            lemma_optional_text_trimmed(src, "theme_explanation"@);
            lemma_optional_text_trimmed(src, "funny_summary"@);
        },
        Err(_) => {},
    }
}

/// The trimmed text of member `key` of `o`, or empty when it is missing or
/// not a string.
pub open spec fn trimmed_member_or_empty(o: JsonValue, key: Seq<char>) -> Seq<char> {
    match opt_str(json_get(o, key)) {
        Some(x) => trim(x),
        None => Seq::empty(),
    }
}

/// `t` holds the texts of object `o`'s members, each under its own name:
/// the music description, image description and sentence unchanged, the
/// English sentence, theme explanation and funny summary trimmed.
pub open spec fn texts_from_members(o: JsonValue, t: SixTexts) -> bool {
    &&& o is Object
    &&& opt_str(json_get(o, "music_description"@)) == Some(t.0)
    &&& opt_str(json_get(o, "image_description"@)) == Some(t.1)
    &&& opt_str(json_get(o, "sentence"@)) == Some(t.2)
    &&& t.3 == trimmed_member_or_empty(o, "english_sentence"@)
    &&& t.4 == trimmed_member_or_empty(o, "theme_explanation"@)
    &&& t.5 == trimmed_member_or_empty(o, "funny_summary"@)
}

/// Law of reply validation: each accepted text is the member of the same
/// name, read from the reply object itself or else from its one wrapped
/// member; a reply object whose three required members are non-blank
/// strings is read at the top level.
pub proof fn law_accepted_reply_from_members(v: JsonValue)
    ensures
        spec_parse_reply(v) matches Ok(t) ==> texts_from_members(v, t)
            || (json_single_member(v) matches Some(o) && texts_from_members(o, t)),
        ({
            let m = opt_str(json_get(v, "music_description"@));
            let i = opt_str(json_get(v, "image_description"@));
            let s = opt_str(json_get(v, "sentence"@));
            (v is Object && m is Some && i is Some && s is Some
                && !is_blank(m->0) && !is_blank(i->0) && !is_blank(s->0))
                ==> (spec_parse_reply(v) matches Ok(t) && texts_from_members(v, t))
        }),
{
}

proof fn lemma_optional_text_trimmed(v: JsonValue, key: Seq<char>)
    ensures
        trim(optional_text(v, key)) == optional_text(v, key),
{
    match member_text(v, key) {
        Some(t) => crate::text::lemma_trim_idempotent(t),
        None => {
            assert(trim(Seq::<char>::empty()) =~= Seq::<char>::empty());
        },
    }
}

/// Whether `pat` occurs somewhere in `s`.
pub open spec fn appears_in(s: Seq<char>, pat: Seq<char>) -> bool {
    exists|i: int| #[trigger] occurs_at(s, pat, i)
}

/// Law of the orchestrator prompt: it names the day's theme word and
/// style, carries `情绪：` and the mood when there is a mood, and its
/// first-activity segment is `epoch_ms=` and the value, or the not-yet-active
/// text for 0.
#[verifier::rlimit(100)]
#[verifier::spinoff_prover]
pub proof fn law_prompt_carries_signals(c: PromptSignals)
    ensures
        appears_in(spec_prompt(c), c.theme_word@),
        appears_in(spec_prompt(c), c.style@),
        c.mood matches Some(m) ==> appears_in(spec_prompt(c), "情绪："@ + m@),
        appears_in(spec_prompt(c), spec_first_active(c.first_active_ms as int)),
        c.first_active_ms == 0 ==> spec_first_active(c.first_active_ms as int) == "尚未首次活动"@,
        c.first_active_ms != 0 ==> spec_first_active(c.first_active_ms as int)
            == "epoch_ms="@ + signed_decimal(c.first_active_ms as int),
{
    let p = spec_prompt(c);
    let a = "【当日信号】\n主题词："@;
    let t = c.theme_word@;
    let n1 = "\n"@;
    let ml = spec_mood_line(c.mood);
    let st = "风格："@;
    let sy = c.style@;
    let fa0 = "\n首次活动时间："@;
    let fa = spec_first_active(c.first_active_ms as int);
    let i_t = a.len() as int;
    let i_m = (a.len() + t.len() + n1.len()) as int;
    let i_s = (a.len() + t.len() + n1.len() + ml.len() + st.len()) as int;
    let i_f = (a.len() + t.len() + n1.len() + ml.len() + st.len() + sy.len() + fa0.len()) as int;
    assert(p.subrange(i_t, i_t + t.len()) =~= t);
    assert(occurs_at(p, t, i_t));
    assert(p.subrange(i_s, i_s + sy.len()) =~= sy);
    assert(occurs_at(p, sy, i_s));
    assert(p.subrange(i_f, i_f + fa.len()) =~= fa);
    assert(occurs_at(p, fa, i_f));
    if let Some(m) = c.mood {
        assert(ml == "情绪："@ + m@ + "\n"@);
        assert(p.subrange(i_m, i_m + ("情绪："@ + m@).len()) =~= "情绪："@ + m@);
        assert(occurs_at(p, "情绪："@ + m@, i_m));
    }
}

proof fn lemma_join_key_items_prefix(a: Seq<(u32, usize)>, b: Seq<(u32, usize)>, n: nat)
    requires
        n <= a.len(),
        n <= b.len(),
        forall|i: int| 0 <= i < n ==> a[i] == b[i],
    ensures
        join_key_items(a, n) == join_key_items(b, n),
    decreases n,
{
    if n > 1 {
        lemma_join_key_items_prefix(a, b, (n - 1) as nat);
        assert(a[n - 1] == b[n - 1]);
    } else if n == 1 {
        assert(a[0] == b[0]);
    }
}

/// Law of the top-key line: only the first five entries reach the prompt;
/// a list and its first five entries give the same line.
pub proof fn law_top_keys_first_five(keys: Seq<(u32, usize)>)
    ensures
        spec_top_keys(keys) == spec_top_keys(keys.take(if keys.len() < 5 { keys.len() as int } else { 5 })),
{
    let n: int = if keys.len() < 5 { keys.len() as int } else { 5 };
    let t = keys.take(n);
    assert(t.len() == n);
    if keys.len() > 0 {
        lemma_join_key_items_prefix(keys, t, n as nat);
    }
}

proof fn lemma_occurs_three(a: Seq<char>, b: Seq<char>, c: Seq<char>, d: Seq<char>)
    ensures
        occurs_at(a + b + c + d, b + c + d, a.len() as int),
{
    assert((a + b + c + d).subrange(a.len() as int, (a.len() + (b + c + d).len()) as int) =~= b + c + d);
}

proof fn lemma_occurs_extend(x: Seq<char>, y: Seq<char>, pat: Seq<char>, i: int)
    requires
        occurs_at(x, pat, i),
    ensures
        occurs_at(x + y, pat, i),
{
    assert((x + y).subrange(i, i + pat.len()) =~= x.subrange(i, i + pat.len()));
}

/// Law of the orchestrator prompt's figures: each indicator and each
/// special-key count stands right after its own label and right before the
/// next label, so no figure is shown under another's label; the top keys
/// and the active hours stand under their headings in the same way.
#[verifier::rlimit(50)]
#[verifier::spinoff_prover]
pub proof fn law_prompt_figures_labelled(c: PromptSignals)
    ensures
        appears_in(spec_prompt(c), "\n\n【四指标】\n- intensity（强度，按键数）："@ + c.intensity@ + "\n- steadiness（节奏稳定性，0..1）："@),
        appears_in(spec_prompt(c), "\n- steadiness（节奏稳定性，0..1）："@ + c.steadiness@ + "\n- fluency（流畅度，0..1）："@),
        appears_in(spec_prompt(c), "\n- fluency（流畅度，0..1）："@ + c.fluency@ + "\n- activity_hours（活跃小时数）："@),
        appears_in(spec_prompt(c), "\n- activity_hours（活跃小时数）："@ + signed_decimal(c.activity_hours as int) + "\n\n【特殊键统计】\n- 退格（Backspace）："@),
        appears_in(spec_prompt(c), "\n\n【特殊键统计】\n- 退格（Backspace）："@ + decimal(c.backspace_count as nat) + "\n- 删除（Delete）："@),
        appears_in(spec_prompt(c), "\n- 删除（Delete）："@ + decimal(c.delete_count as nat) + "\n- 回车（Enter）："@),
        appears_in(spec_prompt(c), "\n- 回车（Enter）："@ + decimal(c.enter_count as nat) + "\n- 空格（Space）："@),
        appears_in(spec_prompt(c), "\n- 空格（Space）："@ + decimal(c.space_count as nat) + "\n- WASD（游戏键）："@),
        appears_in(spec_prompt(c), "\n- WASD（游戏键）："@ + decimal(c.wasd_count as nat) + "\n- 总按键："@),
        appears_in(spec_prompt(c), "\n- 总按键："@ + decimal(c.total_events as nat) + "\n\n【Top 按键】\n"@),
        appears_in(spec_prompt(c), "\n\n【Top 按键】\n"@ + spec_top_keys(c.top_keys@) + "\n\n【活跃时段】\n"@),
        appears_in(spec_prompt(c), "\n\n【活跃时段】\n"@ + spec_hourly_summary(c.hourly@) + "\n\n【产物契约】请按以下六个字段输出 JSON：\n- music_description（音乐描述，纯器乐）\n- image_description（图像描述，海报画面）\n- sentence（中文当日结语，≤ 60 汉字）\n- english_sentence（英文结语，≤ 120 英文字符）\n- theme_explanation（主题词解释，8-20 汉字）\n- funny_summary（搞笑键盘吐槽，2 句话，40-80 字）\n只输出 JSON 对象，不要 markdown 代码块或多余字段。"@),
{
    let x0 = "【当日信号】\n主题词："@;
    let x1 = c.theme_word@;
    let x2 = "\n"@;
    let x3 = spec_mood_line(c.mood);
    let x4 = "风格："@;
    let x5 = c.style@;
    let x6 = "\n首次活动时间："@;
    let x7 = spec_first_active(c.first_active_ms as int);
    let x8 = "\n\n【四指标】\n- intensity（强度，按键数）："@;
    let x9 = c.intensity@;
    let x10 = "\n- steadiness（节奏稳定性，0..1）："@;
    let x11 = c.steadiness@;
    let x12 = "\n- fluency（流畅度，0..1）："@;
    let x13 = c.fluency@;
    let x14 = "\n- activity_hours（活跃小时数）："@;
    let x15 = signed_decimal(c.activity_hours as int);
    let x16 = "\n\n【特殊键统计】\n- 退格（Backspace）："@;
    let x17 = decimal(c.backspace_count as nat);
    let x18 = "\n- 删除（Delete）："@;
    let x19 = decimal(c.delete_count as nat);
    let x20 = "\n- 回车（Enter）："@;
    let x21 = decimal(c.enter_count as nat);
    let x22 = "\n- 空格（Space）："@;
    let x23 = decimal(c.space_count as nat);
    let x24 = "\n- WASD（游戏键）："@;
    let x25 = decimal(c.wasd_count as nat);
    let x26 = "\n- 总按键："@;
    let x27 = decimal(c.total_events as nat);
    let x28 = "\n\n【Top 按键】\n"@;
    let x29 = spec_top_keys(c.top_keys@);
    let x30 = "\n\n【活跃时段】\n"@;
    let x31 = spec_hourly_summary(c.hourly@);
    let x32 = "\n\n【产物契约】请按以下六个字段输出 JSON：\n- music_description（音乐描述，纯器乐）\n- image_description（图像描述，海报画面）\n- sentence（中文当日结语，≤ 60 汉字）\n- english_sentence（英文结语，≤ 120 英文字符）\n- theme_explanation（主题词解释，8-20 汉字）\n- funny_summary（搞笑键盘吐槽，2 句话，40-80 字）\n只输出 JSON 对象，不要 markdown 代码块或多余字段。"@;
    let p1 = x0;
    let p2 = p1 + x1;
    let p3 = p2 + x2;
    let p4 = p3 + x3;
    let p5 = p4 + x4;
    let p6 = p5 + x5;
    let p7 = p6 + x6;
    let p8 = p7 + x7;
    let p9 = p8 + x8;
    let p10 = p9 + x9;
    let p11 = p10 + x10;
    let p12 = p11 + x11;
    let p13 = p12 + x12;
    let p14 = p13 + x13;
    let p15 = p14 + x14;
    let p16 = p15 + x15;
    let p17 = p16 + x16;
    let p18 = p17 + x17;
    let p19 = p18 + x18;
    let p20 = p19 + x19;
    let p21 = p20 + x20;
    let p22 = p21 + x21;
    let p23 = p22 + x22;
    let p24 = p23 + x23;
    let p25 = p24 + x24;
    let p26 = p25 + x25;
    let p27 = p26 + x26;
    let p28 = p27 + x27;
    let p29 = p28 + x28;
    let p30 = p29 + x29;
    let p31 = p30 + x30;
    let p32 = p31 + x31;
    let p33 = p32 + x32;
    assert(spec_prompt(c) == p33);
    lemma_occurs_three(p8, x8, x9, x10);
    lemma_occurs_extend(p11, x11, x8 + x9 + x10, p8.len() as int);
    lemma_occurs_extend(p12, x12, x8 + x9 + x10, p8.len() as int);
    lemma_occurs_extend(p13, x13, x8 + x9 + x10, p8.len() as int);
    lemma_occurs_extend(p14, x14, x8 + x9 + x10, p8.len() as int);
    lemma_occurs_extend(p15, x15, x8 + x9 + x10, p8.len() as int);
    lemma_occurs_extend(p16, x16, x8 + x9 + x10, p8.len() as int);
    lemma_occurs_extend(p17, x17, x8 + x9 + x10, p8.len() as int);
    lemma_occurs_extend(p18, x18, x8 + x9 + x10, p8.len() as int);
    lemma_occurs_extend(p19, x19, x8 + x9 + x10, p8.len() as int);
    lemma_occurs_extend(p20, x20, x8 + x9 + x10, p8.len() as int);
    lemma_occurs_extend(p21, x21, x8 + x9 + x10, p8.len() as int);
    lemma_occurs_extend(p22, x22, x8 + x9 + x10, p8.len() as int);
    lemma_occurs_extend(p23, x23, x8 + x9 + x10, p8.len() as int);
    lemma_occurs_extend(p24, x24, x8 + x9 + x10, p8.len() as int);
    lemma_occurs_extend(p25, x25, x8 + x9 + x10, p8.len() as int);
    lemma_occurs_extend(p26, x26, x8 + x9 + x10, p8.len() as int);
    lemma_occurs_extend(p27, x27, x8 + x9 + x10, p8.len() as int);
    lemma_occurs_extend(p28, x28, x8 + x9 + x10, p8.len() as int);
    lemma_occurs_extend(p29, x29, x8 + x9 + x10, p8.len() as int);
    lemma_occurs_extend(p30, x30, x8 + x9 + x10, p8.len() as int);
    lemma_occurs_extend(p31, x31, x8 + x9 + x10, p8.len() as int);
    lemma_occurs_extend(p32, x32, x8 + x9 + x10, p8.len() as int);
    assert(occurs_at(p33, x8 + x9 + x10, p8.len() as int));
    lemma_occurs_three(p10, x10, x11, x12);
    lemma_occurs_extend(p13, x13, x10 + x11 + x12, p10.len() as int);
    lemma_occurs_extend(p14, x14, x10 + x11 + x12, p10.len() as int);
    lemma_occurs_extend(p15, x15, x10 + x11 + x12, p10.len() as int);
    lemma_occurs_extend(p16, x16, x10 + x11 + x12, p10.len() as int);
    lemma_occurs_extend(p17, x17, x10 + x11 + x12, p10.len() as int);
    lemma_occurs_extend(p18, x18, x10 + x11 + x12, p10.len() as int);
    lemma_occurs_extend(p19, x19, x10 + x11 + x12, p10.len() as int);
    lemma_occurs_extend(p20, x20, x10 + x11 + x12, p10.len() as int);
    lemma_occurs_extend(p21, x21, x10 + x11 + x12, p10.len() as int);
    lemma_occurs_extend(p22, x22, x10 + x11 + x12, p10.len() as int);
    lemma_occurs_extend(p23, x23, x10 + x11 + x12, p10.len() as int);
    lemma_occurs_extend(p24, x24, x10 + x11 + x12, p10.len() as int);
    lemma_occurs_extend(p25, x25, x10 + x11 + x12, p10.len() as int);
    lemma_occurs_extend(p26, x26, x10 + x11 + x12, p10.len() as int);
    lemma_occurs_extend(p27, x27, x10 + x11 + x12, p10.len() as int);
    lemma_occurs_extend(p28, x28, x10 + x11 + x12, p10.len() as int);
    lemma_occurs_extend(p29, x29, x10 + x11 + x12, p10.len() as int);
    lemma_occurs_extend(p30, x30, x10 + x11 + x12, p10.len() as int);
    lemma_occurs_extend(p31, x31, x10 + x11 + x12, p10.len() as int);
    lemma_occurs_extend(p32, x32, x10 + x11 + x12, p10.len() as int);
    assert(occurs_at(p33, x10 + x11 + x12, p10.len() as int));
    lemma_occurs_three(p12, x12, x13, x14);
    lemma_occurs_extend(p15, x15, x12 + x13 + x14, p12.len() as int);
    lemma_occurs_extend(p16, x16, x12 + x13 + x14, p12.len() as int);
    lemma_occurs_extend(p17, x17, x12 + x13 + x14, p12.len() as int);
    lemma_occurs_extend(p18, x18, x12 + x13 + x14, p12.len() as int);
    lemma_occurs_extend(p19, x19, x12 + x13 + x14, p12.len() as int);
    lemma_occurs_extend(p20, x20, x12 + x13 + x14, p12.len() as int);
    lemma_occurs_extend(p21, x21, x12 + x13 + x14, p12.len() as int);
    lemma_occurs_extend(p22, x22, x12 + x13 + x14, p12.len() as int);
    lemma_occurs_extend(p23, x23, x12 + x13 + x14, p12.len() as int);
    lemma_occurs_extend(p24, x24, x12 + x13 + x14, p12.len() as int);
    lemma_occurs_extend(p25, x25, x12 + x13 + x14, p12.len() as int);
    lemma_occurs_extend(p26, x26, x12 + x13 + x14, p12.len() as int);
    lemma_occurs_extend(p27, x27, x12 + x13 + x14, p12.len() as int);
    lemma_occurs_extend(p28, x28, x12 + x13 + x14, p12.len() as int);
    lemma_occurs_extend(p29, x29, x12 + x13 + x14, p12.len() as int);
    lemma_occurs_extend(p30, x30, x12 + x13 + x14, p12.len() as int);
    lemma_occurs_extend(p31, x31, x12 + x13 + x14, p12.len() as int);
    lemma_occurs_extend(p32, x32, x12 + x13 + x14, p12.len() as int);
    assert(occurs_at(p33, x12 + x13 + x14, p12.len() as int));
    lemma_occurs_three(p14, x14, x15, x16);
    lemma_occurs_extend(p17, x17, x14 + x15 + x16, p14.len() as int);
    lemma_occurs_extend(p18, x18, x14 + x15 + x16, p14.len() as int);
    lemma_occurs_extend(p19, x19, x14 + x15 + x16, p14.len() as int);
    lemma_occurs_extend(p20, x20, x14 + x15 + x16, p14.len() as int);
    lemma_occurs_extend(p21, x21, x14 + x15 + x16, p14.len() as int);
    lemma_occurs_extend(p22, x22, x14 + x15 + x16, p14.len() as int);
    lemma_occurs_extend(p23, x23, x14 + x15 + x16, p14.len() as int);
    lemma_occurs_extend(p24, x24, x14 + x15 + x16, p14.len() as int);
    lemma_occurs_extend(p25, x25, x14 + x15 + x16, p14.len() as int);
    lemma_occurs_extend(p26, x26, x14 + x15 + x16, p14.len() as int);
    lemma_occurs_extend(p27, x27, x14 + x15 + x16, p14.len() as int);
    lemma_occurs_extend(p28, x28, x14 + x15 + x16, p14.len() as int);
    lemma_occurs_extend(p29, x29, x14 + x15 + x16, p14.len() as int);
    lemma_occurs_extend(p30, x30, x14 + x15 + x16, p14.len() as int);
    lemma_occurs_extend(p31, x31, x14 + x15 + x16, p14.len() as int);
    lemma_occurs_extend(p32, x32, x14 + x15 + x16, p14.len() as int);
    assert(occurs_at(p33, x14 + x15 + x16, p14.len() as int));
    lemma_occurs_three(p16, x16, x17, x18);
    lemma_occurs_extend(p19, x19, x16 + x17 + x18, p16.len() as int);
    lemma_occurs_extend(p20, x20, x16 + x17 + x18, p16.len() as int);
    lemma_occurs_extend(p21, x21, x16 + x17 + x18, p16.len() as int);
    lemma_occurs_extend(p22, x22, x16 + x17 + x18, p16.len() as int);
    lemma_occurs_extend(p23, x23, x16 + x17 + x18, p16.len() as int);
    lemma_occurs_extend(p24, x24, x16 + x17 + x18, p16.len() as int);
    lemma_occurs_extend(p25, x25, x16 + x17 + x18, p16.len() as int);
    lemma_occurs_extend(p26, x26, x16 + x17 + x18, p16.len() as int);
    lemma_occurs_extend(p27, x27, x16 + x17 + x18, p16.len() as int);
    lemma_occurs_extend(p28, x28, x16 + x17 + x18, p16.len() as int);
    lemma_occurs_extend(p29, x29, x16 + x17 + x18, p16.len() as int);
    lemma_occurs_extend(p30, x30, x16 + x17 + x18, p16.len() as int);
    lemma_occurs_extend(p31, x31, x16 + x17 + x18, p16.len() as int);
    lemma_occurs_extend(p32, x32, x16 + x17 + x18, p16.len() as int);
    assert(occurs_at(p33, x16 + x17 + x18, p16.len() as int));
    lemma_occurs_three(p18, x18, x19, x20);
    lemma_occurs_extend(p21, x21, x18 + x19 + x20, p18.len() as int);
    lemma_occurs_extend(p22, x22, x18 + x19 + x20, p18.len() as int);
    lemma_occurs_extend(p23, x23, x18 + x19 + x20, p18.len() as int);
    lemma_occurs_extend(p24, x24, x18 + x19 + x20, p18.len() as int);
    lemma_occurs_extend(p25, x25, x18 + x19 + x20, p18.len() as int);
    lemma_occurs_extend(p26, x26, x18 + x19 + x20, p18.len() as int);
    lemma_occurs_extend(p27, x27, x18 + x19 + x20, p18.len() as int);
    lemma_occurs_extend(p28, x28, x18 + x19 + x20, p18.len() as int);
    lemma_occurs_extend(p29, x29, x18 + x19 + x20, p18.len() as int);
    lemma_occurs_extend(p30, x30, x18 + x19 + x20, p18.len() as int);
    lemma_occurs_extend(p31, x31, x18 + x19 + x20, p18.len() as int);
    lemma_occurs_extend(p32, x32, x18 + x19 + x20, p18.len() as int);
    assert(occurs_at(p33, x18 + x19 + x20, p18.len() as int));
    lemma_occurs_three(p20, x20, x21, x22);
    lemma_occurs_extend(p23, x23, x20 + x21 + x22, p20.len() as int);
    lemma_occurs_extend(p24, x24, x20 + x21 + x22, p20.len() as int);
    lemma_occurs_extend(p25, x25, x20 + x21 + x22, p20.len() as int);
    lemma_occurs_extend(p26, x26, x20 + x21 + x22, p20.len() as int);
    lemma_occurs_extend(p27, x27, x20 + x21 + x22, p20.len() as int);
    lemma_occurs_extend(p28, x28, x20 + x21 + x22, p20.len() as int);
    lemma_occurs_extend(p29, x29, x20 + x21 + x22, p20.len() as int);
    lemma_occurs_extend(p30, x30, x20 + x21 + x22, p20.len() as int);
    lemma_occurs_extend(p31, x31, x20 + x21 + x22, p20.len() as int);
    lemma_occurs_extend(p32, x32, x20 + x21 + x22, p20.len() as int);
    assert(occurs_at(p33, x20 + x21 + x22, p20.len() as int));
    lemma_occurs_three(p22, x22, x23, x24);
    lemma_occurs_extend(p25, x25, x22 + x23 + x24, p22.len() as int);
    lemma_occurs_extend(p26, x26, x22 + x23 + x24, p22.len() as int);
    lemma_occurs_extend(p27, x27, x22 + x23 + x24, p22.len() as int);
    lemma_occurs_extend(p28, x28, x22 + x23 + x24, p22.len() as int);
    lemma_occurs_extend(p29, x29, x22 + x23 + x24, p22.len() as int);
    lemma_occurs_extend(p30, x30, x22 + x23 + x24, p22.len() as int);
    lemma_occurs_extend(p31, x31, x22 + x23 + x24, p22.len() as int);
    lemma_occurs_extend(p32, x32, x22 + x23 + x24, p22.len() as int);
    assert(occurs_at(p33, x22 + x23 + x24, p22.len() as int));
    lemma_occurs_three(p24, x24, x25, x26);
    lemma_occurs_extend(p27, x27, x24 + x25 + x26, p24.len() as int);
    lemma_occurs_extend(p28, x28, x24 + x25 + x26, p24.len() as int);
    lemma_occurs_extend(p29, x29, x24 + x25 + x26, p24.len() as int);
    lemma_occurs_extend(p30, x30, x24 + x25 + x26, p24.len() as int);
    lemma_occurs_extend(p31, x31, x24 + x25 + x26, p24.len() as int);
    lemma_occurs_extend(p32, x32, x24 + x25 + x26, p24.len() as int);
    assert(occurs_at(p33, x24 + x25 + x26, p24.len() as int));
    lemma_occurs_three(p26, x26, x27, x28);
    lemma_occurs_extend(p29, x29, x26 + x27 + x28, p26.len() as int);
    lemma_occurs_extend(p30, x30, x26 + x27 + x28, p26.len() as int);
    lemma_occurs_extend(p31, x31, x26 + x27 + x28, p26.len() as int);
    lemma_occurs_extend(p32, x32, x26 + x27 + x28, p26.len() as int);
    assert(occurs_at(p33, x26 + x27 + x28, p26.len() as int));
    lemma_occurs_three(p28, x28, x29, x30);
    lemma_occurs_extend(p31, x31, x28 + x29 + x30, p28.len() as int);
    lemma_occurs_extend(p32, x32, x28 + x29 + x30, p28.len() as int);
    assert(occurs_at(p33, x28 + x29 + x30, p28.len() as int));
    lemma_occurs_three(p30, x30, x31, x32);
    assert(occurs_at(p33, x30 + x31 + x32, p30.len() as int));
}

} // verus!
