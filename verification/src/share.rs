//! Sharing a day's products: the card artifact, the default addresses and
//! HTML escaping of the texts shown on the share page.

use vstd::prelude::*;
use vstd::string::StringExecFns;
use base64::Engine;
use vstd::string::StringSliceAdditionalSpecFns;
use crate::text::{chars_of, push_char};
use crate::json::{JsonValue, json_get, opt_get, opt_str};
use crate::generate::opt_text;

verus! {

/// The result of sharing: the card image on disk, whether the audio went
/// up, and the address the QR code opens.
#[derive(Debug, Clone, PartialEq, Eq)]
pub struct QrArtifact {
    pub local_path: String,
    pub audio_ok: bool,
    pub share_url: String,
}

/// Download address of the desktop installer when none is configured.
pub const DEFAULT_DOWNLOAD_URL: &'static str = "https://github.com/wutongyu2026/FingerTip/releases/latest";

/// Address of the share landing page when none is configured.
pub const DEFAULT_LANDING_PAGE_URL: &'static str = "https://wutongyu2026.github.io/FingerTip/landing.html";

/// The configured address, or the default when none is set.
pub fn configured_or_default(configured: Option<String>, default: &str) -> (s: String)
    ensures
        s@ == match configured {
            Some(c) => c@,
            None => default@,
        },
{
    match configured {
        Some(c) => c,
        None => String::from_str(default),
    }
}

/// The HTML escape of one character.
pub open spec fn escape_char(c: char) -> Seq<char> {
    if c == '&' {
        "&amp;"@
    } else if c == '<' {
        "&lt;"@
    } else if c == '>' {
        "&gt;"@
    } else if c == '"' {
        "&quot;"@
    } else if c == '\'' {
        "&#39;"@
    } else {
        seq![c]
    }
}

/// The HTML escape of the first `n` characters of `s`.
pub open spec fn escape_prefix(s: Seq<char>, n: nat) -> Seq<char>
    decreases n,
{
    if n == 0 {
        Seq::empty()
    } else {
        escape_prefix(s, (n - 1) as nat) + escape_char(s[n - 1])
    }
}

/// `s` with `& < > " '` replaced by their HTML entities.
pub open spec fn spec_escape_html(s: Seq<char>) -> Seq<char> {
    escape_prefix(s, s.len())
}

/// Escapes text for HTML (see [`spec_escape_html`]).
pub fn escape_html(s: &str) -> (r: String)
    ensures
        r@ == spec_escape_html(s@),
{
    let cs = chars_of(s);
    let mut out = String::new();
    let mut i: usize = 0;
    while i < cs.len()
        invariant
            i <= cs@.len(),
            cs@ == s@,
            out@ == escape_prefix(s@, i as nat),
        decreases cs@.len() - i,
    {
        let c = cs[i];
        if c == '&' {
            out.append("&amp;");
        } else if c == '<' {
            out.append("&lt;");
        } else if c == '>' {
            out.append("&gt;");
        } else if c == '"' {
            out.append("&quot;");
        } else if c == '\'' {
            out.append("&#39;");
        } else {
            let ghost before = out@;
            push_char(&mut out, c);
            assert(out@ == before + seq![c]);
        }
        i = i + 1;
    }
    out
}

/// Law of HTML escaping: the escaped text holds none of `< > " '`.
pub proof fn law_escape_html_safe(s: Seq<char>, n: nat)
    requires
        n <= s.len(),
    ensures
        forall|i: int| 0 <= i < escape_prefix(s, n).len() ==> {
            let c = #[trigger] escape_prefix(s, n)[i];
            c != '<' && c != '>' && c != '"' && c != '\''
        },
    decreases n,
{
    reveal_strlit("&amp;");
    reveal_strlit("&lt;");
    reveal_strlit("&gt;");
    reveal_strlit("&quot;");
    reveal_strlit("&#39;");
    if n > 0 {
        law_escape_html_safe(s, (n - 1) as nat);
        let prev = escape_prefix(s, (n - 1) as nat);
        let tail = escape_char(s[n - 1]);
        assert forall|i: int| 0 <= i < (prev + tail).len() implies {
            let c = #[trigger] (prev + tail)[i];
            c != '<' && c != '>' && c != '"' && c != '\''
        } by {
            if i >= prev.len() {
                assert((prev + tail)[i] == tail[i - prev.len()]);
            } else {
                assert((prev + tail)[i] == prev[i]);
            }
        }
    }
}

/// The card's activity level, 0 to 5: the active hours capped at 16,
/// scaled to five steps and rounded to the nearest step (halves up); no
/// activity, or a negative count, is level 0.
pub open spec fn spec_activity_level(hours: int) -> int {
    if hours <= 0 {
        0
    } else {
        (5 * (if hours < 16 { hours } else { 16 }) + 8) / 16
    }
}

/// The card's activity level (see [`spec_activity_level`]).
pub fn activity_level(hours: i32) -> (l: u8)
    ensures
        l as int == spec_activity_level(hours as int),
        l <= 5,
{
    if hours <= 0 {
        return 0;
    }
    let m: i32 = if hours < 16 { hours } else { 16 };
    let l: i32 = (5 * m + 8) / 16;
    assert(0 <= l <= 5);
    l as u8
}

/// The words under the activity dots of a level.
pub open spec fn spec_activity_description(level: u8) -> Seq<char> {
    if level == 0 {
        "几乎没动"@
    } else if level == 1 {
        "少许活动"@
    } else if level == 2 {
        "轻度活跃"@
    } else if level == 3 {
        "中度活跃"@
    } else if level == 4 {
        "高度活跃"@
    } else {
        "超活跃"@
    }
}

/// The words under the activity dots (see [`spec_activity_description`]).
pub fn activity_description(level: u8) -> (s: &'static str)
    ensures
        s@ == spec_activity_description(level),
{
    if level == 0 {
        "几乎没动"
    } else if level == 1 {
        "少许活动"
    } else if level == 2 {
        "轻度活跃"
    } else if level == 3 {
        "中度活跃"
    } else if level == 4 {
        "高度活跃"
    } else {
        "超活跃"
    }
}

/// The colour family of the card's statistics at an activity level.
#[derive(Debug, Clone, Copy, PartialEq, Eq, Structural)]
pub enum ActivityTone {
    /// Levels 0 and 1: the secondary text colour.
    Muted,
    /// Levels 2 and 3: the warm accent.
    Warm,
    /// Levels 4 and 5: the active green.
    Green,
}

/// The colour family of an activity level (see [`ActivityTone`]).
pub fn activity_tone(level: u8) -> (t: ActivityTone)
    ensures
        t == (if level <= 1 { ActivityTone::Muted } else if level <= 3 { ActivityTone::Warm } else { ActivityTone::Green }),
{
    if level <= 1 {
        ActivityTone::Muted
    } else if level <= 3 {
        ActivityTone::Warm
    } else {
        ActivityTone::Green
    }
}

/// The address of an uploaded file in an upload service's reply: the
/// text of `downloadLink`, else of `data.link`, else of `url`.
pub open spec fn spec_uploaded_link(v: JsonValue) -> Option<Seq<char>> {
    match opt_str(json_get(v, "downloadLink"@)) {
        Some(u) => Some(u),
        None => match opt_str(opt_get(json_get(v, "data"@), "link"@)) {
            Some(u) => Some(u),
            None => opt_str(json_get(v, "url"@)),
        },
    }
}

/// Reads the address out of an upload reply (see [`spec_uploaded_link`]).
pub fn uploaded_link(v: &JsonValue) -> (r: Option<String>)
    ensures
        opt_text(r) == spec_uploaded_link(*v),
{
    if let Some(x) = v.get("downloadLink") {
        if let Some(u) = x.as_str() {
            return Some(String::from_str(u));
        }
    }
    if let Some(d) = v.get("data") {
        if let Some(x) = d.get("link") {
            if let Some(u) = x.as_str() {
                return Some(String::from_str(u));
            }
        }
    }
    match v.get("url") {
        Some(x) => match x.as_str() {
            Some(u) => Some(String::from_str(u)),
            None => None,
        },
        None => None,
    }
}

/// The URL-safe base64 digit of a six-bit value (RFC 4648, section 5):
/// `A`-`Z`, `a`-`z`, `0`-`9`, `-`, `_`.
pub open spec fn b64_digit(v: int) -> char {
    if v < 26 {
        (65 + v) as char
    } else if v < 52 {
        (97 + v - 26) as char
    } else if v < 62 {
        (48 + v - 52) as char
    } else if v == 62 {
        '-'
    } else {
        '_'
    }
}

/// URL-safe base64 without padding: every three bytes become four digits
/// of six bits each, a final two bytes three digits and a final byte two,
/// the missing low bits zero.
pub open spec fn base64_url_safe(b: Seq<u8>) -> Seq<char>
    decreases b.len(),
{
    if b.len() == 0 {
        Seq::empty()
    } else if b.len() == 1 {
        seq![b64_digit((b[0] as int) / 4), b64_digit(((b[0] as int) % 4) * 16)]
    } else if b.len() == 2 {
        seq![b64_digit((b[0] as int) / 4), b64_digit(((b[0] as int) % 4) * 16 + (b[1] as int) / 16), b64_digit(((b[1] as int) % 16) * 4)]
    } else {
        seq![
            b64_digit((b[0] as int) / 4),
            b64_digit(((b[0] as int) % 4) * 16 + (b[1] as int) / 16),
            b64_digit(((b[1] as int) % 16) * 4 + (b[2] as int) / 64),
            b64_digit((b[2] as int) % 64),
        ] + base64_url_safe(b.subrange(3, b.len() as int))
    }
}

/// Whether a character belongs to the URL-safe base64 alphabet.
pub open spec fn is_url_safe_base64_char(c: char) -> bool {
    ('A' <= c <= 'Z') || ('a' <= c <= 'z') || ('0' <= c <= '9') || c == '-' || c == '_'
}

proof fn lemma_b64_digit_safe(v: int)
    requires
        0 <= v < 64,
    ensures
        is_url_safe_base64_char(b64_digit(v)),
{
}

/// Lemma: URL-safe base64 uses only the URL-safe alphabet.
proof fn lemma_base64_url_safe_chars(b: Seq<u8>)
    ensures
        forall|i: int| 0 <= i < base64_url_safe(b).len() ==> is_url_safe_base64_char(#[trigger] base64_url_safe(b)[i]),
    decreases b.len(),
{
    if b.len() == 0 {
    } else if b.len() == 1 {
        lemma_b64_digit_safe((b[0] as int) / 4);
        lemma_b64_digit_safe(((b[0] as int) % 4) * 16);
    } else if b.len() == 2 {
        lemma_b64_digit_safe((b[0] as int) / 4);
        lemma_b64_digit_safe(((b[0] as int) % 4) * 16 + (b[1] as int) / 16);
        lemma_b64_digit_safe(((b[1] as int) % 16) * 4);
    } else {
        let rest = b.subrange(3, b.len() as int);
        lemma_base64_url_safe_chars(rest);
        lemma_b64_digit_safe((b[0] as int) / 4);
        lemma_b64_digit_safe(((b[0] as int) % 4) * 16 + (b[1] as int) / 16);
        lemma_b64_digit_safe(((b[1] as int) % 16) * 4 + (b[2] as int) / 64);
        lemma_b64_digit_safe((b[2] as int) % 64);
        let head = seq![
            b64_digit((b[0] as int) / 4),
            b64_digit(((b[0] as int) % 4) * 16 + (b[1] as int) / 16),
            b64_digit(((b[1] as int) % 16) * 4 + (b[2] as int) / 64),
            b64_digit((b[2] as int) % 64),
        ];
        assert forall|i: int| 0 <= i < base64_url_safe(b).len() implies is_url_safe_base64_char(#[trigger] base64_url_safe(b)[i]) by {
            if i < 4 {
                assert(base64_url_safe(b)[i] == head[i]);
            } else {
                assert(base64_url_safe(b)[i] == base64_url_safe(rest)[i - 4]);
            }
        }
    }
}

/// Encodes the bytes of a text with
/// `base64::engine::general_purpose::URL_SAFE_NO_PAD.encode`: the URL-safe
/// alphabet with no `=` padding, as [`base64_url_safe`] states it.
#[verifier::external_body]
fn base64_encode_url_safe(text: &str) -> (r: String)
    ensures
        r@ == base64_url_safe(text.spec_bytes()),
{
    base64::engine::general_purpose::URL_SAFE_NO_PAD.encode(text)
}

/// The share address of a payload: the landing page, `#d=`, and the
/// URL-safe base64 of the payload's JSON text.
pub open spec fn spec_share_url(landing: Seq<char>, payload_json: Seq<u8>) -> Seq<char> {
    landing + "#d="@ + base64_url_safe(payload_json)
}

/// Builds the share address of a payload (see [`spec_share_url`]).  What
/// follows the `#d=` marker holds only URL-safe characters, so the payload
/// survives in the address unescaped.
pub fn share_url(landing: &str, payload_json: &str) -> (u: String)
    ensures
        u@ == spec_share_url(landing@, payload_json.spec_bytes()),
        forall|i: int| landing@.len() + 3 <= i < u@.len() ==> is_url_safe_base64_char(#[trigger] u@[i]),
{
    let encoded = base64_encode_url_safe(payload_json);
    let mut u = String::from_str(landing);
    u.append("#d=");
    u.append(encoded.as_str());
    proof {
        reveal_strlit("#d=");
        lemma_base64_url_safe_chars(payload_json.spec_bytes());
        assert forall|i: int| landing@.len() + 3 <= i < u@.len() implies is_url_safe_base64_char(#[trigger] u@[i]) by {
            assert(u@[i] == encoded@[i - landing@.len() - 3]);
        }
    }
    u
}

} // verus!
