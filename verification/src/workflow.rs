//! The decisions of the generation commands: which events feed a
//! generation, which mood and texts are kept, how the orchestrator's texts
//! become model prompts, and what the share card shows.

use vstd::prelude::*;
use vstd::string::StringExecFns;
use crate::generate::{clone_opt_text, opt_text, ArtPrompt, MusicPrompt};
use crate::keymap::{key_display_name, spec_key_display_name};
use crate::orchestrator::OrchestratorResult;
use crate::text::{is_blank, str_is_blank, trim, trim_str};

verus! {

/// Where a generation takes its key events from.
#[derive(Debug, Clone, Copy, PartialEq, Eq, Structural)]
pub enum EventWindow {
    /// The window the user picked, from `start_ms` to `end_ms`.
    Custom { start_ms: i64, end_ms: i64 },
    /// The day's default window.
    WholeDay,
}

/// A window picked by the user counts only with both ends given.
pub fn event_window(start_ms: Option<i64>, end_ms: Option<i64>) -> (w: EventWindow)
    ensures
        match (start_ms, end_ms) {
            (Some(s), Some(e)) => w == EventWindow::Custom { start_ms: s, end_ms: e },
            _ => w == EventWindow::WholeDay,
        },
{
    match (start_ms, end_ms) {
        (Some(s), Some(e)) => EventWindow::Custom { start_ms: s, end_ms: e },
        _ => EventWindow::WholeDay,
    }
}

/// Text, or nothing when it is empty.
pub open spec fn spec_nonempty(s: Seq<char>) -> Option<Seq<char>> {
    if s.len() == 0 { None } else { Some(s) }
}

/// The text, or nothing when it is empty (an empty mood or label means none).
pub fn nonempty_text(s: &str) -> (r: Option<String>)
    ensures
        opt_text(r) == spec_nonempty(s@),
{
    if s.is_empty() {
        None
    } else {
        Some(String::from_str(s))
    }
}

/// Trimmed text, or nothing when only whitespace is left.
pub open spec fn spec_trimmed_nonblank(s: Seq<char>) -> Option<Seq<char>> {
    if is_blank(s) { None } else { Some(trim(s)) }
}

/// The trimmed text, or nothing when it is blank.
pub fn trimmed_nonblank(s: &str) -> (r: Option<String>)
    ensures
        opt_text(r) == spec_trimmed_nonblank(s@),
{
    if str_is_blank(s) {
        None
    } else {
        Some(trim_str(s))
    }
}

/// The optional texts of a generation, as stored: the sentence as the
/// orchestrator wrote it; the diagnosis, English sentence and theme
/// explanation trimmed, and absent when blank.
#[derive(Debug, Clone, PartialEq, Eq)]
pub struct OutcomeTexts {
    pub sentence: String,
    pub funny_summary: Option<String>,
    pub english_sentence: Option<String>,
    pub theme_explanation: Option<String>,
}

/// The stored texts of a fresh generation (see [`OutcomeTexts`]).
pub fn outcome_texts(orch: &OrchestratorResult) -> (t: OutcomeTexts)
    ensures
        t.sentence@ == orch.sentence@,
        opt_text(t.funny_summary) == spec_trimmed_nonblank(orch.funny_summary@),
        opt_text(t.english_sentence) == spec_trimmed_nonblank(orch.english_sentence@),
        opt_text(t.theme_explanation) == spec_trimmed_nonblank(orch.theme_explanation@),
{
    OutcomeTexts {
        sentence: orch.sentence.clone(),
        funny_summary: trimmed_nonblank(orch.funny_summary.as_str()),
        english_sentence: trimmed_nonblank(orch.english_sentence.as_str()),
        theme_explanation: trimmed_nonblank(orch.theme_explanation.as_str()),
    }
}

/// The stored texts when only the sentence is regenerated: the English
/// sentence and theme explanation as produced, absent when empty; a blank
/// diagnosis keeps the one already stored.
pub fn regenerated_texts(orch: &OrchestratorResult, existing_funny: &Option<String>) -> (t: OutcomeTexts)
    ensures
        t.sentence@ == orch.sentence@,
        opt_text(t.english_sentence) == spec_nonempty(orch.english_sentence@),
        opt_text(t.theme_explanation) == spec_nonempty(orch.theme_explanation@),
        opt_text(t.funny_summary) == if is_blank(orch.funny_summary@) {
            opt_text(*existing_funny)
        } else {
            Some(trim(orch.funny_summary@))
        },
{
    let funny = match trimmed_nonblank(orch.funny_summary.as_str()) {
        Some(f) => Some(f),
        None => clone_opt_text(existing_funny),
    };
    OutcomeTexts {
        sentence: orch.sentence.clone(),
        funny_summary: funny,
        english_sentence: nonempty_text(orch.english_sentence.as_str()),
        theme_explanation: nonempty_text(orch.theme_explanation.as_str()),
    }
}

/// The mood of a regenerated sentence: the requested one; without a
/// request, the stored one; without either, the mood inferred from the
/// day's behaviour.
pub fn resolve_mood(requested: &str, stored: &Option<String>, inferred: &str) -> (m: Option<String>)
    ensures
        requested@.len() > 0 ==> opt_text(m) == Some(requested@),
        requested@.len() == 0 ==> opt_text(m) == match *stored {
            Some(s) => Some(s@),
            None => Some(inferred@),
        },
{
    if !requested.is_empty() {
        return Some(String::from_str(requested));
    }
    match stored {
        Some(s) => Some(s.clone()),
        None => Some(String::from_str(inferred)),
    }
}

/// The first of two optional texts that is present.
pub fn first_present_text(a: &Option<String>, b: &Option<String>) -> (r: Option<String>)
    ensures
        opt_text(r) == if a.is_some() { opt_text(*a) } else { opt_text(*b) },
{
    match a {
        Some(s) => Some(s.clone()),
        None => clone_opt_text(b),
    }
}

/// The prompts of a generation: the orchestrator's music and picture
/// descriptions with the day's mood, style and theme word.
pub fn prompts_for(orch: &OrchestratorResult, mood: &Option<String>, style: &str, theme_word: &str) -> (p: (MusicPrompt, ArtPrompt))
    ensures
        p.0.events@.len() == 0 && p.1.events@.len() == 0,
        opt_text(p.0.mood) == opt_text(*mood) && opt_text(p.1.mood) == opt_text(*mood),
        p.0.style@ == style@ && p.1.style@ == style@,
        p.0.theme_word@ == theme_word@ && p.1.theme_word@ == theme_word@,
        opt_text(p.0.description) == Some(orch.music_description@),
        opt_text(p.1.description) == Some(orch.image_description@),
{
    let music = MusicPrompt {
        events: Vec::new(),
        mood: clone_opt_text(mood),
        style: String::from_str(style),
        theme_word: String::from_str(theme_word),
        description: Some(orch.music_description.clone()),
    };
    let art = ArtPrompt {
        events: Vec::new(),
        mood: clone_opt_text(mood),
        style: String::from_str(style),
        theme_word: String::from_str(theme_word),
        description: Some(orch.image_description.clone()),
    };
    (music, art)
}

/// The English sentence of a share card: the one just produced on screen
/// when it is not blank, else the stored one, else empty.
pub fn share_english_sentence(from_screen: &Option<String>, stored: &Option<String>) -> (s: String)
    ensures
        s@ == match *from_screen {
            Some(f) if !is_blank(f@) => f@,
            _ => match *stored {
                Some(t) => t@,
                None => Seq::empty(),
            },
        },
{
    if let Some(f) = from_screen {
        if !str_is_blank(f.as_str()) {
            return f.clone();
        }
    }
    match stored {
        Some(t) => t.clone(),
        None => String::new(),
    }
}

/// The label of the day's most used key: its display name, or a dash
/// when no key was pressed.
pub fn top1_key_label(top_keys: &[(u32, usize)]) -> (s: String)
    ensures
        s@ == if top_keys@.len() > 0 { spec_key_display_name(top_keys@[0].0) } else { "—"@ },
{
    if top_keys.len() > 0 {
        key_display_name(top_keys[0].0)
    } else {
        String::from_str("—")
    }
}

/// The media links of a share page: both uploads must have succeeded.
pub fn share_links(wav_url: Option<String>, png_url: Option<String>) -> (r: Option<(String, String)>)
    ensures
        match (wav_url, png_url) {
            (Some(w), Some(p)) => r == Some((w, p)),
            _ => r is None,
        },
{
    match (wav_url, png_url) {
        (Some(w), Some(p)) => Some((w, p)),
        _ => None,
    }
}

/// The first candidate marked present, if any (font discovery).
pub fn first_present(present: &[bool]) -> (r: Option<usize>)
    ensures
        match r {
            Some(i) => i < present@.len() && present@[i as int]
                && forall|j: int| 0 <= j < i ==> !present@[j],
            None => forall|j: int| 0 <= j < present@.len() ==> !present@[j],
        },
{
    let mut i: usize = 0;
    while i < present.len()
        invariant
            i <= present@.len(),
            forall|j: int| 0 <= j < i ==> !present@[j],
        decreases present@.len() - i,
    {
        if present[i] {
            return Some(i);
        }
        i = i + 1;
    }
    None
}

} // verus!
