//! The generation products (music and art metadata with their raw bytes),
//! the prompts fed to the media models, and the adapters that turn an
//! orchestrator description into a model request and the model's reply
//! into a product.

use vstd::prelude::*;
use vstd::string::StringExecFns;
use crate::event::KeyEvent;

verus! {

/// Number of amplitude samples that a piece of music carries.
pub const AMPLITUDE_SAMPLE_COUNT: usize = 64;

/// Input of a music adapter.
#[derive(Debug, Clone)]
pub struct MusicPrompt {
    pub events: Vec<KeyEvent>,
    pub mood: Option<String>,
    pub style: String,
    pub theme_word: String,
    /// The orchestrator's description of the music, if there is one.
    pub description: Option<String>,
}

/// Input of an art adapter.
#[derive(Debug, Clone)]
pub struct ArtPrompt {
    pub events: Vec<KeyEvent>,
    pub mood: Option<String>,
    pub style: String,
    pub theme_word: String,
    /// The orchestrator's description of the picture, if there is one.
    pub description: Option<String>,
}

/// Metadata of a generated picture; the picture itself is a PNG file.
#[derive(Debug, Clone, PartialEq, Eq)]
pub struct Art {
    pub theme_word: String,
    pub mood: Option<String>,
    pub description: String,
    pub model: String,
}

/// A generated picture: metadata and PNG bytes.
#[derive(Debug, Clone)]
pub struct ArtOutcome {
    pub art: Art,
    pub png: Vec<u8>,
}

/// Metadata of a generated piece of music, without its amplitude
/// envelope (which is measured from the audio afterwards).
#[derive(Debug, Clone, PartialEq, Eq)]
pub struct MusicMeta {
    pub bpm: u32,
    pub duration_ms: u64,
    pub mood: Option<String>,
    pub style: String,
    pub theme_word: String,
    pub description: String,
    pub model: String,
}

/// A generated piece of music: metadata and the audio bytes.
#[derive(Debug, Clone)]
pub struct MusicOutcome {
    pub music: MusicMeta,
    pub wav: Vec<u8>,
}

/// The view of optional text.
pub open spec fn opt_text(o: Option<String>) -> Option<Seq<char>> {
    match o {
        Some(s) => Some(s@),
        None => None,
    }
}

/// Clones optional text.
pub fn clone_opt_text(o: &Option<String>) -> (r: Option<String>)
    ensures
        opt_text(r) == opt_text(*o),
{
    match o {
        Some(s) => Some(s.clone()),
        None => None,
    }
}

/// A media adapter split at its model call: `request` gives the text to
/// send to the model (or the error that stops the generation), `complete`
/// gives the product from the model's reply.
pub trait ArtAdapter {
    fn name(&self) -> &'static str;
    fn request(&self, prompt: &ArtPrompt) -> Result<String, String>;
    fn complete(&self, prompt: &ArtPrompt, reply: Result<Vec<u8>, String>) -> Result<ArtOutcome, String>;
}

/// A music adapter split at its model call (see [`ArtAdapter`]).
pub trait MusicAdapter {
    fn name(&self) -> &'static str;
    fn request(&self, prompt: &MusicPrompt) -> Result<String, String>;
    fn complete(&self, prompt: &MusicPrompt, reply: Result<Vec<u8>, String>) -> Result<MusicOutcome, String>;
}

/// Error text when the art prompt has no description.
pub open spec fn art_missing_description() -> Seq<char> {
    "ArtAdapter: prompt.description 缺失（编排器未产出，无法调模型）"@
}

/// Error text when the music prompt has no description.
pub open spec fn music_missing_description() -> Seq<char> {
    "MusicAdapter: prompt.description 缺失（编排器未产出，无法调模型）"@
}

/// Error text when the image model failed.
pub open spec fn art_model_failure(model: Seq<char>, e: Seq<char>) -> Seq<char> {
    "ModelArtAdapter: ImageClient("@ + model + ") 生成失败: "@ + e
}

/// Error text when the audio model failed.
pub open spec fn music_model_failure(model: Seq<char>, e: Seq<char>) -> Seq<char> {
    "ModelMusicAdapter: AudioClient("@ + model + ") 生成失败: "@ + e
}

/// The adapter that feeds the orchestrator's picture description to an
/// image model and passes its PNG bytes through.
#[derive(Debug, Clone)]
pub struct ModelArtAdapter {
    model: String,
}

impl ModelArtAdapter {
    /// An adapter that records `model` as the producer of its pictures.
    pub fn new(model: &str) -> (a: Self)
        ensures
            a.model_name() == model@,
    {
        ModelArtAdapter { model: String::from_str(model) }
    }

    /// The recorded model name.
    pub closed spec fn model_name(&self) -> Seq<char> {
        self.model@
    }

    /// The recorded model name.
    pub fn model(&self) -> (m: &str)
        ensures
            m@ == self.model_name(),
    {
        self.model.as_str()
    }
}

/// Builds an art adapter for `model`.
pub fn build_model_art_adapter(model: &str) -> (a: ModelArtAdapter)
    ensures
        a.model_name() == model@,
{
    ModelArtAdapter::new(model)
}

impl ArtAdapter for ModelArtAdapter {
    fn name(&self) -> (n: &'static str)
        ensures
            n@ == "model"@,
    {
        "model"
    }

    /// The description to draw; its absence stops the generation.
    fn request(&self, prompt: &ArtPrompt) -> (r: Result<String, String>)
        ensures
            match prompt.description {
                Some(d) => r matches Ok(t) && t@ == d@,
                None => r matches Err(e) && e@ == art_missing_description(),
            },
    {
        match &prompt.description {
            Some(d) => Ok(d.clone()),
            None => Err(String::from_str("ArtAdapter: prompt.description 缺失（编排器未产出，无法调模型）")),
        }
    }

    /// The picture: the prompt's theme word, mood and description, this
    /// adapter's model, and the model's PNG bytes unchanged.
    fn complete(&self, prompt: &ArtPrompt, reply: Result<Vec<u8>, String>) -> (r: Result<ArtOutcome, String>)
        ensures
            match (prompt.description, reply) {
                (None, _) => r matches Err(e) && e@ == art_missing_description(),
                (Some(_), Err(e)) => r matches Err(m) && m@ == art_model_failure(self.model_name(), e@),
                (Some(d), Ok(png)) => r matches Ok(o) && o.png == png
                    && o.art.theme_word@ == prompt.theme_word@
                    && opt_text(o.art.mood) == opt_text(prompt.mood)
                    && o.art.description@ == d@
                    && o.art.model@ == self.model_name(),
            },
    {
        let d = match &prompt.description {
            Some(d) => d,
            None => return Err(String::from_str("ArtAdapter: prompt.description 缺失（编排器未产出，无法调模型）")),
        };
        match reply {
            Err(e) => {
                let mut m = String::from_str("ModelArtAdapter: ImageClient(");
                m.append(self.model.as_str());
                m.append(") 生成失败: ");
                m.append(e.as_str());
                Err(m)
            },
            Ok(png) => Ok(ArtOutcome {
                art: Art {
                    theme_word: prompt.theme_word.clone(),
                    mood: clone_opt_text(&prompt.mood),
                    description: d.clone(),
                    model: self.model.clone(),
                },
                png,
            }),
        }
    }
}

/// The adapter that feeds the orchestrator's music description to an
/// audio model and passes its audio bytes through.
#[derive(Debug, Clone)]
pub struct ModelMusicAdapter {
    model: String,
}

impl ModelMusicAdapter {
    /// An adapter that records `model` as the producer of its music.
    pub fn new(model: &str) -> (a: Self)
        ensures
            a.model_name() == model@,
    {
        ModelMusicAdapter { model: String::from_str(model) }
    }

    /// The recorded model name.
    pub closed spec fn model_name(&self) -> Seq<char> {
        self.model@
    }

    /// The recorded model name.
    pub fn model(&self) -> (m: &str)
        ensures
            m@ == self.model_name(),
    {
        self.model.as_str()
    }
}

/// Builds a music adapter for `model`.
pub fn build_model_music_adapter(model: &str) -> (a: ModelMusicAdapter)
    ensures
        a.model_name() == model@,
{
    ModelMusicAdapter::new(model)
}

impl MusicAdapter for ModelMusicAdapter {
    fn name(&self) -> (n: &'static str)
        ensures
            n@ == "model"@,
    {
        "model"
    }

    /// The description to play; its absence stops the generation.
    fn request(&self, prompt: &MusicPrompt) -> (r: Result<String, String>)
        ensures
            match prompt.description {
                Some(d) => r matches Ok(t) && t@ == d@,
                None => r matches Err(e) && e@ == music_missing_description(),
            },
    {
        match &prompt.description {
            Some(d) => Ok(d.clone()),
            None => Err(String::from_str("MusicAdapter: prompt.description 缺失（编排器未产出，无法调模型）")),
        }
    }

    /// The music: tempo and duration left at 0 for the later audio
    /// analysis, the prompt's mood, style, theme word and description, this
    /// adapter's model, and the model's audio bytes unchanged.
    fn complete(&self, prompt: &MusicPrompt, reply: Result<Vec<u8>, String>) -> (r: Result<MusicOutcome, String>)
        ensures
            match (prompt.description, reply) {
                (None, _) => r matches Err(e) && e@ == music_missing_description(),
                (Some(_), Err(e)) => r matches Err(m) && m@ == music_model_failure(self.model_name(), e@),
                (Some(d), Ok(wav)) => r matches Ok(o) && o.wav == wav
                    && o.music.bpm == 0 && o.music.duration_ms == 0
                    && opt_text(o.music.mood) == opt_text(prompt.mood)
                    && o.music.style@ == prompt.style@
                    && o.music.theme_word@ == prompt.theme_word@
                    && o.music.description@ == d@
                    && o.music.model@ == self.model_name(),
            },
    {
        let d = match &prompt.description {
            Some(d) => d,
            None => return Err(String::from_str("MusicAdapter: prompt.description 缺失（编排器未产出，无法调模型）")),
        };
        match reply {
            Err(e) => {
                let mut m = String::from_str("ModelMusicAdapter: AudioClient(");
                m.append(self.model.as_str());
                m.append(") 生成失败: ");
                m.append(e.as_str());
                Err(m)
            },
            Ok(wav) => Ok(MusicOutcome {
                music: MusicMeta {
                    bpm: 0,
                    duration_ms: 0,
                    mood: clone_opt_text(&prompt.mood),
                    style: prompt.style.clone(),
                    theme_word: prompt.theme_word.clone(),
                    description: d.clone(),
                    model: self.model.clone(),
                },
                wav,
            }),
        }
    }
}

} // verus!
