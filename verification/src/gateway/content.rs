//! Parts of messages.
use vstd::prelude::*;

verus! {

/// A number in IEEE 754 double precision, held as its bits.
#[derive(Clone, Copy, Debug, PartialEq, Eq, Structural, Hash)]
pub struct Real {
    pub bits: u64,
}

/// A part of what is sent to a model.
#[derive(Clone, Debug, PartialEq, Eq)]
pub enum InputContentPart {
    InputText(InputText),
    InputImage(InputImage),
    InputAudio(InputAudio),
    InputVideo(InputVideo),
    InputFile(InputFile),
}

/// Text for a model.
#[derive(Clone, Debug, PartialEq, Eq)]
pub struct InputText {
    pub text: String,
}

/// An image for a model.
#[derive(Clone, Debug, PartialEq, Eq)]
pub struct InputImage {
    pub image_url: Option<String>,
    pub file_id: Option<String>,
    pub detail: Option<ImageDetail>,
}

/// Sound for a model.
#[derive(Clone, Debug, PartialEq, Eq)]
pub struct InputAudio {
    pub url: Option<String>,
    pub data: Option<String>,
    pub format: Option<AudioFormat>,
}

/// A film for a model.
#[derive(Clone, Debug, PartialEq, Eq)]
pub struct InputVideo {
    pub url: Option<String>,
    pub file_id: Option<String>,
}

/// A file for a model.
#[derive(Clone, Debug, PartialEq, Eq)]
pub struct InputFile {
    pub filename: Option<String>,
    pub file_data: Option<String>,
    pub file_url: Option<String>,
    pub file_id: Option<String>,
}

/// How closely a model looks at an image.
#[derive(Clone, Copy, Debug, PartialEq, Eq, Structural)]
pub enum ImageDetail {
    Low,
    High,
    Auto,
}

/// The format of sound.
#[derive(Clone, Copy, Debug, PartialEq, Eq, Structural)]
pub enum AudioFormat {
    Wav,
    Mp3,
    Flac,
    Opus,
    Pcm16,
}

/// A part of what a model answers.
#[derive(Clone, Debug, PartialEq, Eq)]
pub enum OutputContentPart {
    OutputText(OutputText),
    Refusal(Refusal),
}

/// Text from a model.
#[derive(Clone, Debug, PartialEq, Eq)]
pub struct OutputText {
    pub text: String,
    pub annotations: Vec<Annotation>,
    pub logprobs: Option<Vec<LogProb>>,
}

/// A model's refusal to answer.
#[derive(Clone, Debug, PartialEq, Eq)]
pub struct Refusal {
    pub refusal: String,
}

/// A note on a stretch of text.
#[derive(Clone, Debug, PartialEq, Eq)]
pub enum Annotation {
    UrlCitation { url: String, title: String, start_index: u32, end_index: u32 },
}

/// How likely a token was, and which others were considered.
#[derive(Clone, Debug, PartialEq, Eq)]
pub struct LogProb {
    pub token: String,
    pub logprob: Real,
    pub bytes: Vec<u8>,
    pub top_logprobs: Vec<TopLogProb>,
}

/// How likely a token was that was considered.
#[derive(Clone, Debug, PartialEq, Eq)]
pub struct TopLogProb {
    pub token: String,
    pub logprob: Real,
    pub bytes: Vec<u8>,
}

} // verus!
