//! A generated question and its answer.

use vstd::prelude::*;

verus! {

/// The text endpoint for generating a question; `$PROMPT` is replaced by
/// the prompt.
pub const GEMINI_URL: &'static str = "https://gemin-rest.vercel.app/api/ai?prompt=$PROMPT";

/// A generated question ("prompt") and its answer.
#[derive(PartialEq, PartialOrd, Hash, Clone, Debug)]
pub struct VideoText {
    prompt: String,
    answer: String,
}

/// The values of a video text.
pub struct VideoTextView {
    pub prompt: Seq<char>,
    pub answer: Seq<char>,
}

impl View for VideoText {
    type V = VideoTextView;

    closed spec fn view(&self) -> VideoTextView {
        VideoTextView { prompt: self.prompt@, answer: self.answer@ }
    }
}

impl VideoText {
    /// A video text holding the given question and answer.
    pub fn new(prompt: String, answer: String) -> (text: Self)
        ensures
            text@ == (VideoTextView { prompt: prompt@, answer: answer@ }),
    {
        VideoText { prompt, answer }
    }

    /// The question.
    pub fn prompt(&self) -> (prompt: &str)
        ensures
            prompt@ == self@.prompt,
    {
        self.prompt.as_str()
    }

    /// The answer.
    pub fn answer(&self) -> (answer: &str)
        ensures
            answer@ == self@.answer,
    {
        self.answer.as_str()
    }
}

} // verus!
