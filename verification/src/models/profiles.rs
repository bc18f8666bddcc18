//! User profiles (the `profiles` table).

use vstd::prelude::*;

verus! {

/// A user's profile.
#[derive(Clone, Debug)]
pub struct Profile {
    id: i32,
    name: String,
    upload_schedule: String,
    paused: bool,
    question_prompt: String,
    answer_prompt: String,
    background_glob: String,
    voice_name: String,
    font_name: String,
}

/// The values of a profile.
pub struct ProfileView {
    pub id: i32,
    pub name: Seq<char>,
    pub upload_schedule: Seq<char>,
    pub paused: bool,
    pub question_prompt: Seq<char>,
    pub answer_prompt: Seq<char>,
    pub background_glob: Seq<char>,
    pub voice_name: Seq<char>,
    pub font_name: Seq<char>,
}

impl View for Profile {
    type V = ProfileView;

    closed spec fn view(&self) -> ProfileView {
        ProfileView {
            id: self.id,
            name: self.name@,
            upload_schedule: self.upload_schedule@,
            paused: self.paused,
            question_prompt: self.question_prompt@,
            answer_prompt: self.answer_prompt@,
            background_glob: self.background_glob@,
            voice_name: self.voice_name@,
            font_name: self.font_name@,
        }
    }
}

impl Profile {
    /// A profile holding the given values.
    pub fn new(
        id: i32,
        name: String,
        upload_schedule: String,
        paused: bool,
        question_prompt: String,
        answer_prompt: String,
        background_glob: String,
        voice_name: String,
        font_name: String,
    ) -> (profile: Self)
        ensures
            profile@ == (ProfileView {
                id: id,
                name: name@,
                upload_schedule: upload_schedule@,
                paused: paused,
                question_prompt: question_prompt@,
                answer_prompt: answer_prompt@,
                background_glob: background_glob@,
                voice_name: voice_name@,
                font_name: font_name@,
            }),
    {
        Profile { id, name, upload_schedule, paused, question_prompt, answer_prompt, background_glob, voice_name, font_name }
    }

    /// The profile ID.
    pub fn id(&self) -> (id: i32)
        ensures
            id == self@.id,
    {
        self.id
    }

    /// The profile name, a human-readable identifier with no operational effect.
    pub fn name(&self) -> (name: &str)
        ensures
            name@ == self@.name,
    {
        self.name.as_str()
    }

    /// The cron expression used to populate the next run time.
    pub fn upload_schedule(&self) -> (upload_schedule: &str)
        ensures
            upload_schedule@ == self@.upload_schedule,
    {
        self.upload_schedule.as_str()
    }

    /// Whether scheduled runs are suppressed.
    pub fn paused(&self) -> (paused: bool)
        ensures
            paused == self@.paused,
    {
        self.paused
    }

    /// The prompt used to generate a question.
    pub fn question_prompt(&self) -> (question_prompt: &str)
        ensures
            question_prompt@ == self@.question_prompt,
    {
        self.question_prompt.as_str()
    }

    /// The prompt used to answer the question.
    pub fn answer_prompt(&self) -> (answer_prompt: &str)
        ensures
            answer_prompt@ == self@.answer_prompt,
    {
        self.answer_prompt.as_str()
    }

    /// The glob filter selecting backgrounds from the storage provider.
    pub fn background_glob(&self) -> (background_glob: &str)
        ensures
            background_glob@ == self@.background_glob,
    {
        self.background_glob.as_str()
    }

    /// The voice identifier used by the TTS provider.
    pub fn voice_name(&self) -> (voice_name: &str)
        ensures
            voice_name@ == self@.voice_name,
    {
        self.voice_name.as_str()
    }

    /// The font name (Google Fonts identifier) for captions.
    pub fn font_name(&self) -> (font_name: &str)
        ensures
            font_name@ == self@.font_name,
    {
        self.font_name.as_str()
    }
}

} // verus!
