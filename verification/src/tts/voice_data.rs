//! Voice data definitions for the text-to-speech application.

use vstd::prelude::*;
use vstd::string::*;

verus! {

/// Voice category.
#[derive(Clone, Copy, Debug, PartialEq, Eq, Structural)]
pub enum VoiceCategory {
    Male,
    Female,
    Character,
}

impl VoiceCategory {
    /// The category's name as the user interface shows it.
    pub open spec fn label(self) -> Seq<char> {
        match self {
            VoiceCategory::Male => "Male"@,
            VoiceCategory::Female => "Female"@,
            VoiceCategory::Character => "Character"@,
        }
    }

    /// The category's name as the user interface shows it.
    pub fn as_str(&self) -> (name: &'static str)
        ensures
            name@ == self.label(),
    {
        match self {
            VoiceCategory::Male => "Male",
            VoiceCategory::Female => "Female",
            VoiceCategory::Character => "Character",
        }
    }
}

/// Voice information.
#[derive(Clone, Debug)]
pub struct Voice {
    /// Unique voice ID.
    pub id: String,
    /// Display name.
    pub name: String,
    /// Description.
    pub description: String,
    /// Voice style/category.
    pub category: VoiceCategory,
    /// Preview audio file path (optional).
    pub preview_audio: Option<String>,
}

/// A [`Voice`] with its texts as character sequences.
pub ghost struct VoiceView {
    pub id: Seq<char>,
    pub name: Seq<char>,
    pub description: Seq<char>,
    pub category: VoiceCategory,
    pub preview_audio: Option<Seq<char>>,
}

impl DeepView for Voice {
    type V = VoiceView;

    open spec fn deep_view(&self) -> VoiceView {
        VoiceView {
            id: self.id@,
            name: self.name@,
            description: self.description@,
            category: self.category,
            preview_audio: match self.preview_audio {
                Some(path) => Some(path@),
                None => None,
            },
        }
    }
}

/// A built-in voice: one without preview audio.
pub open spec fn builtin(
    id: Seq<char>,
    name: Seq<char>,
    description: Seq<char>,
    category: VoiceCategory,
) -> VoiceView {
    VoiceView { id, name, description, category, preview_audio: None }
}

/// The built-in voices, in the order in which the voice selector lists them:
/// the Chinese voices first, then the English ones.
pub open spec fn builtin_voices() -> Seq<VoiceView> {
    seq![
        builtin(
            "zm_yunjian"@,
            "云剑 (Yunjian)"@,
            "Chinese male - wise and clear articulation"@,
            VoiceCategory::Male,
        ),
        builtin(
            "zf_xiaoxiao"@,
            "小小 (Xiaoxiao)"@,
            "Chinese female - sweet and expressive"@,
            VoiceCategory::Female,
        ),
        builtin(
            "zm_yunxi"@,
            "云希 (Yunxi)"@,
            "Chinese male - confident broadcaster tone"@,
            VoiceCategory::Male,
        ),
        builtin(
            "zm_yunyang"@,
            "云扬 (Yunyang)"@,
            "Chinese male - young and energetic"@,
            VoiceCategory::Male,
        ),
        builtin(
            "zf_xiaoni"@,
            "小妮 (Xiaoni)"@,
            "Chinese female - warm narrative voice"@,
            VoiceCategory::Female,
        ),
        builtin(
            "zf_xiaoyi"@,
            "小艺 (Xiaoyi)"@,
            "Chinese female - professional and authoritative"@,
            VoiceCategory::Female,
        ),
        builtin(
            "af_heart"@,
            "Heart"@,
            "American female - warm and friendly"@,
            VoiceCategory::Female,
        ),
        builtin(
            "af_bella"@,
            "Bella"@,
            "American female - popular and expressive"@,
            VoiceCategory::Female,
        ),
        builtin(
            "am_adam"@,
            "Adam"@,
            "American male - clear and professional"@,
            VoiceCategory::Male,
        ),
        builtin(
            "am_michael"@,
            "Michael"@,
            "American male - natural and versatile"@,
            VoiceCategory::Male,
        ),
        builtin(
            "bf_emma"@,
            "Emma"@,
            "British female - elegant and refined"@,
            VoiceCategory::Female,
        ),
        builtin(
            "bm_george"@,
            "George"@,
            "British male - distinguished and articulate"@,
            VoiceCategory::Male,
        ),
    ]
}

fn make_builtin(id: &str, name: &str, description: &str, category: VoiceCategory) -> (voice: Voice)
    ensures
        voice.deep_view() == builtin(id@, name@, description@, category),
{
    Voice {
        id: String::from_str(id),
        name: String::from_str(name),
        description: String::from_str(description),
        category,
        preview_audio: None,
    }
}

/// Get built-in voices.
pub fn get_builtin_voices() -> (voices: Vec<Voice>)
    ensures
        voices.deep_view() == builtin_voices(),
{
    let mut voices: Vec<Voice> = Vec::new();
    // Chinese voices
    voices.push(
        make_builtin(
            "zm_yunjian",
            "云剑 (Yunjian)",
            "Chinese male - wise and clear articulation",
            VoiceCategory::Male,
        ),
    );
    voices.push(
        make_builtin(
            "zf_xiaoxiao",
            "小小 (Xiaoxiao)",
            "Chinese female - sweet and expressive",
            VoiceCategory::Female,
        ),
    );
    voices.push(
        make_builtin(
            "zm_yunxi",
            "云希 (Yunxi)",
            "Chinese male - confident broadcaster tone",
            VoiceCategory::Male,
        ),
    );
    voices.push(
        make_builtin(
            "zm_yunyang",
            "云扬 (Yunyang)",
            "Chinese male - young and energetic",
            VoiceCategory::Male,
        ),
    );
    voices.push(
        make_builtin(
            "zf_xiaoni",
            "小妮 (Xiaoni)",
            "Chinese female - warm narrative voice",
            VoiceCategory::Female,
        ),
    );
    voices.push(
        make_builtin(
            "zf_xiaoyi",
            "小艺 (Xiaoyi)",
            "Chinese female - professional and authoritative",
            VoiceCategory::Female,
        ),
    );
    // English voices
    voices.push(
        make_builtin(
            "af_heart",
            "Heart",
            "American female - warm and friendly",
            VoiceCategory::Female,
        ),
    );
    voices.push(
        make_builtin(
            "af_bella",
            "Bella",
            "American female - popular and expressive",
            VoiceCategory::Female,
        ),
    );
    voices.push(
        make_builtin(
            "am_adam",
            "Adam",
            "American male - clear and professional",
            VoiceCategory::Male,
        ),
    );
    voices.push(
        make_builtin(
            "am_michael",
            "Michael",
            "American male - natural and versatile",
            VoiceCategory::Male,
        ),
    );
    voices.push(
        make_builtin(
            "bf_emma",
            "Emma",
            "British female - elegant and refined",
            VoiceCategory::Female,
        ),
    );
    voices.push(
        make_builtin(
            "bm_george",
            "George",
            "British male - distinguished and articulate",
            VoiceCategory::Male,
        ),
    );
    assert(voices.deep_view() =~= builtin_voices());
    voices
}

/// TTS generation status.
#[derive(Clone, Debug, PartialEq)]
pub enum TTSStatus {
    Idle,
    Generating,
    Ready,
    Playing,
    Error(String),
}

impl Default for TTSStatus {
    /// A screen starts out idle.
    fn default() -> (status: TTSStatus)
        ensures
            status is Idle,
    {
        TTSStatus::Idle
    }
}

} // verus!
