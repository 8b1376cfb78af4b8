//! Voice data definitions for the PrimeSpeech application.

use vstd::prelude::*;
use vstd::string::*;

verus! {

/// Voice category.
#[derive(Clone, Copy, Debug, PartialEq, Eq, Structural)]
pub enum VoiceCategory {
    Male,
    Female,
    Character,
}

impl VoiceCategory {
    /// The category's name as the user interface shows it.
    pub open spec fn label(self) -> Seq<char> {
        match self {
            VoiceCategory::Male => "Male"@,
            VoiceCategory::Female => "Female"@,
            VoiceCategory::Character => "Character"@,
        }
    }

    /// The category's name as the user interface shows it.
    pub fn as_str(&self) -> (name: &'static str)
        ensures
            name@ == self.label(),
    {
        match self {
            VoiceCategory::Male => "Male",
            VoiceCategory::Female => "Female",
            VoiceCategory::Character => "Character",
        }
    }
}

/// Voice information.
#[derive(Clone, Debug)]
pub struct Voice {
    /// Unique voice ID, the name under which the speech engine knows the
    /// voice.
    pub id: String,
    /// Display name.
    pub name: String,
    /// Description.
    pub description: String,
    /// Voice style/category.
    pub category: VoiceCategory,
    /// Language (zh, en).
    pub language: String,
    /// Preview audio file path (optional).
    pub preview_audio: Option<String>,
}

/// A [`Voice`] with its texts as character sequences.
pub ghost struct VoiceView {
    pub id: Seq<char>,
    pub name: Seq<char>,
    pub description: Seq<char>,
    pub category: VoiceCategory,
    pub language: Seq<char>,
    pub preview_audio: Option<Seq<char>>,
}

impl DeepView for Voice {
    type V = VoiceView;

    open spec fn deep_view(&self) -> VoiceView {
        VoiceView {
            id: self.id@,
            name: self.name@,
            description: self.description@,
            category: self.category,
            language: self.language@,
            preview_audio: match self.preview_audio {
                Some(path) => Some(path@),
                None => None,
            },
        }
    }
}

/// A built-in voice: one without preview audio.
pub open spec fn builtin(
    id: Seq<char>,
    name: Seq<char>,
    description: Seq<char>,
    category: VoiceCategory,
    language: Seq<char>,
) -> VoiceView {
    VoiceView { id, name, description, category, language, preview_audio: None }
}

/// The built-in voices, in the order in which the voice selector lists them:
/// the Chinese voices first, then the English ones.
pub open spec fn builtin_voices() -> Seq<VoiceView> {
    seq![
        builtin(
            "Doubao"@,
            "豆包 (Doubao)"@,
            "Chinese - mixed style, natural and expressive"@,
            VoiceCategory::Character,
            "zh"@,
        ),
        builtin(
            "Luo Xiang"@,
            "罗翔 (Luo Xiang)"@,
            "Chinese male - law professor, articulate and thoughtful"@,
            VoiceCategory::Male,
            "zh"@,
        ),
        builtin(
            "Yang Mi"@,
            "杨幂 (Yang Mi)"@,
            "Chinese female - actress, sweet and charming"@,
            VoiceCategory::Female,
            "zh"@,
        ),
        builtin(
            "Zhou Jielun"@,
            "周杰伦 (Zhou Jielun)"@,
            "Chinese male - singer, unique and distinctive"@,
            VoiceCategory::Male,
            "zh"@,
        ),
        builtin(
            "Ma Yun"@,
            "马云 (Ma Yun)"@,
            "Chinese male - entrepreneur, confident speaker"@,
            VoiceCategory::Male,
            "zh"@,
        ),
        builtin(
            "Chen Yifan"@,
            "陈一凡 (Chen Yifan)"@,
            "Chinese male - analyst, professional tone"@,
            VoiceCategory::Male,
            "zh"@,
        ),
        builtin(
            "Zhao Daniu"@,
            "赵大牛 (Zhao Daniu)"@,
            "Chinese male - podcast host, engaging narrator"@,
            VoiceCategory::Male,
            "zh"@,
        ),
        builtin(
            "BYS"@,
            "BYS"@,
            "Chinese - casual and friendly"@,
            VoiceCategory::Character,
            "zh"@,
        ),
        builtin(
            "Ma Baoguo"@,
            "马保国 (Ma Baoguo)"@,
            "Chinese male - martial arts master, distinctive style"@,
            VoiceCategory::Male,
            "zh"@,
        ),
        builtin(
            "Shen Yi"@,
            "沈逸 (Shen Yi)"@,
            "Chinese male - professor, analytical tone"@,
            VoiceCategory::Male,
            "zh"@,
        ),
        builtin(
            "Maple"@,
            "Maple"@,
            "English female - storyteller, warm and gentle"@,
            VoiceCategory::Female,
            "en"@,
        ),
        builtin(
            "Cove"@,
            "Cove"@,
            "English male - commentator, clear and professional"@,
            VoiceCategory::Male,
            "en"@,
        ),
        builtin(
            "Ellen"@,
            "Ellen"@,
            "English female - talk show host, energetic"@,
            VoiceCategory::Female,
            "en"@,
        ),
        builtin(
            "Juniper"@,
            "Juniper"@,
            "English female - narrator, calm and soothing"@,
            VoiceCategory::Female,
            "en"@,
        ),
        builtin(
            "Trump"@,
            "Trump"@,
            "English male - distinctive speaking style"@,
            VoiceCategory::Male,
            "en"@,
        ),
    ]
}

fn make_builtin(
    id: &str,
    name: &str,
    description: &str,
    category: VoiceCategory,
    language: &str,
) -> (voice: Voice)
    ensures
        voice.deep_view() == builtin(id@, name@, description@, category, language@),
{
    Voice {
        id: String::from_str(id),
        name: String::from_str(name),
        description: String::from_str(description),
        category,
        language: String::from_str(language),
        preview_audio: None,
    }
}

/// Get built-in voices for PrimeSpeech.
pub fn get_builtin_voices() -> (voices: Vec<Voice>)
    ensures
        voices.deep_view() == builtin_voices(),
{
    let mut voices: Vec<Voice> = Vec::new();
    // Chinese voices
    voices.push(
        make_builtin(
            "Doubao",
            "豆包 (Doubao)",
            "Chinese - mixed style, natural and expressive",
            VoiceCategory::Character,
            "zh",
        ),
    );
    voices.push(
        make_builtin(
            "Luo Xiang",
            "罗翔 (Luo Xiang)",
            "Chinese male - law professor, articulate and thoughtful",
            VoiceCategory::Male,
            "zh",
        ),
    );
    voices.push(
        make_builtin(
            "Yang Mi",
            "杨幂 (Yang Mi)",
            "Chinese female - actress, sweet and charming",
            VoiceCategory::Female,
            "zh",
        ),
    );
    voices.push(
        make_builtin(
            "Zhou Jielun",
            "周杰伦 (Zhou Jielun)",
            "Chinese male - singer, unique and distinctive",
            VoiceCategory::Male,
            "zh",
        ),
    );
    voices.push(
        make_builtin(
            "Ma Yun",
            "马云 (Ma Yun)",
            "Chinese male - entrepreneur, confident speaker",
            VoiceCategory::Male,
            "zh",
        ),
    );
    voices.push(
        make_builtin(
            "Chen Yifan",
            "陈一凡 (Chen Yifan)",
            "Chinese male - analyst, professional tone",
            VoiceCategory::Male,
            "zh",
        ),
    );
    voices.push(
        make_builtin(
            "Zhao Daniu",
            "赵大牛 (Zhao Daniu)",
            "Chinese male - podcast host, engaging narrator",
            VoiceCategory::Male,
            "zh",
        ),
    );
    voices.push(
        make_builtin(
            "BYS",
            "BYS",
            "Chinese - casual and friendly",
            VoiceCategory::Character,
            "zh",
        ),
    );
    voices.push(
        make_builtin(
            "Ma Baoguo",
            "马保国 (Ma Baoguo)",
            "Chinese male - martial arts master, distinctive style",
            VoiceCategory::Male,
            "zh",
        ),
    );
    voices.push(
        make_builtin(
            "Shen Yi",
            "沈逸 (Shen Yi)",
            "Chinese male - professor, analytical tone",
            VoiceCategory::Male,
            "zh",
        ),
    );
    // English voices
    voices.push(
        make_builtin(
            "Maple",
            "Maple",
            "English female - storyteller, warm and gentle",
            VoiceCategory::Female,
            "en",
        ),
    );
    voices.push(
        make_builtin(
            "Cove",
            "Cove",
            "English male - commentator, clear and professional",
            VoiceCategory::Male,
            "en",
        ),
    );
    voices.push(
        make_builtin(
            "Ellen",
            "Ellen",
            "English female - talk show host, energetic",
            VoiceCategory::Female,
            "en",
        ),
    );
    voices.push(
        make_builtin(
            "Juniper",
            "Juniper",
            "English female - narrator, calm and soothing",
            VoiceCategory::Female,
            "en",
        ),
    );
    voices.push(
        make_builtin(
            "Trump",
            "Trump",
            "English male - distinctive speaking style",
            VoiceCategory::Male,
            "en",
        ),
    );
    assert(voices.deep_view() =~= builtin_voices());
    voices
}

/// TTS generation status.
#[derive(Clone, Debug, PartialEq)]
pub enum TTSStatus {
    Idle,
    Generating,
    Ready,
    Playing,
    Error(String),
}

impl Default for TTSStatus {
    /// A screen starts out idle.
    fn default() -> (status: TTSStatus)
        ensures
            status is Idle,
    {
        TTSStatus::Idle
    }
}

} // verus!
