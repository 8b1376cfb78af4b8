use mofa_apps::primespeech::voice_data as primespeech;
use mofa_apps::tts::voice_data as tts;

#[test]
fn tts_category_names() {
    assert_eq!(tts::VoiceCategory::Male.as_str(), "Male");
    assert_eq!(tts::VoiceCategory::Female.as_str(), "Female");
    assert_eq!(tts::VoiceCategory::Character.as_str(), "Character");
}

#[test]
fn primespeech_category_names() {
    assert_eq!(primespeech::VoiceCategory::Male.as_str(), "Male");
    assert_eq!(primespeech::VoiceCategory::Female.as_str(), "Female");
    assert_eq!(primespeech::VoiceCategory::Character.as_str(), "Character");
}

#[test]
fn tts_builtin_voices() {
    let voices = tts::get_builtin_voices();
    let ids: Vec<&str> = voices.iter().map(|v| v.id.as_str()).collect();
    assert_eq!(
        ids,
        vec![
            "zm_yunjian",
            "zf_xiaoxiao",
            "zm_yunxi",
            "zm_yunyang",
            "zf_xiaoni",
            "zf_xiaoyi",
            "af_heart",
            "af_bella",
            "am_adam",
            "am_michael",
            "bf_emma",
            "bm_george",
        ]
    );
    assert!(voices.iter().all(|v| v.preview_audio.is_none()));
    assert_eq!(voices[0].name, "云剑 (Yunjian)");
    assert_eq!(voices[0].description, "Chinese male - wise and clear articulation");
    assert_eq!(voices[0].category, tts::VoiceCategory::Male);
    assert_eq!(voices[1].category, tts::VoiceCategory::Female);
    assert_eq!(voices[11].name, "George");
    assert_eq!(voices[11].description, "British male - distinguished and articulate");
    assert_eq!(voices[11].category, tts::VoiceCategory::Male);
    let females = voices.iter().filter(|v| v.category == tts::VoiceCategory::Female).count();
    assert_eq!(females, 6);
}

#[test]
fn primespeech_builtin_voices() {
    let voices = primespeech::get_builtin_voices();
    let ids: Vec<&str> = voices.iter().map(|v| v.id.as_str()).collect();
    assert_eq!(
        ids,
        vec![
            "Doubao",
            "Luo Xiang",
            "Yang Mi",
            "Zhou Jielun",
            "Ma Yun",
            "Chen Yifan",
            "Zhao Daniu",
            "BYS",
            "Ma Baoguo",
            "Shen Yi",
            "Maple",
            "Cove",
            "Ellen",
            "Juniper",
            "Trump",
        ]
    );
    assert!(voices.iter().all(|v| v.preview_audio.is_none()));
    let languages: Vec<&str> = voices.iter().map(|v| v.language.as_str()).collect();
    assert_eq!(&languages[..10], &["zh"; 10]);
    assert_eq!(&languages[10..], &["en"; 5]);
    assert_eq!(voices[0].name, "豆包 (Doubao)");
    assert_eq!(voices[0].description, "Chinese - mixed style, natural and expressive");
    assert_eq!(voices[0].category, primespeech::VoiceCategory::Character);
    assert_eq!(voices[7].category, primespeech::VoiceCategory::Character);
    assert_eq!(voices[14].description, "English male - distinctive speaking style");
    assert_eq!(voices[14].category, primespeech::VoiceCategory::Male);
}

#[test]
fn status_starts_idle() {
    assert_eq!(tts::TTSStatus::default(), tts::TTSStatus::Idle);
    assert_eq!(primespeech::TTSStatus::default(), primespeech::TTSStatus::Idle);
    assert_ne!(tts::TTSStatus::Error("x".to_string()), tts::TTSStatus::Error("y".to_string()));
}
