use vibevoicecli::engine::VibeVoiceEngine;
use vibevoicecli::voices::VoiceModel;

#[test]
fn presets_select_their_models() {
    let expected = [
        ("en_0.5b_realtime", VoiceModel::LessacLow),
        ("en_1.5b_speaker_0", VoiceModel::BryceMedium),
        ("en_1.5b_speaker_1", VoiceModel::KristinMedium),
        ("en_1.5b_speaker_2", VoiceModel::AmyMedium),
        ("en_1.5b_narrator", VoiceModel::BryceMedium),
        ("en_7b_studio_male", VoiceModel::RyanHigh),
        ("en_7b_studio_female", VoiceModel::LessacHigh),
        ("es_7b_studio_neutral", VoiceModel::DavefxMedium),
        ("de_7b_studio_neutral", VoiceModel::ThorstenHigh),
        ("fr_7b_studio_neutral", VoiceModel::SiwisMedium),
    ];
    for (name, model) in expected.iter() {
        assert_eq!(VoiceModel::for_speaker(name), *model, "preset {}", name);
    }
    assert_eq!(VibeVoiceEngine::list_speakers().len(), expected.len());
}

#[test]
fn documented_voices_have_their_own_files() {
    let amy = VoiceModel::for_speaker("en_1.5b_speaker_2");
    let ryan = VoiceModel::for_speaker("en_7b_studio_male");
    assert_eq!(amy.model_file_name(), "en_US-amy-medium.onnx");
    assert_eq!(ryan.model_file_name(), "en_US-ryan-high.onnx");
    assert_ne!(amy.model_file_name(), ryan.model_file_name());
    assert!(VoiceModel::for_speaker("en_0.5b_realtime").model_file_name().contains("low"));
    let named = [
        ("en_1.5b_speaker_0", "bryce"),
        ("en_1.5b_speaker_1", "kristin"),
        ("en_1.5b_speaker_2", "amy"),
        ("en_7b_studio_male", "ryan"),
        ("en_7b_studio_female", "lessac"),
        ("es_7b_studio_neutral", "davefx"),
        ("de_7b_studio_neutral", "thorsten"),
        ("fr_7b_studio_neutral", "siwis"),
    ];
    let mut files: Vec<&str> = Vec::new();
    for (preset, voice) in named.iter() {
        let file = VoiceModel::for_speaker(preset).model_file_name();
        assert!(file.contains(voice), "{} -> {}", preset, file);
        assert!(!files.contains(&file));
        files.push(file);
    }
}

#[test]
fn earlier_rules_win() {
    assert_eq!(VoiceModel::for_speaker("german_realtime"), VoiceModel::LessacLow);
    assert_eq!(VoiceModel::for_speaker("speaker_3_speaker_2"), VoiceModel::LessacHigh);
    assert_eq!(VoiceModel::for_speaker("7b_studio_male_speaker_2"), VoiceModel::RyanHigh);
    assert_eq!(VoiceModel::for_speaker("speaker_2_kristin"), VoiceModel::AmyMedium);
    assert_eq!(VoiceModel::for_speaker("kristin_french"), VoiceModel::KristinMedium);
    assert_eq!(VoiceModel::for_speaker("french"), VoiceModel::SiwisMedium);
    assert_eq!(VoiceModel::for_speaker("es_speaker"), VoiceModel::DavefxMedium);
    assert_eq!(VoiceModel::for_speaker("spanish"), VoiceModel::DavefxMedium);
    assert_eq!(VoiceModel::for_speaker(""), VoiceModel::BryceMedium);
    assert_eq!(VoiceModel::for_speaker("EN_7B_STUDIO_MALE"), VoiceModel::BryceMedium);
}

#[test]
fn model_files_and_urls() {
    let m = VoiceModel::for_speaker("en_7b_studio_male");
    assert_eq!(m.model_file_name(), "en_US-ryan-high.onnx");
    assert_eq!(m.config_file_name(), "en_US-ryan-high.onnx.json");
    assert_eq!(
        m.model_url(),
        "https://huggingface.co/rhasspy/piper-voices/resolve/main/en/en_US/ryan/high/en_US-ryan-high.onnx"
    );
    let all = [
        VoiceModel::LessacLow,
        VoiceModel::LessacHigh,
        VoiceModel::RyanHigh,
        VoiceModel::AmyMedium,
        VoiceModel::KristinMedium,
        VoiceModel::ThorstenHigh,
        VoiceModel::SiwisMedium,
        VoiceModel::DavefxMedium,
        VoiceModel::BryceMedium,
    ];
    for m in all.iter() {
        assert_eq!(m.config_url(), format!("{}.json", m.model_url()));
        assert!(m.model_url().ends_with(m.model_file_name()));
        assert_eq!(m.config_file_name(), format!("{}.json", m.model_file_name()));
    }
}
