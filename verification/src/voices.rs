//! The neural voice models that back the speaker presets, and the rule that
//! picks one for a speaker name.
use vstd::prelude::*;
use crate::text::{contains_seq, str_contains};

verus! {

/// A neural voice model that the engine can download and run.
#[derive(Clone, Copy, Debug, PartialEq, Eq, Structural)]
pub enum VoiceModel {
    /// US English, Lessac, low quality: the real-time tier.
    LessacLow,
    /// US English, Lessac, high quality.
    LessacHigh,
    /// US English, Ryan, high quality: the male studio voice.
    RyanHigh,
    /// US English, Amy, medium quality: the storyteller voice.
    AmyMedium,
    /// US English, Kristin, medium quality.
    KristinMedium,
    /// German, Thorsten, high quality.
    ThorstenHigh,
    /// French, Siwis, medium quality.
    SiwisMedium,
    /// Spanish, DaveFX, medium quality.
    DavefxMedium,
    /// US English, Bryce, medium quality: the fallback voice.
    BryceMedium,
}

/// The model that a speaker name selects: the first rule whose fragment
/// occurs in the name wins, and Bryce is the fallback.
pub open spec fn voice_for_speaker(s: Seq<char>) -> VoiceModel {
    if contains_seq(s, "0.5b"@) || contains_seq(s, "realtime"@) {
        VoiceModel::LessacLow
    } else if contains_seq(s, "7b_studio_female"@) || contains_seq(s, "speaker_3"@) {
        VoiceModel::LessacHigh
    } else if contains_seq(s, "7b_studio_male"@) {
        VoiceModel::RyanHigh
    } else if contains_seq(s, "speaker_2"@) {
        VoiceModel::AmyMedium
    } else if contains_seq(s, "speaker_1"@) || contains_seq(s, "kristin"@) {
        VoiceModel::KristinMedium
    } else if contains_seq(s, "de_7b"@) || contains_seq(s, "german"@) {
        VoiceModel::ThorstenHigh
    } else if contains_seq(s, "fr_7b"@) || contains_seq(s, "french"@) {
        VoiceModel::SiwisMedium
    } else if contains_seq(s, "es_7b"@) || contains_seq(s, "spanish"@) || contains_seq(
        s,
        "es_speaker"@,
    ) {
        VoiceModel::DavefxMedium
    } else {
        VoiceModel::BryceMedium
    }
}

/// The file name of a model's weights.
pub open spec fn model_file_spec(m: VoiceModel) -> Seq<char> {
    match m {
        VoiceModel::LessacLow => "en_US-lessac-low.onnx"@,
        VoiceModel::LessacHigh => "en_US-lessac-high.onnx"@,
        VoiceModel::RyanHigh => "en_US-ryan-high.onnx"@,
        VoiceModel::AmyMedium => "en_US-amy-medium.onnx"@,
        VoiceModel::KristinMedium => "en_US-kristin-medium.onnx"@,
        VoiceModel::ThorstenHigh => "de_DE-thorsten-high.onnx"@,
        VoiceModel::SiwisMedium => "fr_FR-siwis-medium.onnx"@,
        VoiceModel::DavefxMedium => "es_ES-davefx-medium.onnx"@,
        VoiceModel::BryceMedium => "en_US-bryce-medium.onnx"@,
    }
}

/// Where a model's weights are downloaded from.
pub open spec fn model_url_spec(m: VoiceModel) -> Seq<char> {
    match m {
        VoiceModel::LessacLow => "https://huggingface.co/rhasspy/piper-voices/resolve/main/en/en_US/lessac/low/en_US-lessac-low.onnx"@,
        VoiceModel::LessacHigh => "https://huggingface.co/rhasspy/piper-voices/resolve/main/en/en_US/lessac/high/en_US-lessac-high.onnx"@,
        VoiceModel::RyanHigh => "https://huggingface.co/rhasspy/piper-voices/resolve/main/en/en_US/ryan/high/en_US-ryan-high.onnx"@,
        VoiceModel::AmyMedium => "https://huggingface.co/rhasspy/piper-voices/resolve/main/en/en_US/amy/medium/en_US-amy-medium.onnx"@,
        VoiceModel::KristinMedium => "https://huggingface.co/rhasspy/piper-voices/resolve/main/en/en_US/kristin/medium/en_US-kristin-medium.onnx"@,
        VoiceModel::ThorstenHigh => "https://huggingface.co/rhasspy/piper-voices/resolve/main/de/de_DE/thorsten/high/de_DE-thorsten-high.onnx"@,
        VoiceModel::SiwisMedium => "https://huggingface.co/rhasspy/piper-voices/resolve/main/fr/fr_FR/siwis/medium/fr_FR-siwis-medium.onnx"@,
        VoiceModel::DavefxMedium => "https://huggingface.co/rhasspy/piper-voices/resolve/main/es/es_ES/davefx/medium/es_ES-davefx-medium.onnx"@,
        VoiceModel::BryceMedium => "https://huggingface.co/rhasspy/piper-voices/resolve/main/en/en_US/bryce/medium/en_US-bryce-medium.onnx"@,
    }
}

/// Where a model's JSON configuration is downloaded from.
pub open spec fn config_url_spec(m: VoiceModel) -> Seq<char> {
    match m {
        VoiceModel::LessacLow => "https://huggingface.co/rhasspy/piper-voices/resolve/main/en/en_US/lessac/low/en_US-lessac-low.onnx.json"@,
        VoiceModel::LessacHigh => "https://huggingface.co/rhasspy/piper-voices/resolve/main/en/en_US/lessac/high/en_US-lessac-high.onnx.json"@,
        VoiceModel::RyanHigh => "https://huggingface.co/rhasspy/piper-voices/resolve/main/en/en_US/ryan/high/en_US-ryan-high.onnx.json"@,
        VoiceModel::AmyMedium => "https://huggingface.co/rhasspy/piper-voices/resolve/main/en/en_US/amy/medium/en_US-amy-medium.onnx.json"@,
        VoiceModel::KristinMedium => "https://huggingface.co/rhasspy/piper-voices/resolve/main/en/en_US/kristin/medium/en_US-kristin-medium.onnx.json"@,
        VoiceModel::ThorstenHigh => "https://huggingface.co/rhasspy/piper-voices/resolve/main/de/de_DE/thorsten/high/de_DE-thorsten-high.onnx.json"@,
        VoiceModel::SiwisMedium => "https://huggingface.co/rhasspy/piper-voices/resolve/main/fr/fr_FR/siwis/medium/fr_FR-siwis-medium.onnx.json"@,
        VoiceModel::DavefxMedium => "https://huggingface.co/rhasspy/piper-voices/resolve/main/es/es_ES/davefx/medium/es_ES-davefx-medium.onnx.json"@,
        VoiceModel::BryceMedium => "https://huggingface.co/rhasspy/piper-voices/resolve/main/en/en_US/bryce/medium/en_US-bryce-medium.onnx.json"@,
    }
}

impl VoiceModel {
    /// The model that `speaker` selects.
    pub fn for_speaker(speaker: &str) -> (m: VoiceModel)
        ensures
            m == voice_for_speaker(speaker@),
    {
        if str_contains(speaker, "0.5b") || str_contains(speaker, "realtime") {
            VoiceModel::LessacLow
        } else if str_contains(speaker, "7b_studio_female") || str_contains(speaker, "speaker_3") {
            VoiceModel::LessacHigh
        } else if str_contains(speaker, "7b_studio_male") {
            VoiceModel::RyanHigh
        } else if str_contains(speaker, "speaker_2") {
            VoiceModel::AmyMedium
        } else if str_contains(speaker, "speaker_1") || str_contains(speaker, "kristin") {
            VoiceModel::KristinMedium
        } else if str_contains(speaker, "de_7b") || str_contains(speaker, "german") {
            VoiceModel::ThorstenHigh
        } else if str_contains(speaker, "fr_7b") || str_contains(speaker, "french") {
            VoiceModel::SiwisMedium
        } else if str_contains(speaker, "es_7b") || str_contains(speaker, "spanish")
            || str_contains(speaker, "es_speaker") {
            VoiceModel::DavefxMedium
        } else {
            VoiceModel::BryceMedium
        }
    }

    /// The file name of the model's weights.
    pub fn model_file_name(&self) -> (s: &'static str)
        ensures
            s@ == model_file_spec(*self),
    {
        match self {
            VoiceModel::LessacLow => "en_US-lessac-low.onnx",
            VoiceModel::LessacHigh => "en_US-lessac-high.onnx",
            VoiceModel::RyanHigh => "en_US-ryan-high.onnx",
            VoiceModel::AmyMedium => "en_US-amy-medium.onnx",
            VoiceModel::KristinMedium => "en_US-kristin-medium.onnx",
            VoiceModel::ThorstenHigh => "de_DE-thorsten-high.onnx",
            VoiceModel::SiwisMedium => "fr_FR-siwis-medium.onnx",
            VoiceModel::DavefxMedium => "es_ES-davefx-medium.onnx",
            VoiceModel::BryceMedium => "en_US-bryce-medium.onnx",
        }
    }

    /// The file name of the model's JSON configuration: the weights' name
    /// followed by `.json`.
    pub fn config_file_name(&self) -> (s: String)
        ensures
            s@ == model_file_spec(*self) + ".json"@,
    {
        let mut s = self.model_file_name().to_owned();
        s.append(".json");
        s
    }

    /// Where the model's weights are downloaded from.
    pub fn model_url(&self) -> (s: &'static str)
        ensures
            s@ == model_url_spec(*self),
    {
        match self {
            VoiceModel::LessacLow => "https://huggingface.co/rhasspy/piper-voices/resolve/main/en/en_US/lessac/low/en_US-lessac-low.onnx",
            VoiceModel::LessacHigh => "https://huggingface.co/rhasspy/piper-voices/resolve/main/en/en_US/lessac/high/en_US-lessac-high.onnx",
            VoiceModel::RyanHigh => "https://huggingface.co/rhasspy/piper-voices/resolve/main/en/en_US/ryan/high/en_US-ryan-high.onnx",
            VoiceModel::AmyMedium => "https://huggingface.co/rhasspy/piper-voices/resolve/main/en/en_US/amy/medium/en_US-amy-medium.onnx",
            VoiceModel::KristinMedium => "https://huggingface.co/rhasspy/piper-voices/resolve/main/en/en_US/kristin/medium/en_US-kristin-medium.onnx",
            VoiceModel::ThorstenHigh => "https://huggingface.co/rhasspy/piper-voices/resolve/main/de/de_DE/thorsten/high/de_DE-thorsten-high.onnx",
            VoiceModel::SiwisMedium => "https://huggingface.co/rhasspy/piper-voices/resolve/main/fr/fr_FR/siwis/medium/fr_FR-siwis-medium.onnx",
            VoiceModel::DavefxMedium => "https://huggingface.co/rhasspy/piper-voices/resolve/main/es/es_ES/davefx/medium/es_ES-davefx-medium.onnx",
            VoiceModel::BryceMedium => "https://huggingface.co/rhasspy/piper-voices/resolve/main/en/en_US/bryce/medium/en_US-bryce-medium.onnx",
        }
    }

    /// Where the model's JSON configuration is downloaded from.
    pub fn config_url(&self) -> (s: &'static str)
        ensures
            s@ == config_url_spec(*self),
    {
        match self {
            VoiceModel::LessacLow => "https://huggingface.co/rhasspy/piper-voices/resolve/main/en/en_US/lessac/low/en_US-lessac-low.onnx.json",
            VoiceModel::LessacHigh => "https://huggingface.co/rhasspy/piper-voices/resolve/main/en/en_US/lessac/high/en_US-lessac-high.onnx.json",
            VoiceModel::RyanHigh => "https://huggingface.co/rhasspy/piper-voices/resolve/main/en/en_US/ryan/high/en_US-ryan-high.onnx.json",
            VoiceModel::AmyMedium => "https://huggingface.co/rhasspy/piper-voices/resolve/main/en/en_US/amy/medium/en_US-amy-medium.onnx.json",
            VoiceModel::KristinMedium => "https://huggingface.co/rhasspy/piper-voices/resolve/main/en/en_US/kristin/medium/en_US-kristin-medium.onnx.json",
            VoiceModel::ThorstenHigh => "https://huggingface.co/rhasspy/piper-voices/resolve/main/de/de_DE/thorsten/high/de_DE-thorsten-high.onnx.json",
            VoiceModel::SiwisMedium => "https://huggingface.co/rhasspy/piper-voices/resolve/main/fr/fr_FR/siwis/medium/fr_FR-siwis-medium.onnx.json",
            VoiceModel::DavefxMedium => "https://huggingface.co/rhasspy/piper-voices/resolve/main/es/es_ES/davefx/medium/es_ES-davefx-medium.onnx.json",
            VoiceModel::BryceMedium => "https://huggingface.co/rhasspy/piper-voices/resolve/main/en/en_US/bryce/medium/en_US-bryce-medium.onnx.json",
        }
    }
}

/// Different voice models keep their weights in different files.
pub proof fn lemma_model_files_distinct(a: VoiceModel, b: VoiceModel)
    requires
        a != b,
    ensures
        model_file_spec(a) != model_file_spec(b),
{
    broadcast use vstd::string::group_string_axioms;

    reveal_strlit("en_US-lessac-low.onnx");
    reveal_strlit("en_US-lessac-high.onnx");
    reveal_strlit("en_US-ryan-high.onnx");
    reveal_strlit("en_US-amy-medium.onnx");
    reveal_strlit("en_US-kristin-medium.onnx");
    reveal_strlit("de_DE-thorsten-high.onnx");
    reveal_strlit("fr_FR-siwis-medium.onnx");
    reveal_strlit("es_ES-davefx-medium.onnx");
    reveal_strlit("en_US-bryce-medium.onnx");
    let x = model_file_spec(a);
    let y = model_file_spec(b);
    assert(x.len() != y.len() || x[6] != y[6]);
}

/// The language code of a model, as piper-voices names it.
pub open spec fn voice_language(m: VoiceModel) -> Seq<char> {
    match m {
        VoiceModel::ThorstenHigh => "de"@,
        VoiceModel::SiwisMedium => "fr"@,
        VoiceModel::DavefxMedium => "es"@,
        _ => "en"@,
    }
}

/// The region code of a model.
pub open spec fn voice_region(m: VoiceModel) -> Seq<char> {
    match m {
        VoiceModel::ThorstenHigh => "DE"@,
        VoiceModel::SiwisMedium => "FR"@,
        VoiceModel::DavefxMedium => "ES"@,
        _ => "US"@,
    }
}

/// The name of the speaker recorded in a model.
pub open spec fn voice_speaker(m: VoiceModel) -> Seq<char> {
    match m {
        VoiceModel::LessacLow => "lessac"@,
        VoiceModel::LessacHigh => "lessac"@,
        VoiceModel::RyanHigh => "ryan"@,
        VoiceModel::AmyMedium => "amy"@,
        VoiceModel::KristinMedium => "kristin"@,
        VoiceModel::ThorstenHigh => "thorsten"@,
        VoiceModel::SiwisMedium => "siwis"@,
        VoiceModel::DavefxMedium => "davefx"@,
        VoiceModel::BryceMedium => "bryce"@,
    }
}

/// The quality tier of a model.
pub open spec fn voice_quality(m: VoiceModel) -> Seq<char> {
    match m {
        VoiceModel::LessacLow => "low"@,
        VoiceModel::LessacHigh => "high"@,
        VoiceModel::RyanHigh => "high"@,
        VoiceModel::ThorstenHigh => "high"@,
        _ => "medium"@,
    }
}

/// Where piper-voices serves its models.
pub open spec fn piper_voices_base() -> Seq<char> {
    "https://huggingface.co/rhasspy/piper-voices/resolve/main/"@
}

/// A model's file is named `<lang>_<REGION>-<speaker>-<quality>.onnx`; it is
/// downloaded from `<base><lang>/<lang>_<REGION>/<speaker>/<quality>/<file>`,
/// and its configuration from the same address followed by `.json`.
pub proof fn lemma_model_addresses(m: VoiceModel)
    ensures
        model_file_spec(m) == voice_language(m) + "_"@ + voice_region(m) + "-"@ + voice_speaker(m)
            + "-"@ + voice_quality(m) + ".onnx"@,
        model_url_spec(m) == piper_voices_base() + voice_language(m) + "/"@ + voice_language(m)
            + "_"@ + voice_region(m) + "/"@ + voice_speaker(m) + "/"@ + voice_quality(m) + "/"@
            + model_file_spec(m),
        config_url_spec(m) == model_url_spec(m) + ".json"@,
{
    broadcast use vstd::string::group_string_axioms;

    reveal_strlit("en");
    reveal_strlit("de");
    reveal_strlit("fr");
    reveal_strlit("es");
    reveal_strlit("US");
    reveal_strlit("DE");
    reveal_strlit("FR");
    reveal_strlit("ES");
    reveal_strlit("lessac");
    reveal_strlit("ryan");
    reveal_strlit("amy");
    reveal_strlit("kristin");
    reveal_strlit("thorsten");
    reveal_strlit("siwis");
    reveal_strlit("davefx");
    reveal_strlit("bryce");
    reveal_strlit("low");
    reveal_strlit("medium");
    reveal_strlit("high");
    reveal_strlit("_");
    reveal_strlit("-");
    reveal_strlit("/");
    reveal_strlit(".onnx");
    reveal_strlit(".json");
    reveal_strlit("https://huggingface.co/rhasspy/piper-voices/resolve/main/");
    reveal_strlit("en_US-lessac-low.onnx");
    reveal_strlit("en_US-lessac-high.onnx");
    reveal_strlit("en_US-ryan-high.onnx");
    reveal_strlit("en_US-amy-medium.onnx");
    reveal_strlit("en_US-kristin-medium.onnx");
    reveal_strlit("de_DE-thorsten-high.onnx");
    reveal_strlit("fr_FR-siwis-medium.onnx");
    reveal_strlit("es_ES-davefx-medium.onnx");
    reveal_strlit("en_US-bryce-medium.onnx");
    reveal_strlit("https://huggingface.co/rhasspy/piper-voices/resolve/main/en/en_US/lessac/low/en_US-lessac-low.onnx");
    reveal_strlit("https://huggingface.co/rhasspy/piper-voices/resolve/main/en/en_US/lessac/high/en_US-lessac-high.onnx");
    reveal_strlit("https://huggingface.co/rhasspy/piper-voices/resolve/main/en/en_US/ryan/high/en_US-ryan-high.onnx");
    reveal_strlit("https://huggingface.co/rhasspy/piper-voices/resolve/main/en/en_US/amy/medium/en_US-amy-medium.onnx");
    reveal_strlit("https://huggingface.co/rhasspy/piper-voices/resolve/main/en/en_US/kristin/medium/en_US-kristin-medium.onnx");
    reveal_strlit("https://huggingface.co/rhasspy/piper-voices/resolve/main/de/de_DE/thorsten/high/de_DE-thorsten-high.onnx");
    reveal_strlit("https://huggingface.co/rhasspy/piper-voices/resolve/main/fr/fr_FR/siwis/medium/fr_FR-siwis-medium.onnx");
    reveal_strlit("https://huggingface.co/rhasspy/piper-voices/resolve/main/es/es_ES/davefx/medium/es_ES-davefx-medium.onnx");
    reveal_strlit("https://huggingface.co/rhasspy/piper-voices/resolve/main/en/en_US/bryce/medium/en_US-bryce-medium.onnx");
    reveal_strlit("https://huggingface.co/rhasspy/piper-voices/resolve/main/en/en_US/lessac/low/en_US-lessac-low.onnx.json");
    reveal_strlit("https://huggingface.co/rhasspy/piper-voices/resolve/main/en/en_US/lessac/high/en_US-lessac-high.onnx.json");
    reveal_strlit("https://huggingface.co/rhasspy/piper-voices/resolve/main/en/en_US/ryan/high/en_US-ryan-high.onnx.json");
    reveal_strlit("https://huggingface.co/rhasspy/piper-voices/resolve/main/en/en_US/amy/medium/en_US-amy-medium.onnx.json");
    reveal_strlit("https://huggingface.co/rhasspy/piper-voices/resolve/main/en/en_US/kristin/medium/en_US-kristin-medium.onnx.json");
    reveal_strlit("https://huggingface.co/rhasspy/piper-voices/resolve/main/de/de_DE/thorsten/high/de_DE-thorsten-high.onnx.json");
    reveal_strlit("https://huggingface.co/rhasspy/piper-voices/resolve/main/fr/fr_FR/siwis/medium/fr_FR-siwis-medium.onnx.json");
    reveal_strlit("https://huggingface.co/rhasspy/piper-voices/resolve/main/es/es_ES/davefx/medium/es_ES-davefx-medium.onnx.json");
    reveal_strlit("https://huggingface.co/rhasspy/piper-voices/resolve/main/en/en_US/bryce/medium/en_US-bryce-medium.onnx.json");
    assert(model_file_spec(m) =~= voice_language(m) + "_"@ + voice_region(m) + "-"@ + voice_speaker(m)
            + "-"@ + voice_quality(m) + ".onnx"@);
    assert(model_url_spec(m) =~= piper_voices_base() + voice_language(m) + "/"@ + voice_language(m)
            + "_"@ + voice_region(m) + "/"@ + voice_speaker(m) + "/"@ + voice_quality(m) + "/"@
            + model_file_spec(m));
    assert(config_url_spec(m) =~= model_url_spec(m) + ".json"@);
}

/// The speaker's name as the preset descriptions write it.
pub open spec fn speaker_display(m: VoiceModel) -> Seq<char> {
    match m {
        VoiceModel::LessacLow => "Lessac"@,
        VoiceModel::LessacHigh => "Lessac"@,
        VoiceModel::RyanHigh => "Ryan"@,
        VoiceModel::AmyMedium => "Amy"@,
        VoiceModel::KristinMedium => "Kristin"@,
        VoiceModel::ThorstenHigh => "Thorsten"@,
        VoiceModel::SiwisMedium => "Siwis"@,
        VoiceModel::DavefxMedium => "DaveFX"@,
        VoiceModel::BryceMedium => "Bryce"@,
    }
}

} // verus!
