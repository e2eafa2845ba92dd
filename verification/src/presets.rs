//! The speaker presets against the voice rule: what each preset's
//! description says of the voice that its name selects.
use vstd::prelude::*;
use crate::engine::speaker_table;
use crate::text::{contains_seq, lemma_contains_decided};
use crate::voices::{VoiceModel, voice_for_speaker, speaker_display};

verus! {

proof fn lemma_preset_0()
    ensures
        voice_for_speaker("en_0.5b_realtime"@) == VoiceModel::LessacLow,
        forall|m: VoiceModel| contains_seq("Low latency 0.5B streaming voice (16kHz)"@, speaker_display(m)) <==> false,
{
    broadcast use vstd::string::group_string_axioms;

    reveal_strlit("en_0.5b_realtime");
    reveal_strlit("Low latency 0.5B streaming voice (16kHz)");
    reveal_strlit("0.5b");
    reveal_strlit("realtime");
    reveal_strlit("7b_studio_female");
    reveal_strlit("speaker_3");
    reveal_strlit("7b_studio_male");
    reveal_strlit("speaker_2");
    reveal_strlit("speaker_1");
    reveal_strlit("kristin");
    reveal_strlit("de_7b");
    reveal_strlit("german");
    reveal_strlit("fr_7b");
    reveal_strlit("french");
    reveal_strlit("es_7b");
    reveal_strlit("spanish");
    reveal_strlit("es_speaker");
    reveal_strlit("Amy");
    reveal_strlit("Bryce");
    reveal_strlit("DaveFX");
    reveal_strlit("Kristin");
    reveal_strlit("Lessac");
    reveal_strlit("Ryan");
    reveal_strlit("Siwis");
    reveal_strlit("Thorsten");
    reveal_with_fuel(crate::text::occurs_from, 48);
    reveal_with_fuel(crate::text::matches_from, 18);
    lemma_contains_decided("en_0.5b_realtime"@, "0.5b"@);
    lemma_contains_decided("en_0.5b_realtime"@, "realtime"@);
    lemma_contains_decided("en_0.5b_realtime"@, "7b_studio_female"@);
    lemma_contains_decided("en_0.5b_realtime"@, "speaker_3"@);
    lemma_contains_decided("en_0.5b_realtime"@, "7b_studio_male"@);
    lemma_contains_decided("en_0.5b_realtime"@, "speaker_2"@);
    lemma_contains_decided("en_0.5b_realtime"@, "speaker_1"@);
    lemma_contains_decided("en_0.5b_realtime"@, "kristin"@);
    lemma_contains_decided("en_0.5b_realtime"@, "de_7b"@);
    lemma_contains_decided("en_0.5b_realtime"@, "german"@);
    lemma_contains_decided("en_0.5b_realtime"@, "fr_7b"@);
    lemma_contains_decided("en_0.5b_realtime"@, "french"@);
    lemma_contains_decided("en_0.5b_realtime"@, "es_7b"@);
    lemma_contains_decided("en_0.5b_realtime"@, "spanish"@);
    lemma_contains_decided("en_0.5b_realtime"@, "es_speaker"@);
    assert forall|m: VoiceModel| contains_seq("Low latency 0.5B streaming voice (16kHz)"@, speaker_display(m)) <==> false by {
        lemma_contains_decided("Low latency 0.5B streaming voice (16kHz)"@, speaker_display(m));
    }
}

proof fn lemma_preset_1()
    ensures
        voice_for_speaker("en_1.5b_speaker_0"@) == VoiceModel::BryceMedium,
        forall|m: VoiceModel| contains_seq("Warm Bryce 1.5B neural voice (22kHz)"@, speaker_display(m)) <==> speaker_display(m) == speaker_display(VoiceModel::BryceMedium),
{
    broadcast use vstd::string::group_string_axioms;

    reveal_strlit("en_1.5b_speaker_0");
    reveal_strlit("Warm Bryce 1.5B neural voice (22kHz)");
    reveal_strlit("0.5b");
    reveal_strlit("realtime");
    reveal_strlit("7b_studio_female");
    reveal_strlit("speaker_3");
    reveal_strlit("7b_studio_male");
    reveal_strlit("speaker_2");
    reveal_strlit("speaker_1");
    reveal_strlit("kristin");
    reveal_strlit("de_7b");
    reveal_strlit("german");
    reveal_strlit("fr_7b");
    reveal_strlit("french");
    reveal_strlit("es_7b");
    reveal_strlit("spanish");
    reveal_strlit("es_speaker");
    reveal_strlit("Amy");
    reveal_strlit("Bryce");
    reveal_strlit("DaveFX");
    reveal_strlit("Kristin");
    reveal_strlit("Lessac");
    reveal_strlit("Ryan");
    reveal_strlit("Siwis");
    reveal_strlit("Thorsten");
    reveal_with_fuel(crate::text::occurs_from, 48);
    reveal_with_fuel(crate::text::matches_from, 18);
    lemma_contains_decided("en_1.5b_speaker_0"@, "0.5b"@);
    lemma_contains_decided("en_1.5b_speaker_0"@, "realtime"@);
    lemma_contains_decided("en_1.5b_speaker_0"@, "7b_studio_female"@);
    lemma_contains_decided("en_1.5b_speaker_0"@, "speaker_3"@);
    lemma_contains_decided("en_1.5b_speaker_0"@, "7b_studio_male"@);
    lemma_contains_decided("en_1.5b_speaker_0"@, "speaker_2"@);
    lemma_contains_decided("en_1.5b_speaker_0"@, "speaker_1"@);
    lemma_contains_decided("en_1.5b_speaker_0"@, "kristin"@);
    lemma_contains_decided("en_1.5b_speaker_0"@, "de_7b"@);
    lemma_contains_decided("en_1.5b_speaker_0"@, "german"@);
    lemma_contains_decided("en_1.5b_speaker_0"@, "fr_7b"@);
    lemma_contains_decided("en_1.5b_speaker_0"@, "french"@);
    lemma_contains_decided("en_1.5b_speaker_0"@, "es_7b"@);
    lemma_contains_decided("en_1.5b_speaker_0"@, "spanish"@);
    lemma_contains_decided("en_1.5b_speaker_0"@, "es_speaker"@);
    assert forall|m: VoiceModel| contains_seq("Warm Bryce 1.5B neural voice (22kHz)"@, speaker_display(m)) <==> speaker_display(m) == speaker_display(VoiceModel::BryceMedium) by {
        lemma_contains_decided("Warm Bryce 1.5B neural voice (22kHz)"@, speaker_display(m));
    }
}

proof fn lemma_preset_2()
    ensures
        voice_for_speaker("en_1.5b_speaker_1"@) == VoiceModel::KristinMedium,
        forall|m: VoiceModel| contains_seq("Smooth Kristin 1.5B neural voice (22kHz)"@, speaker_display(m)) <==> speaker_display(m) == speaker_display(VoiceModel::KristinMedium),
{
    broadcast use vstd::string::group_string_axioms;

    reveal_strlit("en_1.5b_speaker_1");
    reveal_strlit("Smooth Kristin 1.5B neural voice (22kHz)");
    reveal_strlit("0.5b");
    reveal_strlit("realtime");
    reveal_strlit("7b_studio_female");
    reveal_strlit("speaker_3");
    reveal_strlit("7b_studio_male");
    reveal_strlit("speaker_2");
    reveal_strlit("speaker_1");
    reveal_strlit("kristin");
    reveal_strlit("de_7b");
    reveal_strlit("german");
    reveal_strlit("fr_7b");
    reveal_strlit("french");
    reveal_strlit("es_7b");
    reveal_strlit("spanish");
    reveal_strlit("es_speaker");
    reveal_strlit("Amy");
    reveal_strlit("Bryce");
    reveal_strlit("DaveFX");
    reveal_strlit("Kristin");
    reveal_strlit("Lessac");
    reveal_strlit("Ryan");
    reveal_strlit("Siwis");
    reveal_strlit("Thorsten");
    reveal_with_fuel(crate::text::occurs_from, 48);
    reveal_with_fuel(crate::text::matches_from, 18);
    lemma_contains_decided("en_1.5b_speaker_1"@, "0.5b"@);
    lemma_contains_decided("en_1.5b_speaker_1"@, "realtime"@);
    lemma_contains_decided("en_1.5b_speaker_1"@, "7b_studio_female"@);
    lemma_contains_decided("en_1.5b_speaker_1"@, "speaker_3"@);
    lemma_contains_decided("en_1.5b_speaker_1"@, "7b_studio_male"@);
    lemma_contains_decided("en_1.5b_speaker_1"@, "speaker_2"@);
    lemma_contains_decided("en_1.5b_speaker_1"@, "speaker_1"@);
    lemma_contains_decided("en_1.5b_speaker_1"@, "kristin"@);
    lemma_contains_decided("en_1.5b_speaker_1"@, "de_7b"@);
    lemma_contains_decided("en_1.5b_speaker_1"@, "german"@);
    lemma_contains_decided("en_1.5b_speaker_1"@, "fr_7b"@);
    lemma_contains_decided("en_1.5b_speaker_1"@, "french"@);
    lemma_contains_decided("en_1.5b_speaker_1"@, "es_7b"@);
    lemma_contains_decided("en_1.5b_speaker_1"@, "spanish"@);
    lemma_contains_decided("en_1.5b_speaker_1"@, "es_speaker"@);
    assert forall|m: VoiceModel| contains_seq("Smooth Kristin 1.5B neural voice (22kHz)"@, speaker_display(m)) <==> speaker_display(m) == speaker_display(VoiceModel::KristinMedium) by {
        lemma_contains_decided("Smooth Kristin 1.5B neural voice (22kHz)"@, speaker_display(m));
    }
}

proof fn lemma_preset_3()
    ensures
        voice_for_speaker("en_1.5b_speaker_2"@) == VoiceModel::AmyMedium,
        forall|m: VoiceModel| contains_seq("Deep Amy 1.5B narrator voice (22kHz)"@, speaker_display(m)) <==> speaker_display(m) == speaker_display(VoiceModel::AmyMedium),
{
    broadcast use vstd::string::group_string_axioms;

    reveal_strlit("en_1.5b_speaker_2");
    reveal_strlit("Deep Amy 1.5B narrator voice (22kHz)");
    reveal_strlit("0.5b");
    reveal_strlit("realtime");
    reveal_strlit("7b_studio_female");
    reveal_strlit("speaker_3");
    reveal_strlit("7b_studio_male");
    reveal_strlit("speaker_2");
    reveal_strlit("speaker_1");
    reveal_strlit("kristin");
    reveal_strlit("de_7b");
    reveal_strlit("german");
    reveal_strlit("fr_7b");
    reveal_strlit("french");
    reveal_strlit("es_7b");
    reveal_strlit("spanish");
    reveal_strlit("es_speaker");
    reveal_strlit("Amy");
    reveal_strlit("Bryce");
    reveal_strlit("DaveFX");
    reveal_strlit("Kristin");
    reveal_strlit("Lessac");
    reveal_strlit("Ryan");
    reveal_strlit("Siwis");
    reveal_strlit("Thorsten");
    reveal_with_fuel(crate::text::occurs_from, 48);
    reveal_with_fuel(crate::text::matches_from, 18);
    lemma_contains_decided("en_1.5b_speaker_2"@, "0.5b"@);
    lemma_contains_decided("en_1.5b_speaker_2"@, "realtime"@);
    lemma_contains_decided("en_1.5b_speaker_2"@, "7b_studio_female"@);
    lemma_contains_decided("en_1.5b_speaker_2"@, "speaker_3"@);
    lemma_contains_decided("en_1.5b_speaker_2"@, "7b_studio_male"@);
    lemma_contains_decided("en_1.5b_speaker_2"@, "speaker_2"@);
    lemma_contains_decided("en_1.5b_speaker_2"@, "speaker_1"@);
    lemma_contains_decided("en_1.5b_speaker_2"@, "kristin"@);
    lemma_contains_decided("en_1.5b_speaker_2"@, "de_7b"@);
    lemma_contains_decided("en_1.5b_speaker_2"@, "german"@);
    lemma_contains_decided("en_1.5b_speaker_2"@, "fr_7b"@);
    lemma_contains_decided("en_1.5b_speaker_2"@, "french"@);
    lemma_contains_decided("en_1.5b_speaker_2"@, "es_7b"@);
    lemma_contains_decided("en_1.5b_speaker_2"@, "spanish"@);
    lemma_contains_decided("en_1.5b_speaker_2"@, "es_speaker"@);
    assert forall|m: VoiceModel| contains_seq("Deep Amy 1.5B narrator voice (22kHz)"@, speaker_display(m)) <==> speaker_display(m) == speaker_display(VoiceModel::AmyMedium) by {
        lemma_contains_decided("Deep Amy 1.5B narrator voice (22kHz)"@, speaker_display(m));
    }
}

proof fn lemma_preset_4()
    ensures
        voice_for_speaker("en_1.5b_narrator"@) == VoiceModel::BryceMedium,
        forall|m: VoiceModel| contains_seq("7.5Hz low frame rate multi-speaker synth"@, speaker_display(m)) <==> false,
{
    broadcast use vstd::string::group_string_axioms;

    reveal_strlit("en_1.5b_narrator");
    reveal_strlit("7.5Hz low frame rate multi-speaker synth");
    reveal_strlit("0.5b");
    reveal_strlit("realtime");
    reveal_strlit("7b_studio_female");
    reveal_strlit("speaker_3");
    reveal_strlit("7b_studio_male");
    reveal_strlit("speaker_2");
    reveal_strlit("speaker_1");
    reveal_strlit("kristin");
    reveal_strlit("de_7b");
    reveal_strlit("german");
    reveal_strlit("fr_7b");
    reveal_strlit("french");
    reveal_strlit("es_7b");
    reveal_strlit("spanish");
    reveal_strlit("es_speaker");
    reveal_strlit("Amy");
    reveal_strlit("Bryce");
    reveal_strlit("DaveFX");
    reveal_strlit("Kristin");
    reveal_strlit("Lessac");
    reveal_strlit("Ryan");
    reveal_strlit("Siwis");
    reveal_strlit("Thorsten");
    reveal_with_fuel(crate::text::occurs_from, 48);
    reveal_with_fuel(crate::text::matches_from, 18);
    lemma_contains_decided("en_1.5b_narrator"@, "0.5b"@);
    lemma_contains_decided("en_1.5b_narrator"@, "realtime"@);
    lemma_contains_decided("en_1.5b_narrator"@, "7b_studio_female"@);
    lemma_contains_decided("en_1.5b_narrator"@, "speaker_3"@);
    lemma_contains_decided("en_1.5b_narrator"@, "7b_studio_male"@);
    lemma_contains_decided("en_1.5b_narrator"@, "speaker_2"@);
    lemma_contains_decided("en_1.5b_narrator"@, "speaker_1"@);
    lemma_contains_decided("en_1.5b_narrator"@, "kristin"@);
    lemma_contains_decided("en_1.5b_narrator"@, "de_7b"@);
    lemma_contains_decided("en_1.5b_narrator"@, "german"@);
    lemma_contains_decided("en_1.5b_narrator"@, "fr_7b"@);
    lemma_contains_decided("en_1.5b_narrator"@, "french"@);
    lemma_contains_decided("en_1.5b_narrator"@, "es_7b"@);
    lemma_contains_decided("en_1.5b_narrator"@, "spanish"@);
    lemma_contains_decided("en_1.5b_narrator"@, "es_speaker"@);
    assert forall|m: VoiceModel| contains_seq("7.5Hz low frame rate multi-speaker synth"@, speaker_display(m)) <==> false by {
        lemma_contains_decided("7.5Hz low frame rate multi-speaker synth"@, speaker_display(m));
    }
}

proof fn lemma_preset_5()
    ensures
        voice_for_speaker("en_7b_studio_male"@) == VoiceModel::RyanHigh,
        forall|m: VoiceModel| contains_seq("Ultra high-resolution Ryan 7B studio voice"@, speaker_display(m)) <==> speaker_display(m) == speaker_display(VoiceModel::RyanHigh),
{
    broadcast use vstd::string::group_string_axioms;

    reveal_strlit("en_7b_studio_male");
    reveal_strlit("Ultra high-resolution Ryan 7B studio voice");
    reveal_strlit("0.5b");
    reveal_strlit("realtime");
    reveal_strlit("7b_studio_female");
    reveal_strlit("speaker_3");
    reveal_strlit("7b_studio_male");
    reveal_strlit("speaker_2");
    reveal_strlit("speaker_1");
    reveal_strlit("kristin");
    reveal_strlit("de_7b");
    reveal_strlit("german");
    reveal_strlit("fr_7b");
    reveal_strlit("french");
    reveal_strlit("es_7b");
    reveal_strlit("spanish");
    reveal_strlit("es_speaker");
    reveal_strlit("Amy");
    reveal_strlit("Bryce");
    reveal_strlit("DaveFX");
    reveal_strlit("Kristin");
    reveal_strlit("Lessac");
    reveal_strlit("Ryan");
    reveal_strlit("Siwis");
    reveal_strlit("Thorsten");
    reveal_with_fuel(crate::text::occurs_from, 48);
    reveal_with_fuel(crate::text::matches_from, 18);
    lemma_contains_decided("en_7b_studio_male"@, "0.5b"@);
    lemma_contains_decided("en_7b_studio_male"@, "realtime"@);
    lemma_contains_decided("en_7b_studio_male"@, "7b_studio_female"@);
    lemma_contains_decided("en_7b_studio_male"@, "speaker_3"@);
    lemma_contains_decided("en_7b_studio_male"@, "7b_studio_male"@);
    lemma_contains_decided("en_7b_studio_male"@, "speaker_2"@);
    lemma_contains_decided("en_7b_studio_male"@, "speaker_1"@);
    lemma_contains_decided("en_7b_studio_male"@, "kristin"@);
    lemma_contains_decided("en_7b_studio_male"@, "de_7b"@);
    lemma_contains_decided("en_7b_studio_male"@, "german"@);
    lemma_contains_decided("en_7b_studio_male"@, "fr_7b"@);
    lemma_contains_decided("en_7b_studio_male"@, "french"@);
    lemma_contains_decided("en_7b_studio_male"@, "es_7b"@);
    lemma_contains_decided("en_7b_studio_male"@, "spanish"@);
    lemma_contains_decided("en_7b_studio_male"@, "es_speaker"@);
    assert forall|m: VoiceModel| contains_seq("Ultra high-resolution Ryan 7B studio voice"@, speaker_display(m)) <==> speaker_display(m) == speaker_display(VoiceModel::RyanHigh) by {
        lemma_contains_decided("Ultra high-resolution Ryan 7B studio voice"@, speaker_display(m));
    }
}

proof fn lemma_preset_6()
    ensures
        voice_for_speaker("en_7b_studio_female"@) == VoiceModel::LessacHigh,
        forall|m: VoiceModel| contains_seq("Ultra high-resolution Lessac 7B studio voice"@, speaker_display(m)) <==> speaker_display(m) == speaker_display(VoiceModel::LessacHigh),
{
    broadcast use vstd::string::group_string_axioms;

    reveal_strlit("en_7b_studio_female");
    reveal_strlit("Ultra high-resolution Lessac 7B studio voice");
    reveal_strlit("0.5b");
    reveal_strlit("realtime");
    reveal_strlit("7b_studio_female");
    reveal_strlit("speaker_3");
    reveal_strlit("7b_studio_male");
    reveal_strlit("speaker_2");
    reveal_strlit("speaker_1");
    reveal_strlit("kristin");
    reveal_strlit("de_7b");
    reveal_strlit("german");
    reveal_strlit("fr_7b");
    reveal_strlit("french");
    reveal_strlit("es_7b");
    reveal_strlit("spanish");
    reveal_strlit("es_speaker");
    reveal_strlit("Amy");
    reveal_strlit("Bryce");
    reveal_strlit("DaveFX");
    reveal_strlit("Kristin");
    reveal_strlit("Lessac");
    reveal_strlit("Ryan");
    reveal_strlit("Siwis");
    reveal_strlit("Thorsten");
    reveal_with_fuel(crate::text::occurs_from, 48);
    reveal_with_fuel(crate::text::matches_from, 18);
    lemma_contains_decided("en_7b_studio_female"@, "0.5b"@);
    lemma_contains_decided("en_7b_studio_female"@, "realtime"@);
    lemma_contains_decided("en_7b_studio_female"@, "7b_studio_female"@);
    lemma_contains_decided("en_7b_studio_female"@, "speaker_3"@);
    lemma_contains_decided("en_7b_studio_female"@, "7b_studio_male"@);
    lemma_contains_decided("en_7b_studio_female"@, "speaker_2"@);
    lemma_contains_decided("en_7b_studio_female"@, "speaker_1"@);
    lemma_contains_decided("en_7b_studio_female"@, "kristin"@);
    lemma_contains_decided("en_7b_studio_female"@, "de_7b"@);
    lemma_contains_decided("en_7b_studio_female"@, "german"@);
    lemma_contains_decided("en_7b_studio_female"@, "fr_7b"@);
    lemma_contains_decided("en_7b_studio_female"@, "french"@);
    lemma_contains_decided("en_7b_studio_female"@, "es_7b"@);
    lemma_contains_decided("en_7b_studio_female"@, "spanish"@);
    lemma_contains_decided("en_7b_studio_female"@, "es_speaker"@);
    assert forall|m: VoiceModel| contains_seq("Ultra high-resolution Lessac 7B studio voice"@, speaker_display(m)) <==> speaker_display(m) == speaker_display(VoiceModel::LessacHigh) by {
        lemma_contains_decided("Ultra high-resolution Lessac 7B studio voice"@, speaker_display(m));
    }
}

proof fn lemma_preset_7()
    ensures
        voice_for_speaker("es_7b_studio_neutral"@) == VoiceModel::DavefxMedium,
        forall|m: VoiceModel| contains_seq("Spanish DaveFX 7B studio neutral voice"@, speaker_display(m)) <==> speaker_display(m) == speaker_display(VoiceModel::DavefxMedium),
{
    broadcast use vstd::string::group_string_axioms;

    reveal_strlit("es_7b_studio_neutral");
    reveal_strlit("Spanish DaveFX 7B studio neutral voice");
    reveal_strlit("0.5b");
    reveal_strlit("realtime");
    reveal_strlit("7b_studio_female");
    reveal_strlit("speaker_3");
    reveal_strlit("7b_studio_male");
    reveal_strlit("speaker_2");
    reveal_strlit("speaker_1");
    reveal_strlit("kristin");
    reveal_strlit("de_7b");
    reveal_strlit("german");
    reveal_strlit("fr_7b");
    reveal_strlit("french");
    reveal_strlit("es_7b");
    reveal_strlit("spanish");
    reveal_strlit("es_speaker");
    reveal_strlit("Amy");
    reveal_strlit("Bryce");
    reveal_strlit("DaveFX");
    reveal_strlit("Kristin");
    reveal_strlit("Lessac");
    reveal_strlit("Ryan");
    reveal_strlit("Siwis");
    reveal_strlit("Thorsten");
    reveal_with_fuel(crate::text::occurs_from, 48);
    reveal_with_fuel(crate::text::matches_from, 18);
    lemma_contains_decided("es_7b_studio_neutral"@, "0.5b"@);
    lemma_contains_decided("es_7b_studio_neutral"@, "realtime"@);
    lemma_contains_decided("es_7b_studio_neutral"@, "7b_studio_female"@);
    lemma_contains_decided("es_7b_studio_neutral"@, "speaker_3"@);
    lemma_contains_decided("es_7b_studio_neutral"@, "7b_studio_male"@);
    lemma_contains_decided("es_7b_studio_neutral"@, "speaker_2"@);
    lemma_contains_decided("es_7b_studio_neutral"@, "speaker_1"@);
    lemma_contains_decided("es_7b_studio_neutral"@, "kristin"@);
    lemma_contains_decided("es_7b_studio_neutral"@, "de_7b"@);
    lemma_contains_decided("es_7b_studio_neutral"@, "german"@);
    lemma_contains_decided("es_7b_studio_neutral"@, "fr_7b"@);
    lemma_contains_decided("es_7b_studio_neutral"@, "french"@);
    lemma_contains_decided("es_7b_studio_neutral"@, "es_7b"@);
    lemma_contains_decided("es_7b_studio_neutral"@, "spanish"@);
    lemma_contains_decided("es_7b_studio_neutral"@, "es_speaker"@);
    assert forall|m: VoiceModel| contains_seq("Spanish DaveFX 7B studio neutral voice"@, speaker_display(m)) <==> speaker_display(m) == speaker_display(VoiceModel::DavefxMedium) by {
        lemma_contains_decided("Spanish DaveFX 7B studio neutral voice"@, speaker_display(m));
    }
}

proof fn lemma_preset_8()
    ensures
        voice_for_speaker("de_7b_studio_neutral"@) == VoiceModel::ThorstenHigh,
        forall|m: VoiceModel| contains_seq("German Thorsten 7B studio neutral voice"@, speaker_display(m)) <==> speaker_display(m) == speaker_display(VoiceModel::ThorstenHigh),
{
    broadcast use vstd::string::group_string_axioms;

    reveal_strlit("de_7b_studio_neutral");
    reveal_strlit("German Thorsten 7B studio neutral voice");
    reveal_strlit("0.5b");
    reveal_strlit("realtime");
    reveal_strlit("7b_studio_female");
    reveal_strlit("speaker_3");
    reveal_strlit("7b_studio_male");
    reveal_strlit("speaker_2");
    reveal_strlit("speaker_1");
    reveal_strlit("kristin");
    reveal_strlit("de_7b");
    reveal_strlit("german");
    reveal_strlit("fr_7b");
    reveal_strlit("french");
    reveal_strlit("es_7b");
    reveal_strlit("spanish");
    reveal_strlit("es_speaker");
    reveal_strlit("Amy");
    reveal_strlit("Bryce");
    reveal_strlit("DaveFX");
    reveal_strlit("Kristin");
    reveal_strlit("Lessac");
    reveal_strlit("Ryan");
    reveal_strlit("Siwis");
    reveal_strlit("Thorsten");
    reveal_with_fuel(crate::text::occurs_from, 48);
    reveal_with_fuel(crate::text::matches_from, 18);
    lemma_contains_decided("de_7b_studio_neutral"@, "0.5b"@);
    lemma_contains_decided("de_7b_studio_neutral"@, "realtime"@);
    lemma_contains_decided("de_7b_studio_neutral"@, "7b_studio_female"@);
    lemma_contains_decided("de_7b_studio_neutral"@, "speaker_3"@);
    lemma_contains_decided("de_7b_studio_neutral"@, "7b_studio_male"@);
    lemma_contains_decided("de_7b_studio_neutral"@, "speaker_2"@);
    lemma_contains_decided("de_7b_studio_neutral"@, "speaker_1"@);
    lemma_contains_decided("de_7b_studio_neutral"@, "kristin"@);
    lemma_contains_decided("de_7b_studio_neutral"@, "de_7b"@);
    lemma_contains_decided("de_7b_studio_neutral"@, "german"@);
    lemma_contains_decided("de_7b_studio_neutral"@, "fr_7b"@);
    lemma_contains_decided("de_7b_studio_neutral"@, "french"@);
    lemma_contains_decided("de_7b_studio_neutral"@, "es_7b"@);
    lemma_contains_decided("de_7b_studio_neutral"@, "spanish"@);
    lemma_contains_decided("de_7b_studio_neutral"@, "es_speaker"@);
    assert forall|m: VoiceModel| contains_seq("German Thorsten 7B studio neutral voice"@, speaker_display(m)) <==> speaker_display(m) == speaker_display(VoiceModel::ThorstenHigh) by {
        lemma_contains_decided("German Thorsten 7B studio neutral voice"@, speaker_display(m));
    }
}

proof fn lemma_preset_9()
    ensures
        voice_for_speaker("fr_7b_studio_neutral"@) == VoiceModel::SiwisMedium,
        forall|m: VoiceModel| contains_seq("French Siwis 7B studio neutral voice"@, speaker_display(m)) <==> speaker_display(m) == speaker_display(VoiceModel::SiwisMedium),
{
    broadcast use vstd::string::group_string_axioms;

    reveal_strlit("fr_7b_studio_neutral");
    reveal_strlit("French Siwis 7B studio neutral voice");
    reveal_strlit("0.5b");
    reveal_strlit("realtime");
    reveal_strlit("7b_studio_female");
    reveal_strlit("speaker_3");
    reveal_strlit("7b_studio_male");
    reveal_strlit("speaker_2");
    reveal_strlit("speaker_1");
    reveal_strlit("kristin");
    reveal_strlit("de_7b");
    reveal_strlit("german");
    reveal_strlit("fr_7b");
    reveal_strlit("french");
    reveal_strlit("es_7b");
    reveal_strlit("spanish");
    reveal_strlit("es_speaker");
    reveal_strlit("Amy");
    reveal_strlit("Bryce");
    reveal_strlit("DaveFX");
    reveal_strlit("Kristin");
    reveal_strlit("Lessac");
    reveal_strlit("Ryan");
    reveal_strlit("Siwis");
    reveal_strlit("Thorsten");
    reveal_with_fuel(crate::text::occurs_from, 48);
    reveal_with_fuel(crate::text::matches_from, 18);
    lemma_contains_decided("fr_7b_studio_neutral"@, "0.5b"@);
    lemma_contains_decided("fr_7b_studio_neutral"@, "realtime"@);
    lemma_contains_decided("fr_7b_studio_neutral"@, "7b_studio_female"@);
    lemma_contains_decided("fr_7b_studio_neutral"@, "speaker_3"@);
    lemma_contains_decided("fr_7b_studio_neutral"@, "7b_studio_male"@);
    lemma_contains_decided("fr_7b_studio_neutral"@, "speaker_2"@);
    lemma_contains_decided("fr_7b_studio_neutral"@, "speaker_1"@);
    lemma_contains_decided("fr_7b_studio_neutral"@, "kristin"@);
    lemma_contains_decided("fr_7b_studio_neutral"@, "de_7b"@);
    lemma_contains_decided("fr_7b_studio_neutral"@, "german"@);
    lemma_contains_decided("fr_7b_studio_neutral"@, "fr_7b"@);
    lemma_contains_decided("fr_7b_studio_neutral"@, "french"@);
    lemma_contains_decided("fr_7b_studio_neutral"@, "es_7b"@);
    lemma_contains_decided("fr_7b_studio_neutral"@, "spanish"@);
    lemma_contains_decided("fr_7b_studio_neutral"@, "es_speaker"@);
    assert forall|m: VoiceModel| contains_seq("French Siwis 7B studio neutral voice"@, speaker_display(m)) <==> speaker_display(m) == speaker_display(VoiceModel::SiwisMedium) by {
        lemma_contains_decided("French Siwis 7B studio neutral voice"@, speaker_display(m));
    }
}

/// Each listed preset's description names no voice but the one its name
/// selects, and names that one unless it describes the tier alone (the
/// real-time and the multi-speaker presets).
pub proof fn lemma_presets_name_their_voices(i: int)
    requires
        0 <= i < speaker_table().len(),
    ensures
        ({
            let (name, tier, desc) = speaker_table()[i];
            &&& forall|m: VoiceModel|
                contains_seq(desc, speaker_display(m)) ==> speaker_display(m) == speaker_display(
                    voice_for_speaker(name),
                )
            &&& (i != 0 && i != 4) ==> contains_seq(desc, speaker_display(voice_for_speaker(name)))
        }),
{
    if i == 0 {
        lemma_preset_0();
    } else if i == 1 {
        lemma_preset_1();
    } else if i == 2 {
        lemma_preset_2();
    } else if i == 3 {
        lemma_preset_3();
    } else if i == 4 {
        lemma_preset_4();
    } else if i == 5 {
        lemma_preset_5();
    } else if i == 6 {
        lemma_preset_6();
    } else if i == 7 {
        lemma_preset_7();
    } else if i == 8 {
        lemma_preset_8();
    } else if i == 9 {
        lemma_preset_9();
    }
}

} // verus!
