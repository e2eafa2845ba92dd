use vibevoicecli::config::{
    parse_set_config, BaseSettings, ConfigAssignment, ConfigKey, ConfigValue, SetConfigError, ValueKind,
};
use vibevoicecli::decimal::IntErrorKind;

#[test]
fn readme_set_default_speaker() {
    assert_eq!(
        parse_set_config("default_speaker=en_7b_studio_female"),
        Ok(ConfigAssignment {
            key: ConfigKey::DefaultSpeaker,
            value: ConfigValue::Text("en_7b_studio_female".to_string()),
            text: "en_7b_studio_female".to_string(),
        })
    );
    assert_eq!(
        parse_set_config("default_speaker=en_7b_studio_male").map(|a| a.key),
        Ok(ConfigKey::DefaultSpeaker)
    );
}

#[test]
fn keys_and_values_are_trimmed() {
    let a = parse_set_config("  device =  cuda ").unwrap();
    assert_eq!(a.key, ConfigKey::Device);
    assert_eq!(a.value, ConfigValue::Text("cuda".to_string()));
    assert_eq!(a.text, "cuda");
}

#[test]
fn value_may_hold_equals_signs() {
    let a = parse_set_config("custom_model_dir=/a=b").unwrap();
    assert_eq!(a.key, ConfigKey::CustomModelDir);
    assert_eq!(a.value, ConfigValue::Text("/a=b".to_string()));
}

#[test]
fn typed_values() {
    assert_eq!(
        parse_set_config("sample_rate=44100").map(|a| a.value),
        Ok(ConfigValue::Rate(44100))
    );
    assert_eq!(
        parse_set_config("cache_enabled=false").map(|a| a.value),
        Ok(ConfigValue::Flag(false))
    );
    assert_eq!(
        parse_set_config("volume_gain=1.5").map(|a| a.value),
        Ok(ConfigValue::Decimal("1.5".to_string()))
    );
    assert_eq!(parse_set_config("output_format=").map(|a| a.value), Ok(ConfigValue::Text(String::new())));
}

#[test]
fn refusals() {
    assert_eq!(parse_set_config("default_speaker"), Err(SetConfigError::MissingSeparator));
    assert_eq!(
        parse_set_config("colour=blue"),
        Err(SetConfigError::UnknownKey("colour".to_string()))
    );
    assert_eq!(
        parse_set_config("sample_rate=fast"),
        Err(SetConfigError::InvalidRate("fast".to_string(), IntErrorKind::InvalidDigit))
    );
    assert_eq!(
        parse_set_config("sample_rate="),
        Err(SetConfigError::InvalidRate(String::new(), IntErrorKind::Empty))
    );
    assert_eq!(
        parse_set_config("sample_rate=99999999999"),
        Err(SetConfigError::InvalidRate("99999999999".to_string(), IntErrorKind::PosOverflow))
    );
    assert_eq!(
        parse_set_config("cache_enabled=yes"),
        Err(SetConfigError::InvalidFlag("yes".to_string()))
    );
}

#[test]
fn refusal_messages() {
    assert_eq!(
        SetConfigError::MissingSeparator.message(),
        "Invalid format for --set-config. Use format: key=value (e.g. default_speaker=en_7b_studio_male)"
    );
    assert_eq!(
        SetConfigError::UnknownKey("colour".to_string()).message(),
        "Unknown configuration key 'colour'"
    );
    assert_eq!(
        SetConfigError::InvalidFlag("yes".to_string()).message(),
        "yes".parse::<bool>().unwrap_err().to_string()
    );
    assert_eq!(
        SetConfigError::InvalidRate("x".to_string(), IntErrorKind::InvalidDigit).message(),
        "invalid digit found in string"
    );
}

#[test]
fn key_names_round_trip() {
    let keys = [
        ConfigKey::DefaultSpeaker,
        ConfigKey::Device,
        ConfigKey::DefaultSpeed,
        ConfigKey::SampleRate,
        ConfigKey::VolumeGain,
        ConfigKey::PitchShift,
        ConfigKey::LengthScale,
        ConfigKey::NoiseScale,
        ConfigKey::OutputFormat,
        ConfigKey::CacheEnabled,
        ConfigKey::CustomModelDir,
    ];
    for k in keys.iter() {
        assert_eq!(ConfigKey::from_name(k.name()), Some(*k));
    }
    assert_eq!(ConfigKey::from_name("Device"), None);
    assert_eq!(ConfigKey::SampleRate.kind(), ValueKind::Rate);
    assert_eq!(ConfigKey::CacheEnabled.kind(), ValueKind::Flag);
    assert_eq!(ConfigKey::NoiseScale.kind(), ValueKind::Decimal);
    assert_eq!(ConfigKey::Device.kind(), ValueKind::Text);
}

#[test]
fn sample_rate_assignment_round_trip() {
    for n in [0u32, 16000, 22050, 48000, u32::MAX].iter() {
        let text = format!("sample_rate={}", n);
        assert_eq!(parse_set_config(&text).map(|a| a.value), Ok(ConfigValue::Rate(*n)));
    }
}

#[test]
fn readme_defaults() {
    let d = BaseSettings::defaults();
    assert_eq!(d.default_speaker, "en_7b_studio_male");
    assert_eq!(d.device, "auto");
    assert_eq!(d.sample_rate, 22050);
    assert_eq!(d.output_format, "wav");
    assert!(d.cache_enabled);
    assert_eq!(d.custom_model_dir, None);
}
