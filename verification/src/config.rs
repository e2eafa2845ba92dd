//! The configuration keys and the `--set-config key=value` assignment:
//! which keys exist, how the text splits, and how each value is read.
use vstd::prelude::*;
use crate::text::{trim, trim_seq, str_equal, chars_of};
use crate::decimal::{
    decimal, IntErrorKind, parse_u32, parse_u32_spec, parse_bool, parse_bool_seq, int_error_message,
};

verus! {

/// A key of the configuration file.
#[derive(Clone, Copy, Debug, PartialEq, Eq, Structural)]
pub enum ConfigKey {
    /// The speaker preset used when none is given.
    DefaultSpeaker,
    /// The execution device: `auto`, `cpu` or `cuda`.
    Device,
    /// The speed multiplier used when none is given.
    DefaultSpeed,
    /// The output sample rate in Hz.
    SampleRate,
    /// The volume gain multiplier.
    VolumeGain,
    /// The pitch shift multiplier.
    PitchShift,
    /// The phoneme length scale.
    LengthScale,
    /// The phoneme noise scale.
    NoiseScale,
    /// The output file format.
    OutputFormat,
    /// Whether downloaded models are kept.
    CacheEnabled,
    /// A model directory that replaces the one beside the executable.
    CustomModelDir,
}

/// How the value of a key is read.
#[derive(Clone, Copy, Debug, PartialEq, Eq, Structural)]
pub enum ValueKind {
    /// Taken as it is written.
    Text,
    /// A `u32`.
    Rate,
    /// A `bool`.
    Flag,
    /// A decimal fraction, read by the caller.
    Decimal,
}

/// The name of a key in the configuration file.
pub open spec fn key_name(k: ConfigKey) -> Seq<char> {
    match k {
        ConfigKey::DefaultSpeaker => "default_speaker"@,
        ConfigKey::Device => "device"@,
        ConfigKey::DefaultSpeed => "default_speed"@,
        ConfigKey::SampleRate => "sample_rate"@,
        ConfigKey::VolumeGain => "volume_gain"@,
        ConfigKey::PitchShift => "pitch_shift"@,
        ConfigKey::LengthScale => "length_scale"@,
        ConfigKey::NoiseScale => "noise_scale"@,
        ConfigKey::OutputFormat => "output_format"@,
        ConfigKey::CacheEnabled => "cache_enabled"@,
        ConfigKey::CustomModelDir => "custom_model_dir"@,
    }
}

/// The key named `s`, if any.
pub open spec fn key_for_name(s: Seq<char>) -> Option<ConfigKey> {
    if s == "default_speaker"@ {
        Some(ConfigKey::DefaultSpeaker)
    } else if s == "device"@ {
        Some(ConfigKey::Device)
    } else if s == "default_speed"@ {
        Some(ConfigKey::DefaultSpeed)
    } else if s == "sample_rate"@ {
        Some(ConfigKey::SampleRate)
    } else if s == "volume_gain"@ {
        Some(ConfigKey::VolumeGain)
    } else if s == "pitch_shift"@ {
        Some(ConfigKey::PitchShift)
    } else if s == "length_scale"@ {
        Some(ConfigKey::LengthScale)
    } else if s == "noise_scale"@ {
        Some(ConfigKey::NoiseScale)
    } else if s == "output_format"@ {
        Some(ConfigKey::OutputFormat)
    } else if s == "cache_enabled"@ {
        Some(ConfigKey::CacheEnabled)
    } else if s == "custom_model_dir"@ {
        Some(ConfigKey::CustomModelDir)
    } else {
        None
    }
}

/// How the value of a key is read.
pub open spec fn key_kind(k: ConfigKey) -> ValueKind {
    match k {
        ConfigKey::DefaultSpeaker => ValueKind::Text,
        ConfigKey::Device => ValueKind::Text,
        ConfigKey::OutputFormat => ValueKind::Text,
        ConfigKey::CustomModelDir => ValueKind::Text,
        ConfigKey::SampleRate => ValueKind::Rate,
        ConfigKey::CacheEnabled => ValueKind::Flag,
        ConfigKey::DefaultSpeed => ValueKind::Decimal,
        ConfigKey::VolumeGain => ValueKind::Decimal,
        ConfigKey::PitchShift => ValueKind::Decimal,
        ConfigKey::LengthScale => ValueKind::Decimal,
        ConfigKey::NoiseScale => ValueKind::Decimal,
    }
}

impl ConfigKey {
    /// The key's name in the configuration file.
    pub fn name(&self) -> (s: &'static str)
        ensures
            s@ == key_name(*self),
    {
        match self {
            ConfigKey::DefaultSpeaker => "default_speaker",
            ConfigKey::Device => "device",
            ConfigKey::DefaultSpeed => "default_speed",
            ConfigKey::SampleRate => "sample_rate",
            ConfigKey::VolumeGain => "volume_gain",
            ConfigKey::PitchShift => "pitch_shift",
            ConfigKey::LengthScale => "length_scale",
            ConfigKey::NoiseScale => "noise_scale",
            ConfigKey::OutputFormat => "output_format",
            ConfigKey::CacheEnabled => "cache_enabled",
            ConfigKey::CustomModelDir => "custom_model_dir",
        }
    }

    /// The key named `name`, if any.
    pub fn from_name(name: &str) -> (k: Option<ConfigKey>)
        ensures
            k == key_for_name(name@),
    {
        if str_equal(name, "default_speaker") {
            Some(ConfigKey::DefaultSpeaker)
        } else if str_equal(name, "device") {
            Some(ConfigKey::Device)
        } else if str_equal(name, "default_speed") {
            Some(ConfigKey::DefaultSpeed)
        } else if str_equal(name, "sample_rate") {
            Some(ConfigKey::SampleRate)
        } else if str_equal(name, "volume_gain") {
            Some(ConfigKey::VolumeGain)
        } else if str_equal(name, "pitch_shift") {
            Some(ConfigKey::PitchShift)
        } else if str_equal(name, "length_scale") {
            Some(ConfigKey::LengthScale)
        } else if str_equal(name, "noise_scale") {
            Some(ConfigKey::NoiseScale)
        } else if str_equal(name, "output_format") {
            Some(ConfigKey::OutputFormat)
        } else if str_equal(name, "cache_enabled") {
            Some(ConfigKey::CacheEnabled)
        } else if str_equal(name, "custom_model_dir") {
            Some(ConfigKey::CustomModelDir)
        } else {
            None
        }
    }

    /// How the key's value is read.
    pub fn kind(&self) -> (v: ValueKind)
        ensures
            v == key_kind(*self),
    {
        match self {
            ConfigKey::DefaultSpeaker => ValueKind::Text,
            ConfigKey::Device => ValueKind::Text,
            ConfigKey::OutputFormat => ValueKind::Text,
            ConfigKey::CustomModelDir => ValueKind::Text,
            ConfigKey::SampleRate => ValueKind::Rate,
            ConfigKey::CacheEnabled => ValueKind::Flag,
            ConfigKey::DefaultSpeed => ValueKind::Decimal,
            ConfigKey::VolumeGain => ValueKind::Decimal,
            ConfigKey::PitchShift => ValueKind::Decimal,
            ConfigKey::LengthScale => ValueKind::Decimal,
            ConfigKey::NoiseScale => ValueKind::Decimal,
        }
    }
}

/// Every key is found again by its name, and by no other key's name.
pub proof fn lemma_key_names_roundtrip(k: ConfigKey)
    ensures
        key_for_name(key_name(k)) == Some(k),
{
    broadcast use vstd::string::group_string_axioms;

    reveal_strlit("default_speaker");
    reveal_strlit("device");
    reveal_strlit("default_speed");
    reveal_strlit("sample_rate");
    reveal_strlit("volume_gain");
    reveal_strlit("pitch_shift");
    reveal_strlit("length_scale");
    reveal_strlit("noise_scale");
    reveal_strlit("output_format");
    reveal_strlit("cache_enabled");
    reveal_strlit("custom_model_dir");
    let s = key_name(k);
    assert(s.len() != "default_speaker"@.len() || s[8] != "default_speaker"@[8] || s
        == "default_speaker"@);
    assert(s.len() != "default_speed"@.len() || s[0] != "default_speed"@[0] || s
        == "default_speed"@);
    assert(s.len() != "sample_rate"@.len() || s[0] != "sample_rate"@[0] || s == "sample_rate"@);
    assert(s.len() != "volume_gain"@.len() || s[0] != "volume_gain"@[0] || s == "volume_gain"@);
    assert(s.len() != "pitch_shift"@.len() || s[0] != "pitch_shift"@[0] || s == "pitch_shift"@);
    assert(s.len() != "length_scale"@.len() || s[0] != "length_scale"@[0] || s
        == "length_scale"@);
    assert(s.len() != "noise_scale"@.len() || s[0] != "noise_scale"@[0] || s == "noise_scale"@);
    assert(s.len() != "output_format"@.len() || s[0] != "output_format"@[0] || s
        == "output_format"@);
    assert(s.len() != "cache_enabled"@.len() || s[0] != "cache_enabled"@[0] || s
        == "cache_enabled"@);
    assert(s.len() != "device"@.len() || s == "device"@);
    assert(s.len() != "custom_model_dir"@.len() || s == "custom_model_dir"@);
}

/// The value of an assignment, read as its key asks.
#[derive(Debug, PartialEq, Eq)]
pub enum ConfigValue {
    /// A text value.
    Text(String),
    /// A `u32` value.
    Rate(u32),
    /// A `bool` value.
    Flag(bool),
    /// A decimal fraction, as written (the caller reads it).
    Decimal(String),
}

/// A `key=value` assignment whose key is known and whose value reads.
#[derive(Debug, PartialEq, Eq)]
pub struct ConfigAssignment {
    /// The key assigned.
    pub key: ConfigKey,
    /// The value, read as the key asks.
    pub value: ConfigValue,
    /// The value as written, without surrounding whitespace.
    pub text: String,
}

/// Why a `key=value` assignment is refused.
#[derive(Debug, PartialEq, Eq)]
pub enum SetConfigError {
    /// The text holds no `=`.
    MissingSeparator,
    /// The key is not one of the configuration's.
    UnknownKey(String),
    /// The value of a `u32` key does not read as one.
    InvalidRate(String, IntErrorKind),
    /// The value of a `bool` key is neither `true` nor `false`.
    InvalidFlag(String),
}

/// What an assignment comes to, over character sequences.
pub enum SettingView {
    /// The key is assigned this value, written as this text.
    Assign(ConfigKey, ValueView, Seq<char>),
    /// No `=` in the text.
    MissingSeparator,
    /// This key is unknown.
    UnknownKey(Seq<char>),
    /// This value does not read as a `u32`, for this reason.
    InvalidRate(Seq<char>, IntErrorKind),
    /// This value does not read as a `bool`.
    InvalidFlag(Seq<char>),
}

/// A value, over character sequences.
pub enum ValueView {
    /// A text value.
    Text(Seq<char>),
    /// A `u32` value.
    Rate(u32),
    /// A `bool` value.
    Flag(bool),
    /// A decimal fraction, as written.
    Decimal(Seq<char>),
}

/// The position of the first `c` in `s` at or after `i`.
pub open spec fn index_of_from(s: Seq<char>, c: char, i: nat) -> Option<nat>
    decreases s.len() - i,
{
    if i >= s.len() {
        None
    } else if s[i as int] == c {
        Some(i)
    } else {
        index_of_from(s, c, i + 1)
    }
}

/// What `--set-config` does with `pair`: split at the first `=`, trim both
/// sides, look the key up, and read the value as the key asks.
pub open spec fn set_config_spec(pair: Seq<char>) -> SettingView {
    match index_of_from(pair, '=', 0) {
        None => SettingView::MissingSeparator,
        Some(i) => {
            let key = trim_seq(pair.take(i as int));
            let val = trim_seq(pair.skip(i + 1 as int));
            match key_for_name(key) {
                None => SettingView::UnknownKey(key),
                Some(k) => match key_kind(k) {
                    ValueKind::Text => SettingView::Assign(k, ValueView::Text(val), val),
                    ValueKind::Decimal => SettingView::Assign(k, ValueView::Decimal(val), val),
                    ValueKind::Rate => match parse_u32_spec(val) {
                        Ok(n) => SettingView::Assign(k, ValueView::Rate(n), val),
                        Err(e) => SettingView::InvalidRate(val, e),
                    },
                    ValueKind::Flag => match parse_bool_seq(val) {
                        Some(b) => SettingView::Assign(k, ValueView::Flag(b), val),
                        None => SettingView::InvalidFlag(val),
                    },
                },
            }
        },
    }
}

/// The view of a value.
pub open spec fn value_view(v: ConfigValue) -> ValueView {
    match v {
        ConfigValue::Text(s) => ValueView::Text(s@),
        ConfigValue::Rate(n) => ValueView::Rate(n),
        ConfigValue::Flag(b) => ValueView::Flag(b),
        ConfigValue::Decimal(s) => ValueView::Decimal(s@),
    }
}

/// The view of what an assignment came to.
pub open spec fn setting_view(r: Result<ConfigAssignment, SetConfigError>) -> SettingView {
    match r {
        Ok(a) => SettingView::Assign(a.key, value_view(a.value), a.text@),
        Err(SetConfigError::MissingSeparator) => SettingView::MissingSeparator,
        Err(SetConfigError::UnknownKey(k)) => SettingView::UnknownKey(k@),
        Err(SetConfigError::InvalidRate(v, e)) => SettingView::InvalidRate(v@, e),
        Err(SetConfigError::InvalidFlag(v)) => SettingView::InvalidFlag(v@),
    }
}

/// The text with which a refused assignment is reported.
pub open spec fn set_config_error_message(e: SetConfigError) -> Seq<char> {
    match e {
        SetConfigError::MissingSeparator => "Invalid format for --set-config. Use format: key=value (e.g. default_speaker=en_7b_studio_male)"@,
        SetConfigError::UnknownKey(k) => "Unknown configuration key '"@ + k@ + "'"@,
        SetConfigError::InvalidRate(_, kind) => int_error_message(kind),
        SetConfigError::InvalidFlag(_) => "provided string was not `true` or `false`"@,
    }
}

impl SetConfigError {
    /// The text with which the refusal is reported.
    pub fn message(&self) -> (s: String)
        ensures
            s@ == set_config_error_message(*self),
    {
        match self {
            SetConfigError::MissingSeparator => "Invalid format for --set-config. Use format: key=value (e.g. default_speaker=en_7b_studio_male)".to_owned(),
            SetConfigError::UnknownKey(k) => {
                let mut s = "Unknown configuration key '".to_owned();
                s.append(k.as_str());
                s.append("'");
                s
            },
            SetConfigError::InvalidRate(_, kind) => kind.message().to_owned(),
            SetConfigError::InvalidFlag(_) => "provided string was not `true` or `false`".to_owned(),
        }
    }
}

/// The position of the first `c` in `v`, if any.
fn index_of(v: &Vec<char>, c: char) -> (r: Option<usize>)
    ensures
        match r {
            Some(i) => index_of_from(v@, c, 0) == Some(i as nat) && i < v.len(),
            None => index_of_from(v@, c, 0) is None,
        },
{
    let n: usize = v.len();
    let mut i: usize = 0;
    while i < n
        invariant
            n == v.len(),
            i <= n,
            index_of_from(v@, c, 0) == index_of_from(v@, c, i as nat),
        decreases n - i,
    {
        if v[i] == c {
            return Some(i);
        }
        i = i + 1;
    }
    None
}

/// Reads a `--set-config` assignment `key=value`: the text is split at the
/// first `=`, both sides lose their surrounding whitespace, the key must be
/// one of the configuration's, and the value must read as the key asks.
pub fn parse_set_config(pair: &str) -> (r: Result<ConfigAssignment, SetConfigError>)
    ensures
        setting_view(r) == set_config_spec(pair@),
{
    let cs = chars_of(pair);
    let eq: usize = match index_of(&cs, '=') {
        Some(i) => i,
        None => {
            return Err(SetConfigError::MissingSeparator);
        },
    };
    let key = trim(pair.substring_char(0, eq));
    let val = trim(pair.substring_char(eq + 1, cs.len()));
    assert(pair@.take(eq as int) == pair@.subrange(0, eq as int));
    assert(pair@.skip(eq + 1) == pair@.subrange(eq + 1, cs.len() as int));
    let k = match ConfigKey::from_name(key.as_str()) {
        Some(k) => k,
        None => {
            return Err(SetConfigError::UnknownKey(key));
        },
    };
    match k.kind() {
        ValueKind::Text => {
            let text = val.clone();
            Ok(ConfigAssignment { key: k, value: ConfigValue::Text(val), text })
        },
        ValueKind::Decimal => {
            let text = val.clone();
            Ok(ConfigAssignment { key: k, value: ConfigValue::Decimal(val), text })
        },
        ValueKind::Rate => match parse_u32(val.as_str()) {
            Ok(n) => Ok(ConfigAssignment { key: k, value: ConfigValue::Rate(n), text: val }),
            Err(e) => Err(SetConfigError::InvalidRate(val, e)),
        },
        ValueKind::Flag => match parse_bool(val.as_str()) {
            Some(b) => Ok(ConfigAssignment { key: k, value: ConfigValue::Flag(b), text: val }),
            None => Err(SetConfigError::InvalidFlag(val)),
        },
    }
}

proof fn lemma_index_of_at(s: Seq<char>, c: char, i: nat, j: nat)
    requires
        i <= j < s.len(),
        s[j as int] == c,
        forall|k: int| i <= k < j ==> s[k] != c,
    ensures
        index_of_from(s, c, i) == Some(j),
    decreases j - i,
{
    if i < j {
        lemma_index_of_at(s, c, i + 1, j);
    }
}

proof fn lemma_key_name_shape(k: ConfigKey)
    ensures
        key_name(k).len() > 0,
        !crate::text::is_space(key_name(k)[0]),
        !crate::text::is_space(key_name(k).last()),
        forall|i: int| 0 <= i < key_name(k).len() ==> #[trigger] key_name(k)[i] != '=',
{
    broadcast use vstd::string::group_string_axioms;

    reveal_strlit("default_speaker");
    reveal_strlit("device");
    reveal_strlit("default_speed");
    reveal_strlit("sample_rate");
    reveal_strlit("volume_gain");
    reveal_strlit("pitch_shift");
    reveal_strlit("length_scale");
    reveal_strlit("noise_scale");
    reveal_strlit("output_format");
    reveal_strlit("cache_enabled");
    reveal_strlit("custom_model_dir");
}

/// `<name>=<value>`, the text that assigns `value` to the key named `name`.
pub open spec fn assignment_text(k: ConfigKey, value: Seq<char>) -> Seq<char> {
    key_name(k) + "="@ + value
}

proof fn lemma_assignment_split(k: ConfigKey, value: Seq<char>)
    ensures
        ({
            let p = assignment_text(k, value);
            &&& index_of_from(p, '=', 0) == Some(key_name(k).len())
            &&& trim_seq(p.take(key_name(k).len() as int)) == key_name(k)
            &&& p.skip(key_name(k).len() + 1 as int) == value
        }),
{
    broadcast use vstd::string::group_string_axioms;

    reveal_strlit("=");
    let n = key_name(k);
    let p = assignment_text(k, value);
    lemma_key_name_shape(k);
    assert forall|i: int| 0 <= i < n.len() implies p[i] != '=' by {
        assert(p[i] == n[i]);
    }
    assert(p[n.len() as int] == '=');
    lemma_index_of_at(p, '=', 0, n.len());
    assert(p.take(n.len() as int) =~= n);
    crate::text::lemma_trim_unchanged(n);
    assert(p.skip(n.len() + 1 as int) =~= value);
}

/// Assigning a text key any value without surrounding whitespace sets that
/// key to that value.
pub proof fn lemma_set_text_key(k: ConfigKey, value: Seq<char>)
    requires
        key_kind(k) == ValueKind::Text,
        trim_seq(value) == value,
    ensures
        set_config_spec(assignment_text(k, value)) == SettingView::Assign(
            k,
            ValueView::Text(value),
            value,
        ),
{
    lemma_assignment_split(k, value);
    lemma_key_names_roundtrip(k);
}

/// Assigning the sample rate the decimal text of any `u32` sets it to that number.
pub proof fn lemma_set_sample_rate(n: u32)
    ensures
        set_config_spec(assignment_text(ConfigKey::SampleRate, decimal(n as nat)))
            == SettingView::Assign(ConfigKey::SampleRate, ValueView::Rate(n), decimal(n as nat)),
{
    let d = decimal(n as nat);
    lemma_assignment_split(ConfigKey::SampleRate, d);
    lemma_key_names_roundtrip(ConfigKey::SampleRate);
    crate::decimal::lemma_decimal_is_trimmed(n as nat);
    crate::decimal::lemma_parse_decimal_roundtrip(n);
}

/// The settings of a new configuration file other than the fractional ones.
#[derive(Debug, PartialEq, Eq)]
pub struct BaseSettings {
    /// The speaker preset used when none is given.
    pub default_speaker: String,
    /// The execution device.
    pub device: String,
    /// The output sample rate in Hz.
    pub sample_rate: u32,
    /// The output file format.
    pub output_format: String,
    /// Whether downloaded models are kept.
    pub cache_enabled: bool,
    /// A model directory that replaces the one beside the executable.
    pub custom_model_dir: Option<String>,
}

impl BaseSettings {
    /// The defaults of a new configuration file: the `en_7b_studio_male`
    /// speaker, the `auto` device, 22050 Hz, `wav`, caching on and no custom
    /// model directory.
    pub fn defaults() -> (b: BaseSettings)
        ensures
            b.default_speaker@ == "en_7b_studio_male"@,
            b.device@ == "auto"@,
            b.sample_rate == 22050,
            b.output_format@ == "wav"@,
            b.cache_enabled,
            b.custom_model_dir is None,
    {
        BaseSettings {
            default_speaker: "en_7b_studio_male".to_owned(),
            device: "auto".to_owned(),
            sample_rate: 22050,
            output_format: "wav".to_owned(),
            cache_enabled: true,
            custom_model_dir: None,
        }
    }
}

/// The text of a `bool`: `true` or `false`.
pub open spec fn bool_text(b: bool) -> Seq<char> {
    if b {
        "true"@
    } else {
        "false"@
    }
}

/// Assigning a flag key `true` switches it on, and `false` switches it off.
pub proof fn lemma_set_flag(k: ConfigKey, b: bool)
    requires
        key_kind(k) == ValueKind::Flag,
    ensures
        set_config_spec(assignment_text(k, bool_text(b))) == SettingView::Assign(
            k,
            ValueView::Flag(b),
            bool_text(b),
        ),
{
    broadcast use vstd::string::group_string_axioms;

    reveal_strlit("true");
    reveal_strlit("false");
    let t = bool_text(b);
    lemma_assignment_split(k, t);
    lemma_key_names_roundtrip(k);
    assert(!crate::text::is_space(t[0]) && !crate::text::is_space(t.last()));
    crate::text::lemma_trim_unchanged(t);
    assert("false"@ != "true"@) by {
        assert("false"@.len() != "true"@.len());
    }
}

/// An assigned flag is on exactly when its value was written `true`, and off
/// exactly when it was written `false`.
pub proof fn lemma_flag_follows_text(pair: Seq<char>)
    ensures
        set_config_spec(pair) matches SettingView::Assign(_, ValueView::Flag(b), t) ==> t
            == bool_text(b),
{
}

/// A text or decimal value is the trimmed text written after the `=`, as it is.
pub proof fn lemma_text_values_are_kept(pair: Seq<char>)
    ensures
        set_config_spec(pair) matches SettingView::Assign(_, ValueView::Text(v), t) ==> v == t,
        set_config_spec(pair) matches SettingView::Assign(_, ValueView::Decimal(v), t) ==> v == t,
        set_config_spec(pair) matches SettingView::Assign(_, _, t) ==> trim_seq(t) == t,
{
    match index_of_from(pair, '=', 0) {
        Some(i) => {
            crate::text::lemma_trim_idempotent(pair.skip(i + 1 as int));
        },
        None => {},
    }
}

} // verus!
