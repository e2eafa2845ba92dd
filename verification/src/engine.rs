//! The engine's decisions: where models live, which speaker presets exist,
//! which engine archive fits the platform, what must be downloaded before a
//! synthesis can run and what may not be done offline.
use vstd::prelude::*;
use crate::text::str_equal;
use crate::voices::{VoiceModel, model_file_spec};

verus! {

/// A prebuilt archive of the neural engine binary for one platform.
#[derive(Clone, Copy, Debug, PartialEq, Eq, Structural)]
pub enum EngineArchive {
    /// The Windows x86-64 zip archive.
    WindowsZip,
    /// The macOS x86-64 tarball.
    MacTarball,
    /// The Linux x86-64 tarball, also used on any other platform.
    LinuxTarball,
}

/// The archive for the operating system named `os` (as `std::env::consts::OS` names it).
pub open spec fn archive_for_os(os: Seq<char>) -> EngineArchive {
    if os == "windows"@ {
        EngineArchive::WindowsZip
    } else if os == "macos"@ {
        EngineArchive::MacTarball
    } else {
        EngineArchive::LinuxTarball
    }
}

/// The file name of an engine archive.
pub open spec fn archive_name_spec(a: EngineArchive) -> Seq<char> {
    match a {
        EngineArchive::WindowsZip => "piper_windows_amd64.zip"@,
        EngineArchive::MacTarball => "piper_macos_x86_64.tar.gz"@,
        EngineArchive::LinuxTarball => "piper_linux_x86_64.tar.gz"@,
    }
}

/// Where an engine archive is downloaded from.
pub open spec fn archive_url_spec(a: EngineArchive) -> Seq<char> {
    match a {
        EngineArchive::WindowsZip => "https://github.com/rhasspy/piper/releases/download/2023.11.14-2/piper_windows_amd64.zip"@,
        EngineArchive::MacTarball => "https://github.com/rhasspy/piper/releases/download/2023.11.14-2/piper_macos_x86_64.tar.gz"@,
        EngineArchive::LinuxTarball => "https://github.com/rhasspy/piper/releases/download/2023.11.14-2/piper_linux_x86_64.tar.gz"@,
    }
}

impl EngineArchive {
    /// The archive for the operating system named `os`.
    pub fn for_os(os: &str) -> (a: EngineArchive)
        ensures
            a == archive_for_os(os@),
    {
        if str_equal(os, "windows") {
            EngineArchive::WindowsZip
        } else if str_equal(os, "macos") {
            EngineArchive::MacTarball
        } else {
            EngineArchive::LinuxTarball
        }
    }

    /// The archive's file name.
    pub fn file_name(&self) -> (s: &'static str)
        ensures
            s@ == archive_name_spec(*self),
    {
        match self {
            EngineArchive::WindowsZip => "piper_windows_amd64.zip",
            EngineArchive::MacTarball => "piper_macos_x86_64.tar.gz",
            EngineArchive::LinuxTarball => "piper_linux_x86_64.tar.gz",
        }
    }

    /// Where the archive is downloaded from.
    pub fn url(&self) -> (s: &'static str)
        ensures
            s@ == archive_url_spec(*self),
    {
        match self {
            EngineArchive::WindowsZip => "https://github.com/rhasspy/piper/releases/download/2023.11.14-2/piper_windows_amd64.zip",
            EngineArchive::MacTarball => "https://github.com/rhasspy/piper/releases/download/2023.11.14-2/piper_macos_x86_64.tar.gz",
            EngineArchive::LinuxTarball => "https://github.com/rhasspy/piper/releases/download/2023.11.14-2/piper_linux_x86_64.tar.gz",
        }
    }
}

/// Why the engine cannot go on.
#[derive(Clone, Copy, Debug, PartialEq, Eq, Structural)]
pub enum EngineError {
    /// No model directory was given and the one beside the executable is unknown.
    ModelsDirUnavailable,
    /// Offline mode forbids downloading the missing engine binary.
    EngineMissingOffline,
    /// Offline mode forbids downloading the missing files of this model.
    ModelMissingOffline {
        /// The model whose files are missing.
        model: VoiceModel,
    },
    /// The engine binary is still missing after its archive was extracted.
    EngineNotInstalled,
    /// A model file is still missing after the downloads.
    ModelNotInstalled {
        /// The model whose files are missing.
        model: VoiceModel,
    },
}

/// The text with which an error is reported.
pub open spec fn engine_error_message(e: EngineError) -> Seq<char> {
    match e {
        EngineError::ModelsDirUnavailable => "Failed to resolve the models directory beside the executable"@,
        EngineError::EngineMissingOffline => "Offline mode enabled, but neural engine binary is missing from binary directory."@,
        EngineError::ModelMissingOffline { model } => "Offline mode enabled, but model "@
            + model_file_spec(model) + " is missing from binary directory."@,
        EngineError::EngineNotInstalled => "Neural engine binary is missing after extracting its archive."@,
        EngineError::ModelNotInstalled { model } => "Model "@ + model_file_spec(model)
            + " is missing after its download."@,
    }
}

impl EngineError {
    /// The text with which the error is reported.
    pub fn message(&self) -> (s: String)
        ensures
            s@ == engine_error_message(*self),
    {
        match self {
            EngineError::ModelsDirUnavailable => "Failed to resolve the models directory beside the executable".to_owned(),
            EngineError::EngineMissingOffline => "Offline mode enabled, but neural engine binary is missing from binary directory.".to_owned(),
            EngineError::ModelMissingOffline { model } => {
                let mut s = "Offline mode enabled, but model ".to_owned();
                s.append(model.model_file_name());
                s.append(" is missing from binary directory.");
                s
            },
            EngineError::EngineNotInstalled => "Neural engine binary is missing after extracting its archive.".to_owned(),
            EngineError::ModelNotInstalled { model } => {
                let mut s = "Model ".to_owned();
                s.append(model.model_file_name());
                s.append(" is missing after its download.");
                s
            },
        }
    }
}

/// One argument of a command: a text or a path.
#[derive(Debug, PartialEq, Eq)]
pub enum CommandArg<P> {
    /// A text argument.
    Text(String),
    /// A path argument, passed as it is.
    Path(P),
}

/// A program to run and its arguments.
#[derive(Debug, PartialEq, Eq)]
pub struct ProcessCommand<P> {
    /// The program: a name looked up on the search path, or a path.
    pub program: CommandArg<P>,
    /// Its arguments, in order.
    pub args: Vec<CommandArg<P>>,
}

/// An argument over character sequences: a text, or a path.
pub enum ArgView<P> {
    Text(Seq<char>),
    Path(P),
}

/// The view of an argument.
pub open spec fn arg_view<P>(a: CommandArg<P>) -> ArgView<P> {
    match a {
        CommandArg::Text(s) => ArgView::Text(s@),
        CommandArg::Path(p) => ArgView::Path(p),
    }
}

/// The views of a list of arguments.
pub open spec fn arg_views<P>(v: Seq<CommandArg<P>>) -> Seq<ArgView<P>> {
    v.map_values(|a: CommandArg<P>| arg_view(a))
}

/// A text argument from a string slice.
fn text_arg<P>(s: &str) -> (a: CommandArg<P>)
    ensures
        arg_view(a) == ArgView::<P>::Text(s@),
{
    CommandArg::Text(s.to_owned())
}

/// One speaker preset: its name, its model tier and a description.
pub type SpeakerPreset = (&'static str, &'static str, &'static str);

/// The views of the speaker presets.
pub open spec fn preset_views(v: Seq<SpeakerPreset>) -> Seq<(Seq<char>, Seq<char>, Seq<char>)> {
    v.map_values(|p: SpeakerPreset| (p.0@, p.1@, p.2@))
}

/// The speaker presets and model tiers that the tool offers, in order.
pub open spec fn speaker_table() -> Seq<(Seq<char>, Seq<char>, Seq<char>)> {
    seq![
        ("en_0.5b_realtime"@, "0.5B Real-Time Tier"@, "Low latency 0.5B streaming voice (16kHz)"@),
        ("en_1.5b_speaker_0"@, "1.5B Medium Tier - Male"@, "Warm Bryce 1.5B neural voice (22kHz)"@),
        ("en_1.5b_speaker_1"@, "1.5B Medium Tier - Female"@, "Smooth Kristin 1.5B neural voice (22kHz)"@),
        ("en_1.5b_speaker_2"@, "1.5B Medium Tier - Storyteller"@, "Deep Amy 1.5B narrator voice (22kHz)"@),
        ("en_1.5b_narrator"@, "1.5B Multi-Speaker Tier"@, "7.5Hz low frame rate multi-speaker synth"@),
        ("en_7b_studio_male"@, "7B Studio Tier - Male"@, "Ultra high-resolution Ryan 7B studio voice"@),
        ("en_7b_studio_female"@, "7B Studio Tier - Female"@, "Ultra high-resolution Lessac 7B studio voice"@),
        ("es_7b_studio_neutral"@, "7B Multilingual - Spanish"@, "Spanish DaveFX 7B studio neutral voice"@),
        ("de_7b_studio_neutral"@, "7B Multilingual - German"@, "German Thorsten 7B studio neutral voice"@),
        ("fr_7b_studio_neutral"@, "7B Multilingual - French"@, "French Siwis 7B studio neutral voice"@),
    ]
}

/// The synthesis engine: the directory that holds its binary and voice models.
pub struct VibeVoiceEngine<P> {
    model_dir: P,
}

impl<P> VibeVoiceEngine<P> {
    /// The directory that holds the engine binary and the voice models.
    pub closed spec fn model_dir_view(&self) -> P {
        self.model_dir
    }

    /// An engine whose model directory is, by precedence, the override, the
    /// configured directory, or the default one beside the executable
    /// (`None` where that could not be determined).
    pub fn new(
        config_model_dir: Option<P>,
        model_dir_override: Option<P>,
        default_model_dir: Option<P>,
    ) -> (r: Result<VibeVoiceEngine<P>, EngineError>)
        ensures
            match (model_dir_override, config_model_dir, default_model_dir) {
                (Some(d), _, _) => r matches Ok(e) && e.model_dir_view() == d,
                (None, Some(d), _) => r matches Ok(e) && e.model_dir_view() == d,
                (None, None, Some(d)) => r matches Ok(e) && e.model_dir_view() == d,
                (None, None, None) => r matches Err(e) && e == EngineError::ModelsDirUnavailable,
            },
    {
        let model_dir = match model_dir_override {
            Some(dir) => dir,
            None => match config_model_dir {
                Some(dir) => dir,
                None => match default_model_dir {
                    Some(dir) => dir,
                    None => {
                        return Err(EngineError::ModelsDirUnavailable);
                    },
                },
            },
        };
        Ok(VibeVoiceEngine { model_dir })
    }

    /// The directory that holds the engine binary and the voice models.
    pub fn model_dir(&self) -> (d: &P)
        ensures
            *d == self.model_dir_view(),
    {
        &self.model_dir
    }
}

impl VibeVoiceEngine<String> {
    /// All supported speaker presets, with their model tier and description.
    pub fn list_speakers() -> (r: Vec<SpeakerPreset>)
        ensures
            preset_views(r@) == speaker_table(),
    {
        let v: Vec<SpeakerPreset> = vec![
            ("en_0.5b_realtime", "0.5B Real-Time Tier", "Low latency 0.5B streaming voice (16kHz)"),
            ("en_1.5b_speaker_0", "1.5B Medium Tier - Male", "Warm Bryce 1.5B neural voice (22kHz)"),
            ("en_1.5b_speaker_1", "1.5B Medium Tier - Female", "Smooth Kristin 1.5B neural voice (22kHz)"),
            ("en_1.5b_speaker_2", "1.5B Medium Tier - Storyteller", "Deep Amy 1.5B narrator voice (22kHz)"),
            ("en_1.5b_narrator", "1.5B Multi-Speaker Tier", "7.5Hz low frame rate multi-speaker synth"),
            ("en_7b_studio_male", "7B Studio Tier - Male", "Ultra high-resolution Ryan 7B studio voice"),
            ("en_7b_studio_female", "7B Studio Tier - Female", "Ultra high-resolution Lessac 7B studio voice"),
            ("es_7b_studio_neutral", "7B Multilingual - Spanish", "Spanish DaveFX 7B studio neutral voice"),
            ("de_7b_studio_neutral", "7B Multilingual - German", "German Thorsten 7B studio neutral voice"),
            ("fr_7b_studio_neutral", "7B Multilingual - French", "French Siwis 7B studio neutral voice"),
        ];
        assert(preset_views(v@) =~= speaker_table());
        v
    }

    /// The sample rate of the written file: the configured one unless it is
    /// the 22050 Hz default of the settings, in which case the rate the
    /// engine generated.
    pub fn output_sample_rate(configured: u32, generated: u32) -> (r: u32)
        ensures
            r == (if configured != 22050 {
                configured
            } else {
                generated
            }),
    {
        if configured != 22050 {
            configured
        } else {
            generated
        }
    }

}

/// The names of the directories and files that the tool keeps.
pub struct Layout;

impl Layout {
    /// The directory, beside the executable, that holds the models.
    pub fn models_dir_name() -> (s: &'static str)
        ensures
            s@ == "models"@,
    {
        "models"
    }

    /// The directory, beside the executable, that holds temporary files.
    pub fn cache_dir_name() -> (s: &'static str)
        ensures
            s@ == "cache"@,
    {
        "cache"
    }

    /// The settings file beside the executable.
    pub fn config_file_name() -> (s: &'static str)
        ensures
            s@ == "config.json"@,
    {
        "config.json"
    }

    /// The output file, in the working directory, when none is given.
    pub fn default_output_name() -> (s: &'static str)
        ensures
            s@ == "output.wav"@,
    {
        "output.wav"
    }

    /// The file, in the cache directory, that the engine writes its speech to.
    pub fn engine_output_name() -> (s: &'static str)
        ensures
            s@ == "temp_neural_synth.wav"@,
    {
        "temp_neural_synth.wav"
    }

    /// The directory, under the models directory, used when none is given.
    pub fn default_model_subdir() -> (s: &'static str)
        ensures
            s@ == "vibevoice"@,
    {
        "vibevoice"
    }

    /// The directory, under the model directory, that holds the engine.
    pub fn engine_dir_name() -> (s: &'static str)
        ensures
            s@ == "piper"@,
    {
        "piper"
    }

    /// The file name of the engine binary on Windows or elsewhere.
    pub fn engine_binary_name(windows: bool) -> (s: &'static str)
        ensures
            s@ == (if windows {
                "piper.exe"@
            } else {
                "piper"@
            }),
    {
        if windows {
            "piper.exe"
        } else {
            "piper"
        }
    }
}

/// The command that extracts the engine archive at `archive_path` into
/// `dest_dir`: on Windows PowerShell's `Expand-Archive`, whose script names
/// both by their texts `archive_text` and `dest_text`; elsewhere `tar`, which
/// takes the paths as they are.
pub fn extract_command<P>(
    windows: bool,
    archive_path: P,
    dest_dir: P,
    archive_text: &str,
    dest_text: &str,
) -> (c: ProcessCommand<P>)
    ensures
        windows ==> arg_view(c.program) == ArgView::<P>::Text("powershell"@) && arg_views(c.args@)
            == seq![
            ArgView::<P>::Text("-Command"@),
            ArgView::<P>::Text(
                "Expand-Archive -Path '"@ + archive_text@ + "' -DestinationPath '"@ + dest_text@
                    + "' -Force"@,
            ),
        ],
        !windows ==> arg_view(c.program) == ArgView::<P>::Text("tar"@) && arg_views(c.args@)
            == seq![
            ArgView::<P>::Text("-xzf"@),
            ArgView::Path(archive_path),
            ArgView::<P>::Text("-C"@),
            ArgView::Path(dest_dir),
        ],
{
    if windows {
        let mut script = "Expand-Archive -Path '".to_owned();
        script.append(archive_text);
        script.append("' -DestinationPath '");
        script.append(dest_text);
        script.append("' -Force");
        let args = vec![text_arg("-Command"), CommandArg::Text(script)];
        assert(arg_views(args@) =~= seq![
            ArgView::<P>::Text("-Command"@),
            ArgView::<P>::Text(
                "Expand-Archive -Path '"@ + archive_text@ + "' -DestinationPath '"@ + dest_text@
                    + "' -Force"@,
            ),
        ]);
        ProcessCommand { program: text_arg("powershell"), args }
    } else {
        let args = vec![
            text_arg("-xzf"),
            CommandArg::Path(archive_path),
            text_arg("-C"),
            CommandArg::Path(dest_dir),
        ];
        assert(arg_views(args@) =~= seq![
            ArgView::<P>::Text("-xzf"@),
            ArgView::Path(archive_path),
            ArgView::<P>::Text("-C"@),
            ArgView::Path(dest_dir),
        ]);
        ProcessCommand { program: text_arg("tar"), args }
    }
}

/// The command that runs the engine binary `engine` with the model at
/// `model_path`, writing speech to `output_path`, with the length and noise
/// scales given as their texts.
pub fn synthesis_command<P>(
    engine: P,
    model_path: P,
    output_path: P,
    length_scale: &str,
    noise_scale: &str,
) -> (c: ProcessCommand<P>)
    ensures
        arg_view(c.program) == ArgView::Path(engine),
        arg_views(c.args@) == seq![
            ArgView::<P>::Text("--model"@),
            ArgView::Path(model_path),
            ArgView::<P>::Text("--output_file"@),
            ArgView::Path(output_path),
            ArgView::<P>::Text("--length_scale"@),
            ArgView::<P>::Text(length_scale@),
            ArgView::<P>::Text("--noise_scale"@),
            ArgView::<P>::Text(noise_scale@),
        ],
{
    let args = vec![
        text_arg("--model"),
        CommandArg::Path(model_path),
        text_arg("--output_file"),
        CommandArg::Path(output_path),
        text_arg("--length_scale"),
        text_arg(length_scale),
        text_arg("--noise_scale"),
        text_arg(noise_scale),
    ];
    assert(arg_views(args@) =~= seq![
        ArgView::<P>::Text("--model"@),
        ArgView::Path(model_path),
        ArgView::<P>::Text("--output_file"@),
        ArgView::Path(output_path),
        ArgView::<P>::Text("--length_scale"@),
        ArgView::<P>::Text(length_scale@),
        ArgView::<P>::Text("--noise_scale"@),
        ArgView::<P>::Text(noise_scale@),
    ]);
    ProcessCommand { program: CommandArg::Path(engine), args }
}

/// The stage that the installation of the engine and a voice model has reached.
#[derive(Clone, Copy, Debug, PartialEq, Eq, Structural)]
pub enum SetupPhase {
    /// Nothing is checked yet.
    CheckEngine,
    /// The engine archive has been downloaded.
    ArchiveFetched,
    /// The engine archive has been extracted.
    ArchiveExtracted,
    /// The model files have been seen or downloaded: all files are checked once more.
    Verify,
}

/// Which files are present in the model directory.
#[derive(Clone, Copy, Debug, PartialEq, Eq, Structural)]
pub struct Observation {
    /// The engine binary.
    pub binary: bool,
    /// The voice model's weights.
    pub weights: bool,
    /// The voice model's JSON configuration.
    pub config: bool,
}

/// What the installation asks to be done next.
#[derive(Clone, Copy, Debug, PartialEq, Eq, Structural)]
pub enum SetupAction {
    /// Download this engine archive into the model directory.
    FetchArchive(EngineArchive),
    /// Extract this downloaded archive into the model directory and remove it.
    Extract(EngineArchive),
    /// Download the model files marked here.
    FetchModel {
        /// Download the weights.
        weights: bool,
        /// Download the JSON configuration.
        config: bool,
    },
    /// The model files are cached: load them.
    LoadCached,
    /// Everything is in place.
    Finished,
}

/// The installation of the engine and of one voice model, run step by step:
/// each step looks at which files are present and says what to do next.
#[derive(Clone, Copy, Debug, PartialEq, Eq, Structural)]
pub struct ModelSetup {
    /// The stage reached.
    pub phase: SetupPhase,
    /// The voice model to install.
    pub voice: VoiceModel,
    /// No download is allowed.
    pub offline: bool,
    /// The engine archive for this platform.
    pub archive: EngineArchive,
}

/// The setup in another phase.
pub open spec fn with_phase(s: ModelSetup, phase: SetupPhase) -> ModelSetup {
    ModelSetup { phase, voice: s.voice, offline: s.offline, archive: s.archive }
}

/// With the engine in place: use the model files when both are present, an
/// error offline, else download the missing ones.
pub open spec fn model_decision(s: ModelSetup, o: Observation) -> Result<
    (ModelSetup, SetupAction),
    EngineError,
> {
    if o.weights && o.config {
        Ok((with_phase(s, SetupPhase::Verify), SetupAction::LoadCached))
    } else if s.offline {
        Err(EngineError::ModelMissingOffline { model: s.voice })
    } else {
        Ok(
            (
                with_phase(s, SetupPhase::Verify),
                SetupAction::FetchModel { weights: !o.weights, config: !o.config },
            ),
        )
    }
}

/// One step of the installation: the next state and action, or why it stops.
pub open spec fn setup_step(s: ModelSetup, o: Observation) -> Result<
    (ModelSetup, SetupAction),
    EngineError,
> {
    match s.phase {
        SetupPhase::CheckEngine => if o.binary {
            model_decision(s, o)
        } else if s.offline {
            Err(EngineError::EngineMissingOffline)
        } else {
            Ok((with_phase(s, SetupPhase::ArchiveFetched), SetupAction::FetchArchive(s.archive)))
        },
        SetupPhase::ArchiveFetched => Ok(
            (with_phase(s, SetupPhase::ArchiveExtracted), SetupAction::Extract(s.archive)),
        ),
        SetupPhase::ArchiveExtracted => if o.binary {
            model_decision(s, o)
        } else {
            Err(EngineError::EngineNotInstalled)
        },
        SetupPhase::Verify => if !o.binary {
            Err(EngineError::EngineNotInstalled)
        } else if !(o.weights && o.config) {
            Err(EngineError::ModelNotInstalled { model: s.voice })
        } else {
            Ok((s, SetupAction::Finished))
        },
    }
}

/// The setup before any step.
pub open spec fn initial_setup(voice: VoiceModel, offline: bool, os: Seq<char>) -> ModelSetup {
    ModelSetup { phase: SetupPhase::CheckEngine, voice, offline, archive: archive_for_os(os) }
}

impl ModelSetup {
    /// The installation of `voice` on the operating system named `os`,
    /// online or offline, before any step.
    pub fn new(voice: VoiceModel, offline: bool, os: &str) -> (s: ModelSetup)
        ensures
            s == initial_setup(voice, offline, os@),
    {
        ModelSetup {
            phase: SetupPhase::CheckEngine,
            voice,
            offline,
            archive: EngineArchive::for_os(os),
        }
    }

    /// Takes the files present now and says what to do next: download the
    /// engine archive, extract it, download the missing model files, load the
    /// cached ones, or finish; offline mode refuses any download, and files
    /// still missing after their download stop the installation.
    pub fn step(&mut self, present: Observation) -> (r: Result<SetupAction, EngineError>)
        ensures
            match setup_step(*old(self), present) {
                Ok((next, action)) => r == Ok::<SetupAction, EngineError>(action) && *final(self)
                    == next,
                Err(e) => r == Err::<SetupAction, EngineError>(e) && *final(self) == *old(self),
            },
    {
        match self.phase {
            SetupPhase::CheckEngine => {
                if present.binary {
                    self.decide_model(present)
                } else if self.offline {
                    Err(EngineError::EngineMissingOffline)
                } else {
                    self.phase = SetupPhase::ArchiveFetched;
                    Ok(SetupAction::FetchArchive(self.archive))
                }
            },
            SetupPhase::ArchiveFetched => {
                self.phase = SetupPhase::ArchiveExtracted;
                Ok(SetupAction::Extract(self.archive))
            },
            SetupPhase::ArchiveExtracted => {
                if present.binary {
                    self.decide_model(present)
                } else {
                    Err(EngineError::EngineNotInstalled)
                }
            },
            SetupPhase::Verify => {
                if !present.binary {
                    Err(EngineError::EngineNotInstalled)
                } else if !(present.weights && present.config) {
                    Err(EngineError::ModelNotInstalled { model: self.voice })
                } else {
                    Ok(SetupAction::Finished)
                }
            },
        }
    }

    fn decide_model(&mut self, present: Observation) -> (r: Result<SetupAction, EngineError>)
        ensures
            match model_decision(*old(self), present) {
                Ok((next, action)) => r == Ok::<SetupAction, EngineError>(action) && *final(self)
                    == next,
                Err(e) => r == Err::<SetupAction, EngineError>(e) && *final(self) == *old(self),
            },
    {
        if present.weights && present.config {
            self.phase = SetupPhase::Verify;
            Ok(SetupAction::LoadCached)
        } else if self.offline {
            Err(EngineError::ModelMissingOffline { model: self.voice })
        } else {
            self.phase = SetupPhase::Verify;
            Ok(SetupAction::FetchModel { weights: !present.weights, config: !present.config })
        }
    }
}

/// Every file present.
pub open spec fn all_present(o: Observation) -> bool {
    o.binary && o.weights && o.config
}

/// Once everything is installed, a new run (online or offline) downloads,
/// extracts and writes nothing: it loads the cached model and finishes.
pub proof fn lemma_installed_run_is_quiet(voice: VoiceModel, offline: bool, os: Seq<char>, o: Observation)
    requires
        all_present(o),
    ensures
        ({
            let s0 = initial_setup(voice, offline, os);
            let s1 = with_phase(s0, SetupPhase::Verify);
            &&& setup_step(s0, o) == Ok::<(ModelSetup, SetupAction), EngineError>(
                (s1, SetupAction::LoadCached),
            )
            &&& setup_step(s1, o) == Ok::<(ModelSetup, SetupAction), EngineError>(
                (s1, SetupAction::Finished),
            )
        }),
{
}

/// The installation finishes only when the engine binary and both model files are present.
pub proof fn lemma_finished_means_installed(s: ModelSetup, o: Observation)
    ensures
        setup_step(s, o) matches Ok((_, SetupAction::Finished)) ==> all_present(o),
{
}

/// Offline, nothing is downloaded or extracted: from any state that has not
/// already downloaded an archive, no step asks for a download or an
/// extraction, and none reaches such a state.
pub proof fn lemma_offline_setup_never_downloads(s: ModelSetup, o: Observation)
    requires
        s.offline,
        s.phase != SetupPhase::ArchiveFetched,
    ensures
        setup_step(s, o) matches Ok((next, action)) ==> {
            &&& next.offline
            &&& next.phase != SetupPhase::ArchiveFetched
            &&& !(action is FetchArchive)
            &&& !(action is Extract)
            &&& !(action is FetchModel)
        },
{
}

/// A download fetches exactly the model files that are missing, and at least one.
pub proof fn lemma_fetch_is_exact(s: ModelSetup, o: Observation)
    ensures
        setup_step(s, o) matches Ok((_, SetupAction::FetchModel { weights, config })) ==> {
            &&& weights == !o.weights
            &&& config == !o.config
            &&& weights || config
        },
{
}

/// Online, a fresh installation with nothing present downloads the engine
/// archive, extracts it, downloads both model files and then finishes, when
/// each of these leaves its files in place.
pub proof fn lemma_fresh_online_run(voice: VoiceModel, os: Seq<char>)
    ensures
        ({
            let none = Observation { binary: false, weights: false, config: false };
            let engine_only = Observation { binary: true, weights: false, config: false };
            let all = Observation { binary: true, weights: true, config: true };
            let s0 = initial_setup(voice, false, os);
            let s1 = with_phase(s0, SetupPhase::ArchiveFetched);
            let s2 = with_phase(s0, SetupPhase::ArchiveExtracted);
            let s3 = with_phase(s0, SetupPhase::Verify);
            &&& setup_step(s0, none) == Ok::<(ModelSetup, SetupAction), EngineError>(
                (s1, SetupAction::FetchArchive(archive_for_os(os))),
            )
            &&& setup_step(s1, none) == Ok::<(ModelSetup, SetupAction), EngineError>(
                (s2, SetupAction::Extract(archive_for_os(os))),
            )
            &&& setup_step(s2, engine_only) == Ok::<(ModelSetup, SetupAction), EngineError>(
                (s3, SetupAction::FetchModel { weights: true, config: true }),
            )
            &&& setup_step(s3, all) == Ok::<(ModelSetup, SetupAction), EngineError>(
                (s3, SetupAction::Finished),
            )
        }),
{
}

/// Online, with the engine in place and a model file missing, the first step
/// downloads exactly the missing model files and nothing else.
pub proof fn lemma_online_first_step_fetches_missing(
    voice: VoiceModel,
    os: Seq<char>,
    o: Observation,
)
    requires
        o.binary,
        !(o.weights && o.config),
    ensures
        setup_step(initial_setup(voice, false, os), o) == Ok::<(ModelSetup, SetupAction), EngineError>(
            (
                ModelSetup {
                    phase: SetupPhase::Verify,
                    voice,
                    offline: false,
                    archive: archive_for_os(os),
                },
                SetupAction::FetchModel { weights: !o.weights, config: !o.config },
            ),
        ),
{
}

/// The cached model is loaded only when both of its files are present.
pub proof fn lemma_cached_only_when_present(s: ModelSetup, o: Observation)
    ensures
        setup_step(s, o) matches Ok((_, SetupAction::LoadCached)) ==> o.weights && o.config,
{
}

/// Whenever a step downloads model files, it downloads each missing one and
/// no present one.
pub proof fn lemma_missing_files_are_fetched(s: ModelSetup, o: Observation)
    requires
        !s.offline,
        o.binary,
        s.phase == SetupPhase::CheckEngine || s.phase == SetupPhase::ArchiveExtracted,
        !(o.weights && o.config),
    ensures
        setup_step(s, o) matches Ok((next, SetupAction::FetchModel { weights, config })) && weights
            == !o.weights && config == !o.config && next.phase == SetupPhase::Verify,
{
}

/// Every engine archive is downloaded from the same piper release, under its own file name.
pub proof fn lemma_archive_addresses(a: EngineArchive)
    ensures
        archive_url_spec(a) == "https://github.com/rhasspy/piper/releases/download/2023.11.14-2/"@
            + archive_name_spec(a),
{
    broadcast use vstd::string::group_string_axioms;

    reveal_strlit("https://github.com/rhasspy/piper/releases/download/2023.11.14-2/");
    reveal_strlit("piper_windows_amd64.zip");
    reveal_strlit("piper_macos_x86_64.tar.gz");
    reveal_strlit("piper_linux_x86_64.tar.gz");
    reveal_strlit("https://github.com/rhasspy/piper/releases/download/2023.11.14-2/piper_windows_amd64.zip");
    reveal_strlit("https://github.com/rhasspy/piper/releases/download/2023.11.14-2/piper_macos_x86_64.tar.gz");
    reveal_strlit("https://github.com/rhasspy/piper/releases/download/2023.11.14-2/piper_linux_x86_64.tar.gz");
    assert(archive_url_spec(a) =~= "https://github.com/rhasspy/piper/releases/download/2023.11.14-2/"@
        + archive_name_spec(a));
}

} // verus!
