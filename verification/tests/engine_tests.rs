use vibevoicecli::engine::{
    extract_command, synthesis_command, CommandArg, EngineArchive, EngineError, Layout,
    ModelSetup, Observation, SetupAction, SetupPhase, VibeVoiceEngine,
};
use vibevoicecli::voices::VoiceModel;

fn obs(binary: bool, weights: bool, config: bool) -> Observation {
    Observation { binary, weights, config }
}

#[test]
fn model_dir_precedence() {
    let e = VibeVoiceEngine::new(
        Some("/cfg".to_string()),
        Some("/override".to_string()),
        Some("/bin/models/vibevoice".to_string()),
    )
    .ok()
    .unwrap();
    assert_eq!(e.model_dir(), "/override");
    let e = VibeVoiceEngine::new(Some("/cfg".to_string()), None, None).ok().unwrap();
    assert_eq!(e.model_dir(), "/cfg");
    let e = VibeVoiceEngine::new(None, None, Some("/bin/models/vibevoice".to_string())).ok().unwrap();
    assert_eq!(e.model_dir(), "/bin/models/vibevoice");
    assert_eq!(
        VibeVoiceEngine::<String>::new(None, None, None).err(),
        Some(EngineError::ModelsDirUnavailable)
    );
}

#[test]
fn layout_names() {
    assert_eq!(Layout::models_dir_name(), "models");
    assert_eq!(Layout::cache_dir_name(), "cache");
    assert_eq!(Layout::config_file_name(), "config.json");
    assert_eq!(Layout::default_output_name(), "output.wav");
    assert_eq!(Layout::engine_output_name(), "temp_neural_synth.wav");
    assert_eq!(Layout::default_model_subdir(), "vibevoice");
    assert_eq!(Layout::engine_dir_name(), "piper");
    assert_eq!(Layout::engine_binary_name(true), "piper.exe");
    assert_eq!(Layout::engine_binary_name(false), "piper");
}

#[test]
fn speaker_list() {
    let list = VibeVoiceEngine::list_speakers();
    assert_eq!(list.len(), 10);
    assert_eq!(
        list[0],
        ("en_0.5b_realtime", "0.5B Real-Time Tier", "Low latency 0.5B streaming voice (16kHz)")
    );
    assert_eq!(list[3].2, "Deep Amy 1.5B narrator voice (22kHz)");
    assert_eq!(list[9].0, "fr_7b_studio_neutral");
    let mut names: Vec<&str> = list.iter().map(|p| p.0).collect();
    names.sort();
    names.dedup();
    assert_eq!(names.len(), 10);
}

#[test]
fn engine_archive_per_os() {
    assert_eq!(EngineArchive::for_os("windows"), EngineArchive::WindowsZip);
    assert_eq!(EngineArchive::for_os("macos"), EngineArchive::MacTarball);
    assert_eq!(EngineArchive::for_os("linux"), EngineArchive::LinuxTarball);
    assert_eq!(EngineArchive::for_os("freebsd"), EngineArchive::LinuxTarball);
    assert_eq!(EngineArchive::WindowsZip.file_name(), "piper_windows_amd64.zip");
    assert_eq!(
        EngineArchive::LinuxTarball.url(),
        "https://github.com/rhasspy/piper/releases/download/2023.11.14-2/piper_linux_x86_64.tar.gz"
    );
    assert!(EngineArchive::MacTarball.url().ends_with(EngineArchive::MacTarball.file_name()));
}

#[test]
fn fresh_online_setup() {
    let mut s = ModelSetup::new(VoiceModel::RyanHigh, false, "windows");
    assert_eq!(s.phase, SetupPhase::CheckEngine);
    assert_eq!(s.step(obs(false, false, false)), Ok(SetupAction::FetchArchive(EngineArchive::WindowsZip)));
    assert_eq!(s.step(obs(false, false, false)), Ok(SetupAction::Extract(EngineArchive::WindowsZip)));
    assert_eq!(
        s.step(obs(true, false, true)),
        Ok(SetupAction::FetchModel { weights: true, config: false })
    );
    assert_eq!(s.step(obs(true, true, true)), Ok(SetupAction::Finished));
}

#[test]
fn installed_setup_is_quiet() {
    for offline in [false, true].iter() {
        let mut s = ModelSetup::new(VoiceModel::LessacHigh, *offline, "linux");
        assert_eq!(s.step(obs(true, true, true)), Ok(SetupAction::LoadCached));
        assert_eq!(s.step(obs(true, true, true)), Ok(SetupAction::Finished));
    }
}

#[test]
fn offline_setup_refuses_downloads() {
    let mut s = ModelSetup::new(VoiceModel::BryceMedium, true, "linux");
    let e = s.step(obs(false, true, true)).unwrap_err();
    assert_eq!(e, EngineError::EngineMissingOffline);
    assert_eq!(
        e.message(),
        "Offline mode enabled, but neural engine binary is missing from binary directory."
    );
    assert_eq!(s.phase, SetupPhase::CheckEngine);
    let mut s = ModelSetup::new(VoiceModel::ThorstenHigh, true, "linux");
    let e = s.step(obs(true, true, false)).unwrap_err();
    assert_eq!(e, EngineError::ModelMissingOffline { model: VoiceModel::ThorstenHigh });
    assert_eq!(
        e.message(),
        "Offline mode enabled, but model de_DE-thorsten-high.onnx is missing from binary directory."
    );
}

#[test]
fn missing_files_after_install_stop_the_setup() {
    let mut s = ModelSetup::new(VoiceModel::SiwisMedium, false, "macos");
    assert!(matches!(s.step(obs(false, false, false)), Ok(SetupAction::FetchArchive(_))));
    assert!(matches!(s.step(obs(false, false, false)), Ok(SetupAction::Extract(_))));
    let e = s.step(obs(false, false, false)).unwrap_err();
    assert_eq!(e, EngineError::EngineNotInstalled);
    assert_eq!(e.message(), "Neural engine binary is missing after extracting its archive.");

    let mut s = ModelSetup::new(VoiceModel::SiwisMedium, false, "macos");
    assert_eq!(
        s.step(obs(true, false, false)),
        Ok(SetupAction::FetchModel { weights: true, config: true })
    );
    let e = s.step(obs(true, true, false)).unwrap_err();
    assert_eq!(e, EngineError::ModelNotInstalled { model: VoiceModel::SiwisMedium });
    assert_eq!(e.message(), "Model fr_FR-siwis-medium.onnx is missing after its download.");
}

#[test]
fn offline_setups_never_download() {
    for b in [false, true].iter() {
        for w in [false, true].iter() {
            for c in [false, true].iter() {
                let mut s = ModelSetup::new(VoiceModel::RyanHigh, true, "linux");
                for _ in 0..3 {
                    match s.step(obs(*b, *w, *c)) {
                        Ok(SetupAction::FetchArchive(_))
                        | Ok(SetupAction::Extract(_))
                        | Ok(SetupAction::FetchModel { .. }) => panic!("download while offline"),
                        _ => {}
                    }
                }
            }
        }
    }
}

#[test]
fn sample_rate_choice() {
    assert_eq!(VibeVoiceEngine::output_sample_rate(22050, 16000), 16000);
    assert_eq!(VibeVoiceEngine::output_sample_rate(48000, 22050), 48000);
    assert_eq!(VibeVoiceEngine::output_sample_rate(44100, 16000), 44100);
}

#[test]
fn extraction_commands() {
    let c = extract_command(false, "/m/piper.tar.gz", "/m", "/m/piper.tar.gz", "/m");
    assert_eq!(c.program, CommandArg::Text("tar".to_string()));
    assert_eq!(
        c.args,
        vec![
            CommandArg::Text("-xzf".to_string()),
            CommandArg::Path("/m/piper.tar.gz"),
            CommandArg::Text("-C".to_string()),
            CommandArg::Path("/m"),
        ]
    );
    let c = extract_command(true, "a", "b", "C:\\m\\piper.zip", "C:\\m");
    assert_eq!(c.program, CommandArg::Text("powershell".to_string()));
    assert_eq!(
        c.args,
        vec![
            CommandArg::Text("-Command".to_string()),
            CommandArg::Text(
                "Expand-Archive -Path 'C:\\m\\piper.zip' -DestinationPath 'C:\\m' -Force".to_string()
            ),
        ]
    );
}

#[test]
fn synthesis_commands() {
    let c = synthesis_command("/m/piper/piper", "/m/v.onnx", "/c/out.wav", "1", "0.667");
    assert_eq!(c.program, CommandArg::Path("/m/piper/piper"));
    assert_eq!(
        c.args,
        vec![
            CommandArg::Text("--model".to_string()),
            CommandArg::Path("/m/v.onnx"),
            CommandArg::Text("--output_file".to_string()),
            CommandArg::Path("/c/out.wav"),
            CommandArg::Text("--length_scale".to_string()),
            CommandArg::Text("1".to_string()),
            CommandArg::Text("--noise_scale".to_string()),
            CommandArg::Text("0.667".to_string()),
        ]
    );
}
