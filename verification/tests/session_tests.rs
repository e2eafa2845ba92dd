use vibevoicecli::session::{choose_input, sample_text, InputSource, InteractiveSession, SessionAction};

#[test]
fn interactive_lines() {
    let mut s = InteractiveSession::new();
    assert_eq!(s.next_index(), 1);
    assert_eq!(s.on_input(Some("   \n")), SessionAction::Skip);
    assert_eq!(
        s.on_input(Some("  Hello there\n")),
        SessionAction::Speak { text: "Hello there".to_string(), output_name: "output_1.wav".to_string() }
    );
    assert_eq!(
        s.on_input(Some("second")),
        SessionAction::Speak { text: "second".to_string(), output_name: "output_2.wav".to_string() }
    );
    assert_eq!(s.next_index(), 3);
    assert_eq!(s.on_input(Some("EXIT\n")), SessionAction::Quit);
    assert_eq!(s.next_index(), 3);
}

#[test]
fn quit_words_and_end_of_input() {
    for w in ["exit", "quit", "Quit", " QUIT ", "eXiT\r\n"].iter() {
        let mut s = InteractiveSession::new();
        assert_eq!(s.on_input(Some(w)), SessionAction::Quit);
    }
    let mut s = InteractiveSession::new();
    assert_eq!(s.on_input(None), SessionAction::Quit);
    match s.on_input(Some("exit now")) {
        SessionAction::Speak { text, output_name } => {
            assert_eq!(text, "exit now");
            assert_eq!(output_name, "output_1.wav");
        }
        other => panic!("unexpected {:?}", other),
    }
}

#[test]
fn output_names_count_up() {
    let mut s = InteractiveSession::new();
    for i in 1..=12u64 {
        assert_eq!(s.on_input(Some("")), SessionAction::Skip);
        match s.on_input(Some("line")) {
            SessionAction::Speak { output_name, .. } => assert_eq!(output_name, format!("output_{}.wav", i)),
            other => panic!("unexpected {:?}", other),
        }
    }
}

#[test]
fn input_source_precedence() {
    assert_eq!(
        choose_input(Some("hi".to_string()), Some("f.txt")),
        InputSource::Text("hi".to_string())
    );
    assert_eq!(choose_input::<&str>(None, Some("f.txt")), InputSource::File("f.txt"));
    assert_eq!(choose_input::<&str>(None, None), InputSource::Sample);
    assert!(sample_text().starts_with("Welcome to VibeVoice CLI."));
}

#[test]
fn output_names_are_plain_and_distinct() {
    let mut s = InteractiveSession::new();
    let mut names: Vec<String> = Vec::new();
    for _ in 0..25 {
        if let SessionAction::Speak { output_name, .. } = s.on_input(Some("x")) {
            assert!(!output_name.contains('/') && !output_name.contains('\\'));
            assert!(!names.contains(&output_name));
            names.push(output_name);
        } else {
            panic!("expected speech");
        }
    }
}
