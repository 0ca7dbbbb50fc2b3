use libphext::phext;
use phext_shell::command::{classify, select_help, CommandKind, HelpTopic};
use phext_shell::coordinate::{check_address, read_address, Coordinate};
use phext_shell::shell::{write_report, Effect, LoadOutcome, ShellState};
use phext_shell::text::{joined, same_text};

fn coordinate(parts: [usize; 9]) -> Coordinate {
    Coordinate {
        library: parts[0],
        shelf: parts[1],
        series: parts[2],
        collection: parts[3],
        volume: parts[4],
        book: parts[5],
        chapter: parts[6],
        section: parts[7],
        scroll: parts[8],
    }
}

fn loaded(text: &str) -> ShellState {
    let mut state = ShellState::new();
    let response = state.handle_request("lp a.phext");
    assert!(matches!(response.effect, Effect::Load { ref path } if path == "a.phext"));
    state.finish_load("a.phext", LoadOutcome::Loaded(text.to_string()));
    state
}

#[test]
fn fresh_session_starts_at_origin() {
    let state = ShellState::new();
    assert_eq!(state.filename, "");
    assert_eq!(state.coordinate, Coordinate::origin());
    assert!(state.running);
    assert_eq!(state.document, "");
    assert_eq!(state.scroll, "");
    assert_eq!(state.history, "");
}

#[test]
fn edit_elsewhere_leaves_first_scroll() {
    let mut state = loaded("hello");
    state.handle_request("cs 1.1.1/1.1.1/1.1.2");
    state.handle_request("os world");
    state.handle_request("cs 1.1.1/1.1.1/1.1.1");
    let response = state.handle_request("ds");
    assert_eq!(response.lines, vec!["hello".to_string()]);
    assert_eq!(state.document, "hello\u{17}world");
}

#[test]
fn missing_argument_is_reported_without_change() {
    for word in ["af", "lp", "sp", "af   ", "  sp"] {
        let mut state = loaded("abc");
        state.handle_request("cs 1.1.1/1.1.1/1.1.1");
        let before = (state.document.clone(), state.coordinate, state.scroll.clone(), state.filename.clone());
        let response = state.handle_request(word);
        assert_eq!(response.lines, vec!["Expected 1 argument".to_string()]);
        assert!(matches!(response.effect, Effect::Nothing));
        assert_eq!((state.document.clone(), state.coordinate, state.scroll.clone(), state.filename.clone()), before);
        assert!(state.history.ends_with(word.trim()));
    }
}

#[test]
fn change_scroll_then_show_location() {
    let mut state = ShellState::new();
    state.handle_request("cs 2.3.4/5.6.7/8.9.10");
    assert_eq!(state.coordinate, coordinate([2, 3, 4, 5, 6, 7, 8, 9, 10]));
    let response = state.handle_request("cs");
    assert_eq!(response.lines, vec!["Location: 2.3.4/5.6.7/8.9.10".to_string()]);
    assert_eq!(state.coordinate, coordinate([2, 3, 4, 5, 6, 7, 8, 9, 10]));
}

#[test]
fn change_scroll_prints_scroll_of_loaded_document() {
    let mut state = loaded("one\u{17}two");
    let response = state.handle_request("cs 1.1.1/1.1.1/1.1.2");
    assert_eq!(response.lines, vec!["two".to_string()]);
    assert_eq!(state.scroll, "two");
}

#[test]
fn change_scroll_on_empty_document_prints_nothing() {
    let mut state = ShellState::new();
    let response = state.handle_request("cs 1.1.1/1.1.1/1.1.5");
    assert!(response.lines.is_empty());
    assert_eq!(state.scroll, "");
}

#[test]
fn invalid_coordinates_are_refused() {
    let mut state = ShellState::new();
    let response = state.handle_request("cs 0.1.1/1.1.1/1.1.1");
    assert_eq!(response.lines, vec!["Invalid coordinate '0.1.1/1.1.1/1.1.1'".to_string()]);
    assert_eq!(state.coordinate, Coordinate::origin());
    let response = state.handle_request("cs 1.1.1/1.1.1/1.1.99999999999");
    assert_eq!(response.lines, vec!["Invalid coordinate '1.1.1/1.1.1/1.1.99999999999'".to_string()]);
    let response = state.handle_request("cs 1.1.1/1.1.1/1.1.1000");
    assert_eq!(response.lines.len(), 1);
    assert_eq!(state.coordinate, Coordinate::origin());
}

#[test]
fn lenient_address_forms() {
    assert_eq!(read_address("1;2;3;4;5;6;7;8;9"), Some(coordinate([1, 2, 3, 4, 5, 6, 7, 8, 9])));
    assert_eq!(read_address("5"), Some(coordinate([1, 1, 1, 1, 1, 1, 1, 1, 5])));
    assert_eq!(read_address("nothing"), Some(Coordinate::origin()));
    assert_eq!(read_address("1.1.1/1.1.1/1.1.0"), None);
    assert!(check_address("4294967295"));
    assert!(!check_address("4294967296"));
    assert!(check_address("4294967295.4294967295"));
}

#[test]
fn overwrite_then_display_prints_text() {
    let mut state = ShellState::new();
    let response = state.handle_request("os hello there");
    assert_eq!(response.lines, vec!["hello there".to_string()]);
    let response = state.handle_request("ds");
    assert_eq!(response.lines, vec!["hello there".to_string()]);
}

#[test]
fn overwrite_without_text_clears_scroll() {
    let mut state = loaded("abc");
    let response = state.handle_request("os");
    assert_eq!(response.lines, vec![String::new()]);
    assert_eq!(state.scroll, "");
}

#[test]
fn reset_scroll_then_display_prints_nothing() {
    let mut state = loaded("first\u{17}second");
    state.handle_request("cs 1.1.1/1.1.1/1.1.2");
    state.handle_request("rs");
    let response = state.handle_request("ds");
    assert_eq!(response.lines, vec![String::new()]);
    state.handle_request("cs 1.1.1/1.1.1/1.1.1");
    let response = state.handle_request("ds");
    assert_eq!(response.lines, vec!["first".to_string()]);
}

#[test]
fn reset_phext_clears_everything() {
    let mut state = loaded("first\u{17}second");
    let response = state.handle_request("rp");
    assert_eq!(response.lines, vec![String::new()]);
    assert_eq!(state.document, "");
    assert_eq!(state.scroll, "");
}

#[test]
fn history_records_lines_in_order() {
    let mut state = ShellState::new();
    state.handle_request("ds");
    state.handle_request("  os a  \n");
    state.handle_request("help");
    state.handle_request("exit");
    assert!(!state.running);
    let log = phext::fetch(state.history.as_str(), phext::default_coordinate());
    assert_eq!(log, "\nds\nos a\nhelp\nexit");
    assert_eq!(state.history_path(), ".history");
}

#[test]
fn history_is_kept_per_coordinate() {
    let mut state = ShellState::new();
    state.handle_request("ds");
    state.handle_request("cs 1.1.1/1.1.1/1.1.2");
    state.handle_request("os b");
    let first = phext::fetch(state.history.as_str(), phext::default_coordinate());
    let second = phext::fetch(state.history.as_str(), phext::to_coordinate("1.1.1/1.1.1/1.1.2"));
    assert_eq!(first, "\nds\ncs 1.1.1/1.1.1/1.1.2");
    assert_eq!(second, "\nos b");
}

#[test]
fn loading_missing_file_initializes_empty_phext() {
    let mut state = loaded("abc");
    let response = state.handle_request("lp missing.phext");
    assert!(matches!(response.effect, Effect::Load { ref path } if path == "missing.phext"));
    assert_eq!(state.filename, "missing.phext");
    let lines = state.finish_load("missing.phext", LoadOutcome::Missing);
    assert_eq!(
        lines,
        vec!["No file for missing.phext found. Initializing an empty phext...".to_string()]
    );
    assert_eq!(state.document, "");
    assert_eq!(state.scroll, "");
    assert_eq!(state.history_path(), "missing.phext.history");
}

#[test]
fn loading_prints_text_map() {
    let mut state = ShellState::new();
    let lines = state.finish_load("a.phext", LoadOutcome::Loaded("alpha\u{17}beta".to_string()));
    assert_eq!(lines, vec![phext::textmap("alpha\u{17}beta")]);
    assert_eq!(lines, vec!["* 1.1.1/1.1.1/1.1.1: alpha\n* 1.1.1/1.1.1/1.1.2: beta\n".to_string()]);
    assert_eq!(state.scroll, "alpha");
}

#[test]
fn failed_load_changes_nothing() {
    let mut state = loaded("abc");
    let lines = state.finish_load("x", LoadOutcome::Failed("denied".to_string()));
    assert_eq!(lines, vec!["Unable to locate x: denied".to_string()]);
    assert_eq!(state.document, "abc");
}

#[test]
fn append_file_extends_scroll() {
    let mut state = loaded("abc");
    let response = state.handle_request("af more.txt");
    assert!(matches!(response.effect, Effect::ReadAppend { ref path } if path == "more.txt"));
    let lines = state.finish_append("more.txt", Ok("def".to_string()));
    assert_eq!(lines, vec!["Appended more.txt".to_string(), String::new(), "abcdef".to_string()]);
    assert_eq!(state.document, "abcdef");
    assert_eq!(state.scroll, "abcdef");
    let lines = state.finish_append("gone.txt", Err("not found".to_string()));
    assert_eq!(lines, vec!["Error reading file 'gone.txt': not found".to_string()]);
    assert_eq!(state.document, "abcdef");
}

#[test]
fn save_hands_document_to_caller() {
    let mut state = loaded("abc");
    let response = state.handle_request("sp out.phext");
    match response.effect {
        Effect::Write { path, contents, announce } => {
            assert_eq!(path, "out.phext");
            assert_eq!(contents, "abc");
            assert!(announce);
        }
        other => panic!("unexpected effect {:?}", other),
    }
    assert!(response.lines.is_empty());
}

#[test]
fn write_reports() {
    assert_eq!(write_report("out.phext", true, Ok(())), vec!["Saved out.phext.".to_string()]);
    assert!(write_report("a.index", false, Ok(())).is_empty());
    assert_eq!(
        write_report("a.index", false, Err("read-only".to_string())),
        vec!["Unable to locate a.index: read-only".to_string()]
    );
}

#[test]
fn index_soundex_and_hash_use_the_engine() {
    let text = "alpha\u{17}beta\u{18}gamma";
    let mut state = loaded(text);
    let response = state.handle_request("pi");
    assert_eq!(response.lines, vec![phext::textmap(&phext::index(text))]);
    match response.effect {
        Effect::Write { path, contents, announce } => {
            assert_eq!(path, "a.phext.index");
            assert_eq!(contents, phext::index(text));
            assert_ne!(contents, text);
            assert!(!announce);
        }
        other => panic!("unexpected effect {:?}", other),
    }
    let response = state.handle_request("ps");
    assert_eq!(response.lines, vec![phext::textmap(&phext::soundex_v1(text))]);
    assert!(matches!(response.effect, Effect::Write { ref path, ref contents, .. }
        if path == "a.phext.soundex" && *contents == phext::soundex_v1(text) && contents != text));
    let response = state.handle_request("ph");
    let manifest = phext::manifest(text);
    assert_ne!(manifest, text);
    let sum = phext::checksum(&manifest);
    assert_eq!(sum.len(), 32);
    assert_eq!(response.lines, vec![format!("Checksum: {} (a.phext.checksum).", sum)]);
    assert!(matches!(response.effect, Effect::Write { ref path, ref contents, .. }
        if path == "a.phext.checksum" && *contents == manifest));
}

#[test]
fn unknown_command_runs_program() {
    let mut state = ShellState::new();
    let response = state.handle_request("  echo  hello   world  ");
    assert_eq!(response.lines, vec!["Executing 'echo  hello   world'...".to_string()]);
    match response.effect {
        Effect::Spawn { program, args } => {
            assert_eq!(program, "echo");
            assert_eq!(args, vec!["hello".to_string(), "world".to_string()]);
        }
        other => panic!("unexpected effect {:?}", other),
    }
    let response = state.handle_request("ls");
    assert!(matches!(response.effect, Effect::Spawn { ref program, ref args } if program == "ls" && args.is_empty()));
}

#[test]
fn captured_output_replaces_scroll() {
    let mut state = loaded("old");
    let lines = state.finish_capture(Ok((b"caf\xc3\xa9\n".to_vec(), Vec::new())));
    assert_eq!(lines, vec!["Collected 6 bytes into 1.1.1/1.1.1/1.1.1".to_string()]);
    assert_eq!(state.scroll, "caf\u{e9}\n");
    let lines = state.finish_capture(Ok((vec![b'a', 0xff], b"bad\xffthing".to_vec())));
    assert_eq!(
        lines,
        vec![
            "Collected 4 bytes into 1.1.1/1.1.1/1.1.1".to_string(),
            "Error: bad\u{fffd}thing".to_string()
        ]
    );
    assert_eq!(state.document, "a\u{fffd}");
    let lines = state.finish_capture(Err("No such file".to_string()));
    assert_eq!(lines, vec!["Failed to execute process: No such file".to_string()]);
    assert_eq!(state.document, "a\u{fffd}");
}

#[test]
fn exit_words_stop_the_session() {
    for word in ["exit", "quit", ":q!", " exit now"] {
        let mut state = ShellState::new();
        let response = state.handle_request(word);
        assert!(!state.running);
        assert!(response.lines.is_empty());
    }
}

#[test]
fn blank_line_does_nothing() {
    let mut state = ShellState::new();
    let response = state.handle_request("   \n");
    assert!(response.lines.is_empty());
    assert!(matches!(response.effect, Effect::Nothing));
    assert!(state.running);
}

#[test]
fn command_words_are_case_sensitive() {
    assert_eq!(classify("ds"), CommandKind::DisplayScroll);
    assert_eq!(classify("DS"), CommandKind::External);
    assert_eq!(classify("help"), CommandKind::Help);
    assert_eq!(classify(""), CommandKind::Blank);
    assert_eq!(classify("rp"), CommandKind::ResetPhext);
}

#[test]
fn help_topics() {
    assert_eq!(select_help(""), HelpTopic::Overview);
    assert_eq!(select_help("CS"), HelpTopic::ChangeScroll);
    assert_eq!(select_help("lp please"), HelpTopic::Load);
    assert_eq!(select_help("Coordinates"), HelpTopic::Coordinate);
    assert_eq!(select_help("coord"), HelpTopic::Overview);
    assert_eq!(select_help("delimiter"), HelpTopic::Delimiter);
    assert_eq!(select_help("exocortex"), HelpTopic::Exocortex);
    assert_eq!(select_help("PHEXT"), HelpTopic::Phext);
    assert_eq!(select_help("subspace"), HelpTopic::Subspace);
    let mut state = ShellState::new();
    let response = state.handle_request("help cs");
    assert!(matches!(response.effect, Effect::ShowHelp { topic: HelpTopic::ChangeScroll }));
}

#[test]
fn prompt_leaves_out_origin_tiers() {
    assert_eq!(Coordinate::origin().prompt_text(), "1.1.1");
    assert_eq!(coordinate([1, 1, 1, 2, 1, 1, 1, 1, 3]).prompt_text(), "2.1.1/1.1.3");
    assert_eq!(coordinate([3, 1, 1, 1, 1, 1, 1, 1, 1]).prompt_text(), "3.1.1/1.1.1/1.1.1");
    assert_eq!(coordinate([1, 1, 1, 1, 1, 1, 12, 1, 999]).prompt_text(), "12.1.999");
    assert_eq!(coordinate([10, 20, 30, 40, 50, 60, 70, 80, 90]).to_text(), "10.20.30/40.50.60/70.80.90");
}

#[test]
fn text_helpers() {
    assert!(same_text("abc", "abc"));
    assert!(!same_text("abc", "abd"));
    assert!(!same_text("abc", "ab"));
    assert_eq!(joined("ab", "cd"), "abcd");
}
