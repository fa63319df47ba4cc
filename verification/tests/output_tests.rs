use fetchfile::descriptor::descriptor_content;
use fetchfile::style::error_text;
use fetchfile::style::info_text;
use fetchfile::style::warning_text;
use fetchfile::text::contains_char;
use fetchfile::text::join_path;
use fetchfile::text::split_on;
use fetchfile::tool::process_exit_code;
use fetchfile::tool::search_candidates;
use fetchfile::tool::tool_message_kind;
use fetchfile::tool::MessageKind;
use fetchfile::tool::ToolOutcome;

#[test]
fn descriptor_is_from_then_path() {
    let content = descriptor_content("/tmp/models/data.json");
    assert_eq!(content, "FROM /tmp/models/data.json");
}

#[test]
fn descriptor_of_empty_path_is_bare_prefix() {
    assert_eq!(descriptor_content(""), "FROM ");
}

#[test]
fn join_adds_a_single_slash() {
    assert_eq!(join_path("downloads", "a.bin"), "downloads/a.bin");
    assert_eq!(join_path("downloads/", "a.bin"), "downloads/a.bin");
    assert_eq!(join_path("", "a.bin"), "a.bin");
    assert_eq!(join_path(".", "a.bin"), "./a.bin");
}

#[test]
fn split_keeps_every_piece() {
    assert_eq!(split_on("/usr/bin:/bin", ':'), vec!["/usr/bin", "/bin"]);
    assert_eq!(split_on("", ':'), vec![""]);
    assert_eq!(split_on(":", ':'), vec!["", ""]);
    assert_eq!(split_on("abc", ':'), vec!["abc"]);
}

#[test]
fn split_agrees_with_std_split() {
    let input = "/usr/local/bin::/opt/bin:";
    let got = split_on(input, ':');
    let want: Vec<&str> = input.split(':').collect();
    assert_eq!(got, want);
}

#[test]
fn contains_char_finds_dots() {
    assert!(contains_char("data.json", '.'));
    assert!(!contains_char("models", '.'));
    assert!(!contains_char("", '.'));
}

#[test]
fn candidates_follow_search_order() {
    let got = search_candidates("/usr/bin:/bin", ':', "ollama");
    assert_eq!(got, vec!["/usr/bin/ollama", "/bin/ollama"]);
}

#[test]
fn candidate_in_empty_dir_is_bare_name() {
    let got = search_candidates("", ':', "ollama");
    assert_eq!(got, vec!["ollama"]);
}

#[test]
fn error_text_is_red() {
    assert_eq!(error_text("boom"), "\x1b[31mboom\x1b[0m");
}

#[test]
fn warning_text_is_yellow() {
    assert_eq!(warning_text("careful"), "\x1b[33mcareful\x1b[0m");
}

#[test]
fn info_text_is_green() {
    assert_eq!(info_text("done"), "\x1b[32mdone\x1b[0m");
}

#[test]
fn styles_match_the_terminal_palette() {
    assert_eq!(error_text("x"), ansi_term::Colour::Red.paint("x").to_string());
    assert_eq!(warning_text("x"), ansi_term::Colour::Yellow.paint("x").to_string());
    assert_eq!(info_text("x"), ansi_term::Colour::Green.paint("x").to_string());
}

#[test]
fn missing_tool_is_only_a_warning() {
    assert_eq!(tool_message_kind(&ToolOutcome::NotFound), MessageKind::Warning);
    assert_eq!(process_exit_code(true, &ToolOutcome::NotFound), 0);
}

#[test]
fn tool_outcome_never_changes_the_exit_code() {
    for outcome in [
        ToolOutcome::NotFound,
        ToolOutcome::Succeeded,
        ToolOutcome::Failed,
        ToolOutcome::SpawnError,
    ] {
        assert_eq!(process_exit_code(true, &outcome), 0);
        assert_eq!(process_exit_code(false, &outcome), 1);
    }
}

#[test]
fn tool_reports_by_outcome() {
    assert_eq!(tool_message_kind(&ToolOutcome::Succeeded), MessageKind::Info);
    assert_eq!(tool_message_kind(&ToolOutcome::Failed), MessageKind::Error);
    assert_eq!(tool_message_kind(&ToolOutcome::SpawnError), MessageKind::Error);
}
