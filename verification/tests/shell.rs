use quiver_shell::args::{parse_args, ArgError, Args};
use quiver_shell::chars::{has_prefix, str_eq};
use quiver_shell::commands::{
    after_write, close_app_no_output_plan, close_app_plan, format_frontend_error,
    format_frontend_log, CloseRequest, WriteFollowUp,
};
use quiver_shell::config::{
    assemble, is_url, macro_loaded_message, macro_not_found_message, macro_read_failed_message,
    plan_macros, MacroPlan, ProcessedArgs,
};
use quiver_shell::session::{InitError, SessionState};

fn argv(parts: &[&str]) -> Vec<String> {
    parts.iter().map(|s| s.to_string()).collect()
}

fn ok_args(parts: &[&str]) -> Args {
    match parse_args(&argv(parts)) {
        Ok(a) => a,
        Err(_) => panic!("arguments were rejected"),
    }
}

#[test]
fn parse_full_command_line() {
    let a = ok_args(&["--output-file", "/tmp/out.tex", "--macros", "m.tex", "ZGF0YQ=="]);
    assert_eq!(a.output_file, Some("/tmp/out.tex".to_string()));
    assert_eq!(a.macros, Some("m.tex".to_string()));
    assert_eq!(a.data, Some("ZGF0YQ==".to_string()));
}

#[test]
fn parse_empty_command_line() {
    let a = ok_args(&[]);
    assert_eq!(a.output_file, None);
    assert_eq!(a.macros, None);
    assert_eq!(a.data, None);
}

#[test]
fn parse_positional_only() {
    let a = ok_args(&["ZGF0YQ=="]);
    assert_eq!(a.output_file, None);
    assert_eq!(a.macros, None);
    assert_eq!(a.data, Some("ZGF0YQ==".to_string()));
}

#[test]
fn parse_options_in_either_order() {
    let a = ok_args(&["--macros", "m.tex", "--output-file", "out.tex"]);
    assert_eq!(a.output_file, Some("out.tex".to_string()));
    assert_eq!(a.macros, Some("m.tex".to_string()));
    assert_eq!(a.data, None);
}

#[test]
fn parse_positional_before_options() {
    let a = ok_args(&["ZGF0YQ==", "--macros", "m.tex"]);
    assert_eq!(a.macros, Some("m.tex".to_string()));
    assert_eq!(a.data, Some("ZGF0YQ==".to_string()));
}

#[test]
fn parse_rejects_unknown_flag() {
    match parse_args(&argv(&["--bogus"])) {
        Err(ArgError::UnknownFlag { flag }) => assert_eq!(flag, "--bogus".to_string()),
        _ => panic!("an unknown flag must be rejected"),
    }
}

#[test]
fn parse_rejects_missing_value() {
    match parse_args(&argv(&["--macros"])) {
        Err(ArgError::MissingValue { flag }) => assert_eq!(flag, "--macros".to_string()),
        _ => panic!("an option without a value must be rejected"),
    }
    match parse_args(&argv(&["--output-file"])) {
        Err(ArgError::MissingValue { flag }) => assert_eq!(flag, "--output-file".to_string()),
        _ => panic!("an option without a value must be rejected"),
    }
}

#[test]
fn parse_rejects_duplicate_flag() {
    match parse_args(&argv(&["--macros", "a.tex", "--macros", "b.tex"])) {
        Err(ArgError::DuplicateFlag { flag }) => assert_eq!(flag, "--macros".to_string()),
        _ => panic!("a repeated option must be rejected"),
    }
}

#[test]
fn parse_rejects_second_positional() {
    match parse_args(&argv(&["one", "two"])) {
        Err(ArgError::UnexpectedArgument { arg }) => assert_eq!(arg, "two".to_string()),
        _ => panic!("a second positional argument must be rejected"),
    }
}

#[test]
fn str_eq_and_prefix_basics() {
    assert!(str_eq("abc", "abc"));
    assert!(!str_eq("abc", "abd"));
    assert!(!str_eq("abc", "abcd"));
    assert!(has_prefix("https://example.com", "https://"));
    assert!(!has_prefix("http", "http://"));
    assert!(has_prefix("anything", ""));
}

#[test]
fn url_sources_are_recognised() {
    assert!(is_url("https://example.com/m.tex"));
    assert!(is_url("http://example.com/m.tex"));
    assert!(!is_url("macros/m.tex"));
    assert!(!is_url(""));
    assert!(!is_url("httpsx://example.com"));
}

#[test]
fn url_macro_source_passes_through_unchanged() {
    match plan_macros(&Some("https://example.com/m.tex".to_string())) {
        MacroPlan::UseUrl { url } => assert_eq!(url, "https://example.com/m.tex".to_string()),
        _ => panic!("a URL source must pass through"),
    }
}

#[test]
fn local_macro_source_is_read_as_a_file() {
    match plan_macros(&Some("macros/m.tex".to_string())) {
        MacroPlan::ReadFile { path } => assert_eq!(path, "macros/m.tex".to_string()),
        _ => panic!("a local source must be read from disk"),
    }
}

#[test]
fn absent_macro_source_stays_absent() {
    match plan_macros(&None) {
        MacroPlan::NoMacros => {}
        _ => panic!("no source must give no macros"),
    }
}

#[test]
fn assemble_passes_file_content_through() {
    let a = ok_args(&["--macros", "m.tex"]);
    let content = "\\newcommand{\\x}{y}".to_string();
    let processed = assemble(a, Some(content.clone()));
    assert_eq!(processed.output_file, None);
    assert_eq!(processed.macro_content, Some(content));
    assert_eq!(processed.data, None);
}

#[test]
fn assemble_passes_output_and_data_through() {
    let a = ok_args(&["--output-file", "/tmp/out.tex", "ZGF0YQ=="]);
    let processed = assemble(a, None);
    assert_eq!(processed.output_file, Some("/tmp/out.tex".to_string()));
    assert_eq!(processed.macro_content, None);
    assert_eq!(processed.data, Some("ZGF0YQ==".to_string()));
}

#[test]
fn session_get_before_set_is_empty() {
    let state = SessionState::new();
    let config = state.get_cli_args();
    assert_eq!(config.output_file, None);
    assert_eq!(config.macro_content, None);
    assert_eq!(config.data, None);
}

#[test]
fn session_first_set_succeeds() {
    let mut state = SessionState::new();
    let config = ProcessedArgs {
        output_file: Some("/tmp/out.tex".to_string()),
        macro_content: Some("\\newcommand{\\x}{y}".to_string()),
        data: None,
    };
    assert!(state.set(config).is_ok());
    let seen = state.get_cli_args();
    assert_eq!(seen.output_file, Some("/tmp/out.tex".to_string()));
    assert_eq!(seen.macro_content, Some("\\newcommand{\\x}{y}".to_string()));
    assert_eq!(seen.data, None);
}

#[test]
fn session_second_set_is_refused() {
    let mut state = SessionState::new();
    let first = ProcessedArgs {
        output_file: Some("first.tex".to_string()),
        macro_content: None,
        data: None,
    };
    let second = ProcessedArgs {
        output_file: Some("second.tex".to_string()),
        macro_content: None,
        data: None,
    };
    assert!(state.set(first).is_ok());
    match state.set(second) {
        Err(InitError::AlreadyInitialized) => {}
        Ok(()) => panic!("a second store must be refused"),
    }
    assert_eq!(state.get_cli_args().output_file, Some("first.tex".to_string()));
}

#[test]
fn failed_macro_load_leaves_session_empty() {
    // A nonexistent path plans a file read; when that read fails the binary
    // exits before anything is stored, so the session still reads as empty.
    match plan_macros(&Some("no/such/file.tex".to_string())) {
        MacroPlan::ReadFile { path } => assert_eq!(path, "no/such/file.tex".to_string()),
        _ => panic!("a local source must be read from disk"),
    }
    let state = SessionState::new();
    assert_eq!(state.get_cli_args().macro_content, None);
}

#[test]
fn close_app_writes_then_exits_cleanly() {
    let mut state = SessionState::new();
    let config = ProcessedArgs {
        output_file: Some("/tmp/out.tex".to_string()),
        macro_content: None,
        data: None,
    };
    assert!(state.set(config).is_ok());
    let (path, content) = match close_app_plan(&state, &Some("\\[diagram\\]".to_string())) {
        CloseRequest::Write { path, content } => (path, content),
        _ => panic!("a configured output file and data must be written"),
    };
    assert_eq!(path, "/tmp/out.tex".to_string());
    assert_eq!(content, "\\[diagram\\]".to_string());
    match after_write(&path, &None) {
        WriteFollowUp::Exit { code, notice } => {
            assert_eq!(code, 0);
            assert_eq!(notice, "Successfully wrote output to: /tmp/out.tex".to_string());
        }
        _ => panic!("a successful write must end in a clean exit"),
    }
}

#[test]
fn close_app_failed_write_reports_and_keeps_running() {
    match after_write("/tmp/out.tex", &Some("permission denied".to_string())) {
        WriteFollowUp::Fail { message } => {
            assert_eq!(
                message,
                "Failed to write to '/tmp/out.tex': permission denied".to_string()
            );
        }
        WriteFollowUp::Exit { .. } => panic!("a failed write must not exit the process"),
    }
}

#[test]
fn close_app_without_output_file_just_exits() {
    let mut state = SessionState::new();
    let config = ProcessedArgs { output_file: None, macro_content: None, data: None };
    assert!(state.set(config).is_ok());
    match close_app_plan(&state, &Some("\\[diagram\\]".to_string())) {
        CloseRequest::Exit { code } => assert_eq!(code, 0),
        _ => panic!("without an output file the process must just exit"),
    }
}

#[test]
fn close_app_without_data_just_exits() {
    let mut state = SessionState::new();
    let config = ProcessedArgs {
        output_file: Some("/tmp/out.tex".to_string()),
        macro_content: None,
        data: None,
    };
    assert!(state.set(config).is_ok());
    match close_app_plan(&state, &None) {
        CloseRequest::Exit { code } => assert_eq!(code, 0),
        _ => panic!("without diagram data the process must just exit"),
    }
}

#[test]
fn close_app_on_uninitialized_session_errors() {
    let state = SessionState::new();
    match close_app_plan(&state, &Some("\\[diagram\\]".to_string())) {
        CloseRequest::NotInitialized { message } => {
            assert_eq!(message, "CLI args not initialized".to_string());
        }
        _ => panic!("an uninitialized session must yield an error"),
    }
}

#[test]
fn close_app_no_output_always_exits_cleanly() {
    match close_app_no_output_plan() {
        CloseRequest::Exit { code } => assert_eq!(code, 0),
        _ => panic!("closing without output must always succeed"),
    }
}

#[test]
fn frontend_messages_are_prefixed() {
    assert_eq!(format_frontend_log("hello"), "[FRONTEND] hello".to_string());
    assert_eq!(format_frontend_error("oops"), "[FRONTEND ERROR] oops".to_string());
    assert_eq!(format_frontend_log(""), "[FRONTEND] ".to_string());
}

#[test]
fn macro_loader_messages_name_the_path() {
    assert_eq!(
        macro_not_found_message("m.tex", "No such file or directory"),
        "Error: Could not find macro file 'm.tex': No such file or directory".to_string()
    );
    assert_eq!(
        macro_read_failed_message("/abs/m.tex", "is a directory"),
        "Error: Failed to read macro file '/abs/m.tex': is a directory".to_string()
    );
    assert_eq!(
        macro_loaded_message("/abs/m.tex"),
        "Loaded macro file: /abs/m.tex".to_string()
    );
}
