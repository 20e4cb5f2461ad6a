use refresh::errors::RefreshError;
use refresh::io::{command_from_stdin_line, stdin_command_from_words, trim_whitespace, Logger};

#[test]
fn logger_new_keeps_settings() {
    let logger = Logger::new("out.log".to_string(), true);
    assert_eq!(logger.file_path(), "out.log");
    assert!(logger.log_errors_only());
}

#[test]
fn logger_logs_everything_by_default() {
    let logger = Logger::new("out.log".to_string(), false);
    assert_eq!(logger.log_entry("test output", false), Some("test output\n".to_string()));
    assert_eq!(logger.log_entry("error output", true), Some("error output\n".to_string()));
}

#[test]
fn logger_errors_only_skips_success() {
    let logger = Logger::new("out.log".to_string(), true);
    assert_eq!(logger.log_entry("normal output", false), None);
    assert_eq!(logger.log_entry("error output", true), Some("error output\n".to_string()));
}

#[test]
fn trim_removes_surrounding_white_space() {
    assert_eq!(trim_whitespace("  echo piped \n"), "echo piped");
    assert_eq!(trim_whitespace("\t\r\n"), "");
    assert_eq!(trim_whitespace(""), "");
    assert_eq!(trim_whitespace("a  b"), "a  b");
    assert_eq!(trim_whitespace("\u{3000}x\u{a0}"), "x");
    assert_eq!(trim_whitespace("é "), "é");
}

#[test]
fn stdin_line_is_split_like_a_shell() {
    let words = command_from_stdin_line("echo piped\n").unwrap();
    assert_eq!(words, vec!["echo".to_string(), "piped".to_string()]);
    let words = command_from_stdin_line("  df -h  ").unwrap();
    assert_eq!(words, vec!["df".to_string(), "-h".to_string()]);
    let words = command_from_stdin_line("echo 'hello world' \"a b\"").unwrap();
    assert_eq!(
        words,
        vec!["echo".to_string(), "hello world".to_string(), "a b".to_string()]
    );
}

#[test]
fn stdin_line_empty_is_an_error() {
    match command_from_stdin_line("   \n") {
        Err(RefreshError::CliParse(msg)) => assert_eq!(msg, "No command provided via stdin"),
        _ => panic!("expected an error"),
    }
}

#[test]
fn stdin_line_with_open_quote_is_an_error() {
    match command_from_stdin_line("echo 'unterminated") {
        Err(RefreshError::CliParse(msg)) => {
            assert_eq!(msg, "Failed to parse command from stdin: missing closing quote")
        }
        _ => panic!("expected an error"),
    }
}

#[test]
fn words_from_splitter() {
    let words = vec!["ls".to_string(), "-l".to_string()];
    assert_eq!(stdin_command_from_words(Ok(words.clone())).unwrap(), words);
    match stdin_command_from_words(Err(shell_words::ParseError)) {
        Err(RefreshError::CliParse(msg)) => {
            assert_eq!(msg, "Failed to parse command from stdin: missing closing quote")
        }
        _ => panic!("expected an error"),
    }
}
