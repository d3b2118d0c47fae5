use command_pattern::{Command, CommandPatternApp};

fn verdict(text: &str) -> Option<bool> {
    let mut sut = CommandPatternApp::new();
    sut.handle_command(Command::VerifyAnswer(text.to_string()));
    sut.correct_answer
}

#[test]
fn test_verify_answer_command_ok() {
    let mut sut = CommandPatternApp::new();
    assert_eq!(sut.correct_answer, None); // initial state
    let cmd = Command::VerifyAnswer("10".to_string());

    sut.handle_command(cmd);

    assert_eq!(sut.correct_answer, Some(true));
}

#[test]
fn test_verify_answer_command_not_ok() {
    let mut sut = CommandPatternApp::new();
    assert_eq!(sut.correct_answer, None); // initial state
    let cmd = Command::VerifyAnswer("ten".to_string());

    sut.handle_command(cmd);

    assert_eq!(sut.correct_answer, Some(false));
}

#[test]
fn other_spellings_of_ten_are_correct() {
    assert_eq!(verdict("+10"), Some(true));
    assert_eq!(verdict("010"), Some(true));
    assert_eq!(verdict("0000010"), Some(true));
}

#[test]
fn other_numbers_and_malformed_text_are_wrong() {
    assert_eq!(verdict("9"), Some(false));
    assert_eq!(verdict("-10"), Some(false));
    assert_eq!(verdict("0"), Some(false));
    assert_eq!(verdict(""), Some(false));
    assert_eq!(verdict(" 10"), Some(false));
    assert_eq!(verdict("10 "), Some(false));
    assert_eq!(verdict("10.0"), Some(false));
    assert_eq!(verdict("+"), Some(false));
    assert_eq!(verdict("99999999999"), Some(false));
    assert_eq!(verdict("4294967306"), Some(false));
}

#[test]
fn verification_can_be_reevaluated() {
    let mut sut = CommandPatternApp::new();
    sut.handle_command(Command::VerifyAnswer("10".to_string()));
    sut.handle_command(Command::VerifyAnswer("10".to_string()));
    assert_eq!(sut.correct_answer, Some(true));
    sut.handle_command(Command::VerifyAnswer("11".to_string()));
    assert_eq!(sut.correct_answer, Some(false));
    sut.handle_command(Command::VerifyAnswer("10".to_string()));
    assert_eq!(sut.correct_answer, Some(true));
}

#[test]
fn start_state() {
    let sut = CommandPatternApp::new();
    assert_eq!(sut.label, "Hello World!");
    assert_eq!(sut.correct_answer, None);
    assert_eq!(sut.value_hundredths, 270);
    assert_eq!(sut.window_id, 0);
    assert!(sut.open_windows.is_empty());
    assert!(sut.cmd_to_run.is_none());
    assert_eq!(CommandPatternApp::default(), sut);
}

#[test]
fn scenario_full_session() {
    let mut sut = CommandPatternApp::new();
    sut.handle_command(Command::VerifyAnswer("10".to_string()));
    assert_eq!(sut.correct_answer, Some(true));
    sut.handle_command(Command::VerifyAnswer("ten".to_string()));
    assert_eq!(sut.correct_answer, Some(false));
    for _ in 0..3 {
        sut.handle_command(Command::IncrementByButton);
    }
    assert_eq!(sut.value_hundredths, 570);
    sut.handle_command(Command::CreateNewWindow(0));
    sut.handle_command(Command::CreateNewWindow(1));
    assert_eq!(sut.open_windows, vec![0, 1]);
    sut.handle_command(Command::CloseWindow(0));
    assert_eq!(sut.open_windows, vec![1]);
}

#[test]
fn increment_n_times_adds_n() {
    let mut sut = CommandPatternApp::new();
    sut.value_hundredths = -125;
    for _ in 0..7 {
        sut.handle_command(Command::IncrementByButton);
    }
    assert_eq!(sut.value_hundredths, 575);
}

#[test]
fn increment_saturates_at_the_top() {
    let mut sut = CommandPatternApp::new();
    sut.value_hundredths = i64::MAX - 50;
    sut.handle_command(Command::IncrementByButton);
    assert_eq!(sut.value_hundredths, i64::MAX);
    sut.handle_command(Command::IncrementByButton);
    assert_eq!(sut.value_hundredths, i64::MAX);
}

#[test]
fn open_then_close_restores_windows() {
    let mut sut = CommandPatternApp::new();
    sut.open_windows = vec![4, 2, 9];
    sut.handle_command(Command::CreateNewWindow(7));
    assert_eq!(sut.open_windows, vec![4, 2, 9, 7]);
    sut.handle_command(Command::CloseWindow(7));
    assert_eq!(sut.open_windows, vec![4, 2, 9]);
}

#[test]
fn closing_an_absent_window_changes_nothing() {
    let mut sut = CommandPatternApp::new();
    sut.open_windows = vec![4, 2, 9];
    let before = sut.clone();
    sut.handle_command(Command::CloseWindow(5));
    assert_eq!(sut, before);
    let mut empty = CommandPatternApp::new();
    empty.handle_command(Command::CloseWindow(0));
    assert!(empty.open_windows.is_empty());
}

#[test]
fn closing_removes_every_equal_entry() {
    let mut sut = CommandPatternApp::new();
    sut.handle_command(Command::CreateNewWindow(3));
    sut.handle_command(Command::CreateNewWindow(5));
    sut.handle_command(Command::CreateNewWindow(3));
    sut.handle_command(Command::CloseWindow(3));
    assert_eq!(sut.open_windows, vec![5]);
}

#[test]
fn noop_changes_nothing() {
    let mut sut = CommandPatternApp::new();
    sut.label = "42".to_string();
    sut.handle_command(Command::VerifyAnswer("10".to_string()));
    sut.handle_command(Command::CreateNewWindow(0));
    sut.submit(Command::IncrementByButton);
    let before = sut.clone();
    sut.handle_command(Command::NoOP);
    assert_eq!(sut, before);
}
