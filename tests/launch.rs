use editor_launch::error::{exit_outcome, ConfigError, ExitReport};
use editor_launch::launch::{prepare_launch, LaunchPlan};
use editor_launch::tokenize::split_command;

fn s(x: &str) -> String {
    x.to_string()
}

#[test]
fn quoted_words_stay_together() {
    assert_eq!(split_command("\"my editor\" --flag"), Ok(vec![s("my editor"), s("--flag")]));
}

#[test]
fn splitting_twice_gives_the_same_words() {
    let a = split_command("'a b' c\\ d \"e\\\"f\"").unwrap();
    let b = split_command("'a b' c\\ d \"e\\\"f\"").unwrap();
    assert_eq!(a, vec![s("a b"), s("c d"), s("e\"f")]);
    assert_eq!(a, b);
}

#[test]
fn unterminated_quote_fails_to_split() {
    assert!(split_command("\"my editor --flag").is_err());
    assert!(split_command("vim 'x").is_err());
}

#[test]
fn unterminated_quote_gives_invalid_syntax() {
    match prepare_launch("vim \"oops", "/tmp/f") {
        Err(ConfigError::InvalidCommandSyntax { command, reason }) => {
            assert_eq!(command, s("vim \"oops"));
            assert!(!reason.is_empty());
        }
        other => panic!("unexpected result: {:?}", other),
    }
}

#[test]
fn empty_command_is_rejected() {
    assert_eq!(split_command(""), Ok(vec![]));
    assert_eq!(prepare_launch("", "/tmp/f"), Err(ConfigError::EmptyEditorCommand));
}

#[test]
fn blank_command_is_rejected() {
    assert_eq!(split_command(" \t\n "), Ok(vec![]));
    assert_eq!(prepare_launch("   \t  \n", "/tmp/f"), Err(ConfigError::EmptyEditorCommand));
}

#[test]
fn target_is_appended_after_all_words() {
    let plan = prepare_launch("code --wait --new-window", "/home/u/.config/state.json").unwrap();
    assert_eq!(plan.program, s("code"));
    assert_eq!(plan.args, vec![s("--wait"), s("--new-window"), s("/home/u/.config/state.json")]);
}

#[test]
fn single_word_command_gets_only_the_target() {
    let plan = prepare_launch("nano", "/tmp/a b/state.json").unwrap();
    assert_eq!(plan, LaunchPlan { program: s("nano"), args: vec![s("/tmp/a b/state.json")] });
}

#[test]
fn quoted_program_name_is_one_word() {
    let plan = prepare_launch("\"my editor\" --flag", "/tmp/x").unwrap();
    assert_eq!(plan.program, s("my editor"));
    assert_eq!(plan.args, vec![s("--flag"), s("/tmp/x")]);
}

#[test]
fn configured_vim_scenario() {
    let plan = prepare_launch("vim -n", "/tmp/newdir/state.json").unwrap();
    assert_eq!(plan.program, s("vim"));
    assert_eq!(plan.args, vec![s("-n"), s("/tmp/newdir/state.json")]);
    assert_eq!(exit_outcome(Some(0)), Ok(()));
}

#[test]
fn exit_code_zero_is_success() {
    assert_eq!(exit_outcome(Some(0)), Ok(()));
}

#[test]
fn exit_code_one_is_reported() {
    assert_eq!(
        exit_outcome(Some(1)),
        Err(ConfigError::EditorExitedWithError(ExitReport::Code(1)))
    );
    assert_eq!(
        exit_outcome(Some(-3)),
        Err(ConfigError::EditorExitedWithError(ExitReport::Code(-3)))
    );
}

#[test]
fn signal_termination_is_reported() {
    assert_eq!(
        exit_outcome(None),
        Err(ConfigError::EditorExitedWithError(ExitReport::TerminatedBySignal))
    );
}
