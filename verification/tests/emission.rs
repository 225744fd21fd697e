use approval_modal::keys::KeyCode;
use approval_modal::keys::KeyEvent;
use approval_modal::protocol::AppEvent;
use approval_modal::protocol::Op;
use approval_modal::protocol::ReviewDecision;
use approval_modal::request::ApprovalRequest;
use approval_modal::request::command_line;
use approval_modal::request::display_cwd;
use approval_modal::widget::UserApprovalWidget;

fn echo_exec_widget() -> UserApprovalWidget {
    UserApprovalWidget::new(ApprovalRequest::Exec {
        id: String::from("req-42"),
        command: vec![String::from("echo"), String::from("hello")],
        cwd: String::from("/home/user/project"),
        reason: Some(String::from("prints a greeting")),
    })
}

fn history_lines(w: &UserApprovalWidget) -> Vec<String> {
    match &w.events()[0] {
        AppEvent::InsertHistory(lines) => lines.clone(),
        _ => panic!("first notification must be the history transcript"),
    }
}

#[test]
fn exec_transcript_has_header_command_and_decision() {
    let mut w = echo_exec_widget();
    w.handle_key_event(KeyEvent::press(KeyCode::Enter));
    let lines = history_lines(&w);
    assert_eq!(
        lines,
        vec![
            String::from("approval decision"),
            String::from("$ echo hello"),
            String::from("decision: Approved"),
            String::from(""),
        ]
    );
}

#[test]
fn patch_transcript_is_one_decision_line() {
    let mut w = UserApprovalWidget::new(ApprovalRequest::ApplyPatch {
        id: String::from("patch-1"),
        reason: None,
        grant_root: None,
    });
    w.handle_key_event(KeyEvent::press(KeyCode::Char('n')));
    let lines = history_lines(&w);
    assert_eq!(
        lines,
        vec![String::from("patch approval decision: Denied"), String::from("")]
    );
}

#[test]
fn abort_decision_is_named_in_transcript() {
    let mut w = echo_exec_widget();
    w.handle_key_event(KeyEvent::press(KeyCode::Esc));
    let lines = history_lines(&w);
    assert_eq!(lines[2], String::from("decision: Abort"));
}

#[test]
fn session_approval_is_named_in_transcript() {
    let mut w = echo_exec_widget();
    w.handle_key_event(KeyEvent::press(KeyCode::Char('a')));
    let lines = history_lines(&w);
    assert_eq!(lines[2], String::from("decision: ApprovedForSession"));
}

#[test]
fn operation_echoes_request_id() {
    let mut w = echo_exec_widget();
    w.handle_key_event(KeyEvent::press(KeyCode::Char('y')));
    match &w.events()[1] {
        AppEvent::CodexOp(Op::ExecApproval { id, decision }) => {
            assert_eq!(id.as_str(), "req-42");
            assert_eq!(*decision, ReviewDecision::Approved);
        }
        _ => panic!("second notification must be the exec operation"),
    }
}

#[test]
fn nonblank_feedback_is_appended_as_labeled_block() {
    let mut w = echo_exec_widget();
    w.send_decision_with_feedback(
        ReviewDecision::Denied,
        String::from("looks wrong\nplease use -n"),
    );
    let lines = history_lines(&w);
    assert_eq!(
        lines,
        vec![
            String::from("approval decision"),
            String::from("$ echo hello"),
            String::from("decision: Denied"),
            String::from("feedback:"),
            String::from("looks wrong"),
            String::from("please use -n"),
            String::from(""),
        ]
    );
}

#[test]
fn blank_feedback_adds_no_block() {
    let mut w = echo_exec_widget();
    w.send_decision_with_feedback(ReviewDecision::Denied, String::from("  \t\n "));
    let lines = history_lines(&w);
    assert_eq!(lines.len(), 4);
    assert_eq!(lines[3], String::from(""));
}

#[test]
fn feedback_splits_crlf_and_drops_trailing_newline() {
    let mut w = echo_exec_widget();
    w.send_decision_with_feedback(ReviewDecision::Abort, String::from("one\r\ntwo\n"));
    let lines = history_lines(&w);
    assert_eq!(lines[3], String::from("feedback:"));
    assert_eq!(lines[4], String::from("one"));
    assert_eq!(lines[5], String::from("two"));
    assert_eq!(lines[6], String::from(""));
    assert_eq!(lines.len(), 7);
}

#[test]
fn bash_lc_wrapper_is_stripped_to_its_script() {
    let cmd = command_line(&vec![
        String::from("bash"),
        String::from("-lc"),
        String::from("ls -la | head"),
    ]);
    assert_eq!(cmd, String::from("ls -la | head"));
}

#[test]
fn plain_commands_join_with_spaces() {
    let cmd = command_line(&vec![
        String::from("cargo"),
        String::from("build"),
        String::from("--release"),
    ]);
    assert_eq!(cmd, String::from("cargo build --release"));
}

#[test]
fn tokens_with_spaces_are_single_quoted() {
    let cmd = command_line(&vec![String::from("echo"), String::from("a b")]);
    assert_eq!(cmd, String::from("echo 'a b'"));
}

#[test]
fn quotes_inside_tokens_are_escaped() {
    let cmd = command_line(&vec![String::from("echo"), String::from("it's")]);
    assert_eq!(cmd, String::from("echo 'it'\\''s'"));
}

#[test]
fn empty_tokens_are_quoted() {
    let cmd = command_line(&vec![String::from("printf"), String::from("")]);
    assert_eq!(cmd, String::from("printf ''"));
}

#[test]
fn unicode_whitespace_feedback_counts_as_blank() {
    let mut w = echo_exec_widget();
    w.send_decision_with_feedback(ReviewDecision::Denied, String::from("\u{a0}\u{2003}\u{85}"));
    let lines = history_lines(&w);
    assert_eq!(lines.len(), 4);
}

#[test]
fn cwd_under_home_displays_relative() {
    let home = Some(String::from("/home/user"));
    assert_eq!(
        display_cwd(&String::from("/home/user/project"), &home),
        String::from("~/project")
    );
    assert_eq!(display_cwd(&String::from("/home/user"), &home), String::from("~/"));
}

#[test]
fn cwd_outside_home_displays_absolute() {
    let home = Some(String::from("/home/user"));
    assert_eq!(display_cwd(&String::from("/tmp"), &home), String::from("/tmp"));
    assert_eq!(
        display_cwd(&String::from("/home/username/x"), &home),
        String::from("/home/username/x")
    );
    assert_eq!(display_cwd(&String::from("/etc"), &None), String::from("/etc"));
}

#[test]
fn exec_prompt_announces_command_and_cwd() {
    let w = UserApprovalWidget::new(ApprovalRequest::Exec {
        id: String::from("req-9"),
        command: vec![String::from("rm"), String::from("-rf"), String::from("build")],
        cwd: String::from("~/project"),
        reason: Some(String::from("clean the tree")),
    });
    assert_eq!(
        w.prompt_lines,
        vec![
            String::from("codex wants to run:"),
            String::from("~/project$ rm -rf build"),
            String::from(""),
            String::from("clean the tree"),
            String::from(""),
        ]
    );
}

#[test]
fn patch_prompt_shows_reason_and_grant_root() {
    let w = UserApprovalWidget::new(ApprovalRequest::ApplyPatch {
        id: String::from("patch-3"),
        reason: Some(String::from("apply the fix")),
        grant_root: Some(String::from("/repo/src")),
    });
    assert_eq!(
        w.prompt_lines,
        vec![
            String::from("apply the fix"),
            String::from(""),
            String::from(
                "This will grant write access to /repo/src for the remainder of this session."
            ),
            String::from(""),
        ]
    );
}

#[test]
fn patch_prompt_is_empty_without_reason_or_grant() {
    let w = UserApprovalWidget::new(ApprovalRequest::ApplyPatch {
        id: String::from("patch-4"),
        reason: None,
        grant_root: None,
    });
    assert_eq!(w.prompt_lines.len(), 0);
}
