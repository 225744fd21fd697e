use approval_modal::catalog::command_select_options;
use approval_modal::catalog::patch_select_options;
use approval_modal::keys::KeyCode;
use approval_modal::keys::KeyEvent;
use approval_modal::layout::Rect;
use approval_modal::protocol::ReviewDecision;
use approval_modal::request::ApprovalRequest;
use approval_modal::widget::UserApprovalWidget;

fn short_exec_widget() -> UserApprovalWidget {
    UserApprovalWidget::new(ApprovalRequest::Exec {
        id: String::from("req-1"),
        command: vec![String::from("echo"), String::from("hi")],
        cwd: String::from("/tmp"),
        reason: None,
    })
}

#[test]
fn exec_catalog_is_yes_always_no() {
    let opts = command_select_options();
    assert_eq!(opts.len(), 3);
    assert_eq!(opts[0].label.as_str(), "Yes");
    assert_eq!(opts[0].key, 'y');
    assert_eq!(opts[0].decision, ReviewDecision::Approved);
    assert_eq!(opts[1].label.as_str(), "Always");
    assert_eq!(opts[1].key, 'a');
    assert_eq!(opts[1].decision, ReviewDecision::ApprovedForSession);
    assert_eq!(opts[2].label.as_str(), "No");
    assert_eq!(opts[2].key, 'n');
    assert_eq!(opts[2].decision, ReviewDecision::Denied);
}

#[test]
fn patch_catalog_is_yes_no() {
    let opts = patch_select_options();
    assert_eq!(opts.len(), 2);
    assert_eq!(opts[0].label.as_str(), "Yes");
    assert_eq!(opts[0].decision, ReviewDecision::Approved);
    assert_eq!(opts[1].label.as_str(), "No");
    assert_eq!(opts[1].key, 'n');
    assert_eq!(opts[1].decision, ReviewDecision::Denied);
}

#[test]
fn desired_height_adds_one_row_per_option() {
    let w = short_exec_widget();
    // three short prompt lines, each fitting in eighty cells, plus three rows
    assert_eq!(w.desired_height(80), 6);
}

#[test]
fn desired_height_at_zero_width_counts_only_options() {
    let w = short_exec_widget();
    assert_eq!(w.desired_height(0), 3);
}

#[test]
fn wrapping_height_never_shrinks_at_narrower_widths() {
    let w = UserApprovalWidget::new(ApprovalRequest::Exec {
        id: String::from("req-2"),
        command: vec![String::from("cargo"), String::from("test")],
        cwd: String::from("/home/user/some/longer/project/path"),
        reason: Some(String::from(
            "run the full test suite once to confirm the refactor kept behaviour",
        )),
    });
    let mut previous = w.desired_height(1);
    for width in 2..120u16 {
        let here = w.desired_height(width);
        assert!(here <= previous, "height grew from width {} to {}", width - 1, width);
        previous = here;
    }
}

#[test]
fn plan_partitions_area_into_prompt_and_response() {
    let w = short_exec_widget();
    let plan = w.render_plan(Rect { x: 0, y: 0, width: 40, height: 10 });
    assert_eq!(plan.prompt, Rect { x: 0, y: 0, width: 40, height: 3 });
    assert_eq!(plan.response, Rect { x: 0, y: 3, width: 40, height: 7 });
    assert_eq!(plan.accent, Rect { x: 0, y: 3, width: 1, height: 7 });
    assert_eq!(plan.title, Rect { x: 1, y: 3, width: 38, height: 1 });
    assert_eq!(plan.title_text.as_str(), "Allow command?");
    assert_eq!(plan.buttons_row, Rect { x: 1, y: 4, width: 38, height: 1 });
    assert_eq!(plan.description, Rect { x: 2, y: 5, width: 36, height: 5 });
}

#[test]
fn plan_lays_buttons_left_to_right_with_padding_and_gap() {
    let w = short_exec_widget();
    let plan = w.render_plan(Rect { x: 0, y: 0, width: 40, height: 10 });
    assert_eq!(plan.buttons.len(), 3);
    assert_eq!(plan.buttons[0].label.as_str(), "Yes");
    assert_eq!(plan.buttons[0].rect, Rect { x: 1, y: 4, width: 5, height: 1 });
    assert_eq!(plan.buttons[1].label.as_str(), "Always");
    assert_eq!(plan.buttons[1].rect, Rect { x: 7, y: 4, width: 8, height: 1 });
    assert_eq!(plan.buttons[2].label.as_str(), "No");
    assert_eq!(plan.buttons[2].rect, Rect { x: 16, y: 4, width: 4, height: 1 });
    assert!(plan.buttons[0].selected);
    assert!(!plan.buttons[1].selected);
    assert!(!plan.buttons[2].selected);
}

#[test]
fn plan_highlight_and_description_follow_selection() {
    let mut w = short_exec_widget();
    w.handle_key_event(KeyEvent::press(KeyCode::Right));
    let plan = w.render_plan(Rect { x: 0, y: 0, width: 40, height: 10 });
    assert!(!plan.buttons[0].selected);
    assert!(plan.buttons[1].selected);
    assert_eq!(
        plan.description_text.as_str(),
        "Approve the command for the remainder of this session"
    );
}

#[test]
fn plan_title_depends_on_request_kind() {
    let w = UserApprovalWidget::new(ApprovalRequest::ApplyPatch {
        id: String::from("patch-2"),
        reason: None,
        grant_root: None,
    });
    let plan = w.render_plan(Rect { x: 0, y: 0, width: 30, height: 6 });
    assert_eq!(plan.title_text.as_str(), "Apply changes?");
    assert_eq!(plan.description_text.as_str(), "Approve and apply the changes");
    assert_eq!(plan.buttons.len(), 2);
}

#[test]
fn plan_tolerates_degenerate_areas() {
    let w = short_exec_widget();
    let zero = w.render_plan(Rect { x: 0, y: 0, width: 0, height: 0 });
    assert_eq!(zero.prompt.height, 0);
    assert_eq!(zero.response.height, 0);
    for b in &zero.buttons {
        assert_eq!(b.rect.width, 0);
    }
    let sliver = w.render_plan(Rect { x: 0, y: 0, width: 1, height: 1 });
    assert_eq!(sliver.title.width, 0);
    let narrow = w.render_plan(Rect { x: 0, y: 0, width: 10, height: 20 });
    let right = narrow.buttons_row.x + narrow.buttons_row.width;
    for b in &narrow.buttons {
        assert!(b.rect.x + b.rect.width <= right);
    }
}
