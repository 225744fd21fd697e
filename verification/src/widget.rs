//! The modal controller: one pending request, the highlighted option, the
//! completion flag, and the decision-emission protocol.

use vstd::prelude::*;

use crate::catalog::OptionView;
use crate::catalog::SelectOption;
use crate::catalog::catalog_for;
use crate::catalog::command_select_options;
use crate::catalog::exec_catalog;
use crate::catalog::patch_catalog;
use crate::catalog::patch_select_options;
use crate::catalog::spec_find_shortcut_from;
use crate::catalog::spec_shortcut;
use crate::feedback::is_blank;
use crate::feedback::spec_is_blank;
use crate::feedback::spec_lines_of;
use crate::feedback::split_lines;
use crate::keys::KeyCode;
use crate::keys::KeyEvent;
use crate::keys::KeyEventKind;
use crate::protocol::AppEvent;
use crate::protocol::AppEventView;
use crate::protocol::Op;
use crate::protocol::OpView;
use crate::protocol::ReviewDecision;
use crate::request::ApprovalRequest;
use crate::request::command_line;
use crate::request::spec_command_line;
use crate::wrap::MAX_WRAP_WIDTH;
use crate::wrap::clamped_width;
use crate::wrap::wrapped_line_count;
use crate::wrap::wrapped_line_count_of;

verus! {

/// The transcript block pushed to history when `decision` is made on `req`
/// with the given free-text feedback: for a command, a header, the command
/// line behind a shell-prompt marker and the decision; for a patch, a single
/// decision line. Non-blank feedback follows as a labeled block, one line
/// per input line. A blank line closes the block.
pub open spec fn spec_transcript(
    req: ApprovalRequest,
    decision: ReviewDecision,
    feedback: Seq<char>,
) -> Seq<Seq<char>> {
    let base = if req.is_exec() {
        seq![
            "approval decision"@,
            "$ "@ + spec_command_line(req.spec_command()),
            "decision: "@ + decision.spec_name(),
        ]
    } else {
        seq!["patch approval decision: "@ + decision.spec_name()]
    };
    let with_feedback = if !spec_is_blank(feedback) {
        base + seq!["feedback:"@] + spec_lines_of(feedback)
    } else {
        base
    };
    with_feedback + seq![Seq::<char>::empty()]
}

/// The operation notification for a decision on a request: the request's
/// identifier, echoed exactly, with the decision, shaped by the request kind.
pub open spec fn spec_op(req: ApprovalRequest, decision: ReviewDecision) -> OpView {
    if req.is_exec() {
        OpView::ExecApproval { id: req.spec_id(), decision }
    } else {
        OpView::PatchApproval { id: req.spec_id(), decision }
    }
}

/// The index one Right press reaches from `i` among `n` options.
pub open spec fn cycle_right(i: int, n: int) -> int {
    (i + 1) % n
}

/// The index one Left press reaches from `i` among `n` options.
pub open spec fn cycle_left(i: int, n: int) -> int {
    (i + n - 1) % n
}

/// A modal prompting the user to approve or deny the pending request. Key
/// events drive the selection; a decision pushes two notifications into the
/// outbox, which the host forwards to its sink and history.
pub struct UserApprovalWidget {
    pub approval_request: ApprovalRequest,
    pub prompt_lines: Vec<String>,
    pub select_options: Vec<SelectOption>,
    pub selected_option: usize,
    pub done: bool,
    pub outbox: Vec<AppEvent>,
}

impl UserApprovalWidget {
    /// The catalog bound to this modal, as a mathematical value.
    pub open spec fn catalog(self) -> Seq<OptionView> {
        self.select_options.deep_view()
    }

    /// Well-formedness: the highlighted index is always within the catalog,
    /// the catalog is the fixed table for the request's kind, and the prompt
    /// is the one built from the request.
    pub open spec fn wf(self) -> bool {
        &&& self.selected_option < self.select_options.len()
        &&& self.catalog() == catalog_for(self.approval_request.is_exec())
        &&& self.prompt_lines.deep_view() == self.approval_request.spec_prompt_lines()
    }

    /// `post` is `pre` with the highlighted index set to `sel` and nothing
    /// else changed.
    pub open spec fn only_selection_changed(pre: Self, post: Self, sel: int) -> bool {
        &&& post.approval_request == pre.approval_request
        &&& post.prompt_lines == pre.prompt_lines
        &&& post.select_options == pre.select_options
        &&& post.done == pre.done
        &&& post.outbox == pre.outbox
        &&& post.selected_option == sel
    }

    /// `post` is `pre` after emitting `decision` with the given feedback:
    /// the transcript block and then the operation were appended to the
    /// outbox, in that order, the modal is completed, and nothing else
    /// changed.
    pub open spec fn emits_with_feedback(
        pre: Self,
        post: Self,
        decision: ReviewDecision,
        feedback: Seq<char>,
    ) -> bool {
        &&& post.approval_request == pre.approval_request
        &&& post.prompt_lines == pre.prompt_lines
        &&& post.select_options == pre.select_options
        &&& post.selected_option == pre.selected_option
        &&& post.done
        &&& post.outbox.deep_view() == pre.outbox.deep_view() + seq![
            AppEventView::InsertHistory(
                spec_transcript(pre.approval_request, decision, feedback),
            ),
            AppEventView::CodexOp(spec_op(pre.approval_request, decision)),
        ]
    }

    /// `post` is `pre` after emitting `decision` with no feedback.
    pub open spec fn emits(pre: Self, post: Self, decision: ReviewDecision) -> bool {
        Self::emits_with_feedback(pre, post, decision, Seq::empty())
    }

    /// The effect of one key press on an active modal: Left and Right cycle
    /// the selection with wraparound, Enter confirms the highlighted option,
    /// Escape aborts, a shortcut key confirms its catalog entry directly,
    /// and anything else is a no-op.
    pub open spec fn select_step(pre: Self, post: Self, code: KeyCode) -> bool {
        let n = pre.select_options.len() as int;
        match code {
            KeyCode::Left => Self::only_selection_changed(
                pre,
                post,
                cycle_left(pre.selected_option as int, n),
            ),
            KeyCode::Right => Self::only_selection_changed(
                pre,
                post,
                cycle_right(pre.selected_option as int, n),
            ),
            KeyCode::Enter => Self::emits(
                pre,
                post,
                pre.catalog()[pre.selected_option as int].decision,
            ),
            KeyCode::Esc => Self::emits(pre, post, ReviewDecision::Abort),
            _ => match spec_shortcut(pre.catalog(), code) {
                Some(i) => Self::emits(pre, post, pre.catalog()[i].decision),
                None => post == pre,
            },
        }
    }

    /// Builds a modal for the request, bound to the catalog of the request's
    /// kind, highlighting the first option, active, with an empty outbox.
    pub fn new(approval_request: ApprovalRequest) -> (w: Self)
        ensures
            w.wf(),
            w.approval_request == approval_request,
            w.selected_option == 0,
            !w.done,
            w.outbox.deep_view() == Seq::<AppEventView>::empty(),
    {
        let prompt_lines = approval_request.prompt_lines();
        let select_options = match &approval_request {
            ApprovalRequest::Exec { .. } => command_select_options(),
            ApprovalRequest::ApplyPatch { .. } => patch_select_options(),
        };
        let w = UserApprovalWidget {
            approval_request,
            prompt_lines,
            select_options,
            selected_option: 0,
            done: false,
            outbox: Vec::new(),
        };
        proof {
            assert(w.outbox.deep_view() =~= Seq::<AppEventView>::empty());
            assert(w.catalog().len() >= 2);
        }
        w
    }

    /// Whether the user has made a decision, so the modal no longer needs to
    /// be displayed.
    pub fn is_complete(&self) -> (r: bool)
        ensures
            r == self.done,
    {
        self.done
    }

    /// The notifications pushed so far, oldest first.
    pub fn events(&self) -> (r: &Vec<AppEvent>)
        ensures
            r == &self.outbox,
    {
        &self.outbox
    }

    /// Hands the accumulated notifications to the host, leaving the outbox
    /// empty; the rest of the state is untouched.
    pub fn take_events(&mut self) -> (r: Vec<AppEvent>)
        ensures
            r == old(self).outbox,
            final(self).outbox@ == Seq::<AppEvent>::empty(),
            final(self).approval_request == old(self).approval_request,
            final(self).prompt_lines == old(self).prompt_lines,
            final(self).select_options == old(self).select_options,
            final(self).selected_option == old(self).selected_option,
            final(self).done == old(self).done,
    {
        let mut taken: Vec<AppEvent> = Vec::new();
        std::mem::swap(&mut taken, &mut self.outbox);
        taken
    }

    /// Processes a key event. The modal captures all input while visible, so
    /// the event always counts as consumed: presses drive the state machine,
    /// other kinds are ignored, and a completed modal ignores everything.
    pub fn handle_key_event(&mut self, key: KeyEvent)
        requires
            old(self).wf(),
        ensures
            final(self).wf(),
            old(self).done || key.kind != KeyEventKind::Press ==> *final(self) == *old(self),
            !old(self).done && key.kind == KeyEventKind::Press ==> Self::select_step(
                *old(self),
                *final(self),
                key.code,
            ),
    {
        if !self.done && key.kind == KeyEventKind::Press {
            self.handle_select_key(key);
        }
    }

    /// Handles an external interrupt while the modal is visible: like
    /// pressing Escape, it aborts the request; a completed modal stays as it
    /// is, so no second decision can ever be emitted.
    pub fn on_ctrl_c(&mut self)
        requires
            old(self).wf(),
        ensures
            final(self).wf(),
            old(self).done ==> *final(self) == *old(self),
            !old(self).done ==> Self::emits(*old(self), *final(self), ReviewDecision::Abort),
    {
        if !self.done {
            self.send_decision(ReviewDecision::Abort);
        }
    }

    fn handle_select_key(&mut self, key_event: KeyEvent)
        requires
            old(self).wf(),
            !old(self).done,
        ensures
            final(self).wf(),
            Self::select_step(*old(self), *final(self), key_event.code),
    {
        let n = self.select_options.len();
        proof {
            assert(self.catalog().len() == n);
            assert(n >= 2);
        }
        match key_event.code {
            KeyCode::Left => {
                self.selected_option = (self.selected_option + n - 1) % n;
            },
            KeyCode::Right => {
                self.selected_option = (self.selected_option + 1) % n;
            },
            KeyCode::Enter => {
                let decision = self.select_options[self.selected_option].decision;
                proof {
                    assert(self.catalog()[self.selected_option as int]
                        == self.select_options@[self.selected_option as int].deep_view());
                }
                self.send_decision(decision);
            },
            KeyCode::Esc => {
                self.send_decision(ReviewDecision::Abort);
            },
            KeyCode::Char(c) => {
                let mut i: usize = 0;
                while i < n
                    invariant
                        *self == *old(self),
                        self.wf(),
                        !self.done,
                        key_event.code == KeyCode::Char(c),
                        i <= n,
                        n == self.select_options.len(),
                        spec_find_shortcut_from(self.catalog(), c, 0)
                            == spec_find_shortcut_from(self.catalog(), c, i as int),
                    decreases n - i,
                {
                    proof {
                        assert(self.catalog()[i as int]
                            == self.select_options@[i as int].deep_view());
                    }
                    if self.select_options[i].key == c {
                        let decision = self.select_options[i].decision;
                        proof {
                            assert(spec_find_shortcut_from(self.catalog(), c, i as int)
                                == Some(i as int));
                        }
                        self.send_decision(decision);
                        return;
                    }
                    i += 1;
                }
            },
            KeyCode::Other => {},
        }
    }

    fn send_decision(&mut self, decision: ReviewDecision)
        requires
            old(self).wf(),
            !old(self).done,
        ensures
            final(self).wf(),
            Self::emits(*old(self), *final(self), decision),
    {
        self.send_decision_with_feedback(decision, String::new());
    }

    /// Emits a decision with free-text feedback: pushes the transcript block
    /// and then the operation notification, and completes the modal. The
    /// feedback path is dormant — every key-driven decision passes empty
    /// feedback — but the transcript contract for non-blank feedback holds.
    pub fn send_decision_with_feedback(&mut self, decision: ReviewDecision, feedback: String)
        requires
            old(self).wf(),
            !old(self).done,
        ensures
            final(self).wf(),
            Self::emits_with_feedback(*old(self), *final(self), decision, feedback@),
    {
        let ghost req = self.approval_request;
        let mut lines: Vec<String> = Vec::new();
        match &self.approval_request {
            ApprovalRequest::Exec { command, .. } => {
                let cmd = command_line(command);
                lines.push(String::from_str("approval decision"));
                let mut cmd_line = String::from_str("$ ");
                cmd_line.append(cmd.as_str());
                lines.push(cmd_line);
                let mut decision_line = String::from_str("decision: ");
                let name = decision.name();
                decision_line.append(name.as_str());
                lines.push(decision_line);
            },
            ApprovalRequest::ApplyPatch { .. } => {
                let mut decision_line = String::from_str("patch approval decision: ");
                let name = decision.name();
                decision_line.append(name.as_str());
                lines.push(decision_line);
            },
        }
        let ghost base = lines.deep_view();
        if !is_blank(&feedback) {
            lines.push(String::from_str("feedback:"));
            let mut feedback_lines = split_lines(&feedback);
            let ghost labeled = lines.deep_view();
            lines.append(&mut feedback_lines);
            proof {
                assert(lines.deep_view() =~= labeled + spec_lines_of(feedback@));
                assert(labeled =~= base + seq!["feedback:"@]);
            }
        }
        lines.push(String::new());
        proof {
            assert(lines.deep_view() =~~= spec_transcript(req, decision, feedback@));
        }
        self.outbox.push(AppEvent::InsertHistory(lines));
        let op = match &self.approval_request {
            ApprovalRequest::Exec { id, .. } => Op::ExecApproval { id: id.clone(), decision },
            ApprovalRequest::ApplyPatch { id, .. } => Op::PatchApproval {
                id: id.clone(),
                decision,
            },
        };
        self.outbox.push(AppEvent::CodexOp(op));
        self.done = true;
        proof {
            assert(final(self).outbox.deep_view() =~= old(self).outbox.deep_view() + seq![
                AppEventView::InsertHistory(spec_transcript(req, decision, feedback@)),
                AppEventView::CodexOp(spec_op(req, decision)),
            ]);
        }
    }

    /// The height the modal wants at the given width: the wrapped height of
    /// the confirmation prompt plus one row per catalog entry, capped at the
    /// largest height a terminal cell coordinate can hold. A width beyond
    /// the wrap computation's limit is served at that limit, wider than any
    /// terminal.
    pub open spec fn spec_desired_height(self, width: u16) -> int {
        let h = wrapped_line_count_of(self.prompt_lines.deep_view(), clamped_width(width))
            + self.select_options.len();
        if h > u16::MAX as int {
            u16::MAX as int
        } else {
            h as int
        }
    }

    /// The wrapped line count of the confirmation prompt at the given
    /// width, which is clamped to the limit the wrap computation accepts.
    pub(crate) fn get_confirmation_prompt_height(&self, width: u16) -> (r: usize)
        ensures
            r == wrapped_line_count_of(self.prompt_lines.deep_view(), clamped_width(width)),
            width == 0 ==> r == 0,
    {
        let w = if width > MAX_WRAP_WIDTH {
            MAX_WRAP_WIDTH
        } else {
            width
        };
        wrapped_line_count(&self.prompt_lines, w)
    }

    /// The height the modal wants at the given width.
    pub fn desired_height(&self, width: u16) -> (r: u16)
        requires
            self.wf(),
        ensures
            r as int == self.spec_desired_height(width),
    {
        let wrapped = self.get_confirmation_prompt_height(width);
        let n = self.select_options.len();
        proof {
            assert(self.catalog().len() == n);
            assert(n <= 3);
        }
        let cap: usize = 65535;
        if wrapped > cap - n {
            65535u16
        } else {
            (wrapped + n) as u16
        }
    }
}

/// The index reached from `i` by `k` successive Right presses.
pub open spec fn iter_right(i: int, n: int, k: nat) -> int
    decreases k,
{
    if k == 0 {
        i
    } else {
        cycle_right(iter_right(i, n, (k - 1) as nat), n)
    }
}

/// The index reached from `i` by `k` successive Left presses.
pub open spec fn iter_left(i: int, n: int, k: nat) -> int
    decreases k,
{
    if k == 0 {
        i
    } else {
        cycle_left(iter_left(i, n, (k - 1) as nat), n)
    }
}

proof fn lemma_iter_right_mod(i: int, n: int, k: nat)
    requires
        0 <= i < n,
    ensures
        iter_right(i, n, k) == (i + k) % n,
    decreases k,
{
    if k == 0 {
        vstd::arithmetic::div_mod::lemma_small_mod(i as nat, n as nat);
    } else {
        lemma_iter_right_mod(i, n, (k - 1) as nat);
        let a = (i + k - 1) % n;
        vstd::arithmetic::div_mod::lemma_fundamental_div_mod(i + k - 1, n);
        let q = (i + k - 1) / n;
        assert(i + k == n * q + (a + 1));
        vstd::arithmetic::div_mod::lemma_mod_multiples_vanish(q, a + 1, n);
    }
}

proof fn lemma_iter_left_mod(i: int, n: int, k: nat)
    requires
        0 <= i < n,
    ensures
        iter_left(i, n, k) == (i + k * (n - 1)) % n,
    decreases k,
{
    if k == 0 {
        assert(k * (n - 1) == 0) by (nonlinear_arith)
            requires
                k == 0,
        ;
        vstd::arithmetic::div_mod::lemma_small_mod(i as nat, n as nat);
    } else {
        lemma_iter_left_mod(i, n, (k - 1) as nat);
        let a = (i + (k - 1) * (n - 1)) % n;
        vstd::arithmetic::div_mod::lemma_fundamental_div_mod(i + (k - 1) * (n - 1), n);
        let q = (i + (k - 1) * (n - 1)) / n;
        assert((k - 1) * (n - 1) + (n - 1) == k * (n - 1)) by (nonlinear_arith);
        assert(i + k * (n - 1) == n * q + (a + n - 1));
        vstd::arithmetic::div_mod::lemma_mod_multiples_vanish(q, a + n - 1, n);
    }
}

/// Cycling: `n` Right presses from any valid index return to it.
pub proof fn lemma_right_cycles_back(i: int, n: int)
    requires
        0 <= i < n,
    ensures
        iter_right(i, n, n as nat) == i,
{
    lemma_iter_right_mod(i, n, n as nat);
    vstd::arithmetic::div_mod::lemma_mod_multiples_vanish(1, i, n);
    vstd::arithmetic::div_mod::lemma_small_mod(i as nat, n as nat);
}

/// Cycling: `n` Left presses from any valid index return to it.
pub proof fn lemma_left_cycles_back(i: int, n: int)
    requires
        0 <= i < n,
    ensures
        iter_left(i, n, n as nat) == i,
{
    lemma_iter_left_mod(i, n, n as nat);
    vstd::arithmetic::div_mod::lemma_mod_multiples_vanish(n - 1, i, n);
    assert(i + n * (n - 1) == n * (n - 1) + i);
    vstd::arithmetic::div_mod::lemma_small_mod(i as nat, n as nat);
}

/// A Left press then a Right press, or the reverse, is a no-op on the index.
pub proof fn lemma_left_right_inverse(i: int, n: int)
    requires
        0 <= i < n,
    ensures
        cycle_right(cycle_left(i, n), n) == i,
        cycle_left(cycle_right(i, n), n) == i,
{
    let a = (i + n - 1) % n;
    vstd::arithmetic::div_mod::lemma_fundamental_div_mod(i + n - 1, n);
    let q = (i + n - 1) / n;
    assert(n * (1 - q) == n - n * q) by (nonlinear_arith);
    assert(n * (1 - q) + i == a + 1);
    vstd::arithmetic::div_mod::lemma_mod_multiples_vanish(1 - q, i, n);
    let b = (i + 1) % n;
    vstd::arithmetic::div_mod::lemma_fundamental_div_mod(i + 1, n);
    let p = (i + 1) / n;
    assert(n * (1 - p) == n - n * p) by (nonlinear_arith);
    assert(n * (1 - p) + i == b + n - 1);
    vstd::arithmetic::div_mod::lemma_mod_multiples_vanish(1 - p, i, n);
    vstd::arithmetic::div_mod::lemma_small_mod(i as nat, n as nat);
}

/// Confirmation: from any active well-formed state, Enter emits exactly the
/// decision of the highlighted catalog entry, never any other.
pub proof fn lemma_enter_confirms(pre: UserApprovalWidget, post: UserApprovalWidget)
    requires
        pre.wf(),
        !pre.done,
        UserApprovalWidget::select_step(pre, post, KeyCode::Enter),
    ensures
        UserApprovalWidget::emits(
            pre,
            post,
            pre.catalog()[pre.selected_option as int].decision,
        ),
{
}

/// Cancellation: from any active well-formed state, Escape emits `Abort`.
/// The external interrupt does the same: see the contract of `on_ctrl_c`.
pub proof fn lemma_escape_aborts(pre: UserApprovalWidget, post: UserApprovalWidget)
    requires
        pre.wf(),
        !pre.done,
        UserApprovalWidget::select_step(pre, post, KeyCode::Esc),
    ensures
        UserApprovalWidget::emits(pre, post, ReviewDecision::Abort),
{
}

/// Shortcut: pressing the key bound to any catalog entry emits that entry's
/// decision, whatever option is currently highlighted.
pub proof fn lemma_shortcut_selects(pre: UserApprovalWidget, post: UserApprovalWidget, i: int)
    requires
        pre.wf(),
        !pre.done,
        0 <= i < pre.catalog().len(),
        UserApprovalWidget::select_step(pre, post, KeyCode::Char(pre.catalog()[i].key)),
    ensures
        UserApprovalWidget::emits(pre, post, pre.catalog()[i].decision),
{
    let opts = pre.catalog();
    let c = opts[i].key;
    if pre.approval_request.is_exec() {
        assert(opts == exec_catalog());
        if i == 0 {
            assert(spec_find_shortcut_from(opts, c, 0) == Some(0int));
        } else if i == 1 {
            assert(opts[0].key != c);
            assert(spec_find_shortcut_from(opts, c, 1) == Some(1int));
            assert(spec_find_shortcut_from(opts, c, 0) == Some(1int));
        } else {
            assert(opts[0].key != c && opts[1].key != c);
            assert(spec_find_shortcut_from(opts, c, 2) == Some(2int));
            assert(spec_find_shortcut_from(opts, c, 1) == Some(2int));
            assert(spec_find_shortcut_from(opts, c, 0) == Some(2int));
        }
    } else {
        assert(opts == patch_catalog());
        if i == 0 {
            assert(spec_find_shortcut_from(opts, c, 0) == Some(0int));
        } else {
            assert(opts[0].key != c);
            assert(spec_find_shortcut_from(opts, c, 1) == Some(1int));
            assert(spec_find_shortcut_from(opts, c, 0) == Some(1int));
        }
    }
}

} // verus!
