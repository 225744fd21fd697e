//! The outbound side of the modal: the decision enumeration and the two
//! notification shapes the controller pushes when a decision is made.

use vstd::prelude::*;

verus! {

/// The human's ruling on a pending request.
#[derive(Clone, Copy, PartialEq, Eq, Structural, Debug)]
pub enum ReviewDecision {
    Approved,
    ApprovedForSession,
    Denied,
    Abort,
}

impl ReviewDecision {
    /// The decision's display name, as it appears in transcript lines.
    pub open spec fn spec_name(self) -> Seq<char> {
        match self {
            ReviewDecision::Approved => "Approved"@,
            ReviewDecision::ApprovedForSession => "ApprovedForSession"@,
            ReviewDecision::Denied => "Denied"@,
            ReviewDecision::Abort => "Abort"@,
        }
    }

    /// The decision's display name as an owned string.
    pub fn name(&self) -> (r: String)
        ensures
            r@ == self.spec_name(),
    {
        match self {
            ReviewDecision::Approved => String::from_str("Approved"),
            ReviewDecision::ApprovedForSession => String::from_str("ApprovedForSession"),
            ReviewDecision::Denied => String::from_str("Denied"),
            ReviewDecision::Abort => String::from_str("Abort"),
        }
    }
}

/// A structured operation handed back to the agent runtime, carrying the
/// identifier of the originating request and the decision made on it.
pub enum Op {
    ExecApproval { id: String, decision: ReviewDecision },
    PatchApproval { id: String, decision: ReviewDecision },
}

/// The mathematical value of an [`Op`].
pub enum OpView {
    ExecApproval { id: Seq<char>, decision: ReviewDecision },
    PatchApproval { id: Seq<char>, decision: ReviewDecision },
}

impl View for Op {
    type V = OpView;

    open spec fn view(&self) -> OpView {
        match self {
            Op::ExecApproval { id, decision } => OpView::ExecApproval {
                id: id@,
                decision: *decision,
            },
            Op::PatchApproval { id, decision } => OpView::PatchApproval {
                id: id@,
                decision: *decision,
            },
        }
    }
}

impl DeepView for Op {
    type V = OpView;

    open spec fn deep_view(&self) -> OpView {
        self.view()
    }
}

/// A notification pushed to the outbound sink: either a block of transcript
/// lines for permanent history, or an operation for the agent runtime.
pub enum AppEvent {
    InsertHistory(Vec<String>),
    CodexOp(Op),
}

/// The mathematical value of an [`AppEvent`].
pub enum AppEventView {
    InsertHistory(Seq<Seq<char>>),
    CodexOp(OpView),
}

impl View for AppEvent {
    type V = AppEventView;

    open spec fn view(&self) -> AppEventView {
        match self {
            AppEvent::InsertHistory(lines) => AppEventView::InsertHistory(lines.deep_view()),
            AppEvent::CodexOp(op) => AppEventView::CodexOp(op@),
        }
    }
}

impl DeepView for AppEvent {
    type V = AppEventView;

    open spec fn deep_view(&self) -> AppEventView {
        self.view()
    }
}

} // verus!
