//! The option catalogs: the fixed, ordered, per-request-kind lists of
//! selectable choices shown as buttons.

use vstd::prelude::*;

use crate::protocol::ReviewDecision;
use crate::keys::KeyCode;

verus! {

/// One selectable choice: a display label whose first character doubles as
/// the shortcut glyph, a one-line description, the shortcut key, and the
/// decision the choice produces.
pub struct SelectOption {
    pub label: String,
    pub description: String,
    pub key: char,
    pub decision: ReviewDecision,
}

/// The mathematical value of a [`SelectOption`].
#[verifier::ext_equal]
pub struct OptionView {
    pub label: Seq<char>,
    pub description: Seq<char>,
    pub key: char,
    pub decision: ReviewDecision,
}

impl View for SelectOption {
    type V = OptionView;

    open spec fn view(&self) -> OptionView {
        OptionView {
            label: self.label@,
            description: self.description@,
            key: self.key,
            decision: self.decision,
        }
    }
}

impl DeepView for SelectOption {
    type V = OptionView;

    open spec fn deep_view(&self) -> OptionView {
        self.view()
    }
}

/// The catalog bound to an `Exec` request: Yes, Always, No.
pub open spec fn exec_catalog() -> Seq<OptionView> {
    seq![
        OptionView {
            label: "Yes"@,
            description: "Approve and run the command"@,
            key: 'y',
            decision: ReviewDecision::Approved,
        },
        OptionView {
            label: "Always"@,
            description: "Approve the command for the remainder of this session"@,
            key: 'a',
            decision: ReviewDecision::ApprovedForSession,
        },
        OptionView {
            label: "No"@,
            description: "Do not run the command"@,
            key: 'n',
            decision: ReviewDecision::Denied,
        },
    ]
}

/// The catalog bound to an `ApplyPatch` request: Yes, No.
pub open spec fn patch_catalog() -> Seq<OptionView> {
    seq![
        OptionView {
            label: "Yes"@,
            description: "Approve and apply the changes"@,
            key: 'y',
            decision: ReviewDecision::Approved,
        },
        OptionView {
            label: "No"@,
            description: "Do not apply the changes"@,
            key: 'n',
            decision: ReviewDecision::Denied,
        },
    ]
}

/// The catalog for a request kind: the 3-entry catalog for `Exec` requests,
/// the 2-entry catalog for `ApplyPatch` requests.
pub open spec fn catalog_for(is_exec: bool) -> Seq<OptionView> {
    if is_exec {
        exec_catalog()
    } else {
        patch_catalog()
    }
}

/// Builds the `Exec` catalog as an owned table.
pub fn command_select_options() -> (r: Vec<SelectOption>)
    ensures
        r.deep_view() == exec_catalog(),
{
    let mut r: Vec<SelectOption> = Vec::new();
    r.push(SelectOption {
        label: String::from_str("Yes"),
        description: String::from_str("Approve and run the command"),
        key: 'y',
        decision: ReviewDecision::Approved,
    });
    r.push(SelectOption {
        label: String::from_str("Always"),
        description: String::from_str("Approve the command for the remainder of this session"),
        key: 'a',
        decision: ReviewDecision::ApprovedForSession,
    });
    r.push(SelectOption {
        label: String::from_str("No"),
        description: String::from_str("Do not run the command"),
        key: 'n',
        decision: ReviewDecision::Denied,
    });
    proof {
        assert(r.deep_view() =~~= exec_catalog());
    }
    r
}

/// Builds the `ApplyPatch` catalog as an owned table.
pub fn patch_select_options() -> (r: Vec<SelectOption>)
    ensures
        r.deep_view() == patch_catalog(),
{
    let mut r: Vec<SelectOption> = Vec::new();
    r.push(SelectOption {
        label: String::from_str("Yes"),
        description: String::from_str("Approve and apply the changes"),
        key: 'y',
        decision: ReviewDecision::Approved,
    });
    r.push(SelectOption {
        label: String::from_str("No"),
        description: String::from_str("Do not apply the changes"),
        key: 'n',
        decision: ReviewDecision::Denied,
    });
    proof {
        assert(r.deep_view() =~~= patch_catalog());
    }
    r
}

/// The first catalog index at or after `i` whose shortcut key is `c`, if any.
pub open spec fn spec_find_shortcut_from(opts: Seq<OptionView>, c: char, i: int) -> Option<int>
    decreases opts.len() - i,
{
    if i < 0 || i >= opts.len() {
        None
    } else if opts[i].key == c {
        Some(i)
    } else {
        spec_find_shortcut_from(opts, c, i + 1)
    }
}

/// The catalog entry a key code directly selects: the first entry whose
/// shortcut key the pressed character matches, if the code is a character
/// at all.
pub open spec fn spec_shortcut(opts: Seq<OptionView>, code: KeyCode) -> Option<int> {
    match code {
        KeyCode::Char(c) => spec_find_shortcut_from(opts, c, 0),
        _ => None,
    }
}

} // verus!
