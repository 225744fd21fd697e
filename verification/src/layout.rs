//! The layout contract of the renderer: a pure function of controller state
//! and available area placing the wrapped confirmation prompt, the response
//! title, the button strip, the highlighted option's description and the
//! accent marker. The host draws each region onto its output surface.

use vstd::prelude::*;

use crate::catalog::OptionView;
use crate::widget::UserApprovalWidget;
use crate::wrap::clamped_width;
use crate::wrap::wrapped_line_count_of;

verus! {

/// A rectangular region of the output surface, in terminal cells.
#[derive(Clone, Copy, PartialEq, Eq, Structural, Debug)]
pub struct Rect {
    pub x: u16,
    pub y: u16,
    pub width: u16,
    pub height: u16,
}

/// One option button: its region, its label — whose first character doubles
/// as the shortcut glyph — and whether it is the highlighted option.
pub struct ButtonCell {
    pub rect: Rect,
    pub label: String,
    pub selected: bool,
}

/// Where everything goes for one frame: the prompt region on top, the
/// response region below it holding a one-line title, a one-line button
/// strip and the description of the highlighted option, and a one-cell-wide
/// accent column spanning the response region's height.
pub struct RenderPlan {
    pub prompt: Rect,
    pub response: Rect,
    pub accent: Rect,
    pub title: Rect,
    pub title_text: String,
    pub buttons_row: Rect,
    pub buttons: Vec<ButtonCell>,
    pub description: Rect,
    pub description_text: String,
}

/// The region with one cell taken off its left and right edges, clipped
/// when it is too narrow.
pub open spec fn spec_inner_h(r: Rect) -> Rect {
    if r.width >= 2 {
        Rect { x: (r.x + 1) as u16, y: r.y, width: (r.width - 2) as u16, height: r.height }
    } else {
        Rect { x: r.x, y: r.y, width: 0, height: r.height }
    }
}

fn inner_h(r: Rect) -> (s: Rect)
    requires
        r.x + r.width <= u16::MAX,
    ensures
        s == spec_inner_h(r),
{
    if r.width >= 2 {
        Rect { x: r.x + 1, y: r.y, width: r.width - 2, height: r.height }
    } else {
        Rect { x: r.x, y: r.y, width: 0, height: r.height }
    }
}

/// The height of the prompt region: the wrapped line count of the prompt at
/// the area's width (clamped to the wrap computation's limit), clipped to
/// the area's height.
pub open spec fn spec_prompt_height(w: UserApprovalWidget, area: Rect) -> int {
    let ph = wrapped_line_count_of(w.prompt_lines.deep_view(), clamped_width(area.width)) as int;
    if ph > area.height as int {
        area.height as int
    } else {
        ph
    }
}

/// The unclipped left edge of button `i`: buttons stand left to right, each
/// as wide as its label plus one cell of padding on either side, with a
/// one-cell gap between neighbours.
pub open spec fn spec_button_left(opts: Seq<OptionView>, row_x: int, i: int) -> int
    decreases i,
{
    if i <= 0 {
        row_x
    } else {
        spec_button_left(opts, row_x, i - 1) + opts[i - 1].label.len() + 3
    }
}

/// Button `i` of the strip in `row`: its label and highlight flag come from
/// the catalog and the selection, and its region is the unclipped placement
/// clipped to the row's right edge.
pub open spec fn spec_button_cell(
    opts: Seq<OptionView>,
    row: Rect,
    sel: int,
    i: int,
    b: ButtonCell,
) -> bool {
    let left = spec_button_left(opts, row.x as int, i);
    let right = row.x + row.width;
    let bx = if left > right {
        right as int
    } else {
        left
    };
    let avail = right - bx;
    let w = opts[i].label.len() + 2;
    &&& b.label@ == opts[i].label
    &&& b.selected == (i == sel)
    &&& b.rect.y == row.y
    &&& b.rect.height == row.height
    &&& b.rect.x == bx
    &&& b.rect.width == if w > avail {
        avail
    } else {
        w as int
    }
}

proof fn lemma_button_left_bound(opts: Seq<OptionView>, row_x: int, i: int)
    requires
        0 <= i <= opts.len(),
        forall|j: int| 0 <= j < opts.len() ==> (#[trigger] opts[j]).label.len() <= 6,
    ensures
        spec_button_left(opts, row_x, i) <= row_x + 9 * i,
        spec_button_left(opts, row_x, i) >= row_x,
    decreases i,
{
    if i > 0 {
        lemma_button_left_bound(opts, row_x, i - 1);
    }
}

/// The labels of both fixed catalogs are at most six characters long.
proof fn lemma_catalog_labels_short(opts: Seq<OptionView>)
    requires
        opts == crate::catalog::exec_catalog() || opts == crate::catalog::patch_catalog(),
    ensures
        forall|j: int| 0 <= j < opts.len() ==> (#[trigger] opts[j]).label.len() <= 6,
{
    reveal_strlit("Yes");
    reveal_strlit("Always");
    reveal_strlit("No");
}

impl UserApprovalWidget {
    /// Lays the modal out in `area`: the prompt on top at its wrapped
    /// height, the response region below with its title, button strip and
    /// highlighted-option description inset one cell from either edge, and
    /// the accent column at the left screen edge beside the response region.
    /// Any area fits; regions are clipped rather than overflowed.
    pub fn render_plan(&self, area: Rect) -> (p: RenderPlan)
        requires
            self.wf(),
            area.x + area.width <= u16::MAX,
            area.y + area.height <= u16::MAX,
        ensures
            p.prompt.x == area.x,
            p.prompt.y == area.y,
            p.prompt.width == area.width,
            p.prompt.height == spec_prompt_height(*self, area),
            p.response.x == area.x,
            p.response.y == area.y + p.prompt.height,
            p.response.width == area.width,
            p.response.height == area.height - p.prompt.height,
            p.accent == (Rect { x: 0, y: p.response.y, width: 1, height: p.response.height }),
            p.title.x == spec_inner_h(p.response).x,
            p.title.y == spec_inner_h(p.response).y,
            p.title.width == spec_inner_h(p.response).width,
            p.title.height == if spec_inner_h(p.response).height >= 1 {
                1int
            } else {
                0int
            },
            p.title_text@ == self.approval_request.spec_title(),
            p.buttons_row.x == p.title.x,
            p.buttons_row.y == p.title.y + p.title.height,
            p.buttons_row.width == p.title.width,
            p.buttons_row.height == if spec_inner_h(p.response).height >= 2 {
                1int
            } else {
                0int
            },
            p.buttons.len() == self.catalog().len(),
            forall|i: int|
                0 <= i < self.catalog().len() ==> spec_button_cell(
                    self.catalog(),
                    p.buttons_row,
                    self.selected_option as int,
                    i,
                    #[trigger] p.buttons@[i],
                ),
            p.description == spec_inner_h(
                Rect {
                    x: p.title.x,
                    y: (p.buttons_row.y + p.buttons_row.height) as u16,
                    width: p.title.width,
                    height: (spec_inner_h(p.response).height - p.title.height
                        - p.buttons_row.height) as u16,
                },
            ),
            p.description_text@ == self.catalog()[self.selected_option as int].description,
    {
        let ph = self.get_confirmation_prompt_height(area.width);
        let prompt_h: u16 = if ph > area.height as usize {
            area.height
        } else {
            ph as u16
        };
        let prompt = Rect { x: area.x, y: area.y, width: area.width, height: prompt_h };
        let response = Rect {
            x: area.x,
            y: area.y + prompt_h,
            width: area.width,
            height: area.height - prompt_h,
        };
        let accent = Rect { x: 0, y: response.y, width: 1, height: response.height };
        let inner = inner_h(response);
        let title_h: u16 = if inner.height >= 1 {
            1
        } else {
            0
        };
        let row_h: u16 = if inner.height >= 2 {
            1
        } else {
            0
        };
        let title = Rect { x: inner.x, y: inner.y, width: inner.width, height: title_h };
        let buttons_row = Rect {
            x: inner.x,
            y: inner.y + title_h,
            width: inner.width,
            height: row_h,
        };
        let desc_area = Rect {
            x: inner.x,
            y: buttons_row.y + row_h,
            width: inner.width,
            height: inner.height - title_h - row_h,
        };
        let description = inner_h(desc_area);
        let title_text = self.approval_request.title();
        proof {
            assert(self.catalog()[self.selected_option as int]
                == self.select_options@[self.selected_option as int].deep_view());
        }
        let description_text = self.select_options[self.selected_option].description.clone();
        let n = self.select_options.len();
        let right: u16 = buttons_row.x + buttons_row.width;
        let mut buttons: Vec<ButtonCell> = Vec::new();
        let mut cursor: usize = buttons_row.x as usize;
        let mut i: usize = 0;
        proof {
            lemma_catalog_labels_short(self.catalog());
        }
        while i < n
            invariant
                self.wf(),
                n == self.select_options.len(),
                i <= n,
                n <= 3,
                forall|j: int|
                    0 <= j < n ==> (#[trigger] self.catalog()[j]).label.len() <= 6,
                right == buttons_row.x + buttons_row.width,
                cursor == spec_button_left(self.catalog(), buttons_row.x as int, i as int),
                cursor <= buttons_row.x as int + 9 * i,
                buttons.len() == i,
                forall|j: int|
                    0 <= j < i ==> spec_button_cell(
                        self.catalog(),
                        buttons_row,
                        self.selected_option as int,
                        j,
                        #[trigger] buttons@[j],
                    ),
            decreases n - i,
        {
            proof {
                assert(self.catalog()[i as int] == self.select_options@[i as int].deep_view());
            }
            let opt = &self.select_options[i];
            let label_w = opt.label.as_str().unicode_len();
            let bx: u16 = if cursor > right as usize {
                right
            } else {
                cursor as u16
            };
            let avail: u16 = right - bx;
            let w: u16 = if label_w + 2 > avail as usize {
                avail
            } else {
                (label_w + 2) as u16
            };
            buttons.push(
                ButtonCell {
                    rect: Rect { x: bx, y: buttons_row.y, width: w, height: buttons_row.height },
                    label: opt.label.clone(),
                    selected: i == self.selected_option,
                },
            );
            cursor = cursor + label_w + 3;
            i += 1;
        }
        RenderPlan {
            prompt,
            response,
            accent,
            title,
            title_text,
            buttons_row,
            buttons,
            description,
            description_text,
        }
    }
}

} // verus!
