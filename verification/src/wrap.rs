//! The wrapped-line count of the confirmation prompt, computed by the
//! terminal UI library the host renders with.

use vstd::prelude::*;

verus! {

/// The widest line the wrap computation is ever asked for: generous for any
/// terminal, and a quarter of `u16` so that the sums in ratatui's 16-bit
/// width bookkeeping stay clear of the ceiling.
pub const MAX_WRAP_WIDTH: u16 = 0x3fff;

/// The width a layout query is served at: anything beyond `MAX_WRAP_WIDTH`
/// is clamped to it.
pub open spec fn clamped_width(width: u16) -> u16 {
    if width > MAX_WRAP_WIDTH {
        MAX_WRAP_WIDTH
    } else {
        width
    }
}

/// The number of lines the given text occupies when word-wrapped, without
/// trimming, at the given width: the result of `ratatui`'s line counting, a
/// function of the text and the width alone.
pub uninterp spec fn wrapped_line_count_of(lines: Seq<Seq<char>>, width: u16) -> nat;

/// Relies on `ratatui::widgets::Paragraph::line_count`, with word wrapping
/// enabled (`Wrap { trim: false }`) and no surrounding block: the number of
/// lines the text needs to render fully at the given width; a width of zero
/// needs none. The word wrapper does its width bookkeeping in `u16`: its
/// guards reset an accumulator only after a sum has already reached the
/// width limit, so an accumulator can transiently hold almost twice the
/// limit, and it evaluates sums of three accumulators plus one grapheme's
/// width — and a single grapheme cluster, such as a long jamo run, can
/// itself carry display width up to the limit. With the width at most a
/// quarter of `u16`, every such sum stays below four times the limit and so
/// below the `u16` ceiling; without the bound those sums can overflow and
/// panic in builds that check overflow.
#[verifier::external_body]
pub(crate) fn wrapped_line_count(lines: &Vec<String>, width: u16) -> (r: usize)
    requires
        width <= MAX_WRAP_WIDTH,
    ensures
        r == wrapped_line_count_of(lines.deep_view(), width),
        width == 0 ==> r == 0,
{
    let text: Vec<ratatui::text::Line> = lines.iter().map(
        |s| ratatui::text::Line::from(s.as_str()),
    ).collect();
    ratatui::widgets::Paragraph::new(text).wrap(ratatui::widgets::Wrap { trim: false })
        .line_count(width)
}

} // verus!
