use vstd::prelude::*;
use crate::geometry::{inner_height, inner_width, min, title_min_width, wanted_width, Area};
use crate::measure::{display_width, lemma_widest_nonneg, widest};
use crate::popup::{caption_text, layout, PopupView};

verus! {

/// Whatever the popup holds, no lines included, the space inside its border is
/// at least one cell wide and one cell tall.
pub proof fn lemma_inner_never_empty(lines: Seq<Seq<char>>)
    ensures
        inner_width(widest(lines)) >= 1,
        inner_height(lines.len() as int) >= 1,
{
}

/// The popup never leaves the frame: it is no wider and no taller than the
/// frame, and its corners lie inside it.
pub proof fn lemma_popup_within_frame(title: Seq<char>, lines: Seq<Seq<char>>, frame: Area)
    ensures
        layout(title, lines, frame).width <= frame.width,
        layout(title, lines, frame).height <= frame.height,
        frame.x <= layout(title, lines, frame).x,
        frame.y <= layout(title, lines, frame).y,
        layout(title, lines, frame).right() <= frame.right(),
        layout(title, lines, frame).bottom() <= frame.bottom(),
{
    lemma_widest_nonneg(lines);
}

/// The popup is centered: over a frame that lies on the screen, its left and
/// right margins differ by at most one cell, the extra cell going to the right;
/// the same holds of the top and bottom margins.
pub proof fn lemma_popup_centered(title: Seq<char>, lines: Seq<Seq<char>>, frame: Area)
    requires
        frame.right() <= u16::MAX,
        frame.bottom() <= u16::MAX,
    ensures
        ({
            let r = layout(title, lines, frame);
            let left = r.x - frame.x;
            let right = frame.right() - r.right();
            let top = r.y - frame.y;
            let bottom = frame.bottom() - r.bottom();
            left <= right <= left + 1 && top <= bottom <= top + 1
        }),
{
    lemma_widest_nonneg(lines);
}

/// A caption narrower than six columns still gets six: the popup is then at
/// least eight columns wide before it meets the frame, and as wide as the frame
/// allows up to eight.
pub proof fn lemma_title_floor(title: Seq<char>, lines: Seq<Seq<char>>, frame: Area)
    requires
        display_width(caption_text(title)) < 6,
    ensures
        title_min_width(display_width(caption_text(title)) as int) == 6,
        wanted_width(widest(lines), display_width(caption_text(title)) as int) >= 8,
        layout(title, lines, frame).width >= min(8, frame.width as int),
{
    lemma_widest_nonneg(lines);
}

/// Drawing again over the same frame gives the same popup.
pub proof fn lemma_draw_idempotent(popup: PopupView, frame: Area)
    ensures
        popup.drawn(frame).drawn(frame) == popup.drawn(frame),
{
}

/// A drawing depends on the current frame alone: the rectangle of an earlier
/// drawing, over another frame, leaves no trace.
pub proof fn lemma_redraw_forgets_previous_frame(popup: PopupView, earlier: Area, frame: Area)
    ensures
        popup.drawn(earlier).drawn(frame) == popup.drawn(frame),
{
}

} // verus!
