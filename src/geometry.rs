use vstd::prelude::*;

verus! {

/// A rectangle of terminal cells: its top-left corner and its size.
#[derive(Clone, Copy, Debug, PartialEq, Eq, Structural)]
pub struct Area {
    pub x: u16,
    pub y: u16,
    pub width: u16,
    pub height: u16,
}

impl Area {
    /// Builds the rectangle with corner `(x, y)` and the given size.
    pub fn new(x: u16, y: u16, width: u16, height: u16) -> (r: Area)
        ensures
            r == (Area { x, y, width, height }),
    {
        Area { x, y, width, height }
    }

    /// The column just right of the rectangle.
    pub open spec fn right(self) -> int {
        self.x + self.width
    }

    /// The row just below the rectangle.
    pub open spec fn bottom(self) -> int {
        self.y + self.height
    }
}

pub open spec fn max(a: int, b: int) -> int {
    if a >= b { a } else { b }
}

pub open spec fn min(a: int, b: int) -> int {
    if a <= b { a } else { b }
}

/// Width of the text area inside the border: the widest line, at least one.
pub open spec fn inner_width(max_width: int) -> int {
    max(max_width, 1)
}

/// Height of the text area inside the border: the number of lines, at least one.
pub open spec fn inner_height(line_count: int) -> int {
    max(line_count, 1)
}

/// The room that the title caption asks for on the top border: at least six columns.
pub open spec fn title_min_width(caption_width: int) -> int {
    max(caption_width, 6)
}

/// Outer width of the popup before it meets the frame: one border cell on each side.
pub open spec fn wanted_width(max_width: int, caption_width: int) -> int {
    max(inner_width(max_width) + 2, title_min_width(caption_width) + 2)
}

/// Outer height of the popup before it meets the frame.
pub open spec fn wanted_height(line_count: int) -> int {
    inner_height(line_count) + 2
}

/// Outer width once clamped to the frame.
pub open spec fn popup_width(max_width: int, caption_width: int, frame: Area) -> int {
    min(wanted_width(max_width, caption_width), frame.width as int)
}

/// Outer height once clamped to the frame.
pub open spec fn popup_height(line_count: int, frame: Area) -> int {
    min(wanted_height(line_count), frame.height as int)
}

/// A position `offset` cells past `start`, held at the last cell a `u16` can name.
pub open spec fn shifted(start: u16, offset: int) -> u16 {
    min(start + offset, u16::MAX as int) as u16
}

/// The rectangle of the given size centered in `frame`, margins rounded down on
/// the left and at the top.
pub open spec fn centered(width: u16, height: u16, frame: Area) -> Area
    recommends
        width <= frame.width,
        height <= frame.height,
{
    Area {
        x: shifted(frame.x, (frame.width - width) / 2),
        y: shifted(frame.y, (frame.height - height) / 2),
        width,
        height,
    }
}

/// The popup's rectangle in `frame`, for text whose widest line has `max_width`
/// columns, `line_count` lines, and a title caption `caption_width` columns wide.
pub open spec fn popup_area(max_width: int, line_count: int, caption_width: int, frame: Area) -> Area {
    centered(
        popup_width(max_width, caption_width, frame) as u16,
        popup_height(line_count, frame) as u16,
        frame,
    )
}

/// Centers a rectangle of `width` by `height` cells in `frame`.
///
/// The size is first clamped to the frame's, so the result never leaves it.
pub fn centered_rect_with_size(height: u16, width: u16, frame: Area) -> (r: Area)
    ensures
        r == centered(
            min(width as int, frame.width as int) as u16,
            min(height as int, frame.height as int) as u16,
            frame,
        ),
{
    let w: u16 = if width <= frame.width { width } else { frame.width };
    let h: u16 = if height <= frame.height { height } else { frame.height };
    let x: u16 = frame.x.saturating_add((frame.width - w) / 2);
    let y: u16 = frame.y.saturating_add((frame.height - h) / 2);
    Area { x, y, width: w, height: h }
}

/// Derives the popup's rectangle in `frame` from the measured text (widest line
/// `max_width` columns, `line_count` lines) and the width of its title caption.
pub fn derive_area(max_width: u16, line_count: u16, caption_width: usize, frame: Area) -> (r: Area)
    ensures
        r == popup_area(max_width as int, line_count as int, caption_width as int, frame),
{
    let inner_w: u16 = if max_width >= 1 { max_width } else { 1 };
    let inner_h: u16 = if line_count >= 1 { line_count } else { 1 };
    let title_min_w: usize = if caption_width >= 6 { caption_width } else { 6 };
    let by_text: usize = inner_w as usize + 2;
    let by_title: usize = title_min_w.saturating_add(2);
    let wanted_w: usize = if by_text >= by_title { by_text } else { by_title };
    let total_w: u16 = if wanted_w <= frame.width as usize { wanted_w as u16 } else { frame.width };
    let wanted_h: u32 = inner_h as u32 + 2;
    let total_h: u16 = if wanted_h <= frame.height as u32 { wanted_h as u16 } else { frame.height };
    centered_rect_with_size(total_h, total_w, frame)
}

} // verus!
