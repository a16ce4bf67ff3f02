use vstd::prelude::*;
use vstd::string::*;
use crate::geometry::{popup_area, Area};
use crate::measure::{display_width, measure_lines, widest, sat_u16, lemma_widest_nonneg};

verus! {

/// The caption drawn on the popup's top border: the title in brackets, with a
/// space on each side.
pub open spec fn caption_text(title: Seq<char>) -> Seq<char> {
    seq![' ', '['] + title + seq![']', ' ']
}

/// Where a popup with this title and these lines stands in `frame`.
pub open spec fn layout(title: Seq<char>, lines: Seq<Seq<char>>, frame: Area) -> Area {
    popup_area(widest(lines), lines.len() as int, display_width(caption_text(title)) as int, frame)
}

/// What a popup holds: its title, its lines of text, and the rectangle it was
/// last drawn in.
pub struct PopupView {
    pub title: Seq<char>,
    pub lines: Seq<Seq<char>>,
    pub area: Area,
}

impl PopupView {
    /// The popup after it has been drawn over `frame`.
    pub open spec fn drawn(self, frame: Area) -> PopupView {
        PopupView { area: layout(self.title, self.lines, frame), ..self }
    }
}

/// One thing to paint, in the order given.
#[derive(Debug, PartialEq, Eq)]
pub enum DrawCommand {
    /// Erase every cell of the rectangle.
    Clear(Area),
    /// Paint a double-bordered, bold box over `area`, with `caption` on its top
    /// border and the popup's lines inside, unwrapped.
    Panel { area: Area, caption: String },
}

/// A popup: a title and lines of text, drawn in a bordered box centered over
/// the frame and sized to what it holds.
pub struct PopupWindow {
    title: String,
    text: Vec<String>,
    area: Area,
}

impl View for PopupWindow {
    type V = PopupView;

    closed spec fn view(&self) -> PopupView {
        PopupView {
            title: self.title@,
            lines: self.text@.map_values(|l: String| l@),
            area: self.area,
        }
    }
}

/// Builds the caption for `title`.
fn caption_of(title: &str) -> (r: String)
    ensures
        r@ == caption_text(title@),
{
    let mut caption = String::from_str(" [");
    caption.append(title);
    caption.append("] ");
    proof {
        reveal_strlit(" [");
        reveal_strlit("] ");
    }
    caption
}

impl PopupWindow {
    /// A popup with this title and these lines, not yet drawn.
    pub fn new(title: String, text: Vec<String>) -> (r: PopupWindow)
        ensures
            r@ == (PopupView {
                title: title@,
                lines: text@.map_values(|l: String| l@),
                area: Area { x: 0, y: 0, width: 0, height: 0 },
            }),
    {
        PopupWindow { title, text, area: Area { x: 0, y: 0, width: 0, height: 0 } }
    }

    /// The rectangle the popup was last drawn in.
    pub fn area(&self) -> (r: Area)
        ensures
            r == self@.area,
    {
        self.area
    }

    /// The popup's title.
    pub fn title(&self) -> (r: &str)
        ensures
            r@ == self@.title,
    {
        self.title.as_str()
    }

    /// The popup's lines of text, top to bottom.
    pub fn lines(&self) -> (r: &Vec<String>)
        ensures
            r@.map_values(|l: String| l@) == self@.lines,
    {
        &self.text
    }

    /// Lays the popup out over `frame`, records the rectangle, and returns what
    /// to paint: the rectangle erased, then the bordered, captioned box over it.
    pub fn draw(&mut self, frame: Area) -> (cmds: Vec<DrawCommand>)
        ensures
            final(self)@ == old(self)@.drawn(frame),
            cmds@.len() == 2,
            cmds@[0] == DrawCommand::Clear(final(self)@.area),
            cmds@[1] is Panel,
            cmds@[1]->Panel_area == final(self)@.area,
            cmds@[1]->caption@ == caption_text(old(self)@.title),
    {
        let caption = caption_of(self.title.as_str());
        let (inner_w, inner_h) = measure_lines(&self.text);
        let caption_w = crate::measure::str_width(caption.as_str());
        let area = crate::geometry::derive_area(inner_w, inner_h, caption_w, frame);
        proof {
            let lines = self.text@.map_values(|l: String| l@);
            lemma_widest_nonneg(lines);
            lemma_saturation_is_invisible(widest(lines), lines.len() as int, caption_w as int, frame);
        }
        self.area = area;
        vec![DrawCommand::Clear(area), DrawCommand::Panel { area, caption }]
    }
}

/// Holding the measured text at `u16::MAX` changes no layout: no frame is wider
/// or taller than that.
proof fn lemma_saturation_is_invisible(max_width: int, line_count: int, caption_width: int, frame: Area)
    requires
        max_width >= 0,
        line_count >= 0,
    ensures
        popup_area(sat_u16(max_width) as int, sat_u16(line_count) as int, caption_width, frame)
            == popup_area(max_width, line_count, caption_width, frame),
{
}

} // verus!
