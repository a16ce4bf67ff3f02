//! Layout of a bordered, titled popup that is centered over a terminal frame.
//!
//! The library measures the popup's text, derives the smallest rectangle that
//! holds it together with its border and title caption, clamps that rectangle
//! to the frame and centers it. Painting is left to the caller, who receives the
//! ordered draw commands.

mod geometry;
mod laws;
mod measure;
mod popup;

pub use geometry::{centered_rect_with_size, derive_area, Area};
pub use laws::{
    lemma_draw_idempotent, lemma_inner_never_empty, lemma_popup_centered, lemma_popup_within_frame,
    lemma_redraw_forgets_previous_frame, lemma_title_floor,
};
pub use measure::{measure_lines, measure_widths};
pub use popup::{DrawCommand, PopupView, PopupWindow};
