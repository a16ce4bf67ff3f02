use popup_window::{
    centered_rect_with_size, derive_area, measure_lines, measure_widths, Area, DrawCommand,
    PopupWindow,
};

fn lines(v: &[&str]) -> Vec<String> {
    v.iter().map(|s| s.to_string()).collect()
}

fn screen(width: u16, height: u16) -> Area {
    Area::new(0, 0, width, height)
}

#[test]
fn info_title_sizes_popup_by_caption() {
    let mut p = PopupWindow::new("Info".to_string(), lines(&["abc"]));
    let cmds = p.draw(screen(80, 24));
    let area = Area::new(35, 10, 10, 3);
    assert_eq!(p.area(), area);
    assert_eq!(
        cmds,
        vec![
            DrawCommand::Clear(area),
            DrawCommand::Panel { area, caption: " [Info] ".to_string() },
        ]
    );
}

#[test]
fn empty_content_floors_to_one_cell() {
    let mut p = PopupWindow::new("".to_string(), Vec::new());
    p.draw(screen(80, 24));
    assert_eq!(p.area(), Area::new(36, 10, 8, 3));
}

#[test]
fn empty_content_with_long_title() {
    let mut p = PopupWindow::new("Settings".to_string(), Vec::new());
    p.draw(screen(80, 24));
    // caption " [Settings] " is 12 columns wide
    assert_eq!(p.area(), Area::new(33, 10, 14, 3));
}

#[test]
fn oversized_content_takes_full_width() {
    let wide = "x".repeat(200);
    let mut p = PopupWindow::new("T".to_string(), vec![wide]);
    p.draw(Area::new(5, 2, 80, 24));
    let r = p.area();
    assert_eq!(r.width, 80);
    assert_eq!(r.x, 5);
    assert_eq!(r, Area::new(5, 12, 80, 3));
}

#[test]
fn too_many_lines_take_full_height() {
    let many: Vec<String> = (0..30).map(|i| format!("line {}", i)).collect();
    let mut p = PopupWindow::new("Log".to_string(), many);
    p.draw(screen(80, 24));
    let r = p.area();
    assert_eq!(r.height, 24);
    assert_eq!(r.y, 0);
    assert_eq!(r.width, 9);
}

#[test]
fn resize_between_draws_recomputes_area() {
    let content = lines(&["a fairly long line of popup text here", "second"]);
    let mut p = PopupWindow::new("Help".to_string(), content.clone());
    p.draw(screen(100, 40));
    assert_eq!(p.area(), Area::new(30, 18, 39, 4));
    p.draw(screen(40, 10));
    let mut fresh = PopupWindow::new("Help".to_string(), content);
    fresh.draw(screen(40, 10));
    assert_eq!(p.area(), fresh.area());
    assert_eq!(p.area(), Area::new(0, 3, 39, 4));
}

#[test]
fn resize_to_smaller_than_popup_clamps() {
    let mut p = PopupWindow::new("Help".to_string(), lines(&["0123456789012345678901234567890123456789012345"]));
    p.draw(screen(100, 40));
    p.draw(screen(40, 2));
    assert_eq!(p.area(), Area::new(0, 0, 40, 2));
}

#[test]
fn drawing_twice_gives_same_area() {
    let mut p = PopupWindow::new("Info".to_string(), lines(&["one", "two", "three"]));
    let first = p.draw(Area::new(3, 4, 61, 17));
    let a = p.area();
    let second = p.draw(Area::new(3, 4, 61, 17));
    assert_eq!(p.area(), a);
    assert_eq!(first, second);
}

#[test]
fn zero_frame_gives_zero_popup() {
    let mut p = PopupWindow::new("Info".to_string(), lines(&["abc"]));
    p.draw(Area::new(7, 9, 0, 0));
    assert_eq!(p.area(), Area::new(7, 9, 0, 0));
}

#[test]
fn popup_stays_inside_frames() {
    let content = lines(&["héllo wörld", "日本語のテキスト", ""]);
    for &(x, y, w, h) in &[(0, 0, 1, 1), (2, 3, 5, 2), (10, 1, 80, 24), (0, 0, 300, 100), (1, 1, 13, 4)] {
        let frame = Area::new(x, y, w, h);
        let mut p = PopupWindow::new("Title".to_string(), content.clone());
        p.draw(frame);
        let r = p.area();
        assert!(r.x >= frame.x && r.y >= frame.y);
        assert!(r.x + r.width <= frame.x + frame.width);
        assert!(r.y + r.height <= frame.y + frame.height);
        let left = r.x - frame.x;
        let right = frame.x + frame.width - (r.x + r.width);
        assert!(left <= right && right <= left + 1);
        let top = r.y - frame.y;
        let bottom = frame.y + frame.height - (r.y + r.height);
        assert!(top <= bottom && bottom <= top + 1);
    }
}

#[test]
fn short_title_still_asks_eight_columns() {
    let mut p = PopupWindow::new("".to_string(), lines(&["a"]));
    let cmds = p.draw(screen(80, 24));
    assert_eq!(p.area().width, 8);
    assert_eq!(cmds[1], DrawCommand::Panel { area: p.area(), caption: " [] ".to_string() });
    let mut q = PopupWindow::new("ab".to_string(), lines(&["a"]));
    q.draw(screen(80, 24));
    assert_eq!(q.area().width, 8);
}

#[test]
fn wide_title_caption_is_measured_in_columns() {
    // caption " [日本] " is 8 columns, though it has 6 characters
    let mut p = PopupWindow::new("日本".to_string(), lines(&["a"]));
    p.draw(screen(80, 24));
    assert_eq!(p.area().width, 10);
}

#[test]
fn measure_counts_display_columns() {
    assert_eq!(measure_lines(&lines(&["日本語"])), (6, 1));
    assert_eq!(measure_lines(&lines(&["e\u{301}e\u{301}"])), (2, 1));
    assert_eq!(measure_lines(&lines(&["abc", "abcdef", ""])), (6, 3));
}

#[test]
fn measure_empty_content() {
    assert_eq!(measure_lines(&Vec::new()), (0, 0));
    assert_eq!(measure_lines(&lines(&["\u{200b}"])), (0, 1));
}

#[test]
fn measure_widths_takes_the_largest() {
    assert_eq!(measure_widths(&vec![3, 9, 5]), (9, 3));
    assert_eq!(measure_widths(&vec![]), (0, 0));
    assert_eq!(measure_widths(&vec![3, 70000, 5]), (65535, 3));
}

#[test]
fn derive_area_follows_the_steps() {
    assert_eq!(derive_area(3, 1, 8, screen(80, 24)), Area::new(35, 10, 10, 3));
    assert_eq!(derive_area(0, 0, 4, screen(80, 24)), Area::new(36, 10, 8, 3));
    assert_eq!(derive_area(20, 5, 8, screen(80, 24)), Area::new(29, 8, 22, 7));
    assert_eq!(derive_area(200, 1, 8, Area::new(5, 0, 80, 24)), Area::new(5, 10, 80, 3));
    assert_eq!(derive_area(1, 1, usize::MAX, screen(80, 24)), Area::new(0, 10, 80, 3));
    assert_eq!(derive_area(65535, 65535, 0, Area::new(65535, 65535, 0, 0)), Area::new(65535, 65535, 0, 0));
}

#[test]
fn centered_rect_rounds_margins_down() {
    assert_eq!(centered_rect_with_size(3, 10, screen(81, 24)), Area::new(35, 10, 10, 3));
    assert_eq!(centered_rect_with_size(30, 100, Area::new(2, 2, 50, 20)), Area::new(2, 2, 50, 20));
    assert_eq!(centered_rect_with_size(1, 1, Area::new(65534, 0, 1, 1)), Area::new(65534, 0, 1, 1));
}

#[test]
fn accessors_return_what_was_given() {
    let p = PopupWindow::new("Info".to_string(), lines(&["x", "y"]));
    assert_eq!(p.title(), "Info");
    assert_eq!(p.lines(), &lines(&["x", "y"]));
    assert_eq!(p.area(), Area::new(0, 0, 0, 0));
}
