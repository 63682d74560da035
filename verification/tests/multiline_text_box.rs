use chatbox::input::{EventCtx, Key, Outcome, WidgetOutput};
use chatbox::multiline_text_box::MultilineTextBox;
use chatbox::screen::{ScreenDims, ScreenPt, ScreenRectangle};

fn window() -> ScreenDims {
    ScreenDims::new(1000, 800)
}

fn letter(c: char) -> Key {
    Key::Other { plain: Some(c), shifted: Some(c.to_ascii_uppercase()) }
}

fn text_box(prefilled: &str, autofocus: bool) -> MultilineTextBox {
    let ctx = EventCtx::idle(window());
    MultilineTextBox::new(
        &ctx,
        "input".to_string(),
        prefilled.to_string(),
        ScreenDims::new(220, 90),
        autofocus,
    )
}

fn press(text_box: &mut MultilineTextBox, key: Key, shift: bool) -> (EventCtx, WidgetOutput) {
    let mut ctx = EventCtx::idle(window());
    ctx.pressed = Some(key);
    ctx.left_shift_down = shift;
    let mut output = WidgetOutput::new();
    text_box.event(&mut ctx, &mut output);
    (ctx, output)
}

fn hover(text_box: &mut MultilineTextBox, at: Option<ScreenPt>) {
    let mut ctx = EventCtx::idle(window());
    ctx.redo_mouseover = true;
    ctx.cursor = at;
    let mut output = WidgetOutput::new();
    text_box.event(&mut ctx, &mut output);
    assert!(matches!(output.outcome, Outcome::Nothing));
}

#[test]
fn new_text_box_holds_the_prefill_without_focus() {
    let text_box = text_box("hello", false);
    assert_eq!(text_box.get_text(), "hello");
    assert_eq!(text_box.cursor(), 5);
    assert!(!text_box.is_focused());
    assert_eq!(text_box.get_dims(), ScreenDims::new(220, 90));
}

#[test]
fn widget_carries_the_label_as_its_name() {
    let ctx = EventCtx::idle(window());
    let widget = MultilineTextBox::widget(
        &ctx,
        "chat_input".to_string(),
        "abc".to_string(),
        ScreenDims::new(300, 100),
        false,
    );
    assert_eq!(widget.name(), "chat_input");
    assert_eq!(widget.text_box().get_text(), "abc");
    assert_eq!(widget.text_box().get_dims(), ScreenDims::new(300, 100));
}

#[test]
fn unfocused_text_box_leaves_keys_to_the_host() {
    let mut text_box = text_box("hello", false);
    for key in [letter('x'), Key::Backspace, Key::Enter, Key::LeftArrow, Key::RightArrow] {
        let (ctx, output) = press(&mut text_box, key, false);
        assert_eq!(ctx.pressed, Some(key));
        assert!(matches!(output.outcome, Outcome::Nothing));
    }
    assert_eq!(text_box.get_text(), "hello");
    assert_eq!(text_box.cursor(), 5);
}

#[test]
fn hover_gives_and_takes_focus() {
    let mut text_box = text_box("", false);
    text_box.set_pos(ScreenPt::new(100, 200));
    hover(&mut text_box, Some(ScreenPt::new(150, 250)));
    assert!(text_box.is_focused());
    hover(&mut text_box, Some(ScreenPt::new(99, 250)));
    assert!(!text_box.is_focused());
    hover(&mut text_box, Some(ScreenPt::new(100, 200)));
    assert!(text_box.is_focused());
    hover(&mut text_box, Some(ScreenPt::new(320, 290)));
    assert!(text_box.is_focused());
    hover(&mut text_box, Some(ScreenPt::new(321, 290)));
    assert!(!text_box.is_focused());
    hover(&mut text_box, Some(ScreenPt::new(320, 291)));
    assert!(!text_box.is_focused());
    hover(&mut text_box, Some(ScreenPt::new(150, 250)));
    assert!(text_box.is_focused());
    hover(&mut text_box, None);
    assert!(!text_box.is_focused());
}

#[test]
fn focus_stays_when_no_hover_pass_is_asked_for() {
    let mut text_box = text_box("", false);
    hover(&mut text_box, Some(ScreenPt::new(10, 10)));
    assert!(text_box.is_focused());
    let mut ctx = EventCtx::idle(window());
    ctx.cursor = Some(ScreenPt::new(900, 700));
    let mut output = WidgetOutput::new();
    text_box.event(&mut ctx, &mut output);
    assert!(text_box.is_focused());
}

#[test]
fn autofocus_text_box_is_always_focused() {
    let mut text_box = text_box("", true);
    assert!(text_box.is_focused());
    hover(&mut text_box, Some(ScreenPt::new(900, 700)));
    assert!(text_box.is_focused());
    hover(&mut text_box, None);
    assert!(text_box.is_focused());
    let (ctx, output) = press(&mut text_box, letter('a'), false);
    assert_eq!(ctx.pressed, None);
    assert!(matches!(output.outcome, Outcome::Changed(ref label) if label == "input"));
    assert_eq!(text_box.get_text(), "a");
}

#[test]
fn focused_text_box_edits_and_reports_changes() {
    let mut text_box = text_box("ab", true);

    let (ctx, output) = press(&mut text_box, letter('c'), false);
    assert_eq!(ctx.pressed, None);
    assert!(matches!(output.outcome, Outcome::Changed(ref label) if label == "input"));
    assert_eq!(text_box.get_text(), "abc");

    let (_, output) = press(&mut text_box, letter('d'), true);
    assert!(matches!(output.outcome, Outcome::Changed(_)));
    assert_eq!(text_box.get_text(), "abcD");

    let (ctx, output) = press(&mut text_box, Key::LeftArrow, false);
    assert_eq!(ctx.pressed, None);
    assert!(matches!(output.outcome, Outcome::Nothing));
    assert_eq!(text_box.cursor(), 3);

    let (_, output) = press(&mut text_box, Key::Enter, false);
    assert!(matches!(output.outcome, Outcome::Changed(_)));
    assert_eq!(text_box.get_text(), "abc\nD");
    assert_eq!(text_box.cursor(), 4);

    let (_, output) = press(&mut text_box, Key::Backspace, false);
    assert!(matches!(output.outcome, Outcome::Changed(_)));
    assert_eq!(text_box.get_text(), "abcD");

    let (ctx, output) = press(&mut text_box, Key::RightArrow, false);
    assert_eq!(ctx.pressed, None);
    assert!(matches!(output.outcome, Outcome::Nothing));
    assert_eq!(text_box.cursor(), 4);
    press(&mut text_box, Key::RightArrow, false);
    assert_eq!(text_box.cursor(), 4);
}

#[test]
fn backspace_at_start_is_taken_but_changes_nothing() {
    let mut text_box = text_box("", true);
    let (ctx, output) = press(&mut text_box, Key::Backspace, false);
    assert_eq!(ctx.pressed, None);
    assert!(matches!(output.outcome, Outcome::Nothing));
    assert_eq!(text_box.get_text(), "");
}

#[test]
fn key_that_writes_nothing_is_left_to_the_host() {
    let mut text_box = text_box("ab", true);
    let escape = Key::Other { plain: None, shifted: None };
    let (ctx, output) = press(&mut text_box, escape, false);
    assert_eq!(ctx.pressed, Some(escape));
    assert!(matches!(output.outcome, Outcome::Nothing));
    assert_eq!(text_box.get_text(), "ab");

    let only_plain = Key::Other { plain: Some('1'), shifted: None };
    let (ctx, _) = press(&mut text_box, only_plain, true);
    assert_eq!(ctx.pressed, Some(only_plain));
    assert_eq!(text_box.get_text(), "ab");
    let (ctx, _) = press(&mut text_box, only_plain, false);
    assert_eq!(ctx.pressed, None);
    assert_eq!(text_box.get_text(), "ab1");
}

#[test]
fn keys_give_characters_and_operations() {
    assert_eq!(letter('a').to_char(false), Some('a'));
    assert_eq!(letter('a').to_char(true), Some('A'));
    assert_eq!(Key::Enter.to_char(false), None);
    assert_eq!(Key::Backspace.to_char(true), None);
    assert_eq!(Key::LeftArrow.to_char(false), None);
    assert_eq!(Key::RightArrow.to_char(false), None);
    assert_eq!(Key::Enter.edit_op(false), Some(chatbox::text_edit::EditOp::InsertNewline));
    assert_eq!(letter('q').edit_op(true), Some(chatbox::text_edit::EditOp::InsertChar('Q')));
    assert_eq!(Key::Other { plain: None, shifted: None }.edit_op(false), None);
}

#[test]
fn text_shows_the_cursor_and_breaks_at_newlines() {
    let mut text_box = text_box("one\ntwo", true);
    let text = text_box.calculate_text();
    assert_eq!(text.lines, vec!["one", "two|"]);
    assert_eq!(text.wrap_to_pixels, 220 - 16);

    press(&mut text_box, Key::LeftArrow, false);
    press(&mut text_box, Key::LeftArrow, false);
    press(&mut text_box, Key::LeftArrow, false);
    press(&mut text_box, Key::LeftArrow, false);
    assert_eq!(text_box.calculate_text().lines, vec!["one|", "two"]);

    press(&mut text_box, Key::Enter, false);
    assert_eq!(text_box.calculate_text().lines, vec!["one", "|", "two"]);

    let empty = self::text_box("", false);
    assert_eq!(empty.calculate_text().lines, vec!["|"]);
}

#[test]
fn narrow_text_box_wraps_at_one_pixel_at_least() {
    let ctx = EventCtx::idle(window());
    for (width, limit) in [(0, 1), (10, 1), (16, 1), (17, 1), (18, 2), (116, 100)] {
        let text_box = MultilineTextBox::new(
            &ctx,
            "input".to_string(),
            String::new(),
            ScreenDims::new(width, 40),
            false,
        );
        assert_eq!(text_box.calculate_text().wrap_to_pixels, limit);
    }
}

#[test]
fn drawing_is_dimmed_without_focus() {
    let mut text_box = text_box("hi", false);
    text_box.set_pos(ScreenPt::new(20, 600));
    let drawing = text_box.draw();
    assert!(drawing.dimmed);
    assert_eq!(drawing.top_left, ScreenPt::new(20, 600));
    assert_eq!(drawing.dims, ScreenDims::new(220, 90));
    assert_eq!(drawing.corner_radius, 2);
    assert_eq!(drawing.text.lines, vec!["hi|"]);
    assert_eq!(drawing.text.wrap_to_pixels, 204);
    assert_eq!(drawing.text_left, 8);
    assert_eq!(drawing.text_top, 6);

    hover(&mut text_box, Some(ScreenPt::new(21, 601)));
    assert!(!text_box.draw().dimmed);

    let autofocus = self::text_box("hi", true);
    assert!(!autofocus.draw().dimmed);
}

#[test]
fn rectangle_includes_its_edges() {
    let rect = ScreenRectangle::top_left(ScreenPt::new(10, 20), ScreenDims::new(5, 6));
    assert_eq!(rect, ScreenRectangle { x1: 10, y1: 20, x2: 15, y2: 26 });
    assert!(rect.contains(ScreenPt::new(10, 20)));
    assert!(rect.contains(ScreenPt::new(15, 26)));
    assert!(rect.contains(ScreenPt::new(12, 23)));
    assert!(!rect.contains(ScreenPt::new(9, 23)));
    assert!(!rect.contains(ScreenPt::new(16, 23)));
    assert!(!rect.contains(ScreenPt::new(12, 19)));
    assert!(!rect.contains(ScreenPt::new(12, 27)));
    let far = ScreenRectangle::top_left(
        ScreenPt::new(u32::MAX, u32::MAX),
        ScreenDims::new(u32::MAX, u32::MAX),
    );
    assert_eq!(far.x2, 2 * (u32::MAX as u64));
    assert!(far.contains(ScreenPt::new(u32::MAX, u32::MAX)));
}
