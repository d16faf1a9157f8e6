use embedded_graphics::pixelcolor::Rgb565;
use kolibri_embedded_gui::button::Button;
use kolibri_embedded_gui::checkbox::Checkbox;
use kolibri_embedded_gui::combo_box::{ComboBox, Selector};
use kolibri_embedded_gui::draw::{DrawCommand, Icon};
use kolibri_embedded_gui::geometry::{Point, Rectangle, Size};
use kolibri_embedded_gui::helpers::keyboard::{draw_keyboard, pop_last, push_limited, Key, Layout};
use kolibri_embedded_gui::icon::IconWidget;
use kolibri_embedded_gui::iconbutton::IconButton;
use kolibri_embedded_gui::label::{HashLabel, Hasher, Label};
use kolibri_embedded_gui::slider::Slider;
use kolibri_embedded_gui::smartstate::{Smartstate, SmartstateProvider};
use kolibri_embedded_gui::spacer::Spacer;
use kolibri_embedded_gui::style::{medsize_rgb565_style, slice_text_by_width};
use kolibri_embedded_gui::text::{measure_text, measure_text_centered, MonoFont};
use kolibri_embedded_gui::toggle_button::ToggleButton;
use kolibri_embedded_gui::toggle_switch::ToggleSwitch;
use kolibri_embedded_gui::ui::{Align, GuiError, HorizontalAlign, Interaction, Placer, PopupState, Ui, VerticalAlign};
use kolibri_embedded_gui::RefOption;

fn screen<'a>() -> Ui<'a, Rgb565> {
    Ui::new(Rectangle { top_left: Point::new(0, 0), size: Size::new(320, 240) }, medsize_rgb565_style())
}

#[test]
fn measure_text_uses_font_metrics() {
    let font = MonoFont::ascii_6x10();
    assert_eq!(measure_text("abc", &font), Some(Size::new(18, 10)));
    assert_eq!(measure_text_centered("abcd", &font), Some(Size::new(24, 10)));
    assert_eq!(measure_text("", &font), Some(Size::new(0, 0)));
}

#[test]
fn slice_text_keeps_fitting_prefix() {
    let style = medsize_rgb565_style();
    // 9 pixels per character in the default font
    assert_eq!(slice_text_by_width(27, "abcdef", &style), "abc");
    assert_eq!(slice_text_by_width(100, "abc", &style), "abc");
    assert_eq!(slice_text_by_width(5, "abc", &style), "");
}

#[test]
fn placer_places_widgets_side_by_side_and_wraps() {
    let mut placer = Placer::new(Size::new(100, 50), true, Align(HorizontalAlign::Left, VerticalAlign::Top));
    let a = placer.next(Size::new(40, 20)).unwrap();
    let b = placer.next(Size::new(40, 10)).unwrap();
    assert_eq!(a.top_left, Point::new(0, 0));
    assert_eq!(b.top_left, Point::new(40, 0));
    assert_eq!(b.size, Size::new(40, 20));
    assert_eq!(placer.col, 2);
    let c = placer.next(Size::new(40, 20)).unwrap();
    assert_eq!(c.top_left, Point::new(0, 20));
    assert_eq!(placer.row, 1);
    assert_eq!(placer.next(Size::new(200, 10)), Err(GuiError::NoSpaceLeft));
}

#[test]
fn placer_refuses_a_wrap_below_the_bounds() {
    let mut p = Placer::new(Size::new(100, 25), true, Align(HorizontalAlign::Left, VerticalAlign::Top));
    assert_eq!(p.next(Size::new(30, 10)), Ok(Rectangle::new(Point::new(0, 0), Size::new(30, 10))));
    assert_eq!(p.next(Size::new(80, 20)), Err(GuiError::NoSpaceLeft));
    assert_eq!(p.pos, Point::new(30, 0));
    assert_eq!(p.row, 0);
    assert_eq!(p.col, 1);
    assert_eq!(p.row_height, 10);
    // a widget that fits in the next row still wraps
    let r = p.next(Size::new(80, 15)).unwrap();
    assert_eq!(r.top_left, Point::new(0, 10));
    assert_eq!(r.size, Size::new(80, 15));
}

#[test]
fn button_release_is_a_click() {
    let mut ui = screen();
    ui.interact(Interaction::Release(Point::new(10, 10)));
    let resp = ui.add(Button::new("OK"));
    assert!(resp.clicked());
    assert!(!resp.down());
    assert_eq!(resp.internal.area.top_left, Point::new(3, 3));
    // "OK": 18x15 text, padding 6x5, no border, at least 16 high
    assert_eq!(resp.internal.area.size, Size::new(30, 25));
}

#[test]
fn smartstate_button_redraws_only_on_change() {
    let mut ui = screen();
    let mut state = Smartstate::empty();
    ui.add(Button::new("OK").smartstate(&mut state));
    let first = ui.take_commands();
    assert!(!first.is_empty());

    let mut ui = screen();
    ui.add(Button::new("OK").smartstate(&mut state));
    assert!(ui.take_commands().is_empty());

    let mut ui = screen();
    ui.interact(Interaction::Hover(Point::new(10, 10)));
    ui.add(Button::new("OK").smartstate(&mut state));
    assert!(!ui.take_commands().is_empty());
}

#[test]
fn checkbox_toggles_on_release() {
    let mut checked = false;
    let mut ui = screen();
    ui.interact(Interaction::Release(Point::new(5, 5)));
    let resp = ui.add(Checkbox::new(&mut checked));
    assert!(resp.changed());
    assert!(checked);

    let mut ui = screen();
    ui.interact(Interaction::Hover(Point::new(5, 5)));
    let resp = ui.add(Checkbox::new(&mut checked));
    assert!(!resp.changed());
    assert!(checked);
}

#[test]
fn toggle_switch_and_button_toggle_on_release() {
    let mut on = false;
    let mut ui = screen();
    ui.interact(Interaction::Release(Point::new(10, 10)));
    let resp = ui.add(ToggleSwitch::new(&mut on).width(10).height(5));
    assert!(resp.clicked() && resp.changed());
    assert!(on);
    assert_eq!(resp.internal.area.size, Size::new(42, 25));

    let mut active = true;
    let mut ui = screen();
    ui.interact(Interaction::Release(Point::new(10, 10)));
    let resp = ui.add(ToggleButton::new("Go", &mut active));
    assert!(resp.changed());
    assert!(!active);
}

#[test]
fn slider_press_sets_value() {
    let mut value: i16 = 0;
    let mut ui = screen();
    ui.interact(Interaction::Click(Point::new(109, 10)));
    let resp = ui.add(Slider::new(&mut value, 0..=100));
    assert!(resp.changed());
    assert_eq!(value, 50);

    let mut ui = screen();
    // pressed at the far end: 100, moved to the nearer step of 30
    ui.interact(Interaction::Click(Point::new(214, 10)));
    ui.add(Slider::new(&mut value, 0..=100).step_size(30));
    assert_eq!(value, 90);
}

#[test]
fn label_draws_its_text_once_with_smartstate() {
    let mut state = Smartstate::empty();
    let mut ui = screen();
    let resp = ui.add(Label::new("Hello").smartstate(&mut state));
    assert_eq!(resp.internal.area.size, Size::new(45, 15));
    let cmds = ui.take_commands();
    assert!(cmds.iter().any(|c| matches!(c, DrawCommand::Text { text, .. } if text == "Hello")));

    let mut ui = screen();
    ui.add(Label::new("Hello").smartstate(&mut state));
    assert!(ui.take_commands().is_empty());
}

#[test]
fn hash_label_redraws_when_text_changes() {
    let hasher = Hasher::new();
    let mut state = Smartstate::empty();
    let mut ui = screen();
    ui.add(HashLabel::new("one", &mut state, &hasher));
    assert!(!ui.take_commands().is_empty());
    let mut ui = screen();
    ui.add(HashLabel::new("one", &mut state, &hasher));
    assert!(ui.take_commands().is_empty());
    assert_eq!(hasher.hash("one"), hasher.hash("one"));
}

#[test]
fn icon_and_spacer_take_their_size() {
    let mut ui = screen();
    let resp = ui.add(IconWidget::new(Icon::new("actions::Check", 24)));
    assert_eq!(resp.internal.area.size, Size::new(24, 24));
    // an allocation takes the height of its row: the default widget height after a new row
    let resp = ui.add(Spacer::new(Size::new(7, 9)));
    assert_eq!(resp.internal.area.size, Size::new(7, 16));
    let resp = ui.add(IconButton::new(Icon::new("actions::Check", 24)).label("Ok"));
    // icon 24 + 2 * padding height 5 = 34 wide, 34 + 5 + 15 high
    assert_eq!(resp.internal.area.size, Size::new(34, 54));
}

#[test]
fn combo_box_is_sized_to_its_selection() {
    let contents = ["one", "three"];
    let mut idx: usize = 1;
    let mut ui = screen();
    ui.interact(Interaction::Hover(Point::new(10, 10)));
    let resp = ui.add(ComboBox::new(Selector::Index(&mut idx), &contents));
    // "three": 45x15 text, padding 6x5, height 25, arrow square 25 and item spacing 8
    assert_eq!(resp.internal.area.size, Size::new(45 + 12 + 25 + 8, 25));
    assert!(!resp.changed());
    assert_eq!(idx, 1);
}

#[test]
fn keyboard_text_buffer_respects_capacity() {
    let mut text = String::new();
    assert!(push_limited(&mut text, 'a', 3));
    assert!(push_limited(&mut text, 'ü', 3));
    assert!(!push_limited(&mut text, 'b', 3));
    assert_eq!(text, "aü");
    assert!(pop_last(&mut text));
    assert_eq!(text, "a");
    assert!(pop_last(&mut text));
    assert!(!pop_last(&mut text));
    assert_eq!(text, "");
}

#[test]
fn closed_keyboard_changes_nothing() {
    let layout = Layout::qwerty();
    let mut ui = screen();
    let mut shift = false;
    let mut open = false;
    let mut text = String::from("x");
    let mut provider = SmartstateProvider::<64>::new();
    let resp = draw_keyboard::<Rgb565, 64, 16>(&mut ui, &layout, Some(&mut provider), true, true, &mut shift, &mut open, &mut text);
    assert!(!resp.changed() && !resp.clicked());
    assert_eq!(text, "x");
    assert!(!open);
    assert_eq!(provider.get_pos(), 1);
}

#[test]
fn closed_keyboard_sets_its_state_and_invalidates_the_rest() {
    let layout = Layout::qwerty();
    let mut ui = screen();
    let mut p = SmartstateProvider::<8>::new();
    p.get(1).set_state(5);
    let mut shift = false;
    let mut open = false;
    let mut text = String::new();
    let r = draw_keyboard::<Rgb565, 8, 8>(&mut ui, &layout, Some(&mut p), false, false, &mut shift, &mut open, &mut text);
    assert_eq!(p.get_pos(), 1);
    assert!(p.get(0).is_state(0));
    assert!(p.get(1).is_empty());
    assert!(!r.clicked() && !r.changed() && !r.down());
    assert!(r.redrawn());
    assert!(r.error().is_none());
    assert_eq!(text, "");
    assert!(!shift && !open);
}

#[test]
fn open_keyboard_types_a_key() {
    let layout = Layout::new(&[Key::Char('a', 'A')], &[Key::Char('b', 'B')], &[Key::Char('c', 'C')]);
    let mut ui = screen();
    let mut shift = true;
    let mut open = true;
    let mut text = String::new();
    // the first key of the first row sits at the top left corner
    ui.interact(Interaction::Release(Point::new(5, 5)));
    let resp = draw_keyboard::<Rgb565, 1, 16>(&mut ui, &layout, None, false, false, &mut shift, &mut open, &mut text);
    assert!(resp.clicked() && resp.changed());
    assert_eq!(text, "A");
    assert!(open);
}

#[test]
fn layouts_hold_their_keys() {
    assert_eq!(Key::from(('a', 'A')), Key::Char('a', 'A'));
    let _ = Layout::qwertz_with_special();
    let _ = Layout::azerty();
}

#[test]
fn ref_option_copies_its_value() {
    let mut v = 4;
    let r = RefOption::new(&mut v);
    assert_eq!(r.copy(), Some(4));
    let e: RefOption<'_, i32> = RefOption::Empty;
    assert_eq!(e.copy(), None);
}

#[test]
fn popup_errors() {
    let mut ui = screen();
    assert_eq!(ui.popup_draw(Point::new(0, 0), 0, |_| false), Err(GuiError::DrawError(None)));
    assert_eq!(
        ui.popup_draw(Point::new(0, 0), 10, |_| false),
        Err(GuiError::DrawError(Some("Popup layer not initialized")))
    );
}

#[test]
fn combo_box_popup_selects_entry() {
    let contents = ["one", "three"];
    let mut idx: usize = 0;
    let mut state = PopupState::default();

    // frame 1: a release on the box opens the popup below it
    {
        let mut ui = screen();
        ui.begin_popup(&mut state, 320 * 240);
        ui.interact(Interaction::Release(Point::new(10, 10)));
        let resp = ui.add(ComboBox::new(Selector::Index(&mut idx), &contents));
        assert!(resp.clicked());
        assert!(!resp.changed());
        ui.end_popup(|| {});
        assert!(ui.take_commands().iter().any(|c| matches!(c, DrawCommand::Popup { .. })));
    }
    assert!(state.is_showing());
    assert_eq!(idx, 0);

    // frame 2: a release on the second entry of the popup selects it
    {
        let mut ui = screen();
        ui.begin_popup(&mut state, 320 * 240);
        ui.interact(Interaction::Release(Point::new(20, 60)));
        let resp = ui.add(ComboBox::new(Selector::Index(&mut idx), &contents));
        assert!(resp.changed());
        ui.end_popup(|| {});
    }
    assert_eq!(idx, 1);
    assert!(!state.is_showing());
}

#[test]
fn icon_button_has_debug_output() {
    let b: IconButton<'_, Rgb565> = IconButton::new(Icon::new("actions::Check", 24)).label("Ok");
    let text = format!("{:?}", b);
    assert!(text.contains("IconButton"));
    assert!(text.contains("Ok"));
}

#[test]
fn widget_without_smartstate_redraws_every_frame() {
    for _ in 0..2 {
        let mut ui = screen();
        ui.add(Button::new("OK"));
        assert!(!ui.take_commands().is_empty());
    }
}

#[test]
fn invalidated_smartstates_redraw() {
    let mut provider = SmartstateProvider::<2>::new();
    let mut ui = screen();
    ui.add(Button::new("OK").smartstate(provider.nxt()));
    assert!(!ui.take_commands().is_empty());

    provider.restart_counter();
    let mut ui = screen();
    ui.add(Button::new("OK").smartstate(provider.nxt()));
    assert!(ui.take_commands().is_empty());

    provider.restart_counter();
    provider.force_redraw_all();
    let mut ui = screen();
    ui.add(Button::new("OK").smartstate(provider.nxt()));
    assert!(!ui.take_commands().is_empty());
}

#[test]
fn text_extent_spans_the_lines_with_width() {
    let font = MonoFont::ascii_9x15();
    assert_eq!(measure_text("ab\nc", &font), Some(Size::new(18, 30)));
    assert_eq!(measure_text_centered("ab\nc", &font), Some(Size::new(18, 30)));
    assert_eq!(measure_text("\n\nx", &font), Some(Size::new(9, 15)));
    assert_eq!(measure_text("a\r\nb", &font), Some(Size::new(9, 30)));
    assert_eq!(measure_text("", &font), Some(Size::new(0, 0)));
}

#[test]
fn open_keyboard_takes_its_smartstates() {
    let layout = Layout::new(&[Key::Char('a', 'A')], &[Key::Char('b', 'B')], &[Key::Char('c', 'C')]);
    let mut ui = screen();
    let mut p = SmartstateProvider::<16>::new();
    let mut shift = false;
    let mut open = true;
    let mut text = String::new();
    let r = draw_keyboard::<Rgb565, 16, 16>(&mut ui, &layout, Some(&mut p), false, false, &mut shift, &mut open, &mut text);
    // one for the open state, one per character key, and shift, space and close
    assert_eq!(p.get_pos(), 1 + 3 + 3);
    assert!(p.get(0).is_state(1));
    assert!(r.down());
    assert!(!r.changed());
}

#[test]
fn centered_extent_counts_the_carriage_return() {
    let font = MonoFont::ascii_9x15();
    assert_eq!(measure_text_centered("ab\r\nab", &font), Some(Size::new(23, 30)));
    assert_eq!(measure_text("ab\r\nab", &font), Some(Size::new(18, 30)));
}

#[test]
fn too_tall_a_font_cannot_measure() {
    let font = MonoFont::new("ascii::FONT_9X15", 9, 50_000_000, 0, 11);
    assert_eq!(measure_text("a\nb", &font), None);
}

#[test]
fn placer_continues_right_of_a_wrapped_widget() {
    let mut p = Placer::new(Size::new(100, 100), true, Align(HorizontalAlign::Left, VerticalAlign::Top));
    assert_eq!(p.next(Size::new(30, 10)), Ok(Rectangle::new(Point::new(0, 0), Size::new(30, 10))));
    assert_eq!(p.next(Size::new(80, 20)), Ok(Rectangle::new(Point::new(0, 10), Size::new(80, 20))));
    assert_eq!(p.row, 1);
    assert_eq!(p.col, 1);
    assert_eq!(p.row_height, 20);
    assert_eq!(p.pos, Point::new(80, 10));
}
