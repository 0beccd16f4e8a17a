use bui_basic::column::VecColumn;
use bui_basic::containers::{HSplitContainer, VStackContainer};
use bui_basic::geometry::Fraction;
use bui_basic::button::{Button, ClickedCallback, PressState, PressStateCallback};
use bui_basic::construct::{Construct, LineTarget};
use bui_basic::containers::{
    Fill, GetCenterPosition, GetHeight, GetPointBounds, Init, NoContainer, TranslateX, TranslateY,
};
use bui_basic::geometry::{Points, SizeAndCenter, UNIT};
use bui_basic::signal::{
    CharacterInputSignal, CursorMovedSignal, MouseLeftDownSignal, MouseLeftUpSignal,
    ReconstructCallback, ResizedSignal, SignalReciever,
};
use bui_basic::switch_container::{Branch, SwitchContainer};
use bui_basic::text::{
    CharSide, DragPoint, DragState, SelectState, SelectStateCallback, Selection, Text, TextLayout,
    TextShaper,
};
use bui_basic::text_input::{TextInput, TextInputFocusCallback};

/// Gives every character an equal slot across the target rectangle, with one
/// underline segment per character.
#[derive(Clone, Copy)]
struct Mono;

impl TextShaper for Mono {
    fn shape(&self, text: &String, target: SizeAndCenter, _resx: i64, _resy: i64) -> TextLayout {
        let n = text.chars().count() as i64;
        let left = target.cx - target.sx as i64;
        let top = target.cy + target.sy as i64;
        let bottom = target.cy - target.sy as i64;
        let w = if n == 0 { 0 } else { 2 * target.sx as i64 / n };
        let mut lines = Vec::new();
        let mut char_bounds = Vec::new();
        for i in 0..n {
            char_bounds.push(Points { p1x: left + i * w, p1y: top, p2x: left + (i + 1) * w, p2y: bottom });
            lines.push(bui_basic::geometry::Line {
                p1x: left + i * w,
                p1y: bottom,
                p2x: left + (i + 1) * w,
                p2y: bottom,
            });
        }
        TextLayout { lines, bounds: Points { p1x: left, p1y: top, p2x: left + n * w, p2y: bottom }, char_bounds }
    }
}

fn rect(sx: u32, sy: u32, cx: i64, cy: i64) -> SizeAndCenter {
    SizeAndCenter { sx, sy, cx, cy }
}

fn cursor(x: i64, y: i64) -> CursorMovedSignal {
    CursorMovedSignal { pixel_posx: 0, pixel_posy: 0, norm_posx: x, norm_posy: y }
}

/// Text "abcd" over x in -40..40: character i spans -40 + 20i .. -20 + 20i.
fn laid_out(s: &str) -> Text<Mono> {
    let mut t = Text::new(s.to_string(), Mono);
    t.fill(rect(40, 10, 0, 0));
    t
}

#[test]
fn button_scripted_sequence() {
    let mut b = Button::new(NoContainer {}, rect(10, 10, 0, 0));
    assert_eq!(b.get_press_state(), PressState::Idle);
    assert_eq!(b.take_cursor_moved(&cursor(1, 1)), PressStateCallback::Update(PressState::Hovered));
    assert_eq!(b.take_mouse_left_down(&MouseLeftDownSignal()), PressStateCallback::Update(PressState::Pressed));
    assert_eq!(b.take_mouse_left_up(&MouseLeftUpSignal()), ClickedCallback::Clicked);
    assert_eq!(b.get_press_state(), PressState::Hovered);
    assert_eq!(b.take_cursor_moved(&cursor(50, 1)), PressStateCallback::Update(PressState::Idle));
}

#[test]
fn button_no_change_cases() {
    let mut b = Button::new(NoContainer {}, rect(10, 10, 0, 0));
    assert_eq!(b.take_cursor_moved(&cursor(50, 0)), PressStateCallback::NoChange);
    assert_eq!(b.take_mouse_left_down(&MouseLeftDownSignal()), PressStateCallback::NoChange);
    assert_eq!(b.take_mouse_left_up(&MouseLeftUpSignal()), ClickedCallback::NoClick);
    b.take_cursor_moved(&cursor(0, 0));
    assert_eq!(b.take_cursor_moved(&cursor(2, 2)), PressStateCallback::NoChange);
    assert_eq!(b.take_mouse_left_up(&MouseLeftUpSignal()), ClickedCallback::NoClick);
    b.take_mouse_left_down(&MouseLeftDownSignal());
    assert_eq!(b.take_mouse_left_down(&MouseLeftDownSignal()), PressStateCallback::NoChange);
    assert_eq!(b.take_cursor_moved(&cursor(3, 3)), PressStateCallback::NoChange);
    assert_eq!(b.get_height(), 20);
}

#[test]
fn button_erased_handlers_and_translation() {
    let mut b = Button::new(NoContainer {}, rect(10, 10, 0, 0));
    b.init();
    let r: ReconstructCallback<LineTarget> = b.take_signal(&mut cursor(1, 1));
    assert!(!r.get_reconstruct());
    assert_eq!(b.get_press_state(), PressState::Hovered);
    b.translate_x(100);
    b.translate_y(-100);
    assert_eq!(b.take_cursor_moved(&cursor(1, 1)), PressStateCallback::Update(PressState::Idle));
    assert_eq!(b.take_cursor_moved(&cursor(101, -99)), PressStateCallback::Update(PressState::Hovered));
    b.fill(rect(1, 1, 0, 0));
    assert_eq!(b.get_height(), 2);
    assert_eq!(b.take_cursor_moved(&cursor(101, -99)), PressStateCallback::Update(PressState::Idle));
}

#[test]
fn compute_selection_orders_boundaries() {
    let d = DragState {
        start: DragPoint { char_index: 1, char_side: CharSide::Left },
        end: DragPoint { char_index: 3, char_side: CharSide::Right },
    };
    assert_eq!(d.compute_selection(), Some(Selection { start: 1, end: 4 }));
    let back = DragState { start: d.end, end: d.start };
    assert_eq!(back.compute_selection(), Some(Selection { start: 1, end: 4 }));
    let same = DragState { start: d.start, end: d.start };
    assert_eq!(same.compute_selection(), None);
    let touching = DragState {
        start: DragPoint { char_index: 1, char_side: CharSide::Right },
        end: DragPoint { char_index: 2, char_side: CharSide::Left },
    };
    assert_eq!(touching.compute_selection(), None);
}

#[test]
fn text_drag_and_release_selects() {
    let mut t = laid_out("abcd");
    assert_eq!(t.char_count(), 4);
    let (r, cb) = t.take_cursor_moved(&cursor(-18, 0));
    assert!(!r.get_reconstruct());
    assert_eq!(cb, SelectStateCallback::NoChange);
    let (r, cb) = t.take_mouse_left_down(&MouseLeftDownSignal());
    assert!(r.get_reconstruct());
    let start = DragPoint { char_index: 1, char_side: CharSide::Left };
    assert_eq!(cb, SelectStateCallback::Update(SelectState::Dragging(DragState { start, end: start }, None)));
    let (r, cb) = t.take_cursor_moved(&cursor(38, 0));
    assert!(r.get_reconstruct());
    let end = DragPoint { char_index: 3, char_side: CharSide::Right };
    let sel = Selection { start: 1, end: 4 };
    assert_eq!(cb, SelectStateCallback::Update(SelectState::Dragging(DragState { start, end }, Some(sel))));
    let cb = t.take_mouse_left_up(&MouseLeftUpSignal());
    assert_eq!(cb, SelectStateCallback::Update(SelectState::Selected(sel)));
    assert_eq!(t.get_select_state(), SelectState::Selected(sel));
    let lines = t.construct().0;
    assert_eq!(lines.len(), 4 + 4);
    assert_eq!(lines[4].p1x, -20);
    assert_eq!(lines[5].p2x, 40);
    assert_eq!(lines[4].p1y, -10);
    assert_eq!(lines[4].p2y, 10);
}

#[test]
fn text_release_without_movement_selects_nothing() {
    let mut t = laid_out("abcd");
    t.take_cursor_moved(&cursor(-18, 0));
    t.take_mouse_left_down(&MouseLeftDownSignal());
    let cb = t.take_mouse_left_up(&MouseLeftUpSignal());
    assert_eq!(cb, SelectStateCallback::Update(SelectState::Idle));
    assert_eq!(t.take_mouse_left_up(&MouseLeftUpSignal()), SelectStateCallback::NoChange);
    assert_eq!(t.construct().0.len(), 4);
}

#[test]
fn text_drag_within_same_selection_reports_no_change() {
    let mut t = laid_out("abcd");
    t.take_cursor_moved(&cursor(-38, 0));
    t.take_mouse_left_down(&MouseLeftDownSignal());
    let (r, _) = t.take_cursor_moved(&cursor(-22, 0));
    assert!(r.get_reconstruct());
    // the right half of character 0 and the left half of character 1 are the same boundary
    let (r, cb) = t.take_cursor_moved(&cursor(-18, 0));
    assert!(!r.get_reconstruct());
    assert_eq!(cb, SelectStateCallback::NoChange);
    let (r, cb) = t.take_cursor_moved(&cursor(-17, 0));
    assert!(!r.get_reconstruct());
    assert_eq!(cb, SelectStateCallback::NoChange);
}

#[test]
fn text_press_beside_characters_clears_selection() {
    let mut t = laid_out("abcd");
    t.take_cursor_moved(&cursor(-38, 0));
    t.take_mouse_left_down(&MouseLeftDownSignal());
    t.take_cursor_moved(&cursor(-2, 0));
    t.take_mouse_left_up(&MouseLeftUpSignal());
    assert_eq!(t.get_select_state(), SelectState::Selected(Selection { start: 0, end: 2 }));
    t.take_cursor_moved(&cursor(0, 50));
    let (r, cb) = t.take_mouse_left_down(&MouseLeftDownSignal());
    assert!(r.get_reconstruct());
    assert_eq!(cb, SelectStateCallback::Update(SelectState::Idle));
    let (r, cb) = t.take_mouse_left_down(&MouseLeftDownSignal());
    assert!(!r.get_reconstruct());
    assert_eq!(cb, SelectStateCallback::NoChange);
}

#[test]
fn text_set_text_and_backspace_drop_selection() {
    let mut t = laid_out("abcd");
    t.take_cursor_moved(&cursor(-38, 0));
    t.take_mouse_left_down(&MouseLeftDownSignal());
    t.take_cursor_moved(&cursor(-2, 0));
    t.set_text("xy".to_string());
    assert_eq!(t.get_text(), "xy");
    assert_eq!(t.get_select_state(), SelectState::Idle);
    assert_eq!(t.char_count(), 2);
    t.backspace();
    assert_eq!(t.get_text(), "x");
    assert_eq!(t.char_count(), 1);
    t.backspace();
    t.backspace();
    assert_eq!(t.get_text(), "");
    assert_eq!(t.construct().0.len(), 0);
}

#[test]
fn text_before_layout() {
    let mut t = Text::new("ab".to_string(), Mono);
    assert_eq!(t.char_count(), 0);
    let r: ReconstructCallback<LineTarget> = t.take_signal(&mut ResizedSignal { resxp: 10, resyp: 10, resx: UNIT, resy: UNIT });
    assert!(!r.get_reconstruct());
    t.set_text("abc".to_string());
    assert_eq!(t.char_count(), 0);
    assert!(t.construct().0.is_empty());
    t.init();
}

#[test]
fn text_resize_end_to_end() {
    let mut t = laid_out("ab");
    let mut signal = ResizedSignal { resxp: 800, resyp: 600, resx: UNIT, resy: UNIT };
    let r: ReconstructCallback<LineTarget> = t.take_signal(&mut signal);
    assert!(r.get_reconstruct());
    assert_eq!(t.char_count(), 2);
    assert_eq!(t.get_center_position(), (0, 0));
}

#[test]
fn text_translation_round_trip() {
    let mut t = laid_out("abcd");
    t.take_cursor_moved(&cursor(-38, 0));
    t.take_mouse_left_down(&MouseLeftDownSignal());
    t.take_cursor_moved(&cursor(-2, 0));
    let before = t.construct().0;
    let bounds = t.get_point_bounds();
    t.translate_x(0);
    assert_eq!(t.construct().0, before);
    t.translate_x(25);
    let moved = t.construct().0;
    assert_eq!(moved[0].p1x, before[0].p1x + 25);
    assert_eq!(t.get_point_bounds(), Points { p1x: bounds.p1x + 25, p2x: bounds.p2x + 25, ..bounds });
    assert_eq!(t.get_center_position(), (25, 0));
    t.translate_x(-25);
    assert_eq!(t.construct().0, before);
    assert_eq!(t.get_point_bounds(), bounds);
    t.translate_y(7);
    t.translate_y(-7);
    assert_eq!(t.construct().0, before);
}

#[test]
fn translated_text_hit_tests_at_new_place() {
    let mut t = laid_out("abcd");
    t.translate_x(100);
    t.take_cursor_moved(&cursor(62, 0));
    t.take_mouse_left_down(&MouseLeftDownSignal());
    t.take_cursor_moved(&cursor(138, 0));
    t.take_mouse_left_up(&MouseLeftUpSignal());
    assert_eq!(t.get_select_state(), SelectState::Selected(Selection { start: 0, end: 4 }));
}

#[test]
fn switch_dispatches_to_active_branch_only() {
    let a = Button::new(NoContainer {}, rect(10, 10, 0, 0));
    let b = Button::new(NoContainer {}, rect(10, 10, 0, 0));
    let mut s = SwitchContainer::new(Branch::First, a, b);
    assert_eq!(s.get_active(), Branch::First);
    let _: ReconstructCallback<LineTarget> = s.take_signal(&mut cursor(0, 0));
    assert_eq!(s.get_first().get_press_state(), PressState::Hovered);
    assert_eq!(s.get_second().get_press_state(), PressState::Idle);
    let mut s2 = SwitchContainer::new(Branch::Second, laid_out("ab"), laid_out("ab"));
    s2.translate_x(5);
    assert_eq!(s2.get_first().get_center_position(), (0, 0));
    assert_eq!(s2.get_second().get_center_position(), (5, 0));
}

#[test]
fn text_input_focus_and_typing() {
    let mut ti = TextInput::new("ab".to_string(), Mono);
    ti.fill(rect(40, 10, 0, 0));
    let r: ReconstructCallback<LineTarget> = ti.take_signal(&mut CharacterInputSignal { input: 'c' });
    assert!(!r.get_reconstruct());
    assert_eq!(ti.get_text(), "ab");
    ti.take_cursor_moved(&cursor(0, 0));
    assert_eq!(ti.take_mouse_left_up(&MouseLeftUpSignal()), TextInputFocusCallback::Focused);
    assert!(ti.is_focused());
    assert_eq!(ti.take_mouse_left_up(&MouseLeftUpSignal()), TextInputFocusCallback::NoChange);
    let r = ti.take_character_input(&CharacterInputSignal { input: 'c' });
    assert!(r.get_reconstruct());
    assert_eq!(ti.get_text(), "abc");
    let r = ti.take_character_input(&CharacterInputSignal { input: '\u{8}' });
    assert!(r.get_reconstruct());
    assert_eq!(ti.get_text(), "ab");
    ti.take_cursor_moved(&cursor(100, 0));
    assert_eq!(ti.take_mouse_left_up(&MouseLeftUpSignal()), TextInputFocusCallback::Unfocused);
    assert_eq!(ti.take_mouse_left_up(&MouseLeftUpSignal()), TextInputFocusCallback::NoChange);
    assert!(!ti.is_focused());
}

#[test]
fn text_input_border_follows_translation() {
    let mut ti = TextInput::new("ab".to_string(), Mono);
    ti.fill(rect(40, 10, 0, 0));
    let lines = ti.construct().0;
    assert_eq!(lines.len(), 2 + 4);
    assert_eq!((lines[2].p1x, lines[2].p1y, lines[2].p2x, lines[2].p2y), (-40, -10, -40, 10));
    ti.translate_x(3);
    let lines = ti.construct().0;
    assert_eq!(lines[2].p1x, -37);
    ti.take_cursor_moved(&cursor(42, 0));
    assert_eq!(ti.take_mouse_left_up(&MouseLeftUpSignal()), TextInputFocusCallback::Focused);
}

#[test]
fn column_and_split_aggregate_results() {
    let mut col = VecColumn::from(vec![Text::new("a".to_string(), Mono), laid_out("bc")]);
    let mut resize = ResizedSignal { resxp: 1, resyp: 1, resx: UNIT, resy: UNIT };
    let each: Vec<ReconstructCallback<LineTarget>> = col.take_signal(&mut resize);
    assert_eq!(each.len(), 2);
    assert!(!each[0].get_reconstruct());
    assert!(each[1].get_reconstruct());
    let any: ReconstructCallback<LineTarget> = col.take_signal(&mut resize);
    assert!(any.get_reconstruct());
    let mut quiet = VecColumn::from(vec![Text::new("a".to_string(), Mono)]);
    let none: ReconstructCallback<LineTarget> = quiet.take_signal(&mut resize);
    assert!(!none.get_reconstruct());

    let mut split = HSplitContainer::new(NoContainer {}, Fraction { num: 1, den: 2 }, Text::new("ab".to_string(), Mono));
    split.fill(rect(40, 10, 0, 0));
    let r: ReconstructCallback<LineTarget> = split.take_signal(&mut resize);
    assert!(r.get_reconstruct());
    let (a, b): (ReconstructCallback<LineTarget>, ReconstructCallback<LineTarget>) = split.take_signal_each(&mut resize);
    assert!(!a.get_reconstruct());
    assert!(b.get_reconstruct());
    assert_eq!(split.construct().0.len(), 2);

    let mut stack = VStackContainer::new(NoContainer {}, NoContainer {});
    let r: ReconstructCallback<LineTarget> = stack.take_signal(&mut resize);
    assert!(!r.get_reconstruct());
}
