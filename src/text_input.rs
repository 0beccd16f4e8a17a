//! An editable text field: a [`Text`] with a border, hover and focus.

use crate::construct::{Construct, LineTarget, StandardConstructTarget};
use crate::containers::{Fill, Init, TranslateX, TranslateY};
use crate::geometry::{outline, spec_outline, Line, Points, SizeAndCenter, UNIT};
use crate::signal::{
    CharacterInputSignal, CursorMovedSignal, MouseLeftDownSignal, MouseLeftUpSignal,
    ReconstructCallback, ResizedSignal, SignalReciever,
};
use crate::text::{push_char, SelectState, Text, TextShaper};
use vstd::prelude::*;

verus! {

/// The character that deletes the last character of a focused field.
pub const BACKSPACE: char = '\u{8}';

/// What a button release did to the focus of a text field.
#[derive(Debug, Clone, Copy, PartialEq, Eq, Structural)]
pub enum TextInputFocusCallback {
    NoChange,
    Unfocused,
    /// The field gained focus; the host may show an on-screen keyboard.
    Focused,
}

/// The focus result of a release: focus is gained when the field is hovered
/// and was not focused, lost when it is not hovered and was focused.
pub open spec fn focus_result(hovered: bool, was_focused: bool) -> TextInputFocusCallback {
    if hovered && !was_focused {
        TextInputFocusCallback::Focused
    } else if !hovered && was_focused {
        TextInputFocusCallback::Unfocused
    } else {
        TextInputFocusCallback::NoChange
    }
}

/// A text with a border, which takes typed characters while focused.
#[derive(Debug, Clone)]
pub struct TextInput<F> {
    text: Text<F>,
    bounds: Points,
    hovered: bool,
    focused: bool,
}

impl<F> TextInput<F> {
    pub closed spec fn text(self) -> Text<F> {
        self.text
    }

    /// The box that the border is drawn around and that hovering tests.
    pub closed spec fn bounds(self) -> Points {
        self.bounds
    }

    pub closed spec fn hovered(self) -> bool {
        self.hovered
    }

    pub closed spec fn focused(self) -> bool {
        self.focused
    }

    pub fn new(text: String, face: F) -> (r: Self)
        ensures
            r.text().text() == text@,
            r.text().face() == face,
            r.text().resolution() == (UNIT, UNIT),
            r.text().layout() is None,
            r.bounds() == (Points { p1x: 0, p1y: 0, p2x: 0, p2y: 0 }),
            !r.hovered(),
            !r.focused(),
    {
        Self::new_with_res(text, face, UNIT, UNIT)
    }

    pub fn new_with_res(text: String, face: F, resx: i64, resy: i64) -> (r: Self)
        ensures
            r.text().text() == text@,
            r.text().face() == face,
            r.text().resolution() == (resx, resy),
            r.text().layout() is None,
            r.text().select_state() == SelectState::Idle,
            r.bounds() == (Points { p1x: 0, p1y: 0, p2x: 0, p2y: 0 }),
            !r.hovered(),
            !r.focused(),
    {
        Self {
            text: Text::new_with_res(text, face, resx, resy),
            bounds: Points::zero(),
            hovered: false,
            focused: false,
        }
    }

    pub fn get_text(&self) -> (r: &String)
        ensures
            r@ == self.text().text(),
    {
        self.text.get_text()
    }

    pub fn is_focused(&self) -> (r: bool)
        ensures
            r == self.focused(),
    {
        self.focused
    }

    /// Hovered exactly when the cursor is inside the field's box.
    pub fn take_cursor_moved(&mut self, signal: &CursorMovedSignal)
        ensures
            final(self).hovered() == old(self).bounds().spec_contains(
                signal.norm_posx as int,
                signal.norm_posy as int,
            ),
            final(self).focused() == old(self).focused(),
            final(self).bounds() == old(self).bounds(),
            final(self).text() == old(self).text(),
    {
        self.hovered = self.bounds.contains(signal.norm_posx, signal.norm_posy);
    }

    /// The field takes focus exactly when it is hovered.
    pub fn take_mouse_left_up(&mut self, _signal: &MouseLeftUpSignal) -> (r: TextInputFocusCallback)
        ensures
            final(self).focused() == old(self).hovered(),
            r == focus_result(old(self).hovered(), old(self).focused()),
            final(self).hovered() == old(self).hovered(),
            final(self).bounds() == old(self).bounds(),
            final(self).text() == old(self).text(),
    {
        let was_focused = self.focused;
        self.focused = self.hovered;
        if self.hovered {
            if was_focused {
                TextInputFocusCallback::NoChange
            } else {
                TextInputFocusCallback::Focused
            }
        } else {
            if was_focused {
                TextInputFocusCallback::Unfocused
            } else {
                TextInputFocusCallback::NoChange
            }
        }
    }
}

impl<F: TextShaper> TextInput<F> {
    /// Typing: while focused, a backspace deletes the last character and
    /// any other character is appended, a laid-out text is shaped again, the
    /// selection is dropped and a rebuild is asked for; otherwise nothing
    /// changes. The text keeps its shaper, rectangle, resolution and cursor
    /// position either way.
    pub open spec fn character_input_reaction(
        self,
        signal: CharacterInputSignal,
        after: Self,
        rebuild: bool,
    ) -> bool {
        &&& rebuild == self.focused()
        &&& (!self.focused() ==> after.text() == self.text())
        &&& (self.focused() && signal.input == BACKSPACE ==> after.text().text() == if self.text().text().len()
            == 0 {
            self.text().text()
        } else {
            self.text().text().drop_last()
        })
        &&& (self.focused() && signal.input != BACKSPACE ==> after.text().text()
            == self.text().text().push(signal.input))
        &&& (self.focused() ==> after.text().select_state() == SelectState::Idle)
        &&& (self.focused() ==> after.text().selection_lines() is None)
        &&& (self.focused() && self.text().layout() is Some && self.text().size_mode() is Fill
            ==> after.text().shaped())
        &&& (self.focused() && (self.text().layout() is None
            || self.text().size_mode() is Unconstrained) ==> after.text().layout()
            == self.text().layout())
        &&& after.text().face() == self.text().face()
        &&& after.text().size_mode() == self.text().size_mode()
        &&& after.text().fill_points() == self.text().fill_points()
        &&& after.text().resolution() == self.text().resolution()
        &&& after.text().mouse() == self.text().mouse()
        &&& after.focused() == self.focused()
        &&& after.hovered() == self.hovered()
        &&& after.bounds() == self.bounds()
    }

    /// While focused, a backspace deletes the last character and any other
    /// character is appended, and a rebuild is asked for; otherwise nothing
    /// happens.
    pub fn take_character_input(&mut self, signal: &CharacterInputSignal) -> (r: ReconstructCallback<
        LineTarget,
    >)
        ensures
            old(self).character_input_reaction(*signal, *final(self), r@),
    {
        if self.focused {
            if signal.input == BACKSPACE {
                self.text.backspace();
            } else {
                let mut new_text = self.text.get_text().clone();
                push_char(&mut new_text, signal.input);
                self.text.set_text(new_text);
            }
            ReconstructCallback::new(true)
        } else {
            ReconstructCallback::new(false)
        }
    }
}

impl<F> Init for TextInput<F> {
    open spec fn can_init(&self) -> bool {
        true
    }

    open spec fn initialized(self, after: Self) -> bool {
        after == self
    }

    fn init(&mut self) {
    }
}

impl<F> Construct<LineTarget> for TextInput<F> {
    /// The text's geometry followed by the border around the field's box.
    open spec fn constructed(&self) -> Seq<Line> {
        self.text().constructed() + spec_outline(
            self.bounds().p1x,
            self.bounds().p2x,
            self.bounds().p2y,
            self.bounds().p1y,
        )
    }

    fn construct(&self) -> (r: LineTarget) {
        let mut target = self.text.construct();
        let border = outline(self.bounds.p1x, self.bounds.p2x, self.bounds.p2y, self.bounds.p1y);
        target.append(LineTarget(border));
        target
    }
}

impl<F: TextShaper> Fill for TextInput<F> {
    open spec fn can_fill(&self) -> bool {
        true
    }

    /// The text is laid out in the rectangle and the box around the laid
    /// out text becomes the field's box.
    open spec fn filled(self, target: SizeAndCenter, after: Self) -> bool {
        &&& self.text().filled(target, after.text())
        &&& after.bounds() == after.text().layout().unwrap().bounds
        &&& after.hovered() == self.hovered()
        &&& after.focused() == self.focused()
    }

    fn fill(&mut self, fill_target: SizeAndCenter) {
        self.text.fill(fill_target);
        match self.text.get_layout_bounds() {
            Some(bounds) => self.bounds = bounds,
            None => {},
        }
    }
}

impl<F> TranslateX for TextInput<F> {
    open spec fn can_translate_x(&self, dx: int) -> bool {
        self.text().can_translate_x(dx) && self.bounds().can_move_x(dx)
    }

    open spec fn is_moved_x(self, other: Self, dx: int) -> bool {
        &&& self.text().is_moved_x(other.text(), dx)
        &&& other.bounds() == self.bounds().moved_x(dx)
        &&& other.hovered() == self.hovered()
        &&& other.focused() == self.focused()
    }

    fn translate_x(&mut self, dx: i64) {
        self.text.translate_x(dx);
        self.bounds.translate_x(dx);
    }
}

impl<F> TranslateY for TextInput<F> {
    open spec fn can_translate_y(&self, dy: int) -> bool {
        self.text().can_translate_y(dy) && self.bounds().can_move_y(dy)
    }

    open spec fn is_moved_y(self, other: Self, dy: int) -> bool {
        &&& self.text().is_moved_y(other.text(), dy)
        &&& other.bounds() == self.bounds().moved_y(dy)
        &&& other.hovered() == self.hovered()
        &&& other.focused() == self.focused()
    }

    fn translate_y(&mut self, dy: i64) {
        self.text.translate_y(dy);
        self.bounds.translate_y(dy);
    }
}

impl<F: TextShaper> SignalReciever<ResizedSignal, ReconstructCallback<LineTarget>> for TextInput<F> {
    /// The text reacts; the field's box, hover and focus stay.
    open spec fn reaction(
        self,
        signal: ResizedSignal,
        after: Self,
        r: ReconstructCallback<LineTarget>,
    ) -> bool {
        &&& self.text().resized_reaction(signal, after.text(), r@)
        &&& after.bounds() == self.bounds()
        &&& after.hovered() == self.hovered()
        &&& after.focused() == self.focused()
    }

    fn take_signal(&mut self, signal: &mut ResizedSignal) -> ReconstructCallback<LineTarget> {
        self.text.take_resized(&*signal)
    }
}

impl<F, R: Default> SignalReciever<CursorMovedSignal, R> for TextInput<F> {
    /// Hover follows the cursor and the result is the default one.
    open spec fn reaction(self, signal: CursorMovedSignal, after: Self, r: R) -> bool {
        &&& call_ensures(R::default, (), r)
        &&& after.hovered() == self.bounds().spec_contains(
            signal.norm_posx as int,
            signal.norm_posy as int,
        )
        &&& after.focused() == self.focused()
        &&& after.text() == self.text()
        &&& after.bounds() == self.bounds()
    }

    fn take_signal(&mut self, signal: &mut CursorMovedSignal) -> R {
        self.take_cursor_moved(&*signal);
        R::default()
    }
}

impl<F> SignalReciever<MouseLeftUpSignal, TextInputFocusCallback> for TextInput<F> {
    open spec fn reaction(
        self,
        signal: MouseLeftUpSignal,
        after: Self,
        r: TextInputFocusCallback,
    ) -> bool {
        &&& after.focused() == self.hovered()
        &&& r == focus_result(self.hovered(), self.focused())
        &&& after.hovered() == self.hovered()
        &&& after.text() == self.text()
        &&& after.bounds() == self.bounds()
    }

    fn take_signal(&mut self, signal: &mut MouseLeftUpSignal) -> TextInputFocusCallback {
        self.take_mouse_left_up(&*signal)
    }
}

impl<F: TextShaper> SignalReciever<CharacterInputSignal, ReconstructCallback<LineTarget>> for TextInput<
    F,
> {
    open spec fn reaction(
        self,
        signal: CharacterInputSignal,
        after: Self,
        r: ReconstructCallback<LineTarget>,
    ) -> bool {
        self.character_input_reaction(signal, after, r@)
    }

    fn take_signal(&mut self, signal: &mut CharacterInputSignal) -> ReconstructCallback<LineTarget> {
        self.take_character_input(&*signal)
    }
}

impl<F, R: Default> SignalReciever<MouseLeftDownSignal, R> for TextInput<F> {
    /// Nothing changes and the result is the default one.
    open spec fn reaction(self, signal: MouseLeftDownSignal, after: Self, r: R) -> bool {
        after == self && call_ensures(R::default, (), r)
    }

    /// Reserved: the field does not react to a press.
    fn take_signal(&mut self, _signal: &mut MouseLeftDownSignal) -> R {
        R::default()
    }
}

} // verus!
