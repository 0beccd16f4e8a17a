//! A clickable area around a child, with a press-state machine.

use crate::construct::{Construct, StandardConstructTarget};
use crate::containers::{Fill, GetHeight, Init, TranslateX, TranslateY};
use crate::geometry::{in_range, Points, SizeAndCenter};
use crate::signal::{
    CharacterInputSignal, CursorMovedSignal, MouseLeftDownSignal, MouseLeftUpSignal, ResizedSignal,
    SignalReciever,
};
use vstd::prelude::*;

verus! {

#[derive(Debug, Clone, Copy, PartialEq, Eq, Structural)]
pub enum PressState {
    Idle,
    Hovered,
    Pressed,
}

/// What a cursor move or a button press did to the press state.
#[derive(Debug, Clone, Copy, PartialEq, Eq, Structural)]
pub enum PressStateCallback {
    NoChange,
    Update(PressState),
}

/// Whether a button release completed a click.
#[derive(Debug, Clone, Copy, PartialEq, Eq, Structural)]
pub enum ClickedCallback {
    NoClick,
    Clicked,
}

/// The press state and result after the cursor moves inside (`inside`) or
/// outside the button.
pub open spec fn cursor_moved_step(s: PressState, inside: bool) -> (PressState, PressStateCallback) {
    if inside {
        match s {
            PressState::Idle => (PressState::Hovered, PressStateCallback::Update(PressState::Hovered)),
            _ => (s, PressStateCallback::NoChange),
        }
    } else {
        match s {
            PressState::Idle => (s, PressStateCallback::NoChange),
            _ => (PressState::Idle, PressStateCallback::Update(PressState::Idle)),
        }
    }
}

/// The press state and result after the left button goes down.
pub open spec fn mouse_left_down_step(s: PressState) -> (PressState, PressStateCallback) {
    match s {
        PressState::Hovered => (PressState::Pressed, PressStateCallback::Update(PressState::Pressed)),
        _ => (s, PressStateCallback::NoChange),
    }
}

/// The press state and result after the left button goes up: a release
/// while pressed is a click and leaves the button hovered.
pub open spec fn mouse_left_up_step(s: PressState) -> (PressState, ClickedCallback) {
    match s {
        PressState::Pressed => (PressState::Hovered, ClickedCallback::Clicked),
        _ => (s, ClickedCallback::NoClick),
    }
}

/// A clickable rectangle around a child widget.
#[derive(Debug, Clone)]
pub struct Button<T> {
    child: T,
    press_state: PressState,
    fill_area: SizeAndCenter,
    points: Points,
}

impl<T> Button<T> {
    pub closed spec fn child(self) -> T {
        self.child
    }

    pub closed spec fn press_state(self) -> PressState {
        self.press_state
    }

    pub closed spec fn fill_area(self) -> SizeAndCenter {
        self.fill_area
    }

    /// The box used for hit-testing.
    pub closed spec fn points(self) -> Points {
        self.points
    }

    pub fn new(child: T, fill_area: SizeAndCenter) -> (r: Self)
        requires
            fill_area.wf(),
        ensures
            r.child() == child,
            r.press_state() == PressState::Idle,
            r.fill_area() == fill_area,
            r.points() == fill_area.spec_points(),
    {
        Self { child, press_state: PressState::Idle, fill_area, points: fill_area.to_points() }
    }

    pub fn get_press_state(&self) -> (r: PressState)
        ensures
            r == self.press_state(),
    {
        self.press_state
    }

    /// Moves the press state for a cursor at the signal's normalized
    /// position.
    pub fn take_cursor_moved(&mut self, signal: &CursorMovedSignal) -> (r: PressStateCallback)
        ensures
            ({
                let inside = old(self).points().spec_contains(
                    signal.norm_posx as int,
                    signal.norm_posy as int,
                );
                (final(self).press_state(), r) == cursor_moved_step(old(self).press_state(), inside)
            }),
            final(self).child() == old(self).child(),
            final(self).fill_area() == old(self).fill_area(),
            final(self).points() == old(self).points(),
    {
        if self.points.contains(signal.norm_posx, signal.norm_posy) {
            match self.press_state {
                PressState::Hovered | PressState::Pressed => PressStateCallback::NoChange,
                PressState::Idle => {
                    self.press_state = PressState::Hovered;
                    PressStateCallback::Update(self.press_state)
                },
            }
        } else {
            match self.press_state {
                PressState::Hovered | PressState::Pressed => {
                    self.press_state = PressState::Idle;
                    PressStateCallback::Update(self.press_state)
                },
                PressState::Idle => PressStateCallback::NoChange,
            }
        }
    }

    pub fn take_mouse_left_down(&mut self, _signal: &MouseLeftDownSignal) -> (r:
        PressStateCallback)
        ensures
            (final(self).press_state(), r) == mouse_left_down_step(old(self).press_state()),
            final(self).child() == old(self).child(),
            final(self).fill_area() == old(self).fill_area(),
            final(self).points() == old(self).points(),
    {
        match self.press_state {
            PressState::Idle | PressState::Pressed => PressStateCallback::NoChange,
            PressState::Hovered => {
                self.press_state = PressState::Pressed;
                PressStateCallback::Update(self.press_state)
            },
        }
    }

    pub fn take_mouse_left_up(&mut self, _signal: &MouseLeftUpSignal) -> (r: ClickedCallback)
        ensures
            (final(self).press_state(), r) == mouse_left_up_step(old(self).press_state()),
            final(self).child() == old(self).child(),
            final(self).fill_area() == old(self).fill_area(),
            final(self).points() == old(self).points(),
    {
        if self.press_state == PressState::Pressed {
            self.press_state = PressState::Hovered;
            ClickedCallback::Clicked
        } else {
            ClickedCallback::NoClick
        }
    }
}

impl<C: StandardConstructTarget, T: Construct<C>> Construct<C> for Button<T> {
    open spec fn constructed(&self) -> Seq<C::Item> {
        self.child().constructed()
    }

    fn construct(&self) -> (r: C) {
        self.child.construct()
    }
}

impl<T: Fill> Init for Button<T> {
    open spec fn can_init(&self) -> bool {
        self.fill_area().wf() && self.child().can_fill()
    }

    /// The child is laid out in the button's rectangle.
    open spec fn initialized(self, after: Self) -> bool {
        &&& self.child().filled(self.fill_area(), after.child())
        &&& after.press_state() == self.press_state()
        &&& after.fill_area() == self.fill_area()
        &&& after.points() == self.points()
    }

    fn init(&mut self) {
        let area = self.fill_area;
        self.child.fill(area);
    }
}

impl<T: Fill> Fill for Button<T> {
    open spec fn can_fill(&self) -> bool {
        self.child().can_fill()
    }

    /// The button takes the rectangle for hit-testing and the child is laid
    /// out in it.
    open spec fn filled(self, target: SizeAndCenter, after: Self) -> bool {
        &&& after.fill_area() == target
        &&& after.points() == target.spec_points()
        &&& after.press_state() == self.press_state()
        &&& self.child().filled(target, after.child())
    }

    fn fill(&mut self, fill_target: SizeAndCenter) {
        self.fill_area = fill_target;
        self.points = fill_target.to_points();
        self.child.fill(fill_target);
    }
}

impl<T: TranslateX> TranslateX for Button<T> {
    open spec fn can_translate_x(&self, dx: int) -> bool {
        &&& in_range(self.fill_area().cx + dx)
        &&& self.points().can_move_x(dx)
        &&& self.child().can_translate_x(dx)
    }

    open spec fn is_moved_x(self, other: Self, dx: int) -> bool {
        &&& other.press_state() == self.press_state()
        &&& other.fill_area() == SizeAndCenter { cx: (self.fill_area().cx + dx) as i64, ..self.fill_area() }
        &&& other.points() == self.points().moved_x(dx)
        &&& self.child().is_moved_x(other.child(), dx)
    }

    fn translate_x(&mut self, dx: i64) {
        self.fill_area.cx = self.fill_area.cx + dx;
        self.points.translate_x(dx);
        self.child.translate_x(dx);
    }
}

impl<T: TranslateY> TranslateY for Button<T> {
    open spec fn can_translate_y(&self, dy: int) -> bool {
        &&& in_range(self.fill_area().cy + dy)
        &&& self.points().can_move_y(dy)
        &&& self.child().can_translate_y(dy)
    }

    open spec fn is_moved_y(self, other: Self, dy: int) -> bool {
        &&& other.press_state() == self.press_state()
        &&& other.fill_area() == SizeAndCenter { cy: (self.fill_area().cy + dy) as i64, ..self.fill_area() }
        &&& other.points() == self.points().moved_y(dy)
        &&& self.child().is_moved_y(other.child(), dy)
    }

    fn translate_y(&mut self, dy: i64) {
        self.fill_area.cy = self.fill_area.cy + dy;
        self.points.translate_y(dy);
        self.child.translate_y(dy);
    }
}

impl<T> GetHeight for Button<T> {
    open spec fn height(&self) -> int {
        2 * self.fill_area().sy
    }

    fn get_height(&self) -> (h: i64) {
        self.fill_area.sy as i64 * 2
    }
}

impl<T: SignalReciever<ResizedSignal, R>, R> SignalReciever<ResizedSignal, R> for Button<T> {
    /// The child reacts; the button itself stays as it is.
    open spec fn reaction(self, signal: ResizedSignal, after: Self, r: R) -> bool {
        &&& self.child().reaction(signal, after.child(), r)
        &&& after.press_state() == self.press_state()
        &&& after.fill_area() == self.fill_area()
        &&& after.points() == self.points()
    }

    fn take_signal(&mut self, signal: &mut ResizedSignal) -> R {
        self.child.take_signal(signal)
    }
}

impl<T: SignalReciever<CharacterInputSignal, R>, R> SignalReciever<CharacterInputSignal, R> for Button<
    T,
> {
    /// The child reacts; the button itself stays as it is.
    open spec fn reaction(self, signal: CharacterInputSignal, after: Self, r: R) -> bool {
        &&& self.child().reaction(signal, after.child(), r)
        &&& after.press_state() == self.press_state()
        &&& after.fill_area() == self.fill_area()
        &&& after.points() == self.points()
    }

    fn take_signal(&mut self, signal: &mut CharacterInputSignal) -> R {
        self.child.take_signal(signal)
    }
}

impl<T, R: Default> SignalReciever<CursorMovedSignal, R> for Button<T> {
    /// The press state moves as for [`Button::take_cursor_moved`] and the
    /// result is the default one.
    open spec fn reaction(self, signal: CursorMovedSignal, after: Self, r: R) -> bool {
        &&& call_ensures(R::default, (), r)
        &&& after.press_state() == cursor_moved_step(
            self.press_state(),
            self.points().spec_contains(signal.norm_posx as int, signal.norm_posy as int),
        ).0
        &&& after.child() == self.child()
        &&& after.fill_area() == self.fill_area()
        &&& after.points() == self.points()
    }

    /// Moves the press state as [`Button::take_cursor_moved`] does and
    /// returns the default result.
    fn take_signal(&mut self, signal: &mut CursorMovedSignal) -> R {
        let _ = self.take_cursor_moved(&*signal);
        R::default()
    }
}

impl<T, R: Default> SignalReciever<MouseLeftDownSignal, R> for Button<T> {
    /// The press state moves as for [`Button::take_mouse_left_down`] and
    /// the result is the default one.
    open spec fn reaction(self, signal: MouseLeftDownSignal, after: Self, r: R) -> bool {
        &&& call_ensures(R::default, (), r)
        &&& after.press_state() == mouse_left_down_step(self.press_state()).0
        &&& after.child() == self.child()
        &&& after.fill_area() == self.fill_area()
        &&& after.points() == self.points()
    }

    /// Moves the press state as [`Button::take_mouse_left_down`] does and
    /// returns the default result.
    fn take_signal(&mut self, signal: &mut MouseLeftDownSignal) -> R {
        let _ = self.take_mouse_left_down(&*signal);
        R::default()
    }
}

impl<T, R: Default> SignalReciever<MouseLeftUpSignal, R> for Button<T> {
    /// The press state moves as for [`Button::take_mouse_left_up`] and the
    /// result is the default one.
    open spec fn reaction(self, signal: MouseLeftUpSignal, after: Self, r: R) -> bool {
        &&& call_ensures(R::default, (), r)
        &&& after.press_state() == mouse_left_up_step(self.press_state()).0
        &&& after.child() == self.child()
        &&& after.fill_area() == self.fill_area()
        &&& after.points() == self.points()
    }

    /// Moves the press state as [`Button::take_mouse_left_up`] does and
    /// returns the default result.
    fn take_signal(&mut self, signal: &mut MouseLeftUpSignal) -> R {
        let _ = self.take_mouse_left_up(&*signal);
        R::default()
    }
}

} // verus!
