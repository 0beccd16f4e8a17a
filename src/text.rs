//! Text laid out in a rectangle, with a drag-to-select state machine over
//! its characters.

use crate::construct::{Construct, LineTarget};
use crate::containers::{Fill, GetCenterPosition, GetPointBounds, Init, TranslateX, TranslateY};
use crate::geometry::{
    all_lines_can_move_x, all_lines_can_move_y, all_points_can_move_x, all_points_can_move_y,
    lemma_lines_moved_x_inverse, lemma_lines_moved_x_zero, lemma_points_moved_x_inverse,
    lemma_points_moved_x_zero, in_range, lines_moved_x, lines_moved_y, outline, points_moved_x, points_moved_y, spec_outline,
    translate_lines_x, translate_lines_y, translate_points_x, translate_points_y, Line, Points,
    SizeAndCenter, UNIT,
};
use crate::signal::{
    CharacterInputSignal, CursorMovedSignal, MouseLeftDownSignal, MouseLeftUpSignal,
    ReconstructCallback, ResizedSignal, SignalReciever,
};
use vstd::prelude::*;

verus! {

/// How a text is sized: not yet, or to fill a rectangle.
#[derive(Debug, Clone, Copy, PartialEq, Eq, Structural)]
pub enum TextSizeMode {
    Unconstrained,
    Fill(SizeAndCenter),
}

/// Which half of a character a point falls in.
#[derive(Debug, Clone, Copy, PartialEq, Eq, Structural)]
pub enum CharSide {
    Left,
    Right,
}

/// A grab handle at a character boundary: a character and one of its halves.
#[derive(Debug, Clone, Copy, PartialEq, Eq, Structural)]
pub struct DragPoint {
    pub char_index: usize,
    pub char_side: CharSide,
}

impl DragPoint {
    /// The character boundary the handle stands for: before the character
    /// for its left half, after it for its right half.
    pub open spec fn boundary(self) -> int {
        match self.char_side {
            CharSide::Left => self.char_index as int,
            CharSide::Right => self.char_index + 1,
        }
    }
}

/// A drag from `start` to the current point `end`.
#[derive(Debug, Clone, Copy, PartialEq, Eq, Structural)]
pub struct DragState {
    pub start: DragPoint,
    pub end: DragPoint,
}

/// The half-open range of characters between `start` and `end`; the
/// selection state machine always makes `start < end`.
#[derive(Debug, Clone, Copy, PartialEq, Eq, Structural)]
pub struct Selection {
    pub start: usize,
    pub end: usize,
}

/// The selection between two character boundaries: none when they are
/// equal, else the range from the smaller to the larger.
pub open spec fn selection_between(a: int, b: int) -> Option<Selection> {
    if a == b {
        None
    } else if a < b {
        Some(Selection { start: a as usize, end: b as usize })
    } else {
        Some(Selection { start: b as usize, end: a as usize })
    }
}

impl DragState {
    pub open spec fn selection(self) -> Option<Selection> {
        selection_between(self.start.boundary(), self.end.boundary())
    }

    /// Both handles stand for boundaries that a `usize` can hold.
    pub open spec fn addressable(self) -> bool {
        self.start.boundary() <= usize::MAX && self.end.boundary() <= usize::MAX
    }

    /// The selection that the drag covers (see [`selection_between`]).
    pub fn compute_selection(&self) -> (r: Option<Selection>)
        requires
            self.addressable(),
        ensures
            r == self.selection(),
    {
        let start = if self.start.char_side == CharSide::Left {
            self.start.char_index
        } else {
            self.start.char_index + 1
        };
        let end = if self.end.char_side == CharSide::Left {
            self.end.char_index
        } else {
            self.end.char_index + 1
        };
        if start == end {
            None
        } else if start < end {
            Some(Selection { start, end })
        } else {
            Some(Selection { start: end, end: start })
        }
    }

    /// Whether [`Self::compute_selection`] can be called on the drag.
    fn is_addressable(&self) -> (r: bool)
        ensures
            r == self.addressable(),
    {
        (self.start.char_side == CharSide::Left || self.start.char_index < usize::MAX) && (
        self.end.char_side == CharSide::Left || self.end.char_index < usize::MAX)
    }
}

#[derive(Debug, Clone, Copy, PartialEq, Eq, Structural)]
pub enum SelectState {
    Idle,
    /// A drag in progress and the selection it covers so far.
    Dragging(DragState, Option<Selection>),
    Selected(Selection),
}

/// What a signal did to the selection state.
#[derive(Debug, Clone, Copy, PartialEq, Eq, Structural)]
pub enum SelectStateCallback {
    NoChange,
    Update(SelectState),
}

/// The selection state after the left button goes up: a drag that covers a
/// selection leaves it selected, a drag that covers none leaves nothing.
pub open spec fn release_step(s: SelectState) -> SelectState {
    match s {
        SelectState::Dragging(_, Some(sel)) => SelectState::Selected(sel),
        SelectState::Dragging(_, None) => SelectState::Idle,
        _ => s,
    }
}

/// Dragging from the left half of character `i` to the right half of
/// character `j`, with `i <= j`, and releasing selects `i..j + 1`; a press
/// and release without movement selects nothing.
pub proof fn lemma_drag_release(i: usize, j: usize)
    requires
        i <= j < usize::MAX,
    ensures
        ({
            let d = DragState {
                start: DragPoint { char_index: i, char_side: CharSide::Left },
                end: DragPoint { char_index: j, char_side: CharSide::Right },
            };
            release_step(SelectState::Dragging(d, d.selection())) == SelectState::Selected(
                Selection { start: i, end: (j + 1) as usize },
            )
        }),
        forall|p: DragPoint|
            release_step(
                SelectState::Dragging(
                    DragState { start: p, end: p },
                    (DragState { start: p, end: p }).selection(),
                ),
            ) == SelectState::Idle,
{
}

/// A text laid out by shaping: its line segments, the box around all of it,
/// and one box per character, in the order of the characters.
#[derive(Debug, Clone)]
pub struct TextLayout {
    pub lines: Vec<Line>,
    pub bounds: Points,
    pub char_bounds: Vec<Points>,
}

/// Lays out text: shapes the glyphs of `text` and fits them into `target`
/// at the resolution (`resx`, `resy`).
pub trait TextShaper {
    fn shape(&self, text: &String, target: SizeAndCenter, resx: i64, resy: i64) -> TextLayout;
}

/// The first character, in index order, whose left or right half holds the
/// point (`x`, `y`), looking from index `i` on; the left half is tried first.
pub open spec fn first_hit(cb: Seq<Points>, x: int, y: int, i: int) -> Option<DragPoint>
    decreases cb.len() - i,
{
    if i < 0 || i >= cb.len() {
        None
    } else if cb[i].spec_left_contains(x, y) {
        Some(DragPoint { char_index: i as usize, char_side: CharSide::Left })
    } else if cb[i].spec_right_contains(x, y) {
        Some(DragPoint { char_index: i as usize, char_side: CharSide::Right })
    } else {
        first_hit(cb, x, y, i + 1)
    }
}

/// The outline of a selection over a layout: a box over the full height of
/// the text, from the left edge of the first selected character to the
/// right edge of the last one, whichever of its ends is written first; none
/// when the selection is empty or outside the layout's characters.
pub open spec fn selection_outline(layout: TextLayout, sel: Selection) -> Option<Seq<Line>> {
    let lo = if sel.start <= sel.end { sel.start } else { sel.end };
    let hi = if sel.start <= sel.end { sel.end } else { sel.start };
    if lo < hi <= layout.char_bounds@.len() {
        Some(
            spec_outline(
                layout.char_bounds@[lo as int].p1x,
                layout.char_bounds@[hi - 1].p2x,
                layout.bounds.p2y,
                layout.bounds.p1y,
            ),
        )
    } else {
        None
    }
}

/// The outline drawn for a selection state: the outline of the selection
/// being dragged or made, if any and if the text is laid out.
pub open spec fn state_outline(layout: Option<TextLayout>, state: SelectState) -> Option<Seq<Line>> {
    match (layout, state) {
        (Some(l), SelectState::Dragging(_, Some(sel))) => selection_outline(l, sel),
        (Some(l), SelectState::Selected(sel)) => selection_outline(l, sel),
        _ => None,
    }
}

/// The outline drawn for any selection state has the four sides of a box.
pub proof fn lemma_state_outline_four_sided(layout: Option<TextLayout>, state: SelectState)
    ensures
        state_outline(layout, state) matches Some(o) ==> o.len() == 4,
{
}

pub open spec fn opt_view(v: Option<Vec<Line>>) -> Option<Seq<Line>> {
    match v {
        Some(v) => Some(v@),
        None => None,
    }
}

/// Removes the last character of a string.
/// Relies on `String::pop`: it removes the last character and returns it,
/// and leaves an empty string as it is.
#[verifier::external_body]
fn pop_char(s: &mut String) -> (r: Option<char>)
    ensures
        old(s)@.len() == 0 ==> r is None && final(s)@ == old(s)@,
        old(s)@.len() > 0 ==> r == Some(old(s)@.last()) && final(s)@ == old(s)@.drop_last(),
{
    s.pop()
}

/// Appends a character to a string.
/// Relies on `String::push`: it appends the character at the end.
#[verifier::external_body]
pub(crate) fn push_char(s: &mut String, c: char)
    ensures
        final(s)@ == old(s)@.push(c),
{
    s.push(c)
}

/// A text laid out by a shaper `F`, with a cached layout, the last cursor
/// position and a selection state machine.
#[derive(Debug, Clone)]
pub struct Text<F> {
    text: String,
    face: F,
    size_mode: TextSizeMode,
    fill_points: Points,
    resx: i64,
    resy: i64,
    layout: Option<TextLayout>,
    mousex: i64,
    mousey: i64,
    select_state: SelectState,
    selection_lines: Option<Vec<Line>>,
}

impl<F> Text<F> {
    pub closed spec fn text(self) -> Seq<char> {
        self.text@
    }

    /// The text as the string handed to the shaper.
    pub closed spec fn text_string(self) -> String {
        self.text
    }

    pub closed spec fn face(self) -> F {
        self.face
    }

    pub closed spec fn size_mode(self) -> TextSizeMode {
        self.size_mode
    }

    /// The box of the rectangle the text was last given.
    pub closed spec fn fill_points(self) -> Points {
        self.fill_points
    }

    pub closed spec fn resolution(self) -> (i64, i64) {
        (self.resx, self.resy)
    }

    /// The layout cached from the last shaping, if any.
    pub closed spec fn layout(self) -> Option<TextLayout> {
        self.layout
    }

    /// The last cursor position received.
    pub closed spec fn mouse(self) -> (i64, i64) {
        (self.mousex, self.mousey)
    }

    pub closed spec fn select_state(self) -> SelectState {
        self.select_state
    }

    /// The cached outline of the selection, if any.
    pub closed spec fn selection_lines(self) -> Option<Seq<Line>> {
        opt_view(self.selection_lines)
    }

    /// The cached selection outline, if any, has the four sides of a box.
    pub open spec fn outline_four_sided(self) -> bool {
        self.selection_lines() matches Some(o) ==> o.len() == 4
    }

    /// The character boxes of the cached layout (empty when none).
    pub open spec fn char_boxes(self) -> Seq<Points> {
        match self.layout() {
            Some(l) => l.char_bounds@,
            None => Seq::empty(),
        }
    }

    /// The handle under the point (`x`, `y`), if the text is laid out.
    pub open spec fn hit(self, x: int, y: int) -> Option<DragPoint> {
        first_hit(self.char_boxes(), x, y, 0)
    }

    pub fn new(text: String, face: F) -> (r: Self)
        ensures
            r.text() == text@,
            r.face() == face,
            r.size_mode() == TextSizeMode::Unconstrained,
            r.resolution() == (UNIT, UNIT),
            r.layout() is None,
            r.select_state() == SelectState::Idle,
            r.selection_lines() is None,
    {
        Self::new_with_res(text, face, UNIT, UNIT)
    }

    pub fn new_with_res(text: String, face: F, resx: i64, resy: i64) -> (r: Self)
        ensures
            r.text() == text@,
            r.face() == face,
            r.size_mode() == TextSizeMode::Unconstrained,
            r.resolution() == (resx, resy),
            r.layout() is None,
            r.mouse() == ((-UNIT) as i64, (-UNIT) as i64),
            r.select_state() == SelectState::Idle,
            r.selection_lines() is None,
    {
        Text {
            text,
            face,
            size_mode: TextSizeMode::Unconstrained,
            fill_points: Points::zero(),
            resx,
            resy,
            layout: None,
            mousex: -UNIT,
            mousey: -UNIT,
            select_state: SelectState::Idle,
            selection_lines: None,
        }
    }

    pub fn get_text(&self) -> (r: &String)
        ensures
            r@ == self.text(),
    {
        &self.text
    }

    pub fn get_select_state(&self) -> (r: SelectState)
        ensures
            r == self.select_state(),
    {
        self.select_state
    }

    /// The box around all of the cached layout, if any.
    pub fn get_layout_bounds(&self) -> (r: Option<Points>)
        ensures
            r == (match self.layout() {
                Some(l) => Some(l.bounds),
                None => None,
            }),
    {
        match &self.layout {
            Some(l) => Some(l.bounds),
            None => None,
        }
    }

    /// The number of character boxes in the cached layout.
    pub fn char_count(&self) -> (r: usize)
        ensures
            r == self.char_boxes().len(),
    {
        match &self.layout {
            Some(l) => l.char_bounds.len(),
            None => 0,
        }
    }

    /// The handle under the point (`x`, `y`): the first character, in index
    /// order, whose left or right half holds it.
    fn pos_to_select_point(&self, x: i64, y: i64) -> (r: Option<DragPoint>)
        ensures
            r == self.hit(x as int, y as int),
            r matches Some(p) ==> p.char_index < self.char_boxes().len() && p.char_index
                < usize::MAX,
    {
        match &self.layout {
            Some(layout) => {
                let cb = &layout.char_bounds;
                let n = cb.len();
                let mut i: usize = 0;
                while i < n
                    invariant
                        n == cb@.len(),
                        cb@ == self.char_boxes(),
                        i <= n,
                        first_hit(cb@, x as int, y as int, 0) == first_hit(
                            cb@,
                            x as int,
                            y as int,
                            i as int,
                        ),
                    decreases n - i,
                {
                    if cb[i].left_contains(x, y) {
                        return Some(DragPoint { char_index: i, char_side: CharSide::Left });
                    } else if cb[i].right_contains(x, y) {
                        return Some(DragPoint { char_index: i, char_side: CharSide::Right });
                    }
                    i = i + 1;
                }
                None
            },
            None => None,
        }
    }

    /// The outline of a selection over the cached layout.
    fn selection_to_lines(&self, selection: &Selection) -> (r: Option<Vec<Line>>)
        requires
            self.layout() is Some,
        ensures
            opt_view(r) == selection_outline(self.layout().unwrap(), *selection),
    {
        match &self.layout {
            Some(layout) => {
                let (lo, hi) = if selection.start <= selection.end {
                    (selection.start, selection.end)
                } else {
                    (selection.end, selection.start)
                };
                if lo < hi && hi <= layout.char_bounds.len() {
                    let xmin = layout.char_bounds[lo].p1x;
                    let xmax = layout.char_bounds[hi - 1].p2x;
                    Some(outline(xmin, xmax, layout.bounds.p2y, layout.bounds.p1y))
                } else {
                    None
                }
            },
            None => None,
        }
    }

    /// Recomputes the cached outline from the selection state.
    fn compute_selection_lines(&mut self)
        ensures
            final(self).selection_lines() == state_outline(
                old(self).layout(),
                old(self).select_state(),
            ),
            final(self).text_string() == old(self).text_string(),
            final(self).text() == old(self).text(),
            final(self).face() == old(self).face(),
            final(self).size_mode() == old(self).size_mode(),
            final(self).fill_points() == old(self).fill_points(),
            final(self).resolution() == old(self).resolution(),
            final(self).layout() == old(self).layout(),
            final(self).mouse() == old(self).mouse(),
            final(self).select_state() == old(self).select_state(),
    {
        let selection_lines = if self.layout.is_none() {
            None
        } else {
            match &self.select_state {
                SelectState::Idle => None,
                SelectState::Dragging(_, selection) => match selection {
                    Some(selection) => self.selection_to_lines(selection),
                    None => None,
                },
                SelectState::Selected(selection) => self.selection_to_lines(selection),
            }
        };
        self.selection_lines = selection_lines;
    }
}

impl<F: TextShaper> Text<F> {
    /// The text fills a rectangle and its cached layout is a layout that the
    /// shaper returns for the text's current string, that rectangle and the
    /// current resolution.
    pub open spec fn shaped(self) -> bool {
        match (self.size_mode(), self.layout()) {
            (TextSizeMode::Fill(t), Some(l)) => call_ensures(
                F::shape,
                (&self.face(), &self.text_string(), t, self.resolution().0, self.resolution().1),
                l,
            ),
            _ => false,
        }
    }

    /// Shapes the text again into the rectangle it was given, if any.
    fn compute_chars(&mut self)
        ensures
            old(self).size_mode() is Unconstrained ==> final(self).layout() == old(self).layout(),
            old(self).size_mode() is Fill ==> final(self).shaped(),
            final(self).text_string() == old(self).text_string(),
            final(self).text() == old(self).text(),
            final(self).face() == old(self).face(),
            final(self).size_mode() == old(self).size_mode(),
            final(self).fill_points() == old(self).fill_points(),
            final(self).resolution() == old(self).resolution(),
            final(self).mouse() == old(self).mouse(),
            final(self).select_state() == old(self).select_state(),
            final(self).selection_lines() == old(self).selection_lines(),
    {
        match self.size_mode {
            TextSizeMode::Unconstrained => {},
            TextSizeMode::Fill(fill_target) => {
                let layout = self.face.shape(&self.text, fill_target, self.resx, self.resy);
                self.layout = Some(layout);
            },
        }
    }

    /// Replaces the text. A laid-out text is shaped again, and any selection
    /// is dropped.
    pub fn set_text(&mut self, new_text: String)
        ensures
            final(self).text_string() == new_text,
            final(self).text() == new_text@,
            final(self).select_state() == SelectState::Idle,
            final(self).selection_lines() is None,
            old(self).layout() is Some && old(self).size_mode() is Fill ==> final(self).shaped(),
            old(self).layout() is None || old(self).size_mode() is Unconstrained
                ==> final(self).layout() == old(self).layout(),
            final(self).face() == old(self).face(),
            final(self).size_mode() == old(self).size_mode(),
            final(self).fill_points() == old(self).fill_points(),
            final(self).resolution() == old(self).resolution(),
            final(self).mouse() == old(self).mouse(),
    {
        self.text = new_text;
        self.after_text_change();
    }

    /// Removes the last character, if any. A laid-out text is shaped again,
    /// and any selection is dropped.
    pub fn backspace(&mut self)
        ensures
            old(self).text().len() == 0 ==> final(self).text() == old(self).text(),
            old(self).text().len() > 0 ==> final(self).text() == old(self).text().drop_last(),
            final(self).select_state() == SelectState::Idle,
            final(self).selection_lines() is None,
            old(self).layout() is Some && old(self).size_mode() is Fill ==> final(self).shaped(),
            old(self).layout() is None || old(self).size_mode() is Unconstrained
                ==> final(self).layout() == old(self).layout(),
            final(self).face() == old(self).face(),
            final(self).size_mode() == old(self).size_mode(),
            final(self).fill_points() == old(self).fill_points(),
            final(self).resolution() == old(self).resolution(),
            final(self).mouse() == old(self).mouse(),
    {
        let _ = pop_char(&mut self.text);
        self.after_text_change();
    }

    fn after_text_change(&mut self)
        ensures
            final(self).text_string() == old(self).text_string(),
            final(self).text() == old(self).text(),
            final(self).select_state() == SelectState::Idle,
            final(self).selection_lines() is None,
            old(self).layout() is Some && old(self).size_mode() is Fill ==> final(self).shaped(),
            old(self).layout() is None || old(self).size_mode() is Unconstrained
                ==> final(self).layout() == old(self).layout(),
            final(self).face() == old(self).face(),
            final(self).size_mode() == old(self).size_mode(),
            final(self).fill_points() == old(self).fill_points(),
            final(self).resolution() == old(self).resolution(),
            final(self).mouse() == old(self).mouse(),
    {
        if self.layout.is_some() {
            self.compute_chars();
        }
        self.select_state = SelectState::Idle;
        self.selection_lines = None;
    }
}


/// The selection state after the cursor moves onto `hit`: a drag follows
/// the cursor to a new handle; anything else stays as it is.
pub open spec fn drag_step(s: SelectState, hit: Option<DragPoint>) -> SelectState {
    match (s, hit) {
        (SelectState::Dragging(d, _), Some(p)) => {
            let moved = DragState { start: d.start, end: p };
            if d.end != p && moved.addressable() {
                SelectState::Dragging(moved, moved.selection())
            } else {
                s
            }
        },
        _ => s,
    }
}

/// A cursor move reports an update exactly when it changed the selection
/// that a drag covers.
pub open spec fn drag_result(before: SelectState, after: SelectState) -> SelectStateCallback {
    match (before, after) {
        (SelectState::Dragging(_, a), SelectState::Dragging(_, b)) => if a != b {
            SelectStateCallback::Update(after)
        } else {
            SelectStateCallback::NoChange
        },
        _ => SelectStateCallback::NoChange,
    }
}

/// The selection state after the left button goes down over `hit`: a new
/// drag starts at a hit handle; a press beside the characters clears it.
pub open spec fn press_step(s: SelectState, hit: Option<DragPoint>) -> SelectState {
    match hit {
        Some(p) => SelectState::Dragging(DragState { start: p, end: p }, None),
        None => SelectState::Idle,
    }
}

/// `b` is the layout `a` moved by `dx` along x.
pub open spec fn layout_moved_x(a: Option<TextLayout>, b: Option<TextLayout>, dx: int) -> bool {
    match (a, b) {
        (Some(a), Some(b)) => {
            &&& b.lines@ == lines_moved_x(a.lines@, dx)
            &&& b.bounds == a.bounds.moved_x(dx)
            &&& b.char_bounds@ == points_moved_x(a.char_bounds@, dx)
        },
        (None, None) => true,
        _ => false,
    }
}

/// `b` is the layout `a` moved by `dy` along y.
pub open spec fn layout_moved_y(a: Option<TextLayout>, b: Option<TextLayout>, dy: int) -> bool {
    match (a, b) {
        (Some(a), Some(b)) => {
            &&& b.lines@ == lines_moved_y(a.lines@, dy)
            &&& b.bounds == a.bounds.moved_y(dy)
            &&& b.char_bounds@ == points_moved_y(a.char_bounds@, dy)
        },
        (None, None) => true,
        _ => false,
    }
}

pub open spec fn layout_can_move_x(a: Option<TextLayout>, dx: int) -> bool {
    match a {
        Some(a) => {
            &&& all_lines_can_move_x(a.lines@, dx)
            &&& a.bounds.can_move_x(dx)
            &&& all_points_can_move_x(a.char_bounds@, dx)
        },
        None => true,
    }
}

pub open spec fn layout_can_move_y(a: Option<TextLayout>, dy: int) -> bool {
    match a {
        Some(a) => {
            &&& all_lines_can_move_y(a.lines@, dy)
            &&& a.bounds.can_move_y(dy)
            &&& all_points_can_move_y(a.char_bounds@, dy)
        },
        None => true,
    }
}

pub open spec fn outline_moved_x(a: Option<Seq<Line>>, b: Option<Seq<Line>>, dx: int) -> bool {
    match (a, b) {
        (Some(a), Some(b)) => b == lines_moved_x(a, dx),
        (None, None) => true,
        _ => false,
    }
}

pub open spec fn outline_moved_y(a: Option<Seq<Line>>, b: Option<Seq<Line>>, dy: int) -> bool {
    match (a, b) {
        (Some(a), Some(b)) => b == lines_moved_y(a, dy),
        (None, None) => true,
        _ => false,
    }
}

pub open spec fn mode_moved_x(m: TextSizeMode, dx: int) -> TextSizeMode {
    match m {
        TextSizeMode::Fill(t) => TextSizeMode::Fill(SizeAndCenter { cx: (t.cx + dx) as i64, ..t }),
        TextSizeMode::Unconstrained => m,
    }
}

pub open spec fn mode_moved_y(m: TextSizeMode, dy: int) -> TextSizeMode {
    match m {
        TextSizeMode::Fill(t) => TextSizeMode::Fill(SizeAndCenter { cy: (t.cy + dy) as i64, ..t }),
        TextSizeMode::Unconstrained => m,
    }
}

/// The view of a cached layout, by value.
pub open spec fn layout_view(a: Option<TextLayout>) -> Option<(Seq<Line>, Points, Seq<Points>)> {
    match a {
        Some(a) => Some((a.lines@, a.bounds, a.char_bounds@)),
        None => None,
    }
}

impl<F> Text<F> {
    /// Everything that the text caches about its geometry, its content and
    /// its selection agrees between `self` and `other`.
    pub open spec fn same_geometry(self, other: Self) -> bool {
        &&& other.text() == self.text()
        &&& other.size_mode() == self.size_mode()
        &&& other.fill_points() == self.fill_points()
        &&& layout_view(other.layout()) == layout_view(self.layout())
        &&& other.selection_lines() == self.selection_lines()
        &&& other.select_state() == self.select_state()
        &&& other.resolution() == self.resolution()
    }

    /// A resize: the new resolution is recorded and the text shaped again
    /// into its rectangle, if it has one, and the outline redrawn; a rebuild
    /// is asked for exactly then.
    pub open spec fn resized_reaction(self, signal: ResizedSignal, after: Self, rebuild: bool) -> bool where
        F: TextShaper,
     {
        &&& rebuild == (self.size_mode() is Fill)
        &&& after.resolution() == (signal.resx, signal.resy)
        &&& (self.size_mode() is Fill ==> after.shaped())
        &&& after.text_string() == self.text_string()
        &&& after.outline_four_sided()
        &&& (self.size_mode() is Unconstrained ==> after.layout() == self.layout())
        &&& after.selection_lines() == state_outline(after.layout(), self.select_state())
        &&& after.text() == self.text()
        &&& after.face() == self.face()
        &&& after.size_mode() == self.size_mode()
        &&& after.fill_points() == self.fill_points()
        &&& after.select_state() == self.select_state()
        &&& after.mouse() == self.mouse()
    }

    /// A cursor move: the position is recorded and a drag follows the handle
    /// under it. A rebuild is asked for, and the outline redrawn, exactly
    /// when the dragged selection changed.
    pub open spec fn cursor_moved_reaction(
        self,
        signal: CursorMovedSignal,
        after: Self,
        rebuild: bool,
    ) -> bool {
        &&& after.mouse() == (signal.norm_posx, signal.norm_posy)
        &&& after.select_state() == drag_step(
            self.select_state(),
            self.hit(signal.norm_posx as int, signal.norm_posy as int),
        )
        &&& rebuild == (drag_result(self.select_state(), after.select_state())
            != SelectStateCallback::NoChange)
        &&& after.selection_lines() == if rebuild {
            state_outline(after.layout(), after.select_state())
        } else {
            self.selection_lines()
        }
        &&& (self.outline_four_sided() ==> after.outline_four_sided())
        &&& after.text() == self.text()
        &&& after.face() == self.face()
        &&& after.size_mode() == self.size_mode()
        &&& after.layout() == self.layout()
        &&& after.fill_points() == self.fill_points()
        &&& after.resolution() == self.resolution()
    }

    /// A press: a drag starts at the handle under the last cursor position,
    /// or the selection is cleared when the cursor is beside the characters.
    /// A rebuild is asked for exactly when a handle was hit or something was
    /// selected or dragged.
    pub open spec fn mouse_left_down_reaction(self, after: Self, rebuild: bool) -> bool {
        let hit = self.hit(self.mouse().0 as int, self.mouse().1 as int);
        &&& after.select_state() == press_step(self.select_state(), hit)
        &&& rebuild == (hit is Some || self.select_state() != SelectState::Idle)
        &&& after.selection_lines() == if rebuild {
            None
        } else {
            self.selection_lines()
        }
        &&& (self.outline_four_sided() ==> after.outline_four_sided())
        &&& after.text() == self.text()
        &&& after.face() == self.face()
        &&& after.size_mode() == self.size_mode()
        &&& after.layout() == self.layout()
        &&& after.fill_points() == self.fill_points()
        &&& after.resolution() == self.resolution()
        &&& after.mouse() == self.mouse()
    }

    /// A release: what a drag covered becomes the selection.
    pub open spec fn mouse_left_up_reaction(self, after: Self) -> bool {
        &&& after.select_state() == release_step(self.select_state())
        &&& after.selection_lines() == self.selection_lines()
        &&& (self.outline_four_sided() ==> after.outline_four_sided())
        &&& after.text() == self.text()
        &&& after.face() == self.face()
        &&& after.size_mode() == self.size_mode()
        &&& after.layout() == self.layout()
        &&& after.fill_points() == self.fill_points()
        &&& after.resolution() == self.resolution()
        &&& after.mouse() == self.mouse()
    }

    /// Records the new resolution and shapes the text again; asks for a
    /// rebuild when the text is laid out in a rectangle.
    pub fn take_resized(&mut self, signal: &ResizedSignal) -> (r: ReconstructCallback<LineTarget>)
        where F: TextShaper
        ensures
            old(self).resized_reaction(*signal, *final(self), r@),
    {
        self.resx = signal.resx;
        self.resy = signal.resy;
        self.compute_chars();
        self.compute_selection_lines();
        match self.size_mode {
            TextSizeMode::Fill(_) => ReconstructCallback::new(true),
            TextSizeMode::Unconstrained => ReconstructCallback::new(false),
        }
    }

    /// Records the cursor position and lets a drag follow it. Reports an
    /// update, and asks for a rebuild, exactly when the selection changed.
    pub fn take_cursor_moved(&mut self, signal: &CursorMovedSignal) -> (r: (
        ReconstructCallback<LineTarget>,
        SelectStateCallback,
    ))
        ensures
            old(self).cursor_moved_reaction(*signal, *final(self), r.0@),
            r.1 == drag_result(old(self).select_state(), final(self).select_state()),
    {
        self.mousex = signal.norm_posx;
        self.mousey = signal.norm_posy;
        match self.pos_to_select_point(signal.norm_posx, signal.norm_posy) {
            Some(select_point) => {
                match self.select_state {
                    SelectState::Dragging(drag_state, selection) => {
                        let moved = DragState { start: drag_state.start, end: select_point };
                        if drag_state.end != select_point && moved.is_addressable() {
                            let new_selection = moved.compute_selection();
                            self.select_state = SelectState::Dragging(moved, new_selection);
                            if new_selection != selection {
                                self.compute_selection_lines();
                                (
                                    ReconstructCallback::new(true),
                                    SelectStateCallback::Update(self.select_state),
                                )
                            } else {
                                (ReconstructCallback::new(false), SelectStateCallback::NoChange)
                            }
                        } else {
                            (ReconstructCallback::new(false), SelectStateCallback::NoChange)
                        }
                    },
                    _ => (ReconstructCallback::new(false), SelectStateCallback::NoChange),
                }
            },
            None => (ReconstructCallback::new(false), SelectStateCallback::NoChange),
        }
    }

    /// Starts a drag at the handle under the last cursor position, or clears
    /// the selection when the cursor is beside the characters.
    pub fn take_mouse_left_down(&mut self, _signal: &MouseLeftDownSignal) -> (r: (
        ReconstructCallback<LineTarget>,
        SelectStateCallback,
    ))
        ensures
            old(self).mouse_left_down_reaction(*final(self), r.0@),
            r.1 == if r.0@ {
                SelectStateCallback::Update(final(self).select_state())
            } else {
                SelectStateCallback::NoChange
            },
    {
        match self.pos_to_select_point(self.mousex, self.mousey) {
            Some(drag_point) => {
                let drag_state = DragState { start: drag_point, end: drag_point };
                let selection = drag_state.compute_selection();
                self.select_state = SelectState::Dragging(drag_state, selection);
                self.compute_selection_lines();
                (ReconstructCallback::new(true), SelectStateCallback::Update(self.select_state))
            },
            None => {
                if self.select_state == SelectState::Idle {
                    (ReconstructCallback::new(false), SelectStateCallback::NoChange)
                } else {
                    self.select_state = SelectState::Idle;
                    self.compute_selection_lines();
                    (ReconstructCallback::new(true), SelectStateCallback::Update(self.select_state))
                }
            },
        }
    }

    /// Ends a drag: what it covered becomes the selection.
    pub fn take_mouse_left_up(&mut self, _signal: &MouseLeftUpSignal) -> (r: SelectStateCallback)
        ensures
            old(self).mouse_left_up_reaction(*final(self)),
            r == if old(self).select_state() is Dragging {
                SelectStateCallback::Update(final(self).select_state())
            } else {
                SelectStateCallback::NoChange
            },
    {
        match self.select_state {
            SelectState::Idle | SelectState::Selected(_) => SelectStateCallback::NoChange,
            SelectState::Dragging(_, selection) => {
                match selection {
                    Some(selection) => self.select_state = SelectState::Selected(selection),
                    None => self.select_state = SelectState::Idle,
                }
                SelectStateCallback::Update(self.select_state)
            },
        }
    }
}

impl<F> Construct<LineTarget> for Text<F> {
    /// The layout's segments followed by the selection outline, if any.
    open spec fn constructed(&self) -> Seq<Line> {
        match self.layout() {
            Some(l) => l.lines@ + match self.selection_lines() {
                Some(o) => o,
                None => Seq::empty(),
            },
            None => Seq::empty(),
        }
    }

    fn construct(&self) -> (r: LineTarget)
        ensures
            self.outline_four_sided() ==> r.0@.len() == match self.layout() {
                Some(l) => l.lines@.len() + if self.selection_lines() is Some {
                    4int
                } else {
                    0int
                },
                None => 0int,
            },
    {
        match &self.layout {
            Some(layout) => {
                let mut lines = layout.lines.clone();
                assert(lines@ == layout.lines@);
                match &self.selection_lines {
                    Some(selection_lines) => {
                        let mut extra = selection_lines.clone();
                        assert(extra@ == selection_lines@);
                        lines.append(&mut extra);
                    },
                    None => {
                        assert(lines@ =~= lines@ + Seq::<Line>::empty());
                    },
                }
                LineTarget(lines)
            },
            None => LineTarget(Vec::new()),
        }
    }
}

impl<F> Init for Text<F> {
    open spec fn can_init(&self) -> bool {
        true
    }

    open spec fn initialized(self, after: Self) -> bool {
        after == self
    }

    fn init(&mut self) {
    }
}

impl<F: TextShaper> Fill for Text<F> {
    open spec fn can_fill(&self) -> bool {
        true
    }

    /// The text is shaped into the rectangle and the selection outline is
    /// drawn over the new layout.
    open spec fn filled(self, target: SizeAndCenter, after: Self) -> bool {
        &&& after.size_mode() == TextSizeMode::Fill(target)
        &&& after.fill_points() == target.spec_points()
        &&& after.shaped()
        &&& after.text_string() == self.text_string()
        &&& after.outline_four_sided()
        &&& after.selection_lines() == state_outline(after.layout(), self.select_state())
        &&& after.text() == self.text()
        &&& after.face() == self.face()
        &&& after.resolution() == self.resolution()
        &&& after.select_state() == self.select_state()
        &&& after.mouse() == self.mouse()
    }

    fn fill(&mut self, fill_target: SizeAndCenter) {
        self.size_mode = TextSizeMode::Fill(fill_target);
        self.fill_points = fill_target.to_points();
        self.compute_chars();
        self.compute_selection_lines();
    }
}

impl<F> TranslateX for Text<F> {
    open spec fn can_translate_x(&self, dx: int) -> bool {
        &&& (self.size_mode() matches TextSizeMode::Fill(t) ==> in_range(t.cx + dx))
        &&& self.fill_points().can_move_x(dx)
        &&& layout_can_move_x(self.layout(), dx)
        &&& (self.selection_lines() matches Some(v) ==> all_lines_can_move_x(v, dx))
    }


    /// Every cached coordinate moves by `dx`: the rectangle, its box, the
    /// layout's segments, bounds and character boxes, and the selection
    /// outline.
    open spec fn is_moved_x(self, other: Self, dx: int) -> bool {
        &&& other.text() == self.text()
        &&& other.face() == self.face()
        &&& other.size_mode() == mode_moved_x(self.size_mode(), dx)
        &&& other.fill_points() == self.fill_points().moved_x(dx)
        &&& layout_moved_x(self.layout(), other.layout(), dx)
        &&& outline_moved_x(self.selection_lines(), other.selection_lines(), dx)
        &&& other.resolution() == self.resolution()
        &&& other.mouse() == self.mouse()
        &&& other.select_state() == self.select_state()
    }


    fn translate_x(&mut self, dx: i64)
        ensures
            old(self).outline_four_sided() ==> final(self).outline_four_sided(),
    {
        match &mut self.size_mode {
            TextSizeMode::Fill(size_and_center) => {
                size_and_center.cx = size_and_center.cx + dx;
            },
            TextSizeMode::Unconstrained => {},
        }
        self.fill_points.translate_x(dx);
        match &mut self.layout {
            Some(layout) => {
                translate_lines_x(&mut layout.lines, dx);
                layout.bounds.translate_x(dx);
                translate_points_x(&mut layout.char_bounds, dx);
            },
            None => {},
        }
        match &mut self.selection_lines {
            Some(selection_lines) => translate_lines_x(selection_lines, dx),
            None => {},
        }
    }
}

impl<F> TranslateY for Text<F> {
    open spec fn can_translate_y(&self, dy: int) -> bool {
        &&& (self.size_mode() matches TextSizeMode::Fill(t) ==> in_range(t.cy + dy))
        &&& self.fill_points().can_move_y(dy)
        &&& layout_can_move_y(self.layout(), dy)
        &&& (self.selection_lines() matches Some(v) ==> all_lines_can_move_y(v, dy))
    }


    /// Every cached coordinate moves by `dy` (see [`TranslateX::is_moved_x`]).
    open spec fn is_moved_y(self, other: Self, dy: int) -> bool {
        &&& other.text() == self.text()
        &&& other.face() == self.face()
        &&& other.size_mode() == mode_moved_y(self.size_mode(), dy)
        &&& other.fill_points() == self.fill_points().moved_y(dy)
        &&& layout_moved_y(self.layout(), other.layout(), dy)
        &&& outline_moved_y(self.selection_lines(), other.selection_lines(), dy)
        &&& other.resolution() == self.resolution()
        &&& other.mouse() == self.mouse()
        &&& other.select_state() == self.select_state()
    }


    fn translate_y(&mut self, dy: i64)
        ensures
            old(self).outline_four_sided() ==> final(self).outline_four_sided(),
    {
        match &mut self.size_mode {
            TextSizeMode::Fill(size_and_center) => {
                size_and_center.cy = size_and_center.cy + dy;
            },
            TextSizeMode::Unconstrained => {},
        }
        self.fill_points.translate_y(dy);
        match &mut self.layout {
            Some(layout) => {
                translate_lines_y(&mut layout.lines, dy);
                layout.bounds.translate_y(dy);
                translate_points_y(&mut layout.char_bounds, dy);
            },
            None => {},
        }
        match &mut self.selection_lines {
            Some(selection_lines) => translate_lines_y(selection_lines, dy),
            None => {},
        }
    }
}

/// Moving a text by zero along x changes nothing that it caches.
pub proof fn lemma_text_translate_x_zero<F>(a: Text<F>, b: Text<F>)
    requires
        a.is_moved_x(b, 0),
    ensures
        a.same_geometry(b),
{
    if let Some(l) = a.layout() {
        lemma_lines_moved_x_zero(l.lines@);
        lemma_points_moved_x_zero(l.char_bounds@);
    }
    if let Some(v) = a.selection_lines() {
        lemma_lines_moved_x_zero(v);
    }
}

/// Moving a text by `dx` along x and then by `-dx` restores every cached
/// coordinate.
pub proof fn lemma_text_translate_x_round_trip<F>(a: Text<F>, b: Text<F>, c: Text<F>, dx: int)
    requires
        a.can_translate_x(dx),
        a.is_moved_x(b, dx),
        b.is_moved_x(c, -dx),
    ensures
        a.same_geometry(c),
{
    if let Some(l) = a.layout() {
        lemma_lines_moved_x_inverse(l.lines@, dx);
        lemma_points_moved_x_inverse(l.char_bounds@, dx);
    }
    if let Some(v) = a.selection_lines() {
        lemma_lines_moved_x_inverse(v, dx);
    }
}

impl<F: TextShaper> SignalReciever<ResizedSignal, ReconstructCallback<LineTarget>> for Text<F> {
    open spec fn reaction(
        self,
        signal: ResizedSignal,
        after: Self,
        r: ReconstructCallback<LineTarget>,
    ) -> bool {
        self.resized_reaction(signal, after, r@)
    }

    fn take_signal(&mut self, signal: &mut ResizedSignal) -> ReconstructCallback<LineTarget> {
        self.take_resized(&*signal)
    }
}

impl<F> SignalReciever<CursorMovedSignal, ReconstructCallback<LineTarget>> for Text<F> {
    open spec fn reaction(
        self,
        signal: CursorMovedSignal,
        after: Self,
        r: ReconstructCallback<LineTarget>,
    ) -> bool {
        self.cursor_moved_reaction(signal, after, r@)
    }

    fn take_signal(&mut self, signal: &mut CursorMovedSignal) -> ReconstructCallback<LineTarget> {
        let (reconstruct_callback, _) = self.take_cursor_moved(&*signal);
        reconstruct_callback
    }
}

impl<F> SignalReciever<MouseLeftDownSignal, ReconstructCallback<LineTarget>> for Text<F> {
    open spec fn reaction(
        self,
        signal: MouseLeftDownSignal,
        after: Self,
        r: ReconstructCallback<LineTarget>,
    ) -> bool {
        self.mouse_left_down_reaction(after, r@)
    }

    fn take_signal(&mut self, signal: &mut MouseLeftDownSignal) -> ReconstructCallback<LineTarget> {
        let (reconstruct_callback, _) = self.take_mouse_left_down(&*signal);
        reconstruct_callback
    }
}

impl<F, R: Default> SignalReciever<MouseLeftUpSignal, R> for Text<F> {
    /// The selection moves as for [`Text::take_mouse_left_up`] and the
    /// result is the default one.
    open spec fn reaction(self, signal: MouseLeftUpSignal, after: Self, r: R) -> bool {
        self.mouse_left_up_reaction(after) && call_ensures(R::default, (), r)
    }

    fn take_signal(&mut self, signal: &mut MouseLeftUpSignal) -> R {
        let _ = self.take_mouse_left_up(&*signal);
        R::default()
    }
}

impl<F, R: Default> SignalReciever<CharacterInputSignal, R> for Text<F> {
    /// Typing goes to a text field, not to a text: nothing changes and the
    /// result is the default one.
    open spec fn reaction(self, signal: CharacterInputSignal, after: Self, r: R) -> bool {
        after == self && call_ensures(R::default, (), r)
    }

    fn take_signal(&mut self, _signal: &mut CharacterInputSignal) -> R {
        R::default()
    }
}

impl<F> GetPointBounds for Text<F> {
    /// The text has been given a rectangle.
    open spec fn has_bounds(&self) -> bool {
        self.size_mode() is Fill
    }

    /// The box of the rectangle the text fills.
    open spec fn point_bounds(&self) -> Points {
        self.fill_points()
    }

    fn get_point_bounds(&self) -> (r: Points) {
        self.fill_points
    }
}

impl<F> GetCenterPosition for Text<F> {
    open spec fn center(&self) -> Option<(int, int)> {
        match self.size_mode() {
            TextSizeMode::Fill(t) => Some((t.cx as int, t.cy as int)),
            TextSizeMode::Unconstrained => None,
        }
    }

    fn get_center_position(&self) -> (r: (i64, i64)) {
        match self.size_mode {
            TextSizeMode::Fill(fill) => (fill.cx, fill.cy),
            TextSizeMode::Unconstrained => (0, 0),
        }
    }
}

} // verus!
