//! Capabilities that widgets implement, and the containers that compose
//! children over them.

use crate::construct::{Construct, StandardConstructTarget};
use crate::geometry::{in_range, Fraction, Points, SizeAndCenter};
use crate::signal::{ShortCircuitingCallback, SignalReciever};
use vstd::prelude::*;

verus! {

/// Takes an exact target rectangle.
pub trait Fill: Sized {
    /// The widget's own settings allow a layout.
    spec fn can_fill(&self) -> bool;

    /// `after` is this widget laid out in `target`.
    spec fn filled(self, target: SizeAndCenter, after: Self) -> bool;

    fn fill(&mut self, fill_target: SizeAndCenter)
        requires
            old(self).can_fill(),
            fill_target.wf(),
        ensures
            final(self).can_fill(),
            old(self).filled(fill_target, *final(self)),
    ;
}

/// Width-driven layout: takes a width (`sx` is the half-width), a center x
/// and the y of its top edge, and returns the y where the next widget below
/// it begins.
pub trait FillWidth: Sized {
    /// The height that the widget takes up below the top edge it is given.
    spec fn width_height(&self) -> int;

    /// `after` is this widget laid out at the width and top edge given.
    spec fn width_filled(self, sx: u32, cx: i64, ty: i64, after: Self) -> bool;

    /// The layout at this width and top edge stays in representable
    /// coordinates.
    spec fn can_fill_width(&self, sx: u32, cx: i64, ty: i64) -> bool;

    fn fill_width(&mut self, sx: u32, cx: i64, ty: i64) -> (r: i64)
        requires
            old(self).can_fill_width(sx, cx, ty),
        ensures
            r == ty - old(self).width_height(),
            old(self).width_filled(sx, cx, ty, *final(self)),
    ;
}

/// Lays out children that received their geometry at construction.
pub trait Init: Sized {
    spec fn can_init(&self) -> bool;

    /// `after` is this widget with its children laid out.
    spec fn initialized(self, after: Self) -> bool;

    fn init(&mut self)
        requires
            old(self).can_init(),
        ensures
            old(self).initialized(*final(self)),
    ;
}

pub trait GetHeight {
    spec fn height(&self) -> int;

    fn get_height(&self) -> (h: i64)
        ensures
            h == self.height(),
    ;
}

pub trait GetCenterPosition {
    /// The center, or `None` while the widget has no geometry yet.
    spec fn center(&self) -> Option<(int, int)>;

    fn get_center_position(&self) -> (r: (i64, i64))
        requires
            self.center() is Some,
        ensures
            self.center() == Some((r.0 as int, r.1 as int)),
    ;
}

/// Places a widget by the center of its top edge.
pub trait SetCenterTopPosition: GetHeight {
    /// The center of the top edge, or `None` for a widget without a position.
    spec fn center_top(&self) -> Option<(int, int)>;

    spec fn can_set_center_top(&self, cx: i64, ty: i64) -> bool;

    fn set_center_top_position(&mut self, cx: i64, ty: i64)
        requires
            old(self).can_set_center_top(cx, ty),
        ensures
            final(self).center_top() == (if old(self).center_top() is Some {
                Some((cx as int, ty as int))
            } else {
                None
            }),
            final(self).height() == old(self).height(),
    ;
}

/// Moves a widget and everything it caches along x, without a new layout.
pub trait TranslateX: Sized {
    spec fn can_translate_x(&self, dx: int) -> bool;

    /// `other` is `self` moved by `dx` along x.
    spec fn is_moved_x(self, other: Self, dx: int) -> bool;

    fn translate_x(&mut self, dx: i64)
        requires
            old(self).can_translate_x(dx as int),
        ensures
            old(self).is_moved_x(*final(self), dx as int),
    ;
}

/// Moves a widget and everything it caches along y, without a new layout.
pub trait TranslateY: Sized {
    spec fn can_translate_y(&self, dy: int) -> bool;

    /// `other` is `self` moved by `dy` along y.
    spec fn is_moved_y(self, other: Self, dy: int) -> bool;

    fn translate_y(&mut self, dy: i64)
        requires
            old(self).can_translate_y(dy as int),
        ensures
            old(self).is_moved_y(*final(self), dy as int),
    ;
}

pub trait GetPointBounds {
    /// The widget has geometry: asking for its bounds before that is a usage
    /// error.
    spec fn has_bounds(&self) -> bool;

    spec fn point_bounds(&self) -> Points;

    fn get_point_bounds(&self) -> (r: Points)
        requires
            self.has_bounds(),
        ensures
            r == self.point_bounds(),
    ;
}

/// Gives its child a fixed rectangle.
pub struct FillContainer<T> {
    child: T,
    fill_target: SizeAndCenter,
}

impl<T> FillContainer<T> {
    pub closed spec fn child(self) -> T {
        self.child
    }

    pub closed spec fn fill_target(self) -> SizeAndCenter {
        self.fill_target
    }

    pub fn new(child: T, fill_target: SizeAndCenter) -> (r: Self)
        requires
            fill_target.wf(),
        ensures
            r.child() == child,
            r.fill_target() == fill_target,
    {
        Self { child, fill_target }
    }

    pub fn get_fill_target(&self) -> (r: SizeAndCenter)
        ensures
            r == self.fill_target(),
    {
        self.fill_target
    }
}

impl<C: StandardConstructTarget, T: Construct<C>> Construct<C> for FillContainer<T> {
    open spec fn constructed(&self) -> Seq<C::Item> {
        self.child().constructed()
    }

    fn construct(&self) -> (r: C) {
        self.child.construct()
    }
}

impl<T> GetHeight for FillContainer<T> {
    open spec fn height(&self) -> int {
        2 * self.fill_target().sy
    }

    fn get_height(&self) -> (h: i64) {
        self.fill_target.sy as i64 * 2
    }
}

impl<T> SetCenterTopPosition for FillContainer<T> {
    open spec fn center_top(&self) -> Option<(int, int)> {
        Some((self.fill_target().cx as int, self.fill_target().top()))
    }

    open spec fn can_set_center_top(&self, cx: i64, ty: i64) -> bool {
        SizeAndCenter { cx, cy: (ty - self.fill_target().sy) as i64, ..self.fill_target() }.wf()
            && in_range(ty - self.fill_target().sy)
    }

    fn set_center_top_position(&mut self, cx: i64, ty: i64) {
        let sy = self.fill_target.sy as i64;
        self.fill_target = SizeAndCenter { cx, cy: ty - sy, ..self.fill_target };
    }
}

impl<T: Fill> Init for FillContainer<T> {
    open spec fn can_init(&self) -> bool {
        self.fill_target().wf() && self.child().can_fill()
    }

    /// The child is laid out in the fixed rectangle.
    open spec fn initialized(self, after: Self) -> bool {
        after.fill_target() == self.fill_target() && self.child().filled(
            self.fill_target(),
            after.child(),
        )
    }

    fn init(&mut self) {
        let target = self.fill_target;
        self.child.fill(target);
    }
}

impl<R, T: SignalReciever<S, R>, S> SignalReciever<S, R> for FillContainer<T> {
    /// The child reacts; the rectangle stays.
    open spec fn reaction(self, signal: S, after: Self, r: R) -> bool {
        after.fill_target() == self.fill_target() && self.child().reaction(signal, after.child(), r)
    }

    fn take_signal(&mut self, signal: &mut S) -> R {
        self.child.take_signal(signal)
    }
}

/// Gives its child a rectangle of fixed height in a width-driven layout.
pub struct HeightContainer<T> {
    child: T,
    sy: u32,
}

impl<T> HeightContainer<T> {
    pub closed spec fn child(self) -> T {
        self.child
    }

    /// The half-height of the rectangle given to the child.
    pub closed spec fn sy(self) -> u32 {
        self.sy
    }

    pub fn new(child: T, sy: u32) -> (r: Self)
        ensures
            r.child() == child,
            r.sy() == sy,
    {
        Self { child, sy }
    }

    /// The rectangle that `fill_width(sx, cx, ty)` gives the child.
    pub open spec fn target(self, sx: u32, cx: i64, ty: i64) -> SizeAndCenter {
        SizeAndCenter { sx, sy: self.sy(), cx, cy: (ty - self.sy()) as i64 }
    }
}

impl<T: Init> Init for HeightContainer<T> {
    open spec fn can_init(&self) -> bool {
        self.child().can_init()
    }

    open spec fn initialized(self, after: Self) -> bool {
        after.sy() == self.sy() && self.child().initialized(after.child())
    }

    fn init(&mut self) {
        self.child.init();
    }
}

impl<T: Fill> FillWidth for HeightContainer<T> {
    open spec fn width_height(&self) -> int {
        2 * self.sy()
    }

    /// The child is laid out in the rectangle of the given width, the fixed
    /// height, centered at `cx`, with its top edge at `ty`.
    open spec fn width_filled(self, sx: u32, cx: i64, ty: i64, after: Self) -> bool {
        after.sy() == self.sy() && self.child().filled(self.target(sx, cx, ty), after.child())
    }

    open spec fn can_fill_width(&self, sx: u32, cx: i64, ty: i64) -> bool {
        &&& self.child().can_fill()
        &&& in_range(ty - 2 * self.sy())
        &&& self.target(sx, cx, ty).wf()
    }

    fn fill_width(&mut self, sx: u32, cx: i64, ty: i64) -> (r: i64) {
        let sy = self.sy as i64;
        self.child.fill(SizeAndCenter { sx, sy: self.sy, cx, cy: ty - sy });
        ty - sy * 2
    }
}

impl<C: StandardConstructTarget, T: Construct<C>> Construct<C> for HeightContainer<T> {
    open spec fn constructed(&self) -> Seq<C::Item> {
        self.child().constructed()
    }

    fn construct(&self) -> (r: C) {
        self.child.construct()
    }
}

impl<T: TranslateX> TranslateX for HeightContainer<T> {
    open spec fn can_translate_x(&self, dx: int) -> bool {
        self.child().can_translate_x(dx)
    }

    open spec fn is_moved_x(self, other: Self, dx: int) -> bool {
        self.sy() == other.sy() && self.child().is_moved_x(other.child(), dx)
    }

    fn translate_x(&mut self, dx: i64) {
        self.child.translate_x(dx);
    }
}

impl<T: TranslateY> TranslateY for HeightContainer<T> {
    open spec fn can_translate_y(&self, dy: int) -> bool {
        self.child().can_translate_y(dy)
    }

    open spec fn is_moved_y(self, other: Self, dy: int) -> bool {
        self.sy() == other.sy() && self.child().is_moved_y(other.child(), dy)
    }

    fn translate_y(&mut self, dy: i64) {
        self.child.translate_y(dy);
    }
}

impl<R, T: SignalReciever<S, R>, S> SignalReciever<S, R> for HeightContainer<T> {
    /// The child reacts; the height stays.
    open spec fn reaction(self, signal: S, after: Self, r: R) -> bool {
        after.sy() == self.sy() && self.child().reaction(signal, after.child(), r)
    }

    fn take_signal(&mut self, signal: &mut S) -> R {
        self.child.take_signal(signal)
    }
}

/// Splits its rectangle along x between two children: the left one gets the
/// fraction `split` of the width, the right one the rest.
pub struct HSplitContainer<L, R> {
    left: L,
    split: Fraction,
    right: R,
}

impl<L, R> HSplitContainer<L, R> {
    pub closed spec fn left(self) -> L {
        self.left
    }

    pub closed spec fn split(self) -> Fraction {
        self.split
    }

    pub closed spec fn right(self) -> R {
        self.right
    }

    pub fn new(left: L, split: Fraction, right: R) -> (r: Self)
        ensures
            r.left() == left,
            r.split() == split,
            r.right() == right,
    {
        Self { left, split, right }
    }
}

impl<L: Init, R: Init> Init for HSplitContainer<L, R> {
    open spec fn can_init(&self) -> bool {
        self.left().can_init() && self.right().can_init()
    }

    open spec fn initialized(self, after: Self) -> bool {
        &&& after.split() == self.split()
        &&& self.left().initialized(after.left())
        &&& self.right().initialized(after.right())
    }

    fn init(&mut self) {
        self.left.init();
        self.right.init();
    }
}

impl<L: Fill, R: Fill> Fill for HSplitContainer<L, R> {
    open spec fn can_fill(&self) -> bool {
        self.split().wf() && self.left().can_fill() && self.right().can_fill()
    }

    /// The left child is laid out in the left part of the split rectangle,
    /// the right child in the right part.
    open spec fn filled(self, target: SizeAndCenter, after: Self) -> bool {
        &&& after.split() == self.split()
        &&& self.left().filled(target.spec_split_h(self.split()).0, after.left())
        &&& self.right().filled(target.spec_split_h(self.split()).1, after.right())
    }

    fn fill(&mut self, fill_target: SizeAndCenter) {
        let (left_target, right_target) = fill_target.split_h(self.split);
        self.left.fill(left_target);
        self.right.fill(right_target);
    }
}

impl<L: TranslateX, R: TranslateX> TranslateX for HSplitContainer<L, R> {
    open spec fn can_translate_x(&self, dx: int) -> bool {
        self.left().can_translate_x(dx) && self.right().can_translate_x(dx)
    }

    open spec fn is_moved_x(self, other: Self, dx: int) -> bool {
        &&& self.split() == other.split()
        &&& self.left().is_moved_x(other.left(), dx)
        &&& self.right().is_moved_x(other.right(), dx)
    }

    fn translate_x(&mut self, dx: i64) {
        self.left.translate_x(dx);
        self.right.translate_x(dx);
    }
}

impl<L: TranslateY, R: TranslateY> TranslateY for HSplitContainer<L, R> {
    open spec fn can_translate_y(&self, dy: int) -> bool {
        self.left().can_translate_y(dy) && self.right().can_translate_y(dy)
    }

    open spec fn is_moved_y(self, other: Self, dy: int) -> bool {
        &&& self.split() == other.split()
        &&& self.left().is_moved_y(other.left(), dy)
        &&& self.right().is_moved_y(other.right(), dy)
    }

    fn translate_y(&mut self, dy: i64) {
        self.left.translate_y(dy);
        self.right.translate_y(dy);
    }
}

impl<C: StandardConstructTarget, L: Construct<C>, R: Construct<C>> Construct<C> for HSplitContainer<
    L,
    R,
> {
    open spec fn constructed(&self) -> Seq<C::Item> {
        self.left().constructed() + self.right().constructed()
    }

    fn construct(&self) -> (r: C) {
        self.left.construct().append_into(self.right.construct())
    }
}

impl<L, R> HSplitContainer<L, R> {
    /// Sends the signal to the left child, then to the right one, and
    /// returns both results.
    pub fn take_signal_each<S, O, P>(&mut self, signal: &mut S) -> (r: (O, P)) where
        L: SignalReciever<S, O>,
        R: SignalReciever<S, P>,
        ensures
            old(self).left().reaction(*old(signal), final(self).left(), r.0),
            old(self).right().reaction(*old(signal), final(self).right(), r.1),
            final(self).split() == old(self).split(),
            *final(signal) == *old(signal),
    {
        (self.left.take_signal(signal), self.right.take_signal(signal))
    }
}

impl<O: ShortCircuitingCallback, L: SignalReciever<S, O>, R: SignalReciever<S, O>, S> SignalReciever<
    S,
    O,
> for HSplitContainer<L, R> {
    /// Both children react, and the result asks for what either child's
    /// result asked for.
    open spec fn reaction(self, signal: S, after: Self, r: O) -> bool {
        &&& after.split() == self.split()
        &&& exists|a: O, b: O|
            #![trigger self.left().reaction(signal, after.left(), a), self.right().reaction(signal, after.right(), b)]
            self.left().reaction(signal, after.left(), a) && self.right().reaction(
                signal,
                after.right(),
                b,
            ) && r.requested() == (a.requested() || b.requested())
    }

    /// Sends the signal to the left child, then to the right one, and folds
    /// the two results.
    fn take_signal(&mut self, signal: &mut S) -> (r: O) {
        let ghost before = *self;
        let a = self.left.take_signal(signal);
        let b = self.right.take_signal(signal);
        assert(before.left().reaction(*old(signal), self.left(), a));
        assert(before.right().reaction(*old(signal), self.right(), b));
        a.or_into(b)
    }
}

/// A placeholder widget: no size, no geometry, no reaction.
pub struct NoContainer {}

impl Fill for NoContainer {
    open spec fn can_fill(&self) -> bool {
        true
    }

    open spec fn filled(self, target: SizeAndCenter, after: Self) -> bool {
        true
    }

    fn fill(&mut self, _fill_target: SizeAndCenter) {
    }
}

impl FillWidth for NoContainer {
    open spec fn width_height(&self) -> int {
        0
    }

    open spec fn width_filled(self, sx: u32, cx: i64, ty: i64, after: Self) -> bool {
        true
    }

    open spec fn can_fill_width(&self, sx: u32, cx: i64, ty: i64) -> bool {
        true
    }

    fn fill_width(&mut self, _sx: u32, _cx: i64, ty: i64) -> (r: i64) {
        ty
    }
}

impl Init for NoContainer {
    open spec fn can_init(&self) -> bool {
        true
    }

    open spec fn initialized(self, after: Self) -> bool {
        true
    }

    fn init(&mut self) {
    }
}

impl GetHeight for NoContainer {
    open spec fn height(&self) -> int {
        0
    }

    fn get_height(&self) -> (h: i64) {
        0
    }
}

impl GetCenterPosition for NoContainer {
    open spec fn center(&self) -> Option<(int, int)> {
        Some((0, 0))
    }

    fn get_center_position(&self) -> (r: (i64, i64)) {
        (0, 0)
    }
}

impl SetCenterTopPosition for NoContainer {
    open spec fn center_top(&self) -> Option<(int, int)> {
        None
    }

    open spec fn can_set_center_top(&self, cx: i64, ty: i64) -> bool {
        true
    }

    fn set_center_top_position(&mut self, _cx: i64, _ty: i64) {
    }
}

impl TranslateX for NoContainer {
    open spec fn can_translate_x(&self, dx: int) -> bool {
        true
    }

    open spec fn is_moved_x(self, other: Self, dx: int) -> bool {
        true
    }

    fn translate_x(&mut self, _dx: i64) {
    }
}

impl TranslateY for NoContainer {
    open spec fn can_translate_y(&self, dy: int) -> bool {
        true
    }

    open spec fn is_moved_y(self, other: Self, dy: int) -> bool {
        true
    }

    fn translate_y(&mut self, _dy: i64) {
    }
}

impl GetPointBounds for NoContainer {
    open spec fn has_bounds(&self) -> bool {
        true
    }

    open spec fn point_bounds(&self) -> Points {
        Points { p1x: 0, p1y: 0, p2x: 0, p2y: 0 }
    }

    fn get_point_bounds(&self) -> (r: Points) {
        Points::zero()
    }
}

impl<T, R: Default> SignalReciever<T, R> for NoContainer {
    /// Nothing changes; the result is the default one.
    open spec fn reaction(self, signal: T, after: Self, r: R) -> bool {
        call_ensures(R::default, (), r)
    }

    fn take_signal(&mut self, _signal: &mut T) -> R {
        R::default()
    }
}

impl<C: StandardConstructTarget> Construct<C> for NoContainer {
    open spec fn constructed(&self) -> Seq<C::Item> {
        Seq::empty()
    }

    fn construct(&self) -> (r: C) {
        C::empty()
    }
}

/// Stacks two children from top to bottom in a width-driven layout.
pub struct VStackContainer<T, B> {
    top: T,
    bottom: B,
}

impl<T, B> VStackContainer<T, B> {
    pub closed spec fn top(self) -> T {
        self.top
    }

    pub closed spec fn bottom(self) -> B {
        self.bottom
    }

    pub fn new(top: T, bottom: B) -> (r: Self)
        ensures
            r.top() == top,
            r.bottom() == bottom,
    {
        Self { top, bottom }
    }
}

impl<T: Init, B: Init> Init for VStackContainer<T, B> {
    open spec fn can_init(&self) -> bool {
        self.top().can_init() && self.bottom().can_init()
    }

    open spec fn initialized(self, after: Self) -> bool {
        self.top().initialized(after.top()) && self.bottom().initialized(after.bottom())
    }

    fn init(&mut self) {
        self.top.init();
        self.bottom.init();
    }
}

impl<T: FillWidth, B: FillWidth> FillWidth for VStackContainer<T, B> {
    open spec fn width_height(&self) -> int {
        self.top().width_height() + self.bottom().width_height()
    }

    /// The top child is laid out at the top edge given, the bottom child
    /// where the top child ends.
    open spec fn width_filled(self, sx: u32, cx: i64, ty: i64, after: Self) -> bool {
        &&& self.top().width_filled(sx, cx, ty, after.top())
        &&& self.bottom().width_filled(
            sx,
            cx,
            (ty - self.top().width_height()) as i64,
            after.bottom(),
        )
    }

    open spec fn can_fill_width(&self, sx: u32, cx: i64, ty: i64) -> bool {
        &&& self.top().can_fill_width(sx, cx, ty)
        &&& in_range(ty - self.top().width_height())
        &&& self.bottom().can_fill_width(sx, cx, (ty - self.top().width_height()) as i64)
    }

    fn fill_width(&mut self, sx: u32, cx: i64, ty: i64) -> (r: i64) {
        let next = self.top.fill_width(sx, cx, ty);
        self.bottom.fill_width(sx, cx, next)
    }
}

impl<T: TranslateX, B: TranslateX> TranslateX for VStackContainer<T, B> {
    open spec fn can_translate_x(&self, dx: int) -> bool {
        self.top().can_translate_x(dx) && self.bottom().can_translate_x(dx)
    }

    open spec fn is_moved_x(self, other: Self, dx: int) -> bool {
        self.top().is_moved_x(other.top(), dx) && self.bottom().is_moved_x(other.bottom(), dx)
    }

    fn translate_x(&mut self, dx: i64) {
        self.top.translate_x(dx);
        self.bottom.translate_x(dx);
    }
}

impl<T: TranslateY, B: TranslateY> TranslateY for VStackContainer<T, B> {
    open spec fn can_translate_y(&self, dy: int) -> bool {
        self.top().can_translate_y(dy) && self.bottom().can_translate_y(dy)
    }

    open spec fn is_moved_y(self, other: Self, dy: int) -> bool {
        self.top().is_moved_y(other.top(), dy) && self.bottom().is_moved_y(other.bottom(), dy)
    }

    fn translate_y(&mut self, dy: i64) {
        self.top.translate_y(dy);
        self.bottom.translate_y(dy);
    }
}

impl<C: StandardConstructTarget, T: Construct<C>, B: Construct<C>> Construct<C> for VStackContainer<
    T,
    B,
> {
    open spec fn constructed(&self) -> Seq<C::Item> {
        self.top().constructed() + self.bottom().constructed()
    }

    fn construct(&self) -> (r: C) {
        self.top.construct().append_into(self.bottom.construct())
    }
}

impl<T, B> VStackContainer<T, B> {
    /// Sends the signal to the top child, then to the bottom one, and
    /// returns both results.
    pub fn take_signal_each<S, O, P>(&mut self, signal: &mut S) -> (r: (O, P)) where
        T: SignalReciever<S, O>,
        B: SignalReciever<S, P>,
        ensures
            old(self).top().reaction(*old(signal), final(self).top(), r.0),
            old(self).bottom().reaction(*old(signal), final(self).bottom(), r.1),
            *final(signal) == *old(signal),
    {
        (self.top.take_signal(signal), self.bottom.take_signal(signal))
    }
}

impl<S, O: ShortCircuitingCallback, T: SignalReciever<S, O>, B: SignalReciever<S, O>> SignalReciever<
    S,
    O,
> for VStackContainer<T, B> {
    /// Both children react, and the result asks for what either child's
    /// result asked for.
    open spec fn reaction(self, signal: S, after: Self, r: O) -> bool {
        exists|a: O, b: O|
            #![trigger self.top().reaction(signal, after.top(), a), self.bottom().reaction(signal, after.bottom(), b)]
            self.top().reaction(signal, after.top(), a) && self.bottom().reaction(
                signal,
                after.bottom(),
                b,
            ) && r.requested() == (a.requested() || b.requested())
    }

    /// Sends the signal to the top child, then to the bottom one, and folds
    /// the two results.
    fn take_signal(&mut self, signal: &mut S) -> (r: O) {
        let ghost before = *self;
        let a = self.top.take_signal(signal);
        let b = self.bottom.take_signal(signal);
        assert(before.top().reaction(*old(signal), self.top(), a));
        assert(before.bottom().reaction(*old(signal), self.bottom(), b));
        a.or_into(b)
    }
}

} // verus!
