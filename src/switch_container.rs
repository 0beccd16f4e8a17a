//! A container that routes everything to one of two branches.

use crate::construct::{Construct, StandardConstructTarget};
use crate::containers::{FillWidth, Init, TranslateX, TranslateY};
use crate::signal::SignalReciever;
use vstd::prelude::*;

verus! {

/// Which branch of a [`SwitchContainer`] is active.
#[derive(Debug, Clone, Copy, PartialEq, Eq, Structural)]
pub enum Branch {
    First,
    Second,
}

/// Holds two branches and forwards every call to the active one only; the
/// other branch is never touched.
pub struct SwitchContainer<A, B> {
    active: Branch,
    first: A,
    second: B,
}

impl<A, B> SwitchContainer<A, B> {
    pub closed spec fn active(self) -> Branch {
        self.active
    }

    pub closed spec fn first(self) -> A {
        self.first
    }

    pub closed spec fn second(self) -> B {
        self.second
    }

    pub fn new(active: Branch, first: A, second: B) -> (r: Self)
        ensures
            r.active() == active,
            r.first() == first,
            r.second() == second,
    {
        Self { active, first, second }
    }

    pub fn get_active(&self) -> (r: Branch)
        ensures
            r == self.active(),
    {
        self.active
    }

    pub fn get_first(&self) -> (r: &A)
        ensures
            *r == self.first(),
    {
        &self.first
    }

    pub fn get_second(&self) -> (r: &B)
        ensures
            *r == self.second(),
    {
        &self.second
    }

    /// The active branch stays active and the inactive one keeps its value.
    pub open spec fn inactive_kept(self, other: Self) -> bool {
        &&& other.active() == self.active()
        &&& self.active() == Branch::First ==> other.second() == self.second()
        &&& self.active() == Branch::Second ==> other.first() == self.first()
    }
}

impl<A: Init, B: Init> Init for SwitchContainer<A, B> {
    open spec fn initialized(self, after: Self) -> bool {
        &&& self.inactive_kept(after)
        &&& match self.active() {
            Branch::First => self.first().initialized(after.first()),
            Branch::Second => self.second().initialized(after.second()),
        }
    }

    open spec fn can_init(&self) -> bool {
        match self.active() {
            Branch::First => self.first().can_init(),
            Branch::Second => self.second().can_init(),
        }
    }

    fn init(&mut self) {
        match self.active {
            Branch::First => self.first.init(),
            Branch::Second => self.second.init(),
        }
    }
}

impl<A: FillWidth, B: FillWidth> FillWidth for SwitchContainer<A, B> {
    open spec fn width_filled(self, sx: u32, cx: i64, ty: i64, after: Self) -> bool {
        &&& self.inactive_kept(after)
        &&& match self.active() {
            Branch::First => self.first().width_filled(sx, cx, ty, after.first()),
            Branch::Second => self.second().width_filled(sx, cx, ty, after.second()),
        }
    }

    open spec fn width_height(&self) -> int {
        match self.active() {
            Branch::First => self.first().width_height(),
            Branch::Second => self.second().width_height(),
        }
    }

    open spec fn can_fill_width(&self, sx: u32, cx: i64, ty: i64) -> bool {
        match self.active() {
            Branch::First => self.first().can_fill_width(sx, cx, ty),
            Branch::Second => self.second().can_fill_width(sx, cx, ty),
        }
    }

    fn fill_width(&mut self, sx: u32, cx: i64, ty: i64) -> (r: i64) {
        match self.active {
            Branch::First => self.first.fill_width(sx, cx, ty),
            Branch::Second => self.second.fill_width(sx, cx, ty),
        }
    }
}

impl<A: TranslateX, B: TranslateX> TranslateX for SwitchContainer<A, B> {
    open spec fn can_translate_x(&self, dx: int) -> bool {
        match self.active() {
            Branch::First => self.first().can_translate_x(dx),
            Branch::Second => self.second().can_translate_x(dx),
        }
    }

    open spec fn is_moved_x(self, other: Self, dx: int) -> bool {
        &&& self.inactive_kept(other)
        &&& match self.active() {
            Branch::First => self.first().is_moved_x(other.first(), dx),
            Branch::Second => self.second().is_moved_x(other.second(), dx),
        }
    }

    fn translate_x(&mut self, dx: i64) {
        match self.active {
            Branch::First => self.first.translate_x(dx),
            Branch::Second => self.second.translate_x(dx),
        }
    }
}

impl<A: TranslateY, B: TranslateY> TranslateY for SwitchContainer<A, B> {
    open spec fn can_translate_y(&self, dy: int) -> bool {
        match self.active() {
            Branch::First => self.first().can_translate_y(dy),
            Branch::Second => self.second().can_translate_y(dy),
        }
    }

    open spec fn is_moved_y(self, other: Self, dy: int) -> bool {
        &&& self.inactive_kept(other)
        &&& match self.active() {
            Branch::First => self.first().is_moved_y(other.first(), dy),
            Branch::Second => self.second().is_moved_y(other.second(), dy),
        }
    }

    fn translate_y(&mut self, dy: i64) {
        match self.active {
            Branch::First => self.first.translate_y(dy),
            Branch::Second => self.second.translate_y(dy),
        }
    }
}

impl<C: StandardConstructTarget, A: Construct<C>, B: Construct<C>> Construct<C> for SwitchContainer<
    A,
    B,
> {
    open spec fn constructed(&self) -> Seq<C::Item> {
        match self.active() {
            Branch::First => self.first().constructed(),
            Branch::Second => self.second().constructed(),
        }
    }

    fn construct(&self) -> (r: C) {
        match self.active {
            Branch::First => self.first.construct(),
            Branch::Second => self.second.construct(),
        }
    }
}

impl<S, O, A: SignalReciever<S, O>, B: SignalReciever<S, O>> SignalReciever<S, O> for SwitchContainer<
    A,
    B,
> {
    /// The active branch reacts; the inactive branch is left as it was.
    open spec fn reaction(self, signal: S, after: Self, r: O) -> bool {
        &&& self.inactive_kept(after)
        &&& match self.active() {
            Branch::First => self.first().reaction(signal, after.first(), r),
            Branch::Second => self.second().reaction(signal, after.second(), r),
        }
    }

    /// Sends the signal to the active branch alone.
    fn take_signal(&mut self, signal: &mut S) -> (r: O) {
        match self.active {
            Branch::First => self.first.take_signal(signal),
            Branch::Second => self.second.take_signal(signal),
        }
    }
}

/// Dispatch through a switch is strict multiplexing: whatever the signal,
/// the active branch reacts to it as it would on its own, and the inactive
/// branch is left exactly as it was.
pub proof fn lemma_switch_isolates<S, O, A: SignalReciever<S, O>, B: SignalReciever<S, O>>(
    before: SwitchContainer<A, B>,
    signal: S,
    after: SwitchContainer<A, B>,
    r: O,
)
    requires
        before.reaction(signal, after, r),
    ensures
        after.active() == before.active(),
        before.active() == Branch::First ==> before.first().reaction(signal, after.first(), r)
            && after.second() == before.second(),
        before.active() == Branch::Second ==> before.second().reaction(signal, after.second(), r)
            && after.first() == before.first(),
{
}

} // verus!
