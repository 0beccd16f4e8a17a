//! Signals fed into a widget tree, and the results that come back out.

use std::marker::PhantomData;
use vstd::prelude::*;

verus! {

/// A widget that reacts to signals of type `S` with a result of type `R`.
pub trait SignalReciever<S, R>: Sized {
    /// Taking `signal` may turn the widget into `after`, with the result `r`.
    spec fn reaction(self, signal: S, after: Self, r: R) -> bool;

    /// Reacts to the signal; the signal itself is left as it was.
    fn take_signal(&mut self, signal: &mut S) -> (r: R)
        ensures
            old(self).reaction(*old(signal), *final(self), r),
            *final(signal) == *old(signal),
    ;
}

/// A result that siblings' results fold into: a request made by either of
/// the two combined results is a request of the combination.
pub trait ShortCircuitingCallback: Sized {
    /// The result asks the host for something (a rebuild, a redraw).
    spec fn requested(&self) -> bool;

    fn or_into(self, other: Self) -> (r: Self)
        ensures
            r.requested() == (self.requested() || other.requested()),
    ;
}

/// The window was resized: its size in pixels and in normalized units.
#[derive(Debug, Clone, Copy)]
pub struct ResizedSignal {
    pub resxp: u32,
    pub resyp: u32,
    pub resx: i64,
    pub resy: i64,
}

/// The cursor moved to a position, in pixels and in normalized units.
#[derive(Debug, Clone, Copy)]
pub struct CursorMovedSignal {
    pub pixel_posx: i64,
    pub pixel_posy: i64,
    pub norm_posx: i64,
    pub norm_posy: i64,
}

/// The left mouse button went down.
#[derive(Debug, Clone, Copy)]
pub struct MouseLeftDownSignal();

/// The left mouse button went up.
#[derive(Debug, Clone, Copy)]
pub struct MouseLeftUpSignal();

/// A scroll by the given amounts.
#[derive(Debug, Clone, Copy)]
pub struct ScrollSignal {
    pub px: i64,
    pub py: i64,
}

/// A character was typed.
#[derive(Debug, Clone, Copy)]
pub struct CharacterInputSignal {
    pub input: char,
}

/// Whether the host should rebuild the geometry of type `T` by calling
/// `construct` again.
#[derive(Debug)]
pub struct ReconstructCallback<T> {
    reconstruct: bool,
    phantom: PhantomData<T>,
}

impl<T> View for ReconstructCallback<T> {
    type V = bool;

    closed spec fn view(&self) -> bool {
        self.reconstruct
    }
}

impl<T> ReconstructCallback<T> {
    pub fn new(reconstruct: bool) -> (r: Self)
        ensures
            r@ == reconstruct,
    {
        Self { reconstruct, phantom: PhantomData }
    }

    /// Keeps a request of either result.
    pub fn or(&mut self, reconstruct_callback: ReconstructCallback<T>)
        ensures
            final(self)@ == (old(self)@ || reconstruct_callback@),
    {
        if reconstruct_callback.reconstruct {
            self.reconstruct = true;
        }
    }

    pub fn get_reconstruct(&self) -> (r: bool)
        ensures
            r == self@,
    {
        self.reconstruct
    }
}

impl<T> Clone for ReconstructCallback<T> {
    fn clone(&self) -> (r: Self)
        ensures
            r@ == self@,
    {
        ReconstructCallback::new(self.reconstruct)
    }
}

impl<T> Copy for ReconstructCallback<T> {}

impl<T> Default for ReconstructCallback<T> {
    fn default() -> (r: Self)
        ensures
            r@ == false,
    {
        ReconstructCallback::new(false)
    }
}

impl<T> ShortCircuitingCallback for ReconstructCallback<T> {
    open spec fn requested(&self) -> bool {
        self@
    }

    fn or_into(self, other: Self) -> (r: Self) {
        let mut r = self;
        r.or(other);
        r
    }
}

/// Whether the host should redraw without rebuilding geometry.
#[derive(Debug, Clone, Copy)]
pub struct RedrawCallback {
    redraw: bool,
}

impl View for RedrawCallback {
    type V = bool;

    closed spec fn view(&self) -> bool {
        self.redraw
    }
}

impl RedrawCallback {
    pub fn new(redraw: bool) -> (r: Self)
        ensures
            r@ == redraw,
    {
        Self { redraw }
    }

    /// Keeps a request of either result.
    pub fn or(&mut self, redraw_callback: RedrawCallback)
        ensures
            final(self)@ == (old(self)@ || redraw_callback@),
    {
        if redraw_callback.get_redraw() {
            self.redraw = true;
        }
    }

    pub fn get_redraw(&self) -> (r: bool)
        ensures
            r == self@,
    {
        self.redraw
    }
}

} // verus!
