//! A column of any number of children of one type.

use crate::construct::{Construct, StandardConstructTarget};
use crate::containers::{FillWidth, GetHeight, Init, SetCenterTopPosition, TranslateX, TranslateY};
use crate::geometry::{in_range, UNIT};
use crate::signal::{ReconstructCallback, SignalReciever};
use vstd::prelude::*;

verus! {

/// The heights of the first `i` children added up.
pub open spec fn heights_before<T: GetHeight>(children: Seq<T>, i: int) -> int
    decreases i,
{
    if i <= 0 {
        0
    } else {
        heights_before(children, i - 1) + children[i - 1].height()
    }
}

/// The width-driven heights of the first `i` children added up.
pub open spec fn width_heights_before<T: FillWidth>(children: Seq<T>, i: int) -> int
    decreases i,
{
    if i <= 0 {
        0
    } else {
        width_heights_before(children, i - 1) + children[i - 1].width_height()
    }
}

/// What the children build, concatenated in order.
pub open spec fn constructed_all<C: StandardConstructTarget, T: Construct<C>>(
    children: Seq<T>,
    i: int,
) -> Seq<C::Item>
    decreases i,
{
    if i <= 0 {
        Seq::empty()
    } else {
        constructed_all::<C, T>(children, i - 1) + children[i - 1].constructed()
    }
}

/// Children stacked from top to bottom. Width-driven layout threads the top
/// edge through them; `reposition_children` places them below a fixed top
/// anchor (`cx`, `ty`) by their heights.
#[derive(Debug, Clone)]
pub struct VecColumn<T> {
    children: Vec<T>,
    cx: i64,
    ty: i64,
}

impl<T> VecColumn<T> {
    pub closed spec fn children(self) -> Seq<T> {
        self.children@
    }

    pub closed spec fn cx(self) -> i64 {
        self.cx
    }

    pub closed spec fn ty(self) -> i64 {
        self.ty
    }

    /// An empty column anchored at the top of the screen.
    pub fn new() -> (r: Self)
        ensures
            r.children() == Seq::<T>::empty(),
            r.cx() == 0,
            r.ty() == UNIT,
    {
        VecColumn { children: Vec::new(), cx: 0, ty: UNIT }
    }

    pub fn push(&mut self, value: T)
        ensures
            final(self).children() == old(self).children().push(value),
            final(self).cx() == old(self).cx(),
            final(self).ty() == old(self).ty(),
    {
        self.children.push(value);
    }

    pub fn into_push(self, value: T) -> (r: Self)
        ensures
            r.children() == self.children().push(value),
            r.cx() == self.cx(),
            r.ty() == self.ty(),
    {
        let mut s = self;
        s.push(value);
        s
    }

    pub fn set_top_y(&mut self, top_y: i64)
        ensures
            final(self).children() == old(self).children(),
            final(self).cx() == old(self).cx(),
            final(self).ty() == top_y,
    {
        self.ty = top_y;
    }

    pub fn get_children_mut(&mut self) -> (r: &mut Vec<T>)
        ensures
            r@ == old(self).children(),
            final(self).children() == final(r)@,
            final(self).cx() == old(self).cx(),
            final(self).ty() == old(self).ty(),
    {
        &mut self.children
    }

    /// Child `i` can be placed below the children before it without leaving
    /// representable coordinates.
    pub open spec fn fits_at(self, i: int) -> bool where T: GetHeight + SetCenterTopPosition {
        &&& in_range(self.ty() - heights_before(self.children(), i + 1))
        &&& self.children()[i].can_set_center_top(
            self.cx(),
            (self.ty() - heights_before(self.children(), i)) as i64,
        )
    }

    /// `after` is this column with its children placed one below the other:
    /// same anchor, same children count and heights, and child `i` (when it
    /// has a position) with its top edge centered at `cx` and at `ty` minus
    /// the heights of the children before it.
    pub open spec fn repositioned(self, after: Self) -> bool where T: GetHeight + SetCenterTopPosition {
        &&& after.cx() == self.cx()
        &&& after.ty() == self.ty()
        &&& after.children().len() == self.children().len()
        &&& forall|i: int|
            0 <= i < self.children().len() ==> {
                &&& (#[trigger] after.children()[i]).height() == self.children()[i].height()
                &&& after.children()[i].center_top() == if self.children()[i].center_top() is Some {
                    Some((self.cx() as int, self.ty() - heights_before(self.children(), i)))
                } else {
                    None
                }
            }
    }

    /// Places the children one below the other under the top anchor: child
    /// `i` gets its top edge at `ty` minus the heights of the children before
    /// it.
    pub fn reposition_children(&mut self) where T: GetHeight + SetCenterTopPosition
        requires
            forall|i: int| 0 <= i < old(self).children().len() ==> #[trigger] old(self).fits_at(i),
        ensures
            old(self).repositioned(*final(self)),
    {
        let ghost old_children = self.children@;
        let ghost before = *self;
        let n = self.children.len();
        let cx = self.cx;
        let mut y = self.ty;
        let mut i: usize = 0;
        while i < n
            invariant
                n == self.children@.len(),
                n == old_children.len(),
                cx == self.cx,
                self.cx == old(self).cx,
                self.ty == old(self).ty,
                old_children == old(self).children@,
                i <= n,
                y == self.ty - heights_before(old_children, i as int),
                forall|j: int| i <= j < n ==> self.children@[j] == old_children[j],
                forall|j: int| 0 <= j < old(self).children().len() ==> #[trigger] old(self).fits_at(j),
                forall|j: int|
                    0 <= j < i ==> {
                        &&& (#[trigger] self.children@[j]).height() == old_children[j].height()
                        &&& self.children@[j].center_top() == if old_children[j].center_top() is Some {
                            Some((self.cx as int, self.ty - heights_before(old_children, j)))
                        } else {
                            None
                        }
                    },
            decreases n - i,
        {
            assert(old(self).fits_at(i as int));
            self.children[i].set_center_top_position(cx, y);
            let h = self.children[i].get_height();
            y = y - h;
            i = i + 1;
        }
        assert(before.repositioned(*self));
    }
}

impl<T> From<Vec<T>> for VecColumn<T> {
    fn from(children: Vec<T>) -> (r: Self)
        ensures
            r.children() == children@,
            r.cx() == 0,
            r.ty() == 0,
    {
        VecColumn { children, cx: 0, ty: 0 }
    }
}

impl<T> vstd::std_specs::convert::FromSpecImpl<Vec<T>> for VecColumn<T> {
    open spec fn obeys_from_spec() -> bool {
        false
    }

    open spec fn from_spec(v: Vec<T>) -> Self {
        arbitrary()
    }
}

/// Repositioning stacks the children edge to edge below the anchor: the
/// first positioned child has its top edge at the anchor, each child's top
/// edge lies the heights of the children above it below the anchor, a child
/// begins where the one above it ends, and the column ends at the anchor
/// minus the sum of all heights.
pub proof fn lemma_reposition_stacks<T: GetHeight + SetCenterTopPosition>(
    before: VecColumn<T>,
    after: VecColumn<T>,
)
    requires
        before.repositioned(after),
    ensures
        forall|i: int|
            0 <= i < before.children().len() && before.children()[i].center_top() is Some
                ==> (#[trigger] after.children()[i].center_top()).unwrap().1 == before.ty()
                - heights_before(before.children(), i),
        forall|i: int|
            0 <= i && i + 1 < before.children().len() && before.children()[i].center_top() is Some
                && before.children()[i + 1].center_top() is Some ==> after.children()[i
                + 1].center_top().unwrap().1 == (#[trigger] after.children()[i].center_top()).unwrap().1
                - after.children()[i].height(),
        before.children().len() > 0 && before.children()[0].center_top() is Some
            ==> after.children()[0].center_top().unwrap().1 == before.ty(),
        heights_before(after.children(), after.children().len() as int) == heights_before(
            before.children(),
            before.children().len() as int,
        ),
{
    let n = before.children().len() as int;
    assert forall|k: int| 0 <= k <= n implies heights_before(after.children(), k) == heights_before(
        before.children(),
        k,
    ) by {
        lemma_heights_before_agree(before.children(), after.children(), k);
    }
    assert forall|i: int|
        0 <= i && i + 1 < n && before.children()[i].center_top() is Some
            && before.children()[i + 1].center_top() is Some implies after.children()[i
        + 1].center_top().unwrap().1 == (#[trigger] after.children()[i].center_top()).unwrap().1
        - after.children()[i].height() by {
        assert(after.children()[i].height() == before.children()[i].height());
        assert(heights_before(before.children(), i + 1) == heights_before(before.children(), i)
            + before.children()[i].height());
    }
}

/// Two sequences of children with the same heights have the same running
/// sums of heights.
proof fn lemma_heights_before_agree<T: GetHeight>(a: Seq<T>, b: Seq<T>, k: int)
    requires
        0 <= k <= a.len(),
        a.len() == b.len(),
        forall|i: int| 0 <= i < a.len() ==> (#[trigger] b[i]).height() == a[i].height(),
    ensures
        heights_before(b, k) == heights_before(a, k),
    decreases k,
{
    if k > 0 {
        lemma_heights_before_agree(a, b, k - 1);
        assert(b[k - 1].height() == a[k - 1].height());
    }
}

impl<C: StandardConstructTarget, T: Construct<C>> Construct<C> for VecColumn<T> {
    open spec fn constructed(&self) -> Seq<C::Item> {
        constructed_all::<C, T>(self.children(), self.children().len() as int)
    }

    /// The children's geometry concatenated in order; an empty column builds
    /// the empty target.
    fn construct(&self) -> (r: C) {
        let n = self.children.len();
        if n == 0 {
            C::empty()
        } else {
            let mut target = self.children[0].construct();
            assert(constructed_all::<C, T>(self.children@, 0) == Seq::<C::Item>::empty());
            assert(target.items() =~= constructed_all::<C, T>(self.children@, 1));
            let mut i: usize = 1;
            while i < n
                invariant
                    n == self.children@.len(),
                    1 <= i <= n,
                    target.items() == constructed_all::<C, T>(self.children@, i as int),
                decreases n - i,
            {
                target.append(self.children[i].construct());
                i = i + 1;
            }
            target
        }
    }
}

impl<T: Init> Init for VecColumn<T> {
    open spec fn can_init(&self) -> bool {
        forall|i: int| 0 <= i < self.children().len() ==> (#[trigger] self.children()[i]).can_init()
    }

    /// Every child lays out its own children.
    open spec fn initialized(self, after: Self) -> bool {
        &&& after.cx() == self.cx()
        &&& after.ty() == self.ty()
        &&& after.children().len() == self.children().len()
        &&& forall|i: int|
            0 <= i < self.children().len() ==> (#[trigger] self.children()[i]).initialized(
                after.children()[i],
            )
    }

    fn init(&mut self) {
        let n = self.children.len();
        let mut i: usize = 0;
        while i < n
            invariant
                n == self.children@.len(),
                n == old(self).children@.len(),
                i <= n,
                forall|j: int| i <= j < n ==> self.children@[j] == old(self).children@[j],
                forall|j: int|
                    0 <= j < n ==> (#[trigger] old(self).children()[j]).can_init(),
                forall|j: int|
                    0 <= j < i ==> (#[trigger] old(self).children()[j]).initialized(
                        self.children@[j],
                    ),
                self.cx == old(self).cx,
                self.ty == old(self).ty,
            decreases n - i,
        {
            assert(old(self).children()[i as int].can_init());
            self.children[i].init();
            i = i + 1;
        }
    }
}

impl<T: FillWidth> VecColumn<T> {
    /// Child `i` can be laid out at the top edge that the children before it
    /// leave, starting from `ty`.
    pub open spec fn fits_width_at(self, sx: u32, cx: i64, ty: i64, i: int) -> bool {
        &&& in_range(ty - width_heights_before(self.children(), i + 1))
        &&& self.children()[i].can_fill_width(
            sx,
            cx,
            (ty - width_heights_before(self.children(), i)) as i64,
        )
    }
}

impl<T: FillWidth> FillWidth for VecColumn<T> {
    open spec fn width_height(&self) -> int {
        width_heights_before(self.children(), self.children().len() as int)
    }

    open spec fn can_fill_width(&self, sx: u32, cx: i64, ty: i64) -> bool {
        forall|i: int| 0 <= i < self.children().len() ==> #[trigger] self.fits_width_at(sx, cx, ty, i)
    }

    /// Child `i` is laid out at the top edge `ty` minus the heights of the
    /// children before it.
    open spec fn width_filled(self, sx: u32, cx: i64, ty: i64, after: Self) -> bool {
        &&& after.cx() == self.cx()
        &&& after.ty() == self.ty()
        &&& after.children().len() == self.children().len()
        &&& forall|i: int|
            0 <= i < self.children().len() ==> (#[trigger] self.children()[i]).width_filled(
                sx,
                cx,
                (ty - width_heights_before(self.children(), i)) as i64,
                after.children()[i],
            )
    }

    /// Lays out the children in order, each starting where the one before
    /// it ended.
    fn fill_width(&mut self, sx: u32, cx: i64, ty: i64) -> (r: i64) {
        let n = self.children.len();
        let ghost old_children = self.children@;
        let mut next_ty = ty;
        let mut i: usize = 0;
        while i < n
            invariant
                n == self.children@.len(),
                n == old_children.len(),
                old_children == old(self).children(),
                i <= n,
                next_ty == ty - width_heights_before(old_children, i as int),
                forall|j: int| i <= j < n ==> self.children@[j] == old_children[j],
                forall|j: int|
                    0 <= j < n ==> #[trigger] old(self).fits_width_at(sx, cx, ty, j),
                forall|j: int|
                    0 <= j < i ==> (#[trigger] old(self).children()[j]).width_filled(
                        sx,
                        cx,
                        (ty - width_heights_before(old(self).children(), j)) as i64,
                        self.children@[j],
                    ),
                self.cx == old(self).cx,
                self.ty == old(self).ty,
            decreases n - i,
        {
            assert(old(self).fits_width_at(sx, cx, ty, i as int));
            next_ty = self.children[i].fill_width(sx, cx, next_ty);
            i = i + 1;
        }
        next_ty
    }
}

impl<T: TranslateX> TranslateX for VecColumn<T> {
    open spec fn can_translate_x(&self, dx: int) -> bool {
        &&& in_range(self.cx() + dx)
        &&& forall|i: int|
            0 <= i < self.children().len() ==> (#[trigger] self.children()[i]).can_translate_x(dx)
    }

    open spec fn is_moved_x(self, other: Self, dx: int) -> bool {
        &&& other.cx() == self.cx() + dx
        &&& other.ty() == self.ty()
        &&& other.children().len() == self.children().len()
        &&& forall|i: int|
            0 <= i < self.children().len() ==> (#[trigger] self.children()[i]).is_moved_x(
                other.children()[i],
                dx,
            )
    }

    fn translate_x(&mut self, dx: i64) {
        self.cx = self.cx + dx;
        let n = self.children.len();
        let mut i: usize = 0;
        while i < n
            invariant
                n == self.children@.len(),
                n == old(self).children@.len(),
                i <= n,
                self.cx == old(self).cx + dx,
                self.ty == old(self).ty,
                forall|j: int| i <= j < n ==> self.children@[j] == old(self).children@[j],
                forall|j: int|
                    0 <= j < i ==> (#[trigger] old(self).children@[j]).is_moved_x(
                        self.children@[j],
                        dx as int,
                    ),
                forall|j: int|
                    0 <= j < n ==> (#[trigger] old(self).children()[j]).can_translate_x(dx as int),
            decreases n - i,
        {
            assert(old(self).children()[i as int].can_translate_x(dx as int));
            self.children[i].translate_x(dx);
            i = i + 1;
        }
    }
}

impl<T: TranslateY> TranslateY for VecColumn<T> {
    open spec fn can_translate_y(&self, dy: int) -> bool {
        &&& in_range(self.ty() + dy)
        &&& forall|i: int|
            0 <= i < self.children().len() ==> (#[trigger] self.children()[i]).can_translate_y(dy)
    }

    open spec fn is_moved_y(self, other: Self, dy: int) -> bool {
        &&& other.cx() == self.cx()
        &&& other.ty() == self.ty() + dy
        &&& other.children().len() == self.children().len()
        &&& forall|i: int|
            0 <= i < self.children().len() ==> (#[trigger] self.children()[i]).is_moved_y(
                other.children()[i],
                dy,
            )
    }

    fn translate_y(&mut self, dy: i64) {
        self.ty = self.ty + dy;
        let n = self.children.len();
        let mut i: usize = 0;
        while i < n
            invariant
                n == self.children@.len(),
                n == old(self).children@.len(),
                i <= n,
                self.cx == old(self).cx,
                self.ty == old(self).ty + dy,
                forall|j: int| i <= j < n ==> self.children@[j] == old(self).children@[j],
                forall|j: int|
                    0 <= j < i ==> (#[trigger] old(self).children@[j]).is_moved_y(
                        self.children@[j],
                        dy as int,
                    ),
                forall|j: int|
                    0 <= j < n ==> (#[trigger] old(self).children()[j]).can_translate_y(dy as int),
            decreases n - i,
        {
            assert(old(self).children()[i as int].can_translate_y(dy as int));
            self.children[i].translate_y(dy);
            i = i + 1;
        }
    }
}

impl<T: SignalReciever<S, R>, S, R> SignalReciever<S, Vec<R>> for VecColumn<T> {
    /// Every child reacts, and the results come in the children's order.
    open spec fn reaction(self, signal: S, after: Self, r: Vec<R>) -> bool {
        &&& after.cx() == self.cx()
        &&& after.ty() == self.ty()
        &&& after.children().len() == self.children().len()
        &&& r@.len() == self.children().len()
        &&& forall|i: int|
            0 <= i < self.children().len() ==> #[trigger] self.children()[i].reaction(
                signal,
                after.children()[i],
                r@[i],
            )
    }

    /// Sends the signal to every child in order and returns their results
    /// in the same order.
    fn take_signal(&mut self, signal: &mut S) -> (r: Vec<R>) {
        let n = self.children.len();
        let mut responses: Vec<R> = Vec::with_capacity(n);
        let mut i: usize = 0;
        while i < n
            invariant
                n == self.children@.len(),
                n == old(self).children@.len(),
                self.cx == old(self).cx,
                self.ty == old(self).ty,
                i <= n,
                responses@.len() == i,
                *signal == *old(signal),
                forall|j: int| i <= j < n ==> self.children@[j] == old(self).children@[j],
                forall|j: int|
                    0 <= j < i ==> #[trigger] old(self).children()[j].reaction(
                        *old(signal),
                        self.children@[j],
                        responses@[j],
                    ),
            decreases n - i,
        {
            let r = self.children[i].take_signal(signal);
            responses.push(r);
            i = i + 1;
        }
        assert(old(self).reaction(*old(signal), *self, responses));
        responses
    }
}

/// Some result of `rs` asks for a rebuild.
pub open spec fn any_requested<C>(rs: Seq<ReconstructCallback<C>>) -> bool {
    exists|i: int| 0 <= i < rs.len() && #[trigger] rs[i]@
}

proof fn lemma_any_requested_push<C>(rs: Seq<ReconstructCallback<C>>, r: ReconstructCallback<C>)
    ensures
        any_requested(rs.push(r)) == (any_requested(rs) || r@),
{
    let s = rs.push(r);
    if any_requested(rs) {
        let i = choose|i: int| 0 <= i < rs.len() && #[trigger] rs[i]@;
        assert(s[i]@);
    }
    if r@ {
        assert(s[rs.len() as int]@);
    }
    if any_requested(s) {
        let i = choose|i: int| 0 <= i < s.len() && #[trigger] s[i]@;
        if i < rs.len() {
            assert(rs[i]@);
        }
    }
}

/// The first `k` children of `before` reacted to `signal` with the results
/// `rs`, turning into the first `k` children of `after`.
pub open spec fn reacted_with<T: SignalReciever<S, ReconstructCallback<C>>, S, C>(
    before: Seq<T>,
    signal: S,
    after: Seq<T>,
    rs: Seq<ReconstructCallback<C>>,
    k: int,
) -> bool {
    &&& rs.len() == k
    &&& forall|j: int| 0 <= j < k ==> #[trigger] before[j].reaction(signal, after[j], rs[j])
}

impl<T: SignalReciever<S, ReconstructCallback<C>>, S, C> SignalReciever<
    S,
    ReconstructCallback<C>,
> for VecColumn<T> {
    /// Every child reacts, and a rebuild is asked for exactly when some
    /// child asks for one.
    open spec fn reaction(self, signal: S, after: Self, r: ReconstructCallback<C>) -> bool {
        &&& after.cx() == self.cx()
        &&& after.ty() == self.ty()
        &&& after.children().len() == self.children().len()
        &&& exists|rs: Seq<ReconstructCallback<C>>| #[trigger]
            reacted_with(self.children(), signal, after.children(), rs, self.children().len() as int) && r@ == any_requested(rs)
    }

    /// Sends the signal to every child in order; a rebuild is requested when
    /// any child requests one.
    fn take_signal(&mut self, signal: &mut S) -> (r: ReconstructCallback<C>) {
        let n = self.children.len();
        let mut acc: ReconstructCallback<C> = ReconstructCallback::new(false);
        let ghost mut rs: Seq<ReconstructCallback<C>> = Seq::empty();
        let mut i: usize = 0;
        assert(any_requested(rs) == false);
        while i < n
            invariant
                n == self.children@.len(),
                n == old(self).children@.len(),
                self.cx == old(self).cx,
                self.ty == old(self).ty,
                i <= n,
                *signal == *old(signal),
                forall|j: int| i <= j < n ==> self.children@[j] == old(self).children@[j],
                reacted_with(old(self).children(), *old(signal), self.children(), rs, i as int),
                acc@ == any_requested(rs),
            decreases n - i,
        {
            let r: ReconstructCallback<C> = self.children[i].take_signal(signal);
            proof {
                lemma_any_requested_push(rs, r);
                rs = rs.push(r);
            }
            acc.or(r);
            i = i + 1;
        }
        assert(reacted_with(old(self).children(), *old(signal), self.children(), rs, n as int));
        acc
    }
}

} // verus!
