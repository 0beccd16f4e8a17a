//! Rectangles, bounding boxes and line segments in fixed-point coordinates.

use vstd::prelude::*;

verus! {

/// One normalized screen unit in the fixed-point coordinate system.
pub const UNIT: i64 = 65536;

/// `v` can be held by an `i64`.
pub open spec fn in_range(v: int) -> bool {
    i64::MIN <= v <= i64::MAX
}

/// An axis-aligned rectangle given by its half-width `sx`, half-height `sy`
/// and its center (`cx`, `cy`). The y axis points up.
#[derive(Debug, Clone, Copy, PartialEq, Eq, Structural)]
pub struct SizeAndCenter {
    pub sx: u32,
    pub sy: u32,
    pub cx: i64,
    pub cy: i64,
}

/// A bounding box: (`p1x`, `p1y`) is the top-left corner, (`p2x`, `p2y`) the
/// bottom-right one, so `p1x <= p2x` and `p2y <= p1y` for a proper box.
#[derive(Debug, Clone, Copy, PartialEq, Eq, Structural)]
pub struct Points {
    pub p1x: i64,
    pub p1y: i64,
    pub p2x: i64,
    pub p2y: i64,
}

/// A line segment from (`p1x`, `p1y`) to (`p2x`, `p2y`).
#[derive(Debug, Clone, Copy, PartialEq, Eq, Structural)]
pub struct Line {
    pub p1x: i64,
    pub p1y: i64,
    pub p2x: i64,
    pub p2y: i64,
}

/// A fraction `num / den` of a length.
#[derive(Debug, Clone, Copy, PartialEq, Eq, Structural)]
pub struct Fraction {
    pub num: u32,
    pub den: u32,
}

impl Fraction {
    /// A proper fraction between zero and one, inclusive.
    pub open spec fn wf(self) -> bool {
        0 < self.den && self.num <= self.den
    }
}

impl SizeAndCenter {
    /// Every edge is a representable coordinate.
    pub open spec fn wf(self) -> bool {
        &&& in_range(self.cx - self.sx)
        &&& in_range(self.cx + self.sx)
        &&& in_range(self.cy - self.sy)
        &&& in_range(self.cy + self.sy)
    }

    pub open spec fn width(self) -> int {
        2 * self.sx
    }

    pub open spec fn height(self) -> int {
        2 * self.sy
    }

    pub open spec fn left(self) -> int {
        self.cx - self.sx
    }

    pub open spec fn right(self) -> int {
        self.cx + self.sx
    }

    pub open spec fn top(self) -> int {
        self.cy + self.sy
    }

    pub open spec fn bottom(self) -> int {
        self.cy - self.sy
    }

    /// The bounding box of the rectangle.
    pub open spec fn spec_points(self) -> Points {
        Points {
            p1x: (self.cx - self.sx) as i64,
            p1y: (self.cy + self.sy) as i64,
            p2x: (self.cx + self.sx) as i64,
            p2y: (self.cy - self.sy) as i64,
        }
    }

    /// The bounding box of the rectangle.
    pub fn to_points(self) -> (r: Points)
        requires
            self.wf(),
        ensures
            r == self.spec_points(),
    {
        Points {
            p1x: self.cx - self.sx as i64,
            p1y: self.cy + self.sy as i64,
            p2x: self.cx + self.sx as i64,
            p2y: self.cy - self.sy as i64,
        }
    }

    /// Half-width of the left part when the rectangle is split at `f`.
    pub open spec fn split_left_sx(self, f: Fraction) -> int {
        (self.sx * f.num) / (f.den as int)
    }

    /// The two parts of the rectangle split along x at `f`: the left part
    /// takes the fraction `f` of the half-width (rounded down), the right part
    /// the rest, and both keep the full height.
    pub open spec fn spec_split_h(self, f: Fraction) -> (SizeAndCenter, SizeAndCenter) {
        let lsx = self.split_left_sx(f);
        let rsx = self.sx - lsx;
        (
            SizeAndCenter { sx: lsx as u32, sy: self.sy, cx: (self.cx - self.sx + lsx) as i64, cy: self.cy },
            SizeAndCenter { sx: rsx as u32, sy: self.sy, cx: (self.cx + self.sx - rsx) as i64, cy: self.cy },
        )
    }

    /// Splits the rectangle along x at `f` (see [`Self::spec_split_h`]).
    pub fn split_h(self, f: Fraction) -> (r: (SizeAndCenter, SizeAndCenter))
        requires
            self.wf(),
            f.wf(),
        ensures
            r == self.spec_split_h(f),
            r.0.wf() && r.1.wf(),
    {
        assert(0 <= self.sx * f.num <= u32::MAX * u32::MAX) by (nonlinear_arith)
            requires 0 <= self.sx <= u32::MAX, f.num <= u32::MAX;
        let prod: u64 = (self.sx as u64) * (f.num as u64);
        proof {
            assert(0 <= prod <= self.sx * f.den) by (nonlinear_arith)
                requires prod == self.sx * f.num, f.num <= f.den, 0 <= self.sx;
            assert((prod as int) / (f.den as int) <= self.sx) by (nonlinear_arith)
                requires 0 <= prod <= self.sx * f.den, 0 < f.den;
            assert(0 <= (prod as int) / (f.den as int)) by (nonlinear_arith)
                requires 0 <= prod, 0 < f.den;
        }
        let lsx: u32 = (prod / (f.den as u64)) as u32;
        let rsx: u32 = self.sx - lsx;
        let left_edge: i64 = self.cx - self.sx as i64;
        let right_edge: i64 = self.cx + self.sx as i64;
        (
            SizeAndCenter { sx: lsx, sy: self.sy, cx: left_edge + lsx as i64, cy: self.cy },
            SizeAndCenter { sx: rsx, sy: self.sy, cx: right_edge - rsx as i64, cy: self.cy },
        )
    }
}

impl Points {
    /// The degenerate box at the origin.
    pub fn zero() -> (r: Points)
        ensures
            r == (Points { p1x: 0, p1y: 0, p2x: 0, p2y: 0 }),
    {
        Points { p1x: 0, p1y: 0, p2x: 0, p2y: 0 }
    }

    pub open spec fn spec_contains(self, x: int, y: int) -> bool {
        self.p1x <= x <= self.p2x && self.p2y <= y <= self.p1y
    }

    /// The point lies in the left half of the box (the middle line included).
    pub open spec fn spec_left_contains(self, x: int, y: int) -> bool {
        self.p1x <= x && 2 * x <= self.p1x + self.p2x && self.p2y <= y <= self.p1y
    }

    /// The point lies in the right half of the box (the middle line included).
    pub open spec fn spec_right_contains(self, x: int, y: int) -> bool {
        self.p1x + self.p2x <= 2 * x && x <= self.p2x && self.p2y <= y <= self.p1y
    }

    pub fn contains(&self, x: i64, y: i64) -> (r: bool)
        ensures
            r == self.spec_contains(x as int, y as int),
    {
        self.p1x <= x && x <= self.p2x && self.p2y <= y && y <= self.p1y
    }

    pub fn left_contains(&self, x: i64, y: i64) -> (r: bool)
        ensures
            r == self.spec_left_contains(x as int, y as int),
    {
        self.p1x <= x && 2 * (x as i128) <= (self.p1x as i128) + (self.p2x as i128)
            && self.p2y <= y && y <= self.p1y
    }

    pub fn right_contains(&self, x: i64, y: i64) -> (r: bool)
        ensures
            r == self.spec_right_contains(x as int, y as int),
    {
        (self.p1x as i128) + (self.p2x as i128) <= 2 * (x as i128) && x <= self.p2x
            && self.p2y <= y && y <= self.p1y
    }
}

impl Points {
    pub open spec fn moved_x(self, dx: int) -> Points {
        Points { p1x: (self.p1x + dx) as i64, p2x: (self.p2x + dx) as i64, ..self }
    }

    pub open spec fn moved_y(self, dy: int) -> Points {
        Points { p1y: (self.p1y + dy) as i64, p2y: (self.p2y + dy) as i64, ..self }
    }

    pub open spec fn can_move_x(self, dx: int) -> bool {
        in_range(self.p1x + dx) && in_range(self.p2x + dx)
    }

    pub open spec fn can_move_y(self, dy: int) -> bool {
        in_range(self.p1y + dy) && in_range(self.p2y + dy)
    }

    /// Moves the box by `dx` along x.
    pub fn translate_x(&mut self, dx: i64)
        requires
            old(self).can_move_x(dx as int),
        ensures
            *final(self) == old(self).moved_x(dx as int),
    {
        self.p1x = self.p1x + dx;
        self.p2x = self.p2x + dx;
    }

    /// Moves the box by `dy` along y.
    pub fn translate_y(&mut self, dy: i64)
        requires
            old(self).can_move_y(dy as int),
        ensures
            *final(self) == old(self).moved_y(dy as int),
    {
        self.p1y = self.p1y + dy;
        self.p2y = self.p2y + dy;
    }
}

impl Line {
    pub open spec fn moved_x(self, dx: int) -> Line {
        Line { p1x: (self.p1x + dx) as i64, p2x: (self.p2x + dx) as i64, ..self }
    }

    pub open spec fn moved_y(self, dy: int) -> Line {
        Line { p1y: (self.p1y + dy) as i64, p2y: (self.p2y + dy) as i64, ..self }
    }

    pub open spec fn can_move_x(self, dx: int) -> bool {
        in_range(self.p1x + dx) && in_range(self.p2x + dx)
    }

    pub open spec fn can_move_y(self, dy: int) -> bool {
        in_range(self.p1y + dy) && in_range(self.p2y + dy)
    }
}

/// Every box of `s` can be moved by `dx` along x.
pub open spec fn all_points_can_move_x(s: Seq<Points>, dx: int) -> bool {
    forall|i: int| 0 <= i < s.len() ==> #[trigger] s[i].can_move_x(dx)
}

pub open spec fn all_points_can_move_y(s: Seq<Points>, dy: int) -> bool {
    forall|i: int| 0 <= i < s.len() ==> #[trigger] s[i].can_move_y(dy)
}

pub open spec fn all_lines_can_move_x(s: Seq<Line>, dx: int) -> bool {
    forall|i: int| 0 <= i < s.len() ==> #[trigger] s[i].can_move_x(dx)
}

pub open spec fn all_lines_can_move_y(s: Seq<Line>, dy: int) -> bool {
    forall|i: int| 0 <= i < s.len() ==> #[trigger] s[i].can_move_y(dy)
}

pub open spec fn points_moved_x(s: Seq<Points>, dx: int) -> Seq<Points> {
    s.map_values(|p: Points| p.moved_x(dx))
}

pub open spec fn points_moved_y(s: Seq<Points>, dy: int) -> Seq<Points> {
    s.map_values(|p: Points| p.moved_y(dy))
}

pub open spec fn lines_moved_x(s: Seq<Line>, dx: int) -> Seq<Line> {
    s.map_values(|l: Line| l.moved_x(dx))
}

pub open spec fn lines_moved_y(s: Seq<Line>, dy: int) -> Seq<Line> {
    s.map_values(|l: Line| l.moved_y(dy))
}

/// Moves every box of `v` by `dx` along x.
pub fn translate_points_x(v: &mut Vec<Points>, dx: i64)
    requires
        all_points_can_move_x(old(v)@, dx as int),
    ensures
        final(v)@ == points_moved_x(old(v)@, dx as int),
{
    let n = v.len();
    let mut i: usize = 0;
    while i < n
        invariant
            n == v.len(),
            n == old(v)@.len(),
            i <= n,
            all_points_can_move_x(old(v)@, dx as int),
            forall|j: int| 0 <= j < i ==> v@[j] == #[trigger] old(v)@[j].moved_x(dx as int),
            forall|j: int| i <= j < n ==> v@[j] == #[trigger] old(v)@[j],
        decreases n - i,
    {
        assert(old(v)@[i as int].can_move_x(dx as int) && v@[i as int] == old(v)@[i as int]);
        let mut p = v[i];
        p.translate_x(dx);
        v.set(i, p);
        i = i + 1;
    }
    assert(v@ =~= points_moved_x(old(v)@, dx as int));
}

/// Moves every box of `v` by `dy` along y.
pub fn translate_points_y(v: &mut Vec<Points>, dy: i64)
    requires
        all_points_can_move_y(old(v)@, dy as int),
    ensures
        final(v)@ == points_moved_y(old(v)@, dy as int),
{
    let n = v.len();
    let mut i: usize = 0;
    while i < n
        invariant
            n == v.len(),
            n == old(v)@.len(),
            i <= n,
            all_points_can_move_y(old(v)@, dy as int),
            forall|j: int| 0 <= j < i ==> v@[j] == #[trigger] old(v)@[j].moved_y(dy as int),
            forall|j: int| i <= j < n ==> v@[j] == #[trigger] old(v)@[j],
        decreases n - i,
    {
        assert(old(v)@[i as int].can_move_y(dy as int) && v@[i as int] == old(v)@[i as int]);
        let mut p = v[i];
        p.translate_y(dy);
        v.set(i, p);
        i = i + 1;
    }
    assert(v@ =~= points_moved_y(old(v)@, dy as int));
}

/// Moves every segment of `v` by `dx` along x.
pub fn translate_lines_x(v: &mut Vec<Line>, dx: i64)
    requires
        all_lines_can_move_x(old(v)@, dx as int),
    ensures
        final(v)@ == lines_moved_x(old(v)@, dx as int),
{
    let n = v.len();
    let mut i: usize = 0;
    while i < n
        invariant
            n == v.len(),
            n == old(v)@.len(),
            i <= n,
            all_lines_can_move_x(old(v)@, dx as int),
            forall|j: int| 0 <= j < i ==> v@[j] == #[trigger] old(v)@[j].moved_x(dx as int),
            forall|j: int| i <= j < n ==> v@[j] == #[trigger] old(v)@[j],
        decreases n - i,
    {
        assert(old(v)@[i as int].can_move_x(dx as int) && v@[i as int] == old(v)@[i as int]);
        let l = v[i];
        v.set(i, Line { p1x: l.p1x + dx, p2x: l.p2x + dx, ..l });
        i = i + 1;
    }
    assert(v@ =~= lines_moved_x(old(v)@, dx as int));
}

/// Moves every segment of `v` by `dy` along y.
pub fn translate_lines_y(v: &mut Vec<Line>, dy: i64)
    requires
        all_lines_can_move_y(old(v)@, dy as int),
    ensures
        final(v)@ == lines_moved_y(old(v)@, dy as int),
{
    let n = v.len();
    let mut i: usize = 0;
    while i < n
        invariant
            n == v.len(),
            n == old(v)@.len(),
            i <= n,
            all_lines_can_move_y(old(v)@, dy as int),
            forall|j: int| 0 <= j < i ==> v@[j] == #[trigger] old(v)@[j].moved_y(dy as int),
            forall|j: int| i <= j < n ==> v@[j] == #[trigger] old(v)@[j],
        decreases n - i,
    {
        assert(old(v)@[i as int].can_move_y(dy as int) && v@[i as int] == old(v)@[i as int]);
        let l = v[i];
        v.set(i, Line { p1y: l.p1y + dy, p2y: l.p2y + dy, ..l });
        i = i + 1;
    }
    assert(v@ =~= lines_moved_y(old(v)@, dy as int));
}

/// The four sides of the box spanning `xmin..xmax` and `ymin..ymax`, drawn
/// clockwise from the bottom-left corner: left, top, right, bottom.
pub open spec fn spec_outline(xmin: i64, xmax: i64, ymin: i64, ymax: i64) -> Seq<Line> {
    seq![
        Line { p1x: xmin, p1y: ymin, p2x: xmin, p2y: ymax },
        Line { p1x: xmin, p1y: ymax, p2x: xmax, p2y: ymax },
        Line { p1x: xmax, p1y: ymax, p2x: xmax, p2y: ymin },
        Line { p1x: xmax, p1y: ymin, p2x: xmin, p2y: ymin },
    ]
}

/// The four sides of a box (see [`spec_outline`]).
pub fn outline(xmin: i64, xmax: i64, ymin: i64, ymax: i64) -> (r: Vec<Line>)
    ensures
        r@ == spec_outline(xmin, xmax, ymin, ymax),
{
    let r = vec![
        Line { p1x: xmin, p1y: ymin, p2x: xmin, p2y: ymax },
        Line { p1x: xmin, p1y: ymax, p2x: xmax, p2y: ymax },
        Line { p1x: xmax, p1y: ymax, p2x: xmax, p2y: ymin },
        Line { p1x: xmax, p1y: ymin, p2x: xmin, p2y: ymin },
    ];
    assert(r@ =~= spec_outline(xmin, xmax, ymin, ymax));
    r
}

/// Moving segments by zero leaves them as they are.
pub proof fn lemma_lines_moved_x_zero(s: Seq<Line>)
    ensures
        lines_moved_x(s, 0) == s,
{
    assert(lines_moved_x(s, 0) =~= s);
}

/// Moving segments by `dx` and back by `-dx` gives them back.
pub proof fn lemma_lines_moved_x_inverse(s: Seq<Line>, dx: int)
    requires
        all_lines_can_move_x(s, dx),
    ensures
        lines_moved_x(lines_moved_x(s, dx), -dx) == s,
{
    assert forall|i: int| 0 <= i < s.len() implies lines_moved_x(lines_moved_x(s, dx), -dx)[i]
        == s[i] by {
        assert(s[i].can_move_x(dx));
    }
    assert(lines_moved_x(lines_moved_x(s, dx), -dx) =~= s);
}

/// Moving boxes by zero leaves them as they are.
pub proof fn lemma_points_moved_x_zero(s: Seq<Points>)
    ensures
        points_moved_x(s, 0) == s,
{
    assert(points_moved_x(s, 0) =~= s);
}

/// Moving boxes by `dx` and back by `-dx` gives them back.
pub proof fn lemma_points_moved_x_inverse(s: Seq<Points>, dx: int)
    requires
        all_points_can_move_x(s, dx),
    ensures
        points_moved_x(points_moved_x(s, dx), -dx) == s,
{
    assert forall|i: int| 0 <= i < s.len() implies points_moved_x(points_moved_x(s, dx), -dx)[i]
        == s[i] by {
        assert(s[i].can_move_x(dx));
    }
    assert(points_moved_x(points_moved_x(s, dx), -dx) =~= s);
}

/// Splitting a rectangle at a fraction partitions its width without gap or
/// overlap: the widths add up to the whole, the left part ends where the
/// right part begins, both span the full height, and the left width is the
/// fraction of the whole width, exactly when the division is exact and
/// otherwise rounded down to an even number of units.
pub proof fn lemma_split_h_partitions(rect: SizeAndCenter, f: Fraction)
    requires
        rect.wf(),
        f.wf(),
    ensures
        ({
            let (l, r) = rect.spec_split_h(f);
            &&& l.width() + r.width() == rect.width()
            &&& l.left() == rect.left()
            &&& r.right() == rect.right()
            &&& l.right() == r.left()
            &&& l.height() == rect.height() && r.height() == rect.height()
            &&& l.cy == rect.cy && r.cy == rect.cy
            &&& l.width() * f.den <= rect.width() * f.num
            &&& rect.width() * f.num < (l.width() + 2) * f.den
            &&& ((rect.sx * f.num) % (f.den as int) == 0 ==> l.width() * f.den == rect.width() * f.num)
        }),
{
    let p = rect.sx * f.num;
    let d = f.den as int;
    assert(0 <= p <= rect.sx * f.den) by (nonlinear_arith)
        requires p == rect.sx * f.num, f.num <= f.den, 0 <= rect.sx;
    assert(0 <= p / d <= rect.sx) by (nonlinear_arith)
        requires 0 <= p <= rect.sx * d, 0 < d;
    assert(p == d * (p / d) + p % d && 0 <= p % d < d) by (nonlinear_arith)
        requires 0 < d;
    let l = rect.spec_split_h(f).0;
    assert(l.sx == p / d);
    assert(l.width() * d <= rect.width() * f.num) by (nonlinear_arith)
        requires l.sx == p / d, p == d * (p / d) + p % d, 0 <= p % d, p == rect.sx * f.num;
    assert(rect.width() * f.num < (l.width() + 2) * d) by (nonlinear_arith)
        requires l.sx == p / d, p == d * (p / d) + p % d, p % d < d, p == rect.sx * f.num;
    assert(p % d == 0 ==> l.width() * d == rect.width() * f.num) by (nonlinear_arith)
        requires l.sx == p / d, p == d * (p / d) + p % d, p == rect.sx * f.num;
}

} // verus!
