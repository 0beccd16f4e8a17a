use bui_basic::column::VecColumn;
use bui_basic::construct::{
    Construct, Freeform2DCapsule, Freeform2DCapsuleTarget, LineTarget, StandardConstructTarget,
};
use bui_basic::containers::{
    Fill, FillContainer, FillWidth, GetHeight, HSplitContainer, HeightContainer, Init, NoContainer,
    SetCenterTopPosition, VStackContainer,
};
use bui_basic::geometry::{Fraction, Line, Points, SizeAndCenter, UNIT};
use bui_basic::signal::{ReconstructCallback, RedrawCallback, ShortCircuitingCallback};

fn rect(sx: u32, sy: u32, cx: i64, cy: i64) -> SizeAndCenter {
    SizeAndCenter { sx, sy, cx, cy }
}

#[test]
fn split_h_partitions_width() {
    let r = rect(100, 40, 10, -5);
    let (l, rt) = r.split_h(Fraction { num: 1, den: 4 });
    assert_eq!(l.sx, 25);
    assert_eq!(rt.sx, 75);
    assert_eq!(2 * l.sx + 2 * rt.sx, 2 * r.sx);
    assert_eq!(l.cx - l.sx as i64, r.cx - r.sx as i64);
    assert_eq!(l.cx + l.sx as i64, rt.cx - rt.sx as i64);
    assert_eq!(rt.cx + rt.sx as i64, r.cx + r.sx as i64);
    assert_eq!(l.sy, 40);
    assert_eq!(rt.sy, 40);
    assert_eq!(l.cy, -5);
    assert_eq!(rt.cy, -5);
    assert_eq!(l.cx, -65);
    assert_eq!(rt.cx, 35);
}

#[test]
fn split_h_rounds_left_width_down() {
    let r = rect(10, 1, 0, 0);
    let (l, rt) = r.split_h(Fraction { num: 1, den: 3 });
    assert_eq!(l.sx, 3);
    assert_eq!(rt.sx, 7);
    assert_eq!(l.cx + l.sx as i64, rt.cx - rt.sx as i64);
}

#[test]
fn split_h_edge_fractions() {
    let r = rect(8, 2, 0, 0);
    let (l, rt) = r.split_h(Fraction { num: 0, den: 5 });
    assert_eq!(l.sx, 0);
    assert_eq!(rt, r);
    let (l, rt) = r.split_h(Fraction { num: 5, den: 5 });
    assert_eq!(l, r);
    assert_eq!(rt.sx, 0);
}

#[test]
fn points_halves() {
    let p = rect(10, 5, 0, 0).to_points();
    assert_eq!(p, Points { p1x: -10, p1y: 5, p2x: 10, p2y: -5 });
    assert!(p.contains(10, -5));
    assert!(!p.contains(11, 0));
    assert!(p.left_contains(-3, 0));
    assert!(!p.right_contains(-3, 0));
    assert!(p.right_contains(3, 0));
    assert!(p.left_contains(0, 0) && p.right_contains(0, 0));
    assert!(!p.left_contains(0, 6));
}

#[test]
fn reconstruct_callbacks_combine() {
    let mut a: ReconstructCallback<LineTarget> = ReconstructCallback::new(false);
    assert!(!a.get_reconstruct());
    a.or(ReconstructCallback::new(false));
    assert!(!a.get_reconstruct());
    a.or(ReconstructCallback::new(true));
    assert!(a.get_reconstruct());
    a.or(ReconstructCallback::new(false));
    assert!(a.get_reconstruct());
    let d: ReconstructCallback<LineTarget> = Default::default();
    assert!(!d.get_reconstruct());
    let t: ReconstructCallback<LineTarget> = ReconstructCallback::new(true);
    assert!(d.or_into(t).get_reconstruct());
    assert!(t.or_into(d).get_reconstruct());
    assert!(!d.or_into(d).get_reconstruct());
}

#[test]
fn redraw_callbacks_combine() {
    let mut r = RedrawCallback::new(false);
    r.or(RedrawCallback::new(false));
    assert!(!r.get_redraw());
    r.or(RedrawCallback::new(true));
    assert!(r.get_redraw());
}

#[test]
fn line_target_appends_in_order() {
    let a = Line { p1x: 1, p1y: 1, p2x: 2, p2y: 2 };
    let b = Line { p1x: 3, p1y: 3, p2x: 4, p2y: 4 };
    let mut t = LineTarget::empty();
    assert!(t.0.is_empty());
    t.append(LineTarget(vec![a]));
    let t = t.append_into(LineTarget(vec![b]));
    assert_eq!(t.0, vec![a, b]);
    let d: LineTarget = Default::default();
    assert!(d.0.is_empty());
}

#[test]
fn column_reposition_stacks_children() {
    let mut col = VecColumn::new();
    col.push(FillContainer::new(NoContainer {}, rect(50, 10, 0, 0)));
    col.push(FillContainer::new(NoContainer {}, rect(50, 20, 0, 0)));
    col.push(FillContainer::new(NoContainer {}, rect(50, 5, 0, 0)));
    col.set_top_y(100);
    col.reposition_children();
    let children = col.get_children_mut();
    let tops: Vec<i64> = children
        .iter()
        .map(|c| {
            let t = c.get_fill_target();
            t.cy + t.sy as i64
        })
        .collect();
    assert_eq!(tops, vec![100, 80, 40]);
    let last = children[2].get_fill_target();
    assert_eq!(last.cy - last.sy as i64, 100 - 20 - 40 - 10);
    assert_eq!(children[1].get_height(), 40);
}

#[test]
fn column_new_anchor_is_top_of_screen() {
    let mut col: VecColumn<FillContainer<NoContainer>> = VecColumn::new();
    col.push(FillContainer::new(NoContainer {}, rect(1, 3, 7, 7)));
    col.reposition_children();
    let c = col.get_children_mut()[0].get_fill_target();
    assert_eq!(c.cx, 0);
    assert_eq!(c.cy + c.sy as i64, UNIT);
}

#[test]
fn fill_container_set_center_top() {
    let mut f = FillContainer::new(NoContainer {}, rect(4, 6, 0, 0));
    f.set_center_top_position(9, 30);
    assert_eq!(f.get_fill_target(), rect(4, 6, 9, 24));
    assert_eq!(f.get_height(), 12);
    f.init();
}

#[test]
fn width_driven_layout_threads_top_edge() {
    let mut stack = VStackContainer::new(
        HeightContainer::new(NoContainer {}, 10),
        HeightContainer::new(NoContainer {}, 15),
    );
    assert_eq!(stack.fill_width(100, 0, 500), 500 - 20 - 30);
    let mut col: VecColumn<HeightContainer<NoContainer>> = VecColumn::from(vec![
        HeightContainer::new(NoContainer {}, 1),
        HeightContainer::new(NoContainer {}, 2),
        HeightContainer::new(NoContainer {}, 3),
    ]);
    assert_eq!(col.fill_width(10, 0, 0), -12);
    let mut empty: VecColumn<HeightContainer<NoContainer>> = VecColumn::new();
    assert_eq!(empty.fill_width(10, 0, 7), 7);
    let mut none = NoContainer {};
    assert_eq!(none.fill_width(1, 2, 3), 3);
}

#[test]
fn empty_column_constructs_empty_target() {
    let col: VecColumn<NoContainer> = VecColumn::new();
    let t: LineTarget = col.construct();
    assert!(t.0.is_empty());
}

#[test]
fn hsplit_fill_reaches_both_sides() {
    let mut split = HSplitContainer::new(NoContainer {}, Fraction { num: 1, den: 2 }, NoContainer {});
    split.fill(rect(10, 10, 0, 0));
    let t: LineTarget = split.construct();
    assert!(t.0.is_empty());
    split.init();
}

#[test]
fn capsule_target_appends_in_order() {
    let a = Freeform2DCapsule { p1x: 0, p1y: 0, p2x: 5, p2y: 0, radius: 2 };
    let b = Freeform2DCapsule { p1x: 1, p1y: 1, p2x: 1, p2y: 9, radius: 1 };
    let mut t = Freeform2DCapsuleTarget::empty();
    assert!(t.0.is_empty());
    t.append(Freeform2DCapsuleTarget(vec![a]));
    let t = t.append_into(Freeform2DCapsuleTarget(vec![b]));
    assert_eq!(t.0, vec![a, b]);
    let col: VecColumn<NoContainer> = VecColumn::new();
    let built: Freeform2DCapsuleTarget = col.construct();
    assert!(built.0.is_empty());
}
