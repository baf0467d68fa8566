use breach::geometry::{clamp, isqrt, Pos, Rect, SUB};

fn rect(x: i64, y: i64, w: i64, h: i64) -> Rect {
    Rect::new(&Pos(x, y), w, h)
}

#[test]
fn intersects_is_symmetric() {
    let cases = [
        (rect(0, 0, 10, 10), rect(5, 5, 10, 10)),
        (rect(0, 0, 10, 10), rect(20, 0, 5, 5)),
        (rect(-5, -5, 3, 3), rect(-4, -4, 1, 1)),
        (rect(0, 0, 10, 10), rect(10, 0, 10, 10)),
    ];
    for (a, b) in cases.iter() {
        assert_eq!(a.intersects(b), b.intersects(a));
    }
    assert!(cases[0].0.intersects(&cases[0].1));
    assert!(!cases[1].0.intersects(&cases[1].1));
    assert!(cases[2].0.intersects(&cases[2].1));
}

#[test]
fn edge_touch_is_not_intersection() {
    let a = rect(10, 10, 2, 3);
    assert!(!a.intersects(&rect(12, 10, 2, 3)));
    assert!(!a.intersects(&rect(10, 13, 2, 3)));
    assert!(!a.intersects(&rect(8, 10, 2, 3)));
    assert!(!a.intersects(&rect(10, 7, 2, 3)));
    assert!(a.intersects(&rect(11, 10, 2, 3)));
    assert!(a.intersects(&a));
}

#[test]
fn contains_is_half_open() {
    let r = rect(0, 0, 80 * SUB, 24 * SUB);
    assert!(r.contains(&Pos(0, 0)));
    assert!(r.contains(&Pos(79_999, 23_999)));
    assert!(!r.contains(&Pos(80 * SUB, 0)));
    assert!(!r.contains(&Pos(0, 24 * SUB)));
    assert!(!r.contains(&Pos(-1, 5)));
    // the vertical test uses the height, not the width
    assert!(r.contains(&Pos(0, 23 * SUB)));
    assert!(!r.contains(&Pos(0, 30 * SUB)));
}

#[test]
fn center_of_rect() {
    assert_eq!(rect(1000, 2000, 3000, 3000).center(), Pos(2500, 3500));
    assert_eq!(rect(0, 0, 5, 3).center(), Pos(2, 1));
}

#[test]
fn transpose_and_offset() {
    assert_eq!(Pos(1, 2).transpose(Pos(10, -20)), Pos(11, -18));
    assert_eq!(Pos(11, -18).offset_from(&Pos(1, 2)), Pos(10, -20));
}

#[test]
fn integer_square_root() {
    assert_eq!(isqrt(0), 0);
    assert_eq!(isqrt(1), 1);
    assert_eq!(isqrt(24), 4);
    assert_eq!(isqrt(25), 5);
    assert_eq!(isqrt(26), 5);
    assert_eq!(isqrt(u64::MAX), 4_294_967_295);
}

#[test]
fn step_along_headings() {
    assert_eq!(Pos(SUB, 0).step_along(500, 500), Pos(500, 0));
    assert_eq!(Pos(0, -7).step_along(500, 500), Pos(0, -500));
    assert_eq!(Pos(3, 4).step_along(500, 500), Pos(300, 400));
    assert_eq!(Pos(-3, -4).step_along(200, 100), Pos(-120, -80));
    // the zero vector heads along the positive x axis
    assert_eq!(Pos(0, 0).step_along(200, 100), Pos(200, 0));
}

#[test]
fn clamp_limits() {
    assert_eq!(clamp(5, 0, 10), 5);
    assert_eq!(clamp(-5, 0, 10), 0);
    assert_eq!(clamp(50, 0, 10), 10);
    // an empty range gives its lower end
    assert_eq!(clamp(50, 0, -10), 0);
}
