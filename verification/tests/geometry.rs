use arcade_rs::data::{Rectangle, MaybeAlive, div_units};

#[test]
fn div_units_floors() {
    assert_eq!(div_units(7, 2), 3);
    assert_eq!(div_units(0, 5), 0);
    assert_eq!(div_units(1000, 16), 62);
}

#[test]
fn with_size_starts_at_origin() {
    let r = Rectangle::with_size(32_000, 48_000);
    assert_eq!(r, Rectangle { x: 0, y: 0, w: 32_000, h: 48_000 });
}

#[test]
fn contains_accepts_inner_box() {
    let outer = Rectangle { x: 0, y: 0, w: 100_000, h: 100_000 };
    let inner = Rectangle { x: 10_000, y: 10_000, w: 50_000, h: 50_000 };
    assert!(outer.contains(inner));
    assert!(!inner.contains(outer));
}

#[test]
fn contains_rejects_protruding_box() {
    let outer = Rectangle { x: 0, y: 0, w: 100_000, h: 100_000 };
    let poking = Rectangle { x: 60_000, y: 0, w: 50_000, h: 50_000 };
    assert!(!outer.contains(poking));
}

#[test]
fn overlaps_is_half_open() {
    let a = Rectangle { x: 0, y: 0, w: 10_000, h: 10_000 };
    let touching = Rectangle { x: 10_000, y: 0, w: 10_000, h: 10_000 };
    let crossing = Rectangle { x: 9_999, y: 9_999, w: 10_000, h: 10_000 };
    assert!(!a.overlaps(touching));
    assert!(a.overlaps(crossing));
    assert!(crossing.overlaps(a));
}

#[test]
fn move_inside_clamps_on_both_sides() {
    let parent = Rectangle { x: 0, y: 0, w: 560_000, h: 600_000 };
    let left = Rectangle { x: -5_000, y: 100_000, w: 43_000, h: 39_000 };
    let clamped = left.move_inside(parent).unwrap();
    assert_eq!(clamped, Rectangle { x: 0, y: 100_000, w: 43_000, h: 39_000 });
    let right = Rectangle { x: 550_000, y: 100_000, w: 43_000, h: 39_000 };
    let clamped = right.move_inside(parent).unwrap();
    assert_eq!(clamped, Rectangle { x: 517_000, y: 100_000, w: 43_000, h: 39_000 });
}

#[test]
fn move_inside_fails_on_oversized_box() {
    let parent = Rectangle { x: 0, y: 0, w: 40_000, h: 600_000 };
    let wide = Rectangle { x: 0, y: 0, w: 43_000, h: 39_000 };
    assert!(wide.move_inside(parent).is_none());
}

#[test]
fn center_and_center_at_round_down() {
    let r = Rectangle { x: 10_000, y: 20_000, w: 5_000, h: 3_000 };
    assert_eq!(r.center(), (12_500, 21_500));
    let moved = Rectangle::with_size(96_000, 96_000).center_at((100_000, 200_000));
    assert_eq!(moved, Rectangle { x: 52_000, y: 152_000, w: 96_000, h: 96_000 });
}

#[test]
fn maybe_alive_keeps_only_live_values() {
    let live = MaybeAlive { alive: true, value: 7u64 };
    let dead = MaybeAlive { alive: false, value: 7u64 };
    assert_eq!(live.as_option(), Some(7));
    assert_eq!(dead.as_option(), None);
}
