use arcade_rs::bullets::{
    Bullet, CannonType, sin_milli, spawn_bullets, BULLET_W, BULLET_H,
};
use arcade_rs::data::Rectangle;

#[test]
fn sine_hits_exact_quarter_points() {
    assert_eq!(sin_milli(0), 0);
    assert_eq!(sin_milli(1571), 1000);
    assert_eq!(sin_milli(3142), 0);
    // second half turn is negative
    assert!(sin_milli(4712) < -990);
    // one full turn later the value repeats
    assert_eq!(sin_milli(1571 + 6283), sin_milli(1571));
}

#[test]
fn rect_bullet_advances_exactly() {
    let b = Bullet::Rect { rect: Rectangle { x: 100_000, y: 300_000, w: BULLET_W, h: BULLET_H } };
    match b.update(2000, 800_000).unwrap() {
        Bullet::Rect { rect } => {
            assert_eq!(rect.x, 580_000);
            assert_eq!(rect.y, 300_000);
        },
        _ => panic!("variant must not change"),
    }
}

#[test]
fn bullet_leaves_on_crossing_the_width() {
    let b = Bullet::Rect { rect: Rectangle { x: 580_000, y: 300_000, w: BULLET_W, h: BULLET_H } };
    // 580_000 + 240 * 1000 = 820_000 > 800_000: gone this tick
    assert!(b.update(1000, 800_000).is_none());
    // exactly at the width it stays
    let c = Bullet::Rect { rect: Rectangle { x: 560_000, y: 300_000, w: BULLET_W, h: BULLET_H } };
    match c.update(1000, 800_000).unwrap() {
        Bullet::Rect { rect } => assert_eq!(rect.x, 800_000),
        _ => panic!("variant must not change"),
    }
}

#[test]
fn sine_bullet_offset_is_function_of_time_alive() {
    let b = Bullet::Sine {
        pos_x: 100_000,
        origin_y: 300_000,
        amplitude: 10_000,
        angular_vel: 15_000,
        total_time: 500,
    };
    // angle = 15_000 * 500 / 1000 = 7500 milliradians; reduced 1217;
    // the fixed-point sine gives 937, so the offset is 9_370.
    let r = b.rect();
    assert_eq!(r, Rectangle { x: 100_000, y: 309_370, w: BULLET_W, h: BULLET_H });
    // recomputing gives the very same box: no hidden state
    assert_eq!(b.rect(), r);
}

#[test]
fn sine_bullet_update_accumulates_time() {
    let b = Bullet::Sine {
        pos_x: 100_000,
        origin_y: 300_000,
        amplitude: 10_000,
        angular_vel: 15_000,
        total_time: 0,
    };
    match b.update(500, 800_000).unwrap() {
        Bullet::Sine { pos_x, total_time, .. } => {
            assert_eq!(pos_x, 220_000);
            assert_eq!(total_time, 500);
        },
        _ => panic!("variant must not change"),
    }
}

#[test]
fn spawn_bullets_uses_both_mounts() {
    let spawned = spawn_bullets(CannonType::RectBullet, 94_000, 286_500, 309_500);
    assert_eq!(spawned.len(), 2);
    assert_eq!(
        spawned[0],
        Bullet::Rect { rect: Rectangle { x: 94_000, y: 286_500, w: BULLET_W, h: BULLET_H } },
    );
    assert_eq!(
        spawned[1],
        Bullet::Rect { rect: Rectangle { x: 94_000, y: 309_500, w: BULLET_W, h: BULLET_H } },
    );
}

#[test]
fn spawn_bullets_sine_carries_parameters() {
    let cannon = CannonType::SineBullet { amplitude: 10_000, angular_vel: 15_000 };
    let spawned = spawn_bullets(cannon, 94_000, 286_500, 309_500);
    assert_eq!(spawned.len(), 2);
    match spawned[0] {
        Bullet::Sine { pos_x, origin_y, amplitude, angular_vel, total_time } => {
            assert_eq!(pos_x, 94_000);
            assert_eq!(origin_y, 286_500);
            assert_eq!(amplitude, 10_000);
            assert_eq!(angular_vel, 15_000);
            assert_eq!(total_time, 0);
        },
        _ => panic!("expected the sine variant"),
    }
}
