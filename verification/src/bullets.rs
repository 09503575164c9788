//! Projectiles: the straight-flying and the sinusoidal cannon variants,
//! their per-tick ballistics, and the double-mount spawner.
//!
//! The sinusoidal variant derives its vertical offset from a fixed-point
//! sine in thousandths: angles are in milliradians and the sine value is
//! scaled by one thousand. The offset is a pure function of the time alive,
//! so a sine projectile's position is exactly reproducible from its spawn
//! parameters.

use vstd::prelude::*;
use crate::data::{Rectangle, div_units, COORD_LIMIT, SCREEN_LIMIT, MAX_ELAPSED};
use crate::gfx::{Color, DrawCommand, Renderer};
use vstd::arithmetic::div_mod::{
    lemma_div_is_ordered, lemma_div_multiples_vanish, lemma_div_pos_is_pos,
};

verus! {

/// Horizontal projectile speed, in milliunits per second.
pub const BULLET_SPEED: i64 = 240_000;

/// Projectile width in milliunits.
pub const BULLET_W: i64 = 8_000;

/// Projectile height in milliunits.
pub const BULLET_H: i64 = 4_000;

/// Largest sine-cannon amplitude, in milliunits.
pub const AMPLITUDE_LIMIT: i64 = 0x10_0000;

/// Largest sine-cannon angular velocity, in milliradians per second.
pub const ANGULAR_VEL_LIMIT: i64 = 0x10_0000;

/// Largest projectile abscissa the state carries, in milliunits.
pub const BULLET_X_LIMIT: i64 = 0x100_0000 + 100_000;

/// The solid color projectiles are drawn with.
pub open spec fn spec_bullet_color() -> Color {
    Color { r: 230, g: 230, b: 30 }
}

/// The solid color projectiles are drawn with.
pub fn bullet_color() -> (c: Color)
    ensures
        c == spec_bullet_color(),
{
    Color { r: 230, g: 230, b: 30 }
}

/// Half a turn, in milliradians.
pub const MILLI_PI: i64 = 3142;

/// A full turn, in milliradians.
pub const MILLI_TAU: i64 = 6283;

/// The rational sine approximation on a half turn, scaled by one thousand:
/// `16000 p / (49360820 - 4 p)` with `p = x (3142 - x)`.
pub open spec fn spec_half_sine(x: int) -> int {
    16000 * (x * (3142 - x)) / (49_360_820 - 4 * (x * (3142 - x)))
}

/// The fixed-point sine of a non-negative angle in milliradians, scaled by
/// one thousand: the angle is reduced to one turn, and the second half turn
/// is the negated first.
pub open spec fn spec_sin_milli(a: int) -> int {
    let r = a % 6283;
    if r < 3142 {
        spec_half_sine(r)
    } else {
        -spec_half_sine(r - 3142)
    }
}

fn half_sine(x: i64) -> (s: i64)
    requires
        0 <= x <= MILLI_PI,
    ensures
        s == spec_half_sine(x as int),
        0 <= s <= 1000,
{
    proof {
        assert(0 <= x * (3142 - x) <= 2_468_041) by (nonlinear_arith)
            requires
                0 <= x <= 3142,
        ;
    }
    let p = x * (MILLI_PI - x);
    let num = 16000 * p;
    let den = 49_360_820 - 4 * p;
    let s = div_units(num, den);
    proof {
        lemma_div_is_ordered(num as int, 1000 * den as int, den as int);
        lemma_div_multiples_vanish(1000, den as int);
        assert(den as int * 1000 == 1000 * den as int) by (nonlinear_arith);
    }
    s
}

/// The fixed-point sine of a non-negative angle in milliradians, scaled by
/// one thousand.
pub fn sin_milli(a: i64) -> (s: i64)
    requires
        0 <= a,
    ensures
        s == spec_sin_milli(a as int),
        -1000 <= s <= 1000,
{
    let r = ((a as u64) % 6283) as i64;
    if r < 3142 {
        half_sine(r)
    } else {
        let mag = half_sine(r - 3142);
        -mag
    }
}

/// The vertical offset of a sine projectile: the amplitude scaled by the
/// sine of the accumulated angle, truncated toward zero.
pub open spec fn spec_sine_offset(amplitude: int, angular_vel: int, total_time: int) -> int {
    let s = spec_sin_milli(angular_vel * total_time / 1000);
    if s >= 0 {
        amplitude * s / 1000
    } else {
        -(amplitude * (-s) / 1000)
    }
}

/// The cannon configuration a craft fires with. It affects only
/// subsequently spawned projectiles, never in-flight ones.
#[derive(Clone, Copy, Debug, PartialEq, Eq, Structural)]
pub enum CannonType {
    RectBullet,
    SineBullet { amplitude: i64, angular_vel: i64 },
}

impl CannonType {
    pub open spec fn wf(self) -> bool {
        match self {
            CannonType::RectBullet => true,
            CannonType::SineBullet { amplitude, angular_vel } => {
                &&& 0 <= amplitude <= AMPLITUDE_LIMIT
                &&& 0 <= angular_vel <= ANGULAR_VEL_LIMIT
            },
        }
    }
}

/// A projectile in flight. The straight variant stores its box; the sine
/// variant stores its spawn parameters and derives its box.
#[derive(Clone, Copy, Debug, PartialEq, Eq, Structural)]
pub enum Bullet {
    Rect { rect: Rectangle },
    Sine { pos_x: i64, origin_y: i64, amplitude: i64, angular_vel: i64, total_time: i64 },
}

impl Bullet {
    pub open spec fn wf(self) -> bool {
        match self {
            Bullet::Rect { rect } => {
                &&& rect.valid()
                &&& rect.w == BULLET_W
                &&& rect.h == BULLET_H
                &&& 0 <= rect.x <= BULLET_X_LIMIT
                &&& -SCREEN_LIMIT <= rect.y <= 2 * SCREEN_LIMIT
            },
            Bullet::Sine { pos_x, origin_y, amplitude, angular_vel, total_time } => {
                &&& 0 <= pos_x <= BULLET_X_LIMIT
                &&& -SCREEN_LIMIT <= origin_y <= 2 * SCREEN_LIMIT
                &&& 0 <= amplitude <= AMPLITUDE_LIMIT
                &&& 0 <= angular_vel <= ANGULAR_VEL_LIMIT
                &&& 0 <= total_time
                &&& 240 * total_time <= pos_x
            },
        }
    }

    /// The bounding box the projectile occupies right now.
    pub open spec fn spec_rect(self) -> Rectangle {
        match self {
            Bullet::Rect { rect } => rect,
            Bullet::Sine { pos_x, origin_y, amplitude, angular_vel, total_time } => Rectangle {
                x: pos_x,
                y: (origin_y + spec_sine_offset(
                    amplitude as int,
                    angular_vel as int,
                    total_time as int,
                )) as i64,
                w: BULLET_W,
                h: BULLET_H,
            },
        }
    }

    /// The projectile after one tick of `dt` milliseconds on a surface
    /// `w` milliunits wide: it advances, and is dropped once its abscissa
    /// exceeds the visible width.
    pub open spec fn spec_update(self, dt: int, w: int) -> Option<Bullet> {
        let moved = self.spec_advance(dt);
        if moved.spec_rect().x > w {
            None
        } else {
            Some(moved)
        }
    }

    /// The projectile advanced by `dt` milliseconds, before the off-screen
    /// check.
    pub open spec fn spec_advance(self, dt: int) -> Bullet {
        match self {
            Bullet::Rect { rect } => Bullet::Rect {
                rect: Rectangle { x: (rect.x + 240 * dt) as i64, y: rect.y, w: rect.w, h: rect.h },
            },
            Bullet::Sine { pos_x, origin_y, amplitude, angular_vel, total_time } => Bullet::Sine {
                pos_x: (pos_x + 240 * dt) as i64,
                origin_y,
                amplitude,
                angular_vel,
                total_time: (total_time + dt) as i64,
            },
        }
    }

    fn sine_offset(amplitude: i64, angular_vel: i64, total_time: i64) -> (dy: i64)
        requires
            0 <= amplitude <= AMPLITUDE_LIMIT,
            0 <= angular_vel <= ANGULAR_VEL_LIMIT,
            0 <= total_time <= BULLET_X_LIMIT,
        ensures
            dy == spec_sine_offset(amplitude as int, angular_vel as int, total_time as int),
            -amplitude <= dy <= amplitude,
    {
        proof {
            assert(0 <= angular_vel * total_time <= ANGULAR_VEL_LIMIT * BULLET_X_LIMIT)
                by (nonlinear_arith)
                requires
                    0 <= angular_vel <= ANGULAR_VEL_LIMIT,
                    0 <= total_time <= BULLET_X_LIMIT,
            ;
        }
        let angle = div_units(angular_vel * total_time, 1000);
        let s = sin_milli(angle);
        if s >= 0 {
            proof {
                assert(0 <= amplitude * s <= amplitude * 1000) by (nonlinear_arith)
                    requires
                        0 <= amplitude,
                        0 <= s <= 1000,
                ;
                lemma_div_is_ordered(amplitude * s, amplitude * 1000, 1000);
                lemma_div_multiples_vanish(amplitude as int, 1000);
                assert(amplitude * 1000 == 1000 * amplitude) by (nonlinear_arith);
                lemma_div_pos_is_pos(amplitude * s, 1000);
            }
            div_units(amplitude * s, 1000)
        } else {
            proof {
                assert(0 <= amplitude * (-s) <= amplitude * 1000) by (nonlinear_arith)
                    requires
                        0 <= amplitude,
                        0 <= -s <= 1000,
                ;
                lemma_div_is_ordered(amplitude * (-s), amplitude * 1000, 1000);
                lemma_div_multiples_vanish(amplitude as int, 1000);
                assert(amplitude * 1000 == 1000 * amplitude) by (nonlinear_arith);
                lemma_div_pos_is_pos(amplitude * (-s), 1000);
            }
            let mag = div_units(amplitude * (-s), 1000);
            -mag
        }
    }

    /// The bounding box the projectile occupies right now.
    pub fn rect(&self) -> (r: Rectangle)
        requires
            self.wf(),
        ensures
            r == self.spec_rect(),
            r.valid(),
            r.w == BULLET_W,
            r.h == BULLET_H,
    {
        match *self {
            Bullet::Rect { rect } => rect,
            Bullet::Sine { pos_x, origin_y, amplitude, angular_vel, total_time } => {
                let dy = Self::sine_offset(amplitude, angular_vel, total_time);
                Rectangle { x: pos_x, y: origin_y + dy, w: BULLET_W, h: BULLET_H }
            },
        }
    }

    /// The command that draws the projectile: a solid filled box.
    pub open spec fn spec_render_cmd(self) -> DrawCommand {
        DrawCommand::FillRect { color: spec_bullet_color(), rect: self.spec_rect() }
    }

    /// Records the draw command for this projectile: its box, filled with
    /// the projectile color.
    pub fn render(&self, renderer: &mut Renderer)
        requires
            self.wf(),
        ensures
            final(renderer).commands@ == old(renderer).commands@.push(self.spec_render_cmd()),
            final(renderer).color == spec_bullet_color(),
    {
        renderer.set_draw_color(bullet_color());
        let r = self.rect();
        renderer.fill_rect(r);
    }

    /// One tick of ballistics: advance by `dt` milliseconds and drop the
    /// projectile exactly when its abscissa leaves the width `w`.
    pub fn update(self, dt: i64, w: i64) -> (r: Option<Bullet>)
        requires
            self.wf(),
            0 <= dt <= MAX_ELAPSED,
            0 <= w <= SCREEN_LIMIT,
        ensures
            r == self.spec_update(dt as int, w as int),
            r matches Some(b) ==> b.wf() && b == self.spec_advance(dt as int),
    {
        match self {
            Bullet::Rect { rect } => {
                let new_x = rect.x + 240 * dt;
                if new_x > w {
                    None
                } else {
                    Some(Bullet::Rect { rect: Rectangle { x: new_x, y: rect.y, w: rect.w, h: rect.h } })
                }
            },
            Bullet::Sine { pos_x, origin_y, amplitude, angular_vel, total_time } => {
                let new_x = pos_x + 240 * dt;
                if new_x > w {
                    None
                } else {
                    Some(Bullet::Sine {
                        pos_x: new_x,
                        origin_y,
                        amplitude,
                        angular_vel,
                        total_time: total_time + dt,
                    })
                }
            },
        }
    }
}

/// What one trigger pull produces: one projectile per cannon mount, using
/// the active configuration. The mounts sit at a shared abscissa and two
/// distinct ordinates.
pub open spec fn spec_spawn_bullets(
    cannon: CannonType,
    cannons_x: int,
    cannon1_y: int,
    cannon2_y: int,
) -> Seq<Bullet> {
    match cannon {
        CannonType::RectBullet => seq![
            Bullet::Rect {
                rect: Rectangle { x: cannons_x as i64, y: cannon1_y as i64, w: BULLET_W, h: BULLET_H },
            },
            Bullet::Rect {
                rect: Rectangle { x: cannons_x as i64, y: cannon2_y as i64, w: BULLET_W, h: BULLET_H },
            },
        ],
        CannonType::SineBullet { amplitude, angular_vel } => seq![
            Bullet::Sine {
                pos_x: cannons_x as i64,
                origin_y: cannon1_y as i64,
                amplitude,
                angular_vel,
                total_time: 0,
            },
            Bullet::Sine {
                pos_x: cannons_x as i64,
                origin_y: cannon2_y as i64,
                amplitude,
                angular_vel,
                total_time: 0,
            },
        ],
    }
}

/// Spawns one projectile per cannon mount with the given configuration.
pub fn spawn_bullets(cannon: CannonType, cannons_x: i64, cannon1_y: i64, cannon2_y: i64) -> (r: Vec<
    Bullet,
>)
    requires
        cannon.wf(),
        0 <= cannons_x <= BULLET_X_LIMIT,
        -SCREEN_LIMIT <= cannon1_y <= 2 * SCREEN_LIMIT,
        -SCREEN_LIMIT <= cannon2_y <= 2 * SCREEN_LIMIT,
    ensures
        r@ == spec_spawn_bullets(cannon, cannons_x as int, cannon1_y as int, cannon2_y as int),
        forall|i: int| 0 <= i < r@.len() ==> (#[trigger] r@[i]).wf(),
        r@.len() == 2,
{
    let mut out: Vec<Bullet> = Vec::new();
    match cannon {
        CannonType::RectBullet => {
            out.push(
                Bullet::Rect {
                    rect: Rectangle { x: cannons_x, y: cannon1_y, w: BULLET_W, h: BULLET_H },
                },
            );
            out.push(
                Bullet::Rect {
                    rect: Rectangle { x: cannons_x, y: cannon2_y, w: BULLET_W, h: BULLET_H },
                },
            );
        },
        CannonType::SineBullet { amplitude, angular_vel } => {
            out.push(
                Bullet::Sine {
                    pos_x: cannons_x,
                    origin_y: cannon1_y,
                    amplitude,
                    angular_vel,
                    total_time: 0,
                },
            );
            out.push(
                Bullet::Sine {
                    pos_x: cannons_x,
                    origin_y: cannon2_y,
                    amplitude,
                    angular_vel,
                    total_time: 0,
                },
            );
        },
    }
    proof {
        assert(out@ =~= spec_spawn_bullets(
            cannon,
            cannons_x as int,
            cannon1_y as int,
            cannon2_y as int,
        ));
    }
    out
}

} // verus!
