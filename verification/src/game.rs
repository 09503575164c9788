//! The gameplay screen: the player craft, obstacles, explosions, and the
//! per-tick simulation and collision pipeline.

use vstd::prelude::*;
use crate::data::{Rectangle, MaybeAlive, div_units, COORD_LIMIT, SCREEN_LIMIT, MAX_ELAPSED};
use crate::gfx::{Sprite, AnimatedSprite, AnimatedSpriteDescr, DrawCommand, Renderer, Color};
use crate::bullets::{Bullet, CannonType, spawn_bullets, spec_spawn_bullets, BULLET_X_LIMIT};
use crate::phi::{Phi, Assets, Events, ViewAction, Screen};
use crate::shared::{BgSet, Background};
use crate::main_menu::MainMenuView;
use vstd::arithmetic::div_mod::{
    lemma_div_is_ordered, lemma_div_by_multiple, lemma_div_pos_is_pos, lemma_div_non_zero,
    lemma_div_nonincreasing, lemma_fundamental_div_mod, lemma_mod_bound,
};
use vstd::pervasive::VecAdditionalExecFns;

verus! {

/// Player speed, in milliunits per second.
pub const PLAYER_SPEED: i64 = 180_000;

/// Player craft width, in milliunits.
pub const PLAYER_W: i64 = 43_000;

/// Player craft height, in milliunits.
pub const PLAYER_H: i64 = 39_000;

/// Asteroid sheet cells per row.
pub const ASTEROIDS_WIDE: usize = 21;

/// Asteroid sheet rows.
pub const ASTEROIDS_HIGH: usize = 7;

/// Frames kept from the asteroid sheet: the grid minus four unused cells.
pub const ASTEROIDS_TOTAL: usize = 143;

/// Asteroid side length, in milliunits.
pub const ASTEROID_SIDE: i64 = 96_000;

/// Explosion sheet cells per row.
pub const EXPLOSIONS_WIDE: usize = 5;

/// Explosion sheet rows.
pub const EXPLOSIONS_HIGH: usize = 4;

/// Frames kept from the explosion sheet.
pub const EXPLOSIONS_TOTAL: usize = 17;

/// Explosion side length, in milliunits.
pub const EXPLOSION_SIDE: i64 = 96_000;

/// Explosion playback rate, in frames per second.
pub const EXPLOSION_FPS: i64 = 16;

/// How long an explosion lives, in milliseconds: one full play-through of
/// seventeen frames at sixteen frames per second, in whole milliseconds.
pub const EXPLOSION_DURATION: i64 = 1062;

/// A recyclable moving hazard: an animated sprite, its box, and its
/// leftward speed in milliunits per second.
#[derive(Debug)]
pub struct Asteroid {
    pub sprite: AnimatedSprite,
    pub rect: Rectangle,
    pub vel: i64,
}

impl Asteroid {
    /// Well-formedness. The last clause ties the accumulated animation
    /// time to the distance already travelled, which bounds it.
    pub open spec fn wf(self) -> bool {
        &&& self.sprite.wf()
        &&& self.rect.valid()
        &&& self.rect.w == ASTEROID_SIDE
        &&& self.rect.h == ASTEROID_SIDE
        &&& -ASTEROID_SIDE < self.rect.x <= SCREEN_LIMIT
        &&& 0 <= self.rect.y <= SCREEN_LIMIT
        &&& 50_000 <= self.vel < 150_000
        &&& 50 * self.sprite.current_time + self.rect.x <= SCREEN_LIMIT
    }

    /// The asteroid after moving left for `dt` milliseconds, before the
    /// off-screen check.
    pub open spec fn spec_step(self, dt: int) -> Asteroid {
        Asteroid {
            sprite: AnimatedSprite {
                sprites: self.sprite.sprites,
                frame_delay: self.sprite.frame_delay,
                current_time: (self.sprite.current_time + dt) as i64,
            },
            rect: Rectangle {
                x: (self.rect.x - self.vel * dt / 1000) as i64,
                y: self.rect.y,
                w: self.rect.w,
                h: self.rect.h,
            },
            vel: self.vel,
        }
    }

    /// One tick: move left, age the animation, and disappear exactly when
    /// the box has fully left the visible area.
    pub open spec fn spec_update(self, dt: int) -> Option<Asteroid> {
        let stepped = self.spec_step(dt);
        if stepped.rect.x <= -ASTEROID_SIDE {
            None
        } else {
            Some(stepped)
        }
    }

    /// The command that draws the asteroid's current frame over its box.
    pub open spec fn spec_render_cmd(self) -> DrawCommand {
        self.sprite.sprites@[self.sprite.spec_frame_index()].spec_render(self.rect)
    }

    /// One tick of obstacle motion: the box moves left by `vel * dt`, the
    /// animation ages by `dt`, and the obstacle is dropped exactly when its
    /// abscissa reaches `-ASTEROID_SIDE`.
    pub fn update(self, dt: i64) -> (r: Option<Asteroid>)
        requires
            self.wf(),
            0 <= dt <= MAX_ELAPSED,
        ensures
            r == self.spec_update(dt as int),
            r matches Some(a) ==> a.wf() && a == self.spec_step(dt as int),
    {
        proof {
            assert(50_000 * dt <= self.vel * dt <= 150_000 * dt) by (nonlinear_arith)
                requires
                    50_000 <= self.vel < 150_000,
                    0 <= dt,
            ;
            lemma_div_is_ordered(50_000 * dt, self.vel * dt, 1000);
            lemma_div_is_ordered(self.vel * dt, 150_000 * dt, 1000);
            assert(50_000 * dt == (50 * dt) * 1000 && 150_000 * dt == (150 * dt) * 1000)
                by (nonlinear_arith);
            lemma_div_by_multiple(50 * dt, 1000);
            lemma_div_by_multiple(150 * dt, 1000);
        }
        let step = div_units(self.vel * dt, 1000);
        let new_x = self.rect.x - step;
        let mut sprite = self.sprite;
        sprite.add_time(dt);
        if new_x <= -ASTEROID_SIDE {
            None
        } else {
            Some(
                Asteroid {
                    sprite,
                    rect: Rectangle { x: new_x, y: self.rect.y, w: self.rect.w, h: self.rect.h },
                    vel: self.vel,
                },
            )
        }
    }

    /// Records the draw command for this asteroid.
    pub fn render(&self, renderer: &mut Renderer)
        requires
            self.wf(),
        ensures
            final(renderer).commands@ == old(renderer).commands@.push(self.spec_render_cmd()),
            final(renderer).color == old(renderer).color,
    {
        let cmd = self.sprite.render(self.rect);
        renderer.push_command(cmd);
    }

    /// The asteroid's bounding box.
    pub fn rect(&self) -> (r: Rectangle)
        ensures
            r == self.rect,
    {
        self.rect
    }
}

/// Holds the canonical asteroid frame sequence; each spawned asteroid
/// clones it and randomizes position, speed, and playback rate.
#[derive(Debug)]
pub struct AsteroidFactory {
    pub sprite: AnimatedSprite,
}

impl AsteroidFactory {
    pub open spec fn wf(self) -> bool {
        &&& self.sprite.wf()
        &&& self.sprite.current_time == 0
    }

    /// What a spawned asteroid looks like, given the three parameter draws:
    /// playback rate in ten to twenty-nine frames per second, ordinate
    /// anywhere the box fits on screen, speed in fifty to a hundred and
    /// fifty units per second.
    pub open spec fn spec_spawned(
        self,
        a: Asteroid,
        out_w: int,
        out_h: int,
        draws: (u64, u64, u64),
    ) -> bool {
        &&& a.sprite.sprites@ == self.sprite.sprites@
        &&& a.sprite.frame_delay == 1000int / (10 + draws.0 as int % 20)
        &&& a.sprite.current_time == 0
        &&& a.rect == (Rectangle {
            x: out_w as i64,
            y: (draws.1 as int % (out_h - ASTEROID_SIDE)) as i64,
            w: ASTEROID_SIDE,
            h: ASTEROID_SIDE,
        })
        &&& a.vel == 50_000 + draws.2 as int % 100_000
    }

    /// Spawns an asteroid from the three given parameter draws: at the
    /// right edge, vertically inside the screen, with randomized playback
    /// rate and speed. Deterministic in its arguments.
    pub fn spawn_from(&self, out_w: i64, out_h: i64, draws: (u64, u64, u64)) -> (a: Asteroid)
        requires
            self.wf(),
            0 <= out_w <= SCREEN_LIMIT,
            ASTEROID_SIDE < out_h <= SCREEN_LIMIT,
        ensures
            self.spec_spawned(a, out_w as int, out_h as int, draws),
            a.wf(),
    {
        let mut sprite = self.sprite.clone();
        let fps = 10 + (draws.0 % 20) as i64;
        proof {
            lemma_div_non_zero(1000, fps as int);
            lemma_div_nonincreasing(1000, fps as int);
        }
        sprite.set_fps(fps);
        let y = ((draws.1 % ((out_h - ASTEROID_SIDE) as u64)) as i64);
        let vel = 50_000 + (draws.2 % 100_000) as i64;
        Asteroid {
            sprite,
            rect: Rectangle { x: out_w, y, w: ASTEROID_SIDE, h: ASTEROID_SIDE },
            vel,
        }
    }
}

impl Asteroid {
    /// Builds the factory by slicing the asteroid sheet; fails exactly when
    /// the sheet does not cover the grid.
    pub fn factory(sheet: &Sprite) -> (r: Option<AsteroidFactory>)
        requires
            sheet.valid(),
            0 <= sheet.src.x,
            0 <= sheet.src.y,
            sheet.src.x + ASTEROID_SIDE * 21 <= COORD_LIMIT,
            sheet.src.y + ASTEROID_SIDE * 7 <= COORD_LIMIT,
        ensures
            r is Some <==> (AnimatedSpriteDescr {
                total_frames: ASTEROIDS_TOTAL,
                frames_high: ASTEROIDS_HIGH,
                frames_wide: ASTEROIDS_WIDE,
                frame_w: ASTEROID_SIDE,
                frame_h: ASTEROID_SIDE,
            }).spec_all_cells_fit(*sheet),
            r matches Some(f) ==> {
                &&& f.wf()
                &&& f.sprite.sprites@.len() == ASTEROIDS_TOTAL
                &&& f.sprite.frame_delay == 1000
                &&& forall|i: int|
                    0 <= i < ASTEROIDS_TOTAL ==> #[trigger] f.sprite.sprites@[i] == (Sprite {
                        tex: sheet.tex,
                        src: sheet.spec_region_src(
                            (AnimatedSpriteDescr {
                                total_frames: ASTEROIDS_TOTAL,
                                frames_high: ASTEROIDS_HIGH,
                                frames_wide: ASTEROIDS_WIDE,
                                frame_w: ASTEROID_SIDE,
                                frame_h: ASTEROID_SIDE,
                            }).spec_frame_cell(i),
                        ),
                    })
            },
    {
        let descr = AnimatedSpriteDescr {
            total_frames: ASTEROIDS_TOTAL,
            frames_high: ASTEROIDS_HIGH,
            frames_wide: ASTEROIDS_WIDE,
            frame_w: ASTEROID_SIDE,
            frame_h: ASTEROID_SIDE,
        };
        match AnimatedSprite::load_frames(sheet, descr) {
            Some(frames) => Some(AsteroidFactory { sprite: AnimatedSprite::with_fps(frames, 1) }),
            None => None,
        }
    }
}

/// A transient, non-looping explosion: an animated sprite over a box fixed
/// at spawn, dropped after one full play-through.
#[derive(Debug)]
pub struct Explosion {
    pub sprite: AnimatedSprite,
    pub rect: Rectangle,
    pub alive_since: i64,
}

impl Explosion {
    pub open spec fn wf(self) -> bool {
        &&& self.sprite.wf()
        &&& self.rect.valid()
        &&& self.rect.w == EXPLOSION_SIDE
        &&& self.rect.h == EXPLOSION_SIDE
        &&& 0 <= self.alive_since < EXPLOSION_DURATION
        &&& self.sprite.current_time == self.alive_since
    }

    /// The explosion aged by `dt` milliseconds, before the lifetime check.
    pub open spec fn spec_step(self, dt: int) -> Explosion {
        Explosion {
            sprite: AnimatedSprite {
                sprites: self.sprite.sprites,
                frame_delay: self.sprite.frame_delay,
                current_time: (self.sprite.current_time + dt) as i64,
            },
            rect: self.rect,
            alive_since: (self.alive_since + dt) as i64,
        }
    }

    /// One tick: age, and disappear exactly when the age reaches one full
    /// play-through.
    pub open spec fn spec_update(self, dt: int) -> Option<Explosion> {
        let stepped = self.spec_step(dt);
        if stepped.alive_since >= EXPLOSION_DURATION {
            None
        } else {
            Some(stepped)
        }
    }

    /// What an explosion spawned from `template` centered on `(cx, cy)`
    /// looks like.
    pub open spec fn spec_spawned_at(self, template: AnimatedSprite, cx: int, cy: int) -> bool {
        &&& self.sprite.sprites@ == template.sprites@
        &&& self.sprite.frame_delay == template.frame_delay
        &&& self.sprite.current_time == 0
        &&& self.alive_since == 0
        &&& self.rect == (Rectangle {
            x: (cx - EXPLOSION_SIDE as int / 2) as i64,
            y: (cy - EXPLOSION_SIDE as int / 2) as i64,
            w: EXPLOSION_SIDE,
            h: EXPLOSION_SIDE,
        })
    }

    /// The command that draws the explosion's current frame over its box.
    pub open spec fn spec_render_cmd(self) -> DrawCommand {
        self.sprite.sprites@[self.sprite.spec_frame_index()].spec_render(self.rect)
    }

    /// One tick of aging: the animation and the age advance together, and
    /// the explosion is dropped exactly when its age reaches one full
    /// play-through.
    pub fn update(self, dt: i64) -> (r: Option<Explosion>)
        requires
            self.wf(),
            0 <= dt <= MAX_ELAPSED,
        ensures
            r == self.spec_update(dt as int),
            r matches Some(e) ==> e.wf() && e == self.spec_step(dt as int),
    {
        let new_alive = self.alive_since + dt;
        let mut sprite = self.sprite;
        sprite.add_time(dt);
        if new_alive >= EXPLOSION_DURATION {
            None
        } else {
            Some(Explosion { sprite, rect: self.rect, alive_since: new_alive })
        }
    }

    /// Records the draw command for this explosion.
    pub fn render(&self, renderer: &mut Renderer)
        requires
            self.wf(),
        ensures
            final(renderer).commands@ == old(renderer).commands@.push(self.spec_render_cmd()),
            final(renderer).color == old(renderer).color,
    {
        let cmd = self.sprite.render(self.rect);
        renderer.push_command(cmd);
    }

    /// Builds the explosion factory by slicing the explosion sheet; fails
    /// exactly when the sheet does not cover the grid.
    pub fn factory(sheet: &Sprite) -> (r: Option<ExplosionFactory>)
        requires
            sheet.valid(),
            0 <= sheet.src.x,
            0 <= sheet.src.y,
            sheet.src.x + EXPLOSION_SIDE * 5 <= COORD_LIMIT,
            sheet.src.y + EXPLOSION_SIDE * 4 <= COORD_LIMIT,
        ensures
            r is Some <==> (AnimatedSpriteDescr {
                total_frames: EXPLOSIONS_TOTAL,
                frames_high: EXPLOSIONS_HIGH,
                frames_wide: EXPLOSIONS_WIDE,
                frame_w: EXPLOSION_SIDE,
                frame_h: EXPLOSION_SIDE,
            }).spec_all_cells_fit(*sheet),
            r matches Some(f) ==> {
                &&& f.wf()
                &&& f.sprite.sprites@.len() == EXPLOSIONS_TOTAL
                &&& f.sprite.frame_delay == 62
                &&& forall|i: int|
                    0 <= i < EXPLOSIONS_TOTAL ==> #[trigger] f.sprite.sprites@[i] == (Sprite {
                        tex: sheet.tex,
                        src: sheet.spec_region_src(
                            (AnimatedSpriteDescr {
                                total_frames: EXPLOSIONS_TOTAL,
                                frames_high: EXPLOSIONS_HIGH,
                                frames_wide: EXPLOSIONS_WIDE,
                                frame_w: EXPLOSION_SIDE,
                                frame_h: EXPLOSION_SIDE,
                            }).spec_frame_cell(i),
                        ),
                    })
            },
    {
        let descr = AnimatedSpriteDescr {
            total_frames: EXPLOSIONS_TOTAL,
            frames_high: EXPLOSIONS_HIGH,
            frames_wide: EXPLOSIONS_WIDE,
            frame_w: EXPLOSION_SIDE,
            frame_h: EXPLOSION_SIDE,
        };
        match AnimatedSprite::load_frames(sheet, descr) {
            Some(frames) => Some(
                ExplosionFactory { sprite: AnimatedSprite::with_fps(frames, EXPLOSION_FPS) },
            ),
            None => None,
        }
    }
}

/// Holds the canonical explosion frame sequence; each spawned explosion
/// clones it.
#[derive(Debug)]
pub struct ExplosionFactory {
    pub sprite: AnimatedSprite,
}

impl ExplosionFactory {
    pub open spec fn wf(self) -> bool {
        &&& self.sprite.wf()
        &&& self.sprite.current_time == 0
    }

    /// Spawns an explosion centered on the given point, at age zero.
    pub fn at_center(&self, center: (i64, i64)) -> (e: Explosion)
        requires
            self.wf(),
            -COORD_LIMIT / 2 <= center.0 <= COORD_LIMIT / 2,
            -COORD_LIMIT / 2 <= center.1 <= COORD_LIMIT / 2,
        ensures
            e.spec_spawned_at(self.sprite, center.0 as int, center.1 as int),
            e.wf(),
    {
        let sprite = self.sprite.clone();
        Explosion {
            sprite,
            rect: Rectangle::with_size(EXPLOSION_SIDE, EXPLOSION_SIDE).center_at(center),
            alive_since: 0,
        }
    }
}

/// The nine directional frames of the player sheet: a three by three grid
/// keyed by vertical motion (up, mid, down) and horizontal motion (norm,
/// fast, slow).
#[derive(Clone, Copy, Debug, PartialEq, Eq, Structural)]
pub enum PlayerFrame {
    UpNorm,
    UpFast,
    UpSlow,
    MidNorm,
    MidFast,
    MidSlow,
    DownNorm,
    DownFast,
    DownSlow,
}

impl PlayerFrame {
    /// The row-major index of the frame in the player sheet.
    pub open spec fn spec_index(self) -> int {
        match self {
            PlayerFrame::UpNorm => 0,
            PlayerFrame::UpFast => 1,
            PlayerFrame::UpSlow => 2,
            PlayerFrame::MidNorm => 3,
            PlayerFrame::MidFast => 4,
            PlayerFrame::MidSlow => 5,
            PlayerFrame::DownNorm => 6,
            PlayerFrame::DownFast => 7,
            PlayerFrame::DownSlow => 8,
        }
    }

    /// The row-major index of the frame in the player sheet.
    pub fn index(self) -> (i: usize)
        ensures
            i == self.spec_index(),
            i < 9,
    {
        match self {
            PlayerFrame::UpNorm => 0,
            PlayerFrame::UpFast => 1,
            PlayerFrame::UpSlow => 2,
            PlayerFrame::MidNorm => 3,
            PlayerFrame::MidFast => 4,
            PlayerFrame::MidSlow => 5,
            PlayerFrame::DownNorm => 6,
            PlayerFrame::DownFast => 7,
            PlayerFrame::DownSlow => 8,
        }
    }
}

/// The facing frame for a displacement: a pure, total function of the
/// signs of `(dx, dy)` — three signs per axis, nine combinations.
pub open spec fn spec_facing(dx: int, dy: int) -> PlayerFrame {
    if dx == 0 && dy < 0 {
        PlayerFrame::UpNorm
    } else if dx > 0 && dy < 0 {
        PlayerFrame::UpFast
    } else if dx < 0 && dy < 0 {
        PlayerFrame::UpSlow
    } else if dx == 0 && dy == 0 {
        PlayerFrame::MidNorm
    } else if dx > 0 && dy == 0 {
        PlayerFrame::MidFast
    } else if dx < 0 && dy == 0 {
        PlayerFrame::MidSlow
    } else if dx == 0 && dy > 0 {
        PlayerFrame::DownNorm
    } else if dx > 0 && dy > 0 {
        PlayerFrame::DownFast
    } else {
        PlayerFrame::DownSlow
    }
}

/// Whether the held keys net to a diagonal: exactly one of left and right,
/// and exactly one of up and down.
pub open spec fn spec_is_diagonal(e: Events) -> bool {
    (e.key_up != e.key_down) && (e.key_left != e.key_right)
}

/// How far the craft travels this tick along a single axis, in milliunits.
pub open spec fn spec_traveled(dt: int) -> int {
    180 * dt
}

/// The per-axis step: the full travel, scaled by one over the square root
/// of two (as the fixed ratio 7071 / 10000) when the motion is diagonal,
/// so diagonal speed equals axis speed.
pub open spec fn spec_moved(e: Events, dt: int) -> int {
    if spec_is_diagonal(e) {
        spec_traveled(dt) * 7071 / 10000
    } else {
        spec_traveled(dt)
    }
}

/// The horizontal displacement the held keys produce: opposing keys net to
/// zero.
pub open spec fn spec_dx(e: Events, moved: int) -> int {
    if e.key_left == e.key_right {
        0
    } else if e.key_left {
        -moved
    } else {
        moved
    }
}

/// The vertical displacement the held keys produce: opposing keys net to
/// zero.
pub open spec fn spec_dy(e: Events, moved: int) -> int {
    if e.key_up == e.key_down {
        0
    } else if e.key_up {
        -moved
    } else {
        moved
    }
}

/// The cannon configuration after this tick's selection keys: the first
/// key selects the straight cannon, the second the sine cannon with its
/// fixed parameters, and the third is reserved.
pub open spec fn spec_cannon_after(cannon: CannonType, e: Events) -> CannonType {
    if e.now.key_2 {
        CannonType::SineBullet { amplitude: 10_000, angular_vel: 15_000 }
    } else if e.now.key_1 {
        CannonType::RectBullet
    } else {
        cannon
    }
}

/// The craft after one tick: cannon switched by the selection keys, box
/// shifted by the held keys and clamped into the left seventy percent of
/// the surface, facing following the motion's signs.
pub open spec fn spec_player_updated(p: Player, e: Events, out_w: int, out_h: int, dt: int) -> Player {
    let moved = spec_moved(e, dt);
    let dx = spec_dx(e, moved);
    let dy = spec_dy(e, moved);
    let shifted = Rectangle {
        x: (p.rect.x + dx) as i64,
        y: (p.rect.y + dy) as i64,
        w: PLAYER_W,
        h: PLAYER_H,
    };
    let region = Rectangle { x: 0, y: 0, w: (out_w * 7 / 10) as i64, h: out_h as i64 };
    let clamped = match shifted.spec_move_inside(region) {
        Some(r) => r,
        None => shifted,
    };
    Player {
        rect: clamped,
        sprites: p.sprites,
        current: spec_facing(dx, dy),
        cannon: spec_cannon_after(p.cannon, e),
    }
}

/// The player craft: its box, the nine directional sprites, the facing
/// frame, and the active cannon configuration.
#[derive(Debug)]
pub struct Player {
    pub rect: Rectangle,
    pub sprites: Vec<Sprite>,
    pub current: PlayerFrame,
    pub cannon: CannonType,
}

impl Player {
    pub open spec fn wf(self) -> bool {
        &&& self.rect.valid()
        &&& self.rect.w == PLAYER_W
        &&& self.rect.h == PLAYER_H
        &&& 0 <= self.rect.x <= SCREEN_LIMIT
        &&& 0 <= self.rect.y <= SCREEN_LIMIT
        &&& self.sprites@.len() == 9
        &&& self.cannon.wf()
    }

    /// Slices the player sheet into its three by three directional grid;
    /// fails exactly when the sheet does not cover the grid.
    pub fn sprites_from_sheet(sheet: &Sprite) -> (r: Option<Vec<Sprite>>)
        requires
            sheet.valid(),
            0 <= sheet.src.x,
            0 <= sheet.src.y,
            sheet.src.x + PLAYER_W * 3 <= COORD_LIMIT,
            sheet.src.y + PLAYER_H * 3 <= COORD_LIMIT,
        ensures
            r is Some <==> (AnimatedSpriteDescr {
                total_frames: 9,
                frames_high: 3,
                frames_wide: 3,
                frame_w: PLAYER_W,
                frame_h: PLAYER_H,
            }).spec_all_cells_fit(*sheet),
            r matches Some(v) ==> v@.len() == 9 && forall|i: int|
                0 <= i < 9 ==> #[trigger] v@[i] == (Sprite {
                    tex: sheet.tex,
                    src: sheet.spec_region_src(
                        (AnimatedSpriteDescr {
                            total_frames: 9,
                            frames_high: 3,
                            frames_wide: 3,
                            frame_w: PLAYER_W,
                            frame_h: PLAYER_H,
                        }).spec_frame_cell(i),
                    ),
                }),
    {
        let descr = AnimatedSpriteDescr {
            total_frames: 9,
            frames_high: 3,
            frames_wide: 3,
            frame_w: PLAYER_W,
            frame_h: PLAYER_H,
        };
        AnimatedSprite::load_frames(sheet, descr)
    }

    /// A fresh craft: at the left, vertically centered, facing forward,
    /// with the straight cannon.
    pub fn new(sprites: Vec<Sprite>, output_h: i64) -> (p: Player)
        requires
            sprites@.len() == 9,
            PLAYER_H <= output_h <= SCREEN_LIMIT,
        ensures
            p.rect == (Rectangle {
                x: 64_000,
                y: ((output_h - PLAYER_H) as int / 2) as i64,
                w: PLAYER_W,
                h: PLAYER_H,
            }),
            p.sprites == sprites,
            p.current == PlayerFrame::MidNorm,
            p.cannon == CannonType::RectBullet,
            p.wf(),
    {
        let y = div_units(output_h - PLAYER_H, 2);
        Player {
            rect: Rectangle { x: 64_000, y, w: PLAYER_W, h: PLAYER_H },
            sprites,
            current: PlayerFrame::MidNorm,
            cannon: CannonType::RectBullet,
        }
    }

    /// The command that draws the facing frame over the craft's box.
    pub open spec fn spec_render_cmd(self) -> DrawCommand {
        self.sprites@[self.current.spec_index()].spec_render(self.rect)
    }

    /// Records the draw command for the craft.
    pub fn render(&self, renderer: &mut Renderer)
        requires
            self.wf(),
        ensures
            final(renderer).commands@ == old(renderer).commands@.push(self.spec_render_cmd()),
            final(renderer).color == old(renderer).color,
    {
        let idx = self.current.index();
        let sprite = &self.sprites[idx];
        let cmd = sprite.render(self.rect);
        renderer.push_command(cmd);
    }

    /// The two projectiles one trigger pull spawns: one per cannon mount,
    /// at fixed offsets from the craft's box.
    pub fn spawn_bullets(&self) -> (r: Vec<Bullet>)
        requires
            self.wf(),
        ensures
            r@ == spec_spawn_bullets(
                self.cannon,
                self.rect.x + 30_000,
                self.rect.y + 6_000,
                self.rect.y + PLAYER_H - 10_000,
            ),
            forall|i: int| 0 <= i < r@.len() ==> (#[trigger] r@[i]).wf(),
            r@.len() == 2,
    {
        let cannons_x = self.rect.x + 30_000;
        let cannon1_y = self.rect.y + 6_000;
        let cannon2_y = self.rect.y + PLAYER_H - 10_000;
        spawn_bullets(self.cannon, cannons_x, cannon1_y, cannon2_y)
    }

    /// One tick of the craft: switch cannon on the selection keys, move by
    /// the held directional keys with normalized diagonal speed, clamp the
    /// box into the left seventy percent of the surface, and face the
    /// motion's direction.
    pub fn update(&mut self, events: &Events, output_w: i64, output_h: i64, elapsed: i64)
        requires
            old(self).wf(),
            0 <= elapsed <= MAX_ELAPSED,
            0 <= output_w <= SCREEN_LIMIT,
            0 <= output_h <= SCREEN_LIMIT,
            10 * PLAYER_W <= 7 * output_w,
            PLAYER_H <= output_h,
        ensures
            ({
                let dt = elapsed as int;
                let moved = spec_moved(*events, dt);
                let dx = spec_dx(*events, moved);
                let dy = spec_dy(*events, moved);
                let shifted = Rectangle {
                    x: (old(self).rect.x + dx) as i64,
                    y: (old(self).rect.y + dy) as i64,
                    w: PLAYER_W,
                    h: PLAYER_H,
                };
                let region = Rectangle {
                    x: 0,
                    y: 0,
                    w: (output_w as int * 7 / 10) as i64,
                    h: output_h,
                };
                &&& final(self).cannon == spec_cannon_after(old(self).cannon, *events)
                &&& final(self).sprites == old(self).sprites
                &&& Some(final(self).rect) == shifted.spec_move_inside(region)
                &&& final(self).current == spec_facing(dx, dy)
                &&& final(self).wf()
                &&& *final(self) == spec_player_updated(
                    *old(self),
                    *events,
                    output_w as int,
                    output_h as int,
                    elapsed as int,
                )
            }),
    {
        if events.now.key_1 {
            self.cannon = CannonType::RectBullet;
        }
        if events.now.key_2 {
            self.cannon = CannonType::SineBullet { amplitude: 10_000, angular_vel: 15_000 };
        }
        proof {
            lemma_div_by_multiple(180 * elapsed as int, 1000);
            assert(180_000 * elapsed as int == (180 * elapsed as int) * 1000) by (nonlinear_arith);
        }
        let traveled = div_units(PLAYER_SPEED * elapsed, 1000);
        let diagonal = (events.key_up != events.key_down) && (events.key_left != events.key_right);
        let moved = if diagonal {
            proof {
                assert(0 <= traveled * 7071 <= 900_000 * 7071) by (nonlinear_arith)
                    requires
                        0 <= traveled <= 900_000,
                ;
                lemma_div_is_ordered(traveled as int * 7071, 900_000int * 7071, 10000);
                lemma_div_pos_is_pos(traveled * 7071, 10000);
            }
            div_units(traveled * 7071, 10000)
        } else {
            traveled
        };
        let dx = if events.key_left == events.key_right {
            0
        } else if events.key_left {
            -moved
        } else {
            moved
        };
        let dy = if events.key_up == events.key_down {
            0
        } else if events.key_up {
            -moved
        } else {
            moved
        };
        self.rect = Rectangle {
            x: self.rect.x + dx,
            y: self.rect.y + dy,
            w: self.rect.w,
            h: self.rect.h,
        };
        proof {
            lemma_div_by_multiple(7 * output_w as int, 10);
            assert((10 * PLAYER_W) as int / 10 == PLAYER_W as int) by {
                lemma_div_by_multiple(PLAYER_W as int, 10);
                assert(PLAYER_W as int * 10 == 10 * PLAYER_W) by (nonlinear_arith);
            }
            lemma_div_is_ordered(10 * PLAYER_W as int, output_w as int * 7, 10);
            assert(output_w as int * 7 == 7 * output_w as int) by (nonlinear_arith);
            lemma_div_is_ordered(output_w as int * 7, SCREEN_LIMIT * 7, 10);
        }
        let movable_w = div_units(output_w * 7, 10);
        let movable_region = Rectangle { x: 0, y: 0, w: movable_w, h: output_h };
        let clamped = self.rect.move_inside(movable_region);
        match clamped {
            Some(r) => {
                self.rect = r;
            },
            None => {
                proof {
                    assert(false);
                }
            },
        }
        self.current = if dx == 0 && dy < 0 {
            PlayerFrame::UpNorm
        } else if dx > 0 && dy < 0 {
            PlayerFrame::UpFast
        } else if dx < 0 && dy < 0 {
            PlayerFrame::UpSlow
        } else if dx == 0 && dy == 0 {
            PlayerFrame::MidNorm
        } else if dx > 0 && dy == 0 {
            PlayerFrame::MidFast
        } else if dx < 0 && dy == 0 {
            PlayerFrame::MidSlow
        } else if dx == 0 && dy > 0 {
            PlayerFrame::DownNorm
        } else if dx > 0 && dy > 0 {
            PlayerFrame::DownFast
        } else {
            PlayerFrame::DownSlow
        };
    }
}

/// The gameplay screen: the craft, the three entity populations, the
/// backdrop, and the two spawn factories.
#[derive(Debug)]
pub struct GameView {
    pub player: Player,
    pub bullets: Vec<Bullet>,
    pub asteroids: Vec<Asteroid>,
    pub bg: BgSet,
    pub asteroid_factory: AsteroidFactory,
    pub explosions: Vec<Explosion>,
    pub explosion_factory: ExplosionFactory,
}

impl GameView {
    pub open spec fn wf(self) -> bool {
        &&& self.player.wf()
        &&& forall|i: int| 0 <= i < self.bullets@.len() ==> (#[trigger] self.bullets@[i]).wf()
        &&& forall|i: int| 0 <= i < self.asteroids@.len() ==> (#[trigger] self.asteroids@[i]).wf()
        &&& forall|i: int| 0 <= i < self.explosions@.len() ==> (#[trigger] self.explosions@[i]).wf()
        &&& self.bg.wf()
        &&& self.asteroid_factory.wf()
        &&& self.explosion_factory.wf()
    }

    /// The gameplay screen one gets from the given assets and backdrop:
    /// a fresh craft, empty populations, and the canonical factory
    /// templates.
    pub open spec fn spec_built_from(self, assets: Assets, bg: BgSet, output_h: int) -> bool {
        &&& self.player.rect == (Rectangle {
            x: 64_000,
            y: ((output_h - PLAYER_H) / 2) as i64,
            w: PLAYER_W,
            h: PLAYER_H,
        })
        &&& self.player.sprites@ == assets.player_sprites@
        &&& self.player.current == PlayerFrame::MidNorm
        &&& self.player.cannon == CannonType::RectBullet
        &&& self.bullets@ == Seq::<Bullet>::empty()
        &&& self.asteroids@ == Seq::<Asteroid>::empty()
        &&& self.explosions@ == Seq::<Explosion>::empty()
        &&& self.bg == bg
        &&& self.asteroid_factory.sprite.sprites@ == assets.asteroid_template.sprites@
        &&& self.asteroid_factory.sprite.frame_delay == assets.asteroid_template.frame_delay
        &&& self.asteroid_factory.sprite.current_time == 0
        &&& self.explosion_factory.sprite.sprites@ == assets.explosion_template.sprites@
        &&& self.explosion_factory.sprite.frame_delay == assets.explosion_template.frame_delay
        &&& self.explosion_factory.sprite.current_time == 0
    }

    /// A fresh gameplay screen around an existing backdrop: the craft at
    /// its starting place, no projectiles, obstacles or explosions yet.
    pub fn with_backgrounds(phi: &Phi, bg: BgSet) -> (g: GameView)
        requires
            phi.wf(),
            bg.wf(),
            PLAYER_H <= phi.output_h <= SCREEN_LIMIT,
        ensures
            g.spec_built_from(phi.assets, bg, phi.output_h as int),
            g.wf(),
    {
        let player_sprites = crate::gfx::clone_sprite_vec(&phi.assets.player_sprites);
        GameView {
            player: Player::new(player_sprites, phi.output_h),
            bullets: Vec::new(),
            asteroids: Vec::new(),
            bg,
            asteroid_factory: AsteroidFactory { sprite: phi.assets.asteroid_template.clone() },
            explosions: Vec::new(),
            explosion_factory: ExplosionFactory { sprite: phi.assets.explosion_template.clone() },
        }
    }
}

/// The per-tick ballistics step, as applied to every live projectile.
pub open spec fn spec_bullet_step_fn(dt: int, w: int) -> spec_fn(Bullet) -> Option<Bullet> {
    |b: Bullet| b.spec_update(dt, w)
}

/// All projectiles after one tick of ballistics, off-screen ones dropped.
pub open spec fn spec_stepped_bullets(bs: Seq<Bullet>, dt: int, w: int) -> Seq<Bullet> {
    bs.filter_map(spec_bullet_step_fn(dt, w))
}

/// The per-tick obstacle step, as applied to every live obstacle.
pub open spec fn spec_asteroid_step_fn(dt: int) -> spec_fn(Asteroid) -> Option<Asteroid> {
    |a: Asteroid| a.spec_update(dt)
}

/// All obstacles after one tick of motion, off-screen ones dropped.
pub open spec fn spec_stepped_asteroids(asts: Seq<Asteroid>, dt: int) -> Seq<Asteroid> {
    asts.filter_map(spec_asteroid_step_fn(dt))
}

/// The per-tick explosion step, as applied to every live explosion.
pub open spec fn spec_explosion_step_fn(dt: int) -> spec_fn(Explosion) -> Option<Explosion> {
    |e: Explosion| e.spec_update(dt)
}

/// All explosions after one tick of aging, expired ones dropped.
pub open spec fn spec_stepped_explosions(es: Seq<Explosion>, dt: int) -> Seq<Explosion> {
    es.filter_map(spec_explosion_step_fn(dt))
}

/// Whether some obstacle's box overlaps the projectile's box.
pub open spec fn spec_bullet_hits(b: Bullet, asts: Seq<Asteroid>) -> bool {
    exists|i: int| 0 <= i < asts.len() && (#[trigger] asts[i]).rect.spec_overlaps(b.spec_rect())
}

/// A projectile survives the collision pass exactly when no obstacle's box
/// overlaps it.
pub open spec fn spec_bullet_survives_fn(asts: Seq<Asteroid>) -> spec_fn(Bullet) -> bool {
    |b: Bullet| !spec_bullet_hits(b, asts)
}

/// The projectiles left after the collision pass, in order.
pub open spec fn spec_surviving_bullets(bs: Seq<Bullet>, asts: Seq<Asteroid>) -> Seq<Bullet> {
    bs.filter(spec_bullet_survives_fn(asts))
}

/// Whether some projectile's box overlaps the obstacle's box.
pub open spec fn spec_asteroid_hit(a: Asteroid, bs: Seq<Bullet>) -> bool {
    exists|i: int| 0 <= i < bs.len() && a.rect.spec_overlaps((#[trigger] bs[i]).spec_rect())
}

/// An obstacle survives the collision pass exactly when no projectile and
/// not the player overlaps it.
pub open spec fn spec_asteroid_survives(a: Asteroid, bs: Seq<Bullet>, player_rect: Rectangle) -> bool {
    !spec_asteroid_hit(a, bs) && !a.rect.spec_overlaps(player_rect)
}

pub open spec fn spec_asteroid_survives_fn(bs: Seq<Bullet>, player_rect: Rectangle) -> spec_fn(
    Asteroid,
) -> bool {
    |a: Asteroid| spec_asteroid_survives(a, bs, player_rect)
}

pub open spec fn spec_asteroid_dead_fn(bs: Seq<Bullet>, player_rect: Rectangle) -> spec_fn(
    Asteroid,
) -> bool {
    |a: Asteroid| !spec_asteroid_survives(a, bs, player_rect)
}

/// The obstacles left after the collision pass, in order.
pub open spec fn spec_surviving_asteroids(
    asts: Seq<Asteroid>,
    bs: Seq<Bullet>,
    player_rect: Rectangle,
) -> Seq<Asteroid> {
    asts.filter(spec_asteroid_survives_fn(bs, player_rect))
}

/// The obstacles destroyed by the collision pass, in order: each one is
/// replaced by an explosion at its center.
pub open spec fn spec_dead_asteroids(
    asts: Seq<Asteroid>,
    bs: Seq<Bullet>,
    player_rect: Rectangle,
) -> Seq<Asteroid> {
    asts.filter(spec_asteroid_dead_fn(bs, player_rect))
}

/// Whether some obstacle's box overlaps the player's box.
pub open spec fn spec_player_hit(asts: Seq<Asteroid>, player_rect: Rectangle) -> bool {
    exists|i: int| 0 <= i < asts.len() && (#[trigger] asts[i]).rect.spec_overlaps(player_rect)
}

/// Filtering a sequence extended by one element keeps the filtered prefix
/// and appends the element exactly when it passes.
proof fn lemma_filter_push<A>(s: Seq<A>, pred: spec_fn(A) -> bool, x: A)
    ensures
        s.push(x).filter(pred) == s.filter(pred) + (if pred(x) {
            seq![x]
        } else {
            Seq::<A>::empty()
        }),
{
    assert(s.push(x) =~= s + seq![x]);
    Seq::filter_distributes_over_add(s, seq![x], pred);
    reveal_with_fuel(Seq::filter, 2);
    assert(seq![x].drop_last() =~= Seq::<A>::empty());
    assert(seq![x].filter(pred) =~= (if pred(x) {
        seq![x]
    } else {
        Seq::<A>::empty()
    }));
}

/// One tick of ballistics over a whole population.
fn step_bullets(bullets: Vec<Bullet>, dt: i64, w: i64) -> (r: Vec<Bullet>)
    requires
        forall|i: int| 0 <= i < bullets@.len() ==> (#[trigger] bullets@[i]).wf(),
        0 <= dt <= MAX_ELAPSED,
        0 <= w <= SCREEN_LIMIT,
    ensures
        r@ == spec_stepped_bullets(bullets@, dt as int, w as int),
        forall|i: int| 0 <= i < r@.len() ==> (#[trigger] r@[i]).wf(),
{
    let ghost f = spec_bullet_step_fn(dt as int, w as int);
    let mut out: Vec<Bullet> = Vec::new();
    let mut i: usize = 0;
    while i < bullets.len()
        invariant
            i <= bullets@.len(),
            forall|j: int| 0 <= j < bullets@.len() ==> (#[trigger] bullets@[j]).wf(),
            0 <= dt <= MAX_ELAPSED,
            0 <= w <= SCREEN_LIMIT,
            f == spec_bullet_step_fn(dt as int, w as int),
            out@ == bullets@.take(i as int).filter_map(f),
            forall|j: int| 0 <= j < out@.len() ==> (#[trigger] out@[j]).wf(),
        decreases bullets@.len() - i,
    {
        let b = bullets[i];
        proof {
            bullets@.lemma_filter_map_take_succ(f, i as int);
        }
        match b.update(dt, w) {
            Some(nb) => {
                out.push(nb);
                proof {
                    assert(out@ =~= bullets@.take(i as int + 1).filter_map(f));
                }
            },
            None => {
                proof {
                    assert(out@ =~= bullets@.take(i as int + 1).filter_map(f));
                }
            },
        }
        i = i + 1;
    }
    proof {
        assert(bullets@.take(bullets@.len() as int) =~= bullets@);
    }
    out
}

/// One tick of motion over the whole obstacle population.
fn step_asteroids(asteroids: Vec<Asteroid>, dt: i64) -> (r: Vec<Asteroid>)
    requires
        forall|i: int| 0 <= i < asteroids@.len() ==> (#[trigger] asteroids@[i]).wf(),
        0 <= dt <= MAX_ELAPSED,
    ensures
        r@ == spec_stepped_asteroids(asteroids@, dt as int),
        forall|i: int| 0 <= i < r@.len() ==> (#[trigger] r@[i]).wf(),
{
    let ghost orig = asteroids@;
    let ghost f = spec_asteroid_step_fn(dt as int);
    let mut rest = asteroids;
    let mut out: Vec<Asteroid> = Vec::new();
    while rest.len() > 0
        invariant
            rest@.len() <= orig.len(),
            rest@ == orig.subrange(orig.len() - rest@.len(), orig.len() as int),
            forall|j: int| 0 <= j < orig.len() ==> (#[trigger] orig[j]).wf(),
            0 <= dt <= MAX_ELAPSED,
            f == spec_asteroid_step_fn(dt as int),
            out@ == orig.take(orig.len() - rest@.len()).filter_map(f),
            forall|j: int| 0 <= j < out@.len() ==> (#[trigger] out@[j]).wf(),
        decreases rest@.len(),
    {
        let ghost i = orig.len() - rest@.len();
        let a = rest.remove(0);
        proof {
            assert(a == orig[i]);
            assert(rest@ =~= orig.subrange(orig.len() - rest@.len(), orig.len() as int));
            orig.lemma_filter_map_take_succ(f, i);
        }
        match a.update(dt) {
            Some(na) => {
                out.push(na);
                proof {
                    assert(out@ =~= orig.take(i + 1).filter_map(f));
                }
            },
            None => {
                proof {
                    assert(out@ =~= orig.take(i + 1).filter_map(f));
                }
            },
        }
    }
    proof {
        assert(orig.take(orig.len() as int) =~= orig);
    }
    out
}

/// One tick of aging over the whole explosion population.
fn step_explosions(explosions: Vec<Explosion>, dt: i64) -> (r: Vec<Explosion>)
    requires
        forall|i: int| 0 <= i < explosions@.len() ==> (#[trigger] explosions@[i]).wf(),
        0 <= dt <= MAX_ELAPSED,
    ensures
        r@ == spec_stepped_explosions(explosions@, dt as int),
        forall|i: int| 0 <= i < r@.len() ==> (#[trigger] r@[i]).wf(),
{
    let ghost orig = explosions@;
    let ghost f = spec_explosion_step_fn(dt as int);
    let mut rest = explosions;
    let mut out: Vec<Explosion> = Vec::new();
    while rest.len() > 0
        invariant
            rest@.len() <= orig.len(),
            rest@ == orig.subrange(orig.len() - rest@.len(), orig.len() as int),
            forall|j: int| 0 <= j < orig.len() ==> (#[trigger] orig[j]).wf(),
            0 <= dt <= MAX_ELAPSED,
            f == spec_explosion_step_fn(dt as int),
            out@ == orig.take(orig.len() - rest@.len()).filter_map(f),
            forall|j: int| 0 <= j < out@.len() ==> (#[trigger] out@[j]).wf(),
        decreases rest@.len(),
    {
        let ghost i = orig.len() - rest@.len();
        let e = rest.remove(0);
        proof {
            assert(e == orig[i]);
            assert(rest@ =~= orig.subrange(orig.len() - rest@.len(), orig.len() as int));
            orig.lemma_filter_map_take_succ(f, i);
        }
        match e.update(dt) {
            Some(ne) => {
                out.push(ne);
                proof {
                    assert(out@ =~= orig.take(i + 1).filter_map(f));
                }
            },
            None => {
                proof {
                    assert(out@ =~= orig.take(i + 1).filter_map(f));
                }
            },
        }
    }
    proof {
        assert(orig.take(orig.len() as int) =~= orig);
    }
    out
}

/// The collision pass: snapshot the projectiles with alive marks, test
/// every obstacle against every projectile and the player, then rebuild
/// both populations. A destroyed obstacle leaves one explosion at its
/// center; marking first and compacting afterwards lets one projectile be
/// tested against several obstacles and the other way round.
fn resolve_collisions(
    asteroids: Vec<Asteroid>,
    bullets: Vec<Bullet>,
    player_rect: Rectangle,
    explosion_factory: &ExplosionFactory,
    explosions: &mut Vec<Explosion>,
) -> (r: (Vec<Asteroid>, Vec<Bullet>, bool))
    requires
        forall|i: int| 0 <= i < asteroids@.len() ==> (#[trigger] asteroids@[i]).wf(),
        forall|i: int| 0 <= i < bullets@.len() ==> (#[trigger] bullets@[i]).wf(),
        player_rect.valid(),
        explosion_factory.wf(),
        forall|i: int| 0 <= i < old(explosions)@.len() ==> (#[trigger] old(explosions)@[i]).wf(),
    ensures
        r.0@ == spec_surviving_asteroids(asteroids@, bullets@, player_rect),
        forall|i: int| 0 <= i < r.0@.len() ==> (#[trigger] r.0@[i]).wf(),
        r.1@ == spec_surviving_bullets(bullets@, asteroids@),
        forall|i: int| 0 <= i < r.1@.len() ==> (#[trigger] r.1@[i]).wf(),
        r.2 == !spec_player_hit(asteroids@, player_rect),
        final(explosions)@.len() == old(explosions)@.len() + spec_dead_asteroids(
            asteroids@,
            bullets@,
            player_rect,
        ).len(),
        forall|j: int|
            0 <= j < old(explosions)@.len() ==> #[trigger] final(explosions)@[j] == old(
                explosions,
            )@[j],
        forall|j: int|
            old(explosions)@.len() <= j < final(explosions)@.len() ==> {
                let a = spec_dead_asteroids(asteroids@, bullets@, player_rect)[j - old(
                    explosions,
                )@.len()];
                (#[trigger] final(explosions)@[j]).spec_spawned_at(
                    explosion_factory.sprite,
                    a.rect.x + 48_000,
                    a.rect.y + 48_000,
                ) && final(explosions)@[j].wf()
            },
{
    let ghost bs = bullets@;
    let ghost asts = asteroids@;
    let ghost n = asts.len() as int;
    let ghost old_explosions = explosions@;
    let ghost survives = spec_asteroid_survives_fn(bs, player_rect);
    let ghost dead_fn = spec_asteroid_dead_fn(bs, player_rect);

    let mut transition_bullets: Vec<MaybeAlive<Bullet>> = Vec::new();
    let mut i: usize = 0;
    while i < bullets.len()
        invariant
            i <= bs.len(),
            bullets@ == bs,
            transition_bullets@.len() == i,
            forall|k: int|
                0 <= k < i ==> #[trigger] transition_bullets@[k] == (MaybeAlive {
                    alive: true,
                    value: bs[k],
                }),
        decreases bs.len() - i,
    {
        let b = bullets[i];
        transition_bullets.push(MaybeAlive { alive: true, value: b });
        i = i + 1;
    }

    let mut player_alive = true;
    let mut new_asteroids: Vec<Asteroid> = Vec::new();
    let mut rest = asteroids;
    while rest.len() > 0
        invariant
            n == asts.len(),
            rest@.len() <= n,
            rest@ == asts.subrange(n - rest@.len(), n),
            forall|j: int| 0 <= j < n ==> (#[trigger] asts[j]).wf(),
            forall|j: int| 0 <= j < bs.len() ==> (#[trigger] bs[j]).wf(),
            player_rect.valid(),
            explosion_factory.wf(),
            survives == spec_asteroid_survives_fn(bs, player_rect),
            dead_fn == spec_asteroid_dead_fn(bs, player_rect),
            transition_bullets@.len() == bs.len(),
            forall|k: int|
                0 <= k < bs.len() ==> (#[trigger] transition_bullets@[k]).value == bs[k],
            forall|k: int|
                0 <= k < bs.len() ==> (#[trigger] transition_bullets@[k]).alive
                    == !spec_bullet_hits(bs[k], asts.take(n - rest@.len())),
            new_asteroids@ == asts.take(n - rest@.len()).filter(survives),
            forall|j: int| 0 <= j < new_asteroids@.len() ==> (#[trigger] new_asteroids@[j]).wf(),
            player_alive == !spec_player_hit(asts.take(n - rest@.len()), player_rect),
            explosions@.len() == old_explosions.len() + asts.take(n - rest@.len()).filter(
                dead_fn,
            ).len(),
            forall|j: int|
                0 <= j < old_explosions.len() ==> #[trigger] explosions@[j] == old_explosions[j],
            forall|j: int|
                old_explosions.len() <= j < explosions@.len() ==> {
                    let a = asts.take(n - rest@.len()).filter(dead_fn)[j - old_explosions.len()];
                    (#[trigger] explosions@[j]).spec_spawned_at(
                        explosion_factory.sprite,
                        a.rect.x + 48_000,
                        a.rect.y + 48_000,
                    ) && explosions@[j].wf()
                },
        decreases rest@.len(),
    {
        let ghost ai = n - rest@.len();
        let a = rest.remove(0);
        proof {
            assert(a == asts[ai]);
            assert(rest@ =~= asts.subrange(n - rest@.len(), n));
        }
        let ghost t0 = transition_bullets@;
        let mut asteroid_alive = true;
        let mut k: usize = 0;
        while k < transition_bullets.len()
            invariant
                k <= bs.len(),
                transition_bullets@.len() == bs.len(),
                t0.len() == bs.len(),
                a.wf(),
                forall|j: int| 0 <= j < bs.len() ==> (#[trigger] bs[j]).wf(),
                forall|j: int|
                    0 <= j < bs.len() ==> (#[trigger] transition_bullets@[j]).value == bs[j],
                forall|j: int| 0 <= j < bs.len() ==> (#[trigger] t0[j]).value == bs[j],
                forall|j: int|
                    0 <= j < k ==> (#[trigger] transition_bullets@[j]).alive == (t0[j].alive
                        && !a.rect.spec_overlaps(bs[j].spec_rect())),
                forall|j: int|
                    k <= j < bs.len() ==> #[trigger] transition_bullets@[j] == t0[j],
                asteroid_alive == !(exists|j: int|
                    0 <= j < k && a.rect.spec_overlaps((#[trigger] bs[j]).spec_rect())),
            decreases bs.len() - k,
        {
            let m = transition_bullets[k];
            let brect = m.value.rect();
            if a.rect.overlaps(brect) {
                asteroid_alive = false;
                transition_bullets.set(k, MaybeAlive { alive: false, value: m.value });
            }
            k = k + 1;
        }
        proof {
            assert(asteroid_alive == !spec_asteroid_hit(a, bs));
        }
        if a.rect.overlaps(player_rect) {
            asteroid_alive = false;
            player_alive = false;
        }
        proof {
            assert(asts.take(ai + 1) =~= asts.take(ai).push(a));
            lemma_filter_push(asts.take(ai), survives, a);
            lemma_filter_push(asts.take(ai), dead_fn, a);
        }
        if asteroid_alive {
            new_asteroids.push(a);
            proof {
                assert(survives(a));
                assert(new_asteroids@ =~= asts.take(ai + 1).filter(survives));
                assert(asts.take(ai + 1).filter(dead_fn) =~= asts.take(ai).filter(dead_fn));
            }
        } else {
            let center = a.rect.center();
            proof {
                assert(a.rect.w as int / 2 == 48_000) by {
                    lemma_div_by_multiple(48_000, 2);
                    assert(48_000 * 2 == 96_000) by (nonlinear_arith);
                }
            }
            let e = explosion_factory.at_center(center);
            explosions.push(e);
            proof {
                assert(dead_fn(a));
                assert(new_asteroids@ =~= asts.take(ai + 1).filter(survives));
                assert(asts.take(ai + 1).filter(dead_fn) =~= asts.take(ai).filter(dead_fn).push(
                    a,
                ));
            }
        }
        proof {
            let ii = ai + 1;
            assert forall|j: int| 0 <= j < bs.len() implies (#[trigger] transition_bullets@[j]).alive
                == !spec_bullet_hits(bs[j], asts.take(ii)) by {
                if transition_bullets@[j].alive {
                    assert(!spec_bullet_hits(bs[j], asts.take(ai)));
                    assert(!a.rect.spec_overlaps(bs[j].spec_rect()));
                    assert forall|x: int|
                        0 <= x < asts.take(ii).len() implies !(#[trigger] asts.take(
                        ii,
                    )[x]).rect.spec_overlaps(bs[j].spec_rect()) by {
                        if x < ai {
                            assert(asts.take(ai)[x] == asts.take(ii)[x]);
                            assert(!spec_bullet_hits(bs[j], asts.take(ai)));
                        } else {
                            assert(asts.take(ii)[x] == a);
                        }
                    }
                } else {
                    if t0[j].alive && a.rect.spec_overlaps(bs[j].spec_rect()) {
                        assert(asts.take(ii)[ai] == a);
                        assert(spec_bullet_hits(bs[j], asts.take(ii)));
                    } else {
                        assert(!t0[j].alive);
                        let x = choose|x: int|
                            0 <= x < asts.take(ai).len() && (#[trigger] asts.take(
                                ai,
                            )[x]).rect.spec_overlaps(bs[j].spec_rect());
                        assert(asts.take(ii)[x] == asts.take(ai)[x]);
                        assert(spec_bullet_hits(bs[j], asts.take(ii)));
                    }
                }
            }
            assert(player_alive == !spec_player_hit(asts.take(ii), player_rect)) by {
                if player_alive {
                    assert forall|x: int|
                        0 <= x < asts.take(ii).len() implies !(#[trigger] asts.take(
                        ii,
                    )[x]).rect.spec_overlaps(player_rect) by {
                        if x < ai {
                            assert(asts.take(ai)[x] == asts.take(ii)[x]);
                        } else {
                            assert(asts.take(ii)[x] == a);
                        }
                    }
                } else {
                    if a.rect.spec_overlaps(player_rect) {
                        assert(asts.take(ii)[ai] == a);
                    } else {
                        assert(spec_player_hit(asts.take(ai), player_rect));
                        let x = choose|x: int|
                            0 <= x < asts.take(ai).len() && (#[trigger] asts.take(
                                ai,
                            )[x]).rect.spec_overlaps(player_rect);
                        assert(asts.take(ii)[x] == asts.take(ai)[x]);
                    }
                }
            }
        }
    }
    proof {
        assert(asts.take(n) =~= asts);
    }

    let ghost bullet_pred = spec_bullet_survives_fn(asts);
    let mut new_bullets: Vec<Bullet> = Vec::new();
    let mut k: usize = 0;
    while k < transition_bullets.len()
        invariant
            k <= bs.len(),
            transition_bullets@.len() == bs.len(),
            bullet_pred == spec_bullet_survives_fn(asts),
            forall|j: int| 0 <= j < bs.len() ==> (#[trigger] bs[j]).wf(),
            forall|j: int|
                0 <= j < bs.len() ==> (#[trigger] transition_bullets@[j]).value == bs[j],
            forall|j: int|
                0 <= j < bs.len() ==> (#[trigger] transition_bullets@[j]).alive
                    == !spec_bullet_hits(bs[j], asts),
            new_bullets@ == bs.take(k as int).filter(bullet_pred),
            forall|j: int| 0 <= j < new_bullets@.len() ==> (#[trigger] new_bullets@[j]).wf(),
        decreases bs.len() - k,
    {
        let m = transition_bullets[k];
        proof {
            assert(bs.take(k as int + 1) =~= bs.take(k as int).push(bs[k as int]));
            lemma_filter_push(bs.take(k as int), bullet_pred, bs[k as int]);
        }
        match m.as_option() {
            Some(b) => {
                new_bullets.push(b);
                proof {
                    assert(new_bullets@ =~= bs.take(k as int + 1).filter(bullet_pred));
                }
            },
            None => {
                proof {
                    assert(new_bullets@ =~= bs.take(k as int + 1).filter(bullet_pred));
                }
            },
        }
        k = k + 1;
    }
    proof {
        assert(bs.take(bs.len() as int) =~= bs);
    }
    (new_asteroids, new_bullets, player_alive)
}

/// The draw command of one asteroid, as mapped over the population.
pub open spec fn spec_asteroid_cmd_fn() -> spec_fn(Asteroid) -> DrawCommand {
    |a: Asteroid| a.spec_render_cmd()
}

/// The draw command of one projectile, as mapped over the population.
pub open spec fn spec_bullet_cmd_fn() -> spec_fn(Bullet) -> DrawCommand {
    |b: Bullet| b.spec_render_cmd()
}

/// The draw command of one explosion, as mapped over the population.
pub open spec fn spec_explosion_cmd_fn() -> spec_fn(Explosion) -> DrawCommand {
    |e: Explosion| e.spec_render_cmd()
}

/// Every draw call of one gameplay frame, in order: clear, the two far
/// backdrop layers, the craft, the obstacles, the projectiles, the
/// explosions, and the near backdrop layer — all over the tick's final
/// populations.
pub open spec fn spec_game_frame_commands(post: GameView, out_w: int, out_h: int) -> Seq<
    DrawCommand,
> {
    seq![DrawCommand::Clear { color: Color { r: 0, g: 0, b: 0 } }]
        + Background::spec_tiles(post.bg.back.sprite, post.bg.back.pos as int, out_w, out_h)
        + Background::spec_tiles(post.bg.middle.sprite, post.bg.middle.pos as int, out_w, out_h)
        + seq![post.player.spec_render_cmd()]
        + post.asteroids@.map_values(spec_asteroid_cmd_fn())
        + post.bullets@.map_values(spec_bullet_cmd_fn())
        + post.explosions@.map_values(spec_explosion_cmd_fn())
        + Background::spec_tiles(post.bg.front.sprite, post.bg.front.pos as int, out_w, out_h)
}

/// Everything one gameplay tick does, relating the states before and
/// after. On a cancel input the screen is left as it is and replaced by a
/// menu carrying the same backdrop; otherwise the craft moves, every
/// population ages, the collision pass runs, the trigger and the spawn
/// draw may add new objects, and the frame's draw calls are recorded.
pub open spec fn spec_game_tick_post(
    pre: GameView,
    post: GameView,
    phi_pre: Phi,
    phi_post: Phi,
    dt: int,
    draws: (u64, u64, u64, u64),
    r: ViewAction,
) -> bool {
    if phi_pre.events.now.key_escape {
        &&& post == pre
        &&& phi_post == phi_pre
        &&& r matches ViewAction::ChangeView(s) && (*s) matches Screen::Menu(m)
            && m.spec_built_from(phi_pre.assets, pre.bg) && m.wf()
    } else {
        let w = phi_pre.output_w as int;
        let h = phi_pre.output_h as int;
        let craft = spec_player_updated(pre.player, phi_pre.events, w, h, dt);
        let sb = spec_stepped_bullets(pre.bullets@, dt, w);
        let sa = spec_stepped_asteroids(pre.asteroids@, dt);
        let se = spec_stepped_explosions(pre.explosions@, dt);
        let surv_b = spec_surviving_bullets(sb, sa);
        let surv_a = spec_surviving_asteroids(sa, sb, craft.rect);
        let dead_a = spec_dead_asteroids(sa, sb, craft.rect);
        let fired = phi_pre.events.now.key_space;
        let spawning = draws.0 as int % 100 == 0;
        &&& post.player == craft
        &&& post.bullets@ == surv_b + (if fired {
            spec_spawn_bullets(
                craft.cannon,
                craft.rect.x + 30_000,
                craft.rect.y + 6_000,
                craft.rect.y + PLAYER_H - 10_000,
            )
        } else {
            Seq::<Bullet>::empty()
        })
        &&& post.asteroids@.len() == surv_a.len() + (if spawning {
            1int
        } else {
            0int
        })
        &&& post.asteroids@.take(surv_a.len() as int) == surv_a
        &&& (spawning ==> pre.asteroid_factory.spec_spawned(
            post.asteroids@.last(),
            w,
            h,
            (draws.1, draws.2, draws.3),
        ))
        &&& post.explosions@.len() == se.len() + dead_a.len()
        &&& post.explosions@.take(se.len() as int) == se
        &&& forall|j: int|
            se.len() <= j < post.explosions@.len() ==> (#[trigger] post.explosions@[j]).spec_spawned_at(
                pre.explosion_factory.sprite,
                dead_a[j - se.len()].rect.x + 48_000,
                dead_a[j - se.len()].rect.y + 48_000,
            )
        &&& post.bg.back == (Background {
            pos: pre.bg.back.spec_advanced_pos(dt) as i64,
            vel: pre.bg.back.vel,
            sprite: pre.bg.back.sprite,
        })
        &&& post.bg.middle == (Background {
            pos: pre.bg.middle.spec_advanced_pos(dt) as i64,
            vel: pre.bg.middle.vel,
            sprite: pre.bg.middle.sprite,
        })
        &&& post.bg.front == (Background {
            pos: pre.bg.front.spec_advanced_pos(dt) as i64,
            vel: pre.bg.front.vel,
            sprite: pre.bg.front.sprite,
        })
        &&& post.asteroid_factory == pre.asteroid_factory
        &&& post.explosion_factory == pre.explosion_factory
        &&& phi_post.events == phi_pre.events
        &&& phi_post.output_w == phi_pre.output_w
        &&& phi_post.output_h == phi_pre.output_h
        &&& phi_post.assets == phi_pre.assets
        &&& phi_post.player_destroyed == spec_player_hit(sa, craft.rect)
        &&& phi_post.renderer.commands@ == phi_pre.renderer.commands@ + spec_game_frame_commands(
            post,
            w,
            h,
        )
        &&& phi_post.renderer.color == (if post.bullets@.len() > 0 {
            crate::bullets::spec_bullet_color()
        } else {
            Color { r: 0, g: 0, b: 0 }
        })
        &&& r == ViewAction::Continue
    }
}

impl GameView {
    /// One gameplay tick, deterministic in the four parameter draws: the
    /// first decides whether an obstacle spawns (one chance in a hundred),
    /// the rest parameterize it.
    #[verifier::rlimit(100)]
    pub fn render_with(&mut self, phi: &mut Phi, elapsed: i64, draws: (u64, u64, u64, u64)) -> (r:
        ViewAction)
        requires
            old(self).wf(),
            old(phi).wf(),
            0 <= elapsed <= MAX_ELAPSED,
            62_000 <= old(phi).output_w <= SCREEN_LIMIT,
            97_000 <= old(phi).output_h <= SCREEN_LIMIT,
        ensures
            spec_game_tick_post(
                *old(self),
                *final(self),
                *old(phi),
                *final(phi),
                elapsed as int,
                draws,
                r,
            ),
            final(self).wf(),
            final(phi).wf(),
    {
        if phi.events.now.key_escape {
            let bg = self.bg;
            let menu = MainMenuView::with_backgrounds(phi, bg);
            return ViewAction::ChangeView(Box::new(Screen::Menu(menu)));
        }
        let (out_w, out_h) = phi.output_size();
        let ghost cp0 = phi.renderer.commands@;

        phi.renderer.set_draw_color(Color { r: 0, g: 0, b: 0 });
        phi.renderer.clear();
        let ghost cp_clear = phi.renderer.commands@;
        self.bg.back.render(&mut phi.renderer, elapsed, out_w, out_h);
        let ghost cp_back = phi.renderer.commands@;
        self.bg.middle.render(&mut phi.renderer, elapsed, out_w, out_h);
        let ghost cp_middle = phi.renderer.commands@;

        self.player.update(&phi.events, out_w, out_h, elapsed);

        let mut bullets: Vec<Bullet> = Vec::new();
        core::mem::swap(&mut bullets, &mut self.bullets);
        self.bullets = step_bullets(bullets, elapsed, out_w);
        let mut asteroids: Vec<Asteroid> = Vec::new();
        core::mem::swap(&mut asteroids, &mut self.asteroids);
        self.asteroids = step_asteroids(asteroids, elapsed);
        let mut explosions: Vec<Explosion> = Vec::new();
        core::mem::swap(&mut explosions, &mut self.explosions);
        self.explosions = step_explosions(explosions, elapsed);
        let ghost se = self.explosions@;

        let mut coll_asteroids: Vec<Asteroid> = Vec::new();
        core::mem::swap(&mut coll_asteroids, &mut self.asteroids);
        let mut coll_bullets: Vec<Bullet> = Vec::new();
        core::mem::swap(&mut coll_bullets, &mut self.bullets);
        let ghost sa = coll_asteroids@;
        let ghost sb = coll_bullets@;
        let outcome = resolve_collisions(
            coll_asteroids,
            coll_bullets,
            self.player.rect,
            &self.explosion_factory,
            &mut self.explosions,
        );
        let (new_asteroids, new_bullets, player_alive) = outcome;
        self.asteroids = new_asteroids;
        self.bullets = new_bullets;
        // The destroyed-craft hook: observable to the outer layer, with no
        // terminal behavior attached.
        phi.player_destroyed = !player_alive;

        if phi.events.now.key_space {
            let spawned = self.player.spawn_bullets();
            self.bullets.push(spawned[0]);
            self.bullets.push(spawned[1]);
            proof {
                assert(self.bullets@ =~= spec_surviving_bullets(sb, sa) + spawned@);
            }
        } else {
            proof {
                assert(self.bullets@ =~= spec_surviving_bullets(sb, sa) + Seq::<Bullet>::empty());
            }
        }
        let ghost pre_spawn_asteroids = self.asteroids@;
        if draws.0 % 100 == 0 {
            let a = self.asteroid_factory.spawn_from(out_w, out_h, (draws.1, draws.2, draws.3));
            self.asteroids.push(a);
            proof {
                assert(self.asteroids@.take(pre_spawn_asteroids.len() as int)
                    =~= pre_spawn_asteroids);
            }
        } else {
            proof {
                assert(self.asteroids@.take(pre_spawn_asteroids.len() as int)
                    =~= pre_spawn_asteroids);
            }
        }

        self.player.render(&mut phi.renderer);
        let ghost cp_player = phi.renderer.commands@;
        let ghost phi_mid = *phi;

        let mut i: usize = 0;
        while i < self.asteroids.len()
            invariant
                i <= self.asteroids@.len(),
                forall|j: int|
                    0 <= j < self.asteroids@.len() ==> (#[trigger] self.asteroids@[j]).wf(),
                phi.renderer.commands@ == cp_player + self.asteroids@.take(i as int).map_values(
                    spec_asteroid_cmd_fn(),
                ),
                phi.renderer.color == (Color { r: 0, g: 0, b: 0 }),
                phi.events == phi_mid.events,
                phi.output_w == phi_mid.output_w,
                phi.output_h == phi_mid.output_h,
                phi.assets == phi_mid.assets,
                phi.player_destroyed == phi_mid.player_destroyed,
            decreases self.asteroids@.len() - i,
        {
            let a = &self.asteroids[i];
            a.render(&mut phi.renderer);
            proof {
                assert(phi.renderer.commands@ =~= cp_player + self.asteroids@.take(
                    i as int + 1,
                ).map_values(spec_asteroid_cmd_fn()));
            }
            i = i + 1;
        }
        proof {
            assert(self.asteroids@.take(self.asteroids@.len() as int) =~= self.asteroids@);
        }
        let ghost cp_asteroids = phi.renderer.commands@;

        let mut i: usize = 0;
        while i < self.bullets.len()
            invariant
                i <= self.bullets@.len(),
                forall|j: int| 0 <= j < self.bullets@.len() ==> (#[trigger] self.bullets@[j]).wf(),
                phi.renderer.commands@ == cp_asteroids + self.bullets@.take(i as int).map_values(
                    spec_bullet_cmd_fn(),
                ),
                phi.renderer.color == (if i > 0 {
                    crate::bullets::spec_bullet_color()
                } else {
                    Color { r: 0, g: 0, b: 0 }
                }),
                phi.events == phi_mid.events,
                phi.output_w == phi_mid.output_w,
                phi.output_h == phi_mid.output_h,
                phi.assets == phi_mid.assets,
                phi.player_destroyed == phi_mid.player_destroyed,
            decreases self.bullets@.len() - i,
        {
            let b = &self.bullets[i];
            b.render(&mut phi.renderer);
            proof {
                assert(phi.renderer.commands@ =~= cp_asteroids + self.bullets@.take(
                    i as int + 1,
                ).map_values(spec_bullet_cmd_fn()));
            }
            i = i + 1;
        }
        proof {
            assert(self.bullets@.take(self.bullets@.len() as int) =~= self.bullets@);
        }
        let ghost cp_bullets = phi.renderer.commands@;

        let mut i: usize = 0;
        while i < self.explosions.len()
            invariant
                i <= self.explosions@.len(),
                forall|j: int|
                    0 <= j < self.explosions@.len() ==> (#[trigger] self.explosions@[j]).wf(),
                phi.renderer.commands@ == cp_bullets + self.explosions@.take(i as int).map_values(
                    spec_explosion_cmd_fn(),
                ),
                phi.renderer.color == (if self.bullets@.len() > 0 {
                    crate::bullets::spec_bullet_color()
                } else {
                    Color { r: 0, g: 0, b: 0 }
                }),
                phi.events == phi_mid.events,
                phi.output_w == phi_mid.output_w,
                phi.output_h == phi_mid.output_h,
                phi.assets == phi_mid.assets,
                phi.player_destroyed == phi_mid.player_destroyed,
            decreases self.explosions@.len() - i,
        {
            let e = &self.explosions[i];
            e.render(&mut phi.renderer);
            proof {
                assert(phi.renderer.commands@ =~= cp_bullets + self.explosions@.take(
                    i as int + 1,
                ).map_values(spec_explosion_cmd_fn()));
            }
            i = i + 1;
        }
        proof {
            assert(self.explosions@.take(self.explosions@.len() as int) =~= self.explosions@);
        }

        self.bg.front.render(&mut phi.renderer, elapsed, out_w, out_h);

        proof {
            assert(self.explosions@.take(se.len() as int) =~= se);
            assert(phi.renderer.commands@ =~= cp0 + spec_game_frame_commands(
                *self,
                out_w as int,
                out_h as int,
            ));
        }
        ViewAction::Continue
    }

    /// One gameplay tick, drawing from the process-wide random source: an
    /// obstacle spawns with one chance in a hundred, its parameters drawn
    /// independently. Everything else holds for every outcome of the
    /// draws.
    pub fn render(&mut self, phi: &mut Phi, elapsed: i64) -> (r: ViewAction)
        requires
            old(self).wf(),
            old(phi).wf(),
            0 <= elapsed <= MAX_ELAPSED,
            62_000 <= old(phi).output_w <= SCREEN_LIMIT,
            97_000 <= old(phi).output_h <= SCREEN_LIMIT,
        ensures
            exists|draws: (u64, u64, u64, u64)|
                spec_game_tick_post(
                    *old(self),
                    *final(self),
                    *old(phi),
                    *final(phi),
                    elapsed as int,
                    draws,
                    r,
                ),
            final(self).wf(),
            final(phi).wf(),
    {
        let chance: u64 = rand::random();
        let draws: (u64, u64, u64, u64) = if chance % 100 == 0 {
            let d1: u64 = rand::random();
            let d2: u64 = rand::random();
            let d3: u64 = rand::random();
            (chance, d1, d2, d3)
        } else {
            (chance, 0, 0, 0)
        };
        self.render_with(phi, elapsed, draws)
    }
}

/// Collision symmetry: a projectile and an obstacle whose boxes overlap
/// in a tick are both absent from the surviving populations that the next
/// tick renders, and the obstacle stands in the destroyed list, each entry
/// of which spawns exactly one explosion at that obstacle's center.
pub proof fn lemma_collision_symmetry(
    asts: Seq<Asteroid>,
    bs: Seq<Bullet>,
    player_rect: Rectangle,
    i: int,
    j: int,
)
    requires
        0 <= i < asts.len(),
        0 <= j < bs.len(),
        asts[i].rect.spec_overlaps(bs[j].spec_rect()),
    ensures
        !spec_surviving_asteroids(asts, bs, player_rect).contains(asts[i]),
        !spec_surviving_bullets(bs, asts).contains(bs[j]),
        spec_dead_asteroids(asts, bs, player_rect).contains(asts[i]),
{
    let survives = spec_asteroid_survives_fn(bs, player_rect);
    let dead_fn = spec_asteroid_dead_fn(bs, player_rect);
    let bullet_pred = spec_bullet_survives_fn(asts);
    assert(spec_asteroid_hit(asts[i], bs)) by {
        assert(asts[i].rect.spec_overlaps(bs[j].spec_rect()));
    }
    assert(spec_bullet_hits(bs[j], asts)) by {
        assert(asts[i].rect.spec_overlaps(bs[j].spec_rect()));
    }
    assert(!spec_surviving_asteroids(asts, bs, player_rect).contains(asts[i])) by {
        if spec_surviving_asteroids(asts, bs, player_rect).contains(asts[i]) {
            let k = choose|k: int|
                0 <= k < asts.filter(survives).len() && asts.filter(survives)[k] == asts[i];
            asts.lemma_filter_pred(survives, k);
        }
    }
    assert(!spec_surviving_bullets(bs, asts).contains(bs[j])) by {
        if spec_surviving_bullets(bs, asts).contains(bs[j]) {
            let k = choose|k: int|
                0 <= k < bs.filter(bullet_pred).len() && bs.filter(bullet_pred)[k] == bs[j];
            bs.lemma_filter_pred(bullet_pred, k);
        }
    }
    assert(spec_dead_asteroids(asts, bs, player_rect).contains(asts[i])) by {
        assert(dead_fn(asts[i]));
        asts.lemma_filter_contains(dead_fn, i);
    }
}

/// No false kills: a projectile that overlaps no obstacle, and an obstacle
/// that overlaps no projectile and not the player, both stand unmodified
/// in the surviving populations after the collision pass.
pub proof fn lemma_no_false_kills(
    asts: Seq<Asteroid>,
    bs: Seq<Bullet>,
    player_rect: Rectangle,
    i: int,
    j: int,
)
    requires
        0 <= i < asts.len(),
        0 <= j < bs.len(),
        !spec_asteroid_hit(asts[i], bs),
        !asts[i].rect.spec_overlaps(player_rect),
        !spec_bullet_hits(bs[j], asts),
    ensures
        spec_surviving_asteroids(asts, bs, player_rect).contains(asts[i]),
        spec_surviving_bullets(bs, asts).contains(bs[j]),
{
    let survives = spec_asteroid_survives_fn(bs, player_rect);
    let bullet_pred = spec_bullet_survives_fn(asts);
    assert(survives(asts[i]));
    asts.lemma_filter_contains(survives, i);
    assert(bullet_pred(bs[j]));
    bs.lemma_filter_contains(bullet_pred, j);
}

/// Normalized diagonal speed: with both axes held, the per-axis step `m`
/// makes the squared diagonal displacement `2 m^2` equal the squared axis
/// displacement `t^2` up to the fixed-point rounding of the ratio
/// 7071 / 10000 — never above it, and below it by at most a fiftieth of a
/// thousandth plus three units per unit of travel.
pub proof fn lemma_diagonal_speed(dt: int)
    requires
        0 <= dt <= MAX_ELAPSED,
    ensures
        ({
            let t = spec_traveled(dt);
            let m = t * 7071 / 10000;
            &&& 2 * m * m <= t * t
            &&& t * t - 2 * m * m <= t * t / 50000 + 3 * t
        }),
{
    let t = spec_traveled(dt);
    let m = t * 7071 / 10000;
    assert(0 <= t <= 900_000);
    assert(10000 * m <= 7071 * t && 7071 * t < 10000 * (m + 1)) by {
        lemma_fundamental_div_mod(t * 7071, 10000);
        assert(t * 7071 == 7071 * t) by (nonlinear_arith);
        lemma_mod_bound(t * 7071, 10000);
        assert(10000 * m + (t * 7071) % 10000 == 7071 * t);
        assert(10000 * (m + 1) == 10000 * m + 10000) by (nonlinear_arith);
    }
    assert(0 <= m) by {
        lemma_div_pos_is_pos(t * 7071, 10000);
    }
    assert(2 * m * m <= t * t && t * t - 2 * m * m <= t * t / 50000 + 3 * t) by (nonlinear_arith)
        requires
            0 <= t <= 900_000,
            0 <= m,
            10000 * m <= 7071 * t,
            7071 * t < 10000 * (m + 1),
            50000 * (t * t / 50000) <= t * t,
            t * t / 50000 >= 0,
    ;
}

/// An obstacle's abscissa strictly decreases tick over tick while it
/// lives, and it is removed exactly on the first tick its abscissa reaches
/// `-ASTEROID_SIDE`.
pub proof fn lemma_obstacle_recycling(a: Asteroid, dt: int)
    requires
        a.wf(),
        1 <= dt <= MAX_ELAPSED,
    ensures
        a.spec_step(dt).rect.x < a.rect.x,
        a.spec_update(dt) is None <==> a.spec_step(dt).rect.x <= -ASTEROID_SIDE,
        a.spec_update(dt) matches Some(next) ==> next.rect.x > -ASTEROID_SIDE,
{
    assert(50_000 * 1 <= a.vel * dt) by (nonlinear_arith)
        requires
            50_000 <= a.vel,
            1 <= dt,
    ;
    lemma_div_is_ordered(50_000, a.vel * dt, 1000);
    assert(50_000int / 1000 == 50) by {
        lemma_div_by_multiple(50, 1000);
        assert(50 * 1000 == 50_000) by (nonlinear_arith);
    }
    assert(a.vel * dt <= 150_000 * dt == (150 * dt) * 1000) by (nonlinear_arith)
        requires
            50_000 <= a.vel < 150_000,
            1 <= dt,
    ;
    lemma_div_is_ordered(a.vel * dt, (150 * dt) * 1000, 1000);
    lemma_div_by_multiple(150 * dt, 1000);
    assert(a.vel * dt / 1000 <= 150 * dt);
}

} // verus!
