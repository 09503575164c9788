//! Parallax scrolling backdrops: three independently moving layers whose
//! state is carried across screen transitions so the backdrop never
//! visibly resets.

use vstd::prelude::*;
use crate::data::{Rectangle, div_units, COORD_LIMIT, SCREEN_LIMIT, MAX_ELAPSED};
use crate::gfx::{Sprite, DrawCommand, Renderer};
use vstd::arithmetic::div_mod::{
    lemma_div_is_ordered, lemma_div_multiples_vanish, lemma_basic_div,
    lemma_fundamental_div_mod_converse,
};

verus! {

/// Scroll speed of the farthest layer, in milliunits per second.
pub const BG_BACK_VEL: i64 = 20_000;

/// Scroll speed of the middle layer, in milliunits per second.
pub const BG_MIDDLE_VEL: i64 = 40_000;

/// Scroll speed of the nearest layer, in milliunits per second.
pub const BG_FRONT_VEL: i64 = 80_000;

/// One scrolling layer: a sprite tiled horizontally, whose offset advances
/// with time and wraps at the sprite's width.
#[derive(Clone, Copy, Debug, PartialEq, Eq, Structural)]
pub struct Background {
    pub pos: i64,
    pub vel: i64,
    pub sprite: Sprite,
}

impl Background {
    /// Well-formedness: the offset stays within one sprite width, and the
    /// speed is small enough that one tick never advances more than one
    /// width.
    pub open spec fn wf(self) -> bool {
        &&& self.sprite.valid()
        &&& 1 <= self.sprite.src.w
        &&& 0 <= self.pos <= self.sprite.src.w
        &&& 0 <= self.vel
        &&& self.vel * MAX_ELAPSED <= 1000 * self.sprite.src.w
    }

    /// The offset after a tick of `dt` milliseconds: it advances with the
    /// layer's speed and wraps once past the sprite's width.
    pub open spec fn spec_advanced_pos(self, dt: int) -> int {
        let p = self.pos + self.vel * dt / 1000;
        if p > self.sprite.src.w {
            p - self.sprite.src.w
        } else {
            p
        }
    }

    /// How many tiles one frame shows: the visible width plus the hidden
    /// left part, in sprite widths, rounded up.
    pub open spec fn spec_tile_count(pos: int, w: int, out_w: int) -> int {
        (out_w + pos + w - 1) / w
    }

    /// The `k`-th tile: the sprite copied at `k` widths right of `-pos`,
    /// over the full output height.
    pub open spec fn spec_tile(sprite: Sprite, pos: int, out_h: int, k: int) -> DrawCommand {
        sprite.spec_render(
            Rectangle {
                x: (-pos + k * sprite.src.w) as i64,
                y: 0,
                w: sprite.src.w,
                h: out_h as i64,
            },
        )
    }

    /// All tiles of one frame, left to right.
    pub open spec fn spec_tiles(sprite: Sprite, pos: int, out_w: int, out_h: int) -> Seq<
        DrawCommand,
    > {
        Seq::new(
            Self::spec_tile_count(pos, sprite.src.w as int, out_w) as nat,
            |k: int| Self::spec_tile(sprite, pos, out_h, k),
        )
    }

    /// Advances the layer by `dt` milliseconds and records the tiles that
    /// cover the output surface.
    pub fn render(&mut self, renderer: &mut Renderer, elapsed: i64, out_w: i64, out_h: i64)
        requires
            old(self).wf(),
            0 <= elapsed <= MAX_ELAPSED,
            0 <= out_w <= SCREEN_LIMIT,
            0 <= out_h <= SCREEN_LIMIT,
        ensures
            final(self).pos == old(self).spec_advanced_pos(elapsed as int),
            final(self).vel == old(self).vel,
            final(self).sprite == old(self).sprite,
            final(self).wf(),
            final(renderer).commands@ == old(renderer).commands@ + Self::spec_tiles(
                old(self).sprite,
                final(self).pos as int,
                out_w as int,
                out_h as int,
            ),
            final(renderer).color == old(renderer).color,
    {
        let size_w = self.sprite.src.w;
        proof {
            assert(0 <= self.vel * elapsed <= self.vel * MAX_ELAPSED) by (nonlinear_arith)
                requires
                    0 <= self.vel,
                    0 <= elapsed <= MAX_ELAPSED,
            ;
            lemma_div_is_ordered(self.vel * elapsed, 1000 * size_w, 1000);
            lemma_div_multiples_vanish(size_w as int, 1000);
        }
        let step = div_units(self.vel * elapsed, 1000);
        self.pos = self.pos + step;
        if self.pos > size_w {
            self.pos = self.pos - size_w;
        }
        let pos = self.pos;
        let ghost all_tiles = Self::spec_tiles(self.sprite, pos as int, out_w as int, out_h as int);
        let ghost w_int = size_w as int;
        let ghost start_commands = renderer.commands@;
        let mut left = -pos;
        let ghost mut k: int = 0;
        while left < out_w
            invariant
                self.sprite.valid(),
                1 <= size_w == self.sprite.src.w,
                0 <= pos <= size_w,
                0 <= out_w <= SCREEN_LIMIT,
                0 <= out_h <= SCREEN_LIMIT,
                0 <= k,
                left == -pos + k * size_w,
                k == 0 || -pos + (k - 1) * size_w < out_w,
                renderer.commands@ == start_commands + Seq::new(
                    k as nat,
                    |j: int| Self::spec_tile(self.sprite, pos as int, out_h as int, j),
                ),
                renderer.color == old(renderer).color,
            decreases out_w + size_w - left,
        {
            let dest = Rectangle { x: left, y: 0, w: size_w, h: out_h };
            let cmd = self.sprite.render(dest);
            renderer.push_command(cmd);
            proof {
                assert((k + 1) * size_w == k * size_w + size_w) by (nonlinear_arith);
                assert(renderer.commands@ =~= start_commands + Seq::new(
                    (k + 1) as nat,
                    |j: int| Self::spec_tile(self.sprite, pos as int, out_h as int, j),
                ));
            }
            left = left + size_w;
            proof {
                k = k + 1;
            }
        }
        proof {
            let a = out_w as int + pos as int;
            assert(left >= out_w);
            assert(k * w_int >= a);
            if k == 0 {
                assert(a <= 0);
                assert(a == 0);
                lemma_basic_div(w_int - 1, w_int);
                assert(Self::spec_tile_count(pos as int, w_int, out_w as int) == 0);
            } else {
                assert((k - 1) * w_int < a);
                assert(0 <= a + w_int - 1 - k * w_int < w_int) by (nonlinear_arith)
                    requires
                        k * w_int >= a,
                        (k - 1) * w_int < a,
                        1 <= w_int,
                ;
                lemma_fundamental_div_mod_converse(a + w_int - 1, w_int, k, a + w_int - 1 - k * w_int);
                assert(Self::spec_tile_count(pos as int, w_int, out_w as int) == k);
            }
            assert(renderer.commands@ =~= start_commands + all_tiles);
        }
    }
}

/// The three parallax layers, nearest to farthest, moved together and
/// handed whole from one screen to the next.
#[derive(Clone, Copy, Debug, PartialEq, Eq, Structural)]
pub struct BgSet {
    pub back: Background,
    pub middle: Background,
    pub front: Background,
}

impl BgSet {
    pub open spec fn wf(self) -> bool {
        &&& self.back.wf()
        &&& self.middle.wf()
        &&& self.front.wf()
    }

    /// A fresh set of layers at their starting offsets, slowest at the
    /// back.
    pub fn new(back: Sprite, middle: Sprite, front: Sprite) -> (r: BgSet)
        requires
            back.valid(),
            middle.valid(),
            front.valid(),
            1000 * back.src.w >= BG_BACK_VEL * MAX_ELAPSED,
            1000 * middle.src.w >= BG_MIDDLE_VEL * MAX_ELAPSED,
            1000 * front.src.w >= BG_FRONT_VEL * MAX_ELAPSED,
        ensures
            r == (BgSet {
                back: Background { pos: 0, vel: BG_BACK_VEL, sprite: back },
                middle: Background { pos: 0, vel: BG_MIDDLE_VEL, sprite: middle },
                front: Background { pos: 0, vel: BG_FRONT_VEL, sprite: front },
            }),
            r.wf(),
    {
        BgSet {
            back: Background { pos: 0, vel: BG_BACK_VEL, sprite: back },
            middle: Background { pos: 0, vel: BG_MIDDLE_VEL, sprite: middle },
            front: Background { pos: 0, vel: BG_FRONT_VEL, sprite: front },
        }
    }
}

} // verus!
