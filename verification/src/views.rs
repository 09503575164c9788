//! The plain craft screen: a single sprite moved by the held keys inside
//! the movable region, with no entities around it.

use vstd::prelude::*;
use crate::data::{Rectangle, div_units, SCREEN_LIMIT, MAX_ELAPSED};
use crate::gfx::{Sprite, DrawCommand, Color};
use crate::phi::{Phi, ViewAction};
use crate::game::{spec_moved, spec_dx, spec_dy, PLAYER_SPEED};
use vstd::arithmetic::div_mod::{
    lemma_div_is_ordered, lemma_div_by_multiple, lemma_div_pos_is_pos,
};

verus! {

/// The craft's side length on this screen, in milliunits.
pub const SHIP_SIDE: i64 = 32_000;

/// A craft: its box and its sprite.
#[derive(Clone, Copy, Debug, PartialEq, Eq, Structural)]
pub struct Ship {
    pub rect: Rectangle,
    pub sprite: Sprite,
}

/// A screen holding nothing but the craft.
#[derive(Clone, Copy, Debug, PartialEq, Eq, Structural)]
pub struct ShipView {
    pub player: Ship,
}

impl ShipView {
    pub open spec fn wf(self) -> bool {
        &&& self.player.rect.valid()
        &&& self.player.rect.w == SHIP_SIDE
        &&& self.player.rect.h == SHIP_SIDE
        &&& 0 <= self.player.rect.x <= SCREEN_LIMIT
        &&& 0 <= self.player.rect.y <= SCREEN_LIMIT
        &&& self.player.sprite.valid()
    }

    /// A fresh craft screen, with the craft near the top left corner.
    pub fn new(phi: &Phi) -> (r: ShipView)
        requires
            phi.wf(),
        ensures
            r.player.rect == (Rectangle { x: 64_000, y: 64_000, w: SHIP_SIDE, h: SHIP_SIDE }),
            r.player.sprite == phi.assets.player_sheet,
            r.wf(),
    {
        ShipView {
            player: Ship {
                rect: Rectangle { x: 64_000, y: 64_000, w: SHIP_SIDE, h: SHIP_SIDE },
                sprite: phi.assets.player_sheet,
            },
        }
    }

    /// Everything one tick of this screen does: quit on the cancel inputs,
    /// else move the craft by the held keys with normalized diagonal
    /// speed, clamp it into the left seventy percent of the surface, and
    /// draw it.
    pub open spec fn spec_ship_tick_post(
        pre: ShipView,
        post: ShipView,
        phi_pre: Phi,
        phi_post: Phi,
        dt: int,
        r: ViewAction,
    ) -> bool {
        if phi_pre.events.now.quit || phi_pre.events.now.key_escape {
            &&& post == pre
            &&& phi_post == phi_pre
            &&& r == ViewAction::Quit
        } else {
            let moved = spec_moved(phi_pre.events, dt);
            let dx = spec_dx(phi_pre.events, moved);
            let dy = spec_dy(phi_pre.events, moved);
            let shifted = Rectangle {
                x: (pre.player.rect.x + dx) as i64,
                y: (pre.player.rect.y + dy) as i64,
                w: SHIP_SIDE,
                h: SHIP_SIDE,
            };
            let region = Rectangle {
                x: 0,
                y: 0,
                w: (phi_pre.output_w as int * 7 / 10) as i64,
                h: phi_pre.output_h,
            };
            &&& Some(post.player.rect) == shifted.spec_move_inside(region)
            &&& post.player.sprite == pre.player.sprite
            &&& phi_post.events == phi_pre.events
            &&& phi_post.output_w == phi_pre.output_w
            &&& phi_post.output_h == phi_pre.output_h
            &&& phi_post.assets == phi_pre.assets
            &&& phi_post.player_destroyed == phi_pre.player_destroyed
            &&& phi_post.renderer.commands@ == phi_pre.renderer.commands@ + seq![
                DrawCommand::Clear { color: Color { r: 0, g: 0, b: 0 } },
                post.player.sprite.spec_render(post.player.rect),
            ]
            &&& phi_post.renderer.color == (Color { r: 200, g: 200, b: 50 })
            &&& r == ViewAction::Continue
        }
    }

    /// One tick: move, clamp, and draw the craft.
    pub fn render(&mut self, phi: &mut Phi, elapsed: i64) -> (r: ViewAction)
        requires
            old(self).wf(),
            old(phi).wf(),
            0 <= elapsed <= MAX_ELAPSED,
            46_000 <= old(phi).output_w <= SCREEN_LIMIT,
            32_000 <= old(phi).output_h <= SCREEN_LIMIT,
        ensures
            Self::spec_ship_tick_post(
                *old(self),
                *final(self),
                *old(phi),
                *final(phi),
                elapsed as int,
                r,
            ),
            final(self).wf(),
            final(phi).wf(),
    {
        if phi.events.now.quit || phi.events.now.key_escape {
            return ViewAction::Quit;
        }
        proof {
            lemma_div_by_multiple(180 * elapsed as int, 1000);
            assert(180_000 * elapsed as int == (180 * elapsed as int) * 1000) by (nonlinear_arith);
        }
        let traveled = div_units(PLAYER_SPEED * elapsed, 1000);
        let diagonal = (phi.events.key_up != phi.events.key_down) && (phi.events.key_left
            != phi.events.key_right);
        let moved = if diagonal {
            proof {
                assert(0 <= traveled * 7071 <= 900_000 * 7071) by (nonlinear_arith)
                    requires
                        0 <= traveled <= 900_000,
                ;
                lemma_div_is_ordered(traveled as int * 7071, 900_000int * 7071, 10000);
                lemma_div_pos_is_pos(traveled as int * 7071, 10000);
            }
            div_units(traveled * 7071, 10000)
        } else {
            traveled
        };
        let dx = if phi.events.key_left == phi.events.key_right {
            0
        } else if phi.events.key_left {
            -moved
        } else {
            moved
        };
        let dy = if phi.events.key_up == phi.events.key_down {
            0
        } else if phi.events.key_up {
            -moved
        } else {
            moved
        };
        self.player.rect = Rectangle {
            x: self.player.rect.x + dx,
            y: self.player.rect.y + dy,
            w: self.player.rect.w,
            h: self.player.rect.h,
        };
        phi.renderer.set_draw_color(Color { r: 0, g: 0, b: 0 });
        phi.renderer.clear();
        phi.renderer.set_draw_color(Color { r: 200, g: 200, b: 50 });
        proof {
            lemma_div_by_multiple(7 * phi.output_w as int, 10);
            assert((10 * SHIP_SIDE) as int / 10 == SHIP_SIDE as int) by {
                lemma_div_by_multiple(SHIP_SIDE as int, 10);
                assert(SHIP_SIDE as int * 10 == 10 * SHIP_SIDE) by (nonlinear_arith);
            }
            lemma_div_is_ordered(10 * SHIP_SIDE as int, phi.output_w as int * 7, 10);
            assert(phi.output_w as int * 7 == 7 * phi.output_w as int) by (nonlinear_arith);
            lemma_div_is_ordered(phi.output_w as int * 7, SCREEN_LIMIT * 7, 10);
        }
        let movable_w = div_units(phi.output_w * 7, 10);
        let movable_region = Rectangle { x: 0, y: 0, w: movable_w, h: phi.output_h };
        match self.player.rect.move_inside(movable_region) {
            Some(rect) => {
                self.player.rect = rect;
            },
            None => {
                proof {
                    assert(false);
                }
            },
        }
        let cmd = self.player.sprite.render(self.player.rect);
        phi.renderer.push_command(cmd);
        proof {
            assert(phi.renderer.commands@ =~= old(phi).renderer.commands@ + seq![
                DrawCommand::Clear { color: Color { r: 0, g: 0, b: 0 } },
                self.player.sprite.spec_render(self.player.rect),
            ]);
        }
        ViewAction::Continue
    }
}

} // verus!
