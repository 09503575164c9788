//! The menu screen: a keyboard-navigated selection list whose entries are
//! transparent action kinds, rendered over the parallax backdrop.

use vstd::prelude::*;
use crate::data::{Rectangle, div_units, SCREEN_LIMIT, MAX_ELAPSED};
use crate::gfx::{Sprite, DrawCommand, Color};
use crate::phi::{Phi, Assets, ViewAction, Screen, MENU_LABEL_W_LIMIT, MENU_LABEL_H_LIMIT};
use crate::shared::{BgSet, Background};
use crate::game::GameView;

verus! {

/// Height of one menu row, in milliunits.
pub const MENU_LABEL_H: i64 = 50_000;

/// Width of the colored box holding the labels, in milliunits.
pub const MENU_BOX_W: i64 = 360_000;

/// Border around the colored box, in milliunits.
pub const MENU_BORDER: i64 = 3_000;

/// Vertical margin inside the colored box, in milliunits.
pub const MENU_MARGIN: i64 = 10_000;

/// What a menu entry does when confirmed.
#[derive(Clone, Copy, Debug, PartialEq, Eq, Structural)]
pub enum ActionKind {
    StartGame,
    Quit,
}

/// One menu entry: its action kind and its two rendered labels.
#[derive(Clone, Copy, Debug, PartialEq, Eq, Structural)]
pub struct Action {
    pub kind: ActionKind,
    pub idle_sprite: Sprite,
    pub hover_sprite: Sprite,
}

impl Action {
    pub open spec fn label_ok(self) -> bool {
        &&& self.idle_sprite.valid()
        &&& self.hover_sprite.valid()
        &&& 0 <= self.idle_sprite.src.w <= MENU_LABEL_W_LIMIT
        &&& 0 <= self.idle_sprite.src.h <= MENU_LABEL_H_LIMIT
        &&& 0 <= self.hover_sprite.src.w <= MENU_LABEL_W_LIMIT
        &&& 0 <= self.hover_sprite.src.h <= MENU_LABEL_H_LIMIT
    }

    /// A menu entry from its action kind and its two label sprites.
    pub fn new(kind: ActionKind, idle_sprite: Sprite, hover_sprite: Sprite) -> (a: Action)
        ensures
            a == (Action { kind, idle_sprite, hover_sprite }),
    {
        Action { kind, idle_sprite, hover_sprite }
    }
}

/// The menu screen: its entries, the selected row, and the backdrop it
/// keeps scrolling.
#[derive(Debug)]
pub struct MainMenuView {
    pub actions: Vec<Action>,
    pub selected: i8,
    pub bg: BgSet,
}

impl MainMenuView {
    pub open spec fn wf(self) -> bool {
        &&& self.actions@.len() == 2
        &&& 0 <= self.selected < 2
        &&& forall|i: int| 0 <= i < 2 ==> (#[trigger] self.actions@[i]).label_ok()
        &&& self.bg.wf()
    }

    /// The menu one gets from the given assets and backdrop: a new-game
    /// entry over a quit entry, with the first selected.
    pub open spec fn spec_built_from(self, assets: Assets, bg: BgSet) -> bool {
        &&& self.actions@.len() == 2
        &&& self.actions@[0] == (Action {
            kind: ActionKind::StartGame,
            idle_sprite: assets.menu_idle@[0],
            hover_sprite: assets.menu_hover@[0],
        })
        &&& self.actions@[1] == (Action {
            kind: ActionKind::Quit,
            idle_sprite: assets.menu_idle@[1],
            hover_sprite: assets.menu_hover@[1],
        })
        &&& self.selected == 0
        &&& self.bg == bg
    }

    /// Builds the menu around an existing backdrop, so the backdrop does
    /// not visibly reset on the way in.
    pub fn with_backgrounds(phi: &Phi, bg: BgSet) -> (r: MainMenuView)
        requires
            phi.wf(),
            bg.wf(),
        ensures
            r.spec_built_from(phi.assets, bg),
            r.wf(),
    {
        let mut actions: Vec<Action> = Vec::new();
        actions.push(
            Action::new(ActionKind::StartGame, phi.assets.menu_idle[0], phi.assets.menu_hover[0]),
        );
        actions.push(
            Action::new(ActionKind::Quit, phi.assets.menu_idle[1], phi.assets.menu_hover[1]),
        );
        MainMenuView { actions, selected: 0, bg }
    }

    /// Where the selection lands after this tick's arrow presses: up then
    /// down, each wrapping around the two entries.
    pub open spec fn spec_selected_after(self, up: bool, down: bool) -> int {
        let sel1 = if up {
            if self.selected as int - 1 < 0 {
                1int
            } else {
                self.selected as int - 1
            }
        } else {
            self.selected as int
        };
        if down {
            if sel1 + 1 >= 2 {
                0int
            } else {
                sel1 + 1
            }
        } else {
            sel1
        }
    }

    /// The command that draws label `idx`, hovered or idle, centered
    /// horizontally and stacked under the previous row.
    pub open spec fn spec_label_cmd(a: Action, hovered: bool, win_w: int, win_h: int, idx: int) -> DrawCommand {
        let s = if hovered {
            a.hover_sprite
        } else {
            a.idle_sprite
        };
        s.spec_render(
            Rectangle {
                x: ((win_w - s.src.w) / 2) as i64,
                y: ((win_h - 100_000 + 50_000 - s.src.h) / 2 + 50_000 * idx) as i64,
                w: s.src.w,
                h: s.src.h,
            },
        )
    }

    /// The two label commands of one frame.
    pub open spec fn spec_label_cmds(post: MainMenuView, win_w: int, win_h: int) -> Seq<DrawCommand> {
        Seq::new(
            post.actions@.len(),
            |k: int| Self::spec_label_cmd(post.actions@[k], post.selected as int == k, win_w, win_h, k),
        )
    }

    /// Every draw call of one menu frame, in order: clear, the three
    /// backdrop layers, the box border, the box, and the two labels.
    pub open spec fn spec_menu_frame_commands(post: MainMenuView, win_w: int, win_h: int) -> Seq<
        DrawCommand,
    > {
        seq![DrawCommand::Clear { color: Color { r: 0, g: 0, b: 0 } }]
            + Background::spec_tiles(post.bg.back.sprite, post.bg.back.pos as int, win_w, win_h)
            + Background::spec_tiles(post.bg.middle.sprite, post.bg.middle.pos as int, win_w, win_h)
            + Background::spec_tiles(post.bg.front.sprite, post.bg.front.pos as int, win_w, win_h)
            + seq![
                DrawCommand::FillRect {
                    color: Color { r: 70, g: 15, b: 70 },
                    rect: Rectangle {
                        x: ((win_w - MENU_BOX_W) / 2 - MENU_BORDER) as i64,
                        y: ((win_h - 100_000) / 2 - MENU_MARGIN - MENU_BORDER) as i64,
                        w: (MENU_BOX_W + 2 * MENU_BORDER) as i64,
                        h: (100_000 + 2 * MENU_BORDER + 2 * MENU_MARGIN) as i64,
                    },
                },
                DrawCommand::FillRect {
                    color: Color { r: 140, g: 30, b: 140 },
                    rect: Rectangle {
                        x: ((win_w - MENU_BOX_W) / 2) as i64,
                        y: ((win_h - 100_000) / 2 - MENU_MARGIN) as i64,
                        w: MENU_BOX_W,
                        h: (100_000 + 2 * MENU_MARGIN) as i64,
                    },
                },
            ]
            + Self::spec_label_cmds(post, win_w, win_h)
    }

    /// Everything one menu tick does. A quit or cancel input exits; a
    /// confirm input performs the selected entry's action; otherwise the
    /// arrows move the selection with wrap-around and the frame is drawn.
    pub open spec fn spec_menu_tick_post(
        pre: MainMenuView,
        post: MainMenuView,
        phi_pre: Phi,
        phi_post: Phi,
        dt: int,
        r: ViewAction,
    ) -> bool {
        if phi_pre.events.now.quit || phi_pre.events.now.key_escape {
            &&& post == pre
            &&& phi_post == phi_pre
            &&& r == ViewAction::Quit
        } else if phi_pre.events.now.key_space {
            &&& post == pre
            &&& phi_post == phi_pre
            &&& match pre.actions@[pre.selected as int].kind {
                ActionKind::StartGame => r matches ViewAction::ChangeView(s) && (*s) matches
                    Screen::Game(g) && g.spec_built_from(
                    phi_pre.assets,
                    pre.bg,
                    phi_pre.output_h as int,
                ) && g.wf(),
                ActionKind::Quit => r == ViewAction::Quit,
            }
        } else {
            let w = phi_pre.output_w as int;
            let h = phi_pre.output_h as int;
            &&& post.actions@ == pre.actions@
            &&& post.selected == pre.spec_selected_after(
                phi_pre.events.now.key_up,
                phi_pre.events.now.key_down,
            )
            &&& post.bg.back == (Background {
                pos: pre.bg.back.spec_advanced_pos(dt) as i64,
                vel: pre.bg.back.vel,
                sprite: pre.bg.back.sprite,
            })
            &&& post.bg.middle == (Background {
                pos: pre.bg.middle.spec_advanced_pos(dt) as i64,
                vel: pre.bg.middle.vel,
                sprite: pre.bg.middle.sprite,
            })
            &&& post.bg.front == (Background {
                pos: pre.bg.front.spec_advanced_pos(dt) as i64,
                vel: pre.bg.front.vel,
                sprite: pre.bg.front.sprite,
            })
            &&& phi_post.events == phi_pre.events
            &&& phi_post.output_w == phi_pre.output_w
            &&& phi_post.output_h == phi_pre.output_h
            &&& phi_post.assets == phi_pre.assets
            &&& phi_post.player_destroyed == phi_pre.player_destroyed
            &&& phi_post.renderer.commands@ == phi_pre.renderer.commands@
                + Self::spec_menu_frame_commands(post, w, h)
            &&& phi_post.renderer.color == (Color { r: 140, g: 30, b: 140 })
            &&& r == ViewAction::Continue
        }
    }

    /// One menu tick: quit on the cancel inputs, perform the selected
    /// entry on confirm, otherwise move the selection by the arrows and
    /// draw the menu over the scrolling backdrop.
    pub fn render(&mut self, phi: &mut Phi, elapsed: i64) -> (r: ViewAction)
        requires
            old(self).wf(),
            old(phi).wf(),
            0 <= elapsed <= MAX_ELAPSED,
            366_000 <= old(phi).output_w <= SCREEN_LIMIT,
            150_000 <= old(phi).output_h <= SCREEN_LIMIT,
        ensures
            Self::spec_menu_tick_post(
                *old(self),
                *final(self),
                *old(phi),
                *final(phi),
                elapsed as int,
                r,
            ),
            final(self).wf(),
            final(phi).wf(),
    {
        if phi.events.now.quit || phi.events.now.key_escape {
            return ViewAction::Quit;
        }
        if phi.events.now.key_space {
            let kind = self.actions[self.selected as usize].kind;
            match kind {
                ActionKind::StartGame => {
                    let game = GameView::with_backgrounds(phi, self.bg);
                    return ViewAction::ChangeView(Box::new(Screen::Game(game)));
                },
                ActionKind::Quit => {
                    return ViewAction::Quit;
                },
            }
        }
        if phi.events.now.key_up {
            self.selected = self.selected - 1;
            if self.selected < 0 {
                self.selected = self.actions.len() as i8 - 1;
            }
        }
        if phi.events.now.key_down {
            self.selected = self.selected + 1;
            if self.selected >= self.actions.len() as i8 {
                self.selected = 0;
            }
        }
        let (win_w, win_h) = phi.output_size();
        let ghost cp0 = phi.renderer.commands@;
        phi.renderer.set_draw_color(Color { r: 0, g: 0, b: 0 });
        phi.renderer.clear();
        self.bg.back.render(&mut phi.renderer, elapsed, win_w, win_h);
        self.bg.middle.render(&mut phi.renderer, elapsed, win_w, win_h);
        self.bg.front.render(&mut phi.renderer, elapsed, win_w, win_h);
        let box_h = (self.actions.len() as i64) * MENU_LABEL_H;
        let cx = div_units(win_w - MENU_BOX_W, 2);
        let cy = div_units(win_h - box_h, 2);
        phi.renderer.set_draw_color(Color { r: 70, g: 15, b: 70 });
        phi.renderer.fill_rect(
            Rectangle {
                x: cx - MENU_BORDER,
                y: cy - MENU_MARGIN - MENU_BORDER,
                w: MENU_BOX_W + 2 * MENU_BORDER,
                h: box_h + 2 * MENU_BORDER + 2 * MENU_MARGIN,
            },
        );
        phi.renderer.set_draw_color(Color { r: 140, g: 30, b: 140 });
        phi.renderer.fill_rect(
            Rectangle {
                x: cx,
                y: cy - MENU_MARGIN,
                w: MENU_BOX_W,
                h: box_h + 2 * MENU_MARGIN,
            },
        );
        let ghost cp_box = phi.renderer.commands@;
        let ghost phi_mid = *phi;
        let mut i: usize = 0;
        while i < self.actions.len()
            invariant
                i <= self.actions@.len(),
                self.actions@.len() == 2,
                0 <= self.selected < 2,
                forall|j: int| 0 <= j < 2 ==> (#[trigger] self.actions@[j]).label_ok(),
                366_000 <= win_w <= SCREEN_LIMIT,
                150_000 <= win_h <= SCREEN_LIMIT,
                box_h == 100_000,
                phi.renderer.commands@ == cp_box + Seq::new(
                    i as nat,
                    |k: int| Self::spec_label_cmd(
                        self.actions@[k],
                        self.selected as int == k,
                        win_w as int,
                        win_h as int,
                        k,
                    ),
                ),
                phi.renderer.color == (Color { r: 140, g: 30, b: 140 }),
                phi.events == phi_mid.events,
                phi.output_w == phi_mid.output_w,
                phi.output_h == phi_mid.output_h,
                phi.assets == phi_mid.assets,
                phi.player_destroyed == phi_mid.player_destroyed,
            decreases self.actions@.len() - i,
        {
            let action = &self.actions[i];
            let sprite = if self.selected as usize == i {
                action.hover_sprite
            } else {
                action.idle_sprite
            };
            let (w, h) = sprite.size();
            let lx = div_units(win_w - w, 2);
            let ly = div_units(win_h - box_h + MENU_LABEL_H - h, 2) + MENU_LABEL_H * (i as i64);
            let cmd = sprite.render(Rectangle { x: lx, y: ly, w, h });
            phi.renderer.push_command(cmd);
            proof {
                assert(phi.renderer.commands@ =~= cp_box + Seq::new(
                    (i + 1) as nat,
                    |k: int| Self::spec_label_cmd(
                        self.actions@[k],
                        self.selected as int == k,
                        win_w as int,
                        win_h as int,
                        k,
                    ),
                ));
            }
            i = i + 1;
        }
        proof {
            assert(Seq::new(
                2nat,
                |k: int| Self::spec_label_cmd(
                    self.actions@[k],
                    self.selected as int == k,
                    win_w as int,
                    win_h as int,
                    k,
                ),
            ) =~= Self::spec_label_cmds(*self, win_w as int, win_h as int));
            assert(phi.renderer.commands@ =~= cp0 + Self::spec_menu_frame_commands(
                *self,
                win_w as int,
                win_h as int,
            ));
        }
        ViewAction::Continue
    }

    /// Builds the menu with a fresh backdrop.
    pub fn new(phi: &Phi) -> (r: MainMenuView)
        requires
            phi.wf(),
        ensures
            r.spec_built_from(
                phi.assets,
                BgSet {
                    back: Background {
                        pos: 0,
                        vel: crate::shared::BG_BACK_VEL,
                        sprite: phi.assets.bg_back,
                    },
                    middle: Background {
                        pos: 0,
                        vel: crate::shared::BG_MIDDLE_VEL,
                        sprite: phi.assets.bg_middle,
                    },
                    front: Background {
                        pos: 0,
                        vel: crate::shared::BG_FRONT_VEL,
                        sprite: phi.assets.bg_front,
                    },
                },
            ),
            r.wf(),
    {
        let bg = BgSet::new(phi.assets.bg_back, phi.assets.bg_middle, phi.assets.bg_front);
        MainMenuView::with_backgrounds(phi, bg)
    }
}

} // verus!
