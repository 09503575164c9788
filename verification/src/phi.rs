//! The per-tick context the driver hands each screen: the input snapshot,
//! the output surface's size, the draw-command recorder, and the loaded
//! assets screens are built from.

use vstd::prelude::*;
use crate::data::MAX_ELAPSED;
use crate::gfx::{Sprite, AnimatedSprite, Renderer};
use crate::shared::{BG_BACK_VEL, BG_MIDDLE_VEL, BG_FRONT_VEL};

verus! {

/// Widest menu label the layout accepts, in milliunits.
pub const MENU_LABEL_W_LIMIT: i64 = 360_000;

/// Tallest menu label the layout accepts, in milliunits.
pub const MENU_LABEL_H_LIMIT: i64 = 50_000;

/// The keys pressed on this very tick: edge-sensitive signals.
#[derive(Clone, Copy, Debug, PartialEq, Eq, Structural)]
pub struct ImmediateEvents {
    pub quit: bool,
    pub key_escape: bool,
    pub key_up: bool,
    pub key_down: bool,
    pub key_left: bool,
    pub key_right: bool,
    pub key_space: bool,
    pub key_enter: bool,
    pub key_1: bool,
    pub key_2: bool,
    pub key_3: bool,
}

/// The input snapshot of one tick: `now` carries the edge-sensitive
/// pressed-this-tick signals, the other fields the level-sensitive
/// held states.
#[derive(Clone, Copy, Debug, PartialEq, Eq, Structural)]
pub struct Events {
    pub now: ImmediateEvents,
    pub key_escape: bool,
    pub key_up: bool,
    pub key_down: bool,
    pub key_left: bool,
    pub key_right: bool,
    pub key_space: bool,
    pub key_enter: bool,
    pub key_1: bool,
    pub key_2: bool,
    pub key_3: bool,
}

impl Events {
    /// A snapshot with nothing pressed and nothing held.
    pub fn none() -> (e: Events)
        ensures
            e == Events::spec_none(),
    {
        Events {
            now: ImmediateEvents {
                quit: false,
                key_escape: false,
                key_up: false,
                key_down: false,
                key_left: false,
                key_right: false,
                key_space: false,
                key_enter: false,
                key_1: false,
                key_2: false,
                key_3: false,
            },
            key_escape: false,
            key_up: false,
            key_down: false,
            key_left: false,
            key_right: false,
            key_space: false,
            key_enter: false,
            key_1: false,
            key_2: false,
            key_3: false,
        }
    }

    pub open spec fn spec_none() -> Events {
        Events {
            now: ImmediateEvents {
                quit: false,
                key_escape: false,
                key_up: false,
                key_down: false,
                key_left: false,
                key_right: false,
                key_space: false,
                key_enter: false,
                key_1: false,
                key_2: false,
                key_3: false,
            },
            key_escape: false,
            key_up: false,
            key_down: false,
            key_left: false,
            key_right: false,
            key_space: false,
            key_enter: false,
            key_1: false,
            key_2: false,
            key_3: false,
        }
    }
}

/// Everything the screens are built from, loaded once at startup: the
/// sliced player sprites, the two animation templates, and the rendered
/// menu labels. Failures while producing these are fatal at startup.
#[derive(Debug)]
pub struct Assets {
    pub player_sheet: Sprite,
    pub player_sprites: Vec<Sprite>,
    pub asteroid_template: AnimatedSprite,
    pub explosion_template: AnimatedSprite,
    pub menu_idle: Vec<Sprite>,
    pub menu_hover: Vec<Sprite>,
    pub bg_back: Sprite,
    pub bg_middle: Sprite,
    pub bg_front: Sprite,
}

impl Assets {
    pub open spec fn wf(self) -> bool {
        &&& self.player_sheet.valid()
        &&& self.bg_back.valid()
        &&& self.bg_middle.valid()
        &&& self.bg_front.valid()
        &&& 1000 * self.bg_back.src.w >= BG_BACK_VEL * MAX_ELAPSED
        &&& 1000 * self.bg_middle.src.w >= BG_MIDDLE_VEL * MAX_ELAPSED
        &&& 1000 * self.bg_front.src.w >= BG_FRONT_VEL * MAX_ELAPSED
        &&& self.player_sprites@.len() == 9
        &&& forall|i: int| 0 <= i < 9 ==> (#[trigger] self.player_sprites@[i]).valid()
        &&& self.asteroid_template.wf()
        &&& self.asteroid_template.current_time == 0
        &&& self.explosion_template.wf()
        &&& self.explosion_template.current_time == 0
        &&& self.menu_idle@.len() == 2
        &&& self.menu_hover@.len() == 2
        &&& forall|i: int|
            0 <= i < 2 ==> (#[trigger] self.menu_idle@[i]).valid()
                && 0 <= self.menu_idle@[i].src.w <= MENU_LABEL_W_LIMIT
                && 0 <= self.menu_idle@[i].src.h <= MENU_LABEL_H_LIMIT
        &&& forall|i: int|
            0 <= i < 2 ==> (#[trigger] self.menu_hover@[i]).valid()
                && 0 <= self.menu_hover@[i].src.w <= MENU_LABEL_W_LIMIT
                && 0 <= self.menu_hover@[i].src.h <= MENU_LABEL_H_LIMIT
    }
}

/// The context of one tick, handed to the active screen's `render`.
#[derive(Debug)]
pub struct Phi {
    pub events: Events,
    pub output_w: i64,
    pub output_h: i64,
    pub renderer: Renderer,
    pub assets: Assets,
    /// The player-destroyed hook: set by the gameplay screen on the tick
    /// an obstacle hits the craft, for the outer layer to observe.
    pub player_destroyed: bool,
}

impl Phi {
    pub open spec fn wf(self) -> bool {
        self.assets.wf()
    }

    /// The output surface's current size, in milliunits.
    pub fn output_size(&self) -> (r: (i64, i64))
        ensures
            r.0 == self.output_w,
            r.1 == self.output_h,
    {
        (self.output_w, self.output_h)
    }
}

/// The active screen: one mode of the application. Exactly one is active
/// at a time; the driver holds it and calls `render` once per tick.
#[derive(Debug)]
pub enum Screen {
    Menu(crate::main_menu::MainMenuView),
    Game(crate::game::GameView),
}

/// The directive a screen returns each tick: present the frame as it is,
/// exit the application, or make the carried screen active next tick.
#[derive(Debug)]
pub enum ViewAction {
    Continue,
    Quit,
    ChangeView(Box<Screen>),
}

impl Screen {
    pub open spec fn wf(self) -> bool {
        match self {
            Screen::Menu(m) => m.wf(),
            Screen::Game(g) => g.wf(),
        }
    }

    /// One driver tick: the active screen takes care of both the logic
    /// and the drawing of the frame, and returns the transition directive.
    /// The screen kind never changes here; only the returned directive can
    /// carry a replacement.
    pub fn render(&mut self, phi: &mut Phi, elapsed: i64) -> (r: ViewAction)
        requires
            old(self).wf(),
            old(phi).wf(),
            0 <= elapsed <= crate::data::MAX_ELAPSED,
            366_000 <= old(phi).output_w <= crate::data::SCREEN_LIMIT,
            150_000 <= old(phi).output_h <= crate::data::SCREEN_LIMIT,
        ensures
            final(self).wf(),
            final(phi).wf(),
            *old(self) matches Screen::Menu(m0) ==> *final(self) matches Screen::Menu(m1)
                && crate::main_menu::MainMenuView::spec_menu_tick_post(
                m0,
                m1,
                *old(phi),
                *final(phi),
                elapsed as int,
                r,
            ),
            *old(self) matches Screen::Game(g0) ==> *final(self) matches Screen::Game(g1)
                && exists|draws: (u64, u64, u64, u64)|
                crate::game::spec_game_tick_post(
                    g0,
                    g1,
                    *old(phi),
                    *final(phi),
                    elapsed as int,
                    draws,
                    r,
                ),
            r matches ViewAction::ChangeView(s) ==> (*s).wf(),
    {
        match self {
            Screen::Menu(m) => m.render(phi, elapsed),
            Screen::Game(g) => g.render(phi, elapsed),
        }
    }
}

} // verus!
