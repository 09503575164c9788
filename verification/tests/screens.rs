use arcade_rs::bullets::{Bullet, BULLET_W, BULLET_H};
use arcade_rs::data::Rectangle;
use arcade_rs::game::{Asteroid, Explosion, GameView, Player};
use arcade_rs::gfx::{DrawCommand, Renderer, Sprite};
use arcade_rs::main_menu::{ActionKind, MainMenuView};
use arcade_rs::phi::{Assets, Events, Phi, Screen, ViewAction};
use arcade_rs::shared::BgSet;
use arcade_rs::views::ShipView;

fn make_assets() -> Assets {
    let asteroid_factory = Asteroid::factory(&Sprite::new(7, 2_016_000, 672_000)).unwrap();
    let explosion_factory = Explosion::factory(&Sprite::new(8, 480_000, 384_000)).unwrap();
    let player_sprites = Player::sprites_from_sheet(&Sprite::new(6, 129_000, 117_000)).unwrap();
    Assets {
        player_sheet: Sprite::new(6, 129_000, 117_000),
        player_sprites,
        asteroid_template: asteroid_factory.sprite,
        explosion_template: explosion_factory.sprite,
        menu_idle: vec![Sprite::new(10, 200_000, 40_000), Sprite::new(11, 100_000, 40_000)],
        menu_hover: vec![Sprite::new(12, 220_000, 45_000), Sprite::new(13, 110_000, 45_000)],
        bg_back: Sprite::new(20, 800_000, 600_000),
        bg_middle: Sprite::new(21, 800_000, 600_000),
        bg_front: Sprite::new(22, 800_000, 600_000),
    }
}

fn make_phi(events: Events) -> Phi {
    Phi {
        events,
        output_w: 800_000,
        output_h: 600_000,
        renderer: Renderer::new(),
        assets: make_assets(),
        player_destroyed: false,
    }
}

fn make_game(phi: &Phi) -> GameView {
    let bg = BgSet::new(phi.assets.bg_back, phi.assets.bg_middle, phi.assets.bg_front);
    GameView::with_backgrounds(phi, bg)
}

const NO_SPAWN: (u64, u64, u64, u64) = (1, 0, 0, 0);

#[test]
fn menu_confirm_starts_game_carrying_backdrop() {
    let mut events = Events::none();
    events.now.key_space = true;
    let mut phi = make_phi(events);
    let mut menu = MainMenuView::new(&phi);
    assert_eq!(menu.selected, 0);
    assert_eq!(menu.actions[0].kind, ActionKind::StartGame);
    let bg_before = menu.bg;
    match menu.render(&mut phi, 16) {
        ViewAction::ChangeView(screen) => match *screen {
            Screen::Game(game) => {
                assert_eq!(game.bg, bg_before);
                assert!(game.bullets.is_empty());
                assert!(game.asteroids.is_empty());
                assert!(game.explosions.is_empty());
            },
            _ => panic!("confirming the first entry must start the game"),
        },
        _ => panic!("confirming the first entry must replace the screen"),
    }
}

#[test]
fn game_escape_returns_menu_with_same_backdrop() {
    let mut phi = make_phi(Events::none());
    let mut game = make_game(&phi);
    // let the backdrop scroll a little first
    game.render_with(&mut phi, 16, NO_SPAWN);
    assert_ne!(game.bg.front.pos, 0);
    phi.events.now.key_escape = true;
    match game.render_with(&mut phi, 16, NO_SPAWN) {
        ViewAction::ChangeView(screen) => match *screen {
            Screen::Menu(menu) => {
                // the very same backdrop state object is carried over
                assert_eq!(menu.bg, game.bg);
                assert_eq!(menu.selected, 0);
            },
            _ => panic!("cancelling the game must return to the menu"),
        },
        _ => panic!("cancelling the game must replace the screen"),
    }
}

#[test]
fn menu_quit_entry_quits() {
    let mut events = Events::none();
    events.now.key_space = true;
    let mut phi = make_phi(events);
    let mut menu = MainMenuView::new(&phi);
    menu.selected = 1;
    assert_eq!(menu.actions[1].kind, ActionKind::Quit);
    assert!(matches!(menu.render(&mut phi, 16), ViewAction::Quit));
}

#[test]
fn menu_escape_quits() {
    let mut events = Events::none();
    events.now.key_escape = true;
    let mut phi = make_phi(events);
    let mut menu = MainMenuView::new(&phi);
    assert!(matches!(menu.render(&mut phi, 16), ViewAction::Quit));
}

#[test]
fn menu_navigation_wraps_around() {
    let mut events = Events::none();
    events.now.key_up = true;
    let mut phi = make_phi(events);
    let mut menu = MainMenuView::new(&phi);
    assert!(matches!(menu.render(&mut phi, 16), ViewAction::Continue));
    assert_eq!(menu.selected, 1);
    phi.events.now.key_up = false;
    phi.events.now.key_down = true;
    menu.render(&mut phi, 16);
    assert_eq!(menu.selected, 0);
}

#[test]
fn menu_frame_draws_box_and_labels() {
    let mut phi = make_phi(Events::none());
    let mut menu = MainMenuView::new(&phi);
    menu.render(&mut phi, 16);
    let cmds = &phi.renderer.commands;
    // clear, three tiled layers of two tiles each, two fills, two labels
    assert_eq!(cmds.len(), 11);
    assert!(matches!(cmds[0], DrawCommand::Clear { .. }));
    // the selected row shows its hover label, the other its idle label
    match cmds[9] {
        DrawCommand::Copy { texture, .. } => assert_eq!(texture, 12),
        _ => panic!("expected the first label copy"),
    }
    match cmds[10] {
        DrawCommand::Copy { texture, dest, .. } => {
            assert_eq!(texture, 11);
            // centered horizontally: (800_000 - 100_000) / 2
            assert_eq!(dest.x, 350_000);
        },
        _ => panic!("expected the second label copy"),
    }
}

#[test]
fn linear_projectile_end_to_end() {
    let mut phi = make_phi(Events::none());
    let mut game = make_game(&phi);
    game.bullets.push(
        Bullet::Rect { rect: Rectangle { x: 100_000, y: 300_000, w: BULLET_W, h: BULLET_H } },
    );
    // two seconds of travel at 240 units per second: 100 + 480 = 580
    game.render_with(&mut phi, 2000, NO_SPAWN);
    assert_eq!(game.bullets.len(), 1);
    match game.bullets[0] {
        Bullet::Rect { rect } => assert_eq!(rect.x, 580_000),
        _ => panic!("variant must not change"),
    }
    // the tick on which it crosses the width of 800 removes it
    game.render_with(&mut phi, 1000, NO_SPAWN);
    assert_eq!(game.bullets.len(), 0);
}

#[test]
fn ship_view_moves_and_quits() {
    let mut events = Events::none();
    events.key_right = true;
    let mut phi = make_phi(events);
    let mut ship = ShipView::new(&phi);
    assert_eq!(ship.player.rect, Rectangle { x: 64_000, y: 64_000, w: 32_000, h: 32_000 });
    assert!(matches!(ship.render(&mut phi, 1000), ViewAction::Continue));
    assert_eq!(ship.player.rect.x, 244_000);
    phi.events.now.key_escape = true;
    assert!(matches!(ship.render(&mut phi, 1000), ViewAction::Quit));
    assert_eq!(ship.player.rect.x, 244_000);
}

#[test]
fn screen_dispatch_reaches_both_variants() {
    let mut phi = make_phi(Events::none());
    let mut screen = Screen::Menu(MainMenuView::new(&phi));
    assert!(matches!(screen.render(&mut phi, 16), ViewAction::Continue));
    let game = make_game(&phi);
    let mut screen = Screen::Game(game);
    assert!(matches!(screen.render(&mut phi, 16), ViewAction::Continue));
}
