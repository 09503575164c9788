use arcade_rs::bullets::{Bullet, CannonType, BULLET_W, BULLET_H};
use arcade_rs::data::Rectangle;
use arcade_rs::game::{
    Asteroid, AsteroidFactory, Explosion, GameView, Player, PlayerFrame, ASTEROID_SIDE,
    EXPLOSION_DURATION,
};
use arcade_rs::gfx::{Renderer, Sprite};
use arcade_rs::phi::{Assets, Events, Phi};
use arcade_rs::shared::BgSet;

fn player_sheet() -> Sprite {
    Sprite::new(6, 129_000, 117_000)
}

fn asteroid_sheet() -> Sprite {
    Sprite::new(7, 2_016_000, 672_000)
}

fn explosion_sheet() -> Sprite {
    Sprite::new(8, 480_000, 384_000)
}

fn make_assets() -> Assets {
    let asteroid_factory = Asteroid::factory(&asteroid_sheet()).unwrap();
    let explosion_factory = Explosion::factory(&explosion_sheet()).unwrap();
    let player_sprites = Player::sprites_from_sheet(&player_sheet()).unwrap();
    Assets {
        player_sheet: player_sheet(),
        player_sprites,
        asteroid_template: asteroid_factory.sprite,
        explosion_template: explosion_factory.sprite,
        menu_idle: vec![Sprite::new(10, 200_000, 40_000), Sprite::new(11, 100_000, 40_000)],
        menu_hover: vec![Sprite::new(12, 220_000, 45_000), Sprite::new(13, 110_000, 45_000)],
        bg_back: Sprite::new(20, 800_000, 600_000),
        bg_middle: Sprite::new(21, 800_000, 600_000),
        bg_front: Sprite::new(22, 800_000, 600_000),
    }
}

fn make_phi(events: Events) -> Phi {
    Phi {
        events,
        output_w: 800_000,
        output_h: 600_000,
        renderer: Renderer::new(),
        assets: make_assets(),
        player_destroyed: false,
    }
}

fn make_game(phi: &Phi) -> GameView {
    let bg = BgSet::new(phi.assets.bg_back, phi.assets.bg_middle, phi.assets.bg_front);
    GameView::with_backgrounds(phi, bg)
}

fn asteroid_at(factory: &AsteroidFactory, x: i64, y: i64) -> Asteroid {
    let mut a = factory.spawn_from(800_000, 600_000, (0, 0, 0));
    a.rect.x = x;
    a.rect.y = y;
    a
}

const NO_SPAWN: (u64, u64, u64, u64) = (1, 0, 0, 0);

#[test]
fn player_new_centers_vertically() {
    let sprites = Player::sprites_from_sheet(&player_sheet()).unwrap();
    let p = Player::new(sprites, 600_000);
    assert_eq!(p.rect, Rectangle { x: 64_000, y: 280_500, w: 43_000, h: 39_000 });
    assert_eq!(p.current, PlayerFrame::MidNorm);
    assert_eq!(p.cannon, CannonType::RectBullet);
}

#[test]
fn player_sheet_slices_nine_cells() {
    let sprites = Player::sprites_from_sheet(&player_sheet()).unwrap();
    assert_eq!(sprites.len(), 9);
    assert_eq!(sprites[4].src, Rectangle { x: 43_000, y: 39_000, w: 43_000, h: 39_000 });
}

#[test]
fn player_moves_full_speed_on_one_axis() {
    let sprites = Player::sprites_from_sheet(&player_sheet()).unwrap();
    let mut p = Player::new(sprites, 600_000);
    let mut e = Events::none();
    e.key_right = true;
    p.update(&e, 800_000, 600_000, 1000);
    assert_eq!(p.rect.x, 244_000);
    assert_eq!(p.rect.y, 280_500);
    assert_eq!(p.current, PlayerFrame::MidFast);
}

#[test]
fn player_diagonal_speed_is_normalized() {
    let sprites = Player::sprites_from_sheet(&player_sheet()).unwrap();
    let mut p = Player::new(sprites, 600_000);
    let mut e = Events::none();
    e.key_right = true;
    e.key_down = true;
    p.update(&e, 800_000, 600_000, 1000);
    let dx = p.rect.x - 64_000;
    let dy = p.rect.y - 280_500;
    assert_eq!(dx, 127_278);
    assert_eq!(dy, 127_278);
    // the diagonal magnitude matches the axis travel up to rounding
    let t: i64 = 180_000;
    assert!(2 * dx * dx <= t * t);
    assert!(t * t - 2 * dx * dx <= t * t / 50000 + 3 * t);
    assert_eq!(p.current, PlayerFrame::DownFast);
}

#[test]
fn player_opposing_keys_cancel() {
    let sprites = Player::sprites_from_sheet(&player_sheet()).unwrap();
    let mut p = Player::new(sprites, 600_000);
    let mut e = Events::none();
    e.key_left = true;
    e.key_right = true;
    e.key_up = true;
    p.update(&e, 800_000, 600_000, 1000);
    assert_eq!(p.rect.x, 64_000);
    assert_eq!(p.rect.y, 280_500 - 180_000);
    assert_eq!(p.current, PlayerFrame::UpNorm);
}

#[test]
fn player_clamps_into_left_region() {
    let sprites = Player::sprites_from_sheet(&player_sheet()).unwrap();
    let mut p = Player::new(sprites, 600_000);
    let mut e = Events::none();
    e.key_right = true;
    p.update(&e, 800_000, 600_000, 5000);
    // the movable region is the left seventy percent: 560_000 wide
    assert_eq!(p.rect.x, 560_000 - 43_000);
}

#[test]
fn cannon_switch_affects_later_spawns_only() {
    let sprites = Player::sprites_from_sheet(&player_sheet()).unwrap();
    let mut p = Player::new(sprites, 600_000);
    let mut e = Events::none();
    e.now.key_2 = true;
    p.update(&e, 800_000, 600_000, 0);
    assert_eq!(p.cannon, CannonType::SineBullet { amplitude: 10_000, angular_vel: 15_000 });
    let spawned = p.spawn_bullets();
    assert!(matches!(spawned[0], Bullet::Sine { .. }));
    let mut e = Events::none();
    e.now.key_1 = true;
    p.update(&e, 800_000, 600_000, 0);
    assert_eq!(p.cannon, CannonType::RectBullet);
}

#[test]
fn asteroid_moves_left_strictly() {
    let factory = Asteroid::factory(&asteroid_sheet()).unwrap();
    let a = asteroid_at(&factory, 500_000, 100_000);
    let vel = a.vel;
    assert_eq!(vel, 50_000);
    let next = a.update(100).unwrap();
    assert_eq!(next.rect.x, 500_000 - 5_000);
    assert!(next.rect.x < 500_000);
    assert_eq!(next.sprite.current_time, 100);
}

#[test]
fn asteroid_removed_exactly_past_left_edge() {
    let factory = Asteroid::factory(&asteroid_sheet()).unwrap();
    // one step of 5_000 keeps it strictly above the threshold
    let near = asteroid_at(&factory, -90_999, 100_000);
    assert!(near.update(100).is_some());
    // and the first tick that reaches -ASTEROID_SIDE removes it
    let at_edge = asteroid_at(&factory, -91_000, 100_000);
    assert!(at_edge.update(100).is_none());
    let past = asteroid_at(&factory, -91_001, 100_000);
    assert!(past.update(100).is_none());
}

#[test]
fn asteroid_factory_slices_full_grid() {
    let factory = Asteroid::factory(&asteroid_sheet()).unwrap();
    assert_eq!(factory.sprite.sprites.len(), 143);
    assert_eq!(factory.sprite.frame_delay, 1000);
    // frame 22 sits at grid cell (1, 1)
    assert_eq!(
        factory.sprite.sprites[22].src,
        Rectangle { x: 96_000, y: 96_000, w: 96_000, h: 96_000 },
    );
}

#[test]
fn asteroid_factory_rejects_short_sheet() {
    assert!(Asteroid::factory(&Sprite::new(7, 2_016_000, 500_000)).is_none());
}

#[test]
fn asteroid_spawn_parameters_stay_in_range() {
    let factory = Asteroid::factory(&asteroid_sheet()).unwrap();
    let a = factory.spawn_from(800_000, 600_000, (5, 7, 11));
    assert_eq!(a.rect, Rectangle { x: 800_000, y: 7, w: ASTEROID_SIDE, h: ASTEROID_SIDE });
    assert_eq!(a.vel, 50_011);
    // fifteen frames per second
    assert_eq!(a.sprite.frame_delay, 66);
    assert_eq!(a.sprite.current_time, 0);
}

#[test]
fn explosion_lives_one_playthrough() {
    let factory = Explosion::factory(&explosion_sheet()).unwrap();
    assert_eq!(factory.sprite.sprites.len(), 17);
    assert_eq!(factory.sprite.frame_delay, 62);
    let e = factory.at_center((100_000, 200_000));
    assert_eq!(e.rect, Rectangle { x: 52_000, y: 152_000, w: 96_000, h: 96_000 });
    assert_eq!(e.alive_since, 0);
    let aged = e.update(1000).unwrap();
    assert_eq!(aged.alive_since, 1000);
    assert!(aged.update(EXPLOSION_DURATION - 1000).is_none());
}

#[test]
fn collision_kills_overlapping_pair() {
    let mut phi = make_phi(Events::none());
    let mut game = make_game(&phi);
    game.bullets.push(
        Bullet::Rect { rect: Rectangle { x: 400_000, y: 300_000, w: BULLET_W, h: BULLET_H } },
    );
    let factory = Asteroid::factory(&asteroid_sheet()).unwrap();
    game.asteroids.push(asteroid_at(&factory, 399_000, 299_000));
    game.render_with(&mut phi, 0, NO_SPAWN);
    assert_eq!(game.bullets.len(), 0);
    assert_eq!(game.asteroids.len(), 0);
    assert_eq!(game.explosions.len(), 1);
    // the explosion sits exactly on the destroyed obstacle's center
    assert_eq!(game.explosions[0].rect, Rectangle { x: 399_000, y: 299_000, w: 96_000, h: 96_000 });
    assert_eq!(game.explosions[0].alive_since, 0);
    assert!(!phi.player_destroyed);
}

#[test]
fn collision_spares_disjoint_pair() {
    let mut phi = make_phi(Events::none());
    let mut game = make_game(&phi);
    let bullet = Bullet::Rect { rect: Rectangle { x: 100_000, y: 10_000, w: BULLET_W, h: BULLET_H } };
    game.bullets.push(bullet);
    let factory = Asteroid::factory(&asteroid_sheet()).unwrap();
    game.asteroids.push(asteroid_at(&factory, 600_000, 100_000));
    game.render_with(&mut phi, 0, NO_SPAWN);
    assert_eq!(game.bullets.len(), 1);
    assert_eq!(game.bullets[0], bullet);
    assert_eq!(game.asteroids.len(), 1);
    assert_eq!(game.asteroids[0].rect, Rectangle { x: 600_000, y: 100_000, w: 96_000, h: 96_000 });
    assert_eq!(game.asteroids[0].vel, 50_000);
    assert_eq!(game.explosions.len(), 0);
}

#[test]
fn one_bullet_can_destroy_several_obstacles() {
    let mut phi = make_phi(Events::none());
    let mut game = make_game(&phi);
    // the bullet's box crosses the seam between two side-by-side obstacles
    game.bullets.push(
        Bullet::Rect { rect: Rectangle { x: 490_000, y: 300_000, w: BULLET_W, h: BULLET_H } },
    );
    let factory = Asteroid::factory(&asteroid_sheet()).unwrap();
    game.asteroids.push(asteroid_at(&factory, 400_000, 250_000));
    game.asteroids.push(asteroid_at(&factory, 496_000, 250_000));
    game.render_with(&mut phi, 0, NO_SPAWN);
    assert_eq!(game.bullets.len(), 0);
    assert_eq!(game.asteroids.len(), 0);
    assert_eq!(game.explosions.len(), 2);
}

#[test]
fn one_obstacle_consumes_every_overlapping_bullet() {
    let mut phi = make_phi(Events::none());
    let mut game = make_game(&phi);
    game.bullets.push(
        Bullet::Rect { rect: Rectangle { x: 400_000, y: 260_000, w: BULLET_W, h: BULLET_H } },
    );
    game.bullets.push(
        Bullet::Rect { rect: Rectangle { x: 400_000, y: 300_000, w: BULLET_W, h: BULLET_H } },
    );
    let factory = Asteroid::factory(&asteroid_sheet()).unwrap();
    game.asteroids.push(asteroid_at(&factory, 380_000, 240_000));
    game.render_with(&mut phi, 0, NO_SPAWN);
    assert_eq!(game.bullets.len(), 0);
    assert_eq!(game.asteroids.len(), 0);
    // destroyed exactly once: a single explosion
    assert_eq!(game.explosions.len(), 1);
}

#[test]
fn obstacle_hitting_craft_sets_the_hook() {
    let mut phi = make_phi(Events::none());
    let mut game = make_game(&phi);
    let factory = Asteroid::factory(&asteroid_sheet()).unwrap();
    // right on top of the freshly spawned craft
    game.asteroids.push(asteroid_at(&factory, 64_000, 280_500));
    game.render_with(&mut phi, 0, NO_SPAWN);
    assert!(phi.player_destroyed);
    assert_eq!(game.asteroids.len(), 0);
    assert_eq!(game.explosions.len(), 1);
}

#[test]
fn fire_appends_one_bullet_per_mount() {
    let mut events = Events::none();
    events.now.key_space = true;
    let mut phi = make_phi(events);
    let mut game = make_game(&phi);
    game.render_with(&mut phi, 0, NO_SPAWN);
    assert_eq!(game.bullets.len(), 2);
    assert_eq!(
        game.bullets[0],
        Bullet::Rect { rect: Rectangle { x: 94_000, y: 286_500, w: BULLET_W, h: BULLET_H } },
    );
    assert_eq!(
        game.bullets[1],
        Bullet::Rect { rect: Rectangle { x: 94_000, y: 309_500, w: BULLET_W, h: BULLET_H } },
    );
}

#[test]
fn spawn_draw_adds_asteroid_at_right_edge() {
    let mut phi = make_phi(Events::none());
    let mut game = make_game(&phi);
    game.render_with(&mut phi, 16, (0, 5, 7, 11));
    assert_eq!(game.asteroids.len(), 1);
    let a = &game.asteroids[0];
    assert_eq!(a.rect, Rectangle { x: 800_000, y: 7, w: ASTEROID_SIDE, h: ASTEROID_SIDE });
    assert_eq!(a.vel, 50_011);
}

#[test]
fn game_render_draws_from_the_process_generator() {
    let mut phi = make_phi(Events::none());
    let mut game = make_game(&phi);
    for _ in 0..20 {
        phi.renderer = Renderer::new();
        game.render(&mut phi, 16);
    }
    // whatever was drawn, the populations stay well-formed in size
    assert!(game.asteroids.len() <= 20);
    assert!(game.bullets.is_empty());
}
