use arcade_rs::data::Rectangle;
use arcade_rs::gfx::{
    Sprite, AnimatedSprite, AnimatedSpriteDescr, DrawCommand, Renderer, CopySprite,
};
use arcade_rs::shared::{Background, BgSet, BG_BACK_VEL};

#[test]
fn sprite_new_spans_whole_texture() {
    let s = Sprite::new(3, 640_000, 480_000);
    assert_eq!(s.tex, 3);
    assert_eq!(s.src, Rectangle { x: 0, y: 0, w: 640_000, h: 480_000 });
    assert_eq!(s.size(), (640_000, 480_000));
}

#[test]
fn region_translates_into_parent_space() {
    let sheet = Sprite::new(1, 300_000, 300_000);
    let child = sheet
        .region(Rectangle { x: 100_000, y: 200_000, w: 50_000, h: 50_000 })
        .unwrap();
    let grand = child.region(Rectangle { x: 10_000, y: 20_000, w: 20_000, h: 20_000 }).unwrap();
    assert_eq!(grand.src, Rectangle { x: 110_000, y: 220_000, w: 20_000, h: 20_000 });
    assert_eq!(grand.tex, 1);
}

#[test]
fn region_rejects_request_outside_parent() {
    let sheet = Sprite::new(1, 300_000, 300_000);
    assert!(sheet.region(Rectangle { x: 280_000, y: 0, w: 50_000, h: 50_000 }).is_none());
}

#[test]
fn with_fps_sets_whole_millisecond_delay() {
    let frames = vec![Sprite::new(1, 10_000, 10_000), Sprite::new(1, 10_000, 10_000)];
    let a = AnimatedSprite::with_fps(frames, 16);
    assert_eq!(a.frame_delay, 62);
    assert_eq!(a.current_time, 0);
    assert_eq!(a.frames(), 2);
}

#[test]
fn set_fps_changes_only_the_delay() {
    let frames = vec![Sprite::new(1, 10_000, 10_000), Sprite::new(1, 10_000, 10_000)];
    let mut a = AnimatedSprite::with_fps(frames, 16);
    a.add_time(100);
    a.set_fps(10);
    assert_eq!(a.frame_delay, 100);
    assert_eq!(a.current_time, 100);
}

#[test]
fn add_time_accumulates_and_floors_negative() {
    let frames = vec![
        Sprite::new(1, 10_000, 10_000),
        Sprite::new(1, 10_000, 10_000),
        Sprite::new(1, 10_000, 10_000),
    ];
    let mut a = AnimatedSprite::new(frames, 100);
    a.add_time(250);
    assert_eq!(a.current_time, 250);
    a.add_time(-1000);
    assert_eq!(a.current_time, 200);
}

#[test]
fn frame_index_is_periodic() {
    let frames = vec![
        Sprite::new(1, 10_000, 10_000),
        Sprite::new(1, 10_000, 10_000),
        Sprite::new(1, 10_000, 10_000),
    ];
    let mut a = AnimatedSprite::new(frames, 100);
    a.current_time = 150;
    let base = a.current_frame();
    assert_eq!(base, 1);
    // two whole cycles of delay * frame_count later, the index repeats
    a.current_time = 150 + 2 * 100 * 3;
    assert_eq!(a.current_frame(), base);
}

#[test]
fn clone_animates_independently() {
    let frames = vec![Sprite::new(1, 10_000, 10_000), Sprite::new(1, 10_000, 10_000)];
    let a = AnimatedSprite::new(frames, 100);
    let mut b = a.clone();
    b.add_time(100);
    assert_eq!(a.current_time, 0);
    assert_eq!(b.current_time, 100);
    assert_eq!(a.sprites.len(), b.sprites.len());
}

#[test]
fn load_frames_slices_row_major_and_keeps_total() {
    let sheet = Sprite::new(5, 500_000, 200_000);
    let descr = AnimatedSpriteDescr {
        total_frames: 7,
        frames_high: 2,
        frames_wide: 5,
        frame_w: 100_000,
        frame_h: 100_000,
    };
    let frames = AnimatedSprite::load_frames(&sheet, descr).unwrap();
    assert_eq!(frames.len(), 7);
    // cell (x, y) of the grid has origin (frame_w * x, frame_h * y)
    for i in 0..7usize {
        let (x, y) = (i % 5, i / 5);
        let src = frames[i].src;
        assert_eq!(src.x, 100_000 * x as i64);
        assert_eq!(src.y, 100_000 * y as i64);
        assert_eq!(src.w * src.h, 100_000i64 * 100_000);
    }
}

#[test]
fn load_frames_fails_on_short_sheet() {
    let sheet = Sprite::new(5, 400_000, 100_000);
    let descr = AnimatedSpriteDescr {
        total_frames: 7,
        frames_high: 2,
        frames_wide: 5,
        frame_w: 100_000,
        frame_h: 100_000,
    };
    assert!(AnimatedSprite::load_frames(&sheet, descr).is_none());
}

#[test]
fn renderer_records_commands_in_order() {
    let mut r = Renderer::new();
    r.set_draw_color(arcade_rs::gfx::Color { r: 1, g: 2, b: 3 });
    r.clear();
    let sprite = Sprite::new(9, 10_000, 10_000);
    let dest = Rectangle { x: 0, y: 0, w: 10_000, h: 10_000 };
    r.copy_sprite(&sprite, dest);
    assert_eq!(r.commands.len(), 2);
    assert_eq!(
        r.commands[0],
        DrawCommand::Clear { color: arcade_rs::gfx::Color { r: 1, g: 2, b: 3 } },
    );
    assert_eq!(r.commands[1], DrawCommand::Copy { texture: 9, src: sprite.src, dest });
}

#[test]
fn background_scrolls_and_tiles() {
    let sprite = Sprite::new(2, 800_000, 600_000);
    let mut bg = Background { pos: 0, vel: BG_BACK_VEL, sprite };
    let mut r = Renderer::new();
    bg.render(&mut r, 1000, 800_000, 600_000);
    assert_eq!(bg.pos, 20_000);
    assert_eq!(r.commands.len(), 2);
    match r.commands[0] {
        DrawCommand::Copy { texture, dest, .. } => {
            assert_eq!(texture, 2);
            assert_eq!(dest.x, -20_000);
            assert_eq!(dest.h, 600_000);
        },
        _ => panic!("expected a copy command"),
    }
    match r.commands[1] {
        DrawCommand::Copy { dest, .. } => assert_eq!(dest.x, 780_000),
        _ => panic!("expected a copy command"),
    }
}

#[test]
fn background_wraps_at_sprite_width() {
    let sprite = Sprite::new(2, 100_000, 600_000);
    let mut bg = Background { pos: 90_000, vel: 20_000, sprite };
    let mut r = Renderer::new();
    bg.render(&mut r, 1000, 0, 0);
    assert_eq!(bg.pos, 10_000);
}

#[test]
fn bgset_new_sets_layer_speeds() {
    let s = Sprite::new(1, 800_000, 600_000);
    let bg = BgSet::new(s, s, s);
    assert!(bg.back.vel < bg.middle.vel && bg.middle.vel < bg.front.vel);
    assert_eq!(bg.back.pos, 0);
}
