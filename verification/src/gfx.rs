//! Sprites, sprite-sheet slicing, animation timing, and the draw-command
//! model through which every screen renders.
//!
//! A texture is carried as an opaque numeric handle; a `Sprite` is that
//! handle paired with a source rectangle inside the texture. Rendering
//! produces `DrawCommand` values; the unverified layer replays them against
//! the real render surface.

use vstd::prelude::*;
use crate::data::{Rectangle, COORD_LIMIT, div_units};
use vstd::arithmetic::div_mod::{
    lemma_fundamental_div_mod_converse, lemma_hoist_over_denominator, lemma_mod_multiples_vanish,
    lemma_div_is_ordered, lemma_div_pos_is_pos, lemma_small_mod, lemma_div_non_zero,
};
use vstd::arithmetic::mul::group_mul_is_commutative_and_distributive;

verus! {

/// Most frames an animation can hold.
pub const FRAME_LIMIT: i64 = 0x8000;

/// Longest frame delay, in milliseconds.
pub const DELAY_LIMIT: i64 = 0x3B9A_CA00;

/// Largest accumulated animation time, in milliseconds.
pub const TIME_LIMIT: i64 = 0x1000_0000_0000_0000;

/// A solid color, as red, green and blue channels.
#[derive(Clone, Copy, Debug, PartialEq, Eq, Structural)]
pub struct Color {
    pub r: u8,
    pub g: u8,
    pub b: u8,
}

/// One drawing step for the render surface to replay.
#[derive(Clone, Copy, Debug, PartialEq, Eq, Structural)]
pub enum DrawCommand {
    /// Fill the whole surface with the color.
    Clear { color: Color },
    /// Fill one rectangle with the color.
    FillRect { color: Color, rect: Rectangle },
    /// Copy the `src` region of the texture onto the `dest` region of the
    /// surface.
    Copy { texture: u64, src: Rectangle, dest: Rectangle },
}

/// A lightweight view into a region of a shared texture.
#[derive(Clone, Copy, Debug, PartialEq, Eq, Structural)]
pub struct Sprite {
    pub tex: u64,
    pub src: Rectangle,
}

impl Sprite {
    pub open spec fn valid(self) -> bool {
        self.src.valid()
    }

    /// The source rectangle a sub-region request denotes, translated into
    /// the texture's coordinate space.
    pub open spec fn spec_region_src(self, rect: Rectangle) -> Rectangle {
        Rectangle {
            x: (rect.x + self.src.x) as i64,
            y: (rect.y + self.src.y) as i64,
            w: rect.w,
            h: rect.h,
        }
    }

    pub open spec fn spec_region(self, rect: Rectangle) -> Option<Sprite> {
        if self.src.spec_contains(self.spec_region_src(rect)) {
            Some(Sprite { tex: self.tex, src: self.spec_region_src(rect) })
        } else {
            None
        }
    }

    pub open spec fn spec_render(self, dest: Rectangle) -> DrawCommand {
        DrawCommand::Copy { texture: self.tex, src: self.src, dest }
    }

    /// A sprite spanning a whole texture of the given size.
    pub fn new(tex: u64, w: i64, h: i64) -> (s: Sprite)
        requires
            0 <= w <= COORD_LIMIT,
            0 <= h <= COORD_LIMIT,
        ensures
            s == (Sprite { tex, src: Rectangle { x: 0, y: 0, w, h } }),
            s.valid(),
    {
        Sprite { tex, src: Rectangle { x: 0, y: 0, w, h } }
    }

    /// The size of the region the sprite shows.
    pub fn size(&self) -> (s: (i64, i64))
        ensures
            s.0 == self.src.w,
            s.1 == self.src.h,
    {
        (self.src.w, self.src.h)
    }

    /// A new `Sprite` showing a sub-region of this one. The given `rect` is
    /// relative to the currently held region; the call fails exactly when
    /// the requested region is not contained in the current one.
    pub fn region(&self, rect: Rectangle) -> (r: Option<Sprite>)
        requires
            self.valid(),
            rect.valid(),
            -COORD_LIMIT <= rect.x + self.src.x <= COORD_LIMIT,
            -COORD_LIMIT <= rect.y + self.src.y <= COORD_LIMIT,
        ensures
            r == self.spec_region(rect),
            r is Some <==> self.src.spec_contains(self.spec_region_src(rect)),
            r matches Some(s) ==> s.valid(),
    {
        let new_src = Rectangle { x: rect.x + self.src.x, y: rect.y + self.src.y, w: rect.w, h: rect.h };
        if self.src.contains(new_src) {
            Some(Sprite { tex: self.tex, src: new_src })
        } else {
            None
        }
    }

    /// The command that copies this sprite onto `dest`.
    pub fn render(&self, dest: Rectangle) -> (cmd: DrawCommand)
        ensures
            cmd == self.spec_render(dest),
    {
        DrawCommand::Copy { texture: self.tex, src: self.src, dest }
    }
}

/// The grid layout of a sprite sheet: `frames_wide x frames_high` cells of
/// `frame_w x frame_h` milliunits each, of which the first `total_frames`
/// in row-major order are kept.
#[derive(Clone, Copy, Debug, PartialEq, Eq, Structural)]
pub struct AnimatedSpriteDescr {
    pub total_frames: usize,
    pub frames_high: usize,
    pub frames_wide: usize,
    pub frame_w: i64,
    pub frame_h: i64,
}

impl AnimatedSpriteDescr {
    /// The cell at grid position `(xth, yth)`, relative to the sheet region.
    pub open spec fn spec_cell_rect(self, xth: int, yth: int) -> Rectangle {
        Rectangle {
            x: (self.frame_w * xth) as i64,
            y: (self.frame_h * yth) as i64,
            w: self.frame_w,
            h: self.frame_h,
        }
    }

    /// The cell of frame `i` in row-major order.
    pub open spec fn spec_frame_cell(self, i: int) -> Rectangle {
        self.spec_cell_rect(i % (self.frames_wide as int), i / (self.frames_wide as int))
    }

    /// The geometric bounds under which slicing arithmetic stays in range.
    pub open spec fn spec_fits_limits(self, sheet: Sprite) -> bool {
        &&& 1 <= self.frames_wide <= FRAME_LIMIT
        &&& self.frames_high <= FRAME_LIMIT
        &&& self.total_frames <= self.frames_wide * self.frames_high
        &&& self.total_frames <= FRAME_LIMIT
        &&& 0 <= self.frame_w <= COORD_LIMIT
        &&& 0 <= self.frame_h <= COORD_LIMIT
        &&& sheet.valid()
        &&& -COORD_LIMIT <= sheet.src.x
        &&& -COORD_LIMIT <= sheet.src.y
        &&& sheet.src.x + self.frame_w * (self.frames_wide as int) <= COORD_LIMIT
        &&& sheet.src.y + self.frame_h * (self.frames_high as int) <= COORD_LIMIT
        &&& self.frame_w * (self.frames_wide as int) <= COORD_LIMIT
        &&& self.frame_h * (self.frames_high as int) <= COORD_LIMIT
    }

    /// Every kept frame's cell lies within the sheet's region.
    pub open spec fn spec_all_cells_fit(self, sheet: Sprite) -> bool {
        forall|i: int|
            0 <= i < self.total_frames ==> sheet.src.spec_contains(
                #[trigger] sheet.spec_region_src(self.spec_frame_cell(i)),
            )
    }
}

/// An ordered, time-indexed sequence of sprites played back at a
/// configurable rate. Times are in milliseconds.
#[derive(Debug)]
pub struct AnimatedSprite {
    pub sprites: Vec<Sprite>,
    pub frame_delay: i64,
    pub current_time: i64,
}

impl AnimatedSprite {
    pub open spec fn wf(self) -> bool {
        &&& 1 <= self.sprites.len() <= FRAME_LIMIT
        &&& 1 <= self.frame_delay <= DELAY_LIMIT
        &&& 0 <= self.current_time <= TIME_LIMIT
    }

    /// The frame shown at the current time: the number of whole delays
    /// elapsed, wrapped around the frame count.
    pub open spec fn spec_frame_index(self) -> int {
        (self.current_time as int / self.frame_delay as int) % (self.sprites.len() as int)
    }

    pub fn new(sprites: Vec<Sprite>, frame_delay: i64) -> (r: AnimatedSprite)
        requires
            1 <= sprites.len() <= FRAME_LIMIT,
            1 <= frame_delay <= DELAY_LIMIT,
        ensures
            r.sprites == sprites,
            r.frame_delay == frame_delay,
            r.current_time == 0,
            r.wf(),
    {
        AnimatedSprite { sprites, frame_delay, current_time: 0 }
    }

    /// Builds an animation playing at `fps` frames per second. A rate of
    /// zero or less would be degenerate and is rejected at this point.
    pub fn with_fps(sprites: Vec<Sprite>, fps: i64) -> (r: AnimatedSprite)
        requires
            1 <= sprites.len() <= FRAME_LIMIT,
            1 <= fps <= 1000,
        ensures
            r.sprites == sprites,
            r.frame_delay == 1000int / fps as int,
            r.current_time == 0,
            r.wf(),
    {
        proof {
            lemma_div_non_zero(1000, fps as int);
        }
        let delay = div_units(1000, fps);
        AnimatedSprite::new(sprites, delay)
    }

    /// The number of frames in the sequence.
    pub fn frames(&self) -> (n: usize)
        ensures
            n == self.sprites.len(),
    {
        self.sprites.len()
    }

    pub fn set_frame_delay(&mut self, frame_delay: i64)
        requires
            1 <= frame_delay <= DELAY_LIMIT,
        ensures
            final(self).frame_delay == frame_delay,
            final(self).sprites == old(self).sprites,
            final(self).current_time == old(self).current_time,
    {
        self.frame_delay = frame_delay;
    }

    /// Sets the playback rate in frames per second. A rate of zero or less
    /// would be degenerate and is rejected at this point.
    pub fn set_fps(&mut self, fps: i64)
        requires
            1 <= fps <= 1000,
        ensures
            final(self).frame_delay == 1000int / fps as int,
            final(self).sprites == old(self).sprites,
            final(self).current_time == old(self).current_time,
    {
        proof {
            lemma_div_non_zero(1000, fps as int);
        }
        let delay = div_units(1000, fps);
        self.set_frame_delay(delay);
    }

    /// Advances the time cursor. A step that would take the cursor below
    /// zero instead lands it on the last frame's starting time: a defensive
    /// floor, not a loop back.
    pub fn add_time(&mut self, dt: i64)
        requires
            old(self).wf(),
            -TIME_LIMIT <= dt <= TIME_LIMIT,
            old(self).current_time + dt <= TIME_LIMIT,
        ensures
            old(self).current_time + dt >= 0 ==> final(self).current_time == old(self).current_time + dt,
            old(self).current_time + dt < 0 ==> final(self).current_time == (old(self).sprites.len() - 1)
                * old(self).frame_delay,
            final(self).sprites == old(self).sprites,
            final(self).frame_delay == old(self).frame_delay,
            final(self).wf(),
    {
        self.current_time = self.current_time + dt;
        if self.current_time < 0 {
            let frames_before_last = (self.sprites.len() - 1) as i64;
            proof {
                assert(frames_before_last * self.frame_delay <= (FRAME_LIMIT - 1) * DELAY_LIMIT
                    && 0 <= frames_before_last * self.frame_delay) by (nonlinear_arith)
                    requires
                        0 <= frames_before_last <= FRAME_LIMIT - 1,
                        1 <= self.frame_delay <= DELAY_LIMIT,
                ;
            }
            self.current_time = frames_before_last * self.frame_delay;
        }
    }

    /// The index of the frame shown at the current time.
    pub fn current_frame(&self) -> (idx: usize)
        requires
            self.wf(),
        ensures
            idx == self.spec_frame_index(),
            idx < self.sprites.len(),
    {
        let whole_delays = (self.current_time as u64) / (self.frame_delay as u64);
        (whole_delays % (self.sprites.len() as u64)) as usize
    }

    /// The command that copies the current frame onto `dest`.
    pub fn render(&self, dest: Rectangle) -> (cmd: DrawCommand)
        requires
            self.wf(),
        ensures
            cmd == self.sprites@[self.spec_frame_index()].spec_render(dest),
    {
        let current_frame = self.current_frame();
        let sprite = &self.sprites[current_frame];
        sprite.render(dest)
    }

    /// Slices a sheet into the grid the descriptor gives, keeping the first
    /// `total_frames` cells in row-major order. Fails exactly when some kept
    /// cell falls outside the sheet's region: a malformed atlas layout.
    pub fn load_frames(sheet: &Sprite, descr: AnimatedSpriteDescr) -> (r: Option<Vec<Sprite>>)
        requires
            descr.spec_fits_limits(*sheet),
        ensures
            r is Some <==> descr.spec_all_cells_fit(*sheet),
            r matches Some(v) ==> v@.len() == descr.total_frames && forall|i: int|
                0 <= i < descr.total_frames ==> #[trigger] v@[i] == (Sprite {
                    tex: sheet.tex,
                    src: sheet.spec_region_src(descr.spec_frame_cell(i)),
                }),
    {
        broadcast use group_mul_is_commutative_and_distributive;

        let mut frames: Vec<Sprite> = Vec::new();
        let wide = descr.frames_wide;
        let high = descr.frames_high;
        let total = descr.total_frames;
        let mut yth: usize = 0;
        while yth < high
            invariant
                descr.spec_fits_limits(*sheet),
                wide == descr.frames_wide,
                high == descr.frames_high,
                total == descr.total_frames,
                yth <= high,
                frames@.len() == if yth * wide < total {
                    (yth * wide) as int
                } else {
                    total as int
                },
                forall|i: int|
                    0 <= i < frames@.len() ==> #[trigger] frames@[i] == (Sprite {
                        tex: sheet.tex,
                        src: sheet.spec_region_src(descr.spec_frame_cell(i)),
                    }),
                forall|i: int|
                    0 <= i < frames@.len() ==> sheet.src.spec_contains(
                        #[trigger] sheet.spec_region_src(descr.spec_frame_cell(i)),
                    ),
            decreases high - yth,
        {
            proof {
                assert(yth * wide <= FRAME_LIMIT * FRAME_LIMIT && 0 <= yth * wide
                    && (yth + 1) * wide == yth * wide + wide && wide * yth == yth * wide)
                    by (nonlinear_arith)
                    requires
                        0 <= yth <= FRAME_LIMIT,
                        1 <= wide <= FRAME_LIMIT,
                ;
            }
            let mut xth: usize = 0;
            while xth < wide
                invariant_except_break
                    descr.spec_fits_limits(*sheet),
                    wide == descr.frames_wide,
                    high == descr.frames_high,
                    total == descr.total_frames,
                    yth < high,
                    xth <= wide,
                    0 <= yth * wide <= FRAME_LIMIT * FRAME_LIMIT,
                    (yth + 1) * wide == yth * wide + wide,
                    wide * yth == yth * wide,
                    frames@.len() == if yth * wide + xth < total {
                        yth * wide + xth
                    } else {
                        total as int
                    },
                    frames@.len() <= total,
                    forall|i: int|
                        0 <= i < frames@.len() ==> #[trigger] frames@[i] == (Sprite {
                            tex: sheet.tex,
                            src: sheet.spec_region_src(descr.spec_frame_cell(i)),
                        }),
                    forall|i: int|
                        0 <= i < frames@.len() ==> sheet.src.spec_contains(
                            #[trigger] sheet.spec_region_src(descr.spec_frame_cell(i)),
                        ),
                ensures
                    frames@.len() == if (yth + 1) * wide < total {
                        ((yth + 1) * wide) as int
                    } else {
                        total as int
                    },
                    forall|i: int|
                        0 <= i < frames@.len() ==> #[trigger] frames@[i] == (Sprite {
                            tex: sheet.tex,
                            src: sheet.spec_region_src(descr.spec_frame_cell(i)),
                        }),
                    forall|i: int|
                        0 <= i < frames@.len() ==> sheet.src.spec_contains(
                            #[trigger] sheet.spec_region_src(descr.spec_frame_cell(i)),
                        ),
                decreases wide - xth,
            {
                if wide * yth + xth >= total {
                    break;
                }
                let i = yth * wide + xth;
                proof {
                    lemma_fundamental_div_mod_converse(i as int, wide as int, yth as int, xth as int);
                    assert(descr.spec_frame_cell(i as int) == descr.spec_cell_rect(xth as int, yth as int));
                    assert(descr.frame_w * (xth as int) <= descr.frame_w * (wide as int)
                        && 0 <= descr.frame_w * (xth as int)) by (nonlinear_arith)
                        requires
                            0 <= descr.frame_w,
                            0 <= xth as int <= wide as int,
                    ;
                    assert(descr.frame_h * (yth as int) <= descr.frame_h * (high as int)
                        && 0 <= descr.frame_h * (yth as int)) by (nonlinear_arith)
                        requires
                            0 <= descr.frame_h,
                            0 <= yth as int <= high as int,
                    ;
                }
                let cell = Rectangle {
                    x: descr.frame_w * (xth as i64),
                    y: descr.frame_h * (yth as i64),
                    w: descr.frame_w,
                    h: descr.frame_h,
                };
                match sheet.region(cell) {
                    Some(s) => {
                        frames.push(s);
                    },
                    None => {
                        proof {
                            assert(!descr.spec_all_cells_fit(*sheet)) by {
                                assert(!sheet.src.spec_contains(
                                    sheet.spec_region_src(descr.spec_frame_cell(i as int)),
                                ));
                            }
                        }
                        return None;
                    },
                }
                xth = xth + 1;
            }
            yth = yth + 1;
        }
        proof {
            assert(frames@.len() == total as int) by {
                if yth * wide < total {
                    assert(high * wide >= total) by (nonlinear_arith)
                        requires
                            total <= wide * high,
                            0 <= wide,
                            0 <= high,
                    ;
                }
            }
            assert forall|i: int| 0 <= i < descr.total_frames implies sheet.src.spec_contains(
                #[trigger] sheet.spec_region_src(descr.spec_frame_cell(i)),
            ) by {
                assert(frames@[i] == (Sprite {
                    tex: sheet.tex,
                    src: sheet.spec_region_src(descr.spec_frame_cell(i)),
                }));
            }
        }
        Some(frames)
    }
}

/// A fresh vector showing the same sprite views.
pub fn clone_sprite_vec(v: &Vec<Sprite>) -> (r: Vec<Sprite>)
    ensures
        r@ == v@,
{
    let mut sprites: Vec<Sprite> = Vec::new();
    let mut i: usize = 0;
    while i < v.len()
        invariant
            i <= v.len(),
            sprites@.len() == i,
            forall|j: int| 0 <= j < i ==> sprites@[j] == v@[j],
        decreases v.len() - i,
    {
        sprites.push(v[i]);
        i = i + 1;
    }
    proof {
        assert(sprites@ =~= v@);
    }
    sprites
}

impl Clone for AnimatedSprite {
    /// Cloning duplicates the time cursor and delay and copies the frame
    /// view sequence; each clone animates independently.
    fn clone(&self) -> (r: Self)
        ensures
            r.sprites@ == self.sprites@,
            r.frame_delay == self.frame_delay,
            r.current_time == self.current_time,
    {
        let sprites = clone_sprite_vec(&self.sprites);
        AnimatedSprite { sprites, frame_delay: self.frame_delay, current_time: self.current_time }
    }
}

/// The animation frame index is periodic in the total cycle length: adding
/// any whole number of full cycles to the time cursor leaves the frame
/// index unchanged.
pub proof fn lemma_frame_index_periodic(delay: int, count: int, k: int, r: int)
    requires
        1 <= delay,
        1 <= count,
        0 <= k,
        0 <= r < delay * count,
    ensures
        ((k * delay * count + r) / delay) % count == (r / delay) % count,
        (r / delay) % count == r / delay,
{
    assert(k * delay * count + r == r + (k * count) * delay) by (nonlinear_arith);
    lemma_hoist_over_denominator(r, k * count, delay as nat);
    assert((r + (k * count) * delay) / delay == r / delay + k * count);
    lemma_mod_multiples_vanish(k, r / delay, count);
    assert((count * k + r / delay) % count == (r / delay) % count);
    assert(count * k + r / delay == r / delay + k * count) by (nonlinear_arith);
    assert(r / delay < count) by {
        lemma_div_is_ordered(r, delay * count - 1, delay);
        assert(delay * count - 1 == (count - 1) * delay + (delay - 1)) by (nonlinear_arith);
        lemma_fundamental_div_mod_converse(delay * count - 1, delay, count - 1, delay - 1);
    }
    lemma_div_pos_is_pos(r, delay);
    lemma_small_mod((r / delay) as nat, count as nat);
}

/// Re-deriving grid cell `(xth, yth)` of a sheet yields a source rectangle
/// whose origin sits at `(frame_w * xth, frame_h * yth)` within the sheet's
/// own region and whose area is exactly one cell.
pub proof fn lemma_grid_cell_roundtrip(sheet: Sprite, descr: AnimatedSpriteDescr, xth: int, yth: int)
    requires
        descr.spec_fits_limits(sheet),
        0 <= xth < descr.frames_wide,
        0 <= yth < descr.frames_high,
        yth * descr.frames_wide + xth < descr.total_frames,
    ensures
        ({
            let i = yth * descr.frames_wide + xth;
            let src = sheet.spec_region_src(descr.spec_frame_cell(i));
            &&& src.x == sheet.src.x + descr.frame_w * xth
            &&& src.y == sheet.src.y + descr.frame_h * yth
            &&& src.w * src.h == descr.frame_w * descr.frame_h
        }),
{
    let wide = descr.frames_wide as int;
    let i = yth * wide + xth;
    lemma_fundamental_div_mod_converse(i, wide, yth, xth);
    assert(descr.spec_frame_cell(i) == descr.spec_cell_rect(xth, yth));
    assert(descr.frame_w * xth <= descr.frame_w * wide) by (nonlinear_arith)
        requires
            0 <= descr.frame_w,
            xth <= wide,
    ;
    assert(0 <= descr.frame_w * xth) by (nonlinear_arith)
        requires
            0 <= descr.frame_w,
            0 <= xth,
    ;
    assert(descr.frame_h * yth <= descr.frame_h * (descr.frames_high as int)) by (nonlinear_arith)
        requires
            0 <= descr.frame_h,
            yth <= descr.frames_high as int,
    ;
    assert(0 <= descr.frame_h * yth) by (nonlinear_arith)
        requires
            0 <= descr.frame_h,
            0 <= yth,
    ;
}

/// A recorder for the draw calls of one frame: the verified counterpart of
/// the render surface, replayed by the unverified layer.
#[derive(Debug)]
pub struct Renderer {
    pub color: Color,
    pub commands: Vec<DrawCommand>,
}

impl Renderer {
    pub fn new() -> (r: Renderer)
        ensures
            r.commands@ =~= Seq::<DrawCommand>::empty(),
    {
        Renderer { color: Color { r: 0, g: 0, b: 0 }, commands: Vec::new() }
    }

    pub fn set_draw_color(&mut self, color: Color)
        ensures
            final(self).color == color,
            final(self).commands == old(self).commands,
    {
        self.color = color;
    }

    pub fn clear(&mut self)
        ensures
            final(self).commands@ == old(self).commands@.push(
                DrawCommand::Clear { color: old(self).color },
            ),
            final(self).color == old(self).color,
    {
        let cmd = DrawCommand::Clear { color: self.color };
        self.commands.push(cmd);
    }

    pub fn fill_rect(&mut self, rect: Rectangle)
        ensures
            final(self).commands@ == old(self).commands@.push(
                DrawCommand::FillRect { color: old(self).color, rect },
            ),
            final(self).color == old(self).color,
    {
        let cmd = DrawCommand::FillRect { color: self.color, rect };
        self.commands.push(cmd);
    }

    pub fn push_command(&mut self, cmd: DrawCommand)
        ensures
            final(self).commands@ == old(self).commands@.push(cmd),
            final(self).color == old(self).color,
    {
        self.commands.push(cmd);
    }
}

/// Anything that can copy a renderable thing onto a destination rectangle.
pub trait CopySprite<T> {
    /// What the receiver requires of the thing drawn.
    spec fn spec_copy_requires(sprite: &T) -> bool;

    /// The command the copy records.
    spec fn spec_copy_command(sprite: &T, dest: Rectangle) -> DrawCommand;

    /// The commands recorded so far.
    spec fn spec_commands(&self) -> Seq<DrawCommand>;

    /// The color state, carried unchanged through a copy.
    spec fn spec_color(&self) -> Color;

    fn copy_sprite(&mut self, sprite: &T, dest: Rectangle)
        requires
            Self::spec_copy_requires(sprite),
        ensures
            final(self).spec_commands() == old(self).spec_commands().push(
                Self::spec_copy_command(sprite, dest),
            ),
            final(self).spec_color() == old(self).spec_color(),
    ;
}

impl CopySprite<Sprite> for Renderer {
    open spec fn spec_copy_requires(sprite: &Sprite) -> bool {
        true
    }

    open spec fn spec_copy_command(sprite: &Sprite, dest: Rectangle) -> DrawCommand {
        sprite.spec_render(dest)
    }

    open spec fn spec_commands(&self) -> Seq<DrawCommand> {
        self.commands@
    }

    open spec fn spec_color(&self) -> Color {
        self.color
    }

    fn copy_sprite(&mut self, sprite: &Sprite, dest: Rectangle) {
        let cmd = sprite.render(dest);
        self.push_command(cmd);
    }
}

impl CopySprite<AnimatedSprite> for Renderer {
    open spec fn spec_copy_requires(sprite: &AnimatedSprite) -> bool {
        sprite.wf()
    }

    open spec fn spec_copy_command(sprite: &AnimatedSprite, dest: Rectangle) -> DrawCommand {
        sprite.sprites@[sprite.spec_frame_index()].spec_render(dest)
    }

    open spec fn spec_commands(&self) -> Seq<DrawCommand> {
        self.commands@
    }

    open spec fn spec_color(&self) -> Color {
        self.color
    }

    fn copy_sprite(&mut self, sprite: &AnimatedSprite, dest: Rectangle) {
        let cmd = sprite.render(dest);
        self.push_command(cmd);
    }
}

} // verus!
