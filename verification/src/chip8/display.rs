//! The CHIP-8 screen: a monochrome staging buffer that sprites are XORed
//! into, committed to the visible framebuffer once per frame.
use vstd::prelude::*;

verus! {

/// Columns of the low resolution screen.
pub const LORES_WIDTH: usize = 64;
/// Rows of the low resolution screen.
pub const LORES_HEIGHT: usize = 32;
/// Columns of the SUPER-CHIP high resolution screen.
pub const HIRES_WIDTH: usize = 128;
/// Rows of the SUPER-CHIP high resolution screen.
pub const HIRES_HEIGHT: usize = 64;

/// Columns of the screen at the given resolution.
pub open spec fn screen_width(hires: bool) -> int {
    if hires {
        HIRES_WIDTH as int
    } else {
        LORES_WIDTH as int
    }
}

/// Rows of the screen at the given resolution.
pub open spec fn screen_height(hires: bool) -> int {
    if hires {
        HIRES_HEIGHT as int
    } else {
        LORES_HEIGHT as int
    }
}

/// Bit `i` of `byte`, counting from the most significant one.
pub open spec fn bit_of(byte: u8, i: u8) -> bool {
    (byte >> ((7 - i) as u8)) & 1u8 == 1u8
}

/// Whether the sprite lights the pixel at row `r`, column `c` of its own
/// box. A plain sprite is 8 pixels wide, one byte per row; a wide one is
/// 16 by 16, two bytes per row.
pub open spec fn sprite_lit(sprite: Seq<u8>, wide: bool, r: int, c: int) -> bool {
    if wide {
        0 <= r < 16 && 0 <= c < 16 && bit_of(sprite[2 * r + c / 8], (c % 8) as u8)
    } else {
        0 <= r < sprite.len() && 0 <= c < 8 && bit_of(sprite[r], c as u8)
    }
}

/// A row of the screen after the sprite's row `r` is XORed into it at column `px`.
pub open spec fn drawn_row(row: Seq<bool>, px: int, r: int, sprite: Seq<u8>, wide: bool) -> Seq<
    bool,
> {
    Seq::new(row.len(), |x: int| row[x] != sprite_lit(sprite, wide, r, x - px))
}

/// Whether the sprite's row `r` lands on a lit pixel of the screen row.
pub open spec fn row_collides(row: Seq<bool>, px: int, r: int, sprite: Seq<u8>, wide: bool) -> bool {
    exists|x: int| 0 <= x < row.len() && sprite_lit(sprite, wide, r, x - px) && #[trigger] row[x]
}

/// The screen after the sprite is XORed into it with its top left corner at
/// (`px`, `py`); what falls off the right or bottom edge is dropped.
pub open spec fn sprite_drawn(pixels: Seq<Seq<bool>>, px: int, py: int, sprite: Seq<u8>, wide: bool) -> Seq<
    Seq<bool>,
> {
    Seq::new(pixels.len(), |y: int| drawn_row(pixels[y], px, y - py, sprite, wide))
}

/// Whether drawing the sprite turns any lit pixel off.
pub open spec fn sprite_collides(
    pixels: Seq<Seq<bool>>,
    px: int,
    py: int,
    sprite: Seq<u8>,
    wide: bool,
) -> bool {
    exists|y: int| 0 <= y < pixels.len() && #[trigger] row_collides(pixels[y], px, y - py, sprite, wide)
}

/// A screen of `height` rows of `width` dark pixels.
pub open spec fn blank_screen(width: int, height: int) -> Seq<Seq<bool>> {
    Seq::new(height as nat, |y: int| Seq::new(width as nat, |x: int| false))
}

/// The screen resized to `width` by `height`: what fits in both keeps its
/// place, new pixels are dark.
pub open spec fn resized(pixels: Seq<Seq<bool>>, width: int, height: int) -> Seq<Seq<bool>> {
    Seq::new(
        height as nat,
        |y: int|
            Seq::new(
                width as nat,
                |x: int|
                    if y < pixels.len() && x < pixels[y].len() {
                        pixels[y][x]
                    } else {
                        false
                    },
            ),
    )
}

/// How the screen is set up.
#[derive(Debug, Clone, Copy)]
pub struct Chip8DisplayConfig {
    pub clear_on_resolution_change: bool,
}

impl Default for Chip8DisplayConfig {
    fn default() -> (r: Self)
        ensures
            !r.clear_on_resolution_change,
    {
        Chip8DisplayConfig { clear_on_resolution_change: false }
    }
}

/// The screen. Pixels are `true` where lit, indexed by row and then column.
#[derive(Debug)]
pub struct Chip8Display {
    staging: Vec<Vec<bool>>,
    framebuffer: Vec<Vec<bool>>,
    vsync_occurred: bool,
    hires: bool,
    config: Chip8DisplayConfig,
}

/// Contents of a buffer of rows.
pub open spec fn rows_view(rows: Seq<Vec<bool>>) -> Seq<Seq<bool>> {
    Seq::new(rows.len(), |y: int| rows[y]@)
}

/// Whether `pixels` has `height` rows of `width` pixels.
pub open spec fn has_shape(pixels: Seq<Seq<bool>>, width: int, height: int) -> bool {
    &&& pixels.len() == height
    &&& forall|y: int| 0 <= y < height ==> #[trigger] pixels[y].len() == width
}

impl Chip8Display {
    /// The buffer sprites are drawn into.
    pub closed spec fn staging_view(&self) -> Seq<Seq<bool>> {
        rows_view(self.staging@)
    }

    /// The buffer last shown.
    pub closed spec fn framebuffer_view(&self) -> Seq<Seq<bool>> {
        rows_view(self.framebuffer@)
    }

    pub closed spec fn is_hires(&self) -> bool {
        self.hires
    }

    pub closed spec fn config_view(&self) -> Chip8DisplayConfig {
        self.config
    }

    /// Set once a frame has been shown; the processor waits for it after drawing.
    pub closed spec fn vsync_flag(&self) -> bool {
        self.vsync_occurred
    }

    /// Columns of the current resolution.
    pub open spec fn width(&self) -> int {
        screen_width(self.is_hires())
    }

    /// Rows of the current resolution.
    pub open spec fn height(&self) -> int {
        screen_height(self.is_hires())
    }

    /// Both buffers have the shape of the current resolution.
    pub open spec fn wf(&self) -> bool {
        &&& has_shape(self.staging_view(), self.width(), self.height())
        &&& has_shape(self.framebuffer_view(), self.width(), self.height())
    }

    /// Everything but the staging buffer and the vsync flag is as in `other`.
    pub open spec fn same_frame(&self, other: &Chip8Display) -> bool {
        &&& other.framebuffer_view() == self.framebuffer_view()
        &&& other.is_hires() == self.is_hires()
        &&& other.config_view() == self.config_view()
    }

    fn blank_rows(width: usize, height: usize) -> (r: Vec<Vec<bool>>)
        ensures
            rows_view(r@) == blank_screen(width as int, height as int),
    {
        let mut rows: Vec<Vec<bool>> = Vec::new();
        let mut y: usize = 0;
        while y < height
            invariant
                y <= height,
                rows@.len() == y,
                forall|j: int| 0 <= j < y ==> #[trigger] rows@[j]@ == Seq::new(width as nat, |x: int| false),
            decreases height - y,
        {
            let mut row: Vec<bool> = Vec::new();
            let mut x: usize = 0;
            while x < width
                invariant
                    x <= width,
                    row@.len() == x,
                    forall|i: int| 0 <= i < x ==> !#[trigger] row@[i],
                decreases width - x,
            {
                row.push(false);
                x = x + 1;
            }
            assert(row@ =~= Seq::new(width as nat, |x: int| false));
            rows.push(row);
            y = y + 1;
        }
        assert(rows_view(rows@) =~= blank_screen(width as int, height as int));
        rows
    }

    fn copy_rows(rows: &Vec<Vec<bool>>) -> (r: Vec<Vec<bool>>)
        ensures
            rows_view(r@) == rows_view(rows@),
    {
        let mut out: Vec<Vec<bool>> = Vec::new();
        let mut y: usize = 0;
        while y < rows.len()
            invariant
                y <= rows@.len(),
                out@.len() == y,
                forall|j: int| 0 <= j < y ==> #[trigger] out@[j]@ == rows@[j]@,
            decreases rows@.len() - y,
        {
            let mut row: Vec<bool> = Vec::new();
            let mut x: usize = 0;
            while x < rows[y].len()
                invariant
                    y < rows@.len(),
                    x <= rows@[y as int]@.len(),
                    row@.len() == x,
                    forall|i: int| 0 <= i < x ==> #[trigger] row@[i] == rows@[y as int]@[i],
                decreases rows@[y as int]@.len() - x,
            {
                row.push(rows[y][x]);
                x = x + 1;
            }
            assert(row@ =~= rows@[y as int]@);
            out.push(row);
            y = y + 1;
        }
        assert(rows_view(out@) =~= rows_view(rows@));
        out
    }

    /// Columns of the current resolution.
    pub fn screen_width(&self) -> (r: usize)
        ensures
            r == self.width(),
    {
        if self.hires {
            HIRES_WIDTH
        } else {
            LORES_WIDTH
        }
    }

    /// Rows of the current resolution.
    pub fn screen_height(&self) -> (r: usize)
        ensures
            r == self.height(),
    {
        if self.hires {
            HIRES_HEIGHT
        } else {
            LORES_HEIGHT
        }
    }

    /// Whether switching resolution clears the screen.
    pub fn clears_on_resolution_change(&self) -> (r: bool)
        ensures
            r == self.config_view().clear_on_resolution_change,
    {
        self.config.clear_on_resolution_change
    }

    /// Whether a frame has been shown since the last draw.
    pub fn vsync_occurred(&self) -> (r: bool)
        ensures
            r == self.vsync_flag(),
    {
        self.vsync_occurred
    }

    /// Whether the screen is in high resolution.
    pub fn hires(&self) -> (r: bool)
        ensures
            r == self.is_hires(),
    {
        self.hires
    }

    /// Whether the pixel at column `x`, row `y` of the shown frame is lit.
    pub fn pixel(&self, x: usize, y: usize) -> (r: bool)
        requires
            self.wf(),
            x < self.width(),
            y < self.height(),
        ensures
            r == self.framebuffer_view()[y as int][x as int],
    {
        assert(rows_view(self.framebuffer@)[y as int] == self.framebuffer@[y as int]@);
        self.framebuffer[y][x]
    }

    /// Whether the pixel at column `x`, row `y` of the frame being drawn is lit.
    pub fn staged_pixel(&self, x: usize, y: usize) -> (r: bool)
        requires
            self.wf(),
            x < self.width(),
            y < self.height(),
        ensures
            r == self.staging_view()[y as int][x as int],
    {
        assert(rows_view(self.staging@)[y as int] == self.staging@[y as int]@);
        self.staging[y][x]
    }

    fn bit(byte: u8, i: u8) -> (r: bool)
        requires
            i < 8,
        ensures
            r == bit_of(byte, i),
    {
        (byte >> (7 - i)) & 1 == 1
    }

    fn lit(sprite: &[u8], wide: bool, r: usize, c: usize) -> (b: bool)
        requires
            wide ==> sprite@.len() == 32,
        ensures
            b == sprite_lit(sprite@, wide, r as int, c as int),
    {
        if wide {
            if r < 16 && c < 16 {
                Self::bit(sprite[2 * r + c / 8], (c % 8) as u8)
            } else {
                false
            }
        } else {
            if r < sprite.len() && c < 8 {
                Self::bit(sprite[r], c as u8)
            } else {
                false
            }
        }
    }

    /// XORs row `y - py` of the sprite into screen row `y`.
    fn draw_row(&mut self, px: usize, py: usize, y: usize, sprite: &[u8], wide: bool) -> (hit: bool)
        requires
            old(self).wf(),
            py <= y < old(self).height(),
            wide ==> sprite@.len() == 32,
        ensures
            final(self).wf(),
            old(self).same_frame(final(self)),
            final(self).vsync_flag() == old(self).vsync_flag(),
            final(self).staging_view() == old(self).staging_view().update(
                y as int,
                drawn_row(old(self).staging_view()[y as int], px as int, y - py, sprite@, wide),
            ),
            hit == row_collides(old(self).staging_view()[y as int], px as int, y - py, sprite@, wide),
    {
        let ghost old_row = old(self).staging_view()[y as int];
        let ghost target = drawn_row(old_row, px as int, y - py, sprite@, wide);
        let width = self.screen_width();
        let r = y - py;
        let mut line: Vec<bool> = Vec::new();
        let mut hit = false;
        let mut x: usize = 0;
        while x < width
            invariant
                self.wf(),
                py <= y < self.height(),
                r == y - py,
                width == self.width(),
                old_row == self.staging_view()[y as int],
                old_row.len() == width,
                target == drawn_row(old_row, px as int, r as int, sprite@, wide),
                wide ==> sprite@.len() == 32,
                x <= width,
                line@.len() == x,
                forall|i: int| 0 <= i < x ==> #[trigger] line@[i] == target[i],
                hit == exists|i: int|
                    0 <= i < x && sprite_lit(sprite@, wide, r as int, i - px) && #[trigger] old_row[i],
            decreases width - x,
        {
            let old_pixel = self.staging[y][x];
            let lit = if x >= px {
                Self::lit(sprite, wide, r, x - px)
            } else {
                false
            };
            assert(lit == sprite_lit(sprite@, wide, r as int, x - px));
            if lit && old_pixel {
                hit = true;
            }
            line.push(old_pixel != lit);
            x = x + 1;
        }
        assert(line@ =~= target);
        proof {
            if hit {
                let i = choose|i: int|
                    0 <= i < width && sprite_lit(sprite@, wide, r as int, i - px) && #[trigger] old_row[i];
                assert(old_row[i]);
            }
            if row_collides(old_row, px as int, r as int, sprite@, wide) {
                let i = choose|i: int|
                    0 <= i < old_row.len() && sprite_lit(sprite@, wide, r as int, i - px) && #[trigger] old_row[i];
                assert(old_row[i]);
            }
        }
        self.staging.set(y, line);
        assert(self.staging_view() =~= old(self).staging_view().update(y as int, target));
        hit
    }

    /// XORs a sprite into the staging buffer with its corner at (`x`, `y`)
    /// taken modulo the screen size, and tells whether a lit pixel went dark.
    fn draw(&mut self, x: u8, y: u8, sprite: &[u8], wide: bool) -> (hit: bool)
        requires
            old(self).wf(),
            wide ==> sprite@.len() == 32,
        ensures
            final(self).wf(),
            old(self).same_frame(final(self)),
            !final(self).vsync_flag(),
            final(self).staging_view() == sprite_drawn(
                old(self).staging_view(),
                x as int % old(self).width(),
                y as int % old(self).height(),
                sprite@,
                wide,
            ),
            hit == sprite_collides(
                old(self).staging_view(),
                x as int % old(self).width(),
                y as int % old(self).height(),
                sprite@,
                wide,
            ),
    {
        let width = self.screen_width();
        let height = self.screen_height();
        self.vsync_occurred = false;
        let px = (x as usize) % width;
        let py = (y as usize) % height;
        let rows = if wide {
            16
        } else {
            sprite.len()
        };
        let ghost pixels = old(self).staging_view();
        let ghost target = sprite_drawn(pixels, px as int, py as int, sprite@, wide);
        let mut hit = false;
        let mut row = py;
        while row < height && row - py < rows
            invariant
                self.wf(),
                old(self).same_frame(self),
                !self.vsync_flag(),
                width == self.width(),
                height == self.height(),
                pixels.len() == height,
                py < height,
                py <= row <= height,
                wide ==> sprite@.len() == 32,
                rows == if wide {
                    16
                } else {
                    sprite@.len()
                },
                target == sprite_drawn(pixels, px as int, py as int, sprite@, wide),
                forall|j: int|
                    0 <= j < height ==> #[trigger] self.staging_view()[j] == if py <= j < row {
                        target[j]
                    } else {
                        pixels[j]
                    },
                hit == exists|j: int|
                    py <= j < row && #[trigger] row_collides(pixels[j], px as int, j - py, sprite@, wide),
            decreases height - row,
        {
            let row_hit = self.draw_row(px, py, row, sprite, wide);
            if row_hit {
                hit = true;
            }
            proof {
                if hit {
                    if row_hit {
                        assert(row_collides(pixels[row as int], px as int, row - py, sprite@, wide));
                    } else {
                        let j = choose|j: int|
                            py <= j < row && #[trigger] row_collides(pixels[j], px as int, j - py, sprite@, wide);
                        assert(row_collides(pixels[j], px as int, j - py, sprite@, wide));
                    }
                }
            }
            row = row + 1;
        }
        proof {
            assert forall|j: int| 0 <= j < height && !(py <= j < row) implies #[trigger] target[j] == pixels[j] by {
                assert(drawn_row(pixels[j], px as int, j - py, sprite@, wide) =~= pixels[j]);
            }
            assert(self.staging_view() =~= target);
            if sprite_collides(pixels, px as int, py as int, sprite@, wide) {
                let j = choose|j: int|
                    0 <= j < pixels.len() && #[trigger] row_collides(pixels[j], px as int, j - py, sprite@, wide);
                if !(py <= j < row) {
                    let i = choose|i: int|
                        0 <= i < pixels[j].len() && sprite_lit(sprite@, wide, j - py, i - px) && #[trigger] pixels[j][i];
                    assert(false);
                }
            }
            if hit {
                let j = choose|j: int|
                    py <= j < row && #[trigger] row_collides(pixels[j], px as int, j - py, sprite@, wide);
                assert(row_collides(pixels[j], px as int, j - py, sprite@, wide));
            }
        }
        hit
    }

    /// Draws an 8 pixel wide sprite of `sprite.len()` rows, XORing it into
    /// the staging buffer with its corner at (`x`, `y`) modulo the screen
    /// size; returns whether a lit pixel went dark.
    pub fn draw_sprite(&mut self, x: u8, y: u8, sprite: &[u8]) -> (hit: bool)
        requires
            old(self).wf(),
        ensures
            final(self).wf(),
            old(self).same_frame(final(self)),
            !final(self).vsync_flag(),
            final(self).staging_view() == sprite_drawn(
                old(self).staging_view(),
                x as int % old(self).width(),
                y as int % old(self).height(),
                sprite@,
                false,
            ),
            hit == sprite_collides(
                old(self).staging_view(),
                x as int % old(self).width(),
                y as int % old(self).height(),
                sprite@,
                false,
            ),
    {
        self.draw(x, y, sprite, false)
    }

    /// Draws a 16 by 16 sprite, two bytes per row, as `draw_sprite` does.
    pub fn draw_supersized_sprite(&mut self, x: u8, y: u8, sprite: [u8; 32]) -> (hit: bool)
        requires
            old(self).wf(),
        ensures
            final(self).wf(),
            old(self).same_frame(final(self)),
            !final(self).vsync_flag(),
            final(self).staging_view() == sprite_drawn(
                old(self).staging_view(),
                x as int % old(self).width(),
                y as int % old(self).height(),
                sprite@,
                true,
            ),
            hit == sprite_collides(
                old(self).staging_view(),
                x as int % old(self).width(),
                y as int % old(self).height(),
                sprite@,
                true,
            ),
    {
        self.draw(x, y, sprite.as_slice(), true)
    }

    /// Darkens every pixel of the staging buffer.
    pub fn clear_display(&mut self)
        requires
            old(self).wf(),
        ensures
            final(self).wf(),
            old(self).same_frame(final(self)),
            final(self).vsync_flag() == old(self).vsync_flag(),
            final(self).staging_view() == blank_screen(old(self).width(), old(self).height()),
    {
        let width = self.screen_width();
        let height = self.screen_height();
        self.staging = Self::blank_rows(width, height);
    }

    /// Switches resolution. Both buffers take the new size, keeping the
    /// pixels that fit in both and filling the rest dark; the shown frame
    /// becomes the staging buffer.
    ///
    /// With `clear_on_resolution_change` set the screen would be cleared
    /// under a lock already held, which never returns; that setup is left
    /// out.
    pub fn set_hires(&mut self, is_hires: bool)
        requires
            old(self).wf(),
            !old(self).config_view().clear_on_resolution_change,
        ensures
            final(self).wf(),
            final(self).is_hires() == is_hires,
            final(self).config_view() == old(self).config_view(),
            final(self).vsync_flag() == old(self).vsync_flag(),
            final(self).staging_view() == resized(
                old(self).staging_view(),
                screen_width(is_hires),
                screen_height(is_hires),
            ),
            final(self).framebuffer_view() == final(self).staging_view(),
    {
        let (width, height) = if is_hires {
            (HIRES_WIDTH, HIRES_HEIGHT)
        } else {
            (LORES_WIDTH, LORES_HEIGHT)
        };
        let ghost pixels = old(self).staging_view();
        let ghost target = resized(pixels, width as int, height as int);
        let mut rows: Vec<Vec<bool>> = Vec::new();
        let mut y: usize = 0;
        while y < height
            invariant
                self.wf(),
                pixels == self.staging_view(),
                target == resized(pixels, width as int, height as int),
                y <= height,
                rows@.len() == y,
                forall|j: int| 0 <= j < y ==> #[trigger] rows@[j]@ == target[j],
            decreases height - y,
        {
            let mut row: Vec<bool> = Vec::new();
            let mut x: usize = 0;
            let old_height = self.staging.len();
            while x < width
                invariant
                    self.wf(),
                    pixels == self.staging_view(),
                    old_height == pixels.len(),
                    y < height,
                    x <= width,
                    row@.len() == x,
                    forall|i: int|
                        0 <= i < x ==> #[trigger] row@[i] == if y < pixels.len() && i
                            < pixels[y as int].len() {
                            pixels[y as int][i]
                        } else {
                            false
                        },
                decreases width - x,
            {
                let v = if y < old_height && x < self.staging[y].len() {
                    self.staging[y][x]
                } else {
                    false
                };
                row.push(v);
                x = x + 1;
            }
            assert(row@ =~= target[y as int]);
            rows.push(row);
            y = y + 1;
        }
        assert(rows_view(rows@) =~= target);
        let shown = Self::copy_rows(&rows);
        self.staging = rows;
        self.framebuffer = shown;
        self.hires = is_hires;
    }

    /// Shows the staging buffer: the framebuffer takes its contents.
    pub fn commit_staging_buffer(&mut self)
        requires
            old(self).wf(),
        ensures
            final(self).wf(),
            final(self).framebuffer_view() == old(self).staging_view(),
            final(self).staging_view() == old(self).staging_view(),
            final(self).is_hires() == old(self).is_hires(),
            final(self).config_view() == old(self).config_view(),
            final(self).vsync_flag() == old(self).vsync_flag(),
    {
        self.framebuffer = Self::copy_rows(&self.staging);
    }

    /// The frame ends (sixty times a second): the staging buffer is shown
    /// and a waiting processor may go on.
    pub fn vsync(&mut self)
        requires
            old(self).wf(),
        ensures
            final(self).wf(),
            final(self).vsync_flag(),
            final(self).framebuffer_view() == old(self).staging_view(),
            final(self).staging_view() == old(self).staging_view(),
            final(self).is_hires() == old(self).is_hires(),
            final(self).config_view() == old(self).config_view(),
    {
        self.vsync_occurred = true;
        self.commit_staging_buffer();
    }

    /// On reset the staging buffer is cleared.
    pub fn on_reset(&mut self)
        requires
            old(self).wf(),
        ensures
            final(self).wf(),
            old(self).same_frame(final(self)),
            final(self).vsync_flag() == old(self).vsync_flag(),
            final(self).staging_view() == blank_screen(old(self).width(), old(self).height()),
    {
        self.clear_display();
    }
}

impl Chip8DisplayConfig {
    /// A low resolution screen, all dark, that has not shown a frame yet.
    pub fn build_component(self) -> (r: Chip8Display)
        ensures
            r.wf(),
            !r.is_hires(),
            !r.vsync_flag(),
            r.config_view() == self,
            r.staging_view() == blank_screen(LORES_WIDTH as int, LORES_HEIGHT as int),
            r.framebuffer_view() == blank_screen(LORES_WIDTH as int, LORES_HEIGHT as int),
    {
        Chip8Display {
            staging: Chip8Display::blank_rows(LORES_WIDTH, LORES_HEIGHT),
            framebuffer: Chip8Display::blank_rows(LORES_WIDTH, LORES_HEIGHT),
            vsync_occurred: false,
            hires: false,
            config: self,
        }
    }
}

/// Drawing the same sprite twice at the same place leaves the screen as it was.
pub proof fn lemma_draw_twice(pixels: Seq<Seq<bool>>, px: int, py: int, sprite: Seq<u8>, wide: bool)
    ensures
        sprite_drawn(sprite_drawn(pixels, px, py, sprite, wide), px, py, sprite, wide) == pixels,
{
    let once = sprite_drawn(pixels, px, py, sprite, wide);
    let twice = sprite_drawn(once, px, py, sprite, wide);
    assert forall|y: int| 0 <= y < pixels.len() implies #[trigger] twice[y] == pixels[y] by {
        assert(twice[y] =~= pixels[y]);
    }
    assert(twice =~= pixels);
}

/// Sprite rows are read most significant bit first: in a plain sprite, the
/// leftmost column of row `r` is lit by bit 7 of `sprite[r]` and the
/// rightmost (column 7) by bit 0; no column outside 0 to 7 or row past the
/// sprite is lit.
pub proof fn lemma_sprite_bit_order(sprite: Seq<u8>, r: int, c: int)
    requires
        0 <= r < sprite.len(),
    ensures
        sprite_lit(sprite, false, r, 0) == (sprite[r] >= 128),
        sprite_lit(sprite, false, r, 1) == (sprite[r] % 128 >= 64),
        sprite_lit(sprite, false, r, 7) == (sprite[r] % 2 == 1),
        !(0 <= c < 8) ==> !sprite_lit(sprite, false, r, c),
        !sprite_lit(sprite, false, sprite.len() as int, c),
{
    let b = sprite[r];
    assert((((b >> 7u8) & 1u8) == 1u8) == (b >= 128) && (((b >> 6u8) & 1u8) == 1u8) == (b % 128
        >= 64) && (((b >> 0u8) & 1u8) == 1u8) == (b % 2 == 1)) by (bit_vector);
}

/// Whether the sprite drawn at (`px`, `py`) lights the screen's pixel at
/// row `y`, column `x`.
pub open spec fn lands(
    pixels: Seq<Seq<bool>>,
    px: int,
    py: int,
    sprite: Seq<u8>,
    wide: bool,
    y: int,
    x: int,
) -> bool {
    0 <= y < pixels.len() && 0 <= x < pixels[y].len() && sprite_lit(sprite, wide, y - py, x - px)
}

/// Drawing a sprite a second time at the same place reports a collision
/// exactly when some pixel of the sprite lands on the screen where the
/// screen was dark before the first draw (the first draw lit it). So where
/// the first draw reported none, the second reports one exactly when any
/// pixel of the sprite lands on the screen at all. The screen itself comes
/// back by `lemma_draw_twice`.
pub proof fn lemma_second_draw_hit(
    pixels: Seq<Seq<bool>>,
    px: int,
    py: int,
    sprite: Seq<u8>,
    wide: bool,
)
    ensures
        sprite_collides(sprite_drawn(pixels, px, py, sprite, wide), px, py, sprite, wide)
            <==> exists|y: int, x: int|
            #[trigger] lands(pixels, px, py, sprite, wide, y, x) && !pixels[y][x],
        !sprite_collides(pixels, px, py, sprite, wide) ==> (sprite_collides(
            sprite_drawn(pixels, px, py, sprite, wide),
            px,
            py,
            sprite,
            wide,
        ) <==> exists|y: int, x: int| #[trigger] lands(pixels, px, py, sprite, wide, y, x)),
{
    let once = sprite_drawn(pixels, px, py, sprite, wide);
    if sprite_collides(once, px, py, sprite, wide) {
        let y = choose|y: int|
            0 <= y < once.len() && #[trigger] row_collides(once[y], px, y - py, sprite, wide);
        let x = choose|x: int|
            0 <= x < once[y].len() && sprite_lit(sprite, wide, y - py, x - px) && #[trigger] once[y][x];
        assert(lands(pixels, px, py, sprite, wide, y, x) && !pixels[y][x]);
    }
    if exists|y: int, x: int| #[trigger] lands(pixels, px, py, sprite, wide, y, x) && !pixels[y][x] {
        let (y, x) = choose|y: int, x: int|
            #[trigger] lands(pixels, px, py, sprite, wide, y, x) && !pixels[y][x];
        assert(once[y][x]);
        assert(row_collides(once[y], px, y - py, sprite, wide));
    }
    if !sprite_collides(pixels, px, py, sprite, wide) {
        if exists|y: int, x: int| #[trigger] lands(pixels, px, py, sprite, wide, y, x) {
            let (y, x) = choose|y: int, x: int| #[trigger] lands(pixels, px, py, sprite, wide, y, x);
            if pixels[y][x] {
                assert(row_collides(pixels[y], px, y - py, sprite, wide));
            }
            assert(lands(pixels, px, py, sprite, wide, y, x) && !pixels[y][x]);
        }
    }
}

/// A collision is reported exactly when some lit pixel of the screen goes dark.
pub proof fn lemma_collision_turns_off(
    pixels: Seq<Seq<bool>>,
    px: int,
    py: int,
    sprite: Seq<u8>,
    wide: bool,
)
    ensures
        sprite_collides(pixels, px, py, sprite, wide) <==> exists|y: int, x: int|
            0 <= y < pixels.len() && 0 <= x < pixels[y].len() && #[trigger] pixels[y][x]
                && !sprite_drawn(pixels, px, py, sprite, wide)[y][x],
{
    let drawn = sprite_drawn(pixels, px, py, sprite, wide);
    if sprite_collides(pixels, px, py, sprite, wide) {
        let y = choose|y: int|
            0 <= y < pixels.len() && #[trigger] row_collides(pixels[y], px, y - py, sprite, wide);
        let x = choose|x: int|
            0 <= x < pixels[y].len() && sprite_lit(sprite, wide, y - py, x - px) && #[trigger] pixels[y][x];
        assert(pixels[y][x] && !drawn[y][x]);
    }
    if exists|y: int, x: int|
        0 <= y < pixels.len() && 0 <= x < pixels[y].len() && #[trigger] pixels[y][x] && !drawn[y][x] {
        let (y, x) = choose|y: int, x: int|
            0 <= y < pixels.len() && 0 <= x < pixels[y].len() && #[trigger] pixels[y][x] && !drawn[y][x];
        assert(sprite_lit(sprite, wide, y - py, x - px));
        assert(row_collides(pixels[y], px, y - py, sprite, wide));
    }
}

} // verus!
