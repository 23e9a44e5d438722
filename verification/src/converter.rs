//! Conversion of an image to a grid of glyphs.

use vstd::prelude::*;
use crate::glyph::glyph;
use crate::pixels::{
    image_is_integral, image_rows, image_width, source_height, source_is_integral, source_pixel,
    source_width, Rgb,
};
use crate::sampling::{
    art_line, art_lines, art_text, block_level, block_origin, block_total, cell_glyph,
    cell_level, is_grid_text, lemma_art_is_grid, lemma_block_total_bounds,
    lemma_run_total_bounds, mean_level, run_total, Channel, Raster,
};
use crate::tone::{identity_table, ToneCurve};

verus! {

/// What a conversion is asked for, as a mathematical value: the size of the
/// grid and the table of the tone curve.
pub struct OptionsView {
    pub columns: nat,
    pub lines: nat,
    pub table: Seq<u8>,
}

/// Options for the ASCII art conversion: the size of the grid in characters,
/// and the tone curve applied to each cell's luminance.
pub struct AsciiOptions {
    width: u32,
    height: u32,
    tone: ToneCurve,
}

impl View for AsciiOptions {
    type V = OptionsView;

    closed spec fn view(&self) -> OptionsView {
        OptionsView { columns: self.width as nat, lines: self.height as nat, table: self.tone@ }
    }
}

/// The grid asked for where no options are given: 80 columns, 80 lines, and no
/// tone adjustment.
pub open spec fn default_grid() -> OptionsView {
    OptionsView { columns: 80, lines: 80, table: identity_table() }
}

/// The grid that `options` ask for.
pub open spec fn chosen_grid(options: Option<AsciiOptions>) -> OptionsView {
    match options {
        Some(o) => o@,
        None => default_grid(),
    }
}

impl AsciiOptions {
    /// Options for a grid of `width` columns and `height` lines, with no tone
    /// adjustment.
    pub fn new(width: u32, height: u32) -> (options: Self)
        ensures
            options@ == (OptionsView {
                columns: width as nat,
                lines: height as nat,
                table: identity_table(),
            }),
    {
        Self { width, height, tone: ToneCurve::identity() }
    }

    /// The same grid, with `tone` as its tone curve.
    pub fn with_tone(self, tone: ToneCurve) -> (options: Self)
        ensures
            options@ == (OptionsView { columns: self@.columns, lines: self@.lines, table: tone@ }),
    {
        Self { width: self.width, height: self.height, tone }
    }

    /// Number of columns of the grid.
    pub fn width(&self) -> (width: u32)
        ensures
            width == self@.columns,
    {
        self.width
    }

    /// Number of lines of the grid.
    pub fn height(&self) -> (height: u32)
        ensures
            height == self@.lines,
    {
        self.height
    }

    /// The tone curve of the grid.
    pub fn tone(&self) -> (tone: &ToneCurve)
        ensures
            tone@ == self@.table,
    {
        &self.tone
    }
}

impl Default for AsciiOptions {
    /// 80 columns, 80 lines, no tone adjustment.
    fn default() -> (options: Self)
        ensures
            options@ == default_grid(),
    {
        Self::new(80, 80)
    }
}

/// Something that can be drawn as ASCII art.
pub trait ToAsciiArt {
    /// Whether the value holds anything to draw.
    spec fn drawable(&self) -> bool;

    /// The text that stands for the value under `options`.
    spec fn art(&self, options: Option<AsciiOptions>) -> Seq<char>;

    /// Draws the value as text, under `options` or, without them, under the
    /// default options.
    fn to_ascii_art(&self, options: Option<AsciiOptions>) -> (text: String)
        requires
            self.drawable(),
        ensures
            text@ == self.art(options),
    ;
}

/// The mathematical value of an image: its size and its colours.
pub open spec fn raster_of(img: image::DynamicImage) -> Raster {
    Raster {
        width: image_width(img),
        height: image_rows(img).len(),
        pixel: |x: int, y: int| image_rows(img)[y][x],
    }
}

/// Converts an image to ASCII art.
pub struct ImageConverter {
    image: image::DynamicImage,
}

impl View for ImageConverter {
    type V = Raster;

    closed spec fn view(&self) -> Raster {
        raster_of(self.image)
    }
}

/// Sums of the three channels over some pixels.
struct Totals {
    red: u128,
    green: u128,
    blue: u128,
}

/// Sums the channels over `len` pixels of row `y`, from column `x0` on.
fn run_totals(img: &image::DynamicImage, x0: u32, y: u32, len: u32) -> (t: Totals)
    requires
        image_is_integral(*img),
        x0 + len <= image_width(*img),
        x0 + len <= u32::MAX,
        y < image_rows(*img).len(),
    ensures
        t.red == run_total(raster_of(*img), Channel::Red, x0 as int, y as int, len as nat),
        t.green == run_total(raster_of(*img), Channel::Green, x0 as int, y as int, len as nat),
        t.blue == run_total(raster_of(*img), Channel::Blue, x0 as int, y as int, len as nat),
{
    let ghost r = raster_of(*img);
    let mut t = Totals { red: 0, green: 0, blue: 0 };
    let mut dx: u32 = 0;
    while dx < len
        invariant
            dx <= len,
            image_is_integral(*img),
            x0 + len <= image_width(*img),
            x0 + len <= u32::MAX,
            y < image_rows(*img).len(),
            r == raster_of(*img),
            t.red == run_total(r, Channel::Red, x0 as int, y as int, dx as nat),
            t.green == run_total(r, Channel::Green, x0 as int, y as int, dx as nat),
            t.blue == run_total(r, Channel::Blue, x0 as int, y as int, dx as nat),
        decreases len - dx,
    {
        proof {
            lemma_run_total_bounds(r, Channel::Red, x0 as int, y as int, dx as nat);
            lemma_run_total_bounds(r, Channel::Green, x0 as int, y as int, dx as nat);
            lemma_run_total_bounds(r, Channel::Blue, x0 as int, y as int, dx as nat);
        }
        let p: Rgb = source_pixel(img, x0 + dx, y);
        assert((r.pixel)(x0 + dx, y as int) == p);
        t.red = t.red + p.r as u128;
        t.green = t.green + p.g as u128;
        t.blue = t.blue + p.b as u128;
        dx = dx + 1;
    }
    t
}

/// Sums the channels over the block of `w` columns and `h` rows whose first
/// pixel is `(x0, y0)`.
fn block_totals(img: &image::DynamicImage, x0: u32, y0: u32, w: u32, h: u32) -> (t: Totals)
    requires
        image_is_integral(*img),
        x0 + w <= image_width(*img),
        y0 + h <= image_rows(*img).len(),
        x0 + w <= u32::MAX,
        y0 + h <= u32::MAX,
    ensures
        t.red == block_total(raster_of(*img), Channel::Red, x0 as int, y0 as int, w as nat, h as nat),
        t.green == block_total(
            raster_of(*img),
            Channel::Green,
            x0 as int,
            y0 as int,
            w as nat,
            h as nat,
        ),
        t.blue == block_total(
            raster_of(*img),
            Channel::Blue,
            x0 as int,
            y0 as int,
            w as nat,
            h as nat,
        ),
{
    let ghost r = raster_of(*img);
    let mut t = Totals { red: 0, green: 0, blue: 0 };
    let mut dy: u32 = 0;
    while dy < h
        invariant
            dy <= h,
            image_is_integral(*img),
            x0 + w <= image_width(*img),
            y0 + h <= image_rows(*img).len(),
            x0 + w <= u32::MAX,
            y0 + h <= u32::MAX,
            r == raster_of(*img),
            t.red == block_total(r, Channel::Red, x0 as int, y0 as int, w as nat, dy as nat),
            t.green == block_total(r, Channel::Green, x0 as int, y0 as int, w as nat, dy as nat),
            t.blue == block_total(r, Channel::Blue, x0 as int, y0 as int, w as nat, dy as nat),
        decreases h - dy,
    {
        let row: Totals = run_totals(img, x0, y0 + dy, w);
        proof {
            let next: nat = (dy + 1) as nat;
            lemma_block_total_bounds(r, Channel::Red, x0 as int, y0 as int, w as nat, next);
            lemma_block_total_bounds(r, Channel::Green, x0 as int, y0 as int, w as nat, next);
            lemma_block_total_bounds(r, Channel::Blue, x0 as int, y0 as int, w as nat, next);
            assert(w * next <= 0x1_0000_0000 * 0x1_0000_0000) by (nonlinear_arith)
                requires
                    w <= 0xffff_ffff,
                    next <= 0xffff_ffff,
            ;
        }
        t.red = t.red + row.red;
        t.green = t.green + row.green;
        t.blue = t.blue + row.blue;
        dy = dy + 1;
    }
    t
}

/// Luminance of the mean colour of a block that holds a pixel.
fn block_luminance(img: &image::DynamicImage, x0: u32, y0: u32, w: u32, h: u32) -> (level: u8)
    requires
        image_is_integral(*img),
        1 <= w,
        1 <= h,
        x0 + w <= image_width(*img),
        y0 + h <= image_rows(*img).len(),
        x0 + w <= u32::MAX,
        y0 + h <= u32::MAX,
    ensures
        level == block_level(raster_of(*img), x0 as int, y0 as int, w as nat, h as nat),
{
    let ghost r = raster_of(*img);
    let t: Totals = block_totals(img, x0, y0, w, h);
    proof {
        assert(1 <= w * h <= 0x1_0000_0000 * 0x1_0000_0000) by (nonlinear_arith)
            requires
                1 <= w <= 0xffff_ffff,
                1 <= h <= 0xffff_ffff,
        ;
        lemma_block_total_bounds(r, Channel::Red, x0 as int, y0 as int, w as nat, h as nat);
        lemma_block_total_bounds(r, Channel::Green, x0 as int, y0 as int, w as nat, h as nat);
        lemma_block_total_bounds(r, Channel::Blue, x0 as int, y0 as int, w as nat, h as nat);
    }
    let count: u128 = (w as u128) * (h as u128);
    mean_level(t.red, t.green, t.blue, count)
}

impl ImageConverter {
    /// Whether the image stores its samples as integers. An image of
    /// floating-point samples may hold values that are no numbers and that no
    /// pixel can be read from, so it is converted to integer samples before it is
    /// drawn.
    pub closed spec fn integral(&self) -> bool {
        image_is_integral(self.image)
    }

    /// A converter for `image`.
    pub fn new(image: image::DynamicImage) -> (converter: Self)
        ensures
            converter@ == raster_of(image),
            converter.integral() == image_is_integral(image),
    {
        Self { image }
    }

    /// Whether the image has no pixel.
    pub fn is_empty(&self) -> (empty: bool)
        ensures
            empty == (self@.width == 0 || self@.height == 0),
    {
        source_width(&self.image) == 0 || source_height(&self.image) == 0
    }

    /// Whether the image stores its samples as integers.
    pub fn is_integral(&self) -> (yes: bool)
        ensures
            yes == self.integral(),
    {
        source_is_integral(&self.image)
    }

    /// Whether the image can be drawn: it stores integer samples and holds at
    /// least one pixel.
    pub fn is_drawable(&self) -> (yes: bool)
        ensures
            yes == self.drawable(),
    {
        self.is_integral() && !self.is_empty()
    }

    /// Draws the image where it can be drawn: `None` for an image without pixels
    /// or of floating-point samples, else what `to_ascii_art` gives.
    pub fn render(&self, options: Option<AsciiOptions>) -> (text: Option<String>)
        ensures
            text is Some <==> self.drawable(),
            text matches Some(t) ==> t@ == self.art(options) && is_grid_text(
                t@,
                chosen_grid(options).columns,
                chosen_grid(options).lines,
            ),
    {
        if self.is_drawable() {
            Some(self.to_ascii_art(options))
        } else {
            None
        }
    }

    /// Luminance of cell `(x, y)` of a grid of `columns` by `lines` cells.
    fn level_at(&self, columns: u32, lines: u32, x: u32, y: u32) -> (level: u8)
        requires
            self.drawable(),
            x < columns,
            y < lines,
        ensures
            level == cell_level(self@, columns as nat, lines as nat, x as int, y as int),
    {
        let sw: u32 = source_width(&self.image);
        let sh: u32 = source_height(&self.image);
        let x0: u32 = block_origin(x, sw, columns);
        let y0: u32 = block_origin(y, sh, lines);
        let across: u32 = sw / columns;
        let down: u32 = sh / lines;
        if across >= 1 && down >= 1 {
            block_luminance(&self.image, x0, y0, across, down)
        } else {
            block_luminance(&self.image, x0, y0, 1, 1)
        }
    }
}

impl ToAsciiArt for ImageConverter {
    /// An image can be drawn if it stores integer samples and holds at least
    /// one pixel.
    open spec fn drawable(&self) -> bool {
        self.integral() && 1 <= self@.width && 1 <= self@.height
    }

    /// The grid that `options` ask for, as text.
    open spec fn art(&self, options: Option<AsciiOptions>) -> Seq<char> {
        let grid = chosen_grid(options);
        art_text(self@, grid.columns, grid.lines, grid.table)
    }

    /// Draws the image as a grid of glyphs: one line of text for each line of
    /// the grid, each ended by a line break.
    fn to_ascii_art(&self, options: Option<AsciiOptions>) -> (text: String)
        ensures
            is_grid_text(text@, chosen_grid(options).columns, chosen_grid(options).lines),
    {
        let chosen: AsciiOptions = match options {
            Some(o) => o,
            None => AsciiOptions::default(),
        };
        let columns: u32 = chosen.width;
        let lines: u32 = chosen.height;
        let ghost r = self@;
        let ghost table = chosen.tone@;
        let mut text: String = String::new();
        let mut y: u32 = 0;
        assert(text@ =~= art_lines(r, columns as nat, lines as nat, table, 0));
        while y < lines
            invariant
                y <= lines,
                self.drawable(),
                r == self@,
                table == chosen.tone@,
                text@ == art_lines(r, columns as nat, lines as nat, table, y as nat),
            decreases lines - y,
        {
            let ghost before = text@;
            let mut x: u32 = 0;
            assert(text@ =~= before + Seq::new(
                0,
                |i: int| cell_glyph(r, columns as nat, lines as nat, table, i, y as int),
            ));
            while x < columns
                invariant
                    x <= columns,
                    y < lines,
                    self.drawable(),
                    r == self@,
                    table == chosen.tone@,
                    text@ == before + Seq::new(
                        x as nat,
                        |i: int| cell_glyph(r, columns as nat, lines as nat, table, i, y as int),
                    ),
                decreases columns - x,
            {
                let level: u8 = self.level_at(columns, lines, x, y);
                let adjusted: u8 = chosen.tone.apply(level);
                let c: char = glyph(adjusted);
                text.push(c);
                assert(text@ =~= before + Seq::new(
                    (x + 1) as nat,
                    |i: int| cell_glyph(r, columns as nat, lines as nat, table, i, y as int),
                ));
                x = x + 1;
            }
            text.push('\n');
            assert(text@ =~= before + art_line(r, columns as nat, lines as nat, table, y as int));
            y = y + 1;
        }
        proof {
            lemma_art_is_grid(r, columns as nat, lines as nat, table);
        }
        text
    }
}

} // verus!
