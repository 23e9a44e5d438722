//! The arithmetic of box-filter downsampling, over a mathematical model of the
//! source image.
//!
//! Each cell of the output grid stands for a block of source pixels. The block
//! of cell `(x, y)` starts at `(floor(x * W / w), floor(y * H / h))`, where
//! `W x H` is the size of the source and `w x h` that of the grid, and it is
//! `floor(W / w)` pixels wide and `floor(H / h)` pixels high. Where either side
//! would be less than one pixel, because the grid has more cells than the source
//! has pixels along that axis, the block is the single pixel at its start. The
//! cell's luminance is the weighted sum of the block's mean red, green and blue.

use vstd::prelude::*;
use crate::glyph::glyph_of;
use crate::pixels::Rgb;

verus! {

/// A source image as a mathematical value: its size, and the colour at each
/// column `x` and row `y`.
pub struct Raster {
    pub width: nat,
    pub height: nat,
    pub pixel: spec_fn(int, int) -> Rgb,
}

/// A colour channel.
pub enum Channel {
    Red,
    Green,
    Blue,
}

/// The value of one channel of a colour.
pub open spec fn channel(p: Rgb, c: Channel) -> int {
    match c {
        Channel::Red => p.r as int,
        Channel::Green => p.g as int,
        Channel::Blue => p.b as int,
    }
}

/// Whether the cells of a grid of `columns` by `lines` cells cover at least one
/// whole pixel along both axes.
pub open spec fn covers_pixels(r: Raster, columns: nat, lines: nat) -> bool {
    r.width as int / columns as int >= 1 && r.height as int / lines as int >= 1
}

/// Width of the block of a cell: the pixels per cell along the row, rounded
/// down, or one where the cells do not cover whole pixels.
pub open spec fn block_width(r: Raster, columns: nat, lines: nat) -> nat {
    if covers_pixels(r, columns, lines) {
        (r.width as int / columns as int) as nat
    } else {
        1
    }
}

/// Height of the block of a cell: the pixels per cell along the column, rounded
/// down, or one where the cells do not cover whole pixels.
pub open spec fn block_height(r: Raster, columns: nat, lines: nat) -> nat {
    if covers_pixels(r, columns, lines) {
        (r.height as int / lines as int) as nat
    } else {
        1
    }
}

/// First pixel of the block of cell `index`, along an axis on which `source`
/// pixels are divided among `target` cells.
pub open spec fn block_start(index: int, source: int, target: int) -> int {
    (index * source) / target
}

/// Sum of one channel over `len` pixels of row `y`, from column `x0` on.
pub open spec fn run_total(r: Raster, c: Channel, x0: int, y: int, len: nat) -> int
    decreases len,
{
    if len == 0 {
        0
    } else {
        run_total(r, c, x0, y, (len - 1) as nat) + channel((r.pixel)(x0 + len - 1, y), c)
    }
}

/// Sum of one channel over the block of `w` columns and `h` rows whose first
/// pixel is `(x0, y0)`.
pub open spec fn block_total(r: Raster, c: Channel, x0: int, y0: int, w: nat, h: nat) -> int
    decreases h,
{
    if h == 0 {
        0
    } else {
        block_total(r, c, x0, y0, w, (h - 1) as nat) + run_total(r, c, x0, y0 + h - 1, w)
    }
}

/// Mean of one channel over a block, rounded down.
pub open spec fn block_mean(r: Raster, c: Channel, x0: int, y0: int, w: nat, h: nat) -> int {
    block_total(r, c, x0, y0, w, h) / (w * h) as int
}

/// Luminance of a colour: `0.2126 R + 0.7152 G + 0.0722 B`, rounded down.
pub open spec fn luminance(red: int, green: int, blue: int) -> int {
    (2126 * red + 7152 * green + 722 * blue) / 10000
}

/// Luminance of the mean colour of a block.
pub open spec fn block_level(r: Raster, x0: int, y0: int, w: nat, h: nat) -> int {
    luminance(
        block_mean(r, Channel::Red, x0, y0, w, h),
        block_mean(r, Channel::Green, x0, y0, w, h),
        block_mean(r, Channel::Blue, x0, y0, w, h),
    )
}

/// Luminance of cell `(x, y)` of a grid of `columns` by `lines` cells.
pub open spec fn cell_level(r: Raster, columns: nat, lines: nat, x: int, y: int) -> int {
    block_level(
        r,
        block_start(x, r.width as int, columns as int),
        block_start(y, r.height as int, lines as int),
        block_width(r, columns, lines),
        block_height(r, columns, lines),
    )
}

/// Glyph of cell `(x, y)`: the cell's luminance, adjusted by the tone table,
/// looked up in the ramp.
pub open spec fn cell_glyph(
    r: Raster,
    columns: nat,
    lines: nat,
    table: Seq<u8>,
    x: int,
    y: int,
) -> char {
    glyph_of(table[cell_level(r, columns, lines, x, y)])
}

/// Line `y` of the grid: the glyphs of its cells from left to right, then a
/// line break.
pub open spec fn art_line(r: Raster, columns: nat, lines: nat, table: Seq<u8>, y: int) -> Seq<
    char,
> {
    Seq::new(columns, |x: int| cell_glyph(r, columns, lines, table, x, y)).push('\n')
}

/// The first `count` lines of the grid, one after the other.
pub open spec fn art_lines(
    r: Raster,
    columns: nat,
    lines: nat,
    table: Seq<u8>,
    count: nat,
) -> Seq<char>
    decreases count,
{
    if count == 0 {
        Seq::empty()
    } else {
        art_lines(r, columns, lines, table, (count - 1) as nat) + art_line(
            r,
            columns,
            lines,
            table,
            count - 1,
        )
    }
}

/// The whole grid as text: `lines` lines of `columns` glyphs, each line ended by
/// a line break.
pub open spec fn art_text(r: Raster, columns: nat, lines: nat, table: Seq<u8>) -> Seq<char> {
    art_lines(r, columns, lines, table, lines)
}

/// Whether every pixel of the raster has the colour `p`.
pub open spec fn is_uniform(r: Raster, p: Rgb) -> bool {
    forall|x: int, y: int| 0 <= x < r.width && 0 <= y < r.height ==> #[trigger] (r.pixel)(x, y) == p
}

/// Along each axis a block starts inside the source, and a block of as many
/// pixels as fall to a cell, rounded down, ends inside it.
pub proof fn lemma_block_inside(index: int, source: int, target: int)
    requires
        0 <= index < target,
        1 <= source,
    ensures
        0 <= block_start(index, source, target) < source,
        0 <= source / target,
        block_start(index, source, target) + source / target <= source,
{
    let s: int = (index * source) / target;
    let q: int = source / target;
    assert(0 <= s && s * target <= index * source) by (nonlinear_arith)
        requires
            s == (index * source) / target,
            0 <= index,
            1 <= source,
            0 < target,
    ;
    assert(0 <= q && q * target <= source) by (nonlinear_arith)
        requires
            q == source / target,
            1 <= source,
            0 < target,
    ;
    assert(s + q <= source) by (nonlinear_arith)
        requires
            s * target <= index * source,
            q * target <= source,
            0 <= index < target,
            1 <= source,
    ;
    assert(s + 1 <= source) by (nonlinear_arith)
        requires
            s * target <= index * source,
            0 <= index < target,
            1 <= source,
    ;
}

/// First pixel of the block of cell `index` along an axis on which `source`
/// pixels are divided among `target` cells: `index * source / target`, rounded
/// down. It lies inside the source, and so does a block of `source / target`
/// pixels that starts there.
pub fn block_origin(index: u32, source: u32, target: u32) -> (origin: u32)
    requires
        index < target,
        1 <= source,
    ensures
        origin == block_start(index as int, source as int, target as int),
        origin < source,
        origin + source / target <= source,
{
    proof {
        lemma_block_inside(index as int, source as int, target as int);
        assert(index * source <= 0xffff_ffff * 0xffff_ffff) by (nonlinear_arith)
            requires
                0 <= index <= 0xffff_ffff,
                0 <= source <= 0xffff_ffff,
        ;
    }
    let scaled: u64 = (index as u64) * (source as u64);
    (scaled / (target as u64)) as u32
}

/// Luminance of the mean colour of `count` pixels whose channels sum to the
/// three totals: each total divided by the count, rounded down, and the three
/// means weighed with 0.2126, 0.7152 and 0.0722, rounded down.
pub fn mean_level(red_total: u128, green_total: u128, blue_total: u128, count: u128) -> (level:
    u8)
    requires
        1 <= count,
        red_total <= 255 * count,
        green_total <= 255 * count,
        blue_total <= 255 * count,
    ensures
        level == luminance(
            red_total as int / count as int,
            green_total as int / count as int,
            blue_total as int / count as int,
        ),
{
    let red: u128 = red_total / count;
    let green: u128 = green_total / count;
    let blue: u128 = blue_total / count;
    proof {
        lemma_mean_is_channel(red_total as int, count as int);
        lemma_mean_is_channel(green_total as int, count as int);
        lemma_mean_is_channel(blue_total as int, count as int);
    }
    let weighted: u128 = 2126 * red + 7152 * green + 722 * blue;
    (weighted / 10000) as u8
}

/// The mean of `count` channel values is a channel value.
proof fn lemma_mean_is_channel(total: int, count: int)
    requires
        1 <= count,
        0 <= total <= 255 * count,
    ensures
        0 <= total / count <= 255,
{
    assert(0 <= total / count <= 255) by (nonlinear_arith)
        requires
            0 <= total <= 255 * count,
            1 <= count,
    ;
}

/// The block of every cell holds a pixel and lies inside the source.
pub proof fn lemma_cell_block_inside(r: Raster, columns: nat, lines: nat, x: int, y: int)
    requires
        1 <= r.width,
        1 <= r.height,
        0 <= x < columns,
        0 <= y < lines,
    ensures
        1 <= block_width(r, columns, lines),
        1 <= block_height(r, columns, lines),
        0 <= block_start(x, r.width as int, columns as int),
        0 <= block_start(y, r.height as int, lines as int),
        block_start(x, r.width as int, columns as int) + block_width(r, columns, lines)
            <= r.width,
        block_start(y, r.height as int, lines as int) + block_height(r, columns, lines)
            <= r.height,
{
    lemma_block_inside(x, r.width as int, columns as int);
    lemma_block_inside(y, r.height as int, lines as int);
}

/// In a grid of one cell the block is the whole image.
pub proof fn lemma_single_block(r: Raster)
    requires
        1 <= r.width,
        1 <= r.height,
    ensures
        block_start(0, r.width as int, 1) == 0,
        block_start(0, r.height as int, 1) == 0,
        block_width(r, 1, 1) == r.width,
        block_height(r, 1, 1) == r.height,
{
}

/// A run's total lies between 0 and 255 for each pixel.
pub proof fn lemma_run_total_bounds(r: Raster, c: Channel, x0: int, y: int, len: nat)
    ensures
        0 <= run_total(r, c, x0, y, len) <= 255 * len,
    decreases len,
{
    if len > 0 {
        lemma_run_total_bounds(r, c, x0, y, (len - 1) as nat);
    }
}

/// A block's total lies between 0 and 255 for each pixel.
pub proof fn lemma_block_total_bounds(r: Raster, c: Channel, x0: int, y0: int, w: nat, h: nat)
    ensures
        0 <= block_total(r, c, x0, y0, w, h) <= 255 * (w * h),
    decreases h,
{
    if h > 0 {
        lemma_block_total_bounds(r, c, x0, y0, w, (h - 1) as nat);
        lemma_run_total_bounds(r, c, x0, y0 + h - 1, w);
        assert(w * h == w * (h - 1) + w) by (nonlinear_arith);
    } else {
        assert(w * h == 0) by (nonlinear_arith)
            requires
                h == 0,
        ;
    }
}

/// The mean of a channel over a block that holds a pixel is a channel value.
pub proof fn lemma_block_mean_bounds(r: Raster, c: Channel, x0: int, y0: int, w: nat, h: nat)
    requires
        1 <= w,
        1 <= h,
    ensures
        0 <= block_mean(r, c, x0, y0, w, h) <= 255,
{
    lemma_block_total_bounds(r, c, x0, y0, w, h);
    let n: int = (w * h) as int;
    assert(1 <= n) by (nonlinear_arith)
        requires
            n == w * h,
            1 <= w,
            1 <= h,
    ;
    lemma_mean_is_channel(block_total(r, c, x0, y0, w, h), n);
}

/// The luminance of a colour is a level from 0 to 255.
pub proof fn lemma_luminance_bounds(red: int, green: int, blue: int)
    requires
        0 <= red <= 255,
        0 <= green <= 255,
        0 <= blue <= 255,
    ensures
        0 <= luminance(red, green, blue) <= 255,
{
}

/// The luminance of a block that holds a pixel is a level from 0 to 255.
pub proof fn lemma_block_level_bounds(r: Raster, x0: int, y0: int, w: nat, h: nat)
    requires
        1 <= w,
        1 <= h,
    ensures
        0 <= block_level(r, x0, y0, w, h) <= 255,
{
    lemma_block_mean_bounds(r, Channel::Red, x0, y0, w, h);
    lemma_block_mean_bounds(r, Channel::Green, x0, y0, w, h);
    lemma_block_mean_bounds(r, Channel::Blue, x0, y0, w, h);
}

/// The luminance of every cell of a grid is a level from 0 to 255.
pub proof fn lemma_cell_level_bounds(r: Raster, columns: nat, lines: nat, x: int, y: int)
    requires
        1 <= r.width,
        1 <= r.height,
        0 <= x < columns,
        0 <= y < lines,
    ensures
        0 <= cell_level(r, columns, lines, x, y) <= 255,
{
    lemma_cell_block_inside(r, columns, lines, x, y);
    lemma_block_level_bounds(
        r,
        block_start(x, r.width as int, columns as int),
        block_start(y, r.height as int, lines as int),
        block_width(r, columns, lines),
        block_height(r, columns, lines),
    );
}

/// A line of `columns` copies of the glyph `c`, ended by a line break.
pub open spec fn solid_line(c: char, columns: nat) -> Seq<char> {
    Seq::new(columns, |x: int| c).push('\n')
}

/// `count` lines of `columns` copies of the glyph `c`.
pub open spec fn solid_lines(c: char, columns: nat, count: nat) -> Seq<char>
    decreases count,
{
    if count == 0 {
        Seq::empty()
    } else {
        solid_lines(c, columns, (count - 1) as nat) + solid_line(c, columns)
    }
}

/// The first `count` lines take `columns + 1` characters each, and line `y`
/// among them stands at offset `y * (columns + 1)`.
proof fn lemma_art_lines_layout(
    r: Raster,
    columns: nat,
    lines: nat,
    table: Seq<u8>,
    count: nat,
    x: int,
    y: int,
)
    requires
        0 <= y < count,
        0 <= x <= columns,
    ensures
        art_lines(r, columns, lines, table, count).len() == count * (columns + 1),
        y * (columns + 1) + x < count * (columns + 1),
        art_lines(r, columns, lines, table, count)[y * (columns + 1) + x] == art_line(
            r,
            columns,
            lines,
            table,
            y,
        )[x],
    decreases count,
{
    let stride: int = (columns + 1) as int;
    let prefix = art_lines(r, columns, lines, table, (count - 1) as nat);
    lemma_art_lines_len(r, columns, lines, table, (count - 1) as nat);
    assert(count * stride == (count - 1) * stride + stride) by (nonlinear_arith);
    if y < count - 1 {
        lemma_art_lines_layout(r, columns, lines, table, (count - 1) as nat, x, y);
    } else {
        assert(y * stride == (count - 1) * stride);
    }
}

/// The first `count` lines take `columns + 1` characters each.
proof fn lemma_art_lines_len(r: Raster, columns: nat, lines: nat, table: Seq<u8>, count: nat)
    ensures
        art_lines(r, columns, lines, table, count).len() == count * (columns + 1),
    decreases count,
{
    if count > 0 {
        lemma_art_lines_len(r, columns, lines, table, (count - 1) as nat);
        assert(count * (columns + 1) == (count - 1) * (columns + 1) + (columns + 1))
            by (nonlinear_arith);
    } else {
        assert(count * (columns + 1) == 0) by (nonlinear_arith)
            requires
                count == 0,
        ;
    }
}

/// The grid is exactly `lines` lines of exactly `columns` glyphs: the text has
/// `lines * (columns + 1)` characters, the character of cell `(x, y)` stands at
/// offset `y * (columns + 1) + x` and is a glyph of the ramp, and a line break
/// follows the last cell of each line.
pub proof fn lemma_art_layout(r: Raster, columns: nat, lines: nat, table: Seq<u8>, x: int, y: int)
    requires
        0 <= y < lines,
        0 <= x <= columns,
    ensures
        art_text(r, columns, lines, table).len() == lines * (columns + 1),
        0 <= y * (columns + 1) + x < lines * (columns + 1),
        x < columns ==> art_text(r, columns, lines, table)[y * (columns + 1) + x] == cell_glyph(
            r,
            columns,
            lines,
            table,
            x,
            y,
        ),
        x < columns ==> crate::glyph::is_glyph(
            art_text(r, columns, lines, table)[y * (columns + 1) + x],
        ),
        x < columns ==> art_text(r, columns, lines, table)[y * (columns + 1) + x] != '\n',
        x == columns ==> art_text(r, columns, lines, table)[y * (columns + 1) + x] == '\n',
{
    lemma_art_lines_layout(r, columns, lines, table, lines, x, y);
    assert(0 <= y * (columns + 1)) by (nonlinear_arith)
        requires
            0 <= y,
            0 <= columns,
    ;
    if x < columns {
        crate::glyph::lemma_glyph_in_ramp(table[cell_level(r, columns, lines, x, y)]);
    }
}

/// The character of column `x` of line `y` in a text whose lines take
/// `columns + 1` characters each.
pub open spec fn char_at(text: Seq<char>, columns: nat, x: int, y: int) -> char {
    text[y * (columns + 1) + x]
}

/// Whether a text is a grid of `lines` lines of `columns` glyphs: it has
/// `lines * (columns + 1)` characters, of which the first `columns` of each line
/// are glyphs of the ramp and the last is a line break.
pub open spec fn is_grid_text(text: Seq<char>, columns: nat, lines: nat) -> bool {
    &&& text.len() == lines * (columns + 1)
    &&& forall|x: int, y: int|
        0 <= y < lines && 0 <= x < columns ==> crate::glyph::is_glyph(
            #[trigger] char_at(text, columns, x, y),
        )
    &&& forall|y: int| 0 <= y < lines ==> #[trigger] char_at(text, columns, columns as int, y) == '\n'
}

/// Whatever the image, the size of the grid and the tone table, the text is a
/// grid of exactly `lines` lines of exactly `columns` glyphs of the ramp.
pub proof fn lemma_art_is_grid(r: Raster, columns: nat, lines: nat, table: Seq<u8>)
    ensures
        is_grid_text(art_text(r, columns, lines, table), columns, lines),
        forall|x: int, y: int|
            0 <= y < lines && 0 <= x < columns ==> #[trigger] char_at(
                art_text(r, columns, lines, table),
                columns,
                x,
                y,
            ) == cell_glyph(r, columns, lines, table, x, y),
{
    let text = art_text(r, columns, lines, table);
    lemma_art_lines_len(r, columns, lines, table, lines);
    assert forall|x: int, y: int| 0 <= y < lines && 0 <= x < columns implies crate::glyph::is_glyph(
        #[trigger] char_at(text, columns, x, y),
    ) && char_at(text, columns, x, y) == cell_glyph(r, columns, lines, table, x, y) by {
        lemma_art_layout(r, columns, lines, table, x, y);
    }
    assert forall|y: int| 0 <= y < lines implies #[trigger] char_at(
        text,
        columns,
        columns as int,
        y,
    ) == '\n' by {
        lemma_art_layout(r, columns, lines, table, columns as int, y);
    }
}

/// A grid without lines is the empty text.
pub proof fn lemma_art_without_lines(r: Raster, columns: nat, table: Seq<u8>)
    ensures
        art_text(r, columns, 0, table) == Seq::<char>::empty(),
{
}

/// Over pixels of one colour, a run's total is that colour's channel times the
/// length of the run.
proof fn lemma_uniform_run(r: Raster, p: Rgb, c: Channel, x0: int, y: int, len: nat)
    requires
        is_uniform(r, p),
        0 <= x0,
        x0 + len <= r.width,
        0 <= y < r.height,
    ensures
        run_total(r, c, x0, y, len) == len * channel(p, c),
    decreases len,
{
    if len > 0 {
        lemma_uniform_run(r, p, c, x0, y, (len - 1) as nat);
        assert((r.pixel)(x0 + len - 1, y) == p);
        assert(len * channel(p, c) == (len - 1) * channel(p, c) + channel(p, c))
            by (nonlinear_arith);
    } else {
        assert(len * channel(p, c) == 0) by (nonlinear_arith)
            requires
                len == 0,
        ;
    }
}

/// Over pixels of one colour, a block's total is that colour's channel times
/// the number of pixels in the block.
proof fn lemma_uniform_block(r: Raster, p: Rgb, c: Channel, x0: int, y0: int, w: nat, h: nat)
    requires
        is_uniform(r, p),
        0 <= x0,
        x0 + w <= r.width,
        0 <= y0,
        y0 + h <= r.height,
    ensures
        block_total(r, c, x0, y0, w, h) == (w * h) * channel(p, c),
    decreases h,
{
    let v: int = channel(p, c);
    if h > 0 {
        lemma_uniform_block(r, p, c, x0, y0, w, (h - 1) as nat);
        lemma_uniform_run(r, p, c, x0, y0 + h - 1, w);
        assert((w * h) * v == (w * (h - 1)) * v + w * v) by (nonlinear_arith);
    } else {
        assert((w * h) * v == 0) by (nonlinear_arith)
            requires
                h == 0,
        ;
    }
}

/// Over pixels of one colour, the mean of a block that holds a pixel is that
/// colour.
proof fn lemma_uniform_mean(r: Raster, p: Rgb, c: Channel, x0: int, y0: int, w: nat, h: nat)
    requires
        is_uniform(r, p),
        0 <= x0,
        x0 + w <= r.width,
        0 <= y0,
        y0 + h <= r.height,
        1 <= w,
        1 <= h,
    ensures
        block_mean(r, c, x0, y0, w, h) == channel(p, c),
{
    lemma_uniform_block(r, p, c, x0, y0, w, h);
    let n: int = (w * h) as int;
    let v: int = channel(p, c);
    assert(1 <= n) by (nonlinear_arith)
        requires
            n == w * h,
            1 <= w,
            1 <= h,
    ;
    assert((n * v) / n == v) by (nonlinear_arith)
        requires
            1 <= n,
    ;
}

/// In an image of one colour every cell has the luminance of that colour,
/// whatever the size of the image and of the grid.
pub proof fn lemma_uniform_cell(r: Raster, p: Rgb, columns: nat, lines: nat, x: int, y: int)
    requires
        is_uniform(r, p),
        1 <= r.width,
        1 <= r.height,
        0 <= x < columns,
        0 <= y < lines,
    ensures
        cell_level(r, columns, lines, x, y) == luminance(p.r as int, p.g as int, p.b as int),
{
    lemma_cell_block_inside(r, columns, lines, x, y);
    let x0: int = block_start(x, r.width as int, columns as int);
    let y0: int = block_start(y, r.height as int, lines as int);
    let w: nat = block_width(r, columns, lines);
    let h: nat = block_height(r, columns, lines);
    lemma_uniform_mean(r, p, Channel::Red, x0, y0, w, h);
    lemma_uniform_mean(r, p, Channel::Green, x0, y0, w, h);
    lemma_uniform_mean(r, p, Channel::Blue, x0, y0, w, h);
}

/// The first `count` lines of the grid of an image of one colour repeat one
/// glyph.
proof fn lemma_uniform_lines(
    r: Raster,
    p: Rgb,
    columns: nat,
    lines: nat,
    table: Seq<u8>,
    count: nat,
)
    requires
        is_uniform(r, p),
        1 <= r.width,
        1 <= r.height,
        count <= lines,
    ensures
        art_lines(r, columns, lines, table, count) == solid_lines(
            glyph_of(table[luminance(p.r as int, p.g as int, p.b as int)]),
            columns,
            count,
        ),
    decreases count,
{
    if count > 0 {
        let c: char = glyph_of(table[luminance(p.r as int, p.g as int, p.b as int)]);
        lemma_uniform_lines(r, p, columns, lines, table, (count - 1) as nat);
        let y: int = count - 1;
        assert forall|x: int| 0 <= x < columns implies #[trigger] cell_glyph(
            r,
            columns,
            lines,
            table,
            x,
            y,
        ) == c by {
            lemma_uniform_cell(r, p, columns, lines, x, y);
        }
        assert(art_line(r, columns, lines, table, y) =~= solid_line(c, columns));
    }
}

/// The grid of an image of one colour repeats one glyph: that of the colour's
/// luminance, adjusted by the tone table.
pub proof fn lemma_uniform_art(r: Raster, p: Rgb, columns: nat, lines: nat, table: Seq<u8>)
    requires
        is_uniform(r, p),
        1 <= r.width,
        1 <= r.height,
    ensures
        art_text(r, columns, lines, table) == solid_lines(
            glyph_of(table[luminance(p.r as int, p.g as int, p.b as int)]),
            columns,
            lines,
        ),
{
    lemma_uniform_lines(r, p, columns, lines, table, lines);
}

/// A black image of any size gives a grid of `#` only, at any size of the grid
/// and under any tone curve.
pub proof fn lemma_black_art(r: Raster, columns: nat, lines: nat, table: Seq<u8>)
    requires
        is_uniform(r, Rgb { r: 0, g: 0, b: 0 }),
        1 <= r.width,
        1 <= r.height,
        crate::tone::is_tone_table(table),
    ensures
        art_text(r, columns, lines, table) == solid_lines('#', columns, lines),
{
    lemma_uniform_art(r, Rgb { r: 0, g: 0, b: 0 }, columns, lines, table);
    assert(luminance(0, 0, 0) == 0);
    assert(crate::glyph::ramp()[0] == '#');
}

/// A white image of any size gives a grid of `.` only, at any size of the grid
/// and under any tone curve.
pub proof fn lemma_white_art(r: Raster, columns: nat, lines: nat, table: Seq<u8>)
    requires
        is_uniform(r, Rgb { r: 255, g: 255, b: 255 }),
        1 <= r.width,
        1 <= r.height,
        crate::tone::is_tone_table(table),
    ensures
        art_text(r, columns, lines, table) == solid_lines('.', columns, lines),
{
    lemma_uniform_art(r, Rgb { r: 255, g: 255, b: 255 }, columns, lines, table);
    assert(luminance(255, 255, 255) == 255);
    assert(crate::glyph::ramp()[7] == '.');
}

/// A grid of one cell is one glyph and a line break: the glyph of the luminance
/// of the mean colour of the whole image.
pub proof fn lemma_single_cell_art(r: Raster, table: Seq<u8>)
    requires
        1 <= r.width,
        1 <= r.height,
    ensures
        art_text(r, 1, 1, table) == seq![
            glyph_of(table[block_level(r, 0, 0, r.width, r.height)]),
            '\n',
        ],
{
    lemma_single_block(r);
    assert(cell_level(r, 1, 1, 0, 0) == block_level(r, 0, 0, r.width, r.height));
    assert(art_lines(r, 1, 1, table, 0) =~= Seq::<char>::empty());
    assert(art_text(r, 1, 1, table) =~= art_line(r, 1, 1, table, 0)) by {
        reveal_with_fuel(art_lines, 2);
    }
    assert(art_line(r, 1, 1, table, 0) =~= seq![
        glyph_of(table[block_level(r, 0, 0, r.width, r.height)]),
        '\n',
    ]);
}

/// Of two images drawn on the same grid under the same tone curve, the one
/// whose cell measures at least the luminance of the other's gets, in that
/// cell, a glyph that stands no earlier in the ramp.
pub proof fn lemma_cell_glyph_monotone(
    darker: Raster,
    brighter: Raster,
    columns: nat,
    lines: nat,
    table: Seq<u8>,
    x: int,
    y: int,
)
    requires
        crate::tone::is_tone_table(table),
        1 <= darker.width,
        1 <= darker.height,
        1 <= brighter.width,
        1 <= brighter.height,
        0 <= x < columns,
        0 <= y < lines,
        cell_level(darker, columns, lines, x, y) <= cell_level(brighter, columns, lines, x, y),
    ensures
        crate::glyph::glyph_index(table[cell_level(darker, columns, lines, x, y)])
            <= crate::glyph::glyph_index(table[cell_level(brighter, columns, lines, x, y)]),
{
    lemma_cell_level_bounds(darker, columns, lines, x, y);
    lemma_cell_level_bounds(brighter, columns, lines, x, y);
}

/// The luminance of a cell grows with the means of its block: of two colours,
/// the one that is at least as bright in every channel has at least the
/// luminance of the other.
pub proof fn lemma_luminance_monotone(
    red: int,
    green: int,
    blue: int,
    red2: int,
    green2: int,
    blue2: int,
)
    requires
        red <= red2,
        green <= green2,
        blue <= blue2,
    ensures
        luminance(red, green, blue) <= luminance(red2, green2, blue2),
{
}

} // verus!
