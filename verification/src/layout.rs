//! What the live preview draws: where each glyph of the text goes on the canvas,
//! and the labels of the options panel with the mark of the field in focus.
//!
//! Both canvases count `x` from 0 at the left and `y` from 0 at the bottom. The
//! upper bound of `y` is twice the height of the canvas's area less four.

use vstd::prelude::*;
use vstd::utf8::{encode_scalar, encode_utf8};
use crate::sampling::{char_at, is_grid_text};
use crate::session::{Focus, Session, SessionState};
use crate::text::{decimal, decimal_tenths, push_decimal, push_tenths, push_word};

verus! {

/// A glyph at its place on the canvas.
#[derive(Clone, Copy, Debug, PartialEq, Eq)]
pub struct Cell {
    pub x: i128,
    pub y: i128,
    pub glyph: char,
}

/// A glyph at its place, as a mathematical value.
pub struct Placement {
    pub x: int,
    pub y: int,
    pub glyph: char,
}

impl View for Cell {
    type V = Placement;

    open spec fn view(&self) -> Placement {
        Placement { x: self.x as int, y: self.y as int, glyph: self.glyph }
    }
}

/// A line of text of the options panel at its place on the canvas.
#[derive(Debug, PartialEq, Eq)]
pub struct Label {
    pub x: i128,
    pub y: i128,
    pub text: String,
}

/// A label as a mathematical value.
pub struct Caption {
    pub x: int,
    pub y: int,
    pub text: Seq<char>,
}

impl View for Label {
    type V = Caption;

    open spec fn view(&self) -> Caption {
        Caption { x: self.x as int, y: self.y as int, text: self.text@ }
    }
}

/// Upper bound of `y` on a canvas whose area is `area_height` rows high.
pub open spec fn top_of(area_height: int) -> int {
    2 * area_height - 4
}

/// Upper bound of `y` on a canvas whose area is `area_height` rows high: twice
/// the height, less four.
pub fn canvas_top(area_height: u16) -> (top: i32)
    ensures
        top == top_of(area_height as int),
{
    2 * (area_height as i32) - 4
}

/// Number of line breaks in `s`.
pub open spec fn breaks_in(s: Seq<char>) -> nat
    decreases s.len(),
{
    if s.len() == 0 {
        0
    } else if s.last() == '\n' {
        breaks_in(s.drop_last()) + 1
    } else {
        breaks_in(s.drop_last())
    }
}

/// Number of characters of `s` after its last line break.
pub open spec fn tail_len(s: Seq<char>) -> nat
    decreases s.len(),
{
    if s.len() == 0 {
        0
    } else if s.last() == '\n' {
        0
    } else {
        tail_len(s.drop_last()) + 1
    }
}

/// The glyphs of a text at their places. The first line is drawn at `top - 2`
/// and each further line one below; in a line the first glyph stands at `x = 1`
/// and each further glyph one to the right. Line breaks are not drawn.
pub open spec fn placements(s: Seq<char>, top: int) -> Seq<Placement>
    decreases s.len(),
{
    if s.len() == 0 {
        Seq::empty()
    } else if s.last() == '\n' {
        placements(s.drop_last(), top)
    } else {
        placements(s.drop_last(), top).push(
            Placement {
                x: 1 + tail_len(s.drop_last()) as int,
                y: top - 2 - breaks_in(s.drop_last()),
                glyph: s.last(),
            },
        )
    }
}

/// The views of a sequence of cells.
pub open spec fn views_of(cells: Seq<Cell>) -> Seq<Placement> {
    Seq::new(cells.len(), |i: int| cells[i]@)
}

/// A text has no more characters than its encoding has bytes.
proof fn lemma_chars_within_bytes(s: Seq<char>)
    ensures
        s.len() <= encode_utf8(s).len(),
    decreases s.len(),
{
    if s.len() > 0 {
        lemma_chars_within_bytes(s.drop_first());
        assert(encode_scalar(s[0] as u32).len() >= 1);
    }
}

/// Line breaks and the characters after the last one are characters of the
/// text.
proof fn lemma_counts_within_len(s: Seq<char>)
    ensures
        breaks_in(s) + tail_len(s) <= s.len(),
    decreases s.len(),
{
    if s.len() > 0 {
        lemma_counts_within_len(s.drop_last());
    }
}

/// Number of characters in `q` lines of `columns` glyphs and `r` more
/// characters.
spec fn reach(columns: nat, q: nat, r: nat) -> int {
    (q * (columns + 1) + r) as int
}

/// The first `q` lines and `r` more characters of a grid text: that many line
/// breaks, `r` characters after the last of them, and one placement for each
/// glyph, the glyph of column `x` in line `y` at `(1 + x, top - 2 - y)`.
proof fn lemma_grid_prefix(
    text: Seq<char>,
    columns: nat,
    lines: nat,
    top: int,
    q: nat,
    r: nat,
    x: int,
    y: int,
)
    requires
        is_grid_text(text, columns, lines),
        r <= columns,
        q < lines || (q == lines && r == 0),
        0 <= x < columns,
        0 <= y,
    ensures
        q * (columns + 1) + r <= text.len(),
        breaks_in(text.take(reach(columns, q, r))) == q,
        tail_len(text.take(reach(columns, q, r))) == r,
        placements(text.take(reach(columns, q, r)), top).len() == q * columns + r,
        y < q || (y == q && x < r) ==> 0 <= y * columns + x < q * columns + r && placements(
            text.take(reach(columns, q, r)),
            top,
        )[y * columns + x] == (Placement {
            x: 1 + x,
            y: top - 2 - y,
            glyph: char_at(text, columns, x, y),
        }),
    decreases q, r,
{
    let stride: int = (columns + 1) as int;
    let n: int = reach(columns, q, r);
    assert(n == q * stride + r);
    assert(text.len() == lines * stride);
    assert(0 <= q * stride && 0 <= q * columns && 0 <= y * columns) by (nonlinear_arith)
        requires
            0 <= q,
            0 <= y,
            0 < stride,
            0 <= columns,
    ;
    assert(q * stride + r <= lines * stride) by (nonlinear_arith)
        requires
            (q < lines && r < stride) || (q == lines && r == 0),
            0 <= q,
            0 < stride,
    ;
    if y < q {
        assert(y * columns + x < q * columns) by (nonlinear_arith)
            requires
                0 <= y < q,
                0 <= x < columns,
        ;
    }
    let prefix = text.take(n);
    if r > 0 {
        lemma_grid_prefix(text, columns, lines, top, q, (r - 1) as nat, x, y);
        assert(reach(columns, q, (r - 1) as nat) == n - 1);
        let c: char = char_at(text, columns, r - 1, q as int);
        assert(c == text[n - 1]);
        assert(prefix.drop_last() =~= text.take(n - 1));
        assert(prefix.last() == c);
        crate::glyph::lemma_glyph_is_no_break(c);
    } else if q > 0 {
        lemma_grid_prefix(text, columns, lines, top, (q - 1) as nat, columns, x, y);
        assert((q - 1) * stride + columns == q * stride - 1) by (nonlinear_arith)
            requires
                stride == columns + 1,
        ;
        assert(reach(columns, (q - 1) as nat, columns) == n - 1);
        assert((q - 1) * columns + columns == q * columns) by (nonlinear_arith);
        let c: char = char_at(text, columns, columns as int, q - 1);
        assert(c == text[n - 1]);
        assert(prefix.drop_last() =~= text.take(n - 1));
        assert(prefix.last() == c);
    } else {
        assert(q * stride == 0) by (nonlinear_arith)
            requires
                q == 0,
        ;
        assert(q * columns == 0) by (nonlinear_arith)
            requires
                q == 0,
        ;
        assert(prefix =~= Seq::<char>::empty());
    }
}

/// Of a grid of `lines` lines of `columns` glyphs every glyph is placed, line
/// by line: there are `lines * columns` placements, and the glyph of column `x`
/// in line `y` is the one at index `y * columns + x`, at `(1 + x, top - 2 - y)`.
pub proof fn lemma_grid_placements(
    text: Seq<char>,
    columns: nat,
    lines: nat,
    top: int,
    x: int,
    y: int,
)
    requires
        is_grid_text(text, columns, lines),
        0 <= x < columns,
        0 <= y < lines,
    ensures
        placements(text, top).len() == lines * columns,
        0 <= y * columns + x < lines * columns,
        placements(text, top)[y * columns + x] == (Placement {
            x: 1 + x,
            y: top - 2 - y,
            glyph: char_at(text, columns, x, y),
        }),
{
    lemma_grid_prefix(text, columns, lines, top, lines, 0, x, y);
    assert(text.take(reach(columns, lines, 0)) =~= text);
}

/// Adds a cell after the others.
fn place(cells: &mut Vec<Cell>, cell: Cell)
    ensures
        views_of(final(cells)@) == views_of(old(cells)@).push(cell@),
{
    cells.push(cell);
    assert(views_of(cells@) =~= views_of(old(cells)@).push(cell@));
}

/// Where each glyph of `text` goes on a canvas whose upper bound of `y` is
/// `top`, in the order of the text.
pub fn text_cells(text: &str, top: i32) -> (cells: Vec<Cell>)
    ensures
        views_of(cells@) == placements(text@, top as int),
{
    proof {
        lemma_chars_within_bytes(text@);
    }
    // No text has more characters than bytes, and the bytes are counted in a
    // `usize`: the counters below stay within it.
    if text.as_bytes().len() == 0 {
        return Vec::new();
    }
    let mut cells: Vec<Cell> = Vec::new();
    let mut column: usize = 0;
    let mut line: usize = 0;
    let mut chars = text.chars();
    let ghost mut seen: int = 0;
    proof {
        broadcast use vstd::string::group_string_axioms;

        assert(text@.take(0) =~= Seq::<char>::empty());
        assert(text@.skip(0) =~= text@);
        assert(views_of(cells@) =~= placements(text@.take(0), top as int));
    }
    loop
        invariant
            0 <= seen <= text@.len(),
            text@.len() <= usize::MAX,
            vstd::std_specs::iter::IteratorSpec::remaining(&chars) == text@.skip(seen),
            vstd::std_specs::iter::IteratorSpec::decrease(&chars) is Some,
            column == tail_len(text@.take(seen)),
            line == breaks_in(text@.take(seen)),
            views_of(cells@) == placements(text@.take(seen), top as int),
        ensures
            views_of(cells@) == placements(text@, top as int),
        decreases vstd::std_specs::iter::IteratorSpec::decrease(&chars)->0,
    {
        broadcast use vstd::string::group_string_axioms;

        let ghost before = text@.take(seen);
        let next: Option<char> = chars.next();
        match next {
            None => {
                assert(text@.take(seen) =~= text@);
                break ;
            },
            Some(c) => {
                proof {
                    lemma_counts_within_len(before);
                    assert(text@.take(seen + 1).drop_last() =~= before);
                    assert(text@.take(seen + 1).last() == c);
                    assert(text@.skip(seen).drop_first() =~= text@.skip(seen + 1));
                }
                if c == '\n' {
                    column = 0;
                    line = line + 1;
                } else {
                    let cell = Cell {
                        x: 1 + column as i128,
                        y: top as i128 - 2 - line as i128,
                        glyph: c,
                    };
                    place(&mut cells, cell);
                    column = column + 1;
                }
                proof {
                    seen = seen + 1;
                }
            },
        }
    }
    cells
}

/// The mark that follows the label of the field in focus.
pub open spec fn mark(focused: bool) -> Seq<char> {
    if focused {
        seq!['<']
    } else {
        Seq::empty()
    }
}

/// Text of the width's label: `Width: 80 <` with the focus on it, `Width: 80 `
/// without.
pub open spec fn width_caption(s: SessionState) -> Seq<char> {
    seq!['W', 'i', 'd', 't', 'h', ':', ' '] + decimal(s.width) + seq![' '] + mark(
        s.focus == Focus::Width,
    )
}

/// Text of the height's label.
pub open spec fn height_caption(s: SessionState) -> Seq<char> {
    seq!['H', 'e', 'i', 'g', 'h', 't', ':', ' '] + decimal(s.height) + seq![' '] + mark(
        s.focus == Focus::Height,
    )
}

/// Text of the gamma's label, the gamma written with its tenths after a point
/// where it has any.
pub open spec fn gamma_caption(s: SessionState) -> Seq<char> {
    seq!['G', 'a', 'm', 'm', 'a', ':', ' '] + decimal_tenths(s.gamma_tenths) + seq![' ']
        + mark(s.focus == Focus::Gamma)
}

/// Text of the label of the confirm field.
pub open spec fn confirm_caption(s: SessionState) -> Seq<char> {
    seq!['C', 'o', 'n', 'f', 'i', 'r', 'm', ' '] + mark(s.focus == Focus::Confirm)
}

/// The four labels of the options panel on a canvas whose upper bound of `y` is
/// `top`: width, height and gamma from the top down, at `top - 4`, `top - 6` and
/// `top - 8`, and the confirm field at the bottom, all at `x = 2`.
pub open spec fn panel(s: SessionState, top: int) -> Seq<Caption> {
    seq![
        Caption { x: 2, y: top - 4, text: width_caption(s) },
        Caption { x: 2, y: top - 6, text: height_caption(s) },
        Caption { x: 2, y: top - 8, text: gamma_caption(s) },
        Caption { x: 2, y: 1, text: confirm_caption(s) },
    ]
}

/// The views of a sequence of labels.
pub open spec fn captions_of(labels: Seq<Label>) -> Seq<Caption> {
    Seq::new(labels.len(), |i: int| labels[i]@)
}

/// Appends a space and, for the field in focus, the mark.
fn push_mark(text: &mut String, focused: bool)
    ensures
        final(text)@ == old(text)@ + seq![' '] + mark(focused),
{
    text.push(' ');
    if focused {
        text.push('<');
    }
    assert(text@ =~= old(text)@ + seq![' '] + mark(focused));
}

/// The label of the width.
fn width_text(session: &Session) -> (text: String)
    ensures
        text@ == width_caption(session@),
{
    let mut text: String = String::new();
    push_word(&mut text, "Width: ");
    proof {
        reveal_strlit("Width: ");
        assert("Width: "@ =~= seq!['W', 'i', 'd', 't', 'h', ':', ' ']);
    }
    push_decimal(&mut text, session.width());
    push_mark(&mut text, session.focus() == Focus::Width);
    assert(text@ =~= width_caption(session@));
    text
}

/// The label of the height.
fn height_text(session: &Session) -> (text: String)
    ensures
        text@ == height_caption(session@),
{
    let mut text: String = String::new();
    push_word(&mut text, "Height: ");
    proof {
        reveal_strlit("Height: ");
        assert("Height: "@ =~= seq!['H', 'e', 'i', 'g', 'h', 't', ':', ' ']);
    }
    push_decimal(&mut text, session.height());
    push_mark(&mut text, session.focus() == Focus::Height);
    assert(text@ =~= height_caption(session@));
    text
}

/// The label of the gamma.
fn gamma_text(session: &Session) -> (text: String)
    ensures
        text@ == gamma_caption(session@),
{
    let mut text: String = String::new();
    push_word(&mut text, "Gamma: ");
    proof {
        reveal_strlit("Gamma: ");
        assert("Gamma: "@ =~= seq!['G', 'a', 'm', 'm', 'a', ':', ' ']);
    }
    push_tenths(&mut text, session.gamma_tenths());
    push_mark(&mut text, session.focus() == Focus::Gamma);
    assert(text@ =~= gamma_caption(session@));
    text
}

/// The label of the confirm field.
fn confirm_text(session: &Session) -> (text: String)
    ensures
        text@ == confirm_caption(session@),
{
    let mut text: String = String::new();
    push_word(&mut text, "Confirm");
    proof {
        reveal_strlit("Confirm");
        assert("Confirm"@ =~= seq!['C', 'o', 'n', 'f', 'i', 'r', 'm']);
    }
    push_mark(&mut text, session.focus() == Focus::Confirm);
    assert(text@ =~= confirm_caption(session@));
    text
}

/// The labels of the options panel on a canvas whose upper bound of `y` is
/// `top`: the three values and the confirm field, the one in focus marked.
pub fn panel_labels(session: &Session, top: i32) -> (labels: Vec<Label>)
    ensures
        captions_of(labels@) == panel(session@, top as int),
{
    let mut labels: Vec<Label> = Vec::new();
    labels.push(Label { x: 2, y: top as i128 - 4, text: width_text(session) });
    labels.push(Label { x: 2, y: top as i128 - 6, text: height_text(session) });
    labels.push(Label { x: 2, y: top as i128 - 8, text: gamma_text(session) });
    labels.push(Label { x: 2, y: 1, text: confirm_text(session) });
    assert(captions_of(labels@) =~= panel(session@, top as int));
    labels
}

} // verus!
