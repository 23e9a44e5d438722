use ascii_art::layout::{canvas_top, panel_labels, text_cells, Cell, Label};
use ascii_art::session::{Key, Session};

fn label(x: i128, y: i128, text: &str) -> Label {
    Label { x, y, text: text.to_string() }
}

#[test]
fn top_is_twice_the_height_less_four() {
    assert_eq!(canvas_top(0), -4);
    assert_eq!(canvas_top(2), 0);
    assert_eq!(canvas_top(30), 56);
    assert_eq!(canvas_top(u16::MAX), 131066);
}

#[test]
fn glyphs_are_placed_line_by_line() {
    let cells = text_cells("ab\ncd\n", 10);
    assert_eq!(
        cells,
        vec![
            Cell { x: 1, y: 8, glyph: 'a' },
            Cell { x: 2, y: 8, glyph: 'b' },
            Cell { x: 1, y: 7, glyph: 'c' },
            Cell { x: 2, y: 7, glyph: 'd' },
        ]
    );
}

#[test]
fn empty_lines_move_down_without_cells() {
    let cells = text_cells("\n\n#\n", 0);
    assert_eq!(cells, vec![Cell { x: 1, y: -4, glyph: '#' }]);
    assert_eq!(text_cells("", 5), vec![]);
    assert_eq!(text_cells("\n\n", 5), vec![]);
}

#[test]
fn text_without_final_break_is_placed_too() {
    let cells = text_cells("#@\n8", -4);
    assert_eq!(
        cells,
        vec![
            Cell { x: 1, y: -6, glyph: '#' },
            Cell { x: 2, y: -6, glyph: '@' },
            Cell { x: 1, y: -7, glyph: '8' },
        ]
    );
}

#[test]
fn wide_characters_count_as_one_cell() {
    let cells = text_cells("é*", 3);
    assert_eq!(
        cells,
        vec![Cell { x: 1, y: 1, glyph: 'é' }, Cell { x: 2, y: 1, glyph: '*' }]
    );
}

#[test]
fn panel_marks_the_width_at_the_start() {
    let session = Session::new();
    let labels = panel_labels(&session, canvas_top(20));
    assert_eq!(
        labels,
        vec![
            label(2, 32, "Width: 80 <"),
            label(2, 30, "Height: 50 "),
            label(2, 28, "Gamma: 1 "),
            label(2, 1, "Confirm "),
        ]
    );
}

#[test]
fn panel_mark_follows_the_focus() {
    let mut session = Session::new();
    session.handle_key(Key::Down);
    let texts: Vec<String> = panel_labels(&session, 0).into_iter().map(|l| l.text).collect();
    assert_eq!(texts, vec!["Width: 80 ", "Height: 50 <", "Gamma: 1 ", "Confirm "]);
    session.handle_key(Key::Down);
    let texts: Vec<String> = panel_labels(&session, 0).into_iter().map(|l| l.text).collect();
    assert_eq!(texts, vec!["Width: 80 ", "Height: 50 ", "Gamma: 1 <", "Confirm "]);
    session.handle_key(Key::Down);
    let texts: Vec<String> = panel_labels(&session, 0).into_iter().map(|l| l.text).collect();
    assert_eq!(texts, vec!["Width: 80 ", "Height: 50 ", "Gamma: 1 ", "Confirm <"]);
}

#[test]
fn panel_shows_the_edited_values() {
    let mut session = Session::new();
    for _ in 0..25 {
        session.handle_key(Key::Right);
    }
    session.handle_key(Key::Down);
    for _ in 0..41 {
        session.handle_key(Key::Left);
    }
    session.handle_key(Key::Down);
    for _ in 0..3 {
        session.handle_key(Key::Right);
    }
    let labels = panel_labels(&session, -4);
    assert_eq!(
        labels,
        vec![
            label(2, -8, "Width: 105 "),
            label(2, -10, "Height: 9 "),
            label(2, -12, "Gamma: 1.3 <"),
            label(2, 1, "Confirm "),
        ]
    );
    for _ in 0..12 {
        session.handle_key(Key::Left);
    }
    assert_eq!(panel_labels(&session, -4)[2].text, "Gamma: 0.1 <");
    for _ in 0..19 {
        session.handle_key(Key::Right);
    }
    assert_eq!(panel_labels(&session, -4)[2].text, "Gamma: 2 <");
}

#[test]
fn a_grid_is_placed_cell_by_cell() {
    let text = "#@8\n&o:\n";
    let cells = text_cells(text, 20);
    assert_eq!(cells.len(), 6);
    let rows: Vec<&str> = text.split_terminator('\n').collect();
    for y in 0..2usize {
        for x in 0..3usize {
            let cell = cells[y * 3 + x];
            assert_eq!(cell.x, 1 + x as i128);
            assert_eq!(cell.y, 18 - y as i128);
            assert_eq!(cell.glyph, rows[y].chars().nth(x).unwrap());
        }
    }
}
