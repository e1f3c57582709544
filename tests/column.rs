use dna_rain::column::{trail_length_for, Cell, Column};

fn letters(s: &str) -> Vec<char> {
    s.chars().collect()
}

#[test]
fn trail_is_a_third_of_height() {
    assert_eq!(trail_length_for(15), 5);
    assert_eq!(trail_length_for(30), 10);
    assert_eq!(trail_length_for(31), 10);
    assert_eq!(trail_length_for(65535), 21845);
}

#[test]
fn trail_is_at_least_four() {
    assert_eq!(trail_length_for(0), 4);
    assert_eq!(trail_length_for(1), 4);
    assert_eq!(trail_length_for(11), 4);
    assert_eq!(trail_length_for(12), 4);
    assert_eq!(trail_length_for(14), 4);
}

#[test]
fn new_column_starts_above_screen() {
    for _ in 0..50 {
        let c = Column::new(6, 30);
        assert_eq!(c.x, 6);
        assert_eq!(c.trail_len, 10);
        assert!(-10 <= c.y && c.y < 0);
        assert_eq!(c.speed, 1);
        assert_eq!(c.characters.len(), 30);
        assert!(c.characters.iter().all(|ch| "ATCGU".contains(*ch)));
    }
}

#[test]
fn new_column_on_short_screen() {
    let c = Column::new(0, 5);
    assert_eq!(c.trail_len, 4);
    assert!(-4 <= c.y && c.y < 0);
    assert_eq!(c.characters.len(), 5);
    let empty = Column::new(2, 0);
    assert_eq!(empty.trail_len, 4);
    assert!(empty.characters.is_empty());
}

#[test]
fn draw_head_entering_screen() {
    let c = Column { x: 2, y: 2, speed: 1, trail_len: 4, characters: letters("ATCGAT") };
    let cells = c.draw(6);
    assert_eq!(
        cells,
        vec![
            Cell { x: 2, row: 2, ch: 'C', color: Some((255, 255, 255)) },
            Cell { x: 2, row: 1, ch: 'T', color: Some((150, 0, 0)) },
            Cell { x: 2, row: 0, ch: 'A', color: Some((0, 100, 0)) },
        ]
    );
}

#[test]
fn draw_tail_leaving_screen_erases_beyond_trail() {
    let c = Column { x: 4, y: 7, speed: 1, trail_len: 4, characters: letters("ATCGAT") };
    let cells = c.draw(6);
    assert_eq!(
        cells,
        vec![
            Cell { x: 4, row: 5, ch: 'T', color: Some((100, 0, 0)) },
            Cell { x: 4, row: 4, ch: 'A', color: Some((0, 50, 0)) },
            Cell { x: 4, row: 3, ch: 'G', color: Some((0, 0, 0)) },
            Cell { x: 4, row: 2, ch: ' ', color: None },
        ]
    );
}

#[test]
fn draw_fully_visible_trail() {
    let c = Column { x: 0, y: 5, speed: 1, trail_len: 4, characters: letters("GGGGGGGG") };
    let cells = c.draw(8);
    let rows: Vec<u16> = cells.iter().map(|c| c.row).collect();
    assert_eq!(rows, vec![5, 4, 3, 2, 1, 0]);
    assert_eq!(cells[0].color, Some((255, 255, 255)));
    assert_eq!(cells[1].color, Some((165, 165, 0)));
    assert_eq!(cells[5], Cell { x: 0, row: 0, ch: ' ', color: None });
}

#[test]
fn draw_above_screen_paints_nothing() {
    let c = Column { x: 0, y: -1, speed: 1, trail_len: 4, characters: letters("ATCG") };
    assert!(c.draw(4).is_empty());
}

#[test]
fn draw_rows_stay_on_screen() {
    for y in -6..20 {
        let c = Column { x: 8, y, speed: 1, trail_len: 4, characters: letters("ATCGATCGAT") };
        for cell in c.draw(10) {
            assert!(cell.row < 10);
            assert_eq!(cell.x, 8);
            if cell.row as i32 == y {
                assert_eq!(cell.color, Some((255, 255, 255)));
            }
        }
    }
}

#[test]
fn update_moves_head_down() {
    let mut c = Column { x: 0, y: 3, speed: 1, trail_len: 4, characters: letters("UUUUUU") };
    c.update(6);
    assert_eq!(c.y, 4);
    assert_eq!(c.characters, letters("UUUUUU"));
}

#[test]
fn update_keeps_column_while_tail_on_screen() {
    // 10 - 4 == 6 is not past a screen 6 rows tall
    let mut c = Column { x: 0, y: 9, speed: 1, trail_len: 4, characters: letters("UUUUUU") };
    c.update(6);
    assert_eq!(c.y, 10);
    assert_eq!(c.characters, letters("UUUUUU"));
}

#[test]
fn update_restarts_column_past_bottom() {
    for _ in 0..50 {
        let mut c =
            Column { x: 2, y: 10, speed: 1, trail_len: 4, characters: letters("UUUUUU") };
        c.update(6);
        assert!(-4 <= c.y && c.y < 0);
        assert_eq!(c.characters.len(), 6);
        assert!(c.characters.iter().all(|ch| "ATCG".contains(*ch)));
        assert_eq!((c.x, c.speed, c.trail_len), (2, 1, 4));
    }
}

#[test]
fn initial_letters_use_whole_alphabet() {
    let mut seen = String::new();
    let mut starts = Vec::new();
    for x in 0..40 {
        let c = Column::new(x, 40);
        starts.push(c.y);
        for ch in c.characters {
            if !seen.contains(ch) {
                seen.push(ch);
            }
        }
    }
    for ch in ['A', 'T', 'C', 'G', 'U'] {
        assert!(seen.contains(ch));
    }
    assert!(starts.iter().any(|y| *y != starts[0]));
}
