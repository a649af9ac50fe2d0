use rusted::dialog::dialog_rect;
use rusted::{
    write_console, Attribute, CharInfo, Coord, Rusted, RustedChoice, RustedMessage, Window,
    BOX_BOTLEFT_DOUBLE, BOX_BOTRIGHT_DOUBLE, BOX_HORIZONTAL_DOUBLE, BOX_TOPLEFT_DOUBLE,
    BOX_TOPRIGHT_DOUBLE, BOX_VERTICAL_DOUBLE, DOUBLE_RIGHT_ARROW,
};

fn at(rusted: &Rusted, column: usize, row: usize) -> CharInfo {
    rusted.console.buffer[column + row * rusted.console.size.0 as usize]
}

fn scribbled() -> Rusted {
    let mut rusted = Rusted::new();
    let text: String = (0..2000u32).map(|i| (b'a' + (i % 26) as u8) as char).collect();
    write_console(&mut rusted.console, &text);
    rusted
}

#[test]
fn window_remembers_its_place_and_size() {
    let window = Window::new(1, 2, 3, 4);
    assert_eq!(window.position(), (1, 2));
    assert_eq!(window.buffer_size(), (3, 4));
    assert_eq!(window.buffer_count(), 12);
    assert_eq!(window.buffer.len(), 12);
    assert_eq!(window.data, [1, 2, 3, 4]);
    assert!(window.buffer.iter().all(|cell| *cell == CharInfo::default()));
}

#[test]
fn new_rusted_is_80_by_25() {
    let rusted = Rusted::default();
    assert_eq!(rusted.console.size, Coord(80, 25));
    assert_eq!(rusted.console.buffer.len(), 2000);
    assert_eq!(rusted.console.attribute, Attribute(0x0007));
    assert_eq!(rusted.foreground_color, 7);
    assert_eq!(rusted.background_color, 0);
}

#[test]
fn screens_resize_and_clear() {
    let mut rusted = scribbled();
    rusted.screen80x50();
    assert_eq!(rusted.console.size, Coord(80, 50));
    assert_eq!(rusted.console.buffer.len(), 4000);
    assert!(rusted.console.buffer.iter().all(|cell| *cell == CharInfo::default()));
    rusted.screen80x25();
    assert_eq!(rusted.console.size, Coord(80, 25));
    assert_eq!(rusted.console.buffer.len(), 2000);
}

#[test]
fn colours_become_attribute_bits() {
    let mut rusted = Rusted::new();
    rusted.set_bgcolor(4);
    assert_eq!(rusted.console.attribute, Attribute(0x0047));
    rusted.set_fgcolor(1 | 8);
    assert_eq!(rusted.console.attribute, Attribute(0x0049));
    rusted.set_bgcolor(0xfff3);
    assert_eq!(rusted.background_color, 0x0030);
    assert_eq!(rusted.console.attribute, Attribute(0x0039));
    rusted.set_fgcolor(0x0010);
    assert_eq!(rusted.foreground_color, 0);
    for color in 0..16u16 {
        rusted.set_fgcolor(color);
        rusted.set_bgcolor(15 - color);
        assert_eq!(rusted.console.attribute, Attribute(color | ((15 - color) << 4)));
    }
}

#[test]
fn cls_clears_every_cell() {
    let mut rusted = scribbled();
    rusted.set_bgcolor(1);
    rusted.set_xy(5, 5);
    rusted.cls();
    assert!(rusted.console.buffer.iter().all(|cell| *cell == CharInfo(' ', Attribute(0x0017))));
    assert_eq!(rusted.console.cursor, Coord(0, 0));
    assert_eq!(rusted.console.buffer.len(), 2000);
}

#[test]
fn outchar_and_outchars_write_at_a_place() {
    let mut rusted = Rusted::new();
    rusted.set_xy(3, 4);
    assert_eq!(rusted.console.cursor, Coord(3, 4));
    rusted.outchar(79, 0, 'x');
    assert_eq!(at(&rusted, 79, 0), CharInfo('x', Attribute(7)));
    assert_eq!(rusted.console.cursor, Coord(0, 1));
    rusted.outchars(2, 3, "hey");
    assert_eq!(at(&rusted, 2, 3).0, 'h');
    assert_eq!(at(&rusted, 4, 3).0, 'y');
    assert_eq!(rusted.console.cursor, Coord(5, 3));
    rusted.outchar(0, 2, '\n');
    assert_eq!(at(&rusted, 0, 2), CharInfo::default());
    assert_eq!(rusted.console.cursor, Coord(0, 3));
    let before = rusted.console.buffer.clone();
    rusted.outchar(-1, 0, 'n');
    assert_eq!(rusted.console.buffer, before);
    assert_eq!(rusted.console.cursor, Coord(65535, 0));
}

#[test]
fn open_window_saves_fills_and_frames() {
    let mut rusted = scribbled();
    let before = rusted.console.buffer.clone();
    let window = rusted.open_window((10, 5, 20, 6), 15, 4, true);
    assert_eq!(window.position(), (10, 5));
    assert_eq!(window.buffer_size(), (20, 6));
    assert_eq!(window.buffer.len(), 120);
    for row in 0..6usize {
        for column in 0..20usize {
            assert_eq!(window.buffer[column + row * 20], before[(10 + column) + (5 + row) * 80]);
        }
    }
    let colours = Attribute(0x004f);
    assert_eq!(rusted.console.attribute, colours);
    assert_eq!(at(&rusted, 10, 5), CharInfo(BOX_TOPLEFT_DOUBLE, colours));
    assert_eq!(at(&rusted, 29, 5), CharInfo(BOX_TOPRIGHT_DOUBLE, colours));
    assert_eq!(at(&rusted, 10, 10), CharInfo(BOX_BOTLEFT_DOUBLE, colours));
    assert_eq!(at(&rusted, 29, 10), CharInfo(BOX_BOTRIGHT_DOUBLE, colours));
    for column in 11..29 {
        assert_eq!(at(&rusted, column, 5).0, BOX_HORIZONTAL_DOUBLE);
        assert_eq!(at(&rusted, column, 10).0, BOX_HORIZONTAL_DOUBLE);
    }
    for row in 6..10 {
        assert_eq!(at(&rusted, 10, row).0, BOX_VERTICAL_DOUBLE);
        assert_eq!(at(&rusted, 29, row).0, BOX_VERTICAL_DOUBLE);
        for column in 11..29 {
            assert_eq!(at(&rusted, column, row), CharInfo(' ', colours));
        }
    }
    for row in 0..25usize {
        for column in 0..80usize {
            let inside = (10..30).contains(&column) && (5..11).contains(&row);
            if !inside {
                assert_eq!(at(&rusted, column, row), before[column + row * 80]);
            }
        }
    }
}

#[test]
fn open_window_without_frame_leaves_the_border() {
    let mut rusted = scribbled();
    let before = rusted.console.buffer.clone();
    let _window = rusted.open_window((0, 0, 4, 4), 7, 0, false);
    assert_eq!(at(&rusted, 0, 0), before[0]);
    assert_eq!(at(&rusted, 3, 3), before[3 + 3 * 80]);
    assert_eq!(at(&rusted, 1, 1), CharInfo(' ', Attribute(7)));
    assert_eq!(at(&rusted, 2, 2), CharInfo(' ', Attribute(7)));
}

#[test]
fn window_round_trip_restores_the_region() {
    let mut rusted = scribbled();
    let before = rusted.console.buffer.clone();
    let window = rusted.open_window((10, 5, 20, 6), 15, 4, true);
    rusted.outchars(12, 7, "something else");
    rusted.outchar(29, 10, '!');
    assert!(rusted.console.buffer != before);
    rusted.close_window(window);
    assert_eq!(rusted.console.buffer, before);
}

#[test]
fn window_at_the_corner_of_the_console_round_trips() {
    let mut rusted = scribbled();
    let before = rusted.console.buffer.clone();
    let window = rusted.open_window((70, 20, 10, 5), 2, 1, true);
    assert_eq!(at(&rusted, 79, 24).0, BOX_BOTRIGHT_DOUBLE);
    rusted.close_window(window);
    assert_eq!(rusted.console.buffer, before);
}

#[test]
fn draw_button_writes_its_caption() {
    let mut rusted = Rusted::new();
    rusted.draw_button((4, 2, 10, 3), "OK", 15, 1);
    let colours = Attribute(0x001f);
    assert_eq!(at(&rusted, 4, 2), CharInfo(BOX_TOPLEFT_DOUBLE, colours));
    assert_eq!(at(&rusted, 13, 4), CharInfo(BOX_BOTRIGHT_DOUBLE, colours));
    assert_eq!(at(&rusted, 6, 3), CharInfo('O', colours));
    assert_eq!(at(&rusted, 7, 3), CharInfo('K', colours));
    assert_eq!(at(&rusted, 8, 3), CharInfo(' ', colours));
    assert_eq!(at(&rusted, 4, 3).0, BOX_VERTICAL_DOUBLE);
    assert_eq!(rusted.console.cursor, Coord(8, 3));
}

#[test]
fn walk_gives_every_cell_in_row_major_order() {
    let mut rusted = Rusted::new();
    rusted.console = rusted::Console::new(2, 2);
    rusted.set_fgcolor(1 | 4);
    rusted.set_bgcolor(2 | 8);
    rusted.outchars(0, 0, "abc");
    let mut seen = Vec::new();
    let mut cells = rusted.iter();
    while let Some(item) = cells.next() {
        seen.push(item);
    }
    assert_eq!(cells.next(), None);
    assert_eq!(
        seen,
        vec![
            (Coord(0, 0), 'a', (10, 5)),
            (Coord(1, 0), 'b', (10, 5)),
            (Coord(0, 1), 'c', (10, 5)),
            (Coord(1, 1), '\0', (0, 0)),
        ]
    );
    let mut again = Vec::new();
    let mut cells = rusted.iter();
    while let Some(item) = cells.next() {
        again.push(item);
    }
    assert_eq!(again, seen);
}

#[test]
fn walk_names_rows_beyond_the_first_of_a_wide_grid() {
    let mut rusted = Rusted::new();
    rusted.console = rusted::Console::new(300, 300);
    let mut cells = rusted.iter();
    let mut last = None;
    let mut count = 0usize;
    while let Some(item) = cells.next() {
        last = Some(item);
        count += 1;
    }
    assert_eq!(count, 90_000);
    assert_eq!(last, Some((Coord(299, 299), '\0', (0, 0))));
}

#[test]
fn dialog_box_is_four_fifths_wide_and_centred() {
    assert_eq!(dialog_rect(Coord(80, 25), 1), (8, 10, 64, 5));
    assert_eq!(dialog_rect(Coord(80, 25), 2), (8, 9, 64, 6));
    assert_eq!(dialog_rect(Coord(80, 3), 2), (8, -1, 64, 6));
    assert_eq!(dialog_rect(Coord(0, 0), 0), (0, -2, 0, 4));
    for width in 0..=u16::MAX {
        let rect = dialog_rect(Coord(width, 25), 1);
        let expected = ((width as f32) * 0.8) as i32;
        assert_eq!(rect.2, expected);
        assert_eq!(rect.0, (width as i32 - expected) / 2);
    }
    for height in 0..200u16 {
        let rect = dialog_rect(Coord(80, height), 3);
        assert_eq!(rect.1, (height as i32 - 7) / 2);
    }
}

#[test]
fn message_is_shown_and_taken_away() {
    let mut rusted = scribbled();
    let before = rusted.console.buffer.clone();
    let mut message = RustedMessage::new(false);
    assert!(!message.is_open());
    message.show(&mut rusted, vec!["Hi", "there"]);
    assert!(message.is_open());
    let colours = Attribute(0x004f);
    assert_eq!(at(&rusted, 8, 9), CharInfo(BOX_TOPLEFT_DOUBLE, colours));
    assert_eq!(at(&rusted, 71, 14), CharInfo(BOX_BOTRIGHT_DOUBLE, colours));
    assert_eq!(at(&rusted, 10, 11), CharInfo('H', colours));
    assert_eq!(at(&rusted, 11, 11), CharInfo('i', colours));
    assert_eq!(at(&rusted, 10, 12), CharInfo('t', colours));
    assert_eq!(at(&rusted, 14, 12), CharInfo('e', colours));
    message.close(&mut rusted);
    assert!(!message.is_open());
    assert_eq!(rusted.console.buffer, before);
    let closed = rusted.console.clone();
    message.close(&mut rusted);
    assert_eq!(rusted.console.buffer, closed.buffer);
    assert_eq!(rusted.console.cursor, closed.cursor);
}

#[test]
fn centred_message_starts_at_half_the_free_width() {
    let mut rusted = Rusted::new();
    let mut message = RustedMessage::new(true);
    message.show(&mut rusted, vec!["Hi"]);
    assert_eq!(at(&rusted, 31, 12).0, 'H');
    assert_eq!(at(&rusted, 32, 12).0, 'i');
    assert_eq!(at(&rusted, 30, 12).0, ' ');
}

#[test]
fn showing_an_open_message_again_changes_nothing() {
    let mut rusted = scribbled();
    let mut message = RustedMessage::new(false);
    message.show(&mut rusted, vec!["first"]);
    let shown = rusted.console.clone();
    message.show(&mut rusted, vec!["second", "third", "fourth"]);
    assert!(message.is_open());
    assert_eq!(rusted.console.buffer, shown.buffer);
    assert_eq!(rusted.console.cursor, shown.cursor);
    assert_eq!(rusted.console.attribute, shown.attribute);
}

#[test]
fn choice_cursor_wraps_around() {
    let mut rusted = Rusted::new();
    let mut choice = RustedChoice::new();
    choice.move_cursor_next();
    assert_eq!(choice.cursor(), 0);
    assert_eq!(choice.selected_choice, None);
    choice.show_choice(
        &mut rusted,
        "Which?",
        vec!["  one".to_string(), "  two".to_string(), "  three".to_string()],
    );
    assert!(choice.is_open());
    assert_eq!(choice.cursor(), 0);
    assert_eq!(choice.selected_choice, Some(0));
    choice.move_cursor_next();
    assert_eq!(choice.selected_choice, Some(1));
    choice.move_cursor_next();
    assert_eq!(choice.selected_choice, Some(2));
    choice.move_cursor_next();
    assert_eq!(choice.selected_choice, Some(0));
    assert_eq!(choice.cursor(), 0);
    choice.move_cursor_prev();
    assert_eq!(choice.selected_choice, Some(2));
    assert_eq!(choice.cursor(), 2);
    choice.move_cursor_prev();
    assert_eq!(choice.selected_choice, Some(1));
}

#[test]
fn choice_without_options_keeps_its_cursor() {
    let mut rusted = Rusted::new();
    let mut choice = RustedChoice::default();
    choice.show_choice(&mut rusted, "Nothing?", vec![]);
    assert!(choice.is_open());
    choice.move_cursor_next();
    choice.move_cursor_prev();
    assert_eq!(choice.cursor(), 0);
    assert_eq!(choice.selected_choice, Some(0));
}

#[test]
fn yes_no_is_drawn_with_the_first_option_marked() {
    let mut rusted = Rusted::new();
    let mut choice = RustedChoice::new();
    choice.show_yes_no(&mut rusted, "Sure?");
    let colours = Attribute(0x004f);
    assert_eq!(at(&rusted, 8, 9), CharInfo(BOX_TOPLEFT_DOUBLE, colours));
    assert_eq!(at(&rusted, 71, 14), CharInfo(BOX_BOTRIGHT_DOUBLE, colours));
    assert_eq!(at(&rusted, 38, 11), CharInfo('S', colours));
    assert_eq!(at(&rusted, 42, 11), CharInfo('?', colours));
    assert_eq!(at(&rusted, 37, 2), CharInfo(DOUBLE_RIGHT_ARROW, colours));
    assert_eq!(at(&rusted, 39, 2).0, 'Y');
    assert_eq!(at(&rusted, 39, 3).0, 'N');
    assert_eq!(at(&rusted, 37, 3).0, ' ');
    choice.move_cursor_next();
    choice.redraw(&mut rusted);
    assert_eq!(at(&rusted, 37, 3).0, DOUBLE_RIGHT_ARROW);
    assert_eq!(at(&rusted, 37, 2).0, ' ');
}

#[test]
fn showing_an_open_choice_again_changes_nothing() {
    let mut rusted = scribbled();
    let mut choice = RustedChoice::new();
    choice.show_yes_no(&mut rusted, "Sure?");
    choice.move_cursor_next();
    let shown = rusted.console.clone();
    choice.show_choice(&mut rusted, "Other?", vec!["  a".to_string()]);
    assert!(choice.is_open());
    assert_eq!(choice.cursor(), 1);
    assert_eq!(choice.selected_choice, Some(1));
    assert_eq!(rusted.console.buffer, shown.buffer);
    assert_eq!(rusted.console.cursor, shown.cursor);
    choice.move_cursor_next();
    assert_eq!(choice.cursor(), 0);
}

#[test]
fn closing_a_choice_restores_what_the_box_covered() {
    let mut rusted = scribbled();
    let before = rusted.console.buffer.clone();
    let mut choice = RustedChoice::new();
    choice.redraw(&mut rusted);
    assert_eq!(rusted.console.buffer, before);
    choice.show_yes_no(&mut rusted, "Sure?");
    choice.close(&mut rusted);
    assert!(!choice.is_open());
    for row in 9..15usize {
        for column in 8..72usize {
            assert_eq!(at(&rusted, column, row), before[column + row * 80]);
        }
    }
    choice.move_cursor_next();
    assert_eq!(choice.cursor(), 0);
}
