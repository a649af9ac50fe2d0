use rusted::{
    fill_console_output_attribute, fill_console_output_character, read_console_output,
    set_console_attribute, set_console_buffer_size, set_console_cursor_position,
    util_copy_buffer, write_console, write_console_output, Attribute, CharInfo, Console, Coord,
    Rect,
};

fn chars_of(console: &Console) -> Vec<char> {
    console.buffer.iter().map(|cell| cell.0).collect()
}

#[test]
fn constructs_console() {
    let console: Console = Console::new(40, 25);
    assert_eq!(console.size.0, 40);
    assert_eq!(console.size.1, 25);
    assert_eq!(console.buffer.len(), 40 * 25);
}

#[test]
fn sets_console_size() {
    let mut console: Console = Console::new(10, 10);

    set_console_buffer_size(&mut console, Coord(40, 25));

    assert_eq!(console.size.0, 40);
    assert_eq!(console.size.1, 25);
    assert_eq!(console.buffer.len(), 40 * 25);
}

#[test]
fn new_console_is_blank_with_cursor_at_origin() {
    let console = Console::new(7, 3);
    assert_eq!(console.buffer.len(), 21);
    assert!(console.buffer.iter().all(|cell| *cell == CharInfo('\0', Attribute(0))));
    assert_eq!(console.cursor, Coord(0, 0));
    assert_eq!(console.attribute, Attribute(0x0007));
    assert_eq!(CharInfo::default(), CharInfo('\0', Attribute(0)));
}

#[test]
fn large_console_has_every_cell() {
    let console = Console::new(300, 300);
    assert_eq!(console.buffer.len(), 90_000);
}

#[test]
fn empty_console_takes_writes_silently() {
    let mut console = Console::new(0, 5);
    assert_eq!(console.buffer.len(), 0);
    write_console(&mut console, "abc");
    fill_console_output_character(&mut console, 3, 'x', Coord(0, 0));
    assert_eq!(console.buffer.len(), 0);
    assert_eq!(console.cursor, Coord(0, 0));
}

#[test]
fn resize_discards_content() {
    let mut console = Console::new(4, 2);
    write_console(&mut console, "abcdefgh");
    set_console_cursor_position(&mut console, Coord(1, 1));
    set_console_buffer_size(&mut console, Coord(3, 5));
    assert_eq!(console.size, Coord(3, 5));
    assert_eq!(console.buffer.len(), 15);
    assert!(console.buffer.iter().all(|cell| *cell == CharInfo::default()));
    assert_eq!(console.cursor, Coord(1, 1));
}

#[test]
fn set_attribute_touches_no_cell() {
    let mut console = Console::new(4, 2);
    write_console(&mut console, "ab");
    let before = console.buffer.clone();
    set_console_attribute(&mut console, Attribute(0x004f));
    assert_eq!(console.attribute, Attribute(0x004f));
    assert_eq!(console.buffer, before);
    write_console(&mut console, "c");
    assert_eq!(console.buffer[2], CharInfo('c', Attribute(0x004f)));
    assert_eq!(console.buffer[0], CharInfo('a', Attribute(0x0007)));
}

#[test]
fn write_hello() {
    let mut console = Console::new(10, 3);
    write_console(&mut console, "Hello");
    let expected = ['H', 'e', 'l', 'l', 'o'];
    for (i, ch) in expected.iter().enumerate() {
        assert_eq!(console.buffer[i], CharInfo(*ch, Attribute(0x0007)));
    }
    assert_eq!(console.buffer[5], CharInfo::default());
    assert_eq!(console.cursor, Coord(5, 0));
}

#[test]
fn write_wraps_at_the_end_of_a_row() {
    let mut console = Console::new(10, 3);
    write_console(&mut console, "AAAAAAAAAAAA");
    for i in 0..12 {
        assert_eq!(console.buffer[i].0, 'A');
    }
    assert_eq!(console.buffer[12].0, '\0');
    assert_eq!(console.cursor, Coord(2, 1));
}

#[test]
fn newline_places_no_character() {
    let mut console = Console::new(10, 3);
    write_console(&mut console, "AB\nCD");
    assert_eq!(console.buffer[0].0, 'A');
    assert_eq!(console.buffer[1].0, 'B');
    assert_eq!(console.buffer[2].0, '\0');
    assert_eq!(console.buffer[10].0, 'C');
    assert_eq!(console.buffer[11].0, 'D');
    assert_eq!(console.cursor, Coord(2, 1));
    let written = chars_of(&console).iter().filter(|c| **c != '\0').count();
    assert_eq!(written, 4);
}

#[test]
fn writing_stays_on_the_last_row() {
    let mut console = Console::new(10, 3);
    write_console(&mut console, "\n\n\n\n\nX");
    assert_eq!(console.cursor, Coord(1, 2));
    assert_eq!(console.buffer[20].0, 'X');
    write_console(&mut console, "BBBBBBBBBB");
    assert_eq!(console.cursor, Coord(1, 2));
    for i in 20..30 {
        assert_eq!(console.buffer[i].0, 'B');
    }
    for i in 0..20 {
        assert_eq!(console.buffer[i].0, '\0');
    }
}

#[test]
fn write_stops_where_the_cursor_is_off_the_grid() {
    let mut console = Console::new(10, 3);
    set_console_cursor_position(&mut console, Coord(0, 100));
    write_console(&mut console, "abc");
    assert_eq!(console.cursor, Coord(0, 100));
    assert!(console.buffer.iter().all(|cell| *cell == CharInfo::default()));
}

#[test]
fn write_from_a_column_past_the_row_lands_in_a_later_row() {
    let mut console = Console::new(10, 3);
    set_console_cursor_position(&mut console, Coord(15, 0));
    write_console(&mut console, "z");
    assert_eq!(console.buffer[15].0, 'z');
    assert_eq!(console.cursor, Coord(0, 1));
}

#[test]
fn fill_character_counts_one_more() {
    let mut console = Console::new(10, 3);
    fill_console_output_character(&mut console, 4, 'x', Coord(0, 0));
    for i in 0..5 {
        assert_eq!(console.buffer[i], CharInfo('x', Attribute(0)));
    }
    assert_eq!(console.buffer[5], CharInfo::default());
    let filled = chars_of(&console).iter().filter(|c| **c == 'x').count();
    assert_eq!(filled, 5);
}

#[test]
fn fill_character_with_count_zero_fills_one_cell() {
    let mut console = Console::new(10, 3);
    fill_console_output_character(&mut console, 0, 'q', Coord(3, 1));
    assert_eq!(console.buffer[13].0, 'q');
    let filled = chars_of(&console).iter().filter(|c| **c == 'q').count();
    assert_eq!(filled, 1);
}

#[test]
fn fill_character_is_clipped() {
    let mut console = Console::new(10, 3);
    fill_console_output_character(&mut console, 100, 'x', Coord(0, 0));
    assert!(console.buffer.iter().all(|cell| cell.0 == 'x'));
    assert_eq!(console.buffer.len(), 30);
    let mut other = Console::new(10, 3);
    fill_console_output_character(&mut other, 5, 'y', Coord(8, 2));
    assert_eq!(other.buffer[27].0, '\0');
    assert_eq!(other.buffer[28].0, 'y');
    assert_eq!(other.buffer[29].0, 'y');
    fill_console_output_character(&mut other, 5, 'n', Coord(0, 3));
    assert!(other.buffer.iter().all(|cell| cell.0 != 'n'));
    assert_eq!(other.cursor, Coord(0, 0));
}

#[test]
fn fill_attribute_keeps_characters() {
    let mut console = Console::new(10, 3);
    write_console(&mut console, "abcdef");
    fill_console_output_attribute(&mut console, 2, Attribute(0x0021), Coord(1, 0));
    assert_eq!(console.buffer[0], CharInfo('a', Attribute(0x0007)));
    assert_eq!(console.buffer[1], CharInfo('b', Attribute(0x0021)));
    assert_eq!(console.buffer[2], CharInfo('c', Attribute(0x0021)));
    assert_eq!(console.buffer[3], CharInfo('d', Attribute(0x0021)));
    assert_eq!(console.buffer[4], CharInfo('e', Attribute(0x0007)));
    assert_eq!(console.cursor, Coord(6, 0));
    fill_console_output_attribute(&mut console, 65535, Attribute(0x0001), Coord(9, 2));
    assert_eq!(console.buffer[29].1, Attribute(0x0001));
    assert_eq!(console.buffer[28].1, Attribute(0));
}

#[test]
fn rect_forms_convert_both_ways() {
    let bounds = Rect::from_xywh(2, 3, 4, 5);
    assert_eq!(bounds, Rect(2, 3, 6, 8));
    assert_eq!(bounds.to_xywh(), Rect(2, 3, 4, 5));
    assert_eq!(bounds.width(), 4);
    assert_eq!(bounds.height(), 5);
    let extent = Rect(7, 9, 20, 30).to_xywh();
    assert_eq!(extent, Rect(7, 9, 13, 21));
    assert_eq!(Rect::from_xywh(extent.0, extent.1, extent.2, extent.3), Rect(7, 9, 20, 30));
    assert_eq!(Rect::default(), Rect(0, 0, 0, 0));
    assert_eq!(Coord::default(), Coord(0, 0));
    assert_eq!(Attribute::default(), Attribute(0));
}

fn lettered(columns: u16, rows: u16) -> Console {
    let mut console = Console::new(columns, rows);
    let letters: String =
        (0..(columns as u32 * rows as u32)).map(|i| (b'a' + (i % 26) as u8) as char).collect();
    write_console(&mut console, &letters);
    console
}

#[test]
fn blit_round_trip() {
    let first = lettered(6, 4);
    let mut held = vec![CharInfo::default(); 6];
    read_console_output(&first, &mut held, Coord(3, 2), Coord(0, 0), Rect(2, 1, 5, 3));
    let taken: Vec<char> = held.iter().map(|cell| cell.0).collect();
    assert_eq!(taken, vec!['i', 'j', 'k', 'o', 'p', 'q']);
    let mut fresh = Console::new(6, 4);
    write_console_output(&mut fresh, &held, Coord(3, 2), Coord(2, 1), Rect(0, 0, 3, 2));
    for row in 0..4usize {
        for column in 0..6usize {
            let k = column + row * 6;
            let inside = (2..5).contains(&column) && (1..3).contains(&row);
            if inside {
                assert_eq!(fresh.buffer[k], first.buffer[k]);
            } else {
                assert_eq!(fresh.buffer[k], CharInfo::default());
            }
        }
    }
    assert_eq!(fresh.cursor, Coord(0, 0));
    assert_eq!(fresh.size, Coord(6, 4));
}

#[test]
fn blit_is_clipped_to_the_source() {
    let source = lettered(4, 2);
    let mut target = vec![CharInfo::default(); 8];
    read_console_output(&source, &mut target, Coord(4, 2), Coord(0, 0), Rect(0, 0, 10, 10));
    assert_eq!(target, source.buffer);
    let mut wide = vec![CharInfo::default(); 40];
    read_console_output(&source, &mut wide, Coord(10, 4), Coord(1, 1), Rect(0, 0, 10, 10));
    let written = wide.iter().filter(|cell| cell.0 != '\0').count();
    assert_eq!(written, 8);
    assert_eq!(wide[11].0, 'a');
    assert_eq!(wide[14].0, 'd');
    assert_eq!(wide[15].0, '\0');
    assert_eq!(wide[21].0, 'e');
    assert_eq!(wide[24].0, 'h');
}

#[test]
fn blit_is_clipped_at_the_end_of_the_target() {
    let source = lettered(4, 2);
    let mut short = vec![CharInfo::default(); 3];
    read_console_output(&source, &mut short, Coord(4, 2), Coord(0, 0), Rect(0, 0, 4, 2));
    let got: Vec<char> = short.iter().map(|cell| cell.0).collect();
    assert_eq!(got, vec!['a', 'b', 'c']);
    let mut shifted = vec![CharInfo::default(); 8];
    read_console_output(&source, &mut shifted, Coord(4, 2), Coord(2, 1), Rect(0, 0, 4, 2));
    let got: Vec<char> = shifted.iter().map(|cell| cell.0).collect();
    assert_eq!(got, vec!['\0', '\0', '\0', '\0', '\0', '\0', 'a', 'b']);
}

#[test]
fn blit_of_an_empty_or_reversed_rectangle_copies_nothing() {
    let source = lettered(4, 2);
    let mut target = vec![CharInfo::default(); 8];
    read_console_output(&source, &mut target, Coord(4, 2), Coord(0, 0), Rect(3, 1, 1, 0));
    assert!(target.iter().all(|cell| *cell == CharInfo::default()));
    read_console_output(&source, &mut target, Coord(4, 2), Coord(0, 0), Rect(2, 1, 2, 1));
    assert!(target.iter().all(|cell| *cell == CharInfo::default()));
}

#[test]
fn copy_buffer_works_on_any_cell_type() {
    let source: Vec<u8> = (0..12).collect();
    let mut target: Vec<u8> = vec![99; 6];
    util_copy_buffer(&source, 4, 3, &mut target, 3, Rect(1, 1, 2, 2), Coord(1, 0));
    assert_eq!(target, vec![99, 5, 6, 99, 9, 10]);
    let mut beyond: Vec<u8> = vec![99; 6];
    util_copy_buffer(&source, 4, 3, &mut beyond, 3, Rect(2, 2, 4, 3), Coord(0, 0));
    assert_eq!(beyond, vec![10, 11, 99, 99, 99, 99]);
}

#[test]
fn write_output_keeps_cursor_and_attribute() {
    let mut console = lettered(4, 2);
    set_console_cursor_position(&mut console, Coord(3, 1));
    set_console_attribute(&mut console, Attribute(0x0012));
    let patch = vec![CharInfo('#', Attribute(1)); 4];
    write_console_output(&mut console, &patch, Coord(2, 2), Coord(1, 0), Rect(0, 0, 2, 2));
    assert_eq!(chars_of(&console), vec!['a', '#', '#', 'd', 'e', '#', '#', 'h']);
    assert_eq!(console.cursor, Coord(3, 1));
    assert_eq!(console.attribute, Attribute(0x0012));
}

#[test]
fn blit_round_trip_of_a_rectangle_that_leaves_the_grid() {
    let first = lettered(5, 4);
    for (x, y, w, h) in [(3u16, 2u16, 4u16, 5u16), (0, 0, 5, 4), (4, 3, 1, 1), (1, 1, 5, 2)] {
        let mut held = vec![CharInfo::default(); w as usize * h as usize];
        read_console_output(&first, &mut held, Coord(w, h), Coord(0, 0), Rect(x, y, x + w, y + h));
        let mut fresh = Console::new(5, 4);
        write_console_output(&mut fresh, &held, Coord(w, h), Coord(x, y), Rect(0, 0, w, h));
        for row in y..(y + h).min(4) {
            for column in x..(x + w).min(5) {
                let k = column as usize + row as usize * 5;
                assert_eq!(fresh.buffer[k], first.buffer[k]);
            }
        }
    }
}
