use vga_text::colour::{Colour, ColourCode, ScreenChar};
use vga_text::writer::{print, Writer, BUFFER_HEIGHT, BUFFER_WIDTH};

fn default_writer() -> Writer {
    Writer::new(ColourCode::new(Colour::LightRed, Colour::Black))
}

fn cell(b: u8, w: &Writer) -> ScreenChar {
    ScreenChar::encode(b, w.colour_code())
}

fn row_text(w: &Writer, row: usize) -> Vec<u8> {
    (0..BUFFER_WIDTH).map(|c| w.char_at(row, c).ascii_character).collect()
}

fn padded(text: &[u8]) -> Vec<u8> {
    let mut v = text.to_vec();
    v.resize(BUFFER_WIDTH, b' ');
    v
}

#[test]
fn new_writer_is_blank_at_column_zero() {
    let w = default_writer();
    assert_eq!(w.column_position(), 0);
    for r in 0..BUFFER_HEIGHT {
        for c in 0..BUFFER_WIDTH {
            assert_eq!(w.char_at(r, c), cell(b' ', &w));
        }
    }
}

#[test]
fn short_string_lands_on_last_row() {
    let mut w = default_writer();
    w.write_string("hello");
    assert_eq!(w.column_position(), 5);
    assert_eq!(row_text(&w, BUFFER_HEIGHT - 1), padded(b"hello"));
    assert_eq!(w.char_at(BUFFER_HEIGHT - 1, 0), cell(b'h', &w));
    assert_eq!(row_text(&w, BUFFER_HEIGHT - 2), padded(b""));
}

#[test]
fn string_continues_from_cursor() {
    let mut w = default_writer();
    w.write_string("ab");
    w.write_string("cd");
    assert_eq!(w.column_position(), 4);
    assert_eq!(row_text(&w, BUFFER_HEIGHT - 1), padded(b"abcd"));
}

#[test]
fn full_row_fits_without_scroll() {
    let mut w = default_writer();
    let text = "y".repeat(BUFFER_WIDTH);
    w.write_string(&text);
    assert_eq!(w.column_position(), BUFFER_WIDTH);
    assert_eq!(row_text(&w, BUFFER_HEIGHT - 1), text.as_bytes().to_vec());
    assert_eq!(row_text(&w, BUFFER_HEIGHT - 2), padded(b""));
}

#[test]
fn one_byte_past_a_row_scrolls_once() {
    let mut w = default_writer();
    let mut text = "x".repeat(BUFFER_WIDTH);
    text.push('z');
    w.write_string(&text);
    assert_eq!(w.column_position(), 1);
    assert_eq!(row_text(&w, BUFFER_HEIGHT - 1), padded(b"z"));
    assert_eq!(row_text(&w, BUFFER_HEIGHT - 2), "x".repeat(BUFFER_WIDTH).into_bytes());
    assert_eq!(row_text(&w, BUFFER_HEIGHT - 3), padded(b""));
}

#[test]
fn newline_resets_column_and_scrolls_once() {
    for n in [0usize, 1, 7, BUFFER_WIDTH - 1, BUFFER_WIDTH] {
        let mut w = default_writer();
        let text = "q".repeat(n);
        w.write_string(&text);
        w.write_byte(b'\n');
        assert_eq!(w.column_position(), 0);
        assert_eq!(row_text(&w, BUFFER_HEIGHT - 1), padded(b""));
        assert_eq!(row_text(&w, BUFFER_HEIGHT - 2), padded(text.as_bytes()));
        assert_eq!(row_text(&w, BUFFER_HEIGHT - 3), padded(b""));
    }
}

#[test]
fn scroll_blanks_last_row_and_drops_top_row() {
    let mut w = default_writer();
    for i in 0..BUFFER_HEIGHT {
        w.write_byte(b'a' + i as u8);
        w.write_byte(b'\n');
    }
    // The first line written has been scrolled off the top.
    assert_eq!(row_text(&w, 0), padded(b"b"));
    assert_eq!(row_text(&w, BUFFER_HEIGHT - 2), padded(&[b'a' + (BUFFER_HEIGHT - 1) as u8]));
    w.write_string("tail");
    w.new_line();
    assert_eq!(row_text(&w, 0), padded(b"c"));
    assert_eq!(w.column_position(), 0);
    for c in 0..BUFFER_WIDTH {
        assert_eq!(w.char_at(BUFFER_HEIGHT - 1, c), cell(b' ', &w));
    }
    assert_eq!(row_text(&w, BUFFER_HEIGHT - 2), padded(b"tail"));
}

#[test]
fn clear_row_twice_equals_once() {
    let mut w = default_writer();
    w.write_string("first\nsecond");
    w.clear_row(BUFFER_HEIGHT - 2);
    let once: Vec<Vec<ScreenChar>> = (0..BUFFER_HEIGHT)
        .map(|r| (0..BUFFER_WIDTH).map(|c| w.char_at(r, c)).collect())
        .collect();
    w.clear_row(BUFFER_HEIGHT - 2);
    let twice: Vec<Vec<ScreenChar>> = (0..BUFFER_HEIGHT)
        .map(|r| (0..BUFFER_WIDTH).map(|c| w.char_at(r, c)).collect())
        .collect();
    assert_eq!(once, twice);
    assert_eq!(row_text(&w, BUFFER_HEIGHT - 2), padded(b""));
    assert_eq!(row_text(&w, BUFFER_HEIGHT - 1), padded(b"second"));
    assert_eq!(w.column_position(), 6);
}

#[test]
fn attribute_round_trips_all_pairs() {
    for f in 0u8..16 {
        for b in 0u8..16 {
            let fg = Colour::from_index(f).unwrap();
            let bg = Colour::from_index(b).unwrap();
            let code = ColourCode::new(fg, bg);
            assert_eq!(code.0 & 0x0f, f);
            assert_eq!(code.0 >> 4, b);
            assert_eq!(code.foreground(), fg);
            assert_eq!(code.background(), bg);
        }
    }
    assert_eq!(Colour::from_index(16), None);
}

#[test]
fn attribute_bytes_exact() {
    assert_eq!(ColourCode::new(Colour::LightRed, Colour::Black).0, 0x0c);
    assert_eq!(ColourCode::new(Colour::Yellow, Colour::Blue).0, 0x1e);
    assert_eq!(ColourCode::new(Colour::Black, Colour::White).0, 0xf0);
    assert_eq!(Colour::Pink.index(), 13);
}

#[test]
fn cell_word_layout() {
    let c = ScreenChar::encode(b'A', ColourCode(0x0c));
    assert_eq!(c.to_word(), 0x0c41);
    assert_eq!(c.to_word().to_le_bytes(), [b'A', 0x0c]);
    assert_eq!(ScreenChar::from_word(0x1e7a), ScreenChar::encode(b'z', ColourCode(0x1e)));
}

#[test]
fn written_cells_carry_colour() {
    let mut w = Writer::new(ColourCode::new(Colour::Yellow, Colour::Blue));
    w.write_byte(b'k');
    assert_eq!(w.char_at(BUFFER_HEIGHT - 1, 0), ScreenChar::encode(b'k', ColourCode(0x1e)));
    assert_eq!(w.char_at(BUFFER_HEIGHT - 1, 1), ScreenChar::encode(b' ', ColourCode(0x1e)));
}

#[test]
fn hi_newline_then_a() {
    let mut w = default_writer();
    w.write_string("HI\n");
    w.write_string("A");
    assert_eq!(w.column_position(), 1);
    assert_eq!(row_text(&w, BUFFER_HEIGHT - 1), padded(b"A"));
    assert_eq!(row_text(&w, BUFFER_HEIGHT - 2), padded(b"HI"));
    assert_eq!(w.char_at(BUFFER_HEIGHT - 1, 0), ScreenChar::encode(b'A', ColourCode(0x0c)));
    for r in 0..BUFFER_HEIGHT - 2 {
        assert_eq!(row_text(&w, r), padded(b""));
    }
}

#[test]
fn print_and_println() {
    let mut w = default_writer();
    print(&mut w, "ab");
    assert_eq!(w.column_position(), 2);
    vga_text::writer::println(&mut w, "c");
    assert_eq!(w.column_position(), 0);
    assert_eq!(row_text(&w, BUFFER_HEIGHT - 2), padded(b"abc"));
    assert_eq!(row_text(&w, BUFFER_HEIGHT - 1), padded(b""));
}

#[test]
fn multibyte_characters_become_bytes() {
    let mut w = default_writer();
    w.write_string("é");
    assert_eq!(w.column_position(), 2);
    assert_eq!(w.char_at(BUFFER_HEIGHT - 1, 0).ascii_character, 0xc3);
    assert_eq!(w.char_at(BUFFER_HEIGHT - 1, 1).ascii_character, 0xa9);
}
