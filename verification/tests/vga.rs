use asyncos::vga::{
    Color, ColorCode, ScreenChar, TextBuffer, VGAWriter, BUFFER_HEIGHT, BUFFER_WIDTH, TAB_SIZE,
};

fn green() -> ColorCode {
    ColorCode::new(Color::Green, Color::Black)
}

fn text_of_row(writer: &VGAWriter, row: usize) -> String {
    (0..BUFFER_WIDTH).map(|column| writer.cell(row, column).character as char).collect()
}

fn trimmed_row(writer: &VGAWriter, row: usize) -> String {
    text_of_row(writer, row).trim_end().to_string()
}

#[test]
fn color_codes_number_the_palette() {
    let palette = [
        Color::Black,
        Color::Blue,
        Color::Green,
        Color::Cyan,
        Color::Red,
        Color::Magenta,
        Color::Brown,
        Color::LightGray,
        Color::DarkGray,
        Color::LightBlue,
        Color::LightGreen,
        Color::LightCyan,
        Color::LightRed,
        Color::Pink,
        Color::Yellow,
        Color::White,
    ];
    for (index, color) in palette.iter().enumerate() {
        assert_eq!(color.code() as usize, index);
    }
}

#[test]
fn color_code_packs_background_above_foreground() {
    assert_eq!(ColorCode::new(Color::Green, Color::Black).value(), 0x02);
    assert_eq!(ColorCode::new(Color::Black, Color::Green).value(), 0x20);
    assert_eq!(ColorCode::new(Color::White, Color::Blue).value(), 0x1F);
    assert_eq!(ColorCode::new(Color::Yellow, Color::LightRed).value(), 0xCE);
    assert_eq!(ColorCode::new(Color::White, Color::White).value(), 0xFF);
    assert_eq!(ColorCode::new(Color::Black, Color::Black).value(), 0x00);
}

#[test]
fn text_buffer_cells_are_addressed_by_row_and_column() {
    let blank = ScreenChar { character: b' ', color: green() };
    let mark = ScreenChar { character: b'#', color: ColorCode::new(Color::Red, Color::White) };
    let mut buffer = TextBuffer::filled(blank);
    buffer.write(3, 7, mark);
    for row in 0..BUFFER_HEIGHT {
        for column in 0..BUFFER_WIDTH {
            let expected = if (row, column) == (3, 7) { mark } else { blank };
            assert_eq!(buffer.read(row, column), expected);
        }
    }
    buffer.write(24, 79, mark);
    assert_eq!(buffer.read(24, 79), mark);
    buffer.write(0, 0, mark);
    assert_eq!(buffer.read(0, 0), mark);
    assert_eq!(buffer.read(0, 1), blank);
}

#[test]
fn new_writer_shows_an_empty_screen() {
    let writer = VGAWriter::new(green());
    assert_eq!((writer.row(), writer.column()), (0, 0));
    assert_eq!(writer.color(), green());
    for row in 0..BUFFER_HEIGHT {
        for column in 0..BUFFER_WIDTH {
            assert_eq!(writer.cell(row, column), ScreenChar { character: b' ', color: green() });
        }
    }
}

#[test]
fn plain_character_is_put_at_the_cursor() {
    let mut writer = VGAWriter::new(green());
    writer.write_char(b'A');
    assert_eq!(writer.cell(0, 0), ScreenChar { character: b'A', color: green() });
    assert_eq!((writer.row(), writer.column()), (0, 1));
    writer.write_char(b'b');
    assert_eq!(writer.cell(0, 1), ScreenChar { character: b'b', color: green() });
    assert_eq!((writer.row(), writer.column()), (0, 2));
    assert_eq!(writer.cell(0, 2).character, b' ');
}

#[test]
fn line_feed_moves_to_the_start_of_the_next_line() {
    let mut writer = VGAWriter::new(green());
    writer.write_str("abc");
    writer.write_char(b'\n');
    assert_eq!((writer.row(), writer.column()), (1, 0));
    assert_eq!(trimmed_row(&writer, 0), "abc");
}

#[test]
fn carriage_return_moves_to_the_start_of_the_line() {
    let mut writer = VGAWriter::new(green());
    writer.write_str("abc\rX");
    assert_eq!((writer.row(), writer.column()), (0, 1));
    assert_eq!(trimmed_row(&writer, 0), "Xbc");
}

#[test]
fn tab_writes_four_spaces() {
    assert_eq!(TAB_SIZE, 4);
    let mut writer = VGAWriter::new(green());
    writer.write_str("abcdefgh\r");
    writer.write_char(b'\t');
    assert_eq!((writer.row(), writer.column()), (0, 4));
    assert_eq!(trimmed_row(&writer, 0), "    efgh");
}

#[test]
fn tab_wraps_at_the_end_of_the_line() {
    let mut writer = VGAWriter::new(green());
    for _ in 0..78 {
        writer.write_char(b'x');
    }
    writer.write_str("\nyyyy\r");
    assert_eq!((writer.row(), writer.column()), (1, 0));
    let mut writer = VGAWriter::new(green());
    for _ in 0..78 {
        writer.write_char(b'x');
    }
    writer.write_char(b'\t');
    assert_eq!((writer.row(), writer.column()), (1, 2));
}

#[test]
fn full_line_wraps_to_the_next() {
    let mut writer = VGAWriter::new(green());
    for _ in 0..79 {
        writer.write_char(b'x');
    }
    assert_eq!((writer.row(), writer.column()), (0, 79));
    writer.write_char(b'y');
    assert_eq!((writer.row(), writer.column()), (1, 0));
    assert_eq!(writer.cell(0, 79).character, b'y');
    writer.write_char(b'z');
    assert_eq!(writer.cell(1, 0).character, b'z');
}

#[test]
fn line_feed_on_the_last_row_scrolls() {
    let mut writer = VGAWriter::new(green());
    for row in 0..25u8 {
        writer.write_char(b'a' + row);
        if row < 24 {
            writer.write_char(b'\n');
        }
    }
    assert_eq!((writer.row(), writer.column()), (24, 1));
    assert_eq!(trimmed_row(&writer, 0), "a");
    assert_eq!(trimmed_row(&writer, 24), "y");
    writer.write_char(b'\n');
    assert_eq!((writer.row(), writer.column()), (24, 0));
    for row in 0..24u8 {
        assert_eq!(trimmed_row(&writer, row as usize), ((b'b' + row) as char).to_string());
    }
    assert_eq!(text_of_row(&writer, 24), " ".repeat(80));
}

#[test]
fn wrapping_on_the_last_row_scrolls() {
    let mut writer = VGAWriter::new(green());
    for _ in 0..24 {
        writer.write_char(b'\n');
    }
    writer.write_str("top");
    writer.write_char(b'\r');
    for _ in 0..80 {
        writer.write_char(b'=');
    }
    assert_eq!((writer.row(), writer.column()), (24, 0));
    assert_eq!(text_of_row(&writer, 23), "=".repeat(80));
    assert_eq!(text_of_row(&writer, 24), " ".repeat(80));
}

#[test]
fn shift_buffer_up_moves_rows_and_cursor() {
    let mut writer = VGAWriter::new(green());
    writer.write_str("first\nsecond\nthird");
    assert_eq!((writer.row(), writer.column()), (2, 5));
    writer.shift_buffer_up();
    assert_eq!((writer.row(), writer.column()), (1, 5));
    assert_eq!(trimmed_row(&writer, 0), "second");
    assert_eq!(trimmed_row(&writer, 1), "third");
    assert_eq!(trimmed_row(&writer, 2), "");
    writer.shift_buffer_up();
    writer.shift_buffer_up();
    assert_eq!((writer.row(), writer.column()), (0, 5));
    assert_eq!(trimmed_row(&writer, 0), "");
}

#[test]
fn shift_buffer_up_blanks_the_bottom_row_in_the_current_color() {
    let red = ColorCode::new(Color::Red, Color::Black);
    let mut writer = VGAWriter::new(green());
    for _ in 0..24 {
        writer.write_char(b'\n');
    }
    writer.write_str("bottom");
    writer.set_color(red);
    writer.shift_buffer_up();
    assert_eq!(trimmed_row(&writer, 23), "bottom");
    assert_eq!(writer.cell(23, 0).color, green());
    assert_eq!(writer.cell(23, 79).color, green());
    for column in 0..BUFFER_WIDTH {
        assert_eq!(writer.cell(24, column), ScreenChar { character: b' ', color: red });
    }
    assert_eq!(writer.row(), 23);
}

#[test]
fn color_applies_to_what_is_written_after_it_is_set() {
    let red = ColorCode::new(Color::Red, Color::Black);
    let mut writer = VGAWriter::new(green());
    writer.write_char(b'g');
    writer.set_color(red);
    assert_eq!(writer.color(), red);
    writer.write_char(b'r');
    assert_eq!(writer.cell(0, 0), ScreenChar { character: b'g', color: green() });
    assert_eq!(writer.cell(0, 1), ScreenChar { character: b'r', color: red });
    assert_eq!((writer.row(), writer.column()), (0, 2));
}

#[test]
fn strings_are_written_byte_by_byte() {
    let mut writer = VGAWriter::new(green());
    writer.write_str("- ACPI: Present\n\t- APIC @ 7ffe0000\n");
    assert_eq!(trimmed_row(&writer, 0), "- ACPI: Present");
    assert_eq!(trimmed_row(&writer, 1), "    - APIC @ 7ffe0000");
    assert_eq!((writer.row(), writer.column()), (2, 0));
    writer.write_str("");
    assert_eq!((writer.row(), writer.column()), (2, 0));
    writer.write_str("é");
    assert_eq!(writer.cell(2, 0).character, 0xC3);
    assert_eq!(writer.cell(2, 1).character, 0xA9);
    assert_eq!((writer.row(), writer.column()), (2, 2));
}
