//! Provides the text console: a cursor and a grid of coloured characters laid out as the
//! VGA text buffer is, 25 rows of 80 cells.
//!
//! The writer keeps the grid in memory of its own. Whoever owns the hardware buffer copies
//! the cells over after writing.

use vstd::prelude::*;
use vstd::string::StringSliceAdditionalSpecFns;

verus! {

/// The default VGA text buffer width, in characters.
pub const BUFFER_WIDTH: usize = 80;

/// The default VGA text buffer height, in characters.
pub const BUFFER_HEIGHT: usize = 25;

/// The number of cells of the VGA text buffer.
pub const BUFFER_CELLS: usize = 2000;

/// The number of spaces that 1 tab is equivalent to.
pub const TAB_SIZE: usize = 4;

/// The byte that moves the cursor to the start of the next line.
pub const LINE_FEED: u8 = 0x0A;

/// The byte that moves the cursor to the start of the current line.
pub const CARRIAGE_RETURN: u8 = 0x0D;

/// The byte that stands for `TAB_SIZE` spaces.
pub const TAB: u8 = 0x09;

/// The byte of a blank cell.
pub const SPACE: u8 = 0x20;

/// Represents the possible VGA text colors.
#[derive(Debug, Clone, Copy, PartialEq, Eq, Structural)]
pub enum Color {
    Black,
    Blue,
    Green,
    Cyan,
    Red,
    Magenta,
    Brown,
    LightGray,
    DarkGray,
    LightBlue,
    LightGreen,
    LightCyan,
    LightRed,
    Pink,
    Yellow,
    White,
}

impl Color {
    /// The number the hardware knows this color by.
    pub open spec fn spec_code(self) -> u8 {
        match self {
            Color::Black => 0,
            Color::Blue => 1,
            Color::Green => 2,
            Color::Cyan => 3,
            Color::Red => 4,
            Color::Magenta => 5,
            Color::Brown => 6,
            Color::LightGray => 7,
            Color::DarkGray => 8,
            Color::LightBlue => 9,
            Color::LightGreen => 10,
            Color::LightCyan => 11,
            Color::LightRed => 12,
            Color::Pink => 13,
            Color::Yellow => 14,
            Color::White => 15,
        }
    }

    /// The number the hardware knows this color by.
    pub fn code(self) -> (code: u8)
        ensures
            code == self.spec_code(),
    {
        match self {
            Color::Black => 0,
            Color::Blue => 1,
            Color::Green => 2,
            Color::Cyan => 3,
            Color::Red => 4,
            Color::Magenta => 5,
            Color::Brown => 6,
            Color::LightGray => 7,
            Color::DarkGray => 8,
            Color::LightBlue => 9,
            Color::LightGreen => 10,
            Color::LightCyan => 11,
            Color::LightRed => 12,
            Color::Pink => 13,
            Color::Yellow => 14,
            Color::White => 15,
        }
    }
}

/// A VGA color code, which contains both a foreground and background color.
#[derive(Debug, Clone, Copy, PartialEq, Eq, Structural)]
pub struct ColorCode(u8);

impl View for ColorCode {
    type V = u8;

    /// The attribute byte the hardware reads: the background in the high four bits, the
    /// foreground in the low four.
    closed spec fn view(&self) -> u8 {
        self.0
    }
}

impl ColorCode {
    /// Creates a new color code from a foreground and background color.
    pub fn new(foreground: Color, background: Color) -> (code: ColorCode)
        ensures
            code@ == background.spec_code() * 16 + foreground.spec_code(),
    {
        let high: u8 = background.code();
        let low: u8 = foreground.code();
        assert(high < 16 && low < 16 ==> (high << 4 | low) == high * 16 + low) by (bit_vector);
        ColorCode(high << 4 | low)
    }

    /// The attribute byte the hardware reads.
    pub fn value(&self) -> (value: u8)
        ensures
            value == self@,
    {
        self.0
    }
}

/// Represents a VGA screen character, which is a combination of an ASCII character and
/// associated color code.
#[derive(Debug, Clone, Copy, PartialEq, Eq, Structural)]
pub struct ScreenChar {
    /// The character being displayed.
    pub character: u8,
    /// The color the character is being displayed as.
    pub color: ColorCode,
}

/// The console as a value: where the cursor is, the color in use, and the cells row by
/// row.
pub struct Screen {
    /// The row the cursor is on.
    pub row: int,
    /// The column the cursor is on.
    pub column: int,
    /// The color new characters are written in.
    pub color: ColorCode,
    /// The cells, row after row; the cell at `(row, column)` is at `row * 80 + column`.
    pub cells: Seq<ScreenChar>,
}

/// The cell that shows as empty in `color`.
pub open spec fn blank(color: ColorCode) -> ScreenChar {
    ScreenChar { character: 0x20, color }
}

/// The cells after every row has moved up by one: the top row is gone and the bottom row
/// is blank in `color`.
pub open spec fn shifted_up(cells: Seq<ScreenChar>, color: ColorCode) -> Seq<ScreenChar> {
    Seq::new(
        2000,
        |i: int|
            if i < 1920 {
                cells[i + 80]
            } else {
                blank(color)
            },
    )
}

impl Screen {
    /// Whether the cursor is on the grid and the grid has all of its cells.
    pub open spec fn wf(self) -> bool {
        &&& 0 <= self.row < 25
        &&& 0 <= self.column < 80
        &&& self.cells.len() == 2000
    }

    /// The console after everything, cursor included, has moved up by one line. A cursor
    /// on the top row stays there.
    pub open spec fn shift_up(self) -> Screen {
        Screen {
            row: if self.row > 0 {
                self.row - 1
            } else {
                self.row
            },
            cells: shifted_up(self.cells, self.color),
            ..self
        }
    }

    /// The console after the cursor has gone to the start of the next line. From the last
    /// row there is no next line: the rows move up instead.
    pub open spec fn new_line(self) -> Screen {
        if self.row + 1 >= 25 {
            Screen { column: 0, cells: shifted_up(self.cells, self.color), ..self }
        } else {
            Screen { row: self.row + 1, column: 0, ..self }
        }
    }

    /// The console after `character` was put at the cursor and the cursor has moved one
    /// cell on, to the next line where the row is full.
    pub open spec fn put(self, character: u8) -> Screen {
        let written = Screen {
            cells: self.cells.update(
                self.row * 80 + self.column,
                ScreenChar { character, color: self.color },
            ),
            ..self
        };
        if self.column + 1 >= 80 {
            written.new_line()
        } else {
            Screen { column: self.column + 1, ..written }
        }
    }

    /// The console after `character` was written: a carriage return and a line feed move
    /// the cursor, a tab stands for four spaces, every other byte is put at the cursor.
    pub open spec fn write_char(self, character: u8) -> Screen {
        if character == 0x0D {
            Screen { column: 0, ..self }
        } else if character == 0x0A {
            self.new_line()
        } else if character == 0x09 {
            self.put(0x20).put(0x20).put(0x20).put(0x20)
        } else {
            self.put(character)
        }
    }

    /// The console after the bytes of `bytes` were written one after another.
    pub open spec fn write_bytes(self, bytes: Seq<u8>) -> Screen
        decreases bytes.len(),
    {
        if bytes.len() == 0 {
            self
        } else {
            self.write_bytes(bytes.drop_last()).write_char(bytes.last())
        }
    }
}

/// An in-memory representation of the VGA text buffer.
pub struct TextBuffer {
    /// The screen characters, row after row.
    characters: [ScreenChar; 2000],
}

impl View for TextBuffer {
    type V = Seq<ScreenChar>;

    /// The cells, row after row.
    closed spec fn view(&self) -> Seq<ScreenChar> {
        self.characters@
    }
}

impl TextBuffer {
    /// A buffer whose every cell is `cell`.
    pub fn filled(cell: ScreenChar) -> (buffer: TextBuffer)
        ensures
            buffer@ == Seq::new(2000, |i: int| cell),
    {
        let buffer = TextBuffer { characters: [cell; 2000] };
        assert(buffer@ =~= Seq::new(2000, |i: int| cell));
        buffer
    }

    /// The cell at the given row and column.
    pub fn read(&self, row: usize, column: usize) -> (cell: ScreenChar)
        requires
            row < 25,
            column < 80,
        ensures
            self@.len() == 2000,
            cell == self@[row * 80 + column],
    {
        self.characters[row * BUFFER_WIDTH + column]
    }

    /// Replaces the cell at the given row and column.
    pub fn write(&mut self, row: usize, column: usize, cell: ScreenChar)
        requires
            row < 25,
            column < 80,
        ensures
            old(self)@.len() == 2000,
            final(self)@ == old(self)@.update(row * 80 + column, cell),
        no_unwind
    {
        self.characters[row * BUFFER_WIDTH + column] = cell;
    }
}

/// Provides a sink to write ASCII characters to.
pub struct VGAWriter {
    /// The current row we're on.
    row: usize,
    /// The current column we're on.
    column: usize,
    /// The color we're printing as.
    color: ColorCode,
    /// The text buffer we're writing to.
    buffer: TextBuffer,
}

impl View for VGAWriter {
    type V = Screen;

    closed spec fn view(&self) -> Screen {
        Screen {
            row: self.row as int,
            column: self.column as int,
            color: self.color,
            cells: self.buffer@,
        }
    }
}

impl VGAWriter {
    #[verifier::type_invariant]
    spec fn cursor_on_grid(&self) -> bool {
        self.row < 25 && self.column < 80
    }

    /// A writer with an empty screen, the cursor in the top left corner.
    pub fn new(color: ColorCode) -> (writer: VGAWriter)
        ensures
            writer@.wf(),
            writer@.row == 0,
            writer@.column == 0,
            writer@.color == color,
            writer@.cells == Seq::new(2000, |i: int| blank(color)),
    {
        let cell = ScreenChar { character: SPACE, color };
        let buffer = TextBuffer::filled(cell);
        VGAWriter { row: 0, column: 0, color, buffer }
    }

    /// The row the cursor is on.
    pub fn row(&self) -> (row: usize)
        ensures
            row == self@.row,
            row < 25,
    {
        proof {
            use_type_invariant(self);
        }
        self.row
    }

    /// The column the cursor is on.
    pub fn column(&self) -> (column: usize)
        ensures
            column == self@.column,
            column < 80,
    {
        proof {
            use_type_invariant(self);
        }
        self.column
    }

    /// The cell shown at the given row and column.
    pub fn cell(&self, row: usize, column: usize) -> (cell: ScreenChar)
        requires
            row < 25,
            column < 80,
        ensures
            cell == self@.cells[row * 80 + column],
    {
        self.buffer.read(row, column)
    }

    /// Moves the rows of the buffer up by one and blanks the bottom row; the cursor stays.
    fn scroll(&mut self)
        ensures
            final(self)@ == (Screen {
                cells: shifted_up(old(self)@.cells, old(self)@.color),
                ..old(self)@
            }),
    {
        proof {
            use_type_invariant(&*self);
        }
        let ghost before = self.buffer@;
        // Iterate row-wise then column wise to copy everything up.
        let mut row: usize = 0;
        while row < BUFFER_HEIGHT - 1
            invariant
                row <= 24,
                self.row == old(self).row,
                self.column == old(self).column,
                self.color == old(self).color,
                before.len() == 2000,
                self.buffer@.len() == 2000,
                forall|i: int|
                    0 <= i < 2000 ==> self.buffer@[i] == if i < row * 80 {
                        before[i + 80]
                    } else {
                        before[i]
                    },
            decreases 24 - row,
        {
            let mut col: usize = 0;
            while col < BUFFER_WIDTH
                invariant
                    row < 24,
                    col <= 80,
                    self.row == old(self).row,
                    self.column == old(self).column,
                    self.color == old(self).color,
                    before.len() == 2000,
                    self.buffer@.len() == 2000,
                    forall|i: int|
                        0 <= i < 2000 ==> self.buffer@[i] == if i < row * 80 + col {
                            before[i + 80]
                        } else {
                            before[i]
                        },
                decreases 80 - col,
            {
                proof {
                    use_type_invariant(&*self);
                }
                let old_char = self.buffer.read(row + 1, col);
                self.buffer.write(row, col, old_char);
                col += 1;
            }
            row += 1;
        }
        // Then clear the bottom row.
        let color = self.color;
        let mut col: usize = 0;
        while col < BUFFER_WIDTH
            invariant
                col <= 80,
                self.row == old(self).row,
                self.column == old(self).column,
                self.color == old(self).color,
                color == self.color,
                before.len() == 2000,
                self.buffer@.len() == 2000,
                forall|i: int|
                    0 <= i < 2000 ==> self.buffer@[i] == if i < 1920 {
                        before[i + 80]
                    } else if i < 1920 + col {
                        blank(color)
                    } else {
                        before[i]
                    },
            decreases 80 - col,
        {
            proof {
                use_type_invariant(&*self);
            }
            self.buffer.write(BUFFER_HEIGHT - 1, col, ScreenChar { character: SPACE, color: color });
            col += 1;
        }
        assert(self.buffer@ =~= shifted_up(before, color));
    }

    /// Moves everything in the buffer, including the cursor, up one line. If the cursor is
    /// already at the top of the buffer, it is not moved.
    pub fn shift_buffer_up(&mut self)
        ensures
            final(self)@ == old(self)@.shift_up(),
            final(self)@.wf(),
    {
        self.scroll();
        proof {
            use_type_invariant(&*self);
        }
        // Move the row up only if we're not already at the top.
        if self.row > 0 {
            self.row -= 1;
        }
    }

    /// Moves the cursor to the start of the next line, moving the rows up where it was on
    /// the last one.
    fn new_line(&mut self)
        ensures
            final(self)@ == old(self)@.new_line(),
    {
        proof {
            use_type_invariant(&*self);
        }
        if self.row + 1 >= BUFFER_HEIGHT {
            self.scroll();
        } else {
            self.row += 1;
        }
        self.column = 0;
    }

    /// Puts `character` at the cursor and moves the cursor one cell on.
    fn put(&mut self, character: u8)
        ensures
            final(self)@ == old(self)@.put(character),
    {
        proof {
            use_type_invariant(&*self);
        }
        let row = self.row;
        let column = self.column;
        let color = self.color;
        self.buffer.write(row, column, ScreenChar { character: character, color: color });
        // If we've gone off the edge, move down one line.
        if column + 1 >= BUFFER_WIDTH {
            self.new_line();
        } else {
            self.column = column + 1;
        }
    }

    /// Writes an ASCII character to the text buffer at the cursor, in the current color.
    pub fn write_char(&mut self, character: u8)
        ensures
            final(self)@ == old(self)@.write_char(character),
            final(self)@.wf(),
    {
        proof {
            use_type_invariant(&*self);
        }
        if character == CARRIAGE_RETURN {
            self.column = 0;
        } else if character == LINE_FEED {
            self.new_line();
        } else if character == TAB {
            let mut spaces: usize = 0;
            while spaces < TAB_SIZE
                invariant
                    spaces <= 4,
                    self@ == if spaces == 0 {
                        old(self)@
                    } else if spaces == 1 {
                        old(self)@.put(0x20)
                    } else if spaces == 2 {
                        old(self)@.put(0x20).put(0x20)
                    } else if spaces == 3 {
                        old(self)@.put(0x20).put(0x20).put(0x20)
                    } else {
                        old(self)@.put(0x20).put(0x20).put(0x20).put(0x20)
                    },
                decreases 4 - spaces,
            {
                self.put(SPACE);
                spaces += 1;
                proof {
                    use_type_invariant(&*self);
                }
            }
        } else {
            self.put(character);
        }
        proof {
            use_type_invariant(&*self);
        }
    }

    /// Writes the bytes of `string` one after another, taking each for an ASCII character.
    pub fn write_str(&mut self, string: &str)
        ensures
            final(self)@ == old(self)@.write_bytes(string.spec_bytes()),
            final(self)@.wf(),
    {
        proof {
            use_type_invariant(&*self);
        }
        let bytes = string.as_bytes();
        let mut index: usize = 0;
        while index < bytes.len()
            invariant
                index <= bytes@.len(),
                self@.wf(),
                self@ == old(self)@.write_bytes(bytes@.take(index as int)),
            decreases bytes@.len() - index,
        {
            assert(bytes@.take(index + 1).drop_last() =~= bytes@.take(index as int));
            self.write_char(bytes[index]);
            index += 1;
        }
        assert(bytes@.take(index as int) =~= bytes@);
    }

    /// Obtain the default color used by this text writer.
    pub fn color(&self) -> (color: ColorCode)
        ensures
            color == self@.color,
    {
        self.color
    }

    /// Update the default color used by the text writer to the given color.
    pub fn set_color(&mut self, color: ColorCode)
        ensures
            final(self)@ == (Screen { color, ..old(self)@ }),
            final(self)@.wf(),
    {
        proof {
            use_type_invariant(&*self);
        }
        self.color = color;
    }
}

} // verus!
