//! VGA text console: colour attribute codec and the escape-sequence state
//! machine over an owned 80x25 cell buffer. The machine understands cursor
//! moves (with and without counts), cursor addressing, and colour
//! attributes; an unrecognized escape tail falls back to echoing `^[` (or
//! `^[[`) and the offending byte, and the cursor wraps on its axis. The
//! memory-mapped cell writes and the cursor-register port traffic are the
//! shell's; it mirrors this buffer into the hardware.

use vstd::prelude::*;

verus! {

pub const WIDTH: u16 = 80;

pub const HEIGHT: u16 = 25;

#[derive(Clone, Copy, Debug, PartialEq, Eq, Hash, Structural)]
pub enum Color {
    Black,
    Blue,
    Green,
    Cyan,
    Red,
    Magenta,
    Brown,
    White,
}

/// The VGA nibble of a colour.
pub open spec fn color_byte(c: Color) -> u8 {
    match c {
        Color::Black => 0,
        Color::Blue => 1,
        Color::Green => 2,
        Color::Cyan => 3,
        Color::Red => 4,
        Color::Magenta => 5,
        Color::Brown => 6,
        Color::White => 7,
    }
}

/// The colour an attribute digit (ANSI order) names, if in range.
pub open spec fn spec_color_from_attr(byte: u8) -> Option<Color> {
    if byte == 0 {
        Some(Color::Black)
    } else if byte == 1 {
        Some(Color::Red)
    } else if byte == 2 {
        Some(Color::Green)
    } else if byte == 3 {
        Some(Color::Brown)
    } else if byte == 4 {
        Some(Color::Blue)
    } else if byte == 5 {
        Some(Color::Magenta)
    } else if byte == 6 {
        Some(Color::Cyan)
    } else if byte == 7 {
        Some(Color::White)
    } else {
        None
    }
}

impl Color {
    /// The colour an attribute digit names, if in range.
    pub fn from_attr(byte: u8) -> (r: Option<Color>)
        ensures
            r == spec_color_from_attr(byte),
    {
        match byte {
            0 => Some(Color::Black),
            1 => Some(Color::Red),
            2 => Some(Color::Green),
            3 => Some(Color::Brown),
            4 => Some(Color::Blue),
            5 => Some(Color::Magenta),
            6 => Some(Color::Cyan),
            7 => Some(Color::White),
            _ => None,
        }
    }
}

impl From<Color> for u8 {
    fn from(c: Color) -> u8 {
        match c {
            Color::Black => 0,
            Color::Blue => 1,
            Color::Green => 2,
            Color::Cyan => 3,
            Color::Red => 4,
            Color::Magenta => 5,
            Color::Brown => 6,
            Color::White => 7,
        }
    }
}

impl vstd::std_specs::convert::FromSpecImpl<Color> for u8 {
    open spec fn obeys_from_spec() -> bool {
        true
    }

    open spec fn from_spec(c: Color) -> u8 {
        color_byte(c)
    }
}

/// A colour together with its intensity bit.
#[derive(Clone, Copy, Debug, PartialEq, Eq, Hash, Structural)]
pub enum Shade {
    Dark(Color),
    Bright(Color),
}

/// The VGA attribute nibble of a shade.
pub open spec fn shade_byte(s: Shade) -> u8 {
    match s {
        Shade::Dark(c) => color_byte(c),
        Shade::Bright(c) => (color_byte(c) + 8) as u8,
    }
}

/// The shade an attribute byte names: low three bits the colour, bit three
/// the intensity.
pub open spec fn spec_shade_from_attr(byte: u8) -> Shade {
    if byte & 0x8 == 0 {
        Shade::Dark(spec_color_from_attr((byte & 0x7) as u8).unwrap())
    } else {
        Shade::Bright(spec_color_from_attr((byte & 0x7) as u8).unwrap())
    }
}

/// The low three bits of an attribute byte always name a colour.
proof fn lemma_attr_bits(b: u8)
    by (bit_vector)
    ensures
        b & 0x7 <= 7,
        b & 3 <= 3,
{
}

impl Shade {
    /// The default background: dark black.
    pub fn default_bg() -> (r: Shade)
        ensures
            r == Shade::Dark(Color::Black),
    {
        Shade::Dark(Color::Black)
    }

    /// The default foreground: dark white.
    pub fn default_fg() -> (r: Shade)
        ensures
            r == Shade::Dark(Color::White),
    {
        Shade::Dark(Color::White)
    }

    /// The shade an attribute byte names.
    pub fn from_attr(byte: u8) -> (r: Shade)
        ensures
            r == spec_shade_from_attr(byte),
    {
        proof {
            lemma_attr_bits(byte);
        }
        if byte & 0x8 == 0 {
            Shade::Dark(Color::from_attr(byte & 0x7).unwrap())
        } else {
            Shade::Bright(Color::from_attr(byte & 0x7).unwrap())
        }
    }
}

impl From<Shade> for u8 {
    fn from(c: Shade) -> u8 {
        match c {
            Shade::Dark(c) => u8::from(c),
            Shade::Bright(c) => u8::from(c) + 8,
        }
    }
}

impl vstd::std_specs::convert::FromSpecImpl<Shade> for u8 {
    open spec fn obeys_from_spec() -> bool {
        true
    }

    open spec fn from_spec(s: Shade) -> u8 {
        shade_byte(s)
    }
}

/// One screen cell: background, foreground, glyph byte.
#[derive(Clone, Copy, Debug, PartialEq, Eq, Hash, Structural)]
pub struct Char(pub Shade, pub Shade, pub u8);

/// The 16-bit cell word: background nibble, foreground nibble, glyph.
pub open spec fn char_word(c: Char) -> u16 {
    ((shade_byte(c.0) as u16) << 12) | (((shade_byte(c.1) as u16) << 8) | (c.2 as u16))
}

/// The cell word of the default character.
pub open spec fn default_char_word() -> u16 {
    char_word(Char(Shade::Dark(Color::Black), Shade::Dark(Color::White), 0))
}

impl Default for Char {
    /// A blank cell in the default colours.
    fn default() -> (r: Char)
        ensures
            r == Char(Shade::Dark(Color::Black), Shade::Dark(Color::White), 0u8),
    {
        Char(Shade::Dark(Color::Black), Shade::Dark(Color::White), 0)
    }
}

impl From<u8> for Char {
    fn from(byte: u8) -> Char {
        Char(Shade::Dark(Color::Black), Shade::Dark(Color::White), byte)
    }
}

impl vstd::std_specs::convert::FromSpecImpl<u8> for Char {
    open spec fn obeys_from_spec() -> bool {
        true
    }

    open spec fn from_spec(byte: u8) -> Char {
        Char(Shade::Dark(Color::Black), Shade::Dark(Color::White), byte)
    }
}

impl From<Char> for u8 {
    fn from(ch: Char) -> u8 {
        ch.2
    }
}

impl vstd::std_specs::convert::FromSpecImpl<Char> for u8 {
    open spec fn obeys_from_spec() -> bool {
        true
    }

    open spec fn from_spec(ch: Char) -> u8 {
        ch.2
    }
}

impl From<Char> for u16 {
    fn from(ch: Char) -> u16 {
        let bg = u8::from(ch.0) as u16;
        let fg = u8::from(ch.1) as u16;
        let byte = ch.2 as u16;
        (bg << 12) | ((fg << 8) | byte)
    }
}

impl vstd::std_specs::convert::FromSpecImpl<Char> for u16 {
    open spec fn obeys_from_spec() -> bool {
        true
    }

    open spec fn from_spec(ch: Char) -> u16 {
        char_word(ch)
    }
}

/// Where the escape parser stands: plain output, after the escape byte,
/// after `^[[`, accumulating one count, or accumulating the second of two.
#[derive(Clone, Copy, Debug, PartialEq, Eq, Hash, Structural)]
pub enum State {
    Plain,
    Esc,
    Bracket,
    Count(u16),
    Pair(u16, u16),
}

/// Ghost image of the console: cell words, colours, cursor, parser state.
pub struct VgaV {
    pub buf: Seq<u16>,
    pub bg: Shade,
    pub fg: Shade,
    pub y: u16,
    pub x: u16,
    pub state: State,
}

pub open spec fn vga_wf(v: VgaV) -> bool {
    &&& v.buf.len() == 2000
    &&& v.y < 25
    &&& v.x < 80
}

/// Writes the glyph at the cursor in the current colours and advances one
/// cell, wrapping at the line end and from the last row to the first.
pub open spec fn put_glyph(v: VgaV, byte: u8) -> VgaV {
    let word = char_word(Char(v.bg, v.fg, byte));
    VgaV {
        buf: v.buf.update(v.y * 80 + v.x, word),
        x: ((v.x + 1) % 80) as u16,
        y: (((v.y + (v.x + 1) / 80) as u16) % 25) as u16,
        ..v
    }
}

/// `n` spaces, one after the other.
pub open spec fn put_spaces(v: VgaV, n: int) -> VgaV
    decreases n,
{
    if n <= 0 {
        v
    } else {
        put_spaces(put_glyph(v, 32), n - 1)
    }
}

/// One plain output byte: nul is dropped, backspace steps left on the row,
/// tab pads with spaces to the next multiple of four, newline and carriage
/// return move the cursor, the escape byte arms the parser, any other
/// control byte is echoed as `^` plus its letter, and everything else is a
/// glyph.
pub open spec fn plain_step(v: VgaV, byte: u8) -> VgaV {
    if byte == 0 {
        v
    } else if byte == 8 {
        VgaV { x: ((v.x + 80 - 1) % 80) as u16, ..v }
    } else if byte == 9 {
        put_spaces(v, 4 - (v.x & 3))
    } else if byte == 10 {
        VgaV { x: 0, y: ((v.y + 1) % 25) as u16, ..v }
    } else if byte == 13 {
        VgaV { x: 0, ..v }
    } else if byte == 0x1b {
        VgaV { state: State::Esc, ..v }
    } else if byte < 0x20 {
        put_glyph(put_glyph(v, 94), (byte + 65) as u8)
    } else {
        put_glyph(v, byte)
    }
}

/// The cursor move a completed escape letter performs, `count` times:
/// `A` down a row, `B` up a row, `C` right a cell (carrying into rows),
/// `D` left a cell on the row.
pub open spec fn cursor_move(v: VgaV, letter: u8, count: u16) -> VgaV {
    if letter == 65 {
        VgaV { y: ((v.y + count % 25) % 25) as u16, ..v }
    } else if letter == 66 {
        VgaV { y: ((v.y + 25 - count % 25) % 25) as u16, ..v }
    } else if letter == 67 {
        VgaV {
            x: ((v.x + count % 80) % 80) as u16,
            y: (((v.y + (v.x + count % 80) / 80) as u16) % 25) as u16,
            ..v
        }
    } else {
        VgaV { x: ((v.x + 80 - count % 80) % 80) as u16, ..v }
    }
}

/// What a colour attribute pair sets: reset to the defaults, a bright or
/// dark foreground (30 through 37), or a bright or dark background (40
/// through 47); anything else changes nothing.
pub open spec fn attr_step(v: VgaV, a0: u16, a1: u16) -> VgaV {
    if a0 == 0 && a1 == 0 {
        VgaV { bg: Shade::Dark(Color::Black), fg: Shade::Dark(Color::White), ..v }
    } else if a0 == 1 && 30 <= a1 <= 37 {
        VgaV { fg: spec_shade_from_attr(8u8 | ((a1 - 30) as u8)), ..v }
    } else if a1 == 1 && 30 <= a0 <= 37 {
        VgaV { fg: spec_shade_from_attr(8u8 | ((a0 - 30) as u8)), ..v }
    } else if a0 == 0 && 30 <= a1 <= 37 {
        VgaV { fg: spec_shade_from_attr((a1 - 30) as u8), ..v }
    } else if a1 == 0 && 30 <= a0 <= 37 {
        VgaV { fg: spec_shade_from_attr((a0 - 30) as u8), ..v }
    } else if a0 == 1 && 40 <= a1 <= 47 {
        VgaV { bg: spec_shade_from_attr(8u8 | ((a1 - 30) as u8)), ..v }
    } else if a1 == 1 && 40 <= a0 <= 47 {
        VgaV { bg: spec_shade_from_attr(8u8 | ((a0 - 30) as u8)), ..v }
    } else if a0 == 0 && 40 <= a1 <= 47 {
        VgaV { bg: spec_shade_from_attr((a1 - 30) as u8), ..v }
    } else if a1 == 0 && 40 <= a0 <= 47 {
        VgaV { bg: spec_shade_from_attr((a0 - 30) as u8), ..v }
    } else {
        v
    }
}

/// A count digit accumulates decimal; past four digits further ones are
/// dropped rather than overflowing.
pub open spec fn push_digit(i: u16, byte: u8) -> u16 {
    if i <= 999 {
        (i * 10 + (byte - 48)) as u16
    } else {
        i
    }
}

/// The echo of an unrecognized escape tail: the parser resets, then prints
/// `^[` (after plain escape) or `^[[` (after a bracket, count or pair) and
/// the offending byte.
pub open spec fn echo2(v: VgaV, byte: u8) -> VgaV {
    plain_step(plain_step(plain_step(VgaV { state: State::Plain, ..v }, 94), 91), byte)
}

pub open spec fn echo3(v: VgaV, byte: u8) -> VgaV {
    plain_step(echo2(v, 91), byte)
}

/// One byte through the whole console: the escape-sequence state machine
/// over plain output.
pub open spec fn vga_step(v: VgaV, byte: u8) -> VgaV {
    match v.state {
        State::Plain => plain_step(v, byte),
        State::Esc => {
            if byte == 91 {
                VgaV { state: State::Bracket, ..v }
            } else {
                echo2(v, byte)
            }
        },
        State::Bracket => {
            if byte == 65 || byte == 66 || byte == 67 || byte == 68 {
                cursor_move(VgaV { state: State::Plain, ..v }, byte, 1)
            } else if byte == 72 {
                VgaV { state: State::Plain, x: 0, y: 0, ..v }
            } else if 48 <= byte <= 57 {
                VgaV { state: State::Count((byte - 48) as u16), ..v }
            } else {
                echo3(v, byte)
            }
        },
        State::Count(i) => {
            if byte == 65 || byte == 66 || byte == 67 || byte == 68 {
                cursor_move(VgaV { state: State::Plain, ..v }, byte, i)
            } else if byte == 59 {
                VgaV { state: State::Pair(i, 0), ..v }
            } else if byte == 109 {
                attr_step(VgaV { state: State::Plain, ..v }, i, 0)
            } else if 48 <= byte <= 57 {
                VgaV { state: State::Count(push_digit(i, byte)), ..v }
            } else {
                echo3(v, byte)
            }
        },
        State::Pair(i0, i1) => {
            if byte == 72 {
                VgaV { state: State::Plain, y: (i0 % 25) as u16, x: (i1 % 80) as u16, ..v }
            } else if byte == 109 {
                attr_step(VgaV { state: State::Plain, ..v }, i0, i1)
            } else if 48 <= byte <= 57 {
                VgaV { state: State::Pair(i0, push_digit(i1, byte)), ..v }
            } else {
                echo3(v, byte)
            }
        },
    }
}

/// A byte sequence through the console, in order.
pub open spec fn vga_steps(v: VgaV, bytes: Seq<u8>) -> VgaV
    decreases bytes.len(),
{
    if bytes.len() == 0 {
        v
    } else {
        vga_steps(vga_step(v, bytes[0]), bytes.drop_first())
    }
}

/// The console driver over its owned cell buffer.
pub struct Vga {
    buf: Vec<u16>,
    bg: Shade,
    fg: Shade,
    y: u16,
    x: u16,
    state: State,
}

impl View for Vga {
    type V = VgaV;

    closed spec fn view(&self) -> VgaV {
        VgaV {
            buf: self.buf@,
            bg: self.bg,
            fg: self.fg,
            y: self.y,
            x: self.x,
            state: self.state,
        }
    }
}

/// Every step keeps the console well-formed.
pub proof fn lemma_put_spaces_wf(v: VgaV, n: int)
    requires
        vga_wf(v),
    ensures
        vga_wf(put_spaces(v, n)),
    decreases n,
{
    if n > 0 {
        lemma_put_spaces_wf(put_glyph(v, 32), n - 1);
    }
}

/// Padding one space more pads the spaces first, then one more.
proof fn lemma_put_spaces_snoc(v: VgaV, n: int)
    requires
        n >= 0,
    ensures
        put_spaces(v, n + 1) == put_glyph(put_spaces(v, n), 32),
    decreases n,
{
    let w = put_glyph(v, 32);
    assert(put_spaces(v, n + 1) == put_spaces(w, n));
    if n > 0 {
        lemma_put_spaces_snoc(w, n - 1);
        assert(put_spaces(v, n) == put_spaces(w, n - 1));
    } else {
        assert(put_spaces(w, 0) == w);
        assert(put_spaces(v, 0) == v);
    }
}

impl Vga {
    /// A console with every cell blank in the default colours, the cursor
    /// home, and the parser in plain output. Enabling the hardware cursor
    /// is the shell's port traffic.
    pub fn new() -> (r: Vga)
        ensures
            vga_wf(r@),
            r@.buf =~= Seq::new(2000, |i: int| default_char_word()),
            r@.bg == Shade::Dark(Color::Black),
            r@.fg == Shade::Dark(Color::White),
            r@.x == 0,
            r@.y == 0,
            r@.state == State::Plain,
    {
        let mut vga = Vga {
            buf: Vec::new(),
            bg: Shade::default_bg(),
            fg: Shade::default_fg(),
            y: 0,
            x: 0,
            state: State::Plain,
        };
        let mut i: usize = 0;
        while i < 2000
            invariant
                i <= 2000,
                vga.buf@.len() == i,
                vga.bg == Shade::Dark(Color::Black),
                vga.fg == Shade::Dark(Color::White),
                vga.x == 0,
                vga.y == 0,
                vga.state == State::Plain,
                forall|j: int| 0 <= j < i ==> vga.buf@[j] == default_char_word(),
            decreases 2000 - i,
        {
            vga.buf.push(u16::from(Char::default()));
            i += 1;
        }
        proof {
            assert(vga.buf@ =~= Seq::new(2000, |i: int| default_char_word()));
        }
        vga
    }

    /// The cell words, row-major; the shell mirrors them into the mapped
    /// video memory.
    pub fn cells(&self) -> (r: &Vec<u16>)
        ensures
            r@ == self@.buf,
    {
        &self.buf
    }

    /// The cursor's row and column.
    pub fn cursor(&self) -> (r: (u16, u16))
        ensures
            r == (self@.y, self@.x),
    {
        (self.y, self.x)
    }

    /// Blanks every cell in the default colours; cursor, colours and
    /// parser state stay put.
    pub fn cls(&mut self)
        requires
            vga_wf(old(self)@),
        ensures
            vga_wf(final(self)@),
            final(self)@.buf =~= Seq::new(2000, |i: int| default_char_word()),
            final(self)@.bg == old(self)@.bg,
            final(self)@.fg == old(self)@.fg,
            final(self)@.x == old(self)@.x,
            final(self)@.y == old(self)@.y,
            final(self)@.state == old(self)@.state,
    {
        let ch = u16::from(Char::default());
        let mut i: usize = 0;
        while i < 2000
            invariant
                i <= 2000,
                self.buf@.len() == 2000,
                self.bg == old(self).bg,
                self.fg == old(self).fg,
                self.x == old(self).x,
                self.y == old(self).y,
                self.state == old(self).state,
                ch == default_char_word(),
                forall|j: int| 0 <= j < i ==> self.buf@[j] == default_char_word(),
            decreases 2000 - i,
        {
            self.buf.set(i, ch);
            i += 1;
        }
        proof {
            assert(self.buf@ =~= Seq::new(2000, |i: int| default_char_word()));
        }
    }

    /// Writes the glyph at the cursor and advances one cell.
    fn put(&mut self, byte: u8)
        requires
            vga_wf(old(self)@),
        ensures
            vga_wf(final(self)@),
            final(self)@ == put_glyph(old(self)@, byte),
    {
        let word = u16::from(Char(self.bg, self.fg, byte));
        let offset = (self.y as usize) * 80 + (self.x as usize);
        self.buf.set(offset, word);
        let nx = self.x + 1;
        self.x = nx % 80;
        self.y = (self.y + nx / 80) % 25;
    }

    /// One plain output byte, outside any escape sequence.
    fn write_plain(&mut self, byte: u8)
        requires
            vga_wf(old(self)@),
        ensures
            vga_wf(final(self)@),
            final(self)@ == plain_step(old(self)@, byte),
    {
        if byte == 0 {
            // dropped
        } else if byte == 8 {
            self.x = (self.x + 80 - 1) % 80;
        } else if byte == 9 {
            // tabs pad to the next multiple of four
            proof {
                let ox = self@.x;
                assert((ox as u8) & 3 == ox & 3) by (bit_vector)
                    requires
                        ox < 80,
                ;
                lemma_attr_bits((self.x as u8));
            }
            let n = 4 - ((self.x as u8) & 3);
            let mut k: u8 = 0;
            while k < n
                invariant
                    vga_wf(old(self)@),
                    vga_wf(self@),
                    k <= n,
                    n <= 4,
                    self@ == put_spaces(old(self)@, k as int),
                    n == 4 - (old(self)@.x & 3),
                decreases n - k,
            {
                self.put(32);
                proof {
                    lemma_put_spaces_snoc(old(self)@, k as int);
                }
                k += 1;
            }
        } else if byte == 10 {
            self.x = 0;
            self.y = (self.y + 1) % 25;
        } else if byte == 13 {
            self.x = 0;
        } else if byte == 0x1b {
            self.state = State::Esc;
        } else if byte < 0x20 {
            self.put(94);
            self.put(byte + 65);
        } else {
            self.put(byte);
        }
    }

    /// The cursor move a completed escape letter performs.
    fn do_cursor_move(&mut self, letter: u8, count: u16)
        requires
            vga_wf(old(self)@),
            letter == 65 || letter == 66 || letter == 67 || letter == 68,
        ensures
            vga_wf(final(self)@),
            final(self)@ == cursor_move(old(self)@, letter, count),
    {
        if letter == 65 {
            self.y = (self.y + count % 25) % 25;
        } else if letter == 66 {
            self.y = (self.y + 25 - count % 25) % 25;
        } else if letter == 67 {
            let nx = self.x + count % 80;
            self.x = nx % 80;
            self.y = (self.y + nx / 80) % 25;
        } else {
            self.x = (self.x + 80 - count % 80) % 80;
        }
    }

    /// Applies a colour attribute pair.
    fn do_attr(&mut self, a0: u16, a1: u16)
        requires
            vga_wf(old(self)@),
        ensures
            vga_wf(final(self)@),
            final(self)@ == attr_step(old(self)@, a0, a1),
    {
        if a0 == 0 && a1 == 0 {
            self.bg = Shade::default_bg();
            self.fg = Shade::default_fg();
        } else if a0 == 1 && 30 <= a1 && a1 <= 37 {
            self.fg = Shade::from_attr(8 | ((a1 - 30) as u8));
        } else if a1 == 1 && 30 <= a0 && a0 <= 37 {
            self.fg = Shade::from_attr(8 | ((a0 - 30) as u8));
        } else if a0 == 0 && 30 <= a1 && a1 <= 37 {
            self.fg = Shade::from_attr((a1 - 30) as u8);
        } else if a1 == 0 && 30 <= a0 && a0 <= 37 {
            self.fg = Shade::from_attr((a0 - 30) as u8);
        } else if a0 == 1 && 40 <= a1 && a1 <= 47 {
            self.bg = Shade::from_attr(8 | ((a1 - 30) as u8));
        } else if a1 == 1 && 40 <= a0 && a0 <= 47 {
            self.bg = Shade::from_attr(8 | ((a0 - 30) as u8));
        } else if a0 == 0 && 40 <= a1 && a1 <= 47 {
            self.bg = Shade::from_attr((a1 - 30) as u8);
        } else if a1 == 0 && 40 <= a0 && a0 <= 47 {
            self.bg = Shade::from_attr((a0 - 30) as u8);
        }
    }

    /// The echo of an unrecognized escape tail after `^[`.
    fn echo_esc(&mut self, byte: u8)
        requires
            vga_wf(old(self)@),
        ensures
            vga_wf(final(self)@),
            final(self)@ == echo2(old(self)@, byte),
    {
        self.state = State::Plain;
        self.write_plain(94);
        self.write_plain(91);
        self.write_plain(byte);
    }

    /// The echo of an unrecognized escape tail after `^[[`.
    fn echo_bracket(&mut self, byte: u8)
        requires
            vga_wf(old(self)@),
        ensures
            vga_wf(final(self)@),
            final(self)@ == echo3(old(self)@, byte),
    {
        self.state = State::Plain;
        self.write_plain(94);
        self.write_plain(91);
        self.write_plain(91);
        self.write_plain(byte);
    }

    /// One byte through the console: exactly the step the state machine
    /// specifies.
    pub fn write_byte(&mut self, byte: u8)
        requires
            vga_wf(old(self)@),
        ensures
            vga_wf(final(self)@),
            final(self)@ == vga_step(old(self)@, byte),
    {
        match self.state {
            State::Plain => self.write_plain(byte),
            State::Esc => {
                if byte == 91 {
                    self.state = State::Bracket;
                } else {
                    self.echo_esc(byte);
                }
            },
            State::Bracket => {
                if byte == 65 || byte == 66 || byte == 67 || byte == 68 {
                    self.state = State::Plain;
                    self.do_cursor_move(byte, 1);
                } else if byte == 72 {
                    self.state = State::Plain;
                    self.x = 0;
                    self.y = 0;
                } else if 48 <= byte && byte <= 57 {
                    self.state = State::Count((byte - 48) as u16);
                } else {
                    self.echo_bracket(byte);
                }
            },
            State::Count(i) => {
                if byte == 65 || byte == 66 || byte == 67 || byte == 68 {
                    self.state = State::Plain;
                    self.do_cursor_move(byte, i);
                } else if byte == 59 {
                    self.state = State::Pair(i, 0);
                } else if byte == 109 {
                    self.state = State::Plain;
                    self.do_attr(i, 0);
                } else if 48 <= byte && byte <= 57 {
                    let d = if i <= 999 {
                        i * 10 + ((byte - 48) as u16)
                    } else {
                        i
                    };
                    self.state = State::Count(d);
                } else {
                    self.echo_bracket(byte);
                }
            },
            State::Pair(i0, i1) => {
                if byte == 72 {
                    self.state = State::Plain;
                    self.y = i0 % 25;
                    self.x = i1 % 80;
                } else if byte == 109 {
                    self.state = State::Plain;
                    self.do_attr(i0, i1);
                } else if 48 <= byte && byte <= 57 {
                    let d = if i1 <= 999 {
                        i1 * 10 + ((byte - 48) as u16)
                    } else {
                        i1
                    };
                    self.state = State::Pair(i0, d);
                } else {
                    self.echo_bracket(byte);
                }
            },
        }
    }

    /// A whole byte sequence through the console, followed by a blank
    /// default-colour cell at the final cursor position (the visible
    /// cursor cell); the hardware cursor-register update is the shell's.
    #[verifier::rlimit(60)]
    pub fn write_bytes(&mut self, bytes: &[u8])
        requires
            vga_wf(old(self)@),
        ensures
            vga_wf(final(self)@),
            ({
                let v = vga_steps(old(self)@, bytes@);
                final(self)@ == (VgaV { buf: v.buf.update(v.y * 80 + v.x, default_char_word()), ..v })
            }),
    {
        proof {
            assert(bytes@.skip(0) =~= bytes@);
        }
        let mut i: usize = 0;
        while i < bytes.len()
            invariant
                vga_wf(self@),
                i <= bytes@.len(),
                vga_steps(old(self)@, bytes@) == vga_steps(self@, bytes@.skip(i as int)),
            decreases bytes@.len() - i,
        {
            proof {
                assert(bytes@.skip(i as int).drop_first() =~= bytes@.skip(i + 1));
            }
            self.write_byte(bytes[i]);
            i += 1;
        }
        proof {
            assert(bytes@.skip(i as int) =~= Seq::<u8>::empty());
        }
        let ch = u16::from(Char::default());
        let offset = (self.y as usize) * 80 + (self.x as usize);
        self.buf.set(offset, ch);
    }
}

} // verus!
