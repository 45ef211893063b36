//! Cell codec: the sixteen palette colours, the packed colour attribute and
//! the two-byte on-screen cell.

use vstd::prelude::*;

verus! {

/// The sixteen colours of the text-mode palette, in palette order.
#[derive(Debug, Clone, Copy, PartialEq, Eq, Structural)]
pub enum Colour {
    Black,
    Blue,
    Green,
    Cyan,
    Red,
    Magenta,
    Brown,
    LightGray,
    DarkGray,
    LightBlue,
    LightGreen,
    LightCyan,
    LightRed,
    Pink,
    Yellow,
    White,
}

impl Colour {
    /// The colour's four-bit palette index.
    pub open spec fn spec_index(self) -> u8 {
        match self {
            Colour::Black => 0,
            Colour::Blue => 1,
            Colour::Green => 2,
            Colour::Cyan => 3,
            Colour::Red => 4,
            Colour::Magenta => 5,
            Colour::Brown => 6,
            Colour::LightGray => 7,
            Colour::DarkGray => 8,
            Colour::LightBlue => 9,
            Colour::LightGreen => 10,
            Colour::LightCyan => 11,
            Colour::LightRed => 12,
            Colour::Pink => 13,
            Colour::Yellow => 14,
            Colour::White => 15,
        }
    }

    /// The colour whose palette index is `n`, for `n < 16`.
    pub open spec fn spec_from_index(n: u8) -> Colour
        recommends
            n < 16,
    {
        if n == 0 {
            Colour::Black
        } else if n == 1 {
            Colour::Blue
        } else if n == 2 {
            Colour::Green
        } else if n == 3 {
            Colour::Cyan
        } else if n == 4 {
            Colour::Red
        } else if n == 5 {
            Colour::Magenta
        } else if n == 6 {
            Colour::Brown
        } else if n == 7 {
            Colour::LightGray
        } else if n == 8 {
            Colour::DarkGray
        } else if n == 9 {
            Colour::LightBlue
        } else if n == 10 {
            Colour::LightGreen
        } else if n == 11 {
            Colour::LightCyan
        } else if n == 12 {
            Colour::LightRed
        } else if n == 13 {
            Colour::Pink
        } else if n == 14 {
            Colour::Yellow
        } else {
            Colour::White
        }
    }

    /// A palette index is below 16 and names its colour back.
    pub proof fn lemma_index_bound(self)
        ensures
            self.spec_index() < 16,
            Colour::spec_from_index(self.spec_index()) == self,
    {
    }

    /// Returns the colour's palette index.
    pub fn index(self) -> (r: u8)
        ensures
            r == self.spec_index(),
            r < 16,
    {
        match self {
            Colour::Black => 0,
            Colour::Blue => 1,
            Colour::Green => 2,
            Colour::Cyan => 3,
            Colour::Red => 4,
            Colour::Magenta => 5,
            Colour::Brown => 6,
            Colour::LightGray => 7,
            Colour::DarkGray => 8,
            Colour::LightBlue => 9,
            Colour::LightGreen => 10,
            Colour::LightCyan => 11,
            Colour::LightRed => 12,
            Colour::Pink => 13,
            Colour::Yellow => 14,
            Colour::White => 15,
        }
    }

    /// Returns the colour with palette index `n`, or `None` when `n` is 16 or more.
    pub fn from_index(n: u8) -> (r: Option<Colour>)
        ensures
            n < 16 ==> r == Some(Colour::spec_from_index(n)),
            n >= 16 ==> r is None,
            r matches Some(c) ==> c.spec_index() == n,
    {
        if n == 0 {
            Some(Colour::Black)
        } else if n == 1 {
            Some(Colour::Blue)
        } else if n == 2 {
            Some(Colour::Green)
        } else if n == 3 {
            Some(Colour::Cyan)
        } else if n == 4 {
            Some(Colour::Red)
        } else if n == 5 {
            Some(Colour::Magenta)
        } else if n == 6 {
            Some(Colour::Brown)
        } else if n == 7 {
            Some(Colour::LightGray)
        } else if n == 8 {
            Some(Colour::DarkGray)
        } else if n == 9 {
            Some(Colour::LightBlue)
        } else if n == 10 {
            Some(Colour::LightGreen)
        } else if n == 11 {
            Some(Colour::LightCyan)
        } else if n == 12 {
            Some(Colour::LightRed)
        } else if n == 13 {
            Some(Colour::Pink)
        } else if n == 14 {
            Some(Colour::Yellow)
        } else if n == 15 {
            Some(Colour::White)
        } else {
            None
        }
    }
}

/// A foreground and a background colour packed into one attribute byte:
/// the foreground in the low nibble, the background in the high nibble.
#[derive(Debug, Clone, Copy, PartialEq, Eq, Structural)]
pub struct ColourCode(pub u8);

/// The attribute byte for a colour pair: `(background << 4) | foreground`.
pub open spec fn attribute_byte(foreground: Colour, background: Colour) -> u8 {
    ((background.spec_index() as u8) << 4u8) | foreground.spec_index()
}

impl ColourCode {
    pub open spec fn spec_new(foreground: Colour, background: Colour) -> ColourCode {
        ColourCode(attribute_byte(foreground, background))
    }

    /// The colour of the low nibble.
    pub open spec fn spec_foreground(self) -> Colour {
        Colour::spec_from_index(self.0 & 0xf)
    }

    /// The colour of the high nibble.
    pub open spec fn spec_background(self) -> Colour {
        Colour::spec_from_index(self.0 >> 4u8)
    }

    /// Packs a foreground and a background colour into an attribute.
    pub fn new(foreground: Colour, background: Colour) -> (r: ColourCode)
        ensures
            r == ColourCode::spec_new(foreground, background),
    {
        ColourCode((background.index() << 4u8) | foreground.index())
    }

    /// Decodes the foreground colour from the low nibble.
    pub fn foreground(self) -> (r: Colour)
        ensures
            r == self.spec_foreground(),
            r.spec_index() == self.0 & 0xf,
    {
        let b: u8 = self.0;
        let n: u8 = b & 0xf;
        assert(n < 16) by (bit_vector)
            requires
                n == b & 0xf,
        ;
        match Colour::from_index(n) {
            Some(c) => c,
            None => Colour::White,
        }
    }

    /// Decodes the background colour from the high nibble.
    pub fn background(self) -> (r: Colour)
        ensures
            r == self.spec_background(),
            r.spec_index() == self.0 >> 4u8,
    {
        let b: u8 = self.0;
        let n: u8 = b >> 4u8;
        assert(n < 16) by (bit_vector)
            requires
                n == b >> 4u8,
        ;
        match Colour::from_index(n) {
            Some(c) => c,
            None => Colour::White,
        }
    }
}

/// One on-screen cell: a character byte and its colour attribute.
#[derive(Debug, Clone, Copy, PartialEq, Eq, Structural)]
pub struct ScreenChar {
    pub ascii_character: u8,
    pub colour_code: ColourCode,
}

/// The two-byte hardware layout of a cell read as a little-endian word:
/// byte 0 is the character, byte 1 the attribute.
pub open spec fn spec_encode(c: ScreenChar) -> u16 {
    (c.ascii_character as u16) | ((c.colour_code.0 as u16) << 8u16)
}

/// The cell that a two-byte word holds.
pub open spec fn spec_decode(w: u16) -> ScreenChar {
    ScreenChar { ascii_character: (w & 0xff) as u8, colour_code: ColourCode((w >> 8u16) as u8) }
}

pub proof fn lemma_decode_encode(c: ScreenChar)
    ensures
        spec_decode(spec_encode(c)) == c,
{
    let a = c.ascii_character;
    let k = c.colour_code.0;
    assert(((a as u16) | ((k as u16) << 8u16)) & 0xff == a as u16) by (bit_vector);
    assert(((((a as u16) | ((k as u16) << 8u16)) >> 8u16) as u8) == k) by (bit_vector);
}

impl ScreenChar {
    /// Pairs a character byte with an attribute.
    pub fn encode(ascii_character: u8, colour_code: ColourCode) -> (r: ScreenChar)
        ensures
            r.ascii_character == ascii_character,
            r.colour_code == colour_code,
    {
        ScreenChar { ascii_character, colour_code }
    }

    /// The cell as the word that the hardware reads.
    pub fn to_word(self) -> (r: u16)
        ensures
            r == spec_encode(self),
    {
        (self.ascii_character as u16) | ((self.colour_code.0 as u16) << 8u16)
    }

    /// The cell that a hardware word holds.
    pub fn from_word(w: u16) -> (r: ScreenChar)
        ensures
            r == spec_decode(w),
    {
        ScreenChar { ascii_character: (w & 0xff) as u8, colour_code: ColourCode((w >> 8u16) as u8) }
    }
}

} // verus!
