//! The three pixel states of the panel and how the two planes encode them.

use vstd::prelude::*;

verus! {

/// State of one pixel.
#[derive(Clone, Copy, PartialEq, Eq, Structural, Debug)]
pub enum Color {
    Black,
    White,
    /// The panel's third pigment, yellow or red depending on the variant.
    Accent,
}

impl Color {
    /// The pixel's bit in the black plane: clear draws black, set leaves the
    /// background. An accent pixel keeps it set.
    pub open spec fn black_bit(self) -> bool {
        self != Color::Black
    }

    /// The pixel's bit in the accent plane: set draws the accent pigment.
    pub open spec fn accent_bit(self) -> bool {
        self == Color::Accent
    }

    /// The color that a pair of plane bits shows: accent where the accent bit is
    /// set, else black where the black bit is clear, else white.
    pub open spec fn from_bits(black: bool, accent: bool) -> Color {
        if accent {
            Color::Accent
        } else if !black {
            Color::Black
        } else {
            Color::White
        }
    }

    /// The byte that fills the black plane with this color.
    pub open spec fn spec_black_fill(self) -> u8 {
        if self.black_bit() {
            0xFF
        } else {
            0x00
        }
    }

    /// The byte that fills the accent plane with this color.
    pub open spec fn spec_accent_fill(self) -> u8 {
        if self.accent_bit() {
            0xFF
        } else {
            0x00
        }
    }

    /// Whether this color sets the pixel's bit in the black plane.
    pub fn sets_black_bit(self) -> (on: bool)
        ensures
            on == self.black_bit(),
    {
        match self {
            Color::Black => false,
            Color::White | Color::Accent => true,
        }
    }

    /// Whether this color sets the pixel's bit in the accent plane.
    pub fn sets_accent_bit(self) -> (on: bool)
        ensures
            on == self.accent_bit(),
    {
        match self {
            Color::Black | Color::White => false,
            Color::Accent => true,
        }
    }

    /// The byte that fills the black plane with this color.
    pub fn black_fill(self) -> (byte: u8)
        ensures
            byte == self.spec_black_fill(),
    {
        if self.sets_black_bit() {
            0xFF
        } else {
            0x00
        }
    }

    /// The byte that fills the accent plane with this color.
    pub fn accent_fill(self) -> (byte: u8)
        ensures
            byte == self.spec_accent_fill(),
    {
        if self.sets_accent_bit() {
            0xFF
        } else {
            0x00
        }
    }

    /// Reads a color back from a pair of plane bits.
    pub fn decode(black: bool, accent: bool) -> (color: Color)
        ensures
            color == Color::from_bits(black, accent),
    {
        if accent {
            Color::Accent
        } else if !black {
            Color::Black
        } else {
            Color::White
        }
    }
}

/// Decoding the bits that a color is stored as gives the color back.
pub proof fn lemma_decode_encode(color: Color)
    ensures
        Color::from_bits(color.black_bit(), color.accent_bit()) == color,
{
}

} // verus!
