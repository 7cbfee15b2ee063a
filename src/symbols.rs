//! Bitmaps of the glyphs that the display can show: eight rows of one byte,
//! the glyph drawn in columns 6..2 so that a cell can be shifted right and
//! still leave room for punctuation dots in its outer columns.
use vstd::prelude::*;

verus! {

/// The letters that labels and messages are spelled with.
#[derive(Clone, Copy, Debug, PartialEq, Eq, Structural)]
pub enum Letters {
    A,
    D,
    E,
    F,
    I,
    L,
    M,
    N,
    O,
    R,
    T,
    U,
}

/// Rows of the decimal digit `d` (a blank cell for anything else).
pub open spec fn digit_rows(d: int) -> Seq<u8> {
    if d == 0 {
        seq![56u8, 68, 76, 84, 100, 68, 56, 0]
    } else if d == 1 {
        seq![16u8, 48, 16, 16, 16, 16, 56, 0]
    } else if d == 2 {
        seq![56u8, 68, 4, 8, 16, 32, 124, 0]
    } else if d == 3 {
        seq![124u8, 8, 16, 8, 4, 68, 56, 0]
    } else if d == 4 {
        seq![8u8, 24, 40, 72, 124, 8, 8, 0]
    } else if d == 5 {
        seq![124u8, 64, 120, 4, 4, 68, 56, 0]
    } else if d == 6 {
        seq![24u8, 32, 64, 120, 68, 68, 56, 0]
    } else if d == 7 {
        seq![124u8, 4, 8, 16, 32, 32, 32, 0]
    } else if d == 8 {
        seq![56u8, 68, 68, 56, 68, 68, 56, 0]
    } else if d == 9 {
        seq![56u8, 68, 68, 60, 4, 8, 48, 0]
    } else {
        blank_rows()
    }
}

/// Rows of an empty cell.
pub open spec fn blank_rows() -> Seq<u8> {
    seq![0u8, 0, 0, 0, 0, 0, 0, 0]
}

/// Rows of the exclamation mark.
pub open spec fn exclamation_rows() -> Seq<u8> {
    seq![16u8, 16, 16, 16, 16, 0, 16, 0]
}

/// Rows of the letter `l`.
pub open spec fn letter_rows(l: Letters) -> Seq<u8> {
    match l {
        Letters::A => seq![56u8, 68, 68, 124, 68, 68, 68, 0],
        Letters::D => seq![112u8, 72, 68, 68, 68, 72, 112, 0],
        Letters::E => seq![124u8, 64, 64, 120, 64, 64, 124, 0],
        Letters::F => seq![124u8, 64, 64, 120, 64, 64, 64, 0],
        Letters::I => seq![56u8, 16, 16, 16, 16, 16, 56, 0],
        Letters::L => seq![64u8, 64, 64, 64, 64, 64, 124, 0],
        Letters::M => seq![68u8, 108, 84, 84, 68, 68, 68, 0],
        Letters::N => seq![68u8, 68, 100, 84, 76, 68, 68, 0],
        Letters::O => seq![56u8, 68, 68, 68, 68, 68, 56, 0],
        Letters::R => seq![120u8, 68, 68, 120, 80, 72, 68, 0],
        Letters::T => seq![124u8, 16, 16, 16, 16, 16, 16, 0],
        Letters::U => seq![68u8, 68, 68, 68, 68, 68, 56, 0],
    }
}

/// The bitmap of the decimal digit `d`.
pub fn digit(d: u8) -> (r: [u8; 8])
    requires
        d < 10,
    ensures
        r@ == digit_rows(d as int),
{
    let r: [u8; 8] = match d {
        0 => [56, 68, 76, 84, 100, 68, 56, 0],
        1 => [16, 48, 16, 16, 16, 16, 56, 0],
        2 => [56, 68, 4, 8, 16, 32, 124, 0],
        3 => [124, 8, 16, 8, 4, 68, 56, 0],
        4 => [8, 24, 40, 72, 124, 8, 8, 0],
        5 => [124, 64, 120, 4, 4, 68, 56, 0],
        6 => [24, 32, 64, 120, 68, 68, 56, 0],
        7 => [124, 4, 8, 16, 32, 32, 32, 0],
        8 => [56, 68, 68, 56, 68, 68, 56, 0],
        _ => [56, 68, 68, 60, 4, 8, 48, 0],
    };
    proof {
        assert(r@ =~= digit_rows(d as int));
    }
    r
}

/// The bitmap of an empty cell.
pub fn blank() -> (r: [u8; 8])
    ensures
        r@ == blank_rows(),
{
    let r: [u8; 8] = [0, 0, 0, 0, 0, 0, 0, 0];
    proof {
        assert(r@ =~= blank_rows());
    }
    r
}

/// The bitmap of the exclamation mark.
pub fn exclamation_mark() -> (r: [u8; 8])
    ensures
        r@ == exclamation_rows(),
{
    let r: [u8; 8] = [16, 16, 16, 16, 16, 0, 16, 0];
    proof {
        assert(r@ =~= exclamation_rows());
    }
    r
}

impl Letters {
    /// The bitmap of this letter.
    pub fn bytes(&self) -> (r: [u8; 8])
        ensures
            r@ == letter_rows(*self),
    {
        let r: [u8; 8] = match self {
            Letters::A => [56, 68, 68, 124, 68, 68, 68, 0],
            Letters::D => [112, 72, 68, 68, 68, 72, 112, 0],
            Letters::E => [124, 64, 64, 120, 64, 64, 124, 0],
            Letters::F => [124, 64, 64, 120, 64, 64, 64, 0],
            Letters::I => [56, 16, 16, 16, 16, 16, 56, 0],
            Letters::L => [64, 64, 64, 64, 64, 64, 124, 0],
            Letters::M => [68, 108, 84, 84, 68, 68, 68, 0],
            Letters::N => [68, 68, 100, 84, 76, 68, 68, 0],
            Letters::O => [56, 68, 68, 68, 68, 68, 56, 0],
            Letters::R => [120, 68, 68, 120, 80, 72, 68, 0],
            Letters::T => [124, 16, 16, 16, 16, 16, 16, 0],
            Letters::U => [68, 68, 68, 68, 68, 68, 56, 0],
        };
        proof {
            assert(r@ =~= letter_rows(*self));
        }
        r
    }
}

} // verus!
