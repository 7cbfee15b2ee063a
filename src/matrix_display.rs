//! The frame buffer: one bitmap for each of the four cells, left to right.
use vstd::prelude::*;
use crate::symbols::{self, Letters, blank_rows, exclamation_rows, letter_rows};
use crate::utils::{shift_bits, shifted_rows};

verus! {

pub struct MatrixDisplay {
    pub first_matrix: [u8; 8],
    pub second_matrix: [u8; 8],
    pub third_matrix: [u8; 8],
    pub fourth_matrix: [u8; 8],
}

/// A frame of four cells given by their rows.
pub open spec fn frame(a: Seq<u8>, b: Seq<u8>, c: Seq<u8>, d: Seq<u8>) -> Seq<Seq<u8>> {
    seq![a, b, c, d]
}

/// The frame that reads "ERR!".
pub open spec fn error_frame() -> Seq<Seq<u8>> {
    frame(letter_rows(Letters::E), letter_rows(Letters::R), letter_rows(Letters::R), exclamation_rows())
}

impl MatrixDisplay {
    /// The four cells, left to right.
    pub open spec fn cells(&self) -> Seq<Seq<u8>> {
        frame(self.first_matrix@, self.second_matrix@, self.third_matrix@, self.fourth_matrix@)
    }

    /// A frame of four blank cells.
    pub fn new() -> (r: Self)
        ensures
            r.cells() == frame(blank_rows(), blank_rows(), blank_rows(), blank_rows()),
    {
        Self {
            first_matrix: symbols::blank(),
            second_matrix: symbols::blank(),
            third_matrix: symbols::blank(),
            fourth_matrix: symbols::blank(),
        }
    }

    /// Replaces the frame with the error message.
    pub fn set_error(&mut self)
        ensures
            final(self).cells() == error_frame(),
    {
        self.first_matrix = Letters::E.bytes();
        self.second_matrix = Letters::R.bytes();
        self.third_matrix = Letters::R.bytes();
        self.fourth_matrix = symbols::exclamation_mark();
    }

    /// Shifts every row of every cell right by `shift` bits.
    pub fn matrix_shift(&mut self, shift: u8)
        requires
            shift < 8,
        ensures
            final(self).cells() == frame(
                shifted_rows(old(self).first_matrix@, shift),
                shifted_rows(old(self).second_matrix@, shift),
                shifted_rows(old(self).third_matrix@, shift),
                shifted_rows(old(self).fourth_matrix@, shift),
            ),
    {
        shift_bits(&mut self.first_matrix, shift);
        shift_bits(&mut self.second_matrix, shift);
        shift_bits(&mut self.third_matrix, shift);
        shift_bits(&mut self.fourth_matrix, shift);
    }
}

} // verus!
