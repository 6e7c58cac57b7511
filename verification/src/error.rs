//! The ways in which recolouring can fail.

use vstd::prelude::*;

verus! {

/// A target palette that cannot be matched against.
#[derive(Clone, Copy, Debug, PartialEq, Eq, Structural)]
pub enum PaletteError {
    /// The palette holds no colour, so no colour is nearest to anything.
    EmptyPalette,
}

/// Why an image could not be recoloured. Every one of these ends the run.
#[derive(Debug)]
pub enum RecolorError {
    /// The target palette holds no colour.
    EmptyPalette,
    /// The input could not be read as a GIF image.
    Decode(gif::DecodingError),
    /// The output could not be written.
    Encode(gif::EncodingError),
}

} // verus!
