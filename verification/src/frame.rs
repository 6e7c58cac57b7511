//! One frame of an animation, and the remapping of its local colour table.

use crate::color::Color;
use crate::error::PaletteError;
use crate::mapper::{create_mapped_palette, mapped_table};
use vstd::prelude::*;

verus! {

/// What becomes of a frame's area once the frame has been shown.
#[derive(Clone, Copy, Debug, PartialEq, Eq, Structural)]
pub enum DisposalMethod {
    /// No action is asked for.
    Any,
    /// The frame is left in place.
    Keep,
    /// The area is restored to the background colour.
    Background,
    /// The area is restored to what was there before.
    Previous,
}

/// One frame of an animation. The bytes of `buffer` are indices into the frame's own colour
/// table where it has one, and into the image's global table where it has none.
#[derive(Clone, Debug, PartialEq, Eq)]
pub struct Frame {
    /// How long the frame is shown, in hundredths of a second.
    pub delay: u16,
    pub dispose: DisposalMethod,
    /// The index that stands for a transparent pixel, if any.
    pub transparent: Option<u8>,
    pub needs_user_input: bool,
    pub top: u16,
    pub left: u16,
    pub width: u16,
    pub height: u16,
    pub interlaced: bool,
    /// The frame's local colour table, as a flat sequence of RGB bytes.
    pub palette: Option<Vec<u8>>,
    pub buffer: Vec<u8>,
}

/// A frame as a mathematical value.
pub struct FrameView {
    pub delay: u16,
    pub dispose: DisposalMethod,
    pub transparent: Option<u8>,
    pub needs_user_input: bool,
    pub top: u16,
    pub left: u16,
    pub width: u16,
    pub height: u16,
    pub interlaced: bool,
    pub palette: Option<Seq<u8>>,
    pub buffer: Seq<u8>,
}

impl View for Frame {
    type V = FrameView;

    open spec fn view(&self) -> FrameView {
        FrameView {
            delay: self.delay,
            dispose: self.dispose,
            transparent: self.transparent,
            needs_user_input: self.needs_user_input,
            top: self.top,
            left: self.left,
            width: self.width,
            height: self.height,
            interlaced: self.interlaced,
            palette: match self.palette {
                Some(table) => Some(table@),
                None => None,
            },
            buffer: self.buffer@,
        }
    }
}

/// The frame that `frame` is remapped to: a local colour table is mapped onto `target`, a
/// frame without one stays without one, and every other field is kept.
pub open spec fn remapped_frame(frame: FrameView, target: Seq<Color>) -> FrameView {
    FrameView {
        palette: match frame.palette {
            Some(table) => Some(mapped_table(table, target)),
            None => None,
        },
        ..frame
    }
}

/// Remapping touches nothing but the colour table: timing, disposal, transparency index,
/// input flag, geometry, interlacing and the pixel indices are those of the frame as it was,
/// and a local table is there afterwards exactly if one was there before.
pub proof fn remapping_preserves_fields(frame: FrameView, target: Seq<Color>)
    ensures
        remapped_frame(frame, target).delay == frame.delay,
        remapped_frame(frame, target).dispose == frame.dispose,
        remapped_frame(frame, target).transparent == frame.transparent,
        remapped_frame(frame, target).needs_user_input == frame.needs_user_input,
        remapped_frame(frame, target).top == frame.top,
        remapped_frame(frame, target).left == frame.left,
        remapped_frame(frame, target).width == frame.width,
        remapped_frame(frame, target).height == frame.height,
        remapped_frame(frame, target).interlaced == frame.interlaced,
        remapped_frame(frame, target).buffer == frame.buffer,
        remapped_frame(frame, target).palette is Some <==> frame.palette is Some,
{
}

/// Whether `frame` has a local colour table that holds at least one complete entry.
pub open spec fn has_local_entry(frame: FrameView) -> bool {
    frame.palette matches Some(table) && table.len() >= 3
}

/// Remaps one frame onto `target`: a local colour table is replaced by its mapping, a frame
/// without one refers to the global table as before, and all other fields, the pixel indices
/// among them, are handed on as they are. It fails only where a local table has an entry to
/// map and the target palette is empty.
pub fn remap_frame(frame: Frame, target: &[Color]) -> (remapped: Result<Frame, PaletteError>)
    ensures
        remapped is Err <==> target@.len() == 0 && has_local_entry(frame@),
        remapped matches Ok(out) ==> out@ == remapped_frame(frame@, target@),
{
    let palette = match &frame.palette {
        Some(table) => match create_mapped_palette(table.as_slice(), target) {
            Ok(mapped) => Some(mapped),
            Err(e) => {
                return Err(e);
            },
        },
        None => None,
    };
    Ok(
        Frame {
            delay: frame.delay,
            dispose: frame.dispose,
            transparent: frame.transparent,
            needs_user_input: frame.needs_user_input,
            top: frame.top,
            left: frame.left,
            width: frame.width,
            height: frame.height,
            interlaced: frame.interlaced,
            palette,
            buffer: frame.buffer,
        },
    )
}

} // verus!
