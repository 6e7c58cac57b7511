//! The frame remap pipeline: decides the global colour table once, then reads the frames one
//! at a time, remaps each and writes it, in the order in which they arrive.

use crate::codec::{
    decoded, encodable, encoded, finish, frames_fit, new_sink, open_source, read_frame,
    set_repeat_infinite, sink_view, source_global_table, source_height, source_view,
    source_width, write_frame, FrameSink, FrameSource, SinkView, SourceView,
};
use crate::color::Color;
use crate::error::{PaletteError, RecolorError};
use crate::frame::{remap_frame, remapped_frame, FrameView};
use crate::mapper::{create_mapped_palette, flatten_palette, flattened, mapped_table};
use vstd::prelude::*;

verus! {

/// A recoloured image: the bytes of the new GIF file, and the number of frames it holds.
#[derive(Debug)]
pub struct Recolored {
    pub bytes: Vec<u8>,
    pub frames: usize,
}

/// The global colour table of the output. Where the source has a global table that is not
/// empty, it is that table mapped onto `target`; where it has none, or an empty one, the
/// target palette itself, laid out flat, becomes the table.
pub open spec fn global_table_for(source: Option<Seq<u8>>, target: Seq<Color>) -> Seq<u8> {
    match source {
        Some(table) => if table.len() > 0 {
            mapped_table(table, target)
        } else {
            flattened(target)
        },
        None => flattened(target),
    }
}

/// The frames of `frames`, each remapped onto `target`, in the same order.
pub open spec fn remapped_frames(frames: Seq<FrameView>, target: Seq<Color>) -> Seq<FrameView> {
    frames.map_values(|frame: FrameView| remapped_frame(frame, target))
}

/// What the output is made from, for a source and a target palette: the screen size of the
/// source, the global table decided by `global_table_for`, endless looping, and the remapped
/// frames.
pub open spec fn recolored_sink(source: SourceView, target: Seq<Color>) -> SinkView {
    SinkView {
        width: source.width,
        height: source.height,
        global_table: global_table_for(source.global_table, target),
        looping: true,
        frames: remapped_frames(source.pending, target),
    }
}

/// A number of frames as a counter that stops at its largest value.
pub open spec fn counted(frames: nat) -> usize {
    if frames <= usize::MAX {
        frames as usize
    } else {
        usize::MAX
    }
}

/// Remapping a sequence of frames gives as many frames, and each is the remapping of the
/// frame at its place: none is dropped, added or moved.
pub proof fn remapping_keeps_count_and_order(frames: Seq<FrameView>, target: Seq<Color>)
    ensures
        remapped_frames(frames, target).len() == frames.len(),
        forall|i: int|
            0 <= i < frames.len() ==> #[trigger] remapped_frames(frames, target)[i]
                == remapped_frame(frames[i], target),
{
}

/// Decides the global colour table of the output from that of the source (`None` where the
/// source declares none) and the target palette. See `global_table_for`.
pub fn mapped_global_table(source: Option<&[u8]>, target: &[Color]) -> (table: Result<
    Vec<u8>,
    PaletteError,
>)
    ensures
        table is Err <==> target@.len() == 0 && (source matches Some(bytes) && bytes@.len() >= 3),
        table matches Ok(bytes) ==> bytes@ == global_table_for(
            match source {
                Some(bytes) => Some(bytes@),
                None => None,
            },
            target@,
        ),
{
    match source {
        Some(bytes) => {
            if bytes.len() > 0 {
                create_mapped_palette(bytes, target)
            } else {
                Ok(flatten_palette(target))
            }
        },
        None => Ok(flatten_palette(target)),
    }
}

/// Reads the frames of `source` to its end, remaps each onto `target` and writes it to `sink`
/// before the next is read. Returns the number of frames. It stops at the first frame that
/// the encoder refuses, and, where every frame is taken, at the error with which the stream
/// breaks off.
fn remap_frames(source: &mut FrameSource, sink: &mut FrameSink, target: &[Color]) -> (count: Result<
    usize,
    RecolorError,
>)
    requires
        target@.len() > 0,
    ensures
        count is Ok <==> source_view(*old(source)).complete && frames_fit(
            remapped_frames(source_view(*old(source)).pending, target@),
            sink_view(*old(sink)).global_table,
        ),
        count matches Ok(n) ==> {
            &&& n == counted(source_view(*old(source)).pending.len())
            &&& sink_view(*final(sink)) == (SinkView {
                frames: sink_view(*old(sink)).frames + remapped_frames(
                    source_view(*old(source)).pending,
                    target@,
                ),
                ..sink_view(*old(sink))
            })
        },
        count matches Err(RecolorError::Encode(_)) <==> !frames_fit(
            remapped_frames(source_view(*old(source)).pending, target@),
            sink_view(*old(sink)).global_table,
        ),
        !(count matches Err(RecolorError::EmptyPalette)),
{
    let ghost initial = source_view(*source);
    let ghost pending = initial.pending;
    let ghost before = sink_view(*sink);
    let ghost done: int = 0;
    let mut count: usize = 0;
    assert(before.frames + remapped_frames(pending.take(0), target@) =~= before.frames);
    assert(pending.skip(0) =~= pending);
    loop
        invariant_except_break
            source_view(*source) == (SourceView { pending: pending.skip(done), ..initial }),
        invariant
            initial == source_view(*old(source)),
            before == sink_view(*old(sink)),
            pending == initial.pending,
            target@.len() > 0,
            0 <= done <= pending.len(),
            sink_view(*sink) == (SinkView {
                frames: before.frames + remapped_frames(pending.take(done), target@),
                ..before
            }),
            frames_fit(remapped_frames(pending.take(done), target@), before.global_table),
            count == counted(done as nat),
        ensures
            done == pending.len(),
            initial.complete,
        decreases pending.len() - done,
    {
        let frame = match read_frame(source) {
            Ok(Some(frame)) => frame,
            Ok(None) => {
                break ;
            },
            Err(e) => {
                assert(pending.take(done) =~= pending);
                return Err(RecolorError::Decode(e));
            },
        };
        assert(frame.width == 0 || frame.height == 0 ==> frame.width * frame.height == 0)
            by (nonlinear_arith);
        let remapped = match remap_frame(frame, target) {
            Ok(remapped) => remapped,
            // Remapping fails for an empty palette only.
            Err(_) => {
                return Err(RecolorError::EmptyPalette);
            },
        };
        assert(remapped@ == remapped_frames(pending, target@)[done]);
        match write_frame(sink, &remapped) {
            Ok(()) => {},
            Err(e) => {
                return Err(RecolorError::Encode(e));
            },
        }
        count = count.saturating_add(1);
        proof {
            assert(pending.skip(done).skip(1) =~= pending.skip(done + 1));
            assert(pending.take(done + 1) =~= pending.take(done).push(pending[done]));
            assert(remapped_frames(pending.take(done + 1), target@) =~= remapped_frames(
                pending.take(done),
                target@,
            ).push(remapped@));
            assert((before.frames + remapped_frames(pending.take(done), target@)).push(remapped@)
                =~= before.frames + remapped_frames(pending.take(done + 1), target@));
            done = done + 1;
        }
    }
    assert(pending.take(done) =~= pending);
    Ok(count)
}

/// Recolours the GIF image in `input`: every colour that the image uses is replaced by the
/// colour of `target` nearest to it. The global colour table is decided once, the output loops
/// endlessly, and the frames follow in their order, each with its timing, disposal,
/// transparency index, geometry and pixel indices unchanged. Only colour tables differ.
///
/// An empty target palette is refused before anything is read. Otherwise the run succeeds
/// exactly if the input decodes, the encoder takes the global table and every remapped frame,
/// and the stream of frames ends in order. What the encoder refuses is an encoding error;
/// where it refuses nothing, an input that the decoder refuses or that breaks off is a
/// decoding error.
pub fn recolor(input: &[u8], target: &[Color]) -> (outcome: Result<Recolored, RecolorError>)
    ensures
        outcome is Ok <==> target@.len() > 0 && (decoded(input@) matches Some(source)
            && source.complete && encodable(recolored_sink(source, target@))),
        outcome matches Ok(out) ==> {
            &&& decoded(input@) matches Some(source)
            &&& out.frames == counted(source.pending.len())
            &&& out.bytes@ == encoded(recolored_sink(source, target@))
        },
        outcome matches Err(RecolorError::EmptyPalette) <==> target@.len() == 0,
        outcome matches Err(RecolorError::Encode(_)) <==> target@.len() > 0 && (decoded(
            input@,
        ) matches Some(source) && !encodable(recolored_sink(source, target@))),
        outcome matches Err(RecolorError::Decode(_)) <==> target@.len() > 0 && match decoded(
            input@,
        ) {
            Some(source) => encodable(recolored_sink(source, target@)) && !source.complete,
            None => true,
        },
{
    if target.len() == 0 {
        return Err(RecolorError::EmptyPalette);
    }
    let mut source = match open_source(input) {
        Ok(source) => source,
        Err(e) => {
            return Err(RecolorError::Decode(e));
        },
    };
    let ghost goal = recolored_sink(source_view(source), target@);
    let source_table = source_global_table(&source);
    let mapped = match &source_table {
        Some(bytes) => mapped_global_table(Some(bytes.as_slice()), target),
        None => mapped_global_table(None, target),
    };
    let global_table = match mapped {
        Ok(table) => table,
        // Mapping fails for an empty palette only.
        Err(_) => {
            return Err(RecolorError::EmptyPalette);
        },
    };
    let made = new_sink(source_width(&source), source_height(&source), global_table.as_slice());
    let mut sink = match made {
        Ok(sink) => sink,
        Err(e) => {
            return Err(RecolorError::Encode(e));
        },
    };
    match set_repeat_infinite(&mut sink) {
        Ok(()) => {},
        Err(e) => {
            return Err(RecolorError::Encode(e));
        },
    }
    let frames = match remap_frames(&mut source, &mut sink, target) {
        Ok(frames) => frames,
        Err(e) => {
            return Err(e);
        },
    };
    assert(sink_view(sink) == goal) by {
        assert(Seq::<FrameView>::empty() + goal.frames =~= goal.frames);
    }
    match finish(sink) {
        Ok(bytes) => Ok(Recolored { bytes, frames }),
        Err(e) => Err(RecolorError::Encode(e)),
    }
}

} // verus!
