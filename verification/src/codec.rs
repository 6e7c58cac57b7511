//! The GIF codec as this library sees it. Decoding and encoding are done by the `gif` crate;
//! nothing in this module is proved. Each item states what is taken on trust about one item of
//! that crate, over two models: a source is the frames that are still to be read from it, a
//! sink is the frames that have been written to it.

use crate::frame::{DisposalMethod, Frame, FrameView};
use vstd::prelude::*;

verus! {

/// What a GIF source holds: the logical screen, and the frames that reading will yield before
/// the stream ends or fails, in order.
pub struct SourceView {
    pub width: u16,
    pub height: u16,
    /// The global colour table; `None` where the image declares none.
    pub global_table: Option<Seq<u8>>,
    pub pending: Seq<FrameView>,
    /// Whether the stream ends in order after the pending frames, rather than with an error.
    pub complete: bool,
}

/// What a GIF sink has been given: the logical screen it was made with, whether endless
/// looping was asked for, and the frames written, in order.
pub struct SinkView {
    pub width: u16,
    pub height: u16,
    pub global_table: Seq<u8>,
    pub looping: bool,
    pub frames: Seq<FrameView>,
}

/// Whether the encoder takes `table` as a colour table: it holds at most 256 entries.
pub open spec fn table_fits(table: Seq<u8>) -> bool {
    table.len() / 3 <= 256
}

/// Whether the encoder takes `frame` into an image whose global colour table is
/// `global_table`: the buffer has a byte for every pixel of the frame's area, and the frame
/// has a colour table to refer to, its own, of at most 256 entries, or else a global one with
/// an entry in it.
pub open spec fn frame_fits(frame: FrameView, global_table: Seq<u8>) -> bool {
    &&& frame.buffer.len() >= frame.width * frame.height
    &&& match frame.palette {
        Some(table) => table_fits(table),
        None => global_table.len() >= 3,
    }
}

/// Whether the encoder takes each of `frames` into an image whose global colour table is
/// `global_table`.
pub open spec fn frames_fit(frames: Seq<FrameView>, global_table: Seq<u8>) -> bool {
    forall|i: int| 0 <= i < frames.len() ==> frame_fits(#[trigger] frames[i], global_table)
}

/// Whether the encoder takes everything that `sink` holds: the global colour table and each
/// frame.
pub open spec fn encodable(sink: SinkView) -> bool {
    table_fits(sink.global_table) && frames_fit(sink.frames, sink.global_table)
}

/// A decoder of the `gif` crate (`gif::Decoder`) that reads an image held in memory. The type
/// parameter of `gif::Decoder` is bound by `std::io::Read`, which Verus does not know, so the
/// decoder is held in a struct whose inside Verus does not read.
#[verifier::external_body]
pub struct FrameSource<'a> {
    decoder: gif::Decoder<&'a [u8]>,
}

/// An encoder of the `gif` crate (`gif::Encoder`) that writes into a buffer in memory, held
/// as the decoder is: the type parameter of `gif::Encoder` is bound by `std::io::Write`.
#[verifier::external_body]
pub struct FrameSink {
    encoder: gif::Encoder<Vec<u8>>,
}

/// The error type of the decoder, `gif::DecodingError`.
#[verifier::external_type_specification]
#[verifier::external_body]
pub struct ExDecodingError(gif::DecodingError);

/// The error type of the encoder, `gif::EncodingError`.
#[verifier::external_type_specification]
#[verifier::external_body]
pub struct ExEncodingError(gif::EncodingError);

/// What the bytes `input` decode to: `None` where the decoder refuses them before any frame.
pub uninterp spec fn decoded(input: Seq<u8>) -> Option<SourceView>;

/// What `source` holds at this moment.
pub uninterp spec fn source_view(source: FrameSource) -> SourceView;

/// What `sink` has been given so far.
pub uninterp spec fn sink_view(sink: FrameSink) -> SinkView;

/// The bytes of the GIF file that the encoder produces from what a sink was given.
pub uninterp spec fn encoded(sink: SinkView) -> Seq<u8>;

/// `gif::DecodeOptions::read_info` with the default options, on a slice. It reads the header
/// and the global colour table. Taken on trust: decoding is a function of the bytes alone, so
/// what the source holds is what `input` decodes to, and an error means that `input` decodes
/// to nothing.
#[verifier::external_body]
pub(crate) fn open_source(input: &[u8]) -> (opened: Result<FrameSource<'_>, gif::DecodingError>)
    ensures
        match opened {
            Ok(source) => decoded(input@) == Some(source_view(source)),
            Err(_) => decoded(input@) is None,
        },
{
    Ok(FrameSource { decoder: gif::DecodeOptions::new().read_info(input)? })
}

/// `gif::Decoder::width`: the width of the logical screen.
#[verifier::external_body]
pub(crate) fn source_width(source: &FrameSource) -> (width: u16)
    ensures
        width == source_view(*source).width,
{
    source.decoder.width()
}

/// `gif::Decoder::height`: the height of the logical screen.
#[verifier::external_body]
pub(crate) fn source_height(source: &FrameSource) -> (height: u16)
    ensures
        height == source_view(*source).height,
{
    source.decoder.height()
}

/// `gif::Decoder::global_palette`: a copy of the global colour table, `None` where the image
/// has none.
#[verifier::external_body]
pub(crate) fn source_global_table(source: &FrameSource) -> (table: Option<Vec<u8>>)
    ensures
        match table {
            Some(bytes) => source_view(*source).global_table == Some(bytes@),
            None => source_view(*source).global_table is None,
        },
{
    source.decoder.global_palette().map(|table| table.to_vec())
}

/// `gif::Decoder::read_next_frame`, with the frame copied into a `Frame`. Taken on trust: a
/// frame that is returned is the first of those pending, and nothing else of the source
/// changes; the end of the stream is reported when none was pending and the source is
/// complete, an error when none was pending and it is not; and, as the decoder yields indexed
/// pixels, the buffer of a frame has one byte for each pixel of its area.
#[verifier::external_body]
pub(crate) fn read_frame(source: &mut FrameSource) -> (read: Result<
    Option<Frame>,
    gif::DecodingError,
>)
    ensures
        match read {
            Ok(Some(frame)) => {
                &&& source_view(*old(source)).pending.len() > 0
                &&& frame@ == source_view(*old(source)).pending[0]
                &&& source_view(*final(source)) == (SourceView {
                    pending: source_view(*old(source)).pending.skip(1),
                    ..source_view(*old(source))
                })
                &&& frame.buffer@.len() == frame.width * frame.height
            },
            Ok(None) => {
                &&& source_view(*old(source)).pending.len() == 0
                &&& source_view(*old(source)).complete
            },
            Err(_) => {
                &&& source_view(*old(source)).pending.len() == 0
                &&& !source_view(*old(source)).complete
            },
        },
{
    Ok(match source.decoder.read_next_frame()? {
        Some(f) => Some(Frame {
            delay: f.delay, transparent: f.transparent, needs_user_input: f.needs_user_input,
            top: f.top, left: f.left, width: f.width, height: f.height, interlaced: f.interlaced,
            palette: f.palette.clone(), buffer: f.buffer.to_vec(),
            dispose: match f.dispose {
                gif::DisposalMethod::Any => DisposalMethod::Any,
                gif::DisposalMethod::Keep => DisposalMethod::Keep,
                gif::DisposalMethod::Background => DisposalMethod::Background,
                gif::DisposalMethod::Previous => DisposalMethod::Previous,
            },
        }),
        None => None,
    })
}

/// `gif::Encoder::new` on an empty buffer. It writes the header with the screen size and the
/// global colour table. Taken on trust: the encoder refuses a table of more than 256 entries
/// and nothing else, as writing into a buffer in memory does not fail; the sink then holds that
/// screen and table and nothing else. That memory may run out is left aside here and in the
/// items below, as it is for every `Vec`.
#[verifier::external_body]
pub(crate) fn new_sink(width: u16, height: u16, global_table: &[u8]) -> (made: Result<
    FrameSink,
    gif::EncodingError,
>)
    ensures
        made is Ok <==> table_fits(global_table@),
        made matches Ok(sink) ==> sink_view(sink) == (SinkView {
            width,
            height,
            global_table: global_table@,
            looping: false,
            frames: Seq::empty(),
        }),
{
    Ok(FrameSink { encoder: gif::Encoder::new(Vec::new(), width, height, global_table)? })
}

/// `gif::Encoder::set_repeat` with `gif::Repeat::Infinite`. It writes the extension block that
/// asks for endless looping, which cannot fail on a buffer in memory. It is meant to be called
/// once, before the first frame.
#[verifier::external_body]
pub(crate) fn set_repeat_infinite(sink: &mut FrameSink) -> (set: Result<(), gif::EncodingError>)
    requires
        !sink_view(*old(sink)).looping,
        sink_view(*old(sink)).frames.len() == 0,
    ensures
        set is Ok,
        sink_view(*final(sink)) == (SinkView { looping: true, ..sink_view(*old(sink)) }),
{
    sink.encoder.set_repeat(gif::Repeat::Infinite)
}

/// `gif::Encoder::write_frame`, on a `gif::Frame` with the fields of `frame`. Taken on trust:
/// the encoder refuses a buffer shorter than the frame's area, a local colour table of more
/// than 256 entries, and a frame without a local table where the global table has no entry,
/// and nothing else; on success the frame is the last of those written. After an error nothing
/// is known of the sink. The encoder asserts in debug builds that a frame without area has an
/// empty buffer.
#[verifier::external_body]
pub(crate) fn write_frame(sink: &mut FrameSink, frame: &Frame) -> (written: Result<
    (),
    gif::EncodingError,
>)
    requires
        (frame.width > 0 && frame.height > 0) || frame.buffer@.len() == 0,
    ensures
        written is Ok <==> frame_fits(frame@, sink_view(*old(sink)).global_table),
        written is Ok ==> sink_view(*final(sink)) == (SinkView {
            frames: sink_view(*old(sink)).frames.push(frame@),
            ..sink_view(*old(sink))
        }),
{
    let dispose = match frame.dispose {
        DisposalMethod::Any => gif::DisposalMethod::Any,
        DisposalMethod::Keep => gif::DisposalMethod::Keep,
        DisposalMethod::Background => gif::DisposalMethod::Background,
        DisposalMethod::Previous => gif::DisposalMethod::Previous,
    };
    sink.encoder.write_frame(&gif::Frame {
        delay: frame.delay, dispose, transparent: frame.transparent,
        needs_user_input: frame.needs_user_input, top: frame.top, left: frame.left,
        width: frame.width, height: frame.height, interlaced: frame.interlaced,
        palette: frame.palette.clone(), buffer: std::borrow::Cow::Borrowed(&frame.buffer),
    })
}

/// `gif::Encoder::into_inner`: writes the trailer and hands the buffer back, which cannot fail
/// on a buffer in memory. Taken on trust: encoding is a function of what the sink was given,
/// so the bytes are its encoding.
#[verifier::external_body]
pub(crate) fn finish(sink: FrameSink) -> (finished: Result<Vec<u8>, gif::EncodingError>)
    ensures
        finished is Ok,
        finished matches Ok(bytes) ==> bytes@ == encoded(sink_view(sink)),
{
    Ok(sink.encoder.into_inner()?)
}

} // verus!
