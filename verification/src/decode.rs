use vstd::prelude::*;
use image::AnimationDecoder;
use crate::canvas::{Canvas, CanvasView};
use crate::chunk::frame_slots_wf;
use crate::errors::PipelineError;

verus! {

/// Whether `image::guess_format` recognizes the byte buffer's signature as
/// one of the supported image formats: a function of the buffer alone.
pub uninterp spec fn format_recognized(data: Seq<u8>) -> bool;

/// What `image`'s still decoder produces for a byte buffer — the format
/// sniffed from the signature, then decoded: a canvas (RGBA, row-major), or
/// nothing when the signature is unrecognized or the buffer cannot be
/// decoded.  The result is a function of the buffer alone.
pub uninterp spec fn still_decoded(data: Seq<u8>) -> Option<CanvasView>;

/// What `image`'s GIF decoder produces for a byte buffer: nothing when the
/// container itself cannot be opened; otherwise the frames pulled in order,
/// each a decoded full-screen canvas, the pull ending at the first frame
/// that fails — so at most the last entry is a failure.  The result is a
/// function of the buffer alone.
pub uninterp spec fn gif_decoded(data: Seq<u8>) -> Option<Seq<Option<CanvasView>>>;

/// Relies on `image::guess_format` and `image::load_from_memory_with_format`:
/// sniffing the signature and decoding the buffer with the sniffed format
/// are each pure functions of the bytes.  An unrecognized signature fails
/// before any decode; every failure of the decode itself — truncation, a
/// corrupt header, an unsupported subformat — is a decode error.  The RGBA
/// expansion is `image`'s own per-pixel channel extraction; channels beyond
/// R, G, B are ignored downstream.
#[verifier::external_body]
pub(crate) fn decode_still(data: &Vec<u8>) -> (r: Result<Canvas, PipelineError>)
    ensures
        r is Ok <==> still_decoded(data@) is Some,
        r matches Ok(c) ==> c@.wf() && still_decoded(data@) == Some(c@),
        r matches Err(e) ==> e == (if format_recognized(data@) {
            PipelineError::StillDecode
        } else {
            PipelineError::UnrecognizedFormat
        }),
{
    let fmt = match image::guess_format(data.as_slice()) {
        Ok(f) => f,
        Err(_) => return Err(PipelineError::UnrecognizedFormat),
    };
    match image::load_from_memory_with_format(data.as_slice(), fmt) {
        Ok(img) => {
            let buf = img.to_rgba8();
            Ok(Canvas {
                width: buf.width() as usize,
                height: buf.height() as usize,
                pixels: buf.into_raw(),
            })
        },
        Err(_) => Err(PipelineError::StillDecode),
    }
}

/// Relies on `image::codecs::gif::GifDecoder` and
/// `AnimationDecoder::into_frames`: opening the container and pulling its
/// frames in order is a pure function of the bytes; each decoded frame is
/// composited to a full-screen RGBA canvas.  The pull stops at the first
/// frame that fails (the frame iterator can repeat such an error without
/// end, so iterating past it would never terminate); the failing slot is
/// recorded, and only the last slot can be one.
#[verifier::external_body]
pub(crate) fn decode_gif_frames(data: &Vec<u8>) -> (r: Result<Vec<Option<Canvas>>, PipelineError>)
    ensures
        r is Ok <==> gif_decoded(data@) is Some,
        r matches Ok(frames) ==> gif_decoded(data@) == Some(frames.deep_view())
            && frame_slots_wf(frames.deep_view())
            && (forall|i: int| 0 <= i < frames.deep_view().len() - 1
                ==> (#[trigger] frames.deep_view()[i]) is Some),
        r matches Err(e) ==> e is AnimationDecode,
{
    let decoder = match image::codecs::gif::GifDecoder::new(std::io::Cursor::new(data.as_slice())) {
        Ok(d) => d,
        Err(_) => return Err(PipelineError::AnimationDecode),
    };
    let mut frames: Vec<Option<Canvas>> = Vec::new();
    for item in decoder.into_frames() {
        let ok = item.is_ok();
        frames.push(item.ok().map(|f| {
            let b = f.into_buffer();
            Canvas { width: b.width() as usize, height: b.height() as usize, pixels: b.into_raw() }
        }));
        if !ok { break; }
    }
    Ok(frames)
}

} // verus!
