use vstd::prelude::*;
use vstd::string::{StrSliceExecFns, StringSliceAdditionalSpecFns};
use crate::canvas::CanvasView;
use crate::chunk::{first_bad, frame_failure, frame_ok, paginate_spec, paginate_frames};
use crate::decode::{decode_gif_frames, decode_still, format_recognized, gif_decoded,
    still_decoded};
use crate::errors::PipelineError;
use crate::geometry::PanelGeometry;
use crate::jsonout::{chunks_to_json, frames_to_json, json_of_chunks, json_of_frames,
    json_of_panels, panels_to_json};
use crate::payload::{base64_decoded, decode_base64, payload_of, strip_payload_prefix};
use crate::slice::{frame_fits, slice_frame_triples, sliced_triples, validate_dimensions,
    PixelMode};
use crate::textfmt::{count_json, count_json_string};

verus! {

/// The binary payload of a request: the text after the last `,` separator,
/// base64-decoded; nothing when that text is not valid base64.
pub open spec fn decoded_payload(input: Seq<u8>) -> Option<Seq<u8>> {
    base64_decoded(payload_of(input))
}

/// The pixel-encoding mode an optional direct-processing flag selects:
/// packed integers when the flag is set, channel triples otherwise.
pub open spec fn mode_of(direct_processing: Option<bool>) -> PixelMode {
    if direct_processing == Some(true) {
        PixelMode::Packed
    } else {
        PixelMode::Triple
    }
}

/// Index of the first frame slot that failed to decode; the length of the
/// sequence when every frame decoded.
pub open spec fn first_undecoded(fs: Seq<Option<CanvasView>>, start: int) -> int
    decreases fs.len() - start,
{
    if start >= fs.len() {
        fs.len() as int
    } else if fs[start] is None {
        start
    } else {
        first_undecoded(fs, start + 1)
    }
}

/// `first_undecoded` is pinned by its characterization: when everything in
/// `[start, i)` decoded and `i` is the end or undecoded, it equals `i`.
proof fn lemma_first_undecoded_is(fs: Seq<Option<CanvasView>>, start: int, i: int)
    requires
        start <= i <= fs.len(),
        forall|j: int| start <= j < i ==> (#[trigger] fs[j]) is Some,
        i < fs.len() ==> fs[i] is None,
    ensures
        first_undecoded(fs, start) == i,
    decreases i - start,
{
    if start < i {
        lemma_first_undecoded_is(fs, start + 1, i);
    }
}

/// Every frame sliced into panels of `[R, G, B]` pixels, in frame order.
pub open spec fn all_triples(fs: Seq<Option<CanvasView>>, g: PanelGeometry)
    -> Seq<Seq<Seq<Seq<Seq<u8>>>>> {
    Seq::new(fs.len(), |i: int| sliced_triples(fs[i]->Some_0, g))
}

/// What `decode_image` owes for request text bytes `input` and geometry `g`:
/// a payload that does not decode fails with `PayloadDecode`; a buffer whose
/// signature matches no supported format fails with `UnrecognizedFormat`; a
/// recognized buffer that does not decode fails with `StillDecode`; a
/// canvas of the wrong size fails with `DimensionMismatch` carrying both
/// the actual and the expected dimensions; otherwise the result is the
/// sliced panel matrix rendered as JSON.
pub open spec fn decode_image_post(input: Seq<u8>, g: PanelGeometry,
    r: Result<String, PipelineError>) -> bool {
    match decoded_payload(input) {
        Option::None => r == Err::<String, PipelineError>(PipelineError::PayloadDecode),
        Option::Some(bytes) => match still_decoded(bytes) {
            Option::None => r == Err::<String, PipelineError>(if format_recognized(bytes) {
                PipelineError::StillDecode
            } else {
                PipelineError::UnrecognizedFormat
            }),
            Option::Some(c) => if !frame_fits(c, g) {
                r == Err::<String, PipelineError>(PipelineError::DimensionMismatch {
                    got_width: c.width as usize,
                    got_height: c.height as usize,
                    expected_width: (g.cols * g.panel_count) as usize,
                    expected_height: g.rows,
                })
            } else {
                r matches Ok(s) && s@ == json_of_panels(sliced_triples(c, g))
            },
        },
    }
}

/// Decode a base64 still image (with an optional discarded prefix before
/// the last `,`), validate its dimensions against the panel geometry, slice
/// it into per-panel matrices of `[R, G, B]` pixels, and render those as
/// JSON.
pub fn decode_image(base64_data: &str, panel_count: usize, rows: usize, cols: usize)
    -> (r: Result<String, PipelineError>)
    requires
        panel_count >= 1,
        rows >= 1,
        cols >= 1,
        cols * panel_count <= usize::MAX,
    ensures
        decode_image_post(base64_data.spec_bytes(),
            PanelGeometry { panel_count, rows, cols }, r),
{
    let g = PanelGeometry { panel_count, rows, cols };
    let text_bytes = base64_data.as_bytes_vec();
    let payload = strip_payload_prefix(&text_bytes);
    let bytes = match decode_base64(&payload) {
        Option::Some(b) => b,
        Option::None => {
            return Err(PipelineError::PayloadDecode);
        },
    };
    let canvas = match decode_still(&bytes) {
        Result::Ok(c) => c,
        Result::Err(e) => {
            return Err(e);
        },
    };
    match validate_dimensions(&canvas, &g) {
        Result::Err(e) => {
            return Err(e);
        },
        Result::Ok(()) => {},
    }
    let m = slice_frame_triples(&canvas, &g);
    match panels_to_json(&m) {
        Option::Some(s) => Ok(s),
        Option::None => {
            // The serializer owes a result on these types.
            proof {
                assert(false);
            }
            Err(PipelineError::Serialization)
        },
    }
}

/// What `decode_gif` owes for request text bytes `input` and geometry `g`:
/// a payload that does not decode fails with `PayloadDecode`; a container
/// that cannot be opened fails with `AnimationDecode`; materializing the
/// frames fails at the first undecodable one with `FrameDecode`; then the
/// first frame of the wrong size fails with `DimensionMismatch`; otherwise
/// the result is every frame's panel matrix, in order, rendered as JSON.
pub open spec fn decode_gif_post(input: Seq<u8>, g: PanelGeometry,
    r: Result<String, PipelineError>) -> bool {
    match decoded_payload(input) {
        Option::None => r == Err::<String, PipelineError>(PipelineError::PayloadDecode),
        Option::Some(bytes) => match gif_decoded(bytes) {
            Option::None => r == Err::<String, PipelineError>(PipelineError::AnimationDecode),
            Option::Some(fs) => {
                let n = fs.len() as int;
                let fu = first_undecoded(fs, 0);
                if fu < n {
                    r == Err::<String, PipelineError>(PipelineError::FrameDecode {
                        frame: fu as usize,
                    })
                } else {
                    let fb = first_bad(fs, g, 0, n);
                    if fb < n {
                        r == Err::<String, PipelineError>(frame_failure(fs[fb], g, fb))
                    } else {
                        r matches Ok(s) && s@ == json_of_frames(all_triples(fs, g))
                    }
                }
            },
        },
    }
}

/// Decode a base64 GIF animation, materialize every frame, validate each
/// frame's dimensions, slice each frame into per-panel matrices of
/// `[R, G, B]` pixels, and render the frame sequence as JSON.
#[verifier::loop_isolation(false)]
pub fn decode_gif(base64_data: &str, panel_count: usize, rows: usize, cols: usize)
    -> (r: Result<String, PipelineError>)
    requires
        panel_count >= 1,
        rows >= 1,
        cols >= 1,
        cols * panel_count <= usize::MAX,
    ensures
        decode_gif_post(base64_data.spec_bytes(),
            PanelGeometry { panel_count, rows, cols }, r),
{
    let g = PanelGeometry { panel_count, rows, cols };
    let text_bytes = base64_data.as_bytes_vec();
    let payload = strip_payload_prefix(&text_bytes);
    let bytes = match decode_base64(&payload) {
        Option::Some(b) => b,
        Option::None => {
            return Err(PipelineError::PayloadDecode);
        },
    };
    let frames = match decode_gif_frames(&bytes) {
        Result::Ok(f) => f,
        Result::Err(e) => {
            proof {
                assert(e == PipelineError::AnimationDecode);
            }
            return Err(e);
        },
    };
    let ghost fdv = frames.deep_view();
    let n = frames.len();
    let mut i: usize = 0;
    while i < n
        invariant
            n == frames@.len(),
            fdv == frames.deep_view(),
            fdv.len() == n,
            i <= n,
            forall|j: int| 0 <= j < i ==> (#[trigger] fdv[j]) is Some,
        decreases n - i,
    {
        let slot = &frames[i];
        proof {
            assert(fdv[i as int] == frames@[i as int].deep_view());
        }
        if slot.is_none() {
            proof {
                assert(fdv[i as int] is None);
                lemma_first_undecoded_is(fdv, 0, i as int);
            }
            return Err(PipelineError::FrameDecode { frame: i });
        }
        i = i + 1;
    }
    proof {
        lemma_first_undecoded_is(fdv, 0, n as int);
    }
    let mut out: Vec<Vec<Vec<Vec<Vec<u8>>>>> = Vec::new();
    let mut t: usize = 0;
    while t < n
        invariant
            g.wf(),
            n == frames@.len(),
            fdv == frames.deep_view(),
            fdv.len() == n,
            crate::chunk::frame_slots_wf(fdv),
            forall|j: int| 0 <= j < n ==> (#[trigger] fdv[j]) is Some,
            t <= n,
            forall|j: int| 0 <= j < t ==> frame_ok(#[trigger] fdv[j], g),
            out@.len() == t,
            forall|j: int| 0 <= j < t ==> (#[trigger] out@[j]).deep_view()
                == sliced_triples(fdv[j]->Some_0, g),
        decreases n - t,
    {
        let slot = &frames[t];
        proof {
            assert(fdv[t as int] == frames@[t as int].deep_view());
        }
        match slot {
            Option::Some(c) => {
                proof {
                    assert(fdv[t as int] matches Some(v) && v == c@);
                }
                match validate_dimensions(c, &g) {
                    Result::Err(e) => {
                        proof {
                            crate::chunk::lemma_first_bad_is(fdv, g, 0, n as int, t as int);
                        }
                        return Err(e);
                    },
                    Result::Ok(()) => {
                        let m = slice_frame_triples(c, &g);
                        out.push(m);
                    },
                }
            },
            Option::None => {
                // The first pass returned at any undecoded slot, so this arm
                // cannot be reached.
                proof {
                    assert(false);
                }
                return Err(PipelineError::AnimationDecode);
            },
        }
        t = t + 1;
    }
    proof {
        crate::chunk::lemma_first_bad_is(fdv, g, 0, n as int, n as int);
        assert(out.deep_view() =~= all_triples(fdv, g));
    }
    match frames_to_json(&out) {
        Option::Some(s) => Ok(s),
        Option::None => {
            // The serializer owes a result on these types.
            proof {
                assert(false);
            }
            Err(PipelineError::Serialization)
        },
    }
}

/// What `process_gif_frames_chunked` owes: payload and container failures
/// as in `decode_gif`; with `chunk_size == 0` the count-only record for the
/// total frame count, nothing sliced; otherwise exactly what
/// `paginate_spec` determines for the requested window, rendered as JSON.
pub open spec fn chunked_post(input: Seq<u8>, g: PanelGeometry, chunk_start: int,
    chunk_size: int, mode: PixelMode, r: Result<String, PipelineError>) -> bool {
    match decoded_payload(input) {
        Option::None => r == Err::<String, PipelineError>(PipelineError::PayloadDecode),
        Option::Some(bytes) => match gif_decoded(bytes) {
            Option::None => r == Err::<String, PipelineError>(PipelineError::AnimationDecode),
            Option::Some(fs) => if chunk_size == 0 {
                r matches Ok(s) && s@ == count_json(fs.len())
            } else {
                match paginate_spec(fs, g, chunk_start, chunk_size, mode) {
                    Result::Err(e) => r == Err::<String, PipelineError>(e),
                    Result::Ok(mats) => r matches Ok(s) && s@ == json_of_chunks(mats),
                }
            },
        },
    }
}

/// Decode a base64 GIF animation and process only the chunk of frames
/// `[chunk_start, chunk_start + chunk_size)`: report the total frame count
/// when `chunk_size` is zero, fail with `ChunkOutOfRange` when the chunk
/// starts at or past the end, and otherwise validate, slice and encode just
/// those frames — packed integers when `direct_processing` is set, channel
/// triples otherwise.
pub fn process_gif_frames_chunked(base64_data: &str, panel_count: usize, rows: usize,
    cols: usize, chunk_start: usize, chunk_size: usize, direct_processing: Option<bool>)
    -> (r: Result<String, PipelineError>)
    requires
        panel_count >= 1,
        rows >= 1,
        cols >= 1,
        cols * panel_count <= usize::MAX,
    ensures
        chunked_post(base64_data.spec_bytes(), PanelGeometry { panel_count, rows, cols },
            chunk_start as int, chunk_size as int, mode_of(direct_processing), r),
{
    let g = PanelGeometry { panel_count, rows, cols };
    let mode = match direct_processing {
        Option::Some(true) => PixelMode::Packed,
        _ => PixelMode::Triple,
    };
    let text_bytes = base64_data.as_bytes_vec();
    let payload = strip_payload_prefix(&text_bytes);
    let bytes = match decode_base64(&payload) {
        Option::Some(b) => b,
        Option::None => {
            return Err(PipelineError::PayloadDecode);
        },
    };
    let frames = match decode_gif_frames(&bytes) {
        Result::Ok(f) => f,
        Result::Err(e) => {
            proof {
                assert(e == PipelineError::AnimationDecode);
            }
            return Err(e);
        },
    };
    let n = frames.len();
    if chunk_size == 0 {
        return Ok(count_json_string(n));
    }
    if chunk_start >= n {
        return Err(PipelineError::ChunkOutOfRange { chunk_start, total_frames: n });
    }
    let size_clip = if chunk_size > n - chunk_start {
        n - chunk_start
    } else {
        chunk_size
    };
    proof {
        assert(paginate_spec(frames.deep_view(), g, chunk_start as int, size_clip as int, mode)
            == paginate_spec(frames.deep_view(), g, chunk_start as int, chunk_size as int, mode));
    }
    let mats = match paginate_frames(&frames, &g, chunk_start, size_clip, mode) {
        Result::Ok(m) => m,
        Result::Err(e) => {
            return Err(e);
        },
    };
    match chunks_to_json(&mats) {
        Option::Some(s) => Ok(s),
        Option::None => {
            // The serializer owes a result on these types.
            proof {
                assert(false);
            }
            Err(PipelineError::Serialization)
        },
    }
}

/// What `process_gif_data` owes for raw animation bytes: a container that
/// cannot be opened fails with `AnimationDecode`; materializing the frames
/// fails at the first undecodable one with `FrameDecode`; with the count
/// flag set, or with an explicit chunk size of zero (the count-only
/// sentinel), the count-only record is returned; otherwise exactly what
/// `paginate_spec` determines for the requested window — the whole sequence
/// when `chunk_start` or `chunk_size` is omitted — in packed mode, rendered
/// as JSON.
pub open spec fn gif_data_post(data: Seq<u8>, g: PanelGeometry, chunk_start: Option<usize>,
    chunk_size: Option<usize>, get_frame_count: bool, r: Result<String, PipelineError>) -> bool {
    match gif_decoded(data) {
        Option::None => r == Err::<String, PipelineError>(PipelineError::AnimationDecode),
        Option::Some(fs) => {
            let n = fs.len() as int;
            let fu = first_undecoded(fs, 0);
            if fu < n {
                r == Err::<String, PipelineError>(PipelineError::FrameDecode {
                    frame: fu as usize,
                })
            } else if get_frame_count || chunk_size == Some(0usize) {
                r matches Ok(s) && s@ == count_json(fs.len())
            } else {
                let start = match chunk_start {
                    Option::Some(s) => s as int,
                    Option::None => 0,
                };
                let size = match chunk_size {
                    Option::Some(s) => s as int,
                    Option::None => n,
                };
                match paginate_spec(fs, g, start, size, PixelMode::Packed) {
                    Result::Err(e) => r == Err::<String, PipelineError>(e),
                    Result::Ok(mats) => r matches Ok(s) && s@ == json_of_chunks(mats),
                }
            }
        },
    }
}

/// Process a raw (not base64-wrapped) GIF animation: materialize every
/// frame, then report the total count when `get_frame_count` is set or the
/// chunk size is explicitly zero, or validate, slice and encode the
/// requested window of frames — the whole sequence when `chunk_start` or
/// `chunk_size` is omitted — always in packed-integer mode.  The file-path
/// entry point reads the named file and hands its bytes here.
#[verifier::loop_isolation(false)]
pub fn process_gif_data(data: &Vec<u8>, panel_count: usize, rows: usize, cols: usize,
    chunk_start: Option<usize>, chunk_size: Option<usize>, get_frame_count: Option<bool>)
    -> (r: Result<String, PipelineError>)
    requires
        panel_count >= 1,
        rows >= 1,
        cols >= 1,
        cols * panel_count <= usize::MAX,
    ensures
        gif_data_post(data@, PanelGeometry { panel_count, rows, cols }, chunk_start,
            chunk_size, get_frame_count == Some(true), r),
{
    let g = PanelGeometry { panel_count, rows, cols };
    let frames = match decode_gif_frames(data) {
        Result::Ok(f) => f,
        Result::Err(e) => {
            proof {
                assert(e == PipelineError::AnimationDecode);
            }
            return Err(e);
        },
    };
    let ghost fdv = frames.deep_view();
    let n = frames.len();
    let mut i: usize = 0;
    while i < n
        invariant
            n == frames@.len(),
            fdv == frames.deep_view(),
            fdv.len() == n,
            i <= n,
            forall|j: int| 0 <= j < i ==> (#[trigger] fdv[j]) is Some,
        decreases n - i,
    {
        let slot = &frames[i];
        proof {
            assert(fdv[i as int] == frames@[i as int].deep_view());
        }
        if slot.is_none() {
            proof {
                assert(fdv[i as int] is None);
                lemma_first_undecoded_is(fdv, 0, i as int);
            }
            return Err(PipelineError::FrameDecode { frame: i });
        }
        i = i + 1;
    }
    proof {
        lemma_first_undecoded_is(fdv, 0, n as int);
    }
    let count_only = match get_frame_count {
        Option::Some(true) => true,
        _ => false,
    };
    let zero_size = match chunk_size {
        Option::Some(z) => z == 0,
        Option::None => false,
    };
    if count_only || zero_size {
        return Ok(count_json_string(n));
    }
    let start = match chunk_start {
        Option::Some(s) => s,
        Option::None => 0,
    };
    let size = match chunk_size {
        Option::Some(s) => s,
        Option::None => n,
    };
    if start >= n {
        return Err(PipelineError::ChunkOutOfRange { chunk_start: start, total_frames: n });
    }
    let size_clip = if size > n - start {
        n - start
    } else {
        size
    };
    proof {
        assert(paginate_spec(fdv, g, start as int, size_clip as int, PixelMode::Packed)
            == paginate_spec(fdv, g, start as int, size as int, PixelMode::Packed));
    }
    let mats = match paginate_frames(&frames, &g, start, size_clip, PixelMode::Packed) {
        Result::Ok(m) => m,
        Result::Err(e) => {
            return Err(e);
        },
    };
    match chunks_to_json(&mats) {
        Option::Some(s) => Ok(s),
        Option::None => {
            // The serializer owes a result on these types.
            proof {
                assert(false);
            }
            Err(PipelineError::Serialization)
        },
    }
}

} // verus!
