use vstd::prelude::*;
use crate::canvas::{Canvas, CanvasView};
use crate::errors::PipelineError;
use crate::geometry::PanelGeometry;
use crate::slice::{frame_fits, sliced_values, slice_frame_values, validate_dimensions, PixelMode};

verus! {

/// A frame slot decoded successfully and fits the geometry.
pub open spec fn frame_ok(f: Option<CanvasView>, g: PanelGeometry) -> bool {
    f matches Some(c) && frame_fits(c, g)
}

/// Every `Some` slot of a frame sequence holds a well-formed canvas.
pub open spec fn frame_slots_wf(fs: Seq<Option<CanvasView>>) -> bool {
    forall|i: int| 0 <= i < fs.len()
        ==> ((#[trigger] fs[i]) matches Some(c) ==> c.wf())
}

/// The error reported for the offending frame slot at index `i`: a frame
/// that did not decode, or one whose dimensions do not match the composite
/// canvas the geometry demands.
pub open spec fn frame_failure(f: Option<CanvasView>, g: PanelGeometry, i: int) -> PipelineError {
    match f {
        Option::None => PipelineError::FrameDecode { frame: i as usize },
        Option::Some(c) => PipelineError::DimensionMismatch {
            got_width: c.width as usize,
            got_height: c.height as usize,
            expected_width: (g.cols * g.panel_count) as usize,
            expected_height: g.rows,
        },
    }
}

/// Index of the first frame in `[start, end)` that fails to decode or to
/// fit; `end` when every frame in the range is good.
pub open spec fn first_bad(fs: Seq<Option<CanvasView>>, g: PanelGeometry, start: int, end: int)
    -> int
    decreases end - start,
{
    if start >= end {
        end
    } else if !frame_ok(fs[start], g) {
        start
    } else {
        first_bad(fs, g, start + 1, end)
    }
}

/// `first_bad` is pinned by its characterization: when everything in
/// `[start, i)` is good and `i` is either `end` or bad, `first_bad` is `i`.
pub proof fn lemma_first_bad_is(fs: Seq<Option<CanvasView>>, g: PanelGeometry, start: int,
    end: int, i: int)
    requires
        start <= i <= end,
        forall|j: int| start <= j < i ==> frame_ok(#[trigger] fs[j], g),
        i < end ==> !frame_ok(fs[i], g),
    ensures
        first_bad(fs, g, start, end) == i,
    decreases i - start,
{
    if start < i {
        lemma_first_bad_is(fs, g, start + 1, end, i);
    }
}

/// End of the frame range a chunk covers: `start + size`, clipped to the
/// total frame count `n`.  The final chunk of a sequence may therefore be
/// shorter than `size`; that is not an error.
pub open spec fn chunk_end(n: int, start: int, size: int) -> int {
    if start + size <= n {
        start + size
    } else {
        n
    }
}

/// What processing the chunk `[chunk_start, chunk_start + chunk_size)` of an
/// animation yields: `ChunkOutOfRange` when the chunk starts at or past the
/// total frame count; otherwise the error of the first offending frame in
/// the (clipped) range, or every frame in the range sliced and encoded, in
/// ascending frame order.
pub open spec fn paginate_spec(fs: Seq<Option<CanvasView>>, g: PanelGeometry, chunk_start: int,
    chunk_size: int, mode: PixelMode) -> Result<Seq<Seq<Seq<Seq<u32>>>>, PipelineError> {
    let n = fs.len() as int;
    if chunk_start >= n {
        Err(PipelineError::ChunkOutOfRange {
            chunk_start: chunk_start as usize,
            total_frames: fs.len() as usize,
        })
    } else {
        let end = chunk_end(n, chunk_start, chunk_size);
        let fb = first_bad(fs, g, chunk_start, end);
        if fb < end {
            Err(frame_failure(fs[fb], g, fb))
        } else {
            Ok(Seq::new((end - chunk_start) as nat, |j: int|
                sliced_values(fs[chunk_start + j]->Some_0, g, mode)))
        }
    }
}

/// The executable result agrees with the specified one: the same error, or
/// matrices whose deep view is the specified sequence.
pub open spec fn paginate_agrees(r: Result<Vec<Vec<Vec<Vec<u32>>>>, PipelineError>,
    s: Result<Seq<Seq<Seq<Seq<u32>>>>, PipelineError>) -> bool {
    match (r, s) {
        (Result::Ok(v), Result::Ok(m)) => v.deep_view() == m,
        (Result::Err(e), Result::Err(f)) => e == f,
        _ => false,
    }
}

/// Decode, validate, slice and encode only the frames of one chunk, in
/// ascending order; the first offending frame aborts the whole chunk.
pub fn paginate_frames(frames: &Vec<Option<Canvas>>, g: &PanelGeometry, chunk_start: usize,
    chunk_size: usize, mode: PixelMode) -> (r: Result<Vec<Vec<Vec<Vec<u32>>>>, PipelineError>)
    requires
        g.wf(),
        frame_slots_wf(frames.deep_view()),
        chunk_start + chunk_size <= usize::MAX,
    ensures
        paginate_agrees(r, paginate_spec(frames.deep_view(), *g, chunk_start as int,
            chunk_size as int, mode)),
{
    let ghost fdv = frames.deep_view();
    let n = frames.len();
    proof {
        assert(fdv.len() == n);
    }
    if chunk_start >= n {
        return Err(PipelineError::ChunkOutOfRange { chunk_start, total_frames: n });
    }
    let end = if chunk_start + chunk_size <= n {
        chunk_start + chunk_size
    } else {
        n
    };
    let mut out: Vec<Vec<Vec<Vec<u32>>>> = Vec::new();
    let mut i = chunk_start;
    while i < end
        invariant
            g.wf(),
            frame_slots_wf(fdv),
            fdv == frames.deep_view(),
            fdv.len() == frames@.len(),
            n == frames@.len(),
            chunk_start <= i <= end,
            chunk_start < n,
            end == chunk_end(n as int, chunk_start as int, chunk_size as int),
            forall|j: int| chunk_start <= j < i ==> frame_ok(#[trigger] fdv[j], *g),
            out@.len() == i - chunk_start,
            forall|j: int| 0 <= j < i - chunk_start ==> (#[trigger] out@[j]).deep_view()
                == sliced_values(fdv[chunk_start + j]->Some_0, *g, mode),
        decreases end - i,
    {
        let slot = &frames[i];
        match slot {
            Option::None => {
                proof {
                    lemma_first_bad_is(fdv, *g, chunk_start as int, end as int, i as int);
                }
                return Err(PipelineError::FrameDecode { frame: i });
            },
            Option::Some(c) => {
                proof {
                    assert(fdv[i as int] matches Some(v) && v == c@);
                }
                match validate_dimensions(c, g) {
                    Result::Err(e) => {
                        proof {
                            lemma_first_bad_is(fdv, *g, chunk_start as int, end as int, i as int);
                        }
                        return Err(e);
                    },
                    Result::Ok(()) => {
                        let m = slice_frame_values(c, g, mode);
                        out.push(m);
                    },
                }
            },
        }
        i = i + 1;
    }
    proof {
        lemma_first_bad_is(fdv, *g, chunk_start as int, end as int, end as int);
        assert(out.deep_view() =~= Seq::new((end - chunk_start) as nat, |j: int|
            sliced_values(fdv[chunk_start + j]->Some_0, *g, mode)));
    }
    Ok(out)
}

/// Every frame of the animation decoded and fitting the geometry.
pub open spec fn all_frames_ok(fs: Seq<Option<CanvasView>>, g: PanelGeometry) -> bool {
    forall|i: int| 0 <= i < fs.len() ==> frame_ok(#[trigger] fs[i], g)
}

/// Every frame of a fully decoded, validated animation sliced in order:
/// what an unchunked full decode returns.
pub open spec fn full_decode(fs: Seq<Option<CanvasView>>, g: PanelGeometry, mode: PixelMode)
    -> Seq<Seq<Seq<Seq<u32>>>> {
    Seq::new(fs.len(), |i: int| sliced_values(fs[i]->Some_0, g, mode))
}

/// A chunk that starts at or past the total frame count always fails with
/// `ChunkOutOfRange` — also when the animation has no frames at all.
pub proof fn lemma_chunk_out_of_range(fs: Seq<Option<CanvasView>>, g: PanelGeometry,
    chunk_start: int, chunk_size: int, mode: PixelMode)
    requires
        chunk_start >= fs.len(),
    ensures
        paginate_spec(fs, g, chunk_start, chunk_size, mode) == Err::<Seq<Seq<Seq<Seq<u32>>>>,
            PipelineError>(PipelineError::ChunkOutOfRange {
                chunk_start: chunk_start as usize,
                total_frames: fs.len() as usize,
            }),
{
}

/// One chunk of a well-formed animation is exactly a window of the full
/// unchunked decode: chunk `j` of size `k` returns the frames
/// `[j*k, min((j+1)*k, n))`, in order.
pub proof fn lemma_chunk_is_window(fs: Seq<Option<CanvasView>>, g: PanelGeometry, k: int, j: int,
    mode: PixelMode)
    requires
        k >= 1,
        j >= 0,
        all_frames_ok(fs, g),
        j * k < fs.len(),
    ensures
        paginate_spec(fs, g, j * k, k, mode) == Ok::<Seq<Seq<Seq<Seq<u32>>>>, PipelineError>(
            full_decode(fs, g, mode).subrange(j * k, chunk_end(fs.len() as int, j * k, k))),
{
    let n = fs.len() as int;
    let start = j * k;
    assert(j * k >= 0) by (nonlinear_arith)
        requires
            j >= 0,
            k >= 1,
    ;
    let end = chunk_end(n, start, k);
    lemma_first_bad_is(fs, g, start, end, end);
    assert(Seq::new((end - start) as nat, |q: int| sliced_values(fs[start + q]->Some_0, g, mode))
        =~= full_decode(fs, g, mode).subrange(start, end));
}

/// The frames one chunk contributes to a chunked traversal: what the chunk
/// returns, or nothing once the chunk range starts past the end.
pub open spec fn chunk_window(fs: Seq<Option<CanvasView>>, g: PanelGeometry, k: int, j: int,
    mode: PixelMode) -> Seq<Seq<Seq<Seq<u32>>>> {
    if j * k < fs.len() {
        paginate_spec(fs, g, j * k, k, mode)->Ok_0
    } else {
        Seq::empty()
    }
}

/// The concatenation of the first `m` chunks of size `k`: `[0,k)`, then
/// `[k,2k)`, and so on.
pub open spec fn concat_chunks(fs: Seq<Option<CanvasView>>, g: PanelGeometry, k: int, m: int,
    mode: PixelMode) -> Seq<Seq<Seq<Seq<u32>>>>
    decreases m,
{
    if m <= 0 {
        Seq::empty()
    } else {
        concat_chunks(fs, g, k, m - 1, mode) + chunk_window(fs, g, k, m - 1, mode)
    }
}

/// The first `m` chunks of size `k` concatenate to the first
/// `min(m*k, n)` frames of the full unchunked decode.
proof fn lemma_chunks_prefix(fs: Seq<Option<CanvasView>>, g: PanelGeometry, k: int, m: int,
    mode: PixelMode)
    requires
        k >= 1,
        m >= 0,
        all_frames_ok(fs, g),
    ensures
        concat_chunks(fs, g, k, m, mode) == full_decode(fs, g, mode).subrange(0,
            chunk_end(fs.len() as int, 0, m * k)),
    decreases m,
{
    let n = fs.len() as int;
    let full = full_decode(fs, g, mode);
    if m == 0 {
        assert(m * k == 0) by (nonlinear_arith)
            requires
                m == 0,
        ;
        assert(concat_chunks(fs, g, k, 0, mode) =~= full.subrange(0, chunk_end(n, 0, 0)));
    } else {
        lemma_chunks_prefix(fs, g, k, m - 1, mode);
        let a = (m - 1) * k;
        let b = m * k;
        assert(a + k == b && a >= 0) by (nonlinear_arith)
            requires
                m >= 1,
                k >= 1,
                a == (m - 1) * k,
                b == m * k,
        ;
        if a < n {
            lemma_chunk_is_window(fs, g, k, m - 1, mode);
            assert(concat_chunks(fs, g, k, m, mode) =~= full.subrange(0, chunk_end(n, 0, b)));
        } else {
            assert(concat_chunks(fs, g, k, m, mode) =~= full.subrange(0, chunk_end(n, 0, b)));
        }
    }
}

/// Concatenating the chunks of size `k` in ascending order — `[0,k)`,
/// `[k,2k)`, and so on until the ranges have covered every frame — yields
/// exactly the sequence of panel matrices of one unchunked full decode.
pub proof fn lemma_chunks_cover(fs: Seq<Option<CanvasView>>, g: PanelGeometry, k: int, m: int,
    mode: PixelMode)
    requires
        k >= 1,
        m >= 0,
        m * k >= fs.len(),
        all_frames_ok(fs, g),
    ensures
        concat_chunks(fs, g, k, m, mode) == full_decode(fs, g, mode),
{
    lemma_chunks_prefix(fs, g, k, m, mode);
    assert(full_decode(fs, g, mode).subrange(0, chunk_end(fs.len() as int, 0, m * k))
        =~= full_decode(fs, g, mode));
}

} // verus!
