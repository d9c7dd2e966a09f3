use vstd::prelude::*;
use vstd::arithmetic::div_mod::{lemma_fundamental_div_mod, lemma_fundamental_div_mod_converse,
    lemma_mod_division_less_than_divisor};
use crate::canvas::{Canvas, CanvasView};
use crate::errors::PipelineError;
use crate::geometry::PanelGeometry;

verus! {

/// How one pixel is rendered in the output: as an ordered triple of channel
/// values, or as the single packed integer `(R << 16) | (G << 8) | B`.  The
/// mode is chosen once per request and never mixed within one response.
#[derive(Clone, Copy, Debug, PartialEq, Eq, Structural)]
pub enum PixelMode {
    Triple,
    Packed,
}

/// The canvas has exactly the composite dimensions the geometry demands.
pub open spec fn frame_fits(c: CanvasView, g: PanelGeometry) -> bool {
    &&& c.width == g.expected_width()
    &&& c.height == g.expected_height()
}

/// The R, G, B channels of the canvas pixel at column `x`, row `y`, in order.
pub open spec fn triple_px(c: CanvasView, x: int, y: int) -> Seq<u8> {
    seq![c.chan(x, y, 0), c.chan(x, y, 1), c.chan(x, y, 2)]
}

/// The canvas pixel at column `x`, row `y` packed as `(R << 16) | (G << 8) | B`.
pub open spec fn packed_px(c: CanvasView, x: int, y: int) -> u32 {
    ((c.chan(x, y, 0) as u32) << 16) | ((c.chan(x, y, 1) as u32) << 8) | (c.chan(x, y, 2) as u32)
}

/// One frame sliced into panels, each pixel an `[R, G, B]` triple: panel `p`
/// owns canvas columns `[p*cols, (p+1)*cols)`, rows keep their order, and
/// within a panel row the pixels keep their left-to-right order.
pub open spec fn sliced_triples(c: CanvasView, g: PanelGeometry) -> Seq<Seq<Seq<Seq<u8>>>> {
    Seq::new(g.panel_count as nat, |p: int|
        Seq::new(g.rows as nat, |y: int|
            Seq::new(g.cols as nat, |x: int| triple_px(c, p * g.cols + x, y))))
}

/// One panel row rendered as flat cells: in `Packed` mode one integer per
/// pixel, in `Triple` mode the three channel values of each pixel laid out
/// consecutively.
pub open spec fn row_cells(c: CanvasView, g: PanelGeometry, mode: PixelMode, p: int, y: int)
    -> Seq<u32> {
    match mode {
        PixelMode::Packed => Seq::new(g.cols as nat, |x: int| packed_px(c, p * g.cols + x, y)),
        PixelMode::Triple => Seq::new((3 * g.cols) as nat, |j: int|
            c.chan(p * g.cols + j / 3, y, j % 3) as u32),
    }
}

/// One frame sliced into panels of rows of flat cells.
pub open spec fn sliced_values(c: CanvasView, g: PanelGeometry, mode: PixelMode)
    -> Seq<Seq<Seq<u32>>> {
    Seq::new(g.panel_count as nat, |p: int|
        Seq::new(g.rows as nat, |y: int| row_cells(c, g, mode, p, y)))
}

/// Exact dimension check: the canvas must match the composite size derived
/// from the geometry; there is no cropping, scaling, or padding.
pub fn validate_dimensions(c: &Canvas, g: &PanelGeometry) -> (r: Result<(), PipelineError>)
    requires
        g.wf(),
        c@.wf(),
    ensures
        r is Ok <==> frame_fits(c@, *g),
        r matches Err(e) ==> e == (PipelineError::DimensionMismatch {
            got_width: c.width,
            got_height: c.height,
            expected_width: (g.cols * g.panel_count) as usize,
            expected_height: g.rows,
        }),
{
    let expected_width = g.composite_width();
    if c.width != expected_width || c.height != g.rows {
        Err(PipelineError::DimensionMismatch {
            got_width: c.width,
            got_height: c.height,
            expected_width,
            expected_height: g.rows,
        })
    } else {
        Ok(())
    }
}

/// Slice a validated canvas into `panel_count` panels of `rows x cols`
/// pixels, each pixel an `[R, G, B]` triple.
pub fn slice_frame_triples(c: &Canvas, g: &PanelGeometry) -> (r: Vec<Vec<Vec<Vec<u8>>>>)
    requires
        g.wf(),
        c@.wf(),
        frame_fits(c@, *g),
    ensures
        r.deep_view() == sliced_triples(c@, *g),
{
    let mut panels: Vec<Vec<Vec<Vec<u8>>>> = Vec::new();
    let mut p: usize = 0;
    while p < g.panel_count
        invariant
            g.wf(),
            c@.wf(),
            frame_fits(c@, *g),
            p <= g.panel_count,
            panels@.len() == p,
            forall|pi: int| 0 <= pi < p ==> panels@[pi].deep_view()
                == sliced_triples(c@, *g)[pi],
        decreases g.panel_count - p,
    {
        let mut panel: Vec<Vec<Vec<u8>>> = Vec::new();
        let mut y: usize = 0;
        while y < g.rows
            invariant
                g.wf(),
                c@.wf(),
                frame_fits(c@, *g),
                p < g.panel_count,
                y <= g.rows,
                panel@.len() == y,
                forall|yi: int| 0 <= yi < y ==> panel@[yi].deep_view()
                    == sliced_triples(c@, *g)[p as int][yi],
            decreases g.rows - y,
        {
            let mut row: Vec<Vec<u8>> = Vec::new();
            let mut x: usize = 0;
            while x < g.cols
                invariant
                    g.wf(),
                    c@.wf(),
                    frame_fits(c@, *g),
                    p < g.panel_count,
                    y < g.rows,
                    x <= g.cols,
                    row@.len() == x,
                    forall|xi: int| 0 <= xi < x ==> row@[xi].deep_view()
                        == triple_px(c@, p * g.cols + xi, y as int),
                decreases g.cols - x,
            {
                proof {
                    assert(p * g.cols + x < g.cols * g.panel_count
                        && p * g.cols <= usize::MAX) by (nonlinear_arith)
                        requires
                            p < g.panel_count,
                            x < g.cols,
                            g.cols * g.panel_count <= usize::MAX,
                    ;
                }
                let cx: usize = p * g.cols + x;
                let (rc, gc, bc) = c.channels(cx, y);
                let mut px: Vec<u8> = Vec::new();
                px.push(rc);
                px.push(gc);
                px.push(bc);
                proof {
                    assert(px.deep_view() =~= triple_px(c@, p * g.cols + x, y as int));
                }
                row.push(px);
                x = x + 1;
            }
            proof {
                assert(row.deep_view() =~= sliced_triples(c@, *g)[p as int][y as int]);
            }
            panel.push(row);
            y = y + 1;
        }
        proof {
            assert(panel.deep_view() =~= sliced_triples(c@, *g)[p as int]);
        }
        panels.push(panel);
        p = p + 1;
    }
    proof {
        assert(panels.deep_view() =~= sliced_triples(c@, *g));
    }
    panels
}

/// Slice a validated canvas into panels of rows of flat cells, packed or
/// triple per `mode`.
pub fn slice_frame_values(c: &Canvas, g: &PanelGeometry, mode: PixelMode)
    -> (r: Vec<Vec<Vec<u32>>>)
    requires
        g.wf(),
        c@.wf(),
        frame_fits(c@, *g),
    ensures
        r.deep_view() == sliced_values(c@, *g, mode),
{
    let mut panels: Vec<Vec<Vec<u32>>> = Vec::new();
    let mut p: usize = 0;
    while p < g.panel_count
        invariant
            g.wf(),
            c@.wf(),
            frame_fits(c@, *g),
            p <= g.panel_count,
            panels@.len() == p,
            forall|pi: int| 0 <= pi < p ==> panels@[pi].deep_view()
                == sliced_values(c@, *g, mode)[pi],
        decreases g.panel_count - p,
    {
        let mut panel: Vec<Vec<u32>> = Vec::new();
        let mut y: usize = 0;
        while y < g.rows
            invariant
                g.wf(),
                c@.wf(),
                frame_fits(c@, *g),
                p < g.panel_count,
                y <= g.rows,
                panel@.len() == y,
                forall|yi: int| 0 <= yi < y ==> panel@[yi].deep_view()
                    == row_cells(c@, *g, mode, p as int, yi),
            decreases g.rows - y,
        {
            let row = build_row_cells(c, g, mode, p, y);
            proof {
                assert(row.deep_view() =~= row@);
            }
            panel.push(row);
            y = y + 1;
        }
        proof {
            assert(panel.deep_view() =~= sliced_values(c@, *g, mode)[p as int]);
        }
        panels.push(panel);
        p = p + 1;
    }
    proof {
        assert(panels.deep_view() =~= sliced_values(c@, *g, mode));
    }
    panels
}

/// Render one panel row of a validated canvas as flat cells.
fn build_row_cells(c: &Canvas, g: &PanelGeometry, mode: PixelMode, p: usize, y: usize)
    -> (row: Vec<u32>)
    requires
        g.wf(),
        c@.wf(),
        frame_fits(c@, *g),
        p < g.panel_count,
        y < g.rows,
    ensures
        row@ == row_cells(c@, *g, mode, p as int, y as int),
{
    let mut row: Vec<u32> = Vec::new();
    let mut x: usize = 0;
    while x < g.cols
        invariant
            g.wf(),
            c@.wf(),
            frame_fits(c@, *g),
            p < g.panel_count,
            y < g.rows,
            x <= g.cols,
            mode is Packed ==> row@.len() == x
                && forall|xi: int| 0 <= xi < x ==> row@[xi]
                    == packed_px(c@, p * g.cols + xi, y as int),
            mode is Triple ==> row@.len() == 3 * x
                && forall|j: int| 0 <= j < 3 * x
                    ==> row@[j] == c@.chan(p * g.cols + j / 3, y as int, j % 3) as u32,
        decreases g.cols - x,
    {
        proof {
            assert(p * g.cols + x < g.cols * g.panel_count
                && p * g.cols <= usize::MAX) by (nonlinear_arith)
                requires
                    p < g.panel_count,
                    x < g.cols,
                    g.cols * g.panel_count <= usize::MAX,
            ;
        }
        let cx: usize = p * g.cols + x;
        let (rc, gc, bc) = c.channels(cx, y);
        match mode {
            PixelMode::Packed => {
                let v: u32 = ((rc as u32) << 16) | ((gc as u32) << 8) | (bc as u32);
                row.push(v);
            },
            PixelMode::Triple => {
                row.push(rc as u32);
                row.push(gc as u32);
                row.push(bc as u32);
                proof {
                    lemma_fundamental_div_mod_converse(3 * x, 3, x as int, 0);
                    lemma_fundamental_div_mod_converse(3 * x + 1, 3, x as int, 1);
                    lemma_fundamental_div_mod_converse(3 * x + 2, 3, x as int, 2);
                }
            },
        }
        x = x + 1;
    }
    proof {
        assert(row@ =~= row_cells(c@, *g, mode, p as int, y as int));
    }
    row
}

/// Slicing preserves every pixel: the triple stored for panel `x / cols`,
/// panel column `x % cols` of row `y` is exactly the canvas pixel at column
/// `x`, so re-assembling the panels left to right (panel 0's columns first,
/// then panel 1's, and so on, row by row) reproduces the original pixel
/// order exactly.
pub proof fn lemma_slice_reassembles(c: CanvasView, g: PanelGeometry, x: int, y: int)
    requires
        g.wf(),
        c.wf(),
        frame_fits(c, g),
        0 <= x < c.width,
        0 <= y < c.height,
    ensures
        0 <= x / (g.cols as int) < g.panel_count,
        0 <= x % (g.cols as int) < g.cols,
        sliced_triples(c, g)[x / (g.cols as int)][y][x % (g.cols as int)] == triple_px(c, x, y),
{
    let cols = g.cols as int;
    lemma_fundamental_div_mod(x, cols);
    lemma_mod_division_less_than_divisor(x, cols);
    assert(x / cols < g.panel_count) by (nonlinear_arith)
        requires
            cols >= 1,
            x < cols * g.panel_count,
            cols * (x / cols) + x % cols == x,
            0 <= x % cols < cols,
    ;
    assert(x / cols >= 0) by (nonlinear_arith)
        requires
            cols >= 1,
            0 <= x,
            cols * (x / cols) + x % cols == x,
            0 <= x % cols < cols,
    ;
    assert((x / cols) * cols + x % cols == x) by (nonlinear_arith)
        requires
            cols * (x / cols) + x % cols == x,
    ;
}

/// Packing and the triple layout agree pixel for pixel: unpacking the packed
/// cell for panel `p`, row `y`, panel column `x` with the defined shifts and
/// masks yields exactly the three triple-mode cells for that pixel, and the
/// packed value stays within `0..=0xFFFFFF`.
pub proof fn lemma_packed_matches_triple(c: CanvasView, g: PanelGeometry, p: int, y: int, x: int)
    requires
        g.wf(),
        c.wf(),
        frame_fits(c, g),
        0 <= p < g.panel_count,
        0 <= y < g.rows,
        0 <= x < g.cols,
    ensures
        ({
            let v = row_cells(c, g, PixelMode::Packed, p, y)[x];
            let t = row_cells(c, g, PixelMode::Triple, p, y);
            &&& ((v >> 16) & 0xff) == t[3 * x]
            &&& ((v >> 8) & 0xff) == t[3 * x + 1]
            &&& (v & 0xff) == t[3 * x + 2]
            &&& v <= 0xffffff
        }),
{
    lemma_fundamental_div_mod_converse(3 * x, 3, x, 0);
    lemma_fundamental_div_mod_converse(3 * x + 1, 3, x, 1);
    lemma_fundamental_div_mod_converse(3 * x + 2, 3, x, 2);
    lemma_pack_unpack(c.chan(p * g.cols + x, y, 0), c.chan(p * g.cols + x, y, 1),
        c.chan(p * g.cols + x, y, 2));
}

/// Unpacking `(R << 16) | (G << 8) | B` recovers each channel, and the packed
/// value fits in 24 bits.
proof fn lemma_pack_unpack(r: u8, g: u8, b: u8)
    ensures
        ({
            let v = ((r as u32) << 16) | ((g as u32) << 8) | (b as u32);
            &&& ((v >> 16) & 0xff) == r as u32
            &&& ((v >> 8) & 0xff) == g as u32
            &&& (v & 0xff) == b as u32
            &&& v <= 0xffffff
        }),
{
    assert(({
        let v = ((r as u32) << 16) | ((g as u32) << 8) | (b as u32);
        &&& ((v >> 16) & 0xff) == r as u32
        &&& ((v >> 8) & 0xff) == g as u32
        &&& (v & 0xff) == b as u32
        &&& v <= 0xffffff
    })) by (bit_vector);
}

} // verus!
