use vstd::prelude::*;

verus! {

/// Geometry of the tiled display: `panel_count` physical panels arranged side
/// by side, each `rows` high and `cols` wide.  The composite canvas that a
/// decoded image must match is `cols * panel_count` wide and `rows` tall.
#[derive(Clone, Copy, Debug, PartialEq, Eq, Structural)]
pub struct PanelGeometry {
    pub panel_count: usize,
    pub rows: usize,
    pub cols: usize,
}

impl PanelGeometry {
    /// Width of the composite canvas.
    pub open spec fn expected_width(self) -> int {
        self.cols * self.panel_count
    }

    /// Height of the composite canvas.
    pub open spec fn expected_height(self) -> int {
        self.rows as int
    }

    /// The panel counts are positive and the composite width fits a `usize`.
    pub open spec fn wf(self) -> bool {
        &&& self.panel_count >= 1
        &&& self.rows >= 1
        &&& self.cols >= 1
        &&& self.cols * self.panel_count <= usize::MAX
    }

    /// Composite canvas width, `cols * panel_count`.
    pub fn composite_width(&self) -> (w: usize)
        requires
            self.wf(),
        ensures
            w == self.expected_width(),
    {
        self.cols * self.panel_count
    }
}

} // verus!
