use crate::layout::Region;
use crate::scroll::ScrollAxis;
use crate::selection::spec_shift_added;
use crate::selection::spec_shift_removed;
use crate::selection::CellSelection;
use crate::selection::RowSelection;
use crate::selection::RowSetSelection;
use crate::selection::TableSelection;
use vstd::prelude::*;

verus! {

/// Everything about a table that survives between renders: the areas
/// of the last render, the row and column counts, both scroll axes,
/// and the selection.
#[derive(Clone, Debug)]
pub struct TableState<Selection> {
    /// The table has input focus.
    pub focus: bool,
    /// Total area of the last render.
    pub area: Region,
    /// Area inside the border.
    pub inner: Region,
    /// Header area.
    pub header_area: Region,
    /// Body area: the viewport for the rows.
    pub table_area: Region,
    /// Area of each visible row; the first entry is the row at the
    /// vertical offset.
    pub row_areas: Vec<Region>,
    /// On-screen area of each column, shifted by the horizontal
    /// scroll and clipped to the body.
    pub column_areas: Vec<Region>,
    /// Unscrolled layout of each column plus its trailing spacer;
    /// x and width only.
    pub column_layout: Vec<Region>,
    /// Footer area.
    pub footer_area: Region,
    /// Row count as of the last render. Under an exact reported
    /// count this keeps the reported value, also when the scan saw a
    /// different number of rows: `counted_rows` and `count_mismatch`
    /// carry the discrepancy, and the maximum offset falls back to a
    /// value computed from the reported count.
    pub rows: usize,
    /// Rows the last render actually iterated; differs from `rows`
    /// when the data source misreports its count.
    pub counted_rows: usize,
    /// Column count.
    pub columns: usize,
    /// The last render found `rows` and `counted_rows` in
    /// disagreement, or an offset past the data.
    pub count_mismatch: bool,
    /// Vertical scrolling.
    pub vscroll: ScrollAxis,
    /// Horizontal scrolling.
    pub hscroll: ScrollAxis,
    /// The selection.
    pub selection: Selection,
}

impl<Selection: Default> Default for TableState<Selection> {
    fn default() -> (r: Self)
        ensures
            r.focus == false,
            r.area == (Region { x: 0u16, y: 0u16, width: 0u16, height: 0u16 }),
            r.row_areas@.len() == 0,
            r.column_areas@.len() == 0,
            r.column_layout@.len() == 0,
            r.rows == 0,
            r.counted_rows == 0,
            r.columns == 0,
            r.count_mismatch == false,
            r.vscroll == (ScrollAxis {
                offset: 0usize,
                max_offset: 0usize,
                page_len: 0usize,
                scroll_by: None::<usize>,
                overscroll_by: None::<usize>,
            }),
            r.hscroll == (ScrollAxis {
                offset: 0usize,
                max_offset: 0usize,
                page_len: 0usize,
                scroll_by: None::<usize>,
                overscroll_by: None::<usize>,
            }),
    {
        TableState {
            focus: false,
            area: Region { x: 0, y: 0, width: 0, height: 0 },
            inner: Region { x: 0, y: 0, width: 0, height: 0 },
            header_area: Region { x: 0, y: 0, width: 0, height: 0 },
            table_area: Region { x: 0, y: 0, width: 0, height: 0 },
            row_areas: Vec::new(),
            column_areas: Vec::new(),
            column_layout: Vec::new(),
            footer_area: Region { x: 0, y: 0, width: 0, height: 0 },
            rows: 0,
            counted_rows: 0,
            columns: 0,
            count_mismatch: false,
            vscroll: ScrollAxis::new(),
            hscroll: ScrollAxis::new(),
            selection: Default::default(),
        }
    }
}

impl<Selection> TableState<Selection> {
    pub fn new() -> (r: Self) where Selection: Default
        ensures
            r.rows == 0,
            r.counted_rows == 0,
            r.columns == 0,
            r.count_mismatch == false,
            r.row_areas@.len() == 0,
            r.vscroll == (ScrollAxis {
                offset: 0usize,
                max_offset: 0usize,
                page_len: 0usize,
                scroll_by: None::<usize>,
                overscroll_by: None::<usize>,
            }),
            r.hscroll == (ScrollAxis {
                offset: 0usize,
                max_offset: 0usize,
                page_len: 0usize,
                scroll_by: None::<usize>,
                overscroll_by: None::<usize>,
            }),
    {
        Default::default()
    }

    /// A fresh state around the given selection. Unlike `new`, whose
    /// generic `Default` selection has no stated value, this pins
    /// every field.
    pub fn with_selection(selection: Selection) -> (r: Self)
        ensures
            r == (TableState {
                focus: false,
                area: (Region { x: 0u16, y: 0u16, width: 0u16, height: 0u16 }),
                inner: (Region { x: 0u16, y: 0u16, width: 0u16, height: 0u16 }),
                header_area: (Region { x: 0u16, y: 0u16, width: 0u16, height: 0u16 }),
                table_area: (Region { x: 0u16, y: 0u16, width: 0u16, height: 0u16 }),
                row_areas: r.row_areas,
                column_areas: r.column_areas,
                column_layout: r.column_layout,
                footer_area: (Region { x: 0u16, y: 0u16, width: 0u16, height: 0u16 }),
                rows: 0usize,
                counted_rows: 0usize,
                columns: 0usize,
                count_mismatch: false,
                vscroll: (ScrollAxis {
                    offset: 0usize,
                    max_offset: 0usize,
                    page_len: 0usize,
                    scroll_by: None::<usize>,
                    overscroll_by: None::<usize>,
                }),
                hscroll: (ScrollAxis {
                    offset: 0usize,
                    max_offset: 0usize,
                    page_len: 0usize,
                    scroll_by: None::<usize>,
                    overscroll_by: None::<usize>,
                }),
                selection,
            }),
            r.row_areas@.len() == 0,
            r.column_areas@.len() == 0,
            r.column_layout@.len() == 0,
    {
        TableState {
            focus: false,
            area: Region { x: 0, y: 0, width: 0, height: 0 },
            inner: Region { x: 0, y: 0, width: 0, height: 0 },
            header_area: Region { x: 0, y: 0, width: 0, height: 0 },
            table_area: Region { x: 0, y: 0, width: 0, height: 0 },
            row_areas: Vec::new(),
            column_areas: Vec::new(),
            column_layout: Vec::new(),
            footer_area: Region { x: 0, y: 0, width: 0, height: 0 },
            rows: 0,
            counted_rows: 0,
            columns: 0,
            count_mismatch: false,
            vscroll: ScrollAxis::new(),
            hscroll: ScrollAxis::new(),
            selection,
        }
    }

    /// Number of rows.
    pub fn rows(&self) -> (r: usize)
        ensures
            r == self.rows,
    {
        self.rows
    }

    /// Number of columns.
    pub fn columns(&self) -> (r: usize)
        ensures
            r == self.columns,
    {
        self.columns
    }

    /// Sets both offsets to 0.
    pub fn clear_offset(&mut self)
        ensures
            final(self).vscroll == (ScrollAxis { offset: 0usize, ..old(self).vscroll }),
            final(self).hscroll == (ScrollAxis { offset: 0usize, ..old(self).hscroll }),
            *final(self) == (TableState {
                vscroll: final(self).vscroll,
                hscroll: final(self).hscroll,
                ..*old(self)
            }),
    {
        self.vscroll.set_offset(0);
        self.hscroll.set_offset(0);
    }

    /// Maximum vertical offset reachable by scrolling. Shorter than
    /// the row count by whatever fills the last page.
    pub fn row_max_offset(&self) -> (r: usize)
        ensures
            r == self.vscroll.max_offset,
    {
        self.vscroll.max_offset()
    }

    /// Current vertical offset.
    pub fn row_offset(&self) -> (r: usize)
        ensures
            r == self.vscroll.offset,
    {
        self.vscroll.offset()
    }

    /// Change the vertical offset. Overscroll is allowed: the next
    /// render detects and clamps an offset past the data. Reports
    /// whether the offset changed.
    pub fn set_row_offset(&mut self, offset: usize) -> (r: bool)
        ensures
            final(self).vscroll == (ScrollAxis { offset, ..old(self).vscroll }),
            *final(self) == (TableState { vscroll: final(self).vscroll, ..*old(self) }),
            r == (old(self).vscroll.offset != offset),
    {
        self.vscroll.set_offset(offset)
    }

    /// Vertical page size at the current offset.
    pub fn page_len(&self) -> (r: usize)
        ensures
            r == self.vscroll.page_len,
    {
        self.vscroll.page_len()
    }

    /// Suggested rows per scroll event.
    pub fn row_scroll_by(&self) -> (r: usize)
        ensures
            r == self.vscroll.spec_scroll_by(),
    {
        self.vscroll.scroll_by()
    }

    /// Maximum horizontal offset reachable by scrolling.
    pub fn x_max_offset(&self) -> (r: usize)
        ensures
            r == self.hscroll.max_offset,
    {
        self.hscroll.max_offset()
    }

    /// Current horizontal offset.
    pub fn x_offset(&self) -> (r: usize)
        ensures
            r == self.hscroll.offset,
    {
        self.hscroll.offset()
    }

    /// Change the horizontal offset. Overscroll is allowed, as for
    /// the vertical axis. Reports whether the offset changed.
    pub fn set_x_offset(&mut self, offset: usize) -> (r: bool)
        ensures
            final(self).hscroll == (ScrollAxis { offset, ..old(self).hscroll }),
            *final(self) == (TableState { hscroll: final(self).hscroll, ..*old(self) }),
            r == (old(self).hscroll.offset != offset),
    {
        self.hscroll.set_offset(offset)
    }

    /// Horizontal page size at the current offset.
    pub fn page_width(&self) -> (r: usize)
        ensures
            r == self.hscroll.page_len,
    {
        self.hscroll.page_len()
    }

    /// Suggested columns per scroll event.
    pub fn x_scroll_by(&self) -> (r: usize)
        ensures
            r == self.hscroll.spec_scroll_by(),
    {
        self.hscroll.scroll_by()
    }

    /// Reduce the vertical offset by `n`.
    pub fn scroll_up(&mut self, n: usize) -> (r: bool)
        ensures
            final(self).vscroll.offset == old(self).vscroll.spec_limited(
                if old(self).vscroll.offset >= n {
                    old(self).vscroll.offset - n
                } else {
                    0
                },
            ),
            final(self).vscroll == (ScrollAxis {
                offset: final(self).vscroll.offset,
                ..old(self).vscroll
            }),
            *final(self) == (TableState { vscroll: final(self).vscroll, ..*old(self) }),
            r == (old(self).vscroll.offset != final(self).vscroll.offset),
    {
        self.vscroll.scroll_up(n)
    }

    /// Increase the vertical offset by `n`, not past the maximum.
    pub fn scroll_down(&mut self, n: usize) -> (r: bool)
        ensures
            final(self).vscroll.offset == old(self).vscroll.spec_limited(
                if old(self).vscroll.offset + n <= usize::MAX {
                    old(self).vscroll.offset + n
                } else {
                    usize::MAX as int
                },
            ),
            final(self).vscroll == (ScrollAxis {
                offset: final(self).vscroll.offset,
                ..old(self).vscroll
            }),
            *final(self) == (TableState { vscroll: final(self).vscroll, ..*old(self) }),
            r == (old(self).vscroll.offset != final(self).vscroll.offset),
    {
        self.vscroll.scroll_down(n)
    }

    /// Reduce the horizontal offset by `n`.
    pub fn scroll_left(&mut self, n: usize) -> (r: bool)
        ensures
            final(self).hscroll.offset == old(self).hscroll.spec_limited(
                if old(self).hscroll.offset >= n {
                    old(self).hscroll.offset - n
                } else {
                    0
                },
            ),
            final(self).hscroll == (ScrollAxis {
                offset: final(self).hscroll.offset,
                ..old(self).hscroll
            }),
            *final(self) == (TableState { hscroll: final(self).hscroll, ..*old(self) }),
            r == (old(self).hscroll.offset != final(self).hscroll.offset),
    {
        self.hscroll.scroll_up(n)
    }

    /// Increase the horizontal offset by `n`, not past the maximum.
    pub fn scroll_right(&mut self, n: usize) -> (r: bool)
        ensures
            final(self).hscroll.offset == old(self).hscroll.spec_limited(
                if old(self).hscroll.offset + n <= usize::MAX {
                    old(self).hscroll.offset + n
                } else {
                    usize::MAX as int
                },
            ),
            final(self).hscroll == (ScrollAxis {
                offset: final(self).hscroll.offset,
                ..old(self).hscroll
            }),
            *final(self) == (TableState { hscroll: final(self).hscroll, ..*old(self) }),
            r == (old(self).hscroll.offset != final(self).hscroll.offset),
    {
        self.hscroll.scroll_down(n)
    }

    /// Adjust the vertical offset just enough to make the row
    /// visible: a row below the page becomes its last row, a row
    /// above it its first, a visible row changes nothing; with an
    /// empty page the row itself becomes the offset.
    pub fn scroll_to_row(&mut self, pos: usize) -> (r: bool)
        requires
            old(self).vscroll.offset + old(self).vscroll.page_len <= usize::MAX,
        ensures
            final(self).vscroll.offset == old(self).vscroll.spec_scroll_to(pos as int),
            final(self).vscroll == (ScrollAxis {
                offset: final(self).vscroll.offset,
                ..old(self).vscroll
            }),
            *final(self) == (TableState { vscroll: final(self).vscroll, ..*old(self) }),
            r == (old(self).vscroll.offset != final(self).vscroll.offset),
    {
        self.vscroll.scroll_to_pos(pos)
    }

    /// Adjust the horizontal offset just enough to make the given
    /// x position visible.
    pub fn scroll_to_x(&mut self, pos: usize) -> (r: bool)
        requires
            old(self).hscroll.offset + old(self).hscroll.page_len <= usize::MAX,
        ensures
            final(self).hscroll.offset == old(self).hscroll.spec_scroll_to(pos as int),
            final(self).hscroll == (ScrollAxis {
                offset: final(self).hscroll.offset,
                ..old(self).hscroll
            }),
            *final(self) == (TableState { hscroll: final(self).hscroll, ..*old(self) }),
            r == (old(self).hscroll.offset != final(self).hscroll.offset),
    {
        self.hscroll.scroll_to_pos(pos)
    }

    /// Adjust the horizontal offset just enough to make the column
    /// completely visible, going by the unscrolled column layout. An
    /// unknown column changes nothing; with an empty page the
    /// column's left edge becomes the offset, so that repeating the
    /// call never moves it again.
    pub fn scroll_to_col(&mut self, pos: usize) -> (r: bool)
        requires
            old(self).hscroll.offset + old(self).hscroll.page_len <= usize::MAX,
        ensures
            pos >= old(self).column_layout@.len() ==> *final(self) == *old(self) && r == false,
            pos < old(self).column_layout@.len() ==> {
                let col = old(self).column_layout@[pos as int];
                &&& final(self).hscroll.offset == (if old(self).hscroll.page_len == 0 {
                    col.spec_left()
                } else if col.spec_left() < old(self).hscroll.offset {
                    col.spec_left()
                } else if col.spec_right() >= old(self).hscroll.offset + old(
                    self,
                ).hscroll.page_len {
                    col.spec_right() - old(self).hscroll.page_len
                } else {
                    old(self).hscroll.offset as int
                })
                &&& final(self).hscroll == (ScrollAxis {
                    offset: final(self).hscroll.offset,
                    ..old(self).hscroll
                })
                &&& *final(self) == (TableState { hscroll: final(self).hscroll, ..*old(self) })
                &&& r == (old(self).hscroll.offset != final(self).hscroll.offset)
            },
    {
        if pos < self.column_layout.len() {
            let col = self.column_layout[pos];
            let left = col.x as usize;
            let right = col.right() as usize;
            if self.hscroll.page_len() == 0 {
                self.set_x_offset(left)
            } else if left < self.hscroll.offset() {
                self.set_x_offset(left)
            } else if right >= self.hscroll.offset() + self.hscroll.page_len() {
                self.set_x_offset(right - self.hscroll.page_len())
            } else {
                false
            }
        } else {
            false
        }
    }
}

} // verus!

verus! {

/// The first region in the list that covers the x position, looking
/// only at the horizontal extent.
pub open spec fn spec_region_at_x(areas: Seq<Region>, x: int) -> Option<usize> {
    spec_region_at_x_from(areas, x, 0)
}

pub open spec fn spec_region_at_x_from(areas: Seq<Region>, x: int, i: int) -> Option<usize>
    decreases areas.len() - i,
{
    if i < 0 || i >= areas.len() {
        None
    } else if areas[i].spec_left() <= x < areas[i].spec_right() {
        Some(i as usize)
    } else {
        spec_region_at_x_from(areas, x, i + 1)
    }
}

/// The first region in the list that covers the y position, looking
/// only at the vertical extent.
pub open spec fn spec_region_at_y(areas: Seq<Region>, y: int) -> Option<usize> {
    spec_region_at_y_from(areas, y, 0)
}

pub open spec fn spec_region_at_y_from(areas: Seq<Region>, y: int, i: int) -> Option<usize>
    decreases areas.len() - i,
{
    if i < 0 || i >= areas.len() {
        None
    } else if areas[i].spec_top() <= y < areas[i].spec_bottom() {
        Some(i as usize)
    } else {
        spec_region_at_y_from(areas, y, i + 1)
    }
}

/// Index of the first region covering the x position.
fn region_at_x(areas: &Vec<Region>, x: u16) -> (r: Option<usize>)
    ensures
        r == spec_region_at_x(areas@, x as int),
{
    let mut i: usize = 0;
    while i < areas.len()
        invariant
            0 <= i <= areas@.len(),
            spec_region_at_x(areas@, x as int) == spec_region_at_x_from(areas@, x as int, i as int),
        decreases areas@.len() - i,
    {
        let a = areas[i];
        if a.x <= x && x < a.right() {
            return Some(i);
        }
        i += 1;
    }
    None
}

/// Index of the first region covering the y position.
fn region_at_y(areas: &Vec<Region>, y: u16) -> (r: Option<usize>)
    ensures
        r == spec_region_at_y(areas@, y as int),
{
    let mut i: usize = 0;
    while i < areas.len()
        invariant
            0 <= i <= areas@.len(),
            spec_region_at_y(areas@, y as int) == spec_region_at_y_from(areas@, y as int, i as int),
        decreases areas@.len() - i,
    {
        let a = areas[i];
        if a.y <= y && y < a.bottom() {
            return Some(i);
        }
        i += 1;
    }
    None
}

impl<Selection> TableState<Selection> {
    /// The whole row area and the cell areas for the row, if the row
    /// is on the current page.
    pub fn row_cells(&self, row: usize) -> (r: Option<(Region, Vec<Region>)>)
        requires
            self.vscroll.offset + self.vscroll.page_len <= usize::MAX,
        ensures
            (r is Some) == (self.vscroll.offset <= row < self.vscroll.offset
                + self.vscroll.page_len && row - self.vscroll.offset < self.row_areas@.len()),
            (r matches Some(rr) ==> {
                &&& rr.0 == self.row_areas@[row - self.vscroll.offset]
                &&& rr.1@.len() == self.column_areas@.len()
                &&& forall|c: int|
                    0 <= c < self.column_areas@.len() ==> rr.1@[c] == (Region {
                        x: self.column_areas@[c].x,
                        y: rr.0.y,
                        width: self.column_areas@[c].width,
                        height: rr.0.height,
                    })
            }),
    {
        if row < self.vscroll.offset() || row >= self.vscroll.offset() + self.vscroll.page_len() {
            return None;
        }
        let idx = row - self.vscroll.offset();
        if idx >= self.row_areas.len() {
            return None;
        }
        let r = self.row_areas[idx];
        let mut areas: Vec<Region> = Vec::new();
        let mut c: usize = 0;
        while c < self.column_areas.len()
            invariant
                0 <= c <= self.column_areas@.len(),
                areas@.len() == c,
                forall|k: int|
                    0 <= k < c ==> areas@[k] == (Region {
                        x: self.column_areas@[k].x,
                        y: r.y,
                        width: self.column_areas@[k].width,
                        height: r.height,
                    }),
            decreases self.column_areas@.len() - c,
        {
            let ca = self.column_areas[c];
            areas.push(Region { x: ca.x, y: r.y, width: ca.width, height: r.height });
            c += 1;
        }
        Some((r, areas))
    }

    /// The cell at a clicked position, if both a column and a row lie
    /// under it.
    pub fn cell_at_clicked(&self, pos: (u16, u16)) -> (r: Option<(usize, usize)>)
        requires
            self.vscroll.offset + self.row_areas@.len() <= usize::MAX,
        ensures
            r == (match (
                spec_region_at_x(self.column_areas@, pos.0 as int),
                spec_region_at_y(self.row_areas@, pos.1 as int),
            ) {
                (Some(c), Some(w)) => Some((c, (self.vscroll.offset + w) as usize)),
                _ => None::<(usize, usize)>,
            }),
    {
        let col = self.column_at_clicked(pos);
        let row = self.row_at_clicked(pos);
        match (col, row) {
            (Some(col), Some(row)) => Some((col, row)),
            _ => None,
        }
    }

    /// The column at a clicked position.
    pub fn column_at_clicked(&self, pos: (u16, u16)) -> (r: Option<usize>)
        ensures
            r == spec_region_at_x(self.column_areas@, pos.0 as int),
    {
        region_at_x(&self.column_areas, pos.0)
    }

    /// The row at a clicked position.
    pub fn row_at_clicked(&self, pos: (u16, u16)) -> (r: Option<usize>)
        requires
            self.vscroll.offset + self.row_areas@.len() <= usize::MAX,
        ensures
            r == (match spec_region_at_y(self.row_areas@, pos.1 as int) {
                Some(w) => Some((self.vscroll.offset + w) as usize),
                None => None::<usize>,
            }),
    {
        let ghost areas = self.row_areas@;
        let n = self.row_areas.len();
        let hit = region_at_y(&self.row_areas, pos.1);
        match hit {
            Some(w) => {
                proof {
                    lemma_region_at_y_in_range(areas, pos.1 as int, 0);
                }
                Some(self.vscroll.offset() + w)
            },
            None => None,
        }
    }
}

/// A hit returned by the y search lies inside the list.
proof fn lemma_region_at_y_in_range(areas: Seq<Region>, y: int, i: int)
    requires
        0 <= i <= areas.len(),
        areas.len() <= usize::MAX,
    ensures
        forall|w: usize| spec_region_at_y_from(areas, y, i) == Some(w) ==> i <= w < areas.len(),
    decreases areas.len() - i,
{
    if i < areas.len() {
        lemma_region_at_y_in_range(areas, y, i + 1);
        if areas[i].spec_top() <= y < areas[i].spec_bottom() {
            assert(spec_region_at_y_from(areas, y, i) == Some(i as usize));
        } else {
            assert(spec_region_at_y_from(areas, y, i) == spec_region_at_y_from(areas, y, i + 1));
        }
    } else {
        assert(spec_region_at_y_from(areas, y, i) is None);
    }
}

} // verus!

verus! {

impl<Selection> TableState<Selection> {
    /// The cell under a dragged mouse position, which may lie outside
    /// the body area.
    pub fn cell_at_drag(&self, pos: (u16, u16)) -> (r: (usize, usize))
        requires
            self.vscroll.offset + self.row_areas@.len() + u16::MAX + 1 <= usize::MAX,
        ensures
            r.0 == self.spec_column_at_drag(pos.0 as int),
            r.1 == self.spec_row_at_drag(pos.1 as int),
    {
        let col = self.column_at_drag(pos);
        let row = self.row_at_drag(pos);
        (col, row)
    }

    /// Row index for a dragged position: one row per line above the
    /// body, the hit row inside it, one row per line below.
    pub open spec fn spec_row_at_drag(&self, y: int) -> int {
        if y < self.table_area.spec_top() {
            let above = self.table_area.spec_top() - y;
            if self.vscroll.offset >= above {
                self.vscroll.offset - above
            } else {
                0
            }
        } else {
            match spec_region_at_y(self.row_areas@, y) {
                Some(i) => self.vscroll.offset + i,
                None => {
                    let below = if y >= self.table_area.spec_bottom() {
                        y - self.table_area.spec_bottom()
                    } else {
                        0
                    };
                    self.vscroll.offset + self.row_areas@.len() + below + 1
                },
            }
        }
    }

    /// The row under a dragged mouse position; positions above or
    /// below the body map to rows before or past the page.
    pub fn row_at_drag(&self, pos: (u16, u16)) -> (r: usize)
        requires
            self.vscroll.offset + self.row_areas@.len() + u16::MAX + 1 <= usize::MAX,
        ensures
            r == self.spec_row_at_drag(pos.1 as int),
    {
        let y = pos.1;
        if y < self.table_area.y {
            let above = (self.table_area.y - y) as usize;
            if self.vscroll.offset() >= above {
                self.vscroll.offset() - above
            } else {
                0
            }
        } else {
            let n = self.row_areas.len();
            match region_at_y(&self.row_areas, y) {
                Some(i) => {
                    proof {
                        lemma_region_at_y_in_range(self.row_areas@, y as int, 0);
                    }
                    self.vscroll.offset() + i
                },
                None => {
                    let bottom = self.table_area.bottom();
                    let below: usize = if y >= bottom {
                        (y - bottom) as usize
                    } else {
                        0
                    };
                    self.vscroll.offset() + n + below + 1
                },
            }
        }
    }

    /// Column index for a dragged position: the hit column inside the
    /// body, the first column left of it, the last column right of it.
    pub open spec fn spec_column_at_drag(&self, x: int) -> int {
        match spec_region_at_x(self.column_areas@, x) {
            Some(i) => i as int,
            None => if x < self.table_area.spec_left() {
                0
            } else if self.column_areas@.len() > 0 {
                self.column_areas@.len() - 1
            } else {
                0
            },
        }
    }

    /// The column under a dragged mouse position; positions left or
    /// right of the body map to the first or last column.
    pub fn column_at_drag(&self, pos: (u16, u16)) -> (r: usize)
        ensures
            r == self.spec_column_at_drag(pos.0 as int),
    {
        let x = pos.0;
        match region_at_x(&self.column_areas, x) {
            Some(i) => i,
            None => {
                if x < self.table_area.x {
                    0
                } else if self.column_areas.len() > 0 {
                    self.column_areas.len() - 1
                } else {
                    0
                }
            },
        }
    }
}

impl<Selection: TableSelection> TableState<Selection> {
    /// Make the lead of the selection visible on both axes. Reports
    /// whether either offset moved.
    pub fn scroll_to_selected(&mut self) -> (r: bool)
        requires
            old(self).vscroll.offset + old(self).vscroll.page_len <= usize::MAX,
            old(self).hscroll.offset + old(self).hscroll.page_len <= usize::MAX,
        ensures
            old(self).selection.spec_lead_selection() is None ==> *final(self) == *old(self) && r
                == false,
            (old(self).selection.spec_lead_selection() matches Some(c) ==> {
                &&& final(self).hscroll.offset == old(self).hscroll.spec_scroll_to(c.0 as int)
                &&& final(self).vscroll.offset == old(self).vscroll.spec_scroll_to(c.1 as int)
                &&& r == (old(self).hscroll.offset != final(self).hscroll.offset || old(
                    self,
                ).vscroll.offset != final(self).vscroll.offset)
            }),
            final(self).vscroll == (ScrollAxis {
                offset: final(self).vscroll.offset,
                ..old(self).vscroll
            }),
            final(self).hscroll == (ScrollAxis {
                offset: final(self).hscroll.offset,
                ..old(self).hscroll
            }),
            *final(self) == (TableState {
                vscroll: final(self).vscroll,
                hscroll: final(self).hscroll,
                ..*old(self)
            }),
    {
        if let Some(selected) = self.selection.lead_selection() {
            let c = self.scroll_to_x(selected.0);
            let r = self.scroll_to_row(selected.1);
            r || c
        } else {
            false
        }
    }
}

} // verus!

verus! {

impl TableState<RowSelection> {
    /// Update the state for `n` items inserted at `pos`: the row
    /// count grows, and offset, maximum offset and selection shift
    /// with the items.
    pub fn items_added(&mut self, pos: usize, n: usize)
        requires
            old(self).rows + n <= usize::MAX,
            old(self).vscroll.offset + n <= usize::MAX,
            old(self).vscroll.max_offset + n <= usize::MAX,
            (match old(self).selection.lead_row {
                Some(v) => v + n <= usize::MAX,
                None => true,
            }),
        ensures
            final(self).rows == old(self).rows + n,
            final(self).vscroll.offset == (if old(self).vscroll.offset >= pos {
                old(self).vscroll.offset + n
            } else {
                old(self).vscroll.offset as int
            }),
            final(self).vscroll.max_offset == old(self).vscroll.max_offset + n,
            final(self).selection.lead_row == (match old(self).selection.lead_row {
                Some(v) => Some((spec_shift_added(v as int, pos as int, n as int)) as usize),
                None => None::<usize>,
            }),
            final(self).vscroll == (ScrollAxis {
                offset: final(self).vscroll.offset,
                max_offset: final(self).vscroll.max_offset,
                ..old(self).vscroll
            }),
            final(self).selection == (RowSelection {
                lead_row: final(self).selection.lead_row,
                ..old(self).selection
            }),
            *final(self) == (TableState {
                rows: final(self).rows,
                vscroll: final(self).vscroll,
                selection: final(self).selection,
                ..*old(self)
            }),
    {
        self.rows += n;
        self.vscroll.items_added(pos, n);
        self.selection.items_added(pos, n);
    }

    /// Update the state for the `n` items removed at `pos`: the row
    /// count shrinks, and offset, maximum offset and selection shift
    /// back.
    pub fn items_removed(&mut self, pos: usize, n: usize)
        requires
            n <= old(self).rows,
        ensures
            final(self).rows == old(self).rows - n,
            final(self).vscroll.offset == (if old(self).vscroll.offset >= pos && old(
                self,
            ).vscroll.offset >= n {
                old(self).vscroll.offset - n
            } else {
                old(self).vscroll.offset as int
            }),
            final(self).vscroll.max_offset == (if old(self).vscroll.max_offset >= n {
                old(self).vscroll.max_offset - n
            } else {
                0
            }),
            final(self).selection.lead_row == (match old(self).selection.lead_row {
                Some(v) => Some((spec_shift_removed(v as int, pos as int, n as int)) as usize),
                None => None::<usize>,
            }),
            final(self).vscroll == (ScrollAxis {
                offset: final(self).vscroll.offset,
                max_offset: final(self).vscroll.max_offset,
                ..old(self).vscroll
            }),
            final(self).selection == (RowSelection {
                lead_row: final(self).selection.lead_row,
                ..old(self).selection
            }),
            *final(self) == (TableState {
                rows: final(self).rows,
                vscroll: final(self).vscroll,
                selection: final(self).selection,
                ..*old(self)
            }),
    {
        self.rows -= n;
        self.vscroll.items_removed(pos, n);
        self.selection.items_removed(pos, n);
    }

    /// Map a scrollbar position, which runs from 0 to `max_offset`,
    /// onto a row, which runs from 0 to the row count.
    pub fn remap_offset_selection(&self, offset: usize) -> (r: usize)
        requires
            self.rows * offset <= usize::MAX,
        ensures
            r == if self.vscroll.max_offset > 0 {
                (self.rows * offset) as int / self.vscroll.max_offset as int
            } else {
                0
            },
    {
        if self.vscroll.max_offset() > 0 {
            (self.rows * offset) / self.vscroll.max_offset()
        } else {
            0
        }
    }

    /// When scrolling the table, move the selection instead of the
    /// offset.
    pub fn set_scroll_selection(&mut self, scroll: bool)
        ensures
            final(self).selection == (RowSelection {
                scroll_selected: scroll,
                ..old(self).selection
            }),
            *final(self) == (TableState { selection: final(self).selection, ..*old(self) }),
    {
        self.selection.set_scroll_selected(scroll);
    }

    /// Clear the selection.
    pub fn clear_selection(&mut self)
        ensures
            final(self).selection == (RowSelection {
                lead_row: None::<usize>,
                ..old(self).selection
            }),
            *final(self) == (TableState { selection: final(self).selection, ..*old(self) }),
    {
        self.selection.clear();
    }

    /// Anything selected?
    pub fn has_selection(&self) -> (r: bool)
        ensures
            r == self.selection.lead_row.is_some(),
    {
        self.selection.has_selection()
    }

    /// The selected row.
    pub fn selected(&self) -> (r: Option<usize>)
        ensures
            r == self.selection.lead_row,
    {
        self.selection.selected()
    }

    /// Select the row. Reports whether the selection changed.
    pub fn select(&mut self, row: Option<usize>) -> (r: bool)
        ensures
            final(self).selection == (RowSelection { lead_row: row, ..old(self).selection }),
            *final(self) == (TableState { selection: final(self).selection, ..*old(self) }),
            r == (old(self).selection.lead_row != row),
    {
        self.selection.select(row)
    }

    /// Move the selection to the row, clamped to the rows, and make
    /// it visible. Reports whether selection or offset changed.
    pub fn move_to(&mut self, row: usize) -> (r: bool)
        requires
            old(self).vscroll.offset + old(self).vscroll.page_len <= usize::MAX,
        ensures
            final(self).selection.lead_row == Some(
                (if row as int <= old(self).rows - 1 {
                    row as int
                } else if old(self).rows >= 1 {
                    old(self).rows - 1
                } else {
                    0
                }) as usize,
            ),
            final(self).rows == old(self).rows,
            old(self).vscroll.page_len >= 1 ==> final(self).vscroll.offset
                <= final(self).selection.lead_row->0 && final(self).selection.lead_row->0
                < final(self).vscroll.offset + old(self).vscroll.page_len,
            r == (old(self).selection.lead_row != final(self).selection.lead_row || old(
                self,
            ).vscroll.offset != final(self).vscroll.offset),
            final(self).hscroll == old(self).hscroll,
            final(self).vscroll == (ScrollAxis {
                offset: final(self).vscroll.offset,
                ..old(self).vscroll
            }),
            final(self).selection == (RowSelection {
                lead_row: final(self).selection.lead_row,
                ..old(self).selection
            }),
            *final(self) == (TableState {
                vscroll: final(self).vscroll,
                selection: final(self).selection,
                ..*old(self)
            }),
    {
        let max = if self.rows >= 1 { self.rows - 1 } else { 0 };
        let r = self.selection.move_to(row, max);
        let sel = match self.selection.selected() {
            Some(v) => v,
            None => 0,
        };
        let s = self.scroll_to_row(sel);
        r || s
    }

    /// Move the selection up `n` rows and make it visible.
    pub fn move_up(&mut self, n: usize) -> (r: bool)
        requires
            old(self).vscroll.offset + old(self).vscroll.page_len <= usize::MAX,
        ensures
            final(self).rows == old(self).rows,
            final(self).selection.lead_row == Some((match old(self).selection.lead_row {
                Some(v) => {
                    let max = if old(self).rows >= 1 { old(self).rows - 1 } else { 0 };
                    let down = if v >= n { v - n } else { 0 };
                    if down <= max { down } else { max }
                },
                None => if old(self).rows >= 1 { old(self).rows - 1 } else { 0 },
            }) as usize),
            old(self).vscroll.page_len >= 1 ==> final(self).vscroll.offset
                <= final(self).selection.lead_row->0 && final(self).selection.lead_row->0
                < final(self).vscroll.offset + old(self).vscroll.page_len,
            r == (old(self).selection.lead_row != final(self).selection.lead_row || old(
                self,
            ).vscroll.offset != final(self).vscroll.offset),
            final(self).hscroll == old(self).hscroll,
            final(self).vscroll == (ScrollAxis {
                offset: final(self).vscroll.offset,
                ..old(self).vscroll
            }),
            final(self).selection == (RowSelection {
                lead_row: final(self).selection.lead_row,
                ..old(self).selection
            }),
            *final(self) == (TableState {
                vscroll: final(self).vscroll,
                selection: final(self).selection,
                ..*old(self)
            }),
    {
        let max = if self.rows >= 1 { self.rows - 1 } else { 0 };
        let r = self.selection.move_up(n, max);
        let sel = match self.selection.selected() {
            Some(v) => v,
            None => 0,
        };
        let s = self.scroll_to_row(sel);
        r || s
    }

    /// Move the selection down `n` rows and make it visible.
    pub fn move_down(&mut self, n: usize) -> (r: bool)
        requires
            old(self).vscroll.offset + old(self).vscroll.page_len <= usize::MAX,
        ensures
            final(self).rows == old(self).rows,
            final(self).selection.lead_row == Some((match old(self).selection.lead_row {
                Some(v) => {
                    let max = if old(self).rows >= 1 { old(self).rows - 1 } else { 0 };
                    let up = if v + n <= usize::MAX { v + n } else { usize::MAX as int };
                    if up <= max { up } else { max }
                },
                None => 0,
            }) as usize),
            old(self).vscroll.page_len >= 1 ==> final(self).vscroll.offset
                <= final(self).selection.lead_row->0 && final(self).selection.lead_row->0
                < final(self).vscroll.offset + old(self).vscroll.page_len,
            r == (old(self).selection.lead_row != final(self).selection.lead_row || old(
                self,
            ).vscroll.offset != final(self).vscroll.offset),
            final(self).hscroll == old(self).hscroll,
            final(self).vscroll == (ScrollAxis {
                offset: final(self).vscroll.offset,
                ..old(self).vscroll
            }),
            final(self).selection == (RowSelection {
                lead_row: final(self).selection.lead_row,
                ..old(self).selection
            }),
            *final(self) == (TableState {
                vscroll: final(self).vscroll,
                selection: final(self).selection,
                ..*old(self)
            }),
    {
        let max = if self.rows >= 1 { self.rows - 1 } else { 0 };
        let r = self.selection.move_down(n, max);
        let sel = match self.selection.selected() {
            Some(v) => v,
            None => 0,
        };
        let s = self.scroll_to_row(sel);
        r || s
    }
}

/// Adding `n` rows at `pos` and then removing the same range leaves
/// row count, both scroll offsets and the selected row exactly where
/// they were, whatever the selection was. The two states are related
/// exactly as `items_added` and `items_removed` promise.
pub proof fn lemma_items_added_removed_roundtrip(
    s0: TableState<RowSelection>,
    s1: TableState<RowSelection>,
    s2: TableState<RowSelection>,
    pos: usize,
    n: usize,
)
    requires
        s0.rows + n <= usize::MAX,
        s0.vscroll.offset + n <= usize::MAX,
        s0.vscroll.max_offset + n <= usize::MAX,
        (match s0.selection.lead_row {
            Some(v) => v + n <= usize::MAX,
            None => true,
        }),
        // items_added(pos, n)
        s1.rows == s0.rows + n,
        s1.vscroll.offset == (if s0.vscroll.offset >= pos {
            s0.vscroll.offset + n
        } else {
            s0.vscroll.offset as int
        }),
        s1.vscroll.max_offset == s0.vscroll.max_offset + n,
        s1.selection.lead_row == (match s0.selection.lead_row {
            Some(v) => Some((spec_shift_added(v as int, pos as int, n as int)) as usize),
            None => None::<usize>,
        }),
        // items_removed(pos, n)
        s2.rows == s1.rows - n,
        s2.vscroll.offset == (if s1.vscroll.offset >= pos && s1.vscroll.offset >= n {
            s1.vscroll.offset - n
        } else {
            s1.vscroll.offset as int
        }),
        s2.vscroll.max_offset == (if s1.vscroll.max_offset >= n {
            s1.vscroll.max_offset - n
        } else {
            0
        }),
        s2.selection.lead_row == (match s1.selection.lead_row {
            Some(v) => Some((spec_shift_removed(v as int, pos as int, n as int)) as usize),
            None => None::<usize>,
        }),
    ensures
        s2.rows == s0.rows,
        s2.vscroll.offset == s0.vscroll.offset,
        s2.vscroll.max_offset == s0.vscroll.max_offset,
        s2.selection.lead_row == s0.selection.lead_row,
{
}

} // verus!

verus! {

impl TableState<RowSetSelection> {
    /// Update the state for `n` items inserted at `pos`: the row
    /// count grows, and offset, maximum offset, anchor, lead and the
    /// retired rows shift with the items.
    pub fn items_added(&mut self, pos: usize, n: usize)
        requires
            old(self).selection.wf(),
            old(self).selection.spec_fits_added(n as int),
            old(self).rows + n <= usize::MAX,
            old(self).vscroll.offset + n <= usize::MAX,
            old(self).vscroll.max_offset + n <= usize::MAX,
        ensures
            final(self).rows == old(self).rows + n,
            final(self).vscroll.offset == (if old(self).vscroll.offset >= pos {
                old(self).vscroll.offset + n
            } else {
                old(self).vscroll.offset as int
            }),
            final(self).vscroll.max_offset == old(self).vscroll.max_offset + n,
            final(self).selection.anchor_row == (match old(self).selection.anchor_row {
                Some(v) => Some((spec_shift_added(v as int, pos as int, n as int)) as usize),
                None => None::<usize>,
            }),
            final(self).selection.lead_row == (match old(self).selection.lead_row {
                Some(v) => Some((spec_shift_added(v as int, pos as int, n as int)) as usize),
                None => None::<usize>,
            }),
            forall|v: int|
                #![trigger final(self).selection.spec_retired(v)]
                final(self).selection.spec_retired(v) <==> ((v < pos && old(
                    self,
                ).selection.spec_retired(v)) || (v >= pos + n && old(self).selection.spec_retired(
                    v - n,
                ))),
            final(self).selection.wf(),
    {
        self.rows += n;
        self.vscroll.items_added(pos, n);
        self.selection.items_added(pos, n);
    }

    /// Update the state for the `n` items removed at `pos`: the row
    /// count shrinks, and offset, maximum offset, anchor, lead and
    /// the retired rows shift back; retired rows inside the removed
    /// range are dropped.
    pub fn items_removed(&mut self, pos: usize, n: usize)
        requires
            old(self).selection.wf(),
            n <= old(self).rows,
        ensures
            final(self).rows == old(self).rows - n,
            final(self).vscroll.offset == (if old(self).vscroll.offset >= pos && old(
                self,
            ).vscroll.offset >= n {
                old(self).vscroll.offset - n
            } else {
                old(self).vscroll.offset as int
            }),
            final(self).vscroll.max_offset == (if old(self).vscroll.max_offset >= n {
                old(self).vscroll.max_offset - n
            } else {
                0
            }),
            final(self).selection.anchor_row == (match old(self).selection.anchor_row {
                Some(v) => Some((spec_shift_removed(v as int, pos as int, n as int)) as usize),
                None => None::<usize>,
            }),
            final(self).selection.lead_row == (match old(self).selection.lead_row {
                Some(v) => Some((spec_shift_removed(v as int, pos as int, n as int)) as usize),
                None => None::<usize>,
            }),
            forall|v: int|
                #![trigger final(self).selection.spec_retired(v)]
                final(self).selection.spec_retired(v) <==> ((v < pos && old(
                    self,
                ).selection.spec_retired(v)) || (v >= pos && v + n <= usize::MAX && old(
                    self,
                ).selection.spec_retired(v + n))),
            final(self).selection.wf(),
    {
        self.rows -= n;
        self.vscroll.items_removed(pos, n);
        self.selection.items_removed(pos, n);
    }

    /// Clear the selection.
    pub fn clear_selection(&mut self)
        ensures
            final(self).selection.anchor_row == None::<usize>,
            final(self).selection.lead_row == None::<usize>,
            forall|v: int| !final(self).selection.spec_retired(v),
            final(self).selection.wf(),
            *final(self) == (TableState { selection: final(self).selection, ..*old(self) }),
    {
        self.selection.clear();
    }

    /// Anything selected?
    pub fn has_selection(&self) -> (r: bool)
        ensures
            r == (self.selection.lead_row.is_some() || self.selection.selected@.len() > 0),
    {
        self.selection.has_selection()
    }

    /// All selected rows: the retired set plus the active range.
    pub fn selected(&self) -> (r: Vec<usize>)
        requires
            self.selection.wf(),
        ensures
            crate::selection::seq_distinct(r@),
            forall|v: int|
                crate::selection::seq_has(r@, v) <==> self.selection.spec_selected(v),
    {
        self.selection.selected()
    }

    /// Change the lead. Without `extend` anchor and lead both move to
    /// the row, starting a fresh range; with it the anchor stays.
    /// The row is taken as given: only the move operations clamp to
    /// the row count, so a caller-supplied lead may lie past the rows
    /// until the next move or mutation corrects it.
    pub fn set_lead(&mut self, row: Option<usize>, extend: bool) -> (r: bool)
        requires
            old(self).selection.wf(),
        ensures
            final(self).selection.lead_row == row,
            final(self).selection.anchor_row == if extend {
                old(self).selection.anchor_row
            } else {
                row
            },
            forall|v: int|
                final(self).selection.spec_retired(v) == old(self).selection.spec_retired(v),
            final(self).selection.wf(),
            *final(self) == (TableState { selection: final(self).selection, ..*old(self) }),
            r == (old(self).selection.anchor_row != final(self).selection.anchor_row || old(
                self,
            ).selection.lead_row != final(self).selection.lead_row),
    {
        self.selection.set_lead(row, extend)
    }

    /// Current lead.
    pub fn lead(&self) -> (r: Option<usize>)
        ensures
            r == self.selection.lead_row,
    {
        self.selection.lead()
    }

    /// Current anchor.
    pub fn anchor(&self) -> (r: Option<usize>)
        ensures
            r == self.selection.anchor_row,
    {
        self.selection.anchor()
    }

    /// Fold the active anchor/lead range into the retired set and
    /// clear anchor and lead for a new range.
    pub fn retire_selection(&mut self)
        requires
            old(self).selection.wf(),
        ensures
            final(self).selection.anchor_row == None::<usize>,
            final(self).selection.lead_row == None::<usize>,
            forall|v: int|
                final(self).selection.spec_retired(v) <==> (old(self).selection.spec_retired(v)
                    || old(self).selection.spec_in_active(v)),
            final(self).selection.wf(),
            *final(self) == (TableState { selection: final(self).selection, ..*old(self) }),
    {
        self.selection.retire_selection();
    }

    /// Add a row to the retired set; the active range is unaffected.
    pub fn add_selected(&mut self, idx: usize)
        requires
            old(self).selection.wf(),
        ensures
            final(self).selection.anchor_row == old(self).selection.anchor_row,
            final(self).selection.lead_row == old(self).selection.lead_row,
            forall|v: int|
                final(self).selection.spec_retired(v) <==> (old(self).selection.spec_retired(v)
                    || v == idx),
            final(self).selection.wf(),
            *final(self) == (TableState { selection: final(self).selection, ..*old(self) }),
    {
        self.selection.add(idx);
    }

    /// Remove a row from the retired set; the active range is
    /// unaffected.
    pub fn remove_selected(&mut self, idx: usize)
        requires
            old(self).selection.wf(),
        ensures
            final(self).selection.anchor_row == old(self).selection.anchor_row,
            final(self).selection.lead_row == old(self).selection.lead_row,
            forall|v: int|
                final(self).selection.spec_retired(v) <==> (old(self).selection.spec_retired(v)
                    && v != idx),
            final(self).selection.wf(),
            *final(self) == (TableState { selection: final(self).selection, ..*old(self) }),
    {
        self.selection.remove(idx);
    }

    /// Move the lead to the row, clamped to the rows, and make it
    /// visible.
    pub fn move_to(&mut self, row: usize, extend: bool) -> (r: bool)
        requires
            old(self).selection.wf(),
            old(self).vscroll.offset + old(self).vscroll.page_len <= usize::MAX,
        ensures
            final(self).selection.lead_row is Some,
            final(self).selection.wf(),
            final(self).rows == old(self).rows,
    {
        let max = if self.rows >= 1 { self.rows - 1 } else { 0 };
        let r = self.selection.move_to(row, max, extend);
        let sel = match self.selection.lead() {
            Some(v) => v,
            None => 0,
        };
        let s = self.scroll_to_row(sel);
        r || s
    }

    /// Move the lead up `n` rows and make it visible.
    pub fn move_up(&mut self, n: usize, extend: bool) -> (r: bool)
        requires
            old(self).selection.wf(),
            old(self).vscroll.offset + old(self).vscroll.page_len <= usize::MAX,
        ensures
            final(self).selection.lead_row is Some,
            final(self).selection.wf(),
            final(self).rows == old(self).rows,
    {
        let max = if self.rows >= 1 { self.rows - 1 } else { 0 };
        let r = self.selection.move_up(n, max, extend);
        let sel = match self.selection.lead() {
            Some(v) => v,
            None => 0,
        };
        let s = self.scroll_to_row(sel);
        r || s
    }

    /// Move the lead down `n` rows and make it visible.
    pub fn move_down(&mut self, n: usize, extend: bool) -> (r: bool)
        requires
            old(self).selection.wf(),
            old(self).vscroll.offset + old(self).vscroll.page_len <= usize::MAX,
        ensures
            final(self).selection.lead_row is Some,
            final(self).selection.wf(),
            final(self).rows == old(self).rows,
    {
        let max = if self.rows >= 1 { self.rows - 1 } else { 0 };
        let r = self.selection.move_down(n, max, extend);
        let sel = match self.selection.lead() {
            Some(v) => v,
            None => 0,
        };
        let s = self.scroll_to_row(sel);
        r || s
    }
}

impl TableState<CellSelection> {
    /// Clear the selection.
    pub fn clear_selection(&mut self)
        ensures
            final(self).selection.lead_cell == None::<(usize, usize)>,
            *final(self) == (TableState { selection: final(self).selection, ..*old(self) }),
    {
        self.selection.clear();
    }

    /// Anything selected?
    pub fn has_selection(&self) -> (r: bool)
        ensures
            r == self.selection.lead_cell.is_some(),
    {
        self.selection.has_selection()
    }

    /// The selected cell.
    pub fn selected(&self) -> (r: Option<(usize, usize)>)
        ensures
            r == self.selection.lead_cell,
    {
        self.selection.selected()
    }

    /// Select a cell. Reports whether the selection changed.
    pub fn select_cell(&mut self, select: Option<(usize, usize)>) -> (r: bool)
        ensures
            final(self).selection.lead_cell == select,
            *final(self) == (TableState { selection: final(self).selection, ..*old(self) }),
            r == (old(self).selection.lead_cell != select),
    {
        self.selection.select_cell(select)
    }

    /// Select a row, clamped to the rows; the column stays.
    pub fn select_row(&mut self, row: Option<usize>) -> (r: bool)
        ensures
            final(self).selection.lead_cell == (match row {
                Some(v) => Some((
                    (match old(self).selection.lead_cell {
                        Some(c) => c.0,
                        None => 0usize,
                    }),
                    (if v as int <= old(self).rows - 1 {
                        v as int
                    } else if old(self).rows >= 1 {
                        old(self).rows - 1
                    } else {
                        0
                    }) as usize,
                )),
                None => None::<(usize, usize)>,
            }),
            *final(self) == (TableState { selection: final(self).selection, ..*old(self) }),
            r == (old(self).selection.lead_cell != final(self).selection.lead_cell),
    {
        match row {
            Some(v) => {
                let max = if self.rows >= 1 { self.rows - 1 } else { 0 };
                let clamped = if v <= max { v } else { max };
                self.selection.select_row(Some(clamped))
            },
            None => self.selection.select_row(None),
        }
    }

    /// Select a column, clamped to the columns; the row stays.
    pub fn select_column(&mut self, column: Option<usize>) -> (r: bool)
        ensures
            final(self).selection.lead_cell == (match column {
                Some(v) => Some((
                    (if v as int <= old(self).columns - 1 {
                        v as int
                    } else if old(self).columns >= 1 {
                        old(self).columns - 1
                    } else {
                        0
                    }) as usize,
                    (match old(self).selection.lead_cell {
                        Some(c) => c.1,
                        None => 0usize,
                    }),
                )),
                None => None::<(usize, usize)>,
            }),
            *final(self) == (TableState { selection: final(self).selection, ..*old(self) }),
            r == (old(self).selection.lead_cell != final(self).selection.lead_cell),
    {
        match column {
            Some(v) => {
                let max = if self.columns >= 1 { self.columns - 1 } else { 0 };
                let clamped = if v <= max { v } else { max };
                self.selection.select_column(Some(clamped))
            },
            None => self.selection.select_column(None),
        }
    }
}

} // verus!

verus! {

impl TableState<CellSelection> {
    /// Move the selection to the cell, clamped to columns and rows,
    /// and make it visible.
    pub fn move_to(&mut self, select: (usize, usize)) -> (r: bool)
        requires
            old(self).vscroll.offset + old(self).vscroll.page_len <= usize::MAX,
            old(self).hscroll.offset + old(self).hscroll.page_len <= usize::MAX,
            old(self).rows <= usize::MAX - 1,
            old(self).columns <= usize::MAX - 1,
        ensures
            final(self).selection.lead_cell == Some((
                (if select.0 as int <= old(self).columns - 1 {
                    select.0 as int
                } else if old(self).columns >= 1 {
                    old(self).columns - 1
                } else {
                    0
                }) as usize,
                (if select.1 as int <= old(self).rows - 1 {
                    select.1 as int
                } else if old(self).rows >= 1 {
                    old(self).rows - 1
                } else {
                    0
                }) as usize,
            )),
            final(self).rows == old(self).rows,
            final(self).columns == old(self).columns,
    {
        let rmax = if self.rows >= 1 { self.rows - 1 } else { 0 };
        let cmax = if self.columns >= 1 { self.columns - 1 } else { 0 };
        let r = self.selection.move_to(select, (cmax, rmax));
        let s = self.scroll_to_selected();
        r || s
    }

    /// Move the selection to the row, clamped, and make it visible.
    pub fn move_to_row(&mut self, row: usize) -> (r: bool)
        requires
            old(self).vscroll.offset + old(self).vscroll.page_len <= usize::MAX,
            old(self).hscroll.offset + old(self).hscroll.page_len <= usize::MAX,
            old(self).rows <= usize::MAX - 1,
        ensures
            final(self).selection.lead_cell is Some,
            final(self).rows == old(self).rows,
            final(self).columns == old(self).columns,
    {
        let rmax = if self.rows >= 1 { self.rows - 1 } else { 0 };
        let r = self.selection.move_to_row(row, rmax);
        let s = self.scroll_to_selected();
        r || s
    }

    /// Move the selection to the column, clamped, and make it
    /// visible.
    pub fn move_to_col(&mut self, col: usize) -> (r: bool)
        requires
            old(self).vscroll.offset + old(self).vscroll.page_len <= usize::MAX,
            old(self).hscroll.offset + old(self).hscroll.page_len <= usize::MAX,
            old(self).columns <= usize::MAX - 1,
        ensures
            final(self).selection.lead_cell is Some,
            final(self).rows == old(self).rows,
            final(self).columns == old(self).columns,
    {
        let cmax = if self.columns >= 1 { self.columns - 1 } else { 0 };
        let r = self.selection.move_to_col(col, cmax);
        let s = self.scroll_to_selected();
        r || s
    }

    /// Move the selection up `n` rows and make it visible.
    pub fn move_up(&mut self, n: usize) -> (r: bool)
        requires
            old(self).vscroll.offset + old(self).vscroll.page_len <= usize::MAX,
            old(self).hscroll.offset + old(self).hscroll.page_len <= usize::MAX,
            old(self).rows <= usize::MAX - 1,
        ensures
            final(self).selection.lead_cell is Some,
            final(self).rows == old(self).rows,
            final(self).columns == old(self).columns,
    {
        let rmax = if self.rows >= 1 { self.rows - 1 } else { 0 };
        let r = self.selection.move_up(n, rmax);
        let s = self.scroll_to_selected();
        r || s
    }

    /// Move the selection down `n` rows and make it visible.
    pub fn move_down(&mut self, n: usize) -> (r: bool)
        requires
            old(self).vscroll.offset + old(self).vscroll.page_len <= usize::MAX,
            old(self).hscroll.offset + old(self).hscroll.page_len <= usize::MAX,
            old(self).rows <= usize::MAX - 1,
        ensures
            final(self).selection.lead_cell is Some,
            final(self).rows == old(self).rows,
            final(self).columns == old(self).columns,
    {
        let rmax = if self.rows >= 1 { self.rows - 1 } else { 0 };
        let r = self.selection.move_down(n, rmax);
        let s = self.scroll_to_selected();
        r || s
    }

    /// Move the selection left `n` columns and make it visible.
    pub fn move_left(&mut self, n: usize) -> (r: bool)
        requires
            old(self).vscroll.offset + old(self).vscroll.page_len <= usize::MAX,
            old(self).hscroll.offset + old(self).hscroll.page_len <= usize::MAX,
            old(self).columns <= usize::MAX - 1,
        ensures
            final(self).selection.lead_cell is Some,
            final(self).rows == old(self).rows,
            final(self).columns == old(self).columns,
    {
        let cmax = if self.columns >= 1 { self.columns - 1 } else { 0 };
        let r = self.selection.move_left(n, cmax);
        let s = self.scroll_to_selected();
        r || s
    }

    /// Move the selection right `n` columns and make it visible.
    pub fn move_right(&mut self, n: usize) -> (r: bool)
        requires
            old(self).vscroll.offset + old(self).vscroll.page_len <= usize::MAX,
            old(self).hscroll.offset + old(self).hscroll.page_len <= usize::MAX,
            old(self).columns <= usize::MAX - 1,
        ensures
            final(self).selection.lead_cell is Some,
            final(self).rows == old(self).rows,
            final(self).columns == old(self).columns,
    {
        let cmax = if self.columns >= 1 { self.columns - 1 } else { 0 };
        let r = self.selection.move_right(n, cmax);
        let s = self.scroll_to_selected();
        r || s
    }
}

} // verus!
