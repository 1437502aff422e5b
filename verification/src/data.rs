use crate::layout::LayoutConstraint;
use crate::layout::Region;
use crate::surface::buffer_set_stringn;
use crate::textdata::Row;
use crate::textdata::TextTableData;
use vstd::prelude::*;

verus! {

/// What the renderer tells a data source about the cell it asks for.
#[derive(Clone, Copy, Debug)]
pub struct TableContext {
    /// The table has input focus.
    pub focus: bool,
    /// The cell being rendered is the selected cell.
    pub selected_cell: bool,
    /// The cell's row is selected.
    pub selected_row: bool,
    /// The cell's column is selected.
    pub selected_column: bool,
    /// Base style of the table.
    pub style: ratatui::style::Style,
    /// Style of the row, if any.
    pub row_style: Option<ratatui::style::Style>,
    /// Selection style already applied to the cell, if any.
    pub select_style: Option<ratatui::style::Style>,
    /// The spacer region following the cell.
    pub space_area: Region,
}

/// A random-access facade over table data: the renderer asks for any
/// row by index.
pub trait TableData {
    /// How many rows the source holds.
    spec fn spec_rows(&self) -> int;

    /// The height of each row.
    spec fn spec_height(&self, row: int) -> u16;

    /// The column constraints the source asks for.
    spec fn spec_widths(&self) -> Seq<LayoutConstraint>;

    /// The header row the source brings, if any.
    spec fn spec_header(&self) -> Option<Row>;

    /// The footer row the source brings, if any.
    spec fn spec_footer(&self) -> Option<Row>;

    /// Number of rows.
    fn rows(&self) -> (r: usize)
        ensures
            r as int == self.spec_rows(),
    ;

    /// Header row, if any.
    fn header(&self) -> (r: Option<Row>)
        ensures
            r == self.spec_header(),
    ;

    /// Footer row, if any.
    fn footer(&self) -> (r: Option<Row>)
        ensures
            r == self.spec_footer(),
    ;

    /// Height of the row.
    fn row_height(&self, row: usize) -> (h: u16)
        requires
            (row as int) < self.spec_rows(),
        ensures
            h == self.spec_height(row as int),
    ;

    /// Style of the row, if any.
    fn row_style(&self, row: usize) -> (s: Option<ratatui::style::Style>)
        requires
            (row as int) < self.spec_rows(),
    ;

    /// Column constraints.
    fn widths(&self) -> (r: Vec<LayoutConstraint>)
        ensures
            r@ == self.spec_widths(),
    ;

    /// Draw one cell into its region of the row buffer.
    fn render_cell(
        &self,
        ctx: &TableContext,
        column: usize,
        row: usize,
        area: Region,
        buf: &mut ratatui::buffer::Buffer,
    )
        requires
            (row as int) < self.spec_rows(),
    ;
}

/// A forward-only cursor over table data.
///
/// The cursor starts before the first row; `nth(n)` skips `n` rows
/// and lands on the next one, reporting whether it landed on a valid
/// row. The model behind the contract: `spec_len` is the number of
/// rows the source really yields, `spec_claim` the count it reports
/// up front (`None` when it cannot say), `spec_pos` the current
/// cursor position with -1 for "before the first row", and
/// `spec_height` the height of each row.
pub trait TableDataIter {
    /// How many rows the source really yields.
    spec fn spec_len(&self) -> int;

    /// The row count the source reports, if it can.
    spec fn spec_claim(&self) -> Option<usize>;

    /// Cursor position; -1 before the first row.
    spec fn spec_pos(&self) -> int;

    /// The height of each row.
    spec fn spec_height(&self, row: int) -> u16;

    /// The column constraints the source asks for.
    spec fn spec_widths(&self) -> Seq<LayoutConstraint>;

    /// The header row the source brings, if any.
    spec fn spec_header(&self) -> Option<Row>;

    /// The footer row the source brings, if any.
    spec fn spec_footer(&self) -> Option<Row>;

    /// Reported number of rows, if cheaply available.
    fn rows(&self) -> (r: Option<usize>)
        ensures
            r == self.spec_claim(),
    ;

    /// Skip `n` rows and land on the one after, reporting whether
    /// that is a valid row. The cursor advances even past the end.
    fn nth(&mut self, n: usize) -> (r: bool)
        requires
            old(self).spec_pos() + n + 1 <= usize::MAX,
        ensures
            final(self).spec_pos() == old(self).spec_pos() + n + 1,
            r == (final(self).spec_pos() < final(self).spec_len()),
            final(self).spec_len() == old(self).spec_len(),
            final(self).spec_claim() == old(self).spec_claim(),
            forall|i: int| final(self).spec_height(i) == old(self).spec_height(i),
    ;

    /// Height of the row under the cursor.
    fn row_height(&self) -> (h: u16)
        requires
            0 <= self.spec_pos() < self.spec_len(),
        ensures
            h == self.spec_height(self.spec_pos()),
    ;

    /// Style of the row under the cursor, if any.
    fn row_style(&self) -> (s: Option<ratatui::style::Style>)
        requires
            0 <= self.spec_pos() < self.spec_len(),
    ;

    /// Draw one cell of the row under the cursor.
    fn render_cell(
        &self,
        ctx: &TableContext,
        column: usize,
        area: Region,
        buf: &mut ratatui::buffer::Buffer,
    )
        requires
            0 <= self.spec_pos() < self.spec_len(),
    ;

    /// Header row, if any.
    fn header(&self) -> (r: Option<Row>)
        ensures
            r == self.spec_header(),
    ;

    /// Footer row, if any.
    fn footer(&self) -> (r: Option<Row>)
        ensures
            r == self.spec_footer(),
    ;

    /// Column constraints.
    fn widths(&self) -> (r: Vec<LayoutConstraint>)
        ensures
            r@ == self.spec_widths(),
    ;

    /// A fresh, independent cursor over the same data, if the source
    /// supports one.
    fn cloned(&self) -> (r: Option<Self>) where Self: Sized
        ensures
            (r matches Some(c) ==> c.spec_len() == self.spec_len() && c.spec_claim()
                == self.spec_claim() && c.spec_pos() == self.spec_pos() && (forall|i: int|
                c.spec_height(i) == self.spec_height(i))),
    ;
}

} // verus!

verus! {

/// The three shapes of table data behind one cursor protocol: nothing,
/// a materialized table, a random-access facade, or a forward cursor.
pub enum DataRepr<D, I> {
    /// No data.
    Empty,
    /// Pre-built rows.
    Text(TextTableData),
    /// A random-access facade.
    Data(D),
    /// A forward-only cursor.
    Iter(I),
}

impl<D: TableData, I: TableDataIter> DataRepr<D, I> {
    /// How many rows the data really yields.
    pub open spec fn spec_len(&self) -> int {
        match self {
            DataRepr::Empty => 0,
            DataRepr::Text(v) => v.rows@.len() as int,
            DataRepr::Data(v) => v.spec_rows(),
            DataRepr::Iter(v) => v.spec_len(),
        }
    }

    /// The row count the data reports up front.
    pub open spec fn spec_claim(&self) -> Option<usize> {
        match self {
            DataRepr::Empty => Some(0usize),
            DataRepr::Text(v) => Some(v.rows@.len() as usize),
            DataRepr::Data(v) => Some(v.spec_rows() as usize),
            DataRepr::Iter(v) => v.spec_claim(),
        }
    }

    /// Cursor position; every shape but a part-used forward cursor
    /// starts before the first row.
    pub open spec fn spec_pos(&self) -> int {
        match self {
            DataRepr::Iter(v) => v.spec_pos(),
            _ => -1,
        }
    }

    /// The height of each row.
    pub open spec fn spec_height(&self, row: int) -> u16 {
        match self {
            DataRepr::Empty => 1u16,
            DataRepr::Text(v) => v.rows@[row].height,
            DataRepr::Data(v) => v.spec_height(row),
            DataRepr::Iter(v) => v.spec_height(row),
        }
    }

    /// Turn the data into a cursor, consuming it.
    pub fn into_iter<'b>(self) -> (r: DataReprIter<'b, D, I>)
        ensures
            r.spec_len() == self.spec_len(),
            r.spec_claim() == self.spec_claim(),
            r.spec_pos() == self.spec_pos(),
            forall|i: int| r.spec_height(i) == self.spec_height(i),
    {
        match self {
            DataRepr::Empty => DataReprIter::Empty(None),
            DataRepr::Text(v) => DataReprIter::IterText(v, None),
            DataRepr::Data(v) => DataReprIter::IterData(v, None),
            DataRepr::Iter(v) => DataReprIter::IterIter(v),
        }
    }

    /// A cursor over the data, leaving it in place. A forward cursor
    /// that cannot be duplicated degrades to a single diagnostic row
    /// instead of a cursor over the data.
    pub fn iter<'b>(&'b self) -> (r: DataReprIter<'b, D, I>)
        ensures
            (!(self is Iter) ==> r.spec_len() == self.spec_len() && r.spec_claim()
                == self.spec_claim() && r.spec_pos() == -1 && (forall|i: int|
                r.spec_height(i) == self.spec_height(i))),
            (self is Iter ==> (r.spec_len() == self.spec_len() && r.spec_claim()
                == self.spec_claim() && r.spec_pos() == self.spec_pos() && (forall|i: int|
                r.spec_height(i) == self.spec_height(i))) || (r.spec_len() == 1
                && r.spec_claim() == Some(1usize) && r.spec_pos() == -1 && (forall|i: int|
                r.spec_height(i) == 1u16))),
    {
        match self {
            DataRepr::Empty => DataReprIter::Empty(None),
            DataRepr::Text(v) => DataReprIter::IterTextRef(v, None),
            DataRepr::Data(v) => DataReprIter::IterDataRef(v, None),
            DataRepr::Iter(v) => {
                // A forward cursor may not support duplication.
                match v.cloned() {
                    Some(c) => DataReprIter::IterIter(c),
                    None => DataReprIter::Invalid(None),
                }
            },
        }
    }
}

impl<D: TableData, I: TableDataIter> Default for DataRepr<D, I> {
    fn default() -> (r: Self)
        ensures
            r is Empty,
    {
        DataRepr::Empty
    }
}

/// One forward cursor over any shape of table data. The extra
/// `Invalid` shape stands in for a forward cursor that could not be
/// duplicated: it yields a single diagnostic row.
pub enum DataReprIter<'b, D, I> {
    /// No data: zero rows.
    Empty(Option<usize>),
    /// One diagnostic row.
    Invalid(Option<usize>),
    /// Owned pre-built rows.
    IterText(TextTableData, Option<usize>),
    /// Borrowed pre-built rows.
    IterTextRef(&'b TextTableData, Option<usize>),
    /// An owned random-access facade.
    IterData(D, Option<usize>),
    /// A borrowed random-access facade.
    IterDataRef(&'b D, Option<usize>),
    /// A forward cursor of the caller's own.
    IterIter(I),
}

/// Cursor position held as `Option<usize>`, as an integer.
pub open spec fn spec_opt_pos(p: Option<usize>) -> int {
    match p {
        Some(w) => w as int,
        None => -1,
    }
}

/// Advance an `Option<usize>` cursor past `n` skipped rows, reporting
/// whether it landed on a row of a collection with `rows` rows.
fn iter_incr(row: &mut Option<usize>, n: usize, rows: usize) -> (r: bool)
    requires
        spec_opt_pos(*old(row)) + n + 1 <= usize::MAX,
    ensures
        spec_opt_pos(*final(row)) == spec_opt_pos(*old(row)) + n + 1,
        r == (spec_opt_pos(*final(row)) < rows),
{
    match *row {
        None => {
            *row = Some(n);
            n < rows
        },
        Some(w) => {
            *row = Some(w + n + 1);
            w + n + 1 < rows
        },
    }
}

impl<'b, D: TableData, I: TableDataIter> TableDataIter for DataReprIter<'b, D, I> {
    open spec fn spec_len(&self) -> int {
        match self {
            DataReprIter::Empty(_) => 0,
            DataReprIter::Invalid(_) => 1,
            DataReprIter::IterText(v, _) => v.rows@.len() as int,
            DataReprIter::IterTextRef(v, _) => v.rows@.len() as int,
            DataReprIter::IterData(v, _) => v.spec_rows(),
            DataReprIter::IterDataRef(v, _) => v.spec_rows(),
            DataReprIter::IterIter(v) => v.spec_len(),
        }
    }

    open spec fn spec_claim(&self) -> Option<usize> {
        match self {
            DataReprIter::Empty(_) => Some(0usize),
            DataReprIter::Invalid(_) => Some(1usize),
            DataReprIter::IterText(v, _) => Some(v.rows@.len() as usize),
            DataReprIter::IterTextRef(v, _) => Some(v.rows@.len() as usize),
            DataReprIter::IterData(v, _) => Some(v.spec_rows() as usize),
            DataReprIter::IterDataRef(v, _) => Some(v.spec_rows() as usize),
            DataReprIter::IterIter(v) => v.spec_claim(),
        }
    }

    open spec fn spec_pos(&self) -> int {
        match self {
            DataReprIter::Empty(p) => spec_opt_pos(*p),
            DataReprIter::Invalid(p) => spec_opt_pos(*p),
            DataReprIter::IterText(_, p) => spec_opt_pos(*p),
            DataReprIter::IterTextRef(_, p) => spec_opt_pos(*p),
            DataReprIter::IterData(_, p) => spec_opt_pos(*p),
            DataReprIter::IterDataRef(_, p) => spec_opt_pos(*p),
            DataReprIter::IterIter(v) => v.spec_pos(),
        }
    }

    open spec fn spec_height(&self, row: int) -> u16 {
        match self {
            DataReprIter::Empty(_) => 1u16,
            DataReprIter::Invalid(_) => 1u16,
            DataReprIter::IterText(v, _) => v.rows@[row].height,
            DataReprIter::IterTextRef(v, _) => v.rows@[row].height,
            DataReprIter::IterData(v, _) => v.spec_height(row),
            DataReprIter::IterDataRef(v, _) => v.spec_height(row),
            DataReprIter::IterIter(v) => v.spec_height(row),
        }
    }

    open spec fn spec_widths(&self) -> Seq<LayoutConstraint> {
        match self {
            DataReprIter::IterText(v, _) => v.spec_widths(),
            DataReprIter::IterTextRef(v, _) => v.spec_widths(),
            DataReprIter::IterData(v, _) => v.spec_widths(),
            DataReprIter::IterDataRef(v, _) => v.spec_widths(),
            DataReprIter::IterIter(v) => v.spec_widths(),
            _ => Seq::empty(),
        }
    }

    open spec fn spec_header(&self) -> Option<Row> {
        match self {
            DataReprIter::IterText(v, _) => v.spec_header(),
            DataReprIter::IterTextRef(v, _) => v.spec_header(),
            DataReprIter::IterData(v, _) => v.spec_header(),
            DataReprIter::IterDataRef(v, _) => v.spec_header(),
            DataReprIter::IterIter(v) => v.spec_header(),
            _ => None,
        }
    }

    open spec fn spec_footer(&self) -> Option<Row> {
        match self {
            DataReprIter::IterText(v, _) => v.spec_footer(),
            DataReprIter::IterTextRef(v, _) => v.spec_footer(),
            DataReprIter::IterData(v, _) => v.spec_footer(),
            DataReprIter::IterDataRef(v, _) => v.spec_footer(),
            DataReprIter::IterIter(v) => v.spec_footer(),
            _ => None,
        }
    }

    fn rows(&self) -> Option<usize> {
        match self {
            DataReprIter::Empty(_) => Some(0),
            DataReprIter::Invalid(_) => Some(1),
            DataReprIter::IterText(v, _) => Some(v.rows.len()),
            DataReprIter::IterTextRef(v, _) => Some(v.rows.len()),
            DataReprIter::IterData(v, _) => Some(v.rows()),
            DataReprIter::IterDataRef(v, _) => Some(v.rows()),
            DataReprIter::IterIter(v) => v.rows(),
        }
    }

    fn nth(&mut self, n: usize) -> bool {
        match self {
            DataReprIter::Empty(row) => iter_incr(row, n, 0),
            DataReprIter::Invalid(row) => iter_incr(row, n, 1),
            DataReprIter::IterText(v, row) => {
                let rows = v.rows.len();
                iter_incr(row, n, rows)
            },
            DataReprIter::IterTextRef(v, row) => {
                let rows = v.rows.len();
                iter_incr(row, n, rows)
            },
            DataReprIter::IterData(v, row) => {
                let rows = v.rows();
                iter_incr(row, n, rows)
            },
            DataReprIter::IterDataRef(v, row) => {
                let rows = v.rows();
                iter_incr(row, n, rows)
            },
            DataReprIter::IterIter(v) => v.nth(n),
        }
    }

    fn row_height(&self) -> u16 {
        match self {
            DataReprIter::Empty(_) => 1,
            DataReprIter::Invalid(_) => 1,
            DataReprIter::IterText(v, p) => {
                match p {
                    Some(n) => v.rows[*n].height,
                    None => 1,
                }
            },
            DataReprIter::IterTextRef(v, p) => {
                match p {
                    Some(n) => v.rows[*n].height,
                    None => 1,
                }
            },
            DataReprIter::IterData(v, p) => {
                match p {
                    Some(n) => v.row_height(*n),
                    None => 1,
                }
            },
            DataReprIter::IterDataRef(v, p) => {
                match p {
                    Some(n) => v.row_height(*n),
                    None => 1,
                }
            },
            DataReprIter::IterIter(v) => v.row_height(),
        }
    }

    fn row_style(&self) -> Option<ratatui::style::Style> {
        match self {
            DataReprIter::Empty(_) => None,
            DataReprIter::Invalid(_) => None,
            DataReprIter::IterText(v, p) => {
                match p {
                    Some(n) => v.row_style(*n),
                    None => None,
                }
            },
            DataReprIter::IterTextRef(v, p) => {
                match p {
                    Some(n) => v.row_style(*n),
                    None => None,
                }
            },
            DataReprIter::IterData(v, p) => {
                match p {
                    Some(n) => v.row_style(*n),
                    None => None,
                }
            },
            DataReprIter::IterDataRef(v, p) => {
                match p {
                    Some(n) => v.row_style(*n),
                    None => None,
                }
            },
            DataReprIter::IterIter(v) => v.row_style(),
        }
    }

    fn render_cell(
        &self,
        ctx: &TableContext,
        column: usize,
        area: Region,
        buf: &mut ratatui::buffer::Buffer,
    ) {
        match self {
            DataReprIter::Empty(_) => {},
            DataReprIter::Invalid(_) => {
                if column == 0 {
                    let msg: String =
                        "TableDataIter must implement a valid cloned() for this".to_string();
                    buffer_set_stringn(buf, area.x, area.y, &msg, area.width as usize, &ctx.style);
                }
            },
            DataReprIter::IterText(v, p) => {
                if let Some(n) = p {
                    v.render_cell(ctx, column, *n, area, buf);
                }
            },
            DataReprIter::IterTextRef(v, p) => {
                if let Some(n) = p {
                    v.render_cell(ctx, column, *n, area, buf);
                }
            },
            DataReprIter::IterData(v, p) => {
                if let Some(n) = p {
                    v.render_cell(ctx, column, *n, area, buf);
                }
            },
            DataReprIter::IterDataRef(v, p) => {
                if let Some(n) = p {
                    v.render_cell(ctx, column, *n, area, buf);
                }
            },
            DataReprIter::IterIter(v) => v.render_cell(ctx, column, area, buf),
        }
    }

    fn header(&self) -> Option<Row> {
        match self {
            DataReprIter::IterText(v, _) => v.header(),
            DataReprIter::IterTextRef(v, _) => v.header(),
            DataReprIter::IterData(v, _) => v.header(),
            DataReprIter::IterDataRef(v, _) => v.header(),
            DataReprIter::IterIter(v) => v.header(),
            _ => None,
        }
    }

    fn footer(&self) -> Option<Row> {
        match self {
            DataReprIter::IterText(v, _) => v.footer(),
            DataReprIter::IterTextRef(v, _) => v.footer(),
            DataReprIter::IterData(v, _) => v.footer(),
            DataReprIter::IterDataRef(v, _) => v.footer(),
            DataReprIter::IterIter(v) => v.footer(),
            _ => None,
        }
    }

    fn widths(&self) -> Vec<LayoutConstraint> {
        match self {
            DataReprIter::IterText(v, _) => v.widths(),
            DataReprIter::IterTextRef(v, _) => v.widths(),
            DataReprIter::IterData(v, _) => v.widths(),
            DataReprIter::IterDataRef(v, _) => v.widths(),
            DataReprIter::IterIter(v) => v.widths(),
            _ => Vec::new(),
        }
    }

    fn cloned(&self) -> Option<Self> {
        None
    }
}

} // verus!

verus! {

/// A synthetic forward cursor: `total` rows of one uniform height and
/// no content, reporting whatever count the caller chooses. The
/// smallest source that can drive the paging machinery, and a
/// stand-in wherever only geometry matters.
#[derive(Clone, Copy, Debug)]
pub struct CountedRows {
    /// How many rows the cursor yields.
    pub total: usize,
    /// The height of every row.
    pub height: u16,
    /// The count reported up front; `None` leaves it to the render
    /// pass to probe or scan.
    pub reported: Option<usize>,
    /// The cursor position.
    pub pos: Option<usize>,
}

impl CountedRows {
    pub fn new(total: usize, height: u16, reported: Option<usize>) -> (r: CountedRows)
        ensures
            r.spec_len() == total,
            r.spec_claim() == reported,
            r.spec_pos() == -1,
            forall|i: int| r.spec_height(i) == height,
    {
        CountedRows { total, height, reported, pos: None }
    }
}

impl TableDataIter for CountedRows {
    open spec fn spec_len(&self) -> int {
        self.total as int
    }

    open spec fn spec_claim(&self) -> Option<usize> {
        self.reported
    }

    open spec fn spec_pos(&self) -> int {
        spec_opt_pos(self.pos)
    }

    open spec fn spec_height(&self, row: int) -> u16 {
        self.height
    }

    open spec fn spec_widths(&self) -> Seq<LayoutConstraint> {
        seq![LayoutConstraint::Fill(1u16)]
    }

    open spec fn spec_header(&self) -> Option<Row> {
        None
    }

    open spec fn spec_footer(&self) -> Option<Row> {
        None
    }

    fn rows(&self) -> Option<usize> {
        self.reported
    }

    fn nth(&mut self, n: usize) -> bool {
        let total = self.total;
        iter_incr(&mut self.pos, n, total)
    }

    fn row_height(&self) -> u16 {
        self.height
    }

    fn row_style(&self) -> Option<ratatui::style::Style> {
        None
    }

    fn render_cell(
        &self,
        ctx: &TableContext,
        column: usize,
        area: Region,
        buf: &mut ratatui::buffer::Buffer,
    ) {
    }

    fn header(&self) -> Option<Row> {
        None
    }

    fn footer(&self) -> Option<Row> {
        None
    }

    fn widths(&self) -> Vec<LayoutConstraint> {
        let mut w: Vec<LayoutConstraint> = Vec::new();
        w.push(LayoutConstraint::Fill(1));
        w
    }

    fn cloned(&self) -> Option<Self> {
        Some(CountedRows { total: self.total, height: self.height, reported: self.reported, pos: self.pos })
    }
}

} // verus!
