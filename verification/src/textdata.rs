use crate::data::TableContext;
use crate::data::TableData;
use crate::layout::LayoutConstraint;
use crate::layout::Region;
use crate::surface::buffer_set_stringn;
use vstd::prelude::*;

verus! {

/// One preformatted cell: plain text with an optional style.
#[derive(Clone, Debug)]
pub struct TextCell {
    pub content: String,
    pub style: Option<ratatui::style::Style>,
}

impl TextCell {
    pub fn new(content: String) -> (r: TextCell)
        ensures
            r.content == content,
            r.style == None::<ratatui::style::Style>,
    {
        TextCell { content, style: None }
    }
}

/// One preformatted row: its cells, its height and an optional style.
#[derive(Clone, Debug)]
pub struct Row {
    pub cells: Vec<TextCell>,
    pub height: u16,
    pub style: Option<ratatui::style::Style>,
}

impl Row {
    pub fn new(cells: Vec<TextCell>) -> (r: Row)
        ensures
            r.cells == cells,
            r.height == 1u16,
            r.style == None::<ratatui::style::Style>,
    {
        Row { cells, height: 1, style: None }
    }

    /// The same row with another height.
    pub fn with_height(self, height: u16) -> (r: Row)
        ensures
            r.cells == self.cells,
            r.height == height,
            r.style == self.style,
    {
        Row { height, ..self }
    }
}

/// A materialized table: every row pre-built.
#[derive(Clone, Debug)]
pub struct TextTableData {
    pub rows: Vec<Row>,
}

impl TextTableData {
    pub fn new(rows: Vec<Row>) -> (r: TextTableData)
        ensures
            r.rows == rows,
    {
        TextTableData { rows }
    }
}

impl TableData for TextTableData {
    open spec fn spec_rows(&self) -> int {
        self.rows@.len() as int
    }

    open spec fn spec_height(&self, row: int) -> u16 {
        self.rows@[row].height
    }

    open spec fn spec_widths(&self) -> Seq<LayoutConstraint> {
        Seq::empty()
    }

    open spec fn spec_header(&self) -> Option<Row> {
        None
    }

    open spec fn spec_footer(&self) -> Option<Row> {
        None
    }

    fn rows(&self) -> usize {
        self.rows.len()
    }

    fn header(&self) -> Option<Row> {
        None
    }

    fn footer(&self) -> Option<Row> {
        None
    }

    fn row_height(&self, row: usize) -> u16 {
        self.rows[row].height
    }

    fn row_style(&self, row: usize) -> Option<ratatui::style::Style> {
        self.rows[row].style
    }

    fn widths(&self) -> Vec<LayoutConstraint> {
        Vec::new()
    }

    fn render_cell(
        &self,
        ctx: &TableContext,
        column: usize,
        row: usize,
        area: Region,
        buf: &mut ratatui::buffer::Buffer,
    ) {
        let r = &self.rows[row];
        if column < r.cells.len() {
            let cell = &r.cells[column];
            let style = match cell.style {
                Some(s) => s,
                None => ctx.style,
            };
            buffer_set_stringn(buf, area.x, area.y, &cell.content, area.width as usize, &style);
        }
    }
}

} // verus!
