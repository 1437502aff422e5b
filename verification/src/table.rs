use crate::data::DataRepr;
use crate::data::TableData;
use crate::data::TableDataIter;
use crate::layout::solve_columns;
use crate::layout::solve_vertical;
use crate::layout::LayoutConstraint;
use crate::layout::PackPolicy;
use crate::layout::Region;
use crate::surface::style_default;
use crate::surface::style_patch;
use crate::textdata::Row;
use crate::textdata::TextTableData;
use vstd::prelude::*;

verus! {

/// All styles of a table as one bundle.
#[derive(Clone, Copy, Debug)]
pub struct TableStyle {
    pub style: ratatui::style::Style,
    pub header_style: Option<ratatui::style::Style>,
    pub footer_style: Option<ratatui::style::Style>,
    pub select_row_style: Option<ratatui::style::Style>,
    pub select_column_style: Option<ratatui::style::Style>,
    pub select_cell_style: Option<ratatui::style::Style>,
    pub select_header_style: Option<ratatui::style::Style>,
    pub select_footer_style: Option<ratatui::style::Style>,
    pub show_row_focus: bool,
    pub show_column_focus: bool,
    pub show_cell_focus: bool,
    pub show_header_focus: bool,
    pub show_footer_focus: bool,
    pub focus_style: Option<ratatui::style::Style>,
}

impl Default for TableStyle {
    fn default() -> (r: Self)
        ensures
            r.header_style == None::<ratatui::style::Style>,
            r.footer_style == None::<ratatui::style::Style>,
            r.select_row_style == None::<ratatui::style::Style>,
            r.select_column_style == None::<ratatui::style::Style>,
            r.select_cell_style == None::<ratatui::style::Style>,
            r.select_header_style == None::<ratatui::style::Style>,
            r.select_footer_style == None::<ratatui::style::Style>,
            r.show_row_focus == false,
            r.show_column_focus == false,
            r.show_cell_focus == false,
            r.show_header_focus == false,
            r.show_footer_focus == false,
            r.focus_style == None::<ratatui::style::Style>,
    {
        TableStyle {
            style: style_default(),
            header_style: None,
            footer_style: None,
            select_row_style: None,
            select_column_style: None,
            select_cell_style: None,
            select_header_style: None,
            select_footer_style: None,
            show_row_focus: false,
            show_column_focus: false,
            show_cell_focus: false,
            show_header_focus: false,
            show_footer_focus: false,
            focus_style: None,
        }
    }
}

/// The table widget: the data, the column layout and the styling for
/// one render pass.
pub struct Table<D, I> {
    pub data: DataRepr<D, I>,
    /// With an uncounted forward source, probe past the page instead
    /// of scanning to the end.
    pub no_row_count: bool,
    pub header: Option<Row>,
    pub footer: Option<Row>,
    pub widths: Vec<LayoutConstraint>,
    pub flex: PackPolicy,
    pub column_spacing: u16,
    pub layout_width: Option<u16>,
    pub auto_layout_width: bool,
    pub style: ratatui::style::Style,
    pub header_style: Option<ratatui::style::Style>,
    pub footer_style: Option<ratatui::style::Style>,
    pub select_row_style: Option<ratatui::style::Style>,
    pub show_row_focus: bool,
    pub select_column_style: Option<ratatui::style::Style>,
    pub show_column_focus: bool,
    pub select_cell_style: Option<ratatui::style::Style>,
    pub show_cell_focus: bool,
    pub select_header_style: Option<ratatui::style::Style>,
    pub show_header_focus: bool,
    pub select_footer_style: Option<ratatui::style::Style>,
    pub show_footer_focus: bool,
    pub focus_style: Option<ratatui::style::Style>,
    /// Render count diagnostics into the table instead of absorbing
    /// them silently.
    pub debug: bool,
}

impl<D: TableData, I: TableDataIter> Table<D, I> {
    /// New, empty table.
    pub fn new() -> (r: Self)
        ensures
            r.data is Empty,
            r.no_row_count == false,
            r.widths@.len() == 0,
            r.flex == PackPolicy::Legacy,
            r.column_spacing == 0,
            r.layout_width == None::<u16>,
            r.auto_layout_width == false,
            r.debug == false,
    {
        Table {
            data: DataRepr::Empty,
            no_row_count: false,
            header: None,
            footer: None,
            widths: Vec::new(),
            flex: PackPolicy::Legacy,
            column_spacing: 0,
            layout_width: None,
            auto_layout_width: false,
            style: style_default(),
            header_style: None,
            footer_style: None,
            select_row_style: None,
            show_row_focus: false,
            select_column_style: None,
            show_column_focus: false,
            select_cell_style: None,
            show_cell_focus: false,
            select_header_style: None,
            show_header_focus: false,
            select_footer_style: None,
            show_footer_focus: false,
            focus_style: None,
            debug: false,
        }
    }

    /// New table over preformatted rows with the given column
    /// constraints.
    pub fn new_ratatui(rows: Vec<Row>, widths: Vec<LayoutConstraint>) -> (r: Self)
        ensures
            (r.data matches DataRepr::Text(t) && t.rows == rows),
            r.widths == widths,
    {
        let mut t = Table::new();
        t.data = DataRepr::Text(TextTableData { rows });
        t.widths = widths;
        t
    }

    /// Set preformatted row data.
    pub fn rows(self, rows: Vec<Row>) -> (r: Self)
        ensures
            (r.data matches DataRepr::Text(t) && t.rows == rows),
            r == (Table { data: r.data, ..self }),
    {
        Table { data: DataRepr::Text(TextTableData { rows }), ..self }
    }

    /// Set a random-access facade as the data; its widths, header and
    /// footer are taken over.
    pub fn data(self, data: D) -> (r: Self)
        ensures
            (r.data matches DataRepr::Data(d) && d == data),
            r.widths@ == data.spec_widths(),
            r.header == data.spec_header(),
            r.footer == data.spec_footer(),
            r == (Table {
                data: r.data,
                widths: r.widths,
                header: r.header,
                footer: r.footer,
                ..self
            }),
    {
        let widths = data.widths();
        let header = data.header();
        let footer = data.footer();
        Table { data: DataRepr::Data(data), widths, header, footer, ..self }
    }

    /// Set a forward cursor as the data; its widths, header and
    /// footer are taken over.
    pub fn iter(self, data: I) -> (r: Self)
        ensures
            (r.data matches DataRepr::Iter(d) && d == data),
            r.widths@ == data.spec_widths(),
            r.header == data.spec_header(),
            r.footer == data.spec_footer(),
            r == (Table {
                data: r.data,
                widths: r.widths,
                header: r.header,
                footer: r.footer,
                ..self
            }),
    {
        let widths = data.widths();
        let header = data.header();
        let footer = data.footer();
        Table { data: DataRepr::Iter(data), widths, header, footer, ..self }
    }

    /// With an uncounted forward source, skip the full scan and keep
    /// a "more data" sentinel count instead. Paging forward still
    /// works; jumping to the end does not, until the source is once
    /// exhausted.
    pub fn no_row_count(self, no_row_count: bool) -> (r: Self)
        ensures
            r == (Table { no_row_count, ..self }),
    {
        Table { no_row_count, ..self }
    }

    /// Set the header row.
    pub fn header(self, header: Row) -> (r: Self)
        ensures
            (r.header matches Some(h) && h == header),
            r == (Table { header: r.header, ..self }),
    {
        Table { header: Some(header), ..self }
    }

    /// Set the footer row.
    pub fn footer(self, footer: Row) -> (r: Self)
        ensures
            (r.footer matches Some(f) && f == footer),
            r == (Table { footer: r.footer, ..self }),
    {
        Table { footer: Some(footer), ..self }
    }

    /// Set the column constraints.
    pub fn widths(self, widths: Vec<LayoutConstraint>) -> (r: Self)
        ensures
            r == (Table { widths, ..self }),
    {
        Table { widths, ..self }
    }

    /// Set the packing policy for the column layout.
    pub fn flex(self, flex: PackPolicy) -> (r: Self)
        ensures
            r == (Table { flex, ..self }),
    {
        Table { flex, ..self }
    }

    /// Set the spacing between columns.
    pub fn column_spacing(self, spacing: u16) -> (r: Self)
        ensures
            r == (Table { column_spacing: spacing, ..self }),
    {
        Table { column_spacing: spacing, ..self }
    }

    /// Lay the columns out for this width, even where that leaves
    /// some of them off screen.
    pub fn layout_width(self, width: u16) -> (r: Self)
        ensures
            (r.layout_width matches Some(w) && w == width),
            r == (Table { layout_width: r.layout_width, ..self }),
    {
        Table { layout_width: Some(width), ..self }
    }

    /// Compute the layout width from the column constraints; a fixed
    /// `layout_width` wins over this. Only `Length`, `Min` and `Max`
    /// constraints can be summed this way.
    pub fn auto_layout_width(self, auto: bool) -> (r: Self)
        ensures
            r == (Table { auto_layout_width: auto, ..self }),
    {
        Table { auto_layout_width: auto, ..self }
    }

    /// Set all styles at once.
    pub fn styles(self, styles: TableStyle) -> (r: Self)
        ensures
            r.style == styles.style,
            r.header_style == styles.header_style,
            r.footer_style == styles.footer_style,
            r.select_row_style == styles.select_row_style,
            r.show_row_focus == styles.show_row_focus,
            r.select_column_style == styles.select_column_style,
            r.show_column_focus == styles.show_column_focus,
            r.select_cell_style == styles.select_cell_style,
            r.show_cell_focus == styles.show_cell_focus,
            r.select_header_style == styles.select_header_style,
            r.show_header_focus == styles.show_header_focus,
            r.select_footer_style == styles.select_footer_style,
            r.show_footer_focus == styles.show_footer_focus,
            r.focus_style == styles.focus_style,
    {
        Table {
            style: styles.style,
            header_style: styles.header_style,
            footer_style: styles.footer_style,
            select_row_style: styles.select_row_style,
            show_row_focus: styles.show_row_focus,
            select_column_style: styles.select_column_style,
            show_column_focus: styles.show_column_focus,
            select_cell_style: styles.select_cell_style,
            show_cell_focus: styles.show_cell_focus,
            select_header_style: styles.select_header_style,
            show_header_focus: styles.show_header_focus,
            select_footer_style: styles.select_footer_style,
            show_footer_focus: styles.show_footer_focus,
            focus_style: styles.focus_style,
            ..self
        }
    }

    /// Set the base style.
    pub fn style(self, style: ratatui::style::Style) -> (r: Self)
        ensures
            r == (Table { style, ..self }),
    {
        Table { style, ..self }
    }

    /// Set the header style.
    pub fn header_style(self, style: Option<ratatui::style::Style>) -> (r: Self)
        ensures
            r == (Table { header_style: style, ..self }),
    {
        Table { header_style: style, ..self }
    }

    /// Set the footer style.
    pub fn footer_style(self, style: Option<ratatui::style::Style>) -> (r: Self)
        ensures
            r == (Table { footer_style: style, ..self }),
    {
        Table { footer_style: style, ..self }
    }

    /// Style for the selected row.
    pub fn select_row_style(self, select_style: Option<ratatui::style::Style>) -> (r: Self)
        ensures
            r == (Table { select_row_style: select_style, ..self }),
    {
        Table { select_row_style: select_style, ..self }
    }

    /// Add the focus style to a selected row when focused.
    pub fn show_row_focus(self, show: bool) -> (r: Self)
        ensures
            r == (Table { show_row_focus: show, ..self }),
    {
        Table { show_row_focus: show, ..self }
    }

    /// Style for a selected column.
    pub fn select_column_style(self, select_style: Option<ratatui::style::Style>) -> (r: Self)
        ensures
            r == (Table { select_column_style: select_style, ..self }),
    {
        Table { select_column_style: select_style, ..self }
    }

    /// Add the focus style to a selected column when focused.
    pub fn show_column_focus(self, show: bool) -> (r: Self)
        ensures
            r == (Table { show_column_focus: show, ..self }),
    {
        Table { show_column_focus: show, ..self }
    }

    /// Style for the selected cell.
    pub fn select_cell_style(self, select_style: Option<ratatui::style::Style>) -> (r: Self)
        ensures
            r == (Table { select_cell_style: select_style, ..self }),
    {
        Table { select_cell_style: select_style, ..self }
    }

    /// Add the focus style to the selected cell when focused.
    pub fn show_cell_focus(self, show: bool) -> (r: Self)
        ensures
            r == (Table { show_cell_focus: show, ..self }),
    {
        Table { show_cell_focus: show, ..self }
    }

    /// Style for the header cell of a selected column.
    pub fn select_header_style(self, select_style: Option<ratatui::style::Style>) -> (r: Self)
        ensures
            r == (Table { select_header_style: select_style, ..self }),
    {
        Table { select_header_style: select_style, ..self }
    }

    /// Add the focus style to a selected header cell when focused.
    pub fn show_header_focus(self, show: bool) -> (r: Self)
        ensures
            r == (Table { show_header_focus: show, ..self }),
    {
        Table { show_header_focus: show, ..self }
    }

    /// Style for the footer cell of a selected column.
    pub fn select_footer_style(self, select_style: Option<ratatui::style::Style>) -> (r: Self)
        ensures
            r == (Table { select_footer_style: select_style, ..self }),
    {
        Table { select_footer_style: select_style, ..self }
    }

    /// Add the focus style to a selected footer cell when focused.
    pub fn show_footer_focus(self, show: bool) -> (r: Self)
        ensures
            r == (Table { show_footer_focus: show, ..self }),
    {
        Table { show_footer_focus: show, ..self }
    }

    /// Style patched onto the selection while the table has focus.
    pub fn focus_style(self, focus_style: Option<ratatui::style::Style>) -> (r: Self)
        ensures
            r == (Table { focus_style, ..self }),
    {
        Table { focus_style, ..self }
    }

    /// Render count diagnostics instead of absorbing them silently.
    pub fn debug(self, debug: bool) -> (r: Self)
        ensures
            r == (Table { debug, ..self }),
    {
        Table { debug, ..self }
    }
}

} // verus!

verus! {

/// The width a `Length`, `Min` or `Max` constraint asks for; the
/// other constraints have no width of their own.
pub open spec fn spec_fixed_width(c: LayoutConstraint) -> Option<u16> {
    match c {
        LayoutConstraint::Min(v) => Some(v),
        LayoutConstraint::Max(v) => Some(v),
        LayoutConstraint::Length(v) => Some(v),
        _ => None,
    }
}

/// Sum of the fixed constraint widths plus one spacing each.
pub open spec fn spec_auto_width(ws: Seq<LayoutConstraint>, spacing: int) -> int
    decreases ws.len(),
{
    if ws.len() == 0 {
        0
    } else {
        (match spec_fixed_width(ws.last()) {
            Some(v) => v + spacing,
            None => 0,
        }) + spec_auto_width(ws.drop_last(), spacing)
    }
}

/// Every constraint in the list is a fixed one.
pub open spec fn spec_all_fixed(ws: Seq<LayoutConstraint>) -> bool {
    forall|i: int| 0 <= i < ws.len() ==> spec_fixed_width(ws[i]) is Some
}

impl<D: TableData, I: TableDataIter> Table<D, I> {
    /// The width the table is laid out for: a forced width wins,
    /// else the sum of the constraints if asked for, else the width
    /// of the area.
    pub open spec fn spec_total_width(&self, area_width: int) -> int {
        match self.layout_width {
            Some(w) => w as int,
            None => if self.auto_layout_width {
                spec_auto_width(self.widths@, self.column_spacing as int)
            } else {
                area_width
            },
        }
    }

    /// The laid-out table width for rendering into `area_width`
    /// columns.
    pub fn total_width(&self, area_width: u16) -> (r: u16)
        requires
            self.layout_width is None && self.auto_layout_width ==> spec_all_fixed(self.widths@)
                && spec_auto_width(self.widths@, self.column_spacing as int) <= u16::MAX,
        ensures
            r == self.spec_total_width(area_width as int),
    {
        match self.layout_width {
            Some(w) => w,
            None => {
                if self.auto_layout_width {
                    let mut width: u16 = 0;
                    let mut i: usize = self.widths.len();
                    proof {
                        assert(self.widths@.subrange(0, self.widths@.len() as int)
                            =~= self.widths@);
                    }
                    while i > 0
                        invariant
                            0 <= i <= self.widths@.len(),
                            spec_all_fixed(self.widths@),
                            spec_auto_width(self.widths@, self.column_spacing as int)
                                <= u16::MAX,
                            width >= 0,
                            spec_auto_width(self.widths@, self.column_spacing as int) == width
                                + spec_auto_width(
                                self.widths@.subrange(0, i as int),
                                self.column_spacing as int,
                            ),
                        decreases i,
                    {
                        i -= 1;
                        let ghost pre = self.widths@.subrange(0, i + 1);
                        proof {
                            assert(pre.drop_last() =~= self.widths@.subrange(0, i as int));
                            assert(pre.last() == self.widths@[i as int]);
                            lemma_auto_width_nonneg(
                                self.widths@.subrange(0, i as int),
                                self.column_spacing as int,
                            );
                        }
                        let add = match self.widths[i] {
                            LayoutConstraint::Min(v) => v,
                            LayoutConstraint::Max(v) => v,
                            LayoutConstraint::Length(v) => v,
                            _ => 0,
                        };
                        width = width + add + self.column_spacing;
                    }
                    proof {
                        assert(self.widths@.subrange(0, 0) =~= Seq::<LayoutConstraint>::empty());
                    }
                    width
                } else {
                    area_width
                }
            },
        }
    }

    /// Solve the column layout for the given width. Returns the
    /// laid-out total width, the column regions and the spacer
    /// regions.
    pub fn layout_columns(&self, width: u16) -> (r: (u16, Vec<Region>, Vec<Region>))
        requires
            self.layout_width is None && self.auto_layout_width ==> spec_all_fixed(self.widths@)
                && spec_auto_width(self.widths@, self.column_spacing as int) <= u16::MAX,
        ensures
            r.0 == self.spec_total_width(width as int),
            r.1@.len() == self.widths@.len(),
            r.2@.len() == self.widths@.len() + 1,
    {
        let width = self.total_width(width);
        let (columns, spacers) = solve_columns(&self.widths, self.flex, self.column_spacing, width);
        (width, columns, spacers)
    }

    /// Split the area into header, body and footer.
    pub fn layout_areas(&self, area: Region) -> (r: Vec<Region>)
        ensures
            r@.len() == 3,
    {
        let header_height = match &self.header {
            Some(h) => h.height,
            None => 0,
        };
        let footer_height = match &self.footer {
            Some(f) => f.height,
            None => 0,
        };
        let mut heights: Vec<LayoutConstraint> = Vec::new();
        heights.push(LayoutConstraint::Length(header_height));
        heights.push(LayoutConstraint::Fill(1));
        heights.push(LayoutConstraint::Length(footer_height));
        solve_vertical(&heights, area)
    }

    /// The style for a selected element: the selection style, with
    /// the focus style patched on when the table has focus and wants
    /// it shown.
    pub fn patch_select(
        &self,
        style: Option<ratatui::style::Style>,
        focus: bool,
        show: bool,
    ) -> (r: Option<ratatui::style::Style>)
        ensures
            (r is Some) == (style is Some),
            !(focus && show && self.focus_style is Some) ==> r == style,
    {
        match style {
            Some(style) => {
                match self.focus_style {
                    Some(focus_style) => {
                        if focus && show {
                            Some(style_patch(&style, &focus_style))
                        } else {
                            Some(style)
                        }
                    },
                    None => Some(style),
                }
            },
            None => None,
        }
    }
}

/// The sum of fixed widths plus spacings is never negative.
pub proof fn lemma_auto_width_nonneg(ws: Seq<LayoutConstraint>, spacing: int)
    requires
        spacing >= 0,
    ensures
        spec_auto_width(ws, spacing) >= 0,
    decreases ws.len(),
{
    if ws.len() > 0 {
        lemma_auto_width_nonneg(ws.drop_last(), spacing);
    }
}

/// How many trailing rows fill a page of the given height: rows are
/// taken from the end until their heights reach the page height;
/// `None` when even all of them fall short.
pub open spec fn spec_calc_last_page(heights: Seq<u16>, h: int) -> Option<int>
    decreases heights.len(),
{
    if heights.len() == 0 {
        if h <= 0 {
            Some(0)
        } else {
            None
        }
    } else if heights.last() >= h {
        Some(1)
    } else {
        match spec_calc_last_page(heights.drop_last(), h - heights.last()) {
            Some(n) => Some(n + 1),
            None => None,
        }
    }
}

/// The number of trailing rows that fill the last page never exceeds
/// the number of rows.
pub proof fn lemma_calc_last_page_le(heights: Seq<u16>, h: int)
    ensures
        (forall|n: int| spec_calc_last_page(heights, h) == Some(n) ==> 0 <= n <= heights.len()),
    decreases heights.len(),
{
    if heights.len() > 0 {
        lemma_calc_last_page_le(heights.drop_last(), h - heights.last());
    }
}

/// How many of the collected trailing row heights make up the last
/// page of the viewport, if enough were collected. A viewport of
/// height 0 is filled by the first row taken, whatever its height,
/// so a nonempty collection reports one row; the regimes special-case
/// an empty viewport before relying on this.
pub fn calc_last_page(row_heights: &Vec<u16>, height: u16) -> (r: Option<usize>)
    ensures
        (match spec_calc_last_page(row_heights@, height as int) {
            Some(n) => r == Some(n as usize),
            None => r is None,
        }),
{
    let ghost full = row_heights@;
    let mut sum: u32 = 0;
    let mut n: usize = 0;
    let mut i: usize = row_heights.len();
    proof {
        assert(full.subrange(0, full.len() as int) =~= full);
    }
    while i > 0
        invariant
            0 <= i <= full.len(),
            full.len() <= usize::MAX,
            row_heights@ == full,
            n == full.len() - i,
            sum <= height,
            (match spec_calc_last_page(full, height as int) {
                Some(m) => spec_calc_last_page(full.subrange(0, i as int), height - sum)
                    == Some(m - n),
                None => spec_calc_last_page(full.subrange(0, i as int), height - sum) is None,
            }),
        decreases i,
    {
        i -= 1;
        let ghost pre = full.subrange(0, i + 1);
        proof {
            assert(pre.drop_last() =~= full.subrange(0, i as int));
            assert(pre.last() == full[i as int]);
        }
        let h = row_heights[i];
        sum = sum + h as u32;
        n += 1;
        if sum >= height as u32 {
            proof {
                lemma_calc_last_page_le(full, height as int);
            }
            return Some(n);
        }
    }
    if sum >= height as u32 {
        Some(n)
    } else {
        None
    }
}

} // verus!

verus! {

/// The unscrolled layout entry for a column: its x and width plus the
/// trailing spacer's width.
pub open spec fn spec_column_layout_entry(col: Region, spacer: Region) -> Region {
    Region {
        x: col.x,
        y: 0u16,
        width: (if col.width + spacer.width <= u16::MAX {
            col.width + spacer.width
        } else {
            u16::MAX as int
        }) as u16,
        height: 0u16,
    }
}

/// The on-screen area of a column: its unscrolled extent shifted left
/// by the horizontal offset, clamped at the left edge, laid into the
/// body area and clipped to it.
pub open spec fn spec_column_area_entry(col: Region, spacer: Region, shift: int, table: Region)
    -> Region {
    let x1 = col.x as int;
    let x2 = col.x + col.width + spacer.width;
    let s1 = if x1 >= shift { x1 - shift } else { 0 };
    let s2 = if x2 >= shift { x2 - shift } else { 0 };
    let a1 = if s1 <= u16::MAX { s1 } else { u16::MAX as int };
    let a2 = if s2 <= u16::MAX { s2 } else { u16::MAX as int };
    let vx = if table.x + a1 <= u16::MAX {
        table.x + a1
    } else {
        u16::MAX as int
    };
    Region::spec_intersection(
        Region { x: vx as u16, y: table.y, width: (a2 - a1) as u16, height: table.height },
        table,
    )
}

impl<D: TableData, I: TableDataIter> Table<D, I> {
    /// Fill in the on-screen column areas and the unscrolled column
    /// layout from the solved columns and spacers.
    pub(crate) fn calculate_column_areas<S>(
        &self,
        columns: usize,
        l_columns: &Vec<Region>,
        l_spacers: &Vec<Region>,
        state: &mut crate::table_state::TableState<S>,
    )
        requires
            columns <= l_columns@.len(),
            columns + 1 <= l_spacers@.len(),
        ensures
            final(state).column_layout@.len() == columns,
            final(state).column_areas@.len() == columns,
            forall|i: int|
                0 <= i < columns ==> final(state).column_layout@[i]
                    == spec_column_layout_entry(l_columns@[i], l_spacers@[i + 1]),
            forall|i: int|
                0 <= i < columns ==> final(state).column_areas@[i] == spec_column_area_entry(
                    l_columns@[i],
                    l_spacers@[i + 1],
                    old(state).hscroll.offset as int,
                    old(state).table_area,
                ),
            *final(state) == (crate::table_state::TableState {
                column_layout: final(state).column_layout,
                column_areas: final(state).column_areas,
                ..*old(state)
            }),
    {
        state.column_areas = Vec::new();
        state.column_layout = Vec::new();

        let shift = state.hscroll.offset();
        let table = state.table_area;
        let mut col: usize = 0;
        while col < columns
            invariant
                0 <= col <= columns,
                columns <= l_columns@.len(),
                columns + 1 <= l_spacers@.len(),
                state.column_layout@.len() == col,
                state.column_areas@.len() == col,
                shift == state.hscroll.offset,
                table == state.table_area,
                forall|i: int|
                    0 <= i < col ==> state.column_layout@[i] == spec_column_layout_entry(
                        l_columns@[i],
                        l_spacers@[i + 1],
                    ),
                forall|i: int|
                    0 <= i < col ==> state.column_areas@[i] == spec_column_area_entry(
                        l_columns@[i],
                        l_spacers@[i + 1],
                        shift as int,
                        table,
                    ),
                *state == (crate::table_state::TableState {
                    column_layout: state.column_layout,
                    column_areas: state.column_areas,
                    ..*old(state)
                }),
            decreases columns - col,
        {
            let c = l_columns[col];
            let sp = l_spacers[col + 1];

            state.column_layout.push(
                Region { x: c.x, y: 0, width: c.width.saturating_add(sp.width), height: 0 },
            );

            let cell_x1 = c.x as usize;
            let cell_x2 = c.x as usize + c.width as usize + sp.width as usize;

            let squish_x1: usize = if cell_x1 >= shift {
                cell_x1 - shift
            } else {
                0
            };
            let squish_x2: usize = if cell_x2 >= shift {
                cell_x2 - shift
            } else {
                0
            };

            let abs_x1: u16 = if squish_x1 <= u16::MAX as usize {
                squish_x1 as u16
            } else {
                u16::MAX
            };
            let abs_x2: u16 = if squish_x2 <= u16::MAX as usize {
                squish_x2 as u16
            } else {
                u16::MAX
            };

            let v_area = Region {
                x: table.x.saturating_add(abs_x1),
                y: table.y,
                width: abs_x2 - abs_x1,
                height: table.height,
            };
            state.column_areas.push(v_area.intersection(table));

            col += 1;
        }
    }
}

} // verus!

verus! {

impl<D: TableData, I: TableDataIter> Table<D, I> {
    /// Paint the header row, shifted by the horizontal offset.
    pub(crate) fn render_header<S: crate::selection::TableSelection>(
        &self,
        columns: usize,
        width: u16,
        l_columns: &Vec<Region>,
        l_spacers: &Vec<Region>,
        area: Region,
        buf: &mut ratatui::buffer::Buffer,
        state: &crate::table_state::TableState<S>,
    )
        requires
            columns <= l_columns@.len(),
            columns + 1 <= l_spacers@.len(),
    {
        if let Some(header) = &self.header {
            let render_row_area = Region { x: 0, y: 0, width, height: header.height };
            let mut row_buf = crate::surface::buffer_empty(render_row_area);

            crate::surface::buffer_set_style(&mut row_buf, render_row_area, &self.style);
            match header.style {
                Some(header_style) => {
                    crate::surface::buffer_set_style(&mut row_buf, render_row_area, &header_style);
                },
                None => {
                    if let Some(header_style) = self.header_style {
                        crate::surface::buffer_set_style(
                            &mut row_buf,
                            render_row_area,
                            &header_style,
                        );
                    }
                },
            }

            let mut col: usize = 0;
            while col < columns
                invariant
                    0 <= col <= columns,
                    columns <= l_columns@.len(),
                    columns + 1 <= l_spacers@.len(),
                decreases columns - col,
            {
                let c = l_columns[col];
                let sp = l_spacers[col + 1];
                let render_cell_area = Region { x: c.x, y: 0, width: c.width, height: area.height };
                let render_space_area = Region {
                    x: sp.x,
                    y: 0,
                    width: sp.width,
                    height: area.height,
                };

                if state.selection.is_selected_column(col) {
                    if let Some(selected_style) = self.patch_select(
                        self.select_header_style,
                        state.focus,
                        self.show_header_focus,
                    ) {
                        crate::surface::buffer_set_style(
                            &mut row_buf,
                            render_cell_area,
                            &selected_style,
                        );
                        crate::surface::buffer_set_style(
                            &mut row_buf,
                            render_space_area,
                            &selected_style,
                        );
                    }
                }

                if col < header.cells.len() {
                    let cell = &header.cells[col];
                    if let Some(cell_style) = cell.style {
                        crate::surface::buffer_set_style(
                            &mut row_buf,
                            render_cell_area,
                            &cell_style,
                        );
                    }
                    crate::surface::buffer_set_stringn(
                        &mut row_buf,
                        render_cell_area.x,
                        render_cell_area.y,
                        &cell.content,
                        render_cell_area.width as usize,
                        &self.style,
                    );
                }

                col += 1;
            }

            let shift: u16 = if state.hscroll.offset <= u16::MAX as usize {
                state.hscroll.offset as u16
            } else {
                u16::MAX
            };
            crate::surface::transfer_buffer(&row_buf, shift, area, buf);
        }
    }

    /// Paint the footer row, shifted by the horizontal offset.
    pub(crate) fn render_footer<S: crate::selection::TableSelection>(
        &self,
        columns: usize,
        width: u16,
        l_columns: &Vec<Region>,
        l_spacers: &Vec<Region>,
        area: Region,
        buf: &mut ratatui::buffer::Buffer,
        state: &crate::table_state::TableState<S>,
    )
        requires
            columns <= l_columns@.len(),
            columns + 1 <= l_spacers@.len(),
    {
        if let Some(footer) = &self.footer {
            let render_row_area = Region { x: 0, y: 0, width, height: footer.height };
            let mut row_buf = crate::surface::buffer_empty(render_row_area);

            crate::surface::buffer_set_style(&mut row_buf, render_row_area, &self.style);
            match footer.style {
                Some(footer_style) => {
                    crate::surface::buffer_set_style(&mut row_buf, render_row_area, &footer_style);
                },
                None => {
                    if let Some(footer_style) = self.footer_style {
                        crate::surface::buffer_set_style(
                            &mut row_buf,
                            render_row_area,
                            &footer_style,
                        );
                    }
                },
            }

            let mut col: usize = 0;
            while col < columns
                invariant
                    0 <= col <= columns,
                    columns <= l_columns@.len(),
                    columns + 1 <= l_spacers@.len(),
                decreases columns - col,
            {
                let c = l_columns[col];
                let sp = l_spacers[col + 1];
                let render_cell_area = Region { x: c.x, y: 0, width: c.width, height: area.height };
                let render_space_area = Region {
                    x: sp.x,
                    y: 0,
                    width: sp.width,
                    height: area.height,
                };

                if state.selection.is_selected_column(col) {
                    if let Some(selected_style) = self.patch_select(
                        self.select_footer_style,
                        state.focus,
                        self.show_footer_focus,
                    ) {
                        crate::surface::buffer_set_style(
                            &mut row_buf,
                            render_cell_area,
                            &selected_style,
                        );
                        crate::surface::buffer_set_style(
                            &mut row_buf,
                            render_space_area,
                            &selected_style,
                        );
                    }
                }

                if col < footer.cells.len() {
                    let cell = &footer.cells[col];
                    if let Some(cell_style) = cell.style {
                        crate::surface::buffer_set_style(
                            &mut row_buf,
                            render_cell_area,
                            &cell_style,
                        );
                    }
                    crate::surface::buffer_set_stringn(
                        &mut row_buf,
                        render_cell_area.x,
                        render_cell_area.y,
                        &cell.content,
                        render_cell_area.width as usize,
                        &self.style,
                    );
                }

                col += 1;
            }

            let shift: u16 = if state.hscroll.offset <= u16::MAX as usize {
                state.hscroll.offset as u16
            } else {
                u16::MAX
            };
            crate::surface::transfer_buffer(&row_buf, shift, area, buf);
        }
    }
}

} // verus!

verus! {

/// The heights of every row a source yields, as one sequence.
pub open spec fn spec_model_heights<T: TableDataIter>(data: &T) -> Seq<u16> {
    Seq::new(data.spec_len() as nat, |i: int| data.spec_height(i))
}

/// The sliding window over the heights `h` that a scan starting at
/// `s` and having reached `e` retains: the last `cap` of them, or all
/// of them since `s` if there are fewer.
pub open spec fn spec_window(h: Seq<u16>, s: int, e: int, cap: int) -> Seq<u16> {
    h.subrange(if e - cap >= s { e - cap } else { s }, e)
}

/// The maximum vertical offset after a render pass with an exact row
/// count: the row count minus the rows of the true last page, where
/// the last page is computed from the trailing row heights that a
/// scan from `off` could retain. Where even those heights fall short
/// of the viewport, the fallback is the row count minus the viewport
/// height, at least 0.
pub open spec fn spec_regime_a_max(h: Seq<u16>, off: int, cap: int) -> int {
    let len = h.len() as int;
    match spec_calc_last_page(spec_window(h, off, len, cap), cap) {
        Some(n) => len - n,
        None => if len >= cap {
            len - cap
        } else {
            0
        },
    }
}

/// As `spec_regime_a_max`, but for a count established by a full
/// scan: where the trailing heights fall short of the viewport,
/// everything fits on one page and the maximum offset is 0.
pub open spec fn spec_regime_c_max(h: Seq<u16>, off: int, cap: int) -> int {
    let len = h.len() as int;
    match spec_calc_last_page(spec_window(h, off, len, cap), cap) {
        Some(n) => len - n,
        None => 0,
    }
}

/// Push one height into a sliding window and trim it to `cap`.
pub(crate) fn window_push(heights: &mut Vec<u16>, h: u16, cap: usize, Ghost(model): Ghost<Seq<u16>>, Ghost(s): Ghost<int>, Ghost(e): Ghost<int>)
    requires
        0 <= s <= e < model.len(),
        model.len() <= usize::MAX,
        h == model[e],
        old(heights)@ == spec_window(model, s, e, cap as int),
    ensures
        final(heights)@ == spec_window(model, s, e + 1, cap as int),
{
    let ghost pre = heights@;
    heights.push(h);
    proof {
        assert(heights@ =~= model.subrange(if e - cap >= s { e - cap } else { s }, e + 1));
    }
    if heights.len() > cap {
        let ghost mid = heights@;
        heights.remove(0);
        proof {
            assert(heights@ =~= mid.subrange(1, mid.len() as int));
            assert(heights@ =~= model.subrange(
                if e + 1 - cap >= s { e + 1 - cap } else { s },
                e + 1,
            ));
        }
    } else {
        proof {
            assert(heights@ =~= model.subrange(
                if e + 1 - cap >= s { e + 1 - cap } else { s },
                e + 1,
            ));
        }
    }
}

} // verus!

verus! {

/// Over rows of height 1, a page of height `cap` holds exactly `cap`
/// trailing rows.
proof fn lemma_uniform_heights_fill(h: Seq<u16>, cap: int)
    requires
        forall|i: int| 0 <= i < h.len() ==> h[i] == 1,
        1 <= cap <= h.len(),
    ensures
        spec_calc_last_page(h, cap) == Some(cap),
    decreases cap,
{
    if cap == 1 {
        assert(h.last() == 1);
    } else {
        assert(h.last() == 1);
        lemma_uniform_heights_fill(h.drop_last(), cap - 1);
    }
}

/// With single-line rows, a render under an exact count `R` leaves
/// `max_offset` at exactly `R` minus the viewport height: the last
/// page holds one row per line. This needs the offset to sit at or
/// before the start of the last page; further down, the forward-only
/// cursor cannot see the whole last page any more.
pub proof fn lemma_uniform_rows_max_offset(h: Seq<u16>, off: int, cap: int)
    requires
        forall|i: int| 0 <= i < h.len() ==> h[i] == 1,
        1 <= cap <= h.len(),
        0 <= off <= h.len() - cap,
    ensures
        spec_regime_a_max(h, off, cap) == h.len() - cap,
{
    let len = h.len() as int;
    let window = spec_window(h, off, len, cap);
    assert(window =~= h.subrange(len - cap, len));
    assert(forall|i: int| 0 <= i < window.len() ==> window[i] == 1);
    lemma_uniform_heights_fill(window, cap);
}

} // verus!

verus! {

/// How many rows a paint pass starting at `start` puts on a page
/// with `budget` lines left: rows are taken in order, each consuming
/// its height, until one reaches the bottom (a row of height 0 still
/// occupies one line of the visible check) or the rows run out.
pub open spec fn spec_fill_count(h: Seq<u16>, start: int, budget: int) -> int
    decreases h.len() - start,
{
    if start < 0 || start >= h.len() {
        0
    } else {
        let vh: int = if h[start] >= 1 {
            h[start] as int
        } else {
            1
        };
        if vh >= budget {
            1
        } else {
            1 + spec_fill_count(h, start + 1, budget - h[start])
        }
    }
}

/// With single-line rows the page holds one row per line: the fill
/// count is the viewport height, or whatever rows are left.
pub proof fn lemma_uniform_fill_count(h: Seq<u16>, start: int, budget: int)
    requires
        forall|i: int| 0 <= i < h.len() ==> h[i] == 1,
        0 <= start <= h.len(),
        budget >= 1,
    ensures
        spec_fill_count(h, start, budget) == (if h.len() - start <= budget {
            h.len() - start
        } else {
            budget
        }),
    decreases h.len() - start,
{
    if start < h.len() && budget > 1 {
        lemma_uniform_fill_count(h, start + 1, budget - 1);
    }
}

} // verus!
