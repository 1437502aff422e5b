use crate::layout::Region;
use vstd::prelude::*;

verus! {

/// ratatui's character grid. The table draws by writing styled text
/// into rectangular regions of it; what the grid holds is never read
/// back by the table's own logic.
#[verifier::external_type_specification]
#[verifier::external_body]
pub struct ExBuffer(ratatui::buffer::Buffer);

/// ratatui's text style. The table only combines and hands styles
/// through; it never depends on what a style looks like.
#[verifier::external_type_specification]
#[verifier::external_body]
pub struct ExStyle(ratatui::style::Style);

/// Relies on ratatui's `Style::new`: the empty style.
#[verifier::external_body]
pub(crate) fn style_default() -> ratatui::style::Style {
    ratatui::style::Style::new()
}

/// Relies on ratatui's `Style::patch`: lays `patch` over `base`.
#[verifier::external_body]
pub(crate) fn style_patch(base: &ratatui::style::Style, patch: &ratatui::style::Style)
    -> ratatui::style::Style {
    base.patch(*patch)
}

/// Relies on ratatui's `Style::add_modifier`: the style with reverse
/// video added, the fallback look for a selected row.
#[verifier::external_body]
pub(crate) fn style_reversed(style: &ratatui::style::Style) -> ratatui::style::Style {
    style.add_modifier(ratatui::style::Modifier::REVERSED)
}

/// Relies on ratatui's `Buffer::empty`: a grid of blank cells
/// covering the area.
#[verifier::external_body]
pub(crate) fn buffer_empty(area: Region) -> ratatui::buffer::Buffer {
    ratatui::buffer::Buffer::empty(ratatui::layout::Rect::new(
        area.x,
        area.y,
        area.width,
        area.height,
    ))
}

/// Relies on ratatui's `Buffer::resize`: grows or shrinks the grid to
/// the area, keeping what still fits.
#[verifier::external_body]
pub(crate) fn buffer_resize(buf: &mut ratatui::buffer::Buffer, area: Region) {
    buf.resize(ratatui::layout::Rect::new(area.x, area.y, area.width, area.height));
}

/// Relies on ratatui's `Buffer::set_style`: applies the style to every
/// cell of the area that lies inside the grid.
#[verifier::external_body]
pub(crate) fn buffer_set_style(buf: &mut ratatui::buffer::Buffer, area: Region, style: &ratatui::style::Style) {
    buf.set_style(ratatui::layout::Rect::new(area.x, area.y, area.width, area.height), *style);
}

/// Relies on ratatui's `Buffer::set_stringn` and `Rect::contains`:
/// writes the text at (x, y) with the style, at most `max_width`
/// columns, clipped at the grid's right edge. `set_stringn` clips
/// only on the right and indexes the start position directly, so the
/// call is made only when (x, y) lies on the grid; elsewhere nothing
/// happens.
#[verifier::external_body]
pub(crate) fn buffer_set_stringn(
    buf: &mut ratatui::buffer::Buffer,
    x: u16,
    y: u16,
    text: &String,
    max_width: usize,
    style: &ratatui::style::Style,
) {
    if buf.area().contains(ratatui::layout::Position { x, y }) {
        buf.set_stringn(x, y, text, max_width, *style);
    }
}

/// Relies on ratatui's `Buffer::cell` and `Buffer::cell_mut`: copies
/// one cell of `src` onto one cell of `dst`; where either position is
/// off its grid, nothing happens.
#[verifier::external_body]
pub(crate) fn buffer_copy_cell(
    src: &ratatui::buffer::Buffer,
    x: u16,
    y: u16,
    dst: &mut ratatui::buffer::Buffer,
    dx: u16,
    dy: u16,
) {
    if let Some(cell) = src.cell((x, y)) {
        let cell = cell.clone();
        if let Some(target) = dst.cell_mut((dx, dy)) {
            *target = cell;
        }
    }
}

/// Copy a horizontally shifted, width-clipped slice of an off-screen
/// row buffer into its place on the screen.
///
/// The row buffer holds one finished row, laid out from column 0 at
/// the full unscrolled table width. The slice starting at `shift`
/// lands on `dest`, clipped to the width and height of `dest`.
pub(crate) fn transfer_buffer(
    row_buf: &ratatui::buffer::Buffer,
    shift: u16,
    dest: Region,
    buf: &mut ratatui::buffer::Buffer,
) {
    let mut y: u16 = 0;
    while y < dest.height
        decreases dest.height - y,
    {
        let mut x: u16 = 0;
        while x < dest.width
            decreases dest.width - x,
        {
            let src_x = shift.saturating_add(x);
            let dst_x = dest.x.saturating_add(x);
            let dst_y = dest.y.saturating_add(y);
            buffer_copy_cell(row_buf, src_x, y, buf, dst_x, dst_y);
            x += 1;
        }
        y += 1;
    }
}

} // verus!
