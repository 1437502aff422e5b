use crate::data::spec_opt_pos;
use crate::scroll::ScrollAxis;
use crate::table::spec_fill_count;
use crate::data::TableContext;
use crate::data::TableData;
use crate::data::TableDataIter;
use crate::layout::Region;
use crate::selection::TableSelection;
use crate::surface::buffer_empty;
use crate::surface::buffer_resize;
use crate::surface::buffer_set_stringn;
use crate::surface::buffer_set_style;
use crate::surface::style_reversed;
use crate::surface::transfer_buffer;
use crate::table::calc_last_page;
use crate::table::spec_all_fixed;
use crate::table::spec_auto_width;
use crate::table::spec_model_heights;
use crate::table::spec_regime_a_max;
use crate::table::spec_regime_c_max;
use crate::table::spec_window;
use crate::table::window_push;
use crate::table::Table;
use crate::table_state::TableState;
use vstd::prelude::*;

verus! {

/// The vertical scroll outcome of one render pass, stated over the
/// source's model: `len` rows that it really yields with `heights`,
/// a `claim`ed count (or none), rendered from the offset of `pre`
/// into the body area of `post`.
///
/// With a claimed count the count is taken over; a consistent claim
/// and a sane offset give the exact last-page maximum, anything else
/// the claimed-count fallback, and a mismatch between claim and scan
/// is flagged. Without a claim, either one probe past the page keeps
/// a "more data" sentinel, or a full scan makes the count exact.
/// Afterwards the offset never exceeds the maximum.
pub open spec fn spec_vertical_outcome<S>(
    len: int,
    claim: Option<usize>,
    heights: Seq<u16>,
    no_row_count: bool,
    pre: TableState<S>,
    post: TableState<S>,
) -> bool {
    let off = pre.vscroll.offset as int;
    let cap = post.table_area.height as int;
    let budget = post.table_area.spec_bottom() - post.table_area.spec_top();
    &&& post.vscroll.offset <= post.vscroll.max_offset
    &&& post.vscroll.offset == (if off <= post.vscroll.max_offset {
        off
    } else {
        post.vscroll.max_offset as int
    })
    &&& (claim matches Some(rc) ==> {
        &&& post.rows == rc
        &&& post.count_mismatch == (post.counted_rows != rc)
        &&& (rc == len && off < len && cap > 0 ==> post.counted_rows == len
            && post.vscroll.max_offset == spec_regime_a_max(heights, off, cap))
        &&& (rc == len && (off >= len || cap == 0) ==> post.vscroll.max_offset == (if rc >= cap {
            rc - cap
        } else {
            0
        }))
        &&& (rc != len ==> post.vscroll.max_offset == (if rc >= cap {
            rc - cap
        } else {
            0
        }))
        &&& (rc != len && off < len ==> post.count_mismatch)
        &&& (off >= len ==> post.counted_rows == 0)
    })
    &&& (claim is None && no_row_count ==> {
        &&& post.count_mismatch == false
        &&& (off >= len ==> post.rows == 0 && post.counted_rows == 0 && post.vscroll.max_offset
            == usize::MAX - 1)
        &&& (off < len ==> {
            &&& post.counted_rows == off + spec_fill_count(heights, off, budget)
            &&& 1 <= post.counted_rows <= len
            &&& (post.counted_rows < len ==> post.rows == post.counted_rows + 1
                && post.vscroll.max_offset == usize::MAX - 1)
            &&& (post.counted_rows == len ==> post.rows == len && post.vscroll.max_offset == off)
        })
    })
    &&& (claim is None && !no_row_count ==> {
        &&& post.count_mismatch == false
        &&& (off < len ==> post.rows == len && post.counted_rows == len
            && post.vscroll.max_offset == spec_regime_c_max(heights, off, cap))
        &&& (off >= len ==> post.rows == 0 && post.counted_rows == 0 && post.vscroll.max_offset
            == 0)
    })
}

} // verus!

verus! {

impl<D: TableData, I: TableDataIter> Table<D, I> {
    /// Render one pass over a forward cursor: paint the visible page
    /// and re-establish the vertical scroll bookkeeping under one of
    /// three regimes.
    ///
    /// With an exact reported count `R` that matches what the source
    /// yields, the maximum offset afterwards is `R` minus the rows of
    /// the true last page, and the offset is clamped to it. With a
    /// misreported count the maximum falls back to `R` minus the
    /// viewport height and the mismatch is flagged. With no reported
    /// count, either the source is probed one row past the page and
    /// the count kept as a "more data" sentinel, or it is scanned to
    /// its end for an exact count.
    pub fn render_iter<DT: TableDataIter, S: TableSelection>(
        &self,
        data: DT,
        area: Region,
        buf: &mut ratatui::buffer::Buffer,
        state: &mut TableState<S>,
    )
        requires
            data.spec_pos() == -1,
            0 <= data.spec_len() <= usize::MAX - 2,
            (data.spec_claim() matches Some(c) ==> c <= usize::MAX - 2),
            old(state).vscroll.offset <= usize::MAX - 2,
            self.layout_width is None && self.auto_layout_width ==> spec_all_fixed(self.widths@)
                && spec_auto_width(self.widths@, self.column_spacing as int) <= u16::MAX,
        ensures
            final(state).columns == self.widths@.len(),
            final(state).area == area,
            final(state).inner == area,
            final(state).selection == old(state).selection,
            final(state).vscroll == (ScrollAxis {
                offset: final(state).vscroll.offset,
                max_offset: final(state).vscroll.max_offset,
                page_len: final(state).vscroll.page_len,
                ..old(state).vscroll
            }),
            final(state).hscroll == (ScrollAxis {
                max_offset: final(state).hscroll.max_offset,
                page_len: area.width as usize,
                ..old(state).hscroll
            }),
            final(state).hscroll.max_offset == ({
                let w = self.spec_total_width(final(state).table_area.width as int);
                if w >= final(state).table_area.width {
                    w - final(state).table_area.width
                } else {
                    0
                }
            }),
            spec_vertical_outcome(
                data.spec_len(),
                data.spec_claim(),
                spec_model_heights(&data),
                self.no_row_count,
                *old(state),
                *final(state),
            ),
    {
        let mut data = data;
        let ghost gl: int = data.spec_len();
        let ghost gc: Option<usize> = data.spec_claim();
        let ghost model: Seq<u16> = spec_model_heights(&data);

        let rows_reported = data.rows();
        if let Some(rows) = rows_reported {
            state.rows = rows;
        }
        state.columns = self.widths.len();
        state.area = area;
        state.inner = area;

        let l_rows = self.layout_areas(area);
        state.header_area = l_rows[0];
        state.table_area = l_rows[1];
        state.footer_area = l_rows[2];

        let (width, l_columns, l_spacers) = self.layout_columns(state.table_area.width);
        let columns = state.columns;
        self.calculate_column_areas(columns, &l_columns, &l_spacers, state);

        buffer_set_style(buf, state.area, &self.style);

        self.render_header(
            columns,
            width,
            &l_columns,
            &l_spacers,
            state.header_area,
            buf,
            state,
        );
        self.render_footer(
            columns,
            width,
            &l_columns,
            &l_spacers,
            state.footer_area,
            buf,
            state,
        );

        let cap: usize = state.table_area.height as usize;
        let off: usize = state.vscroll.offset();
        let shift: u16 = if state.hscroll.offset <= u16::MAX as usize {
            state.hscroll.offset as u16
        } else {
            u16::MAX
        };

        state.row_areas = Vec::new();
        state.vscroll.page_len = 0;
        state.hscroll.page_len = area.width as usize;

        let mut row_buf = buffer_empty(Region { x: 0, y: 0, width, height: 1 });
        let mut row: Option<usize> = None;
        let mut row_y: u16 = state.table_area.y;
        let mut row_heights: Vec<u16> = Vec::new();

        let mut ctx = TableContext {
            focus: state.focus,
            selected_cell: false,
            selected_row: false,
            selected_column: false,
            style: self.style,
            row_style: None,
            select_style: None,
            space_area: Region { x: 0, y: 0, width: 0, height: 0 },
        };

        let table_area = state.table_area;
        let ghost budget0: int = table_area.spec_bottom() - table_area.y;
        let ghost mut used: int = 0;

        if data.nth(off) {
            row = Some(off);
            proof {
                assert(row_heights@ =~= spec_window(model, off as int, off as int, cap as int));
            }
            loop
                invariant_except_break
                    (row matches Some(p) && off <= p < gl && data.spec_pos() == p && row_heights@
                        == spec_window(model, off as int, p as int, cap as int)
                        && state.vscroll.page_len == p - off && state.row_areas@.len() == p - off
                        && row_y == table_area.y + used && spec_fill_count(model, off as int, budget0)
                        == (p - off) + spec_fill_count(model, p as int, budget0 - used)),
                invariant
                    budget0 == table_area.spec_bottom() - table_area.y,
                    0 <= used <= budget0,
                    budget0 > 0 ==> used < budget0,
                    state.selection == old(state).selection,
                    state.hscroll == (ScrollAxis {
                        page_len: area.width as usize,
                        ..old(state).hscroll
                    }),
                    state.vscroll == (ScrollAxis {
                        page_len: state.vscroll.page_len,
                        ..old(state).vscroll
                    }),
                    gl <= usize::MAX - 2,
                    off <= usize::MAX - 2,
                    cap == table_area.height,
                    columns <= l_columns@.len(),
                    columns + 1 <= l_spacers@.len(),
                    table_area == state.table_area,
                    data.spec_len() == gl,
                    data.spec_claim() == gc,
                    forall|i: int| 0 <= i < gl ==> data.spec_height(i) == model[i],
                    model.len() == gl,
                    state.vscroll.offset == off,
                    state.columns == self.widths@.len(),
                    state.area == area,
                    state.inner == area,
                    state.rows == (match gc {
                        Some(c) => c as int,
                        None => old(state).rows as int,
                    }),
                ensures
                    (row matches Some(p) && off <= p < gl && row_heights@ == spec_window(
                        model,
                        off as int,
                        p + 1,
                        cap as int,
                    ) && state.vscroll.page_len == p + 1 - off && state.row_areas@.len() == p + 1
                        - off && (data.spec_pos() == p || (data.spec_pos() == p + 1 && p + 1
                        == gl))),
                    state.vscroll.page_len == spec_fill_count(model, off as int, budget0),
                    state.selection == old(state).selection,
                    state.hscroll == (ScrollAxis {
                        page_len: area.width as usize,
                        ..old(state).hscroll
                    }),
                    state.vscroll == (ScrollAxis {
                        page_len: state.vscroll.page_len,
                        ..old(state).vscroll
                    }),
                decreases gl - spec_opt_pos(row),
            {
                let ghost p: int = spec_opt_pos(row);
                let h = data.row_height();
                ctx.row_style = data.row_style();
                let render_row_area = Region { x: 0, y: 0, width, height: h };
                buffer_resize(&mut row_buf, render_row_area);
                match ctx.row_style {
                    Some(rs) => buffer_set_style(&mut row_buf, render_row_area, &rs),
                    None => buffer_set_style(&mut row_buf, render_row_area, &self.style),
                }
                window_push(&mut row_heights, h, cap, Ghost(model), Ghost(off as int), Ghost(p));

                let visible_row_area = Region {
                    x: table_area.x,
                    y: row_y,
                    width: table_area.width,
                    height: if h >= 1 {
                        h
                    } else {
                        1
                    },
                }.intersection(table_area);
                state.row_areas.push(visible_row_area);
                state.vscroll.page_len = state.vscroll.page_len + 1;

                let cur = match row {
                    Some(r) => r,
                    None => 0,
                };
                let mut col: usize = 0;
                while col < columns
                    invariant
                        0 <= col <= columns,
                        columns <= l_columns@.len(),
                        columns + 1 <= l_spacers@.len(),
                        0 <= data.spec_pos() < data.spec_len(),
                    decreases columns - col,
                {
                    let c = l_columns[col];
                    let sp = l_spacers[col + 1];
                    let render_cell_area = Region {
                        x: c.x,
                        y: 0,
                        width: c.width,
                        height: render_row_area.height,
                    };
                    ctx.space_area = Region {
                        x: sp.x,
                        y: 0,
                        width: sp.width,
                        height: render_row_area.height,
                    };

                    ctx.select_style = if state.selection.is_selected_cell(col, cur) {
                        ctx.selected_cell = true;
                        ctx.selected_row = false;
                        ctx.selected_column = false;
                        self.patch_select(self.select_cell_style, state.focus, self.show_cell_focus)
                    } else if state.selection.is_selected_row(cur) {
                        ctx.selected_cell = false;
                        ctx.selected_row = true;
                        ctx.selected_column = false;
                        // fall back to reverse video without an
                        // explicit row selection style
                        match self.select_row_style {
                            Some(srs) => self.patch_select(
                                Some(srs),
                                state.focus,
                                self.show_row_focus,
                            ),
                            None => self.patch_select(
                                Some(style_reversed(&self.style)),
                                state.focus,
                                self.show_row_focus,
                            ),
                        }
                    } else if state.selection.is_selected_column(col) {
                        ctx.selected_cell = false;
                        ctx.selected_row = false;
                        ctx.selected_column = true;
                        self.patch_select(
                            self.select_column_style,
                            state.focus,
                            self.show_column_focus,
                        )
                    } else {
                        ctx.selected_cell = false;
                        ctx.selected_row = false;
                        ctx.selected_column = false;
                        None
                    };

                    // partially visible?
                    if render_cell_area.right() > shift || (render_cell_area.x as usize)
                        < state.hscroll.offset.saturating_add(area.width as usize) {
                        if let Some(select_style) = ctx.select_style {
                            buffer_set_style(&mut row_buf, render_cell_area, &select_style);
                            buffer_set_style(&mut row_buf, ctx.space_area, &select_style);
                        }
                        data.render_cell(&ctx, col, render_cell_area, &mut row_buf);
                    }

                    col += 1;
                }

                transfer_buffer(&row_buf, shift, visible_row_area, buf);

                proof {
                    let vh: int = if h >= 1 {
                        h as int
                    } else {
                        1
                    };
                    assert((visible_row_area.spec_bottom() >= table_area.spec_bottom()) == (used
                        + vh >= budget0));
                }
                if visible_row_area.bottom() >= table_area.bottom() {
                    proof {
                        assert(spec_fill_count(model, p, budget0 - used) == 1);
                    }
                    break;
                }
                if !data.nth(0) {
                    proof {
                        assert(spec_fill_count(model, p, budget0 - used) == 1 + spec_fill_count(
                            model,
                            p + 1,
                            budget0 - used - h,
                        ));
                        assert(spec_fill_count(model, p + 1, budget0 - used - h) == 0);
                    }
                    break;
                }
                row = Some(cur + 1);
                row_y = row_y.saturating_add(render_row_area.height);
                proof {
                    assert(spec_fill_count(model, p, budget0 - used) == 1 + spec_fill_count(
                        model,
                        p + 1,
                        budget0 - used - h,
                    ));
                    used = used + h;
                }
            }
        }

        self.finish_vertical(
            &mut data,
            row,
            row_heights,
            off,
            cap,
            Ghost(gl),
            Ghost(gc),
            Ghost(model),
            Ghost(spec_fill_count(model, off as int, budget0)),
            state,
        );

        {
            let w: usize = width.saturating_sub(state.table_area.width) as usize;
            state.hscroll.max_offset = w;
        }

        // correct an offset past the data
        let m = state.vscroll.max_offset;
        if state.vscroll.offset > m {
            state.vscroll.offset = m;
        }

        // runtime-gated diagnostic overlay
        if self.debug && state.count_mismatch {
            let msg: String = "row count and iterated row count differ".to_string();
            buffer_set_stringn(
                buf,
                state.table_area.x,
                state.table_area.y,
                &msg,
                state.table_area.width as usize,
                &self.style,
            );
        }
    }
}

} // verus!

verus! {

impl<D: TableData, I: TableDataIter> Table<D, I> {
    /// Re-establish row count, iterated count, mismatch flag and the
    /// maximum vertical offset after the visible page was painted,
    /// under one of the three count regimes.
    #[verifier::rlimit(60)]
    fn finish_vertical<DT: TableDataIter, S>(
        &self,
        data: &mut DT,
        row: Option<usize>,
        row_heights: Vec<u16>,
        off: usize,
        cap: usize,
        Ghost(gl): Ghost<int>,
        Ghost(gc): Ghost<Option<usize>>,
        Ghost(model): Ghost<Seq<u16>>,
        Ghost(fill): Ghost<int>,
        state: &mut TableState<S>,
    )
        requires
            old(data).spec_len() == gl,
            old(data).spec_claim() == gc,
            forall|i: int| 0 <= i < gl ==> old(data).spec_height(i) == model[i],
            model.len() == gl,
            0 <= gl <= usize::MAX - 2,
            off <= usize::MAX - 2,
            (gc matches Some(c) ==> c <= usize::MAX - 2),
            cap == old(state).table_area.height,
            (row is None ==> old(data).spec_pos() == off && off >= gl && row_heights@.len() == 0),
            (row matches Some(p) ==> off <= p < gl && row_heights@ == spec_window(
                model,
                off as int,
                p + 1,
                cap as int,
            ) && p + 1 == off + fill && (old(data).spec_pos() == p || (old(data).spec_pos() == p
                + 1 && p + 1 == gl))),
        ensures
            final(state).vscroll == (crate::scroll::ScrollAxis {
                max_offset: final(state).vscroll.max_offset,
                page_len: final(state).vscroll.page_len,
                ..old(state).vscroll
            }),
            *final(state) == (TableState {
                rows: final(state).rows,
                counted_rows: final(state).counted_rows,
                count_mismatch: final(state).count_mismatch,
                vscroll: final(state).vscroll,
                ..*old(state)
            }),
            (gc matches Some(rc) ==> {
                &&& final(state).rows == rc
                &&& final(state).count_mismatch == (final(state).counted_rows != rc)
                &&& final(state).vscroll.page_len == old(state).vscroll.page_len
                &&& (rc == gl && off < gl && cap > 0 ==> final(state).counted_rows == gl && final(state).vscroll.max_offset == spec_regime_a_max(model, off as int, cap as int))
                &&& (rc == gl && (off >= gl || cap == 0) ==> final(state).vscroll.max_offset == (
                if rc >= cap {
                    rc - cap
                } else {
                    0
                }))
                &&& (rc != gl ==> final(state).vscroll.max_offset == (if rc >= cap {
                    rc - cap
                } else {
                    0
                }))
                &&& (rc != gl && off < gl ==> final(state).count_mismatch)
                &&& (off >= gl ==> final(state).counted_rows == 0)
            }),
            (gc is None && self.no_row_count ==> {
                &&& final(state).count_mismatch == false
                &&& (off >= gl ==> final(state).rows == 0 && final(state).counted_rows == 0
                    && final(state).vscroll.max_offset == usize::MAX - 1)
                &&& (off < gl ==> {
                    &&& final(state).counted_rows == off + fill
                    &&& 1 <= final(state).counted_rows <= gl
                    &&& (final(state).counted_rows < gl ==> final(state).rows == final(state).counted_rows + 1 && final(state).vscroll.max_offset == usize::MAX - 1)
                    &&& (final(state).counted_rows == gl ==> final(state).rows == gl && final(state).vscroll.max_offset == off)
                })
            }),
            (gc is None && !self.no_row_count ==> {
                &&& final(state).count_mismatch == false
                &&& final(state).vscroll.page_len == old(state).vscroll.page_len
                &&& (off < gl ==> final(state).rows == gl && final(state).counted_rows == gl
                    && final(state).vscroll.max_offset == spec_regime_c_max(
                    model,
                    off as int,
                    cap as int,
                ))
                &&& (off >= gl ==> final(state).rows == 0 && final(state).counted_rows == 0
                    && final(state).vscroll.max_offset == 0)
            }),
    {
        let cap16: u16 = state.table_area.height;
        let mut row = row;
        let mut heights = row_heights;
        let claim = data.rows();

        match claim {
            Some(rows_claim) => {
                // exact count reported: skip toward the last page and
                // collect the trailing heights
                let counted1: usize = match row {
                    Some(r) => r + 1,
                    None => 0,
                };
                let skip = rows_claim.saturating_sub(counted1).saturating_sub(cap);
                let ghost mut s: int = off as int;
                if skip > 0 {
                    heights = Vec::new();
                }
                let base = if counted1 >= off {
                    counted1
                } else {
                    off
                };
                let skip_fits = skip <= usize::MAX - 1 - base;
                if skip_fits && data.nth(skip) {
                    proof {
                        if row is None {
                            assert(false);
                        }
                    }
                    let p0 = match row {
                        Some(r) => r,
                        None => 0,
                    };
                    let target = p0 + skip + 1;
                    row = Some(target);
                    proof {
                        if skip > 0 {
                            s = target as int;
                            assert(heights@ =~= spec_window(model, s, target as int, cap as int));
                        }
                    }
                    loop
                        invariant_except_break
                            (row matches Some(p2) && off <= p2 < gl && data.spec_pos() == p2
                                && heights@ == spec_window(model, s, p2 as int, cap as int) && s
                                <= p2),
                        invariant
                            0 <= s,
                            gl <= usize::MAX - 2,
                            data.spec_len() == gl,
                            data.spec_claim() == gc,
                            forall|i: int| 0 <= i < gl ==> data.spec_height(i) == model[i],
                            model.len() == gl,
                        ensures
                            (row matches Some(p2) && p2 + 1 == gl && heights@ == spec_window(
                                model,
                                s,
                                gl,
                                cap as int,
                            )),
                        decreases gl - spec_opt_pos(row),
                    {
                        let h = data.row_height();
                        let cur = match row {
                            Some(r) => r,
                            None => 0,
                        };
                        window_push(
                            &mut heights,
                            h,
                            cap,
                            Ghost(model),
                            Ghost(s),
                            Ghost(cur as int),
                        );
                        if !data.nth(0) {
                            break;
                        }
                        row = Some(cur + 1);
                    }
                }
                let counted: usize = match row {
                    Some(r) => r + 1,
                    None => 0,
                };
                state.rows = rows_claim;
                state.counted_rows = counted;
                state.count_mismatch = counted != rows_claim;
                if counted == rows_claim {
                    proof {
                        if off < gl && cap > 0 && rows_claim == gl {
                            assert(heights@ =~= spec_window(model, off as int, gl, cap as int));
                        }
                    }
                    match calc_last_page(&heights, cap16) {
                        Some(n) => {
                            proof {
                                crate::table::lemma_calc_last_page_le(heights@, cap16 as int);
                            }
                            let m = if n <= rows_claim {
                                rows_claim - n
                            } else {
                                0
                            };
                            state.vscroll.max_offset = m;
                        },
                        None => {
                            state.vscroll.max_offset = rows_claim.saturating_sub(cap);
                        },
                    }
                } else {
                    state.vscroll.max_offset = rows_claim.saturating_sub(cap);
                }
            },
            None => {
                if self.no_row_count {
                    // probe one row past the page; a hit keeps a
                    // "more data" sentinel, a miss makes the count
                    // exact
                    match row {
                        Some(r) => {
                            let counted1 = r + 1;
                            state.counted_rows = counted1;
                            if data.nth(0) {
                                state.rows = counted1 + 1;
                                state.vscroll.max_offset = usize::MAX - 1;
                            } else {
                                state.rows = counted1;
                                state.vscroll.max_offset = off;
                            }
                        },
                        None => {
                            state.rows = 0;
                            state.counted_rows = 0;
                            state.vscroll.max_offset = usize::MAX - 1;
                        },
                    }
                    state.count_mismatch = false;
                    if state.vscroll.page_len == 0 {
                        state.vscroll.page_len = cap;
                    }
                } else {
                    // scan the rest for an exact count, keeping the
                    // trailing heights
                    loop
                        invariant_except_break
                            (match row {
                                Some(p2) => off <= p2 < gl && heights@ == spec_window(
                                    model,
                                    off as int,
                                    p2 + 1,
                                    cap as int,
                                ) && (data.spec_pos() == p2 || (data.spec_pos() == p2 + 1 && p2 + 1
                                    == gl)),
                                None => data.spec_pos() == off && off >= gl && heights@.len() == 0,
                            }),
                        invariant
                            gl <= usize::MAX - 2,
                            off <= usize::MAX - 2,
                            data.spec_len() == gl,
                            data.spec_claim() == gc,
                            forall|i: int| 0 <= i < gl ==> data.spec_height(i) == model[i],
                            model.len() == gl,
                        ensures
                            (match row {
                                Some(p2) => p2 + 1 == gl && off < gl && heights@ == spec_window(
                                    model,
                                    off as int,
                                    gl,
                                    cap as int,
                                ),
                                None => off >= gl,
                            }),
                        decreases gl + 1 - spec_opt_pos(row),
                    {
                        if !data.nth(0) {
                            break;
                        }
                        let cur = match row {
                            Some(r) => r + 1,
                            None => 0,
                        };
                        proof {
                            if row is None {
                                assert(false);
                            }
                        }
                        row = Some(cur);
                        let h = data.row_height();
                        window_push(
                            &mut heights,
                            h,
                            cap,
                            Ghost(model),
                            Ghost(off as int),
                            Ghost(cur as int),
                        );
                    }
                    match row {
                        Some(r) => {
                            let counted = r + 1;
                            state.rows = counted;
                            state.counted_rows = counted;
                            match calc_last_page(&heights, cap16) {
                                Some(n) => {
                                    proof {
                                        crate::table::lemma_calc_last_page_le(
                                            heights@,
                                            cap16 as int,
                                        );
                                    }
                                    let m = if n <= counted {
                                        counted - n
                                    } else {
                                        0
                                    };
                                    state.vscroll.max_offset = m;
                                },
                                None => {
                                    state.vscroll.max_offset = 0;
                                },
                            }
                        },
                        None => {
                            state.rows = 0;
                            state.counted_rows = 0;
                            state.vscroll.max_offset = 0;
                        },
                    }
                    state.count_mismatch = false;
                }
            },
        }
    }
}

} // verus!

verus! {

impl<D: TableData, I: TableDataIter> Table<D, I> {
    /// Render the table, consuming it: the vertical outcome of
    /// `render_iter`, restated over the table's own data.
    pub fn render<S: TableSelection>(
        self,
        area: Region,
        buf: &mut ratatui::buffer::Buffer,
        state: &mut TableState<S>,
    )
        requires
            self.data.spec_pos() == -1,
            0 <= self.data.spec_len() <= usize::MAX - 2,
            (self.data.spec_claim() matches Some(c) ==> c <= usize::MAX - 2),
            old(state).vscroll.offset <= usize::MAX - 2,
            self.layout_width is None && self.auto_layout_width ==> spec_all_fixed(self.widths@)
                && spec_auto_width(self.widths@, self.column_spacing as int) <= u16::MAX,
        ensures
            final(state).columns == self.widths@.len(),
            final(state).area == area,
            final(state).selection == old(state).selection,
            spec_vertical_outcome(
                self.data.spec_len(),
                self.data.spec_claim(),
                Seq::new(self.data.spec_len() as nat, |i: int| self.data.spec_height(i)),
                self.no_row_count,
                *old(state),
                *final(state),
            ),
    {
        let mut table = self;
        let mut taken: crate::data::DataRepr<D, I> = crate::data::DataRepr::Empty;
        core::mem::swap(&mut taken, &mut table.data);
        let ghost d0 = taken;
        let data = crate::data::DataRepr::into_iter(taken);
        proof {
            assert(spec_model_heights(&data) =~= Seq::new(
                d0.spec_len() as nat,
                |i: int| d0.spec_height(i),
            ));
        }
        table.render_iter(data, area, buf, state);
    }

    /// Render the table without consuming it: as `render` for the
    /// three data shapes that can be borrowed, while a forward cursor
    /// that cannot be duplicated degrades to a single diagnostic row
    /// and is rendered as a one-row table instead.
    pub fn render_ref<S: TableSelection>(
        &self,
        area: Region,
        buf: &mut ratatui::buffer::Buffer,
        state: &mut TableState<S>,
    )
        requires
            self.data.spec_pos() == -1,
            0 <= self.data.spec_len() <= usize::MAX - 2,
            (self.data.spec_claim() matches Some(c) ==> c <= usize::MAX - 2),
            old(state).vscroll.offset <= usize::MAX - 2,
            self.layout_width is None && self.auto_layout_width ==> spec_all_fixed(self.widths@)
                && spec_auto_width(self.widths@, self.column_spacing as int) <= u16::MAX,
        ensures
            final(state).columns == self.widths@.len(),
            final(state).area == area,
            final(state).selection == old(state).selection,
            !(self.data is Iter) ==> spec_vertical_outcome(
                self.data.spec_len(),
                self.data.spec_claim(),
                Seq::new(self.data.spec_len() as nat, |i: int| self.data.spec_height(i)),
                self.no_row_count,
                *old(state),
                *final(state),
            ),
            self.data is Iter ==> spec_vertical_outcome(
                self.data.spec_len(),
                self.data.spec_claim(),
                Seq::new(self.data.spec_len() as nat, |i: int| self.data.spec_height(i)),
                self.no_row_count,
                *old(state),
                *final(state),
            ) || spec_vertical_outcome(
                1,
                Some(1usize),
                seq![1u16],
                self.no_row_count,
                *old(state),
                *final(state),
            ),
    {
        let data = self.data.iter();
        let ghost d = data;
        self.render_iter(data, area, buf, state);
        proof {
            if d.spec_len() == self.data.spec_len() && d.spec_claim() == self.data.spec_claim()
                && (forall|i: int| d.spec_height(i) == self.data.spec_height(i)) {
                assert(spec_model_heights(&d) =~= Seq::new(
                    self.data.spec_len() as nat,
                    |i: int| self.data.spec_height(i),
                ));
            } else {
                assert(spec_model_heights(&d) =~= seq![1u16]);
            }
        }
    }
}

} // verus!
