use vstd::prelude::*;

verus! {

/// One scroll axis: offset, maximum offset, page length and the
/// suggested scroll increment.
///
/// `offset <= max_offset` is the target invariant, but a caller may
/// set any offset ("overscroll"); the render pass detects and clamps
/// such an offset when it re-establishes `max_offset`.
#[derive(Clone, Debug)]
pub struct ScrollAxis {
    /// Index of the first visible row/column.
    pub offset: usize,
    /// Maximum offset reachable by scrolling.
    pub max_offset: usize,
    /// Number of rows/columns visible at once.
    pub page_len: usize,
    /// Explicit scroll increment; defaults to a tenth of the page.
    pub scroll_by: Option<usize>,
    /// Allowed overscroll past `max_offset` for `scroll_up`/`scroll_down`.
    pub overscroll_by: Option<usize>,
}

impl ScrollAxis {
    /// The offset that `scroll_up`/`scroll_down` will not exceed.
    pub open spec fn spec_limit(&self) -> int {
        if self.max_offset + self.spec_overscroll_by() > usize::MAX {
            usize::MAX as int
        } else {
            self.max_offset + self.spec_overscroll_by()
        }
    }

    pub open spec fn spec_overscroll_by(&self) -> int {
        match self.overscroll_by {
            Some(v) => v as int,
            None => 0,
        }
    }

    pub open spec fn spec_scroll_by(&self) -> int {
        match self.scroll_by {
            Some(v) => if v >= 1 { v as int } else { 1 },
            None => if self.page_len / 10 >= 1 { self.page_len as int / 10 } else { 1 },
        }
    }

    pub fn new() -> (r: Self)
        ensures
            r == (ScrollAxis {
                offset: 0,
                max_offset: 0,
                page_len: 0,
                scroll_by: None,
                overscroll_by: None,
            }),
    {
        ScrollAxis { offset: 0, max_offset: 0, page_len: 0, scroll_by: None, overscroll_by: None }
    }

    /// Current offset.
    pub fn offset(&self) -> (r: usize)
        ensures
            r == self.offset,
    {
        self.offset
    }

    /// Change the offset. Any value is accepted here, even one past
    /// `max_offset`; the widget has to deal with such an offset on the
    /// next render. Reports whether the offset changed.
    pub fn set_offset(&mut self, offset: usize) -> (r: bool)
        ensures
            *final(self) == (ScrollAxis { offset, ..*old(self) }),
            r == (old(self).offset != offset),
    {
        let old_offset = self.offset;
        self.offset = offset;
        old_offset != offset
    }

    /// Reset the offset to 0.
    pub fn clear(&mut self)
        ensures
            *final(self) == (ScrollAxis { offset: 0, ..*old(self) }),
    {
        self.offset = 0;
    }

    /// The offset that makes `pos` visible: a position below the
    /// page becomes its last row, a position above it its first, a
    /// visible position changes nothing. With an empty page no
    /// position can be visible at all; the target itself becomes the
    /// offset, so that repeating the call never moves it again.
    pub open spec fn spec_scroll_to(&self, pos: int) -> int {
        if self.page_len == 0 {
            pos
        } else if pos >= self.offset + self.page_len {
            pos - self.page_len + 1
        } else if pos < self.offset {
            pos
        } else {
            self.offset as int
        }
    }

    /// Adjust the offset just enough to make `pos` visible; see
    /// `spec_scroll_to`. Reports whether the offset changed.
    pub fn scroll_to_pos(&mut self, pos: usize) -> (r: bool)
        requires
            old(self).offset + old(self).page_len <= usize::MAX,
        ensures
            final(self).offset == old(self).spec_scroll_to(pos as int),
            *final(self) == (ScrollAxis { offset: final(self).offset, ..*old(self) }),
            r == (old(self).offset != final(self).offset),
    {
        let old_offset = self.offset;
        if self.page_len == 0 {
            self.offset = pos;
        } else if pos >= self.offset + self.page_len {
            self.offset = pos - self.page_len + 1;
        } else if pos < self.offset {
            self.offset = pos;
        }
        old_offset != self.offset
    }

    /// Reduce the offset by `n`, not below 0.
    pub fn scroll_up(&mut self, n: usize) -> (r: bool)
        ensures
            final(self).offset == old(self).spec_limited(if old(self).offset >= n {
                old(self).offset - n
            } else {
                0
            }),
            *final(self) == (ScrollAxis { offset: final(self).offset, ..*old(self) }),
            r == (old(self).offset != final(self).offset),
    {
        let old_offset = self.offset;
        self.offset = self.limited_offset(self.offset.saturating_sub(n));
        old_offset != self.offset
    }

    /// Increase the offset by `n`, not past `max_offset` plus the
    /// allowed overscroll.
    pub fn scroll_down(&mut self, n: usize) -> (r: bool)
        ensures
            final(self).offset == old(self).spec_limited(if old(self).offset + n <= usize::MAX {
                old(self).offset + n
            } else {
                usize::MAX as int
            }),
            *final(self) == (ScrollAxis { offset: final(self).offset, ..*old(self) }),
            r == (old(self).offset != final(self).offset),
    {
        let old_offset = self.offset;
        self.offset = self.limited_offset(self.offset.saturating_add(n));
        old_offset != self.offset
    }

    pub open spec fn spec_limited(&self, offset: int) -> int {
        if offset <= self.spec_limit() {
            offset
        } else {
            self.spec_limit()
        }
    }

    /// The given offset limited to `max_offset` plus the allowed overscroll.
    pub fn limited_offset(&self, offset: usize) -> (r: usize)
        ensures
            r == self.spec_limited(offset as int),
    {
        let overscroll = match self.overscroll_by {
            Some(v) => v,
            None => 0,
        };
        let limit = self.max_offset.saturating_add(overscroll);
        if offset <= limit {
            offset
        } else {
            limit
        }
    }

    /// Maximum offset reachable by scrolling. The content length minus
    /// whatever fills the last page.
    pub fn max_offset(&self) -> (r: usize)
        ensures
            r == self.max_offset,
    {
        self.max_offset
    }

    pub fn set_max_offset(&mut self, max: usize)
        ensures
            *final(self) == (ScrollAxis { max_offset: max, ..*old(self) }),
    {
        self.max_offset = max;
    }

    /// Page length at the current offset.
    pub fn page_len(&self) -> (r: usize)
        ensures
            r == self.page_len,
    {
        self.page_len
    }

    pub fn set_page_len(&mut self, page: usize)
        ensures
            *final(self) == (ScrollAxis { page_len: page, ..*old(self) }),
    {
        self.page_len = page;
    }

    /// Suggested scroll per scroll event: the explicit increment if one
    /// is set, else a tenth of the page, at least 1 either way.
    pub fn scroll_by(&self) -> (r: usize)
        ensures
            r == self.spec_scroll_by(),
    {
        match self.scroll_by {
            Some(scroll) => if scroll >= 1 { scroll } else { 1 },
            None => {
                let tenth = self.page_len / 10;
                if tenth >= 1 { tenth } else { 1 }
            },
        }
    }

    pub fn set_scroll_by(&mut self, scroll: Option<usize>)
        ensures
            *final(self) == (ScrollAxis { scroll_by: scroll, ..*old(self) }),
    {
        self.scroll_by = scroll;
    }

    /// Allowed overscroll past `max_offset`.
    pub fn overscroll_by(&self) -> (r: usize)
        ensures
            r == self.spec_overscroll_by(),
    {
        match self.overscroll_by {
            Some(v) => v,
            None => 0,
        }
    }

    pub fn set_overscroll_by(&mut self, overscroll_by: Option<usize>)
        ensures
            *final(self) == (ScrollAxis { overscroll_by, ..*old(self) }),
    {
        self.overscroll_by = overscroll_by;
    }

    /// Shift the bookkeeping for `n` items inserted at `pos`: an offset
    /// at or past the insertion point moves with the items, and the
    /// maximum offset grows by `n`.
    pub fn items_added(&mut self, pos: usize, n: usize)
        requires
            old(self).offset + n <= usize::MAX,
            old(self).max_offset + n <= usize::MAX,
        ensures
            final(self).offset == if old(self).offset >= pos {
                old(self).offset + n
            } else {
                old(self).offset as int
            },
            final(self).max_offset == old(self).max_offset + n,
            *final(self) == (ScrollAxis {
                offset: final(self).offset,
                max_offset: final(self).max_offset,
                ..*old(self)
            }),
    {
        if self.offset >= pos {
            self.offset += n;
        }
        self.max_offset += n;
    }

    /// Shift the bookkeeping for `n` items removed at `pos`: an offset
    /// at or past the removal point moves back with the items, and the
    /// maximum offset shrinks by `n`, not below 0.
    pub fn items_removed(&mut self, pos: usize, n: usize)
        ensures
            final(self).offset == if old(self).offset >= pos && old(self).offset >= n {
                old(self).offset - n
            } else {
                old(self).offset as int
            },
            final(self).max_offset == if old(self).max_offset >= n {
                old(self).max_offset - n
            } else {
                0
            },
            *final(self) == (ScrollAxis {
                offset: final(self).offset,
                max_offset: final(self).max_offset,
                ..*old(self)
            }),
    {
        if self.offset >= pos && self.offset >= n {
            self.offset -= n;
        }
        self.max_offset = self.max_offset.saturating_sub(n);
    }
}

impl Default for ScrollAxis {
    fn default() -> (r: Self)
        ensures
            r == (ScrollAxis {
                offset: 0,
                max_offset: 0,
                page_len: 0,
                scroll_by: None,
                overscroll_by: None,
            }),
    {
        ScrollAxis::new()
    }
}

/// Making a position visible is idempotent: once `scroll_to_pos` has
/// run for a target, a second call with the same target does not move
/// the offset again, whatever the page length.
pub proof fn lemma_scroll_to_pos_idempotent(pre: ScrollAxis, mid: ScrollAxis, pos: usize)
    requires
        mid == (ScrollAxis {
            offset: mid.offset,
            ..pre
        }),
        mid.offset == pre.spec_scroll_to(pos as int),
    ensures
        mid.spec_scroll_to(pos as int) == mid.offset,
{
}

} // verus!
