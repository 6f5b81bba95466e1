//! The virtualized table: an append-only row sequence behind a
//! scrolling viewport.
//!
//! The view owns the rows it has ingested, a scroll offset and the
//! region it draws into; the viewport is as tall as that region. The
//! scroll offset never leaves `[0, max(0, rows - viewport)]`: every
//! operation clamps rather than fails. "At bottom" means the offset sits
//! at that maximum, and the refresh protocol keeps a view that was at
//! the bottom at the bottom when new rows arrive ("sticky tail"), while
//! a view scrolled away stays put.
use vstd::prelude::*;
use vstd::math::max;
use vstd::math::min;
use crate::cells::Cell;
use crate::cells::cell_for;
use crate::cells::spec_cell_style;
use crate::cells::spec_cell_text;
use crate::column::Column;
use crate::column::allocate_widths;
use crate::column::cols_wf;
use crate::column::fit_text;
use crate::column::spec_col_width;
use crate::column::spec_fit;
use crate::dep::Dep;
use crate::layout::Region;

verus! {

/// The largest legal scroll offset for `len` rows behind a viewport
/// `vh` rows tall.
pub open spec fn max_scroll_of(len: int, vh: int) -> int {
    if len > vh {
        len - vh
    } else {
        0
    }
}

/// A scrollable table of row records, virtualized over a viewport.
pub struct TableView {
    area: Region,
    columns: Vec<Column>,
    widths: Vec<u16>,
    rows: Vec<Dep>,
    scroll: usize,
}

impl TableView {
    /// The region the table draws into.
    pub closed spec fn spec_area(self) -> Region {
        self.area
    }

    /// The columns, fixed at construction.
    pub closed spec fn spec_columns(self) -> Seq<Column> {
        self.columns@
    }

    /// The width currently allocated to each column.
    pub closed spec fn spec_widths(self) -> Seq<u16> {
        self.widths@
    }

    /// The rows ingested so far, in append order.
    pub closed spec fn spec_rows(self) -> Seq<Dep> {
        self.rows@
    }

    /// The scroll offset: the index of the first visible row.
    pub closed spec fn spec_scroll(self) -> int {
        self.scroll as int
    }

    /// The viewport is as tall as the table's region.
    pub open spec fn viewport_height(self) -> int {
        self.spec_area().height as int
    }

    /// The largest legal scroll offset in the current state.
    pub open spec fn max_scroll(self) -> int {
        max_scroll_of(self.spec_rows().len() as int, self.viewport_height())
    }

    /// Well-formedness: the scroll offset is in range and the column
    /// widths are the allocation for the current region width.
    pub open spec fn wf(self) -> bool {
        &&& 0 <= self.spec_scroll() <= self.max_scroll()
        &&& cols_wf(self.spec_columns())
        &&& self.spec_widths().len() == self.spec_columns().len()
        &&& forall|j: int|
            0 <= j < self.spec_columns().len() ==> #[trigger] self.spec_widths()[j] as int
                == spec_col_width(self.spec_columns(), self.spec_area().width as int, j)
    }

    /// The view is pinned to the tail: the last row is visible.
    pub open spec fn spec_at_bottom(self) -> bool {
        self.spec_scroll() == self.max_scroll()
    }

    /// An empty table over `area` with the given columns.
    pub fn new(area: Region, columns: Vec<Column>) -> (t: TableView)
        requires
            cols_wf(columns@),
        ensures
            t.wf(),
            t.spec_area() == area,
            t.spec_columns() == columns@,
            t.spec_rows() =~= Seq::<Dep>::empty(),
            t.spec_scroll() == 0,
    {
        let widths = allocate_widths(&columns, area.width);
        TableView { area, columns, widths, rows: Vec::new(), scroll: 0 }
    }

    /// How many rows have been ingested.
    pub fn row_count(&self) -> (n: usize)
        ensures
            n == self.spec_rows().len(),
    {
        self.rows.len()
    }

    /// The region the table draws into.
    pub fn area(&self) -> (r: Region)
        ensures
            r == self.spec_area(),
    {
        self.area
    }

    /// The width currently allocated to each column.
    pub fn widths(&self) -> (w: &Vec<u16>)
        ensures
            w@ == self.spec_widths(),
    {
        &self.widths
    }

    /// Move the table to another region: reallocate the column widths
    /// for the new width and pull the scroll offset back into range if
    /// the new viewport is shorter.
    pub fn set_area(&mut self, area: Region)
        requires
            old(self).wf(),
        ensures
            final(self).wf(),
            final(self).spec_area() == area,
            final(self).spec_columns() == old(self).spec_columns(),
            final(self).spec_rows() == old(self).spec_rows(),
            final(self).spec_scroll() == min(old(self).spec_scroll(), final(self).max_scroll()),
    {
        self.area = area;
        self.widths = allocate_widths(&self.columns, area.width);
        let m = self.max_scroll_exec();
        if self.scroll > m {
            self.scroll = m;
        }
    }

    /// Change only the viewport height, keeping the region otherwise:
    /// a shrinking viewport may pull the scroll offset back into range.
    pub fn set_viewport_height(&mut self, h: u16)
        requires
            old(self).wf(),
        ensures
            final(self).wf(),
            final(self).spec_area() == (Region { height: h, ..old(self).spec_area() }),
            final(self).spec_columns() == old(self).spec_columns(),
            final(self).spec_widths() == old(self).spec_widths(),
            final(self).spec_rows() == old(self).spec_rows(),
            final(self).spec_scroll() == min(old(self).spec_scroll(), final(self).max_scroll()),
    {
        self.area.height = h;
        let m = self.max_scroll_exec();
        if self.scroll > m {
            self.scroll = m;
        }
    }

    fn max_scroll_exec(&self) -> (m: usize)
        ensures
            m as int == self.max_scroll(),
    {
        let len = self.rows.len();
        let vh = self.area.height as usize;
        if len > vh {
            len - vh
        } else {
            0
        }
    }

    /// Append one row record. The scroll offset does not move: following
    /// the tail is the refresh protocol's decision, not the buffer's.
    pub fn add_row(&mut self, dep: Dep)
        requires
            old(self).wf(),
            old(self).spec_rows().len() < usize::MAX,
        ensures
            final(self).wf(),
            final(self).spec_rows() == old(self).spec_rows().push(dep),
            final(self).spec_scroll() == old(self).spec_scroll(),
            final(self).spec_area() == old(self).spec_area(),
            final(self).spec_columns() == old(self).spec_columns(),
            final(self).spec_widths() == old(self).spec_widths(),
    {
        self.rows.push(dep);
    }

    /// Whether the view is pinned to the tail.
    pub fn is_at_bottom(&self) -> (b: bool)
        ensures
            b == self.spec_at_bottom(),
    {
        let m = self.max_scroll_exec();
        self.scroll == m
    }

    /// Jump to the tail: the scroll offset becomes its maximum.
    pub fn scroll_to_bottom(&mut self)
        requires
            old(self).wf(),
        ensures
            final(self).wf(),
            final(self).spec_at_bottom(),
            final(self).spec_scroll() == final(self).max_scroll(),
            final(self).spec_rows() == old(self).spec_rows(),
            final(self).spec_area() == old(self).spec_area(),
            final(self).spec_columns() == old(self).spec_columns(),
            final(self).spec_widths() == old(self).spec_widths(),
    {
        let m = self.max_scroll_exec();
        self.scroll = m;
    }

    /// Scroll by whole lines; negative scrolls up. Out-of-range amounts
    /// clamp silently to the legal range.
    pub fn try_scroll_lines(&mut self, lines_count: i32)
        requires
            old(self).wf(),
        ensures
            final(self).wf(),
            final(self).spec_scroll() == min(
                max(old(self).spec_scroll() + lines_count as int, 0),
                old(self).max_scroll(),
            ),
            final(self).spec_rows() == old(self).spec_rows(),
            final(self).spec_area() == old(self).spec_area(),
            final(self).spec_columns() == old(self).spec_columns(),
            final(self).spec_widths() == old(self).spec_widths(),
    {
        let m = self.max_scroll_exec();
        let target: i128 = self.scroll as i128 + lines_count as i128;
        self.scroll = if target < 0 {
            0
        } else if target > m as i128 {
            m
        } else {
            target as usize
        };
    }

    /// Scroll by whole viewports: the same clamp as `try_scroll_lines`
    /// with the amount scaled by the viewport height.
    pub fn try_scroll_pages(&mut self, pages_count: i32)
        requires
            old(self).wf(),
        ensures
            final(self).wf(),
            final(self).spec_scroll() == min(
                max(
                    old(self).spec_scroll() + pages_count as int * old(self).viewport_height(),
                    0,
                ),
                old(self).max_scroll(),
            ),
            final(self).spec_rows() == old(self).spec_rows(),
            final(self).spec_area() == old(self).spec_area(),
            final(self).spec_columns() == old(self).spec_columns(),
            final(self).spec_widths() == old(self).spec_widths(),
    {
        let m = self.max_scroll_exec();
        let pc: i64 = pages_count as i64;
        let vh: i64 = self.area.height as i64;
        proof {
            assert(-0x8000_0000 * 0xffff <= pc * vh <= 0x7fff_ffff * 0xffff) by (nonlinear_arith)
                requires
                    -0x8000_0000 <= pc <= 0x7fff_ffff,
                    0 <= vh <= 0xffff,
            ;
        }
        let delta: i64 = pc * vh;
        let target: i128 = self.scroll as i128 + delta as i128;
        self.scroll = if target < 0 {
            0
        } else if target > m as i128 {
            m
        } else {
            target as usize
        };
    }

    /// The half-open range of row indices inside the viewport.
    pub fn visible_slice(&self) -> (r: (usize, usize))
        requires
            self.wf(),
        ensures
            r.0 as int == self.spec_scroll(),
            r.1 as int == min(
                self.spec_scroll() + self.viewport_height(),
                self.spec_rows().len() as int,
            ),
            r.0 <= r.1 <= self.spec_rows().len(),
    {
        let len = self.rows.len();
        let vh = self.area.height as usize;
        let end = if len - self.scroll > vh {
            self.scroll + vh
        } else {
            len
        };
        (self.scroll, end)
    }

    /// The refresh protocol: capture whether the view was at the bottom,
    /// ingest every row of the source beyond those already held, and
    /// follow the tail only if the view was at the bottom ("sticky
    /// tail"). A view the user has scrolled away stays put.
    pub fn ingest(&mut self, deps: &Vec<Dep>)
        requires
            old(self).wf(),
        ensures
            final(self).wf(),
            final(self).spec_rows() == old(self).spec_rows() + deps@.skip(
                min(old(self).spec_rows().len() as int, deps@.len() as int),
            ),
            final(self).spec_area() == old(self).spec_area(),
            final(self).spec_columns() == old(self).spec_columns(),
            final(self).spec_widths() == old(self).spec_widths(),
            final(self).spec_scroll() == if old(self).spec_at_bottom() {
                final(self).max_scroll()
            } else {
                old(self).spec_scroll()
            },
            old(self).spec_at_bottom() ==> final(self).spec_at_bottom(),
            old(self).spec_rows() == deps@.take(old(self).spec_rows().len() as int)
                ==> final(self).spec_rows() =~= if deps@.len() >= old(self).spec_rows().len() {
                deps@
            } else {
                old(self).spec_rows()
            },
    {
        let iab = self.is_at_bottom();
        let ghost rows0 = self.rows@;
        let ghost start = self.rows@.len() as int;
        let mut i = self.rows.len();
        while i < deps.len()
            invariant
                self.wf(),
                start <= i <= max(start, deps@.len() as int),
                self.rows@ =~= rows0 + deps@.subrange(
                    min(start, deps@.len() as int),
                    min(i as int, deps@.len() as int),
                ),
                self.scroll == old(self).spec_scroll(),
                self.area == old(self).spec_area(),
                self.columns@ == old(self).spec_columns(),
                self.widths@ == old(self).spec_widths(),
                rows0 == old(self).spec_rows(),
                start == rows0.len(),
            decreases deps@.len() - i,
        {
            let d = deps[i].duplicate();
            self.rows.push(d);
            i = i + 1;
        }
        proof {
            assert(self.rows@ =~= rows0 + deps@.skip(min(start, deps@.len() as int)));
        }
        if iab {
            self.scroll_to_bottom();
        }
    }

    /// Whether a cell is the rendering of row `row` in column `j`: its
    /// text is the column's content fitted to the allocated width, and
    /// it carries the column's style for that row. A hidden column
    /// (width zero) yields an empty cell.
    pub open spec fn spec_rendered_cell_ok(self, c: Cell, row: int, j: int) -> bool {
        &&& c.text@ == spec_fit(
            spec_cell_text(self.spec_rows()[row], self.spec_columns()[j].kind),
            self.spec_widths()[j] as int,
            self.spec_columns()[j].align,
        )
        &&& c.style == spec_cell_style(self.spec_rows()[row], self.spec_columns()[j].kind)
    }

    /// Render the rows inside the viewport, one fitted cell per column.
    pub fn render_visible(&self) -> (r: Vec<Vec<Cell>>)
        requires
            self.wf(),
        ensures
            r@.len() == min(
                self.spec_scroll() + self.viewport_height(),
                self.spec_rows().len() as int,
            ) - self.spec_scroll(),
            forall|i: int|
                0 <= i < r@.len() ==> #[trigger] r@[i]@.len() == self.spec_columns().len(),
            forall|i: int, j: int|
                0 <= i < r@.len() && 0 <= j < self.spec_columns().len()
                    ==> self.spec_rendered_cell_ok(#[trigger] r@[i]@[j], self.spec_scroll() + i, j),
    {
        let (start, end) = self.visible_slice();
        let mut r: Vec<Vec<Cell>> = Vec::new();
        let mut i = start;
        while i < end
            invariant
                self.wf(),
                start as int == self.spec_scroll(),
                start <= i <= end,
                end <= self.spec_rows().len(),
                r@.len() == i - start,
                forall|a: int|
                    0 <= a < r@.len() ==> #[trigger] r@[a]@.len() == self.spec_columns().len(),
                forall|a: int, j: int|
                    0 <= a < r@.len() && 0 <= j < self.spec_columns().len()
                        ==> self.spec_rendered_cell_ok(#[trigger] r@[a]@[j], start as int + a, j),
            decreases end - i,
        {
            let mut row_cells: Vec<Cell> = Vec::new();
            let mut j: usize = 0;
            while j < self.columns.len()
                invariant
                    self.wf(),
                    i < self.spec_rows().len(),
                    j <= self.spec_columns().len(),
                    row_cells@.len() == j,
                    forall|b: int|
                        0 <= b < row_cells@.len() ==> self.spec_rendered_cell_ok(
                            #[trigger] row_cells@[b],
                            i as int,
                            b,
                        ),
                decreases self.spec_columns().len() - j,
            {
                let cell = cell_for(&self.rows[i], self.columns[j].kind);
                let fitted = fit_text(cell.text.as_str(), self.widths[j], self.columns[j].align);
                row_cells.push(Cell { text: fitted, style: cell.style });
                j = j + 1;
            }
            r.push(row_cells);
            i = i + 1;
        }
        r
    }
}

} // verus!
