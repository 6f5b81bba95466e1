//! The screen controller: one full refresh per call.
//!
//! Each tick the controller re-checks the surface size, recomputes the
//! layout only when it changed, adopts the data source's status snapshot
//! unless it moves backward, ingests the rows that arrived since the
//! last tick with sticky-tail scrolling, and hands back a render plan:
//! for every region, the exact text (or rendered cells) to draw there.
//! Drawing the plan — and reading the real terminal size — is the
//! caller's job; the controller itself performs no I/O.
use vstd::prelude::*;
use vstd::math::min;
use vstd::string::StringExecFns;
use crate::cells::Cell;
use crate::column::standard_columns;
use crate::column::is_standard_column;
use crate::dep::Dep;
use crate::layout::Region;
use crate::layout::compute_layout;
use crate::layout::spec_layout;
use crate::status::TableComputationStatus;
use crate::status::accept_status;
use crate::status::spec_accept;
use crate::status::spec_status_text;
use crate::table_view::TableView;
use crate::table_view::max_scroll_of;

verus! {

/// What the table region shows: the preparing placeholder before any
/// phase has started, live rows afterwards.
pub enum TableContent {
    Placeholder(String),
    Rows(Vec<Vec<Cell>>),
}

/// Everything one refresh tick wants drawn: a region and its content,
/// for each of the five regions, plus whether the surface was cleared
/// for a resize.
pub struct RenderPlan {
    pub cleared: bool,
    pub title_area: Region,
    pub title_markup: String,
    pub table_area: Region,
    pub table: TableContent,
    pub status_area: Region,
    pub status_text: String,
    pub input_area: Region,
    pub input_text: String,
    pub hint_area: Region,
    pub hint_text: String,
}

/// A snapshot of the data source: the rows produced so far (append-only
/// across snapshots) and the current computation status.
pub struct DepTable {
    pub deps: Vec<Dep>,
    pub computation_status: TableComputationStatus,
}

/// The title line markup: a level-one heading.
pub open spec fn spec_title_markup(title: Seq<char>) -> Seq<char> {
    "# "@ + title
}

/// The table region's text before any phase has started.
pub open spec fn spec_placeholder_text() -> Seq<char> {
    "\n*preparing table... You may quit at any time with ctrl-q*"@
}

/// The hint line: quit-only before any rows can exist, scroll keys
/// added afterwards.
pub open spec fn spec_hint_text(before_deps: bool) -> Seq<char> {
    if before_deps {
        "Hit *ctrl-q* to quit"@
    } else {
        "Hit *ctrl-q* to quit, *PageUp* or *PageDown* to scroll"@
    }
}

fn hint_text(before_deps: bool) -> (r: String)
    ensures
        r@ == spec_hint_text(before_deps),
{
    if before_deps {
        String::from_str("Hit *ctrl-q* to quit")
    } else {
        String::from_str("Hit *ctrl-q* to quit, *PageUp* or *PageDown* to scroll")
    }
}

/// The whole viewer: regions, the virtualized table, the last adopted
/// computation status, and the last seen surface size.
pub struct VerifyScreen {
    title: String,
    title_area: Region,
    status_area: Region,
    input_area: Region,
    hint_area: Region,
    table_view: TableView,
    status: TableComputationStatus,
    last_dimensions: (u16, u16),
}

impl VerifyScreen {
    pub closed spec fn spec_title(self) -> Seq<char> {
        self.title@
    }

    pub closed spec fn spec_title_area(self) -> Region {
        self.title_area
    }

    pub closed spec fn spec_status_area(self) -> Region {
        self.status_area
    }

    pub closed spec fn spec_input_area(self) -> Region {
        self.input_area
    }

    pub closed spec fn spec_hint_area(self) -> Region {
        self.hint_area
    }

    pub closed spec fn spec_table_view(self) -> TableView {
        self.table_view
    }

    pub closed spec fn spec_status(self) -> TableComputationStatus {
        self.status
    }

    pub closed spec fn spec_last_dimensions(self) -> (u16, u16) {
        self.last_dimensions
    }

    pub open spec fn wf(self) -> bool {
        self.spec_table_view().wf()
    }

    /// A fresh viewer with the standard columns, no rows, status not yet
    /// started, and no surface seen yet (the first refresh always lays
    /// out).
    pub fn new(title: String) -> (s: VerifyScreen)
        ensures
            s.wf(),
            s.spec_title() == title@,
            s.spec_status() == TableComputationStatus::New,
            s.spec_table_view().spec_rows() =~= Seq::<Dep>::empty(),
            s.spec_table_view().spec_scroll() == 0,
            s.spec_table_view().spec_columns().len() == 13,
            forall|i: int|
                0 <= i < 13 ==> is_standard_column(
                    #[trigger] s.spec_table_view().spec_columns()[i],
                    i,
                ),
            s.spec_last_dimensions() == (0u16, 0u16),
    {
        let columns = standard_columns();
        let table_view = TableView::new(Region::new(0, 1, 10, 10), columns);
        VerifyScreen {
            title,
            title_area: Region::new(0, 0, 10, 1),
            status_area: Region::new(0, 2, 10, 1),
            input_area: Region::new(0, 3, 10, 1),
            hint_area: Region::new(0, 3, 10, 1),
            table_view,
            status: TableComputationStatus::New,
            last_dimensions: (0, 0),
        }
    }

    /// The view's title, as given at construction.
    pub fn title(&self) -> (t: &String)
        ensures
            t@ == self.spec_title(),
    {
        &self.title
    }

    /// The current scroll state, for callers that only read.
    pub fn table(&self) -> (t: &TableView)
        ensures
            *t == self.spec_table_view(),
    {
        &self.table_view
    }

    /// The last adopted computation status.
    pub fn status(&self) -> (s: TableComputationStatus)
        ensures
            s == self.spec_status(),
    {
        self.status
    }

    /// Re-check the surface size. When it is unchanged nothing at all
    /// happens (the idle short-circuit); otherwise every region is
    /// recomputed for the new size, the column widths are reallocated,
    /// and the scroll offset is pulled back into range. Returns whether
    /// the size changed, in which case the caller must clear the
    /// surface before drawing.
    pub fn resize(&mut self, w: u16, h: u16) -> (changed: bool)
        requires
            old(self).wf(),
        ensures
            final(self).wf(),
            changed == ((w, h) != old(self).spec_last_dimensions()),
            !changed ==> *final(self) == *old(self),
            final(self).spec_title() == old(self).spec_title(),
            final(self).spec_status() == old(self).spec_status(),
            final(self).spec_table_view().spec_rows() == old(self).spec_table_view().spec_rows(),
            final(self).spec_table_view().spec_columns() == old(self).spec_table_view().spec_columns(),
            changed ==> {
                &&& final(self).spec_last_dimensions() == (w, h)
                &&& final(self).spec_title_area() == spec_layout(w, h).title
                &&& final(self).spec_status_area() == spec_layout(w, h).status
                &&& final(self).spec_input_area() == spec_layout(w, h).input
                &&& final(self).spec_hint_area() == spec_layout(w, h).hint
                &&& final(self).spec_table_view().spec_area() == spec_layout(w, h).table
            },
            final(self).spec_table_view().spec_scroll() == min(
                old(self).spec_table_view().spec_scroll(),
                final(self).spec_table_view().max_scroll(),
            ),
    {
        if w == self.last_dimensions.0 && h == self.last_dimensions.1 {
            return false;
        }
        self.last_dimensions = (w, h);
        let l = compute_layout(w, h);
        self.title_area = l.title;
        self.status_area = l.status;
        self.input_area = l.input;
        self.hint_area = l.hint;
        self.table_view.set_area(l.table);
        true
    }

    /// Scroll the table by whole lines; negative scrolls up, clamping
    /// silently.
    pub fn try_scroll_lines(&mut self, lines_count: i32)
        requires
            old(self).wf(),
        ensures
            final(self).wf(),
            final(self).spec_table_view().spec_scroll() == vstd::math::min(
                vstd::math::max(
                    old(self).spec_table_view().spec_scroll() + lines_count as int,
                    0,
                ),
                old(self).spec_table_view().max_scroll(),
            ),
            final(self).spec_table_view().spec_rows() == old(self).spec_table_view().spec_rows(),
            final(self).spec_table_view().spec_area() == old(self).spec_table_view().spec_area(),
            final(self).spec_table_view().spec_columns() == old(self).spec_table_view().spec_columns(),
            final(self).spec_table_view().spec_widths() == old(self).spec_table_view().spec_widths(),
            final(self).spec_title_area() == old(self).spec_title_area(),
            final(self).spec_status_area() == old(self).spec_status_area(),
            final(self).spec_input_area() == old(self).spec_input_area(),
            final(self).spec_hint_area() == old(self).spec_hint_area(),
            final(self).spec_last_dimensions() == old(self).spec_last_dimensions(),
            final(self).spec_status() == old(self).spec_status(),
            final(self).spec_title() == old(self).spec_title(),
    {
        self.table_view.try_scroll_lines(lines_count);
    }

    /// Scroll the table by whole pages; negative scrolls up, clamping
    /// silently.
    pub fn try_scroll_pages(&mut self, pages_count: i32)
        requires
            old(self).wf(),
        ensures
            final(self).wf(),
            final(self).spec_table_view().spec_scroll() == vstd::math::min(
                vstd::math::max(
                    old(self).spec_table_view().spec_scroll() + pages_count as int * old(self).spec_table_view().viewport_height(),
                    0,
                ),
                old(self).spec_table_view().max_scroll(),
            ),
            final(self).spec_table_view().spec_rows() == old(self).spec_table_view().spec_rows(),
            final(self).spec_table_view().spec_area() == old(self).spec_table_view().spec_area(),
            final(self).spec_table_view().spec_columns() == old(self).spec_table_view().spec_columns(),
            final(self).spec_table_view().spec_widths() == old(self).spec_table_view().spec_widths(),
            final(self).spec_title_area() == old(self).spec_title_area(),
            final(self).spec_status_area() == old(self).spec_status_area(),
            final(self).spec_input_area() == old(self).spec_input_area(),
            final(self).spec_hint_area() == old(self).spec_hint_area(),
            final(self).spec_last_dimensions() == old(self).spec_last_dimensions(),
            final(self).spec_status() == old(self).spec_status(),
            final(self).spec_title() == old(self).spec_title(),
    {
        self.table_view.try_scroll_pages(pages_count);
    }

    /// One refresh tick. Resize check, status adoption (never backward),
    /// row ingestion with sticky tail, and the render plan for every
    /// region: placeholder or live rows in the table region, the status
    /// line for the adopted status, an empty input line, and the hint
    /// line for the current phase.
    pub fn update_for(&mut self, w: u16, h: u16, table: &DepTable) -> (plan: RenderPlan)
        requires
            old(self).wf(),
        ensures
            final(self).wf(),
            final(self).spec_title() == old(self).spec_title(),
            final(self).spec_last_dimensions() == (w, h),
            final(self).spec_status() == spec_accept(
                old(self).spec_status(),
                table.computation_status,
            ),
            final(self).spec_table_view().spec_columns() == old(self).spec_table_view().spec_columns(),
            plan.cleared == ((w, h) != old(self).spec_last_dimensions()),
            plan.cleared ==> {
                &&& final(self).spec_title_area() == spec_layout(w, h).title
                &&& final(self).spec_status_area() == spec_layout(w, h).status
                &&& final(self).spec_input_area() == spec_layout(w, h).input
                &&& final(self).spec_hint_area() == spec_layout(w, h).hint
                &&& final(self).spec_table_view().spec_area() == spec_layout(w, h).table
            },
            !plan.cleared ==> {
                &&& final(self).spec_title_area() == old(self).spec_title_area()
                &&& final(self).spec_status_area() == old(self).spec_status_area()
                &&& final(self).spec_input_area() == old(self).spec_input_area()
                &&& final(self).spec_hint_area() == old(self).spec_hint_area()
                &&& final(self).spec_table_view().spec_area() == old(self).spec_table_view().spec_area()
            },
            plan.title_area == final(self).spec_title_area(),
            plan.table_area == final(self).spec_table_view().spec_area(),
            plan.status_area == final(self).spec_status_area(),
            plan.input_area == final(self).spec_input_area(),
            plan.hint_area == final(self).spec_hint_area(),
            plan.title_markup@ == spec_title_markup(old(self).spec_title()),
            plan.status_text@ == spec_status_text(final(self).spec_status()),
            plan.input_text@.len() == 0,
            plan.hint_text@ == spec_hint_text(final(self).spec_status() is New),
            final(self).spec_status() is New ==> {
                &&& plan.table is Placeholder
                &&& plan.table->Placeholder_0@ == spec_placeholder_text()
                &&& final(self).spec_table_view().spec_rows() == old(self).spec_table_view().spec_rows()
                &&& final(self).spec_table_view().spec_scroll() == min(
                    old(self).spec_table_view().spec_scroll(),
                    final(self).spec_table_view().max_scroll(),
                )
            },
            !(final(self).spec_status() is New) ==> {
                let len0 = old(self).spec_table_view().spec_rows().len() as int;
                let vh1 = final(self).spec_table_view().viewport_height();
                let m0 = max_scroll_of(len0, vh1);
                let s1 = min(old(self).spec_table_view().spec_scroll(), m0);
                &&& plan.table is Rows
                &&& final(self).spec_table_view().spec_rows() == old(self).spec_table_view().spec_rows() + table.deps@.skip(
                    min(len0, table.deps@.len() as int),
                )
                &&& (old(self).spec_table_view().spec_rows() == table.deps@.take(len0)
                    ==> final(self).spec_table_view().spec_rows() =~= if table.deps@.len() >= len0 {
                    table.deps@
                } else {
                    old(self).spec_table_view().spec_rows()
                })
                &&& final(self).spec_table_view().spec_scroll() == if s1 == m0 {
                    final(self).spec_table_view().max_scroll()
                } else {
                    s1
                }
                &&& ((!plan.cleared && old(self).spec_table_view().spec_at_bottom()) ==> final(self).spec_table_view().spec_at_bottom())
                &&& plan.table->Rows_0@.len() == min(
                    final(self).spec_table_view().spec_scroll() + vh1,
                    final(self).spec_table_view().spec_rows().len() as int,
                ) - final(self).spec_table_view().spec_scroll()
                &&& forall|i: int|
                    0 <= i < plan.table->Rows_0@.len() ==> #[trigger] plan.table->Rows_0@[i]@.len()
                        == final(self).spec_table_view().spec_columns().len()
                &&& forall|i: int, j: int|
                    0 <= i < plan.table->Rows_0@.len() && 0 <= j < final(self).spec_table_view().spec_columns().len() ==> final(self).spec_table_view().spec_rendered_cell_ok(
                        #[trigger] plan.table->Rows_0@[i]@[j],
                        final(self).spec_table_view().spec_scroll() + i,
                        j,
                    )
            },
    {
        let cleared = self.resize(w, h);
        self.status = accept_status(self.status, table.computation_status);
        let before = self.status.is_before_deps();
        let content = if before {
            TableContent::Placeholder(
                String::from_str("\n*preparing table... You may quit at any time with ctrl-q*"),
            )
        } else {
            self.table_view.ingest(&table.deps);
            TableContent::Rows(self.table_view.render_visible())
        };
        let mut title_markup = String::from_str("# ");
        title_markup.append(self.title.as_str());
        proof {
            assert(title_markup@ =~= spec_title_markup(self.title@));
        }
        let status_text = self.status.status_text();
        let hint = hint_text(before);
        RenderPlan {
            cleared,
            title_area: self.title_area,
            title_markup,
            table_area: self.table_view.area(),
            table: content,
            status_area: self.status_area,
            status_text,
            input_area: self.input_area,
            input_text: String::new(),
            hint_area: self.hint_area,
            hint_text: hint,
        }
    }
}

} // verus!
