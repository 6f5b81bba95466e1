//! The column model: width bounds, alignment, horizontal space
//! allocation, and fitting of cell text into an allocated width.
//!
//! Width allocation is deterministic and left-biased. When the available
//! width covers every minimum, the leftover slack is poured into the
//! columns in order, each absorbing up to its own headroom; any slack
//! that no column can absorb stays unused. When even the minimums do not
//! fit, the columns whose cumulative minimum still fits get exactly their
//! minimum and every later column is hidden with width zero.
use vstd::prelude::*;
use vstd::math::min;
use vstd::string::StrSliceExecFns;
use vstd::string::StringExecFns;
use crate::cells::ColumnKind;

verus! {

/// Horizontal alignment of cell text inside its allocated width.
#[derive(Clone, Copy, PartialEq, Eq, Structural, Debug)]
pub enum Alignment {
    Left,
    Center,
    Right,
}

/// One column: a header name, width bounds, an alignment and the kind
/// that selects what it shows of a row record.
pub struct Column {
    pub name: String,
    pub min_width: u16,
    pub max_width: u16,
    pub align: Alignment,
    pub kind: ColumnKind,
}

impl Column {
    /// A column's width bounds must be ordered.
    pub open spec fn wf(&self) -> bool {
        self.min_width <= self.max_width
    }

    /// A new column with the default (centered) alignment.
    pub fn new(name: String, min_width: u16, max_width: u16, kind: ColumnKind) -> (c: Column)
        requires
            min_width <= max_width,
        ensures
            c.wf(),
            c.name == name,
            c.min_width == min_width,
            c.max_width == max_width,
            c.align == Alignment::Center,
            c.kind == kind,
    {
        Column { name, min_width, max_width, align: Alignment::Center, kind }
    }

    /// The same column with another alignment.
    pub fn with_align(self, align: Alignment) -> (c: Column)
        ensures
            c == (Column { align, ..self }),
    {
        Column { align, ..self }
    }
}

/// Every column's width bounds are ordered.
pub open spec fn cols_wf(cols: Seq<Column>) -> bool {
    forall|i: int| 0 <= i < cols.len() ==> #[trigger] cols[i].wf()
}

/// Sum of the first `n` minimum widths.
pub open spec fn min_prefix_sum(cols: Seq<Column>, n: int) -> int
    decreases n,
{
    if n <= 0 {
        0
    } else {
        min_prefix_sum(cols, n - 1) + cols[n - 1].min_width
    }
}

/// Slack still undistributed when allocation reaches column `i`, having
/// started with `slack` and filled every earlier column up to its
/// headroom.
pub open spec fn rem_slack(cols: Seq<Column>, slack: int, i: int) -> int
    decreases i,
{
    if i <= 0 {
        slack
    } else {
        let r = rem_slack(cols, slack, i - 1);
        r - min(cols[i - 1].max_width - cols[i - 1].min_width, r)
    }
}

/// The width allocated to column `i` out of `avail` cells.
pub open spec fn spec_col_width(cols: Seq<Column>, avail: int, i: int) -> int {
    if min_prefix_sum(cols, cols.len() as int) <= avail {
        cols[i].min_width + min(
            cols[i].max_width - cols[i].min_width,
            rem_slack(cols, avail - min_prefix_sum(cols, cols.len() as int), i),
        )
    } else {
        if min_prefix_sum(cols, i + 1) <= avail {
            cols[i].min_width as int
        } else {
            0
        }
    }
}

/// Sum of the widths allocated to the first `n` columns.
pub open spec fn alloc_prefix_sum(cols: Seq<Column>, avail: int, n: int) -> int
    decreases n,
{
    if n <= 0 {
        0
    } else {
        alloc_prefix_sum(cols, avail, n - 1) + spec_col_width(cols, avail, n - 1)
    }
}

/// Distribute `available` cells of width over the columns.
pub fn allocate_widths(cols: &Vec<Column>, available: u16) -> (w: Vec<u16>)
    requires
        cols_wf(cols@),
    ensures
        w@.len() == cols@.len(),
        forall|i: int|
            0 <= i < cols@.len() ==> #[trigger] w@[i] as int == spec_col_width(
                cols@,
                available as int,
                i,
            ),
{
    let n = cols.len();
    let mut sum: u16 = 0;
    let mut k: usize = 0;
    while k < n && cols[k].min_width <= available - sum
        invariant
            n == cols@.len(),
            cols_wf(cols@),
            k <= n,
            sum <= available,
            sum as int == min_prefix_sum(cols@, k as int),
        decreases n - k,
    {
        sum = sum + cols[k].min_width;
        k = k + 1;
    }
    let mut w: Vec<u16> = Vec::new();
    if k < n {
        // Even the minimums do not fit: a prefix gets its minimum, the rest
        // is hidden.
        let mut i: usize = 0;
        while i < n
            invariant
                n == cols@.len(),
                cols_wf(cols@),
                k < n,
                i <= n,
                sum <= available,
                sum as int == min_prefix_sum(cols@, k as int),
                min_prefix_sum(cols@, k as int + 1) > available,
                w@.len() == i,
                forall|j: int|
                    0 <= j < i ==> #[trigger] w@[j] as int == spec_col_width(
                        cols@,
                        available as int,
                        j,
                    ),
            decreases n - i,
        {
            proof {
                lemma_min_prefix_sum_monotone(cols@, k as int + 1, cols@.len() as int);
                if i < k {
                    lemma_min_prefix_sum_monotone(cols@, i as int + 1, k as int);
                } else {
                    lemma_min_prefix_sum_monotone(cols@, k as int + 1, i as int + 1);
                }
            }
            if i < k {
                w.push(cols[i].min_width);
            } else {
                w.push(0u16);
            }
            i = i + 1;
        }
        w
    } else {
        let slack: u16 = available - sum;
        let mut rem: u16 = slack;
        let mut i: usize = 0;
        while i < n
            invariant
                n == cols@.len(),
                cols_wf(cols@),
                i <= n,
                w@.len() == i,
                rem <= slack,
                rem as int == rem_slack(cols@, slack as int, i as int),
                min_prefix_sum(cols@, n as int) + slack == available,
                forall|j: int|
                    0 <= j < i ==> #[trigger] w@[j] as int == spec_col_width(
                        cols@,
                        available as int,
                        j,
                    ),
            decreases n - i,
        {
            proof {
                assert(cols@[i as int].wf());
            }
            let gap = cols[i].max_width - cols[i].min_width;
            let take = if gap < rem { gap } else { rem };
            w.push(cols[i].min_width + take);
            rem = rem - take;
            i = i + 1;
        }
        w
    }
}

/// Prefix sums of minimum widths never decrease.
proof fn lemma_min_prefix_sum_monotone(cols: Seq<Column>, a: int, b: int)
    requires
        0 <= a <= b <= cols.len(),
    ensures
        min_prefix_sum(cols, a) <= min_prefix_sum(cols, b),
    decreases b - a,
{
    if a < b {
        lemma_min_prefix_sum_monotone(cols, a, b - 1);
    }
}

/// The undistributed slack never leaves `[0, slack]`.
proof fn lemma_rem_slack_bounds(cols: Seq<Column>, slack: int, i: int)
    requires
        cols_wf(cols),
        slack >= 0,
        0 <= i <= cols.len(),
    ensures
        0 <= rem_slack(cols, slack, i) <= slack,
    decreases i,
{
    if i > 0 {
        lemma_rem_slack_bounds(cols, slack, i - 1);
        assert(cols[i - 1].wf());
    }
}

/// The allocated widths of the first `n` columns sum to their minimums
/// plus the slack absorbed so far.
proof fn lemma_alloc_sum(cols: Seq<Column>, avail: int, n: int)
    requires
        cols_wf(cols),
        min_prefix_sum(cols, cols.len() as int) <= avail,
        0 <= n <= cols.len(),
    ensures
        alloc_prefix_sum(cols, avail, n) == min_prefix_sum(cols, n) + (avail - min_prefix_sum(
            cols,
            cols.len() as int,
        )) - rem_slack(cols, avail - min_prefix_sum(cols, cols.len() as int), n),
    decreases n,
{
    if n > 0 {
        lemma_alloc_sum(cols, avail, n - 1);
        assert(cols[n - 1].wf());
    }
}

/// Law of width allocation, roomy case: when the available width covers
/// every minimum, each column is allocated a width between its minimum
/// and its maximum, and the allocated widths sum to at most the
/// available width.
pub proof fn lemma_width_allocation_fits(cols: Seq<Column>, avail: int)
    requires
        cols_wf(cols),
        min_prefix_sum(cols, cols.len() as int) <= avail,
    ensures
        forall|i: int|
            0 <= i < cols.len() ==> cols[i].min_width <= #[trigger] spec_col_width(cols, avail, i)
                <= cols[i].max_width,
        alloc_prefix_sum(cols, avail, cols.len() as int) <= avail,
{
    let slack = avail - min_prefix_sum(cols, cols.len() as int);
    assert(min_prefix_sum(cols, 0) == 0);
    lemma_min_prefix_sum_monotone(cols, 0, cols.len() as int);
    assert forall|i: int| 0 <= i < cols.len() implies cols[i].min_width
        <= #[trigger] spec_col_width(cols, avail, i) <= cols[i].max_width by {
        lemma_rem_slack_bounds(cols, slack, i);
        assert(cols[i].wf());
    }
    lemma_alloc_sum(cols, avail, cols.len() as int);
    lemma_rem_slack_bounds(cols, slack, cols.len() as int);
}

/// Finds the boundary where the cumulative minimum stops fitting.
proof fn lemma_find_boundary(cols: Seq<Column>, avail: int, n: int)
    requires
        0 <= avail,
        0 <= n <= cols.len(),
        min_prefix_sum(cols, n) > avail,
    ensures
        exists|k: int|
            0 <= k < n && min_prefix_sum(cols, k) <= avail && #[trigger] min_prefix_sum(
                cols,
                k + 1,
            ) > avail,
    decreases n,
{
    if min_prefix_sum(cols, n - 1) <= avail {
        assert(min_prefix_sum(cols, (n - 1) + 1) > avail);
    } else {
        lemma_find_boundary(cols, avail, n - 1);
    }
}

/// Law of width allocation, narrow case: when even the minimums do not
/// fit, there is a boundary index; every column before it is allocated
/// exactly its minimum, it and every column after it are hidden with
/// width zero, and the boundary is the largest prefix whose cumulative
/// minimum still fits.
pub proof fn lemma_width_allocation_narrow(cols: Seq<Column>, avail: int)
    requires
        cols_wf(cols),
        0 <= avail,
        min_prefix_sum(cols, cols.len() as int) > avail,
    ensures
        exists|k: int|
            0 <= k < cols.len() && min_prefix_sum(cols, k) <= avail && #[trigger] min_prefix_sum(
                cols,
                k + 1,
            ) > avail && (forall|i: int|
                0 <= i < k ==> #[trigger] spec_col_width(cols, avail, i) == cols[i].min_width) && (
            forall|i: int|
                k <= i < cols.len() ==> #[trigger] spec_col_width(cols, avail, i) == 0),
{
    lemma_find_boundary(cols, avail, cols.len() as int);
    let k = choose|k: int|
        0 <= k < cols.len() && min_prefix_sum(cols, k) <= avail && #[trigger] min_prefix_sum(
            cols,
            k + 1,
        ) > avail;
    assert forall|i: int| 0 <= i < k implies #[trigger] spec_col_width(cols, avail, i)
        == cols[i].min_width by {
        lemma_min_prefix_sum_monotone(cols, i + 1, k);
    }
    assert forall|i: int| k <= i < cols.len() implies #[trigger] spec_col_width(cols, avail, i)
        == 0 by {
        lemma_min_prefix_sum_monotone(cols, k + 1, i + 1);
    }
}

/// `n` spaces (empty when `n` is negative).
pub open spec fn spaces(n: int) -> Seq<char> {
    Seq::new(if n >= 0 { n as nat } else { 0 }, |i: int| ' ')
}

/// Cell text fitted into `w` cells: truncated without a marker when too
/// long, otherwise padded per the alignment, a centered text keeping the
/// extra space on the right.
pub open spec fn spec_fit(t: Seq<char>, w: int, a: Alignment) -> Seq<char>
    recommends
        w >= 0,
{
    if t.len() >= w {
        t.take(w)
    } else {
        match a {
            Alignment::Left => t + spaces(w - t.len()),
            Alignment::Right => spaces(w - t.len()) + t,
            Alignment::Center => spaces((w - t.len()) / 2) + t + spaces(
                (w - t.len()) - (w - t.len()) / 2,
            ),
        }
    }
}

fn spaces_string(n: usize) -> (r: String)
    ensures
        r@ == spaces(n as int),
{
    let mut r = String::new();
    let mut i: usize = 0;
    while i < n
        invariant
            i <= n,
            r@ == spaces(i as int),
        decreases n - i,
    {
        r.append(" ");
        proof {
            reveal_strlit(" ");
            assert(r@ =~= spaces(i as int + 1));
        }
        i = i + 1;
    }
    r
}

/// Fit `text` into exactly `width` cells per the alignment.
pub fn fit_text(text: &str, width: u16, align: Alignment) -> (r: String)
    ensures
        r@ == spec_fit(text@, width as int, align),
        r@.len() == width as int,
{
    let len = text.unicode_len();
    let w = width as usize;
    if len >= w {
        let sub = text.substring_char(0, w);
        let r = String::from_str(sub);
        proof {
            assert(r@ =~= spec_fit(text@, width as int, align));
        }
        r
    } else {
        let pad = w - len;
        match align {
            Alignment::Left => {
                let mut r = String::from_str(text);
                let sp = spaces_string(pad);
                r.append(sp.as_str());
                r
            },
            Alignment::Right => {
                let mut r = spaces_string(pad);
                r.append(text);
                r
            },
            Alignment::Center => {
                let left = pad / 2;
                let mut r = spaces_string(left);
                r.append(text);
                let sp = spaces_string(pad - left);
                r.append(sp.as_str());
                r
            },
        }
    }
}

/// Which column stands at position `i` of the standard table.
pub open spec fn is_standard_column(c: Column, i: int) -> bool {
    if i == 0 {
        c.name@ == "crate"@ && c.min_width == 10 && c.max_width == 80 && c.align
            == Alignment::Left && c.kind == ColumnKind::CrateName
    } else if i == 1 {
        c.name@ == "version"@ && c.min_width == 9 && c.max_width == 13 && c.align
            == Alignment::Right && c.kind == ColumnKind::CrateVersion
    } else if i == 2 {
        c.name@ == "trust"@ && c.min_width == 6 && c.max_width == 6 && c.align
            == Alignment::Center && c.kind == ColumnKind::Trust
    } else if i == 3 {
        c.name@ == "last trusted"@ && c.min_width == 12 && c.max_width == 16 && c.align
            == Alignment::Right && c.kind == ColumnKind::LastTrusted
    } else if i == 4 {
        c.name@ == "reviews"@ && c.min_width == 3 && c.max_width == 3 && c.align
            == Alignment::Center && c.kind == ColumnKind::ReviewsOnVersion
    } else if i == 5 {
        c.name@ == "reviews"@ && c.min_width == 3 && c.max_width == 3 && c.align
            == Alignment::Center && c.kind == ColumnKind::ReviewsTotal
    } else if i == 6 {
        c.name@ == "downloads"@ && c.min_width == 6 && c.max_width == 6 && c.align
            == Alignment::Right && c.kind == ColumnKind::DownloadsOnVersion
    } else if i == 7 {
        c.name@ == "downloads"@ && c.min_width == 6 && c.max_width == 6 && c.align
            == Alignment::Right && c.kind == ColumnKind::DownloadsTotal
    } else if i == 8 {
        c.name@ == "owners"@ && c.min_width == 2 && c.max_width == 2 && c.align
            == Alignment::Right && c.kind == ColumnKind::OwnersTrusted
    } else if i == 9 {
        c.name@ == "owners"@ && c.min_width == 3 && c.max_width == 3 && c.align
            == Alignment::Right && c.kind == ColumnKind::OwnersTotal
    } else if i == 10 {
        c.name@ == "issues"@ && c.min_width == 2 && c.max_width == 2 && c.align
            == Alignment::Right && c.kind == ColumnKind::IssuesTrusted
    } else if i == 11 {
        c.name@ == "issues"@ && c.min_width == 3 && c.max_width == 3 && c.align
            == Alignment::Right && c.kind == ColumnKind::IssuesTotal
    } else if i == 12 {
        c.name@ == "l.o.c."@ && c.min_width == 6 && c.max_width == 6 && c.align
            == Alignment::Right && c.kind == ColumnKind::Loc
    } else {
        false
    }
}

/// The standard column set of the dependency table, in display order.
pub fn standard_columns() -> (cols: Vec<Column>)
    ensures
        cols@.len() == 13,
        cols_wf(cols@),
        forall|i: int| 0 <= i < 13 ==> is_standard_column(#[trigger] cols@[i], i),
{
    let mut cols: Vec<Column> = Vec::new();
    cols.push(
        Column::new(String::from_str("crate"), 10, 80, ColumnKind::CrateName).with_align(
            Alignment::Left,
        ),
    );
    cols.push(
        Column::new(String::from_str("version"), 9, 13, ColumnKind::CrateVersion).with_align(
            Alignment::Right,
        ),
    );
    cols.push(Column::new(String::from_str("trust"), 6, 6, ColumnKind::Trust));
    cols.push(
        Column::new(String::from_str("last trusted"), 12, 16, ColumnKind::LastTrusted).with_align(
            Alignment::Right,
        ),
    );
    cols.push(
        Column::new(String::from_str("reviews"), 3, 3, ColumnKind::ReviewsOnVersion).with_align(
            Alignment::Center,
        ),
    );
    cols.push(
        Column::new(String::from_str("reviews"), 3, 3, ColumnKind::ReviewsTotal).with_align(
            Alignment::Center,
        ),
    );
    cols.push(
        Column::new(String::from_str("downloads"), 6, 6, ColumnKind::DownloadsOnVersion)
            .with_align(Alignment::Right),
    );
    cols.push(
        Column::new(String::from_str("downloads"), 6, 6, ColumnKind::DownloadsTotal).with_align(
            Alignment::Right,
        ),
    );
    cols.push(
        Column::new(String::from_str("owners"), 2, 2, ColumnKind::OwnersTrusted).with_align(
            Alignment::Right,
        ),
    );
    cols.push(
        Column::new(String::from_str("owners"), 3, 3, ColumnKind::OwnersTotal).with_align(
            Alignment::Right,
        ),
    );
    cols.push(
        Column::new(String::from_str("issues"), 2, 2, ColumnKind::IssuesTrusted).with_align(
            Alignment::Right,
        ),
    );
    cols.push(
        Column::new(String::from_str("issues"), 3, 3, ColumnKind::IssuesTotal).with_align(
            Alignment::Right,
        ),
    );
    cols.push(
        Column::new(String::from_str("l.o.c."), 6, 6, ColumnKind::Loc).with_align(Alignment::Right),
    );
    cols
}

} // verus!
