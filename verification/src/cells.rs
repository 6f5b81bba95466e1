//! Rendering one row record into the styled cell of each column.
//!
//! Every column's content is a pure, total function of the row record:
//! fields that the background computation has not produced yet render as
//! a placeholder (`"?"` or the empty string), never as a failure. A cell
//! carries one tag of a small closed style palette; mapping tags to real
//! colors belongs to the drawing layer.
use vstd::prelude::*;
use vstd::string::StringExecFns;
use crate::dep::Dep;
use crate::dep::VerificationStatus;
use crate::magnitude::dec_chars;
use crate::magnitude::spec_u64_to_str;
use crate::magnitude::u64_to_dec;
use crate::magnitude::u64_to_str;

verus! {

/// The closed style palette of the table.
#[derive(Clone, Copy, PartialEq, Eq, Structural, Debug)]
pub enum CellStyle {
    Std,
    Bad,
    Medium,
    Good,
    Dim,
}

/// One rendered table cell: text plus a style tag.
pub struct Cell {
    pub text: String,
    pub style: CellStyle,
}

/// Which of the table's columns a cell belongs to.
#[derive(Clone, Copy, PartialEq, Eq, Structural, Debug)]
pub enum ColumnKind {
    CrateName,
    CrateVersion,
    Trust,
    LastTrusted,
    ReviewsOnVersion,
    ReviewsTotal,
    DownloadsOnVersion,
    DownloadsTotal,
    OwnersTrusted,
    OwnersTotal,
    IssuesTrusted,
    IssuesTotal,
    Loc,
}

/// The text a column shows for a row record.
pub open spec fn spec_cell_text(dep: Dep, k: ColumnKind) -> Seq<char> {
    match k {
        ColumnKind::CrateName => dep.name@,
        ColumnKind::CrateVersion => dep.version@,
        ColumnKind::Trust => match dep.computed {
            Some(c) => match c.trust {
                VerificationStatus::Verified => "high"@,
                VerificationStatus::Insufficient => "none"@,
                VerificationStatus::Negative => "NO"@,
            },
            None => "?"@,
        },
        ColumnKind::LastTrusted => match dep.computed {
            Some(c) => c.latest_trusted_version@,
            None => "?"@,
        },
        ColumnKind::ReviewsOnVersion => match dep.computed {
            Some(c) => spec_u64_to_str(c.reviews.version as nat),
            None => "?"@,
        },
        ColumnKind::ReviewsTotal => match dep.computed {
            Some(c) => spec_u64_to_str(c.reviews.total as nat),
            None => "?"@,
        },
        ColumnKind::DownloadsOnVersion => match dep.computed {
            Some(c) => match c.downloads {
                Some(d) => spec_u64_to_str(d.version as nat),
                None => Seq::empty(),
            },
            None => Seq::empty(),
        },
        ColumnKind::DownloadsTotal => match dep.computed {
            Some(c) => match c.downloads {
                Some(d) => spec_u64_to_str(d.total as nat),
                None => Seq::empty(),
            },
            None => Seq::empty(),
        },
        ColumnKind::OwnersTrusted => match dep.computed {
            Some(c) => match c.owners {
                Some(o) => if o.trusted > 0 { dec_chars(o.trusted as nat) } else { Seq::empty() },
                None => Seq::empty(),
            },
            None => Seq::empty(),
        },
        ColumnKind::OwnersTotal => match dep.computed {
            Some(c) => match c.owners {
                Some(o) => if o.total > 0 { dec_chars(o.total as nat) } else { Seq::empty() },
                None => Seq::empty(),
            },
            None => Seq::empty(),
        },
        ColumnKind::IssuesTrusted => match dep.computed {
            Some(c) => if c.issues.trusted > 0 { dec_chars(c.issues.trusted as nat) } else { Seq::empty() },
            None => Seq::empty(),
        },
        ColumnKind::IssuesTotal => match dep.computed {
            Some(c) => if c.issues.total > 0 { dec_chars(c.issues.total as nat) } else { Seq::empty() },
            None => Seq::empty(),
        },
        ColumnKind::Loc => match dep.computed {
            Some(c) => match c.loc {
                Some(loc) => spec_u64_to_str(loc as nat),
                None => Seq::empty(),
            },
            None => Seq::empty(),
        },
    }
}

/// The style tag a column uses for a row record.
pub open spec fn spec_cell_style(dep: Dep, k: ColumnKind) -> CellStyle {
    match k {
        ColumnKind::CrateName => CellStyle::Std,
        ColumnKind::CrateVersion => CellStyle::Std,
        ColumnKind::Trust => match dep.computed {
            Some(c) => match c.trust {
                VerificationStatus::Verified => CellStyle::Good,
                VerificationStatus::Insufficient => CellStyle::Dim,
                VerificationStatus::Negative => CellStyle::Bad,
            },
            None => CellStyle::Medium,
        },
        ColumnKind::LastTrusted => CellStyle::Std,
        ColumnKind::ReviewsOnVersion => CellStyle::Std,
        ColumnKind::ReviewsTotal => CellStyle::Std,
        ColumnKind::DownloadsOnVersion => match dep.computed {
            Some(c) => match c.downloads {
                Some(d) => if d.version < 1000 { CellStyle::Medium } else { CellStyle::Std },
                None => CellStyle::Std,
            },
            None => CellStyle::Std,
        },
        ColumnKind::DownloadsTotal => match dep.computed {
            Some(c) => match c.downloads {
                Some(d) => if d.total < 1000 { CellStyle::Medium } else { CellStyle::Std },
                None => CellStyle::Std,
            },
            None => CellStyle::Std,
        },
        ColumnKind::OwnersTrusted => match dep.computed {
            Some(c) => match c.owners {
                Some(o) => if o.trusted > 0 { CellStyle::Good } else { CellStyle::Std },
                None => CellStyle::Std,
            },
            None => CellStyle::Std,
        },
        ColumnKind::OwnersTotal => CellStyle::Std,
        ColumnKind::IssuesTrusted => match dep.computed {
            Some(c) => if c.issues.trusted > 0 { CellStyle::Bad } else { CellStyle::Std },
            None => CellStyle::Std,
        },
        ColumnKind::IssuesTotal => match dep.computed {
            Some(c) => if c.issues.total > 0 { CellStyle::Medium } else { CellStyle::Std },
            None => CellStyle::Std,
        },
        ColumnKind::Loc => CellStyle::Std,
    }
}

/// Render the cell of column `k` for the row record `dep`.
pub fn cell_for(dep: &Dep, k: ColumnKind) -> (c: Cell)
    ensures
        c.text@ == spec_cell_text(*dep, k),
        c.style == spec_cell_style(*dep, k),
{
    match k {
        ColumnKind::CrateName => Cell { text: self_text(&dep.name), style: CellStyle::Std },
        ColumnKind::CrateVersion => Cell { text: self_text(&dep.version), style: CellStyle::Std },
        ColumnKind::Trust => match &dep.computed {
            Some(c) => match c.trust {
                VerificationStatus::Verified => Cell {
                    text: String::from_str("high"),
                    style: CellStyle::Good,
                },
                VerificationStatus::Insufficient => Cell {
                    text: String::from_str("none"),
                    style: CellStyle::Dim,
                },
                VerificationStatus::Negative => Cell {
                    text: String::from_str("NO"),
                    style: CellStyle::Bad,
                },
            },
            None => Cell { text: String::from_str("?"), style: CellStyle::Medium },
        },
        ColumnKind::LastTrusted => match &dep.computed {
            Some(c) => Cell { text: self_text(&c.latest_trusted_version), style: CellStyle::Std },
            None => Cell { text: String::from_str("?"), style: CellStyle::Std },
        },
        ColumnKind::ReviewsOnVersion => match &dep.computed {
            Some(c) => Cell { text: u64_to_str(c.reviews.version), style: CellStyle::Std },
            None => Cell { text: String::from_str("?"), style: CellStyle::Std },
        },
        ColumnKind::ReviewsTotal => match &dep.computed {
            Some(c) => Cell { text: u64_to_str(c.reviews.total), style: CellStyle::Std },
            None => Cell { text: String::from_str("?"), style: CellStyle::Std },
        },
        ColumnKind::DownloadsOnVersion => match &dep.computed {
            Some(c) => match c.downloads {
                Some(d) => Cell {
                    text: u64_to_str(d.version),
                    style: if d.version < 1000 { CellStyle::Medium } else { CellStyle::Std },
                },
                None => Cell { text: String::new(), style: CellStyle::Std },
            },
            None => Cell { text: String::new(), style: CellStyle::Std },
        },
        ColumnKind::DownloadsTotal => match &dep.computed {
            Some(c) => match c.downloads {
                Some(d) => Cell {
                    text: u64_to_str(d.total),
                    style: if d.total < 1000 { CellStyle::Medium } else { CellStyle::Std },
                },
                None => Cell { text: String::new(), style: CellStyle::Std },
            },
            None => Cell { text: String::new(), style: CellStyle::Std },
        },
        ColumnKind::OwnersTrusted => match &dep.computed {
            Some(c) => match c.owners {
                Some(o) => if o.trusted > 0 {
                    Cell { text: u64_to_dec(o.trusted), style: CellStyle::Good }
                } else {
                    Cell { text: String::new(), style: CellStyle::Std }
                },
                None => Cell { text: String::new(), style: CellStyle::Std },
            },
            None => Cell { text: String::new(), style: CellStyle::Std },
        },
        ColumnKind::OwnersTotal => match &dep.computed {
            Some(c) => match c.owners {
                Some(o) => if o.total > 0 {
                    Cell { text: u64_to_dec(o.total), style: CellStyle::Std }
                } else {
                    Cell { text: String::new(), style: CellStyle::Std }
                },
                None => Cell { text: String::new(), style: CellStyle::Std },
            },
            None => Cell { text: String::new(), style: CellStyle::Std },
        },
        ColumnKind::IssuesTrusted => match &dep.computed {
            Some(c) => if c.issues.trusted > 0 {
                Cell { text: u64_to_dec(c.issues.trusted), style: CellStyle::Bad }
            } else {
                Cell { text: String::new(), style: CellStyle::Std }
            },
            None => Cell { text: String::new(), style: CellStyle::Std },
        },
        ColumnKind::IssuesTotal => match &dep.computed {
            Some(c) => if c.issues.total > 0 {
                Cell { text: u64_to_dec(c.issues.total), style: CellStyle::Medium }
            } else {
                Cell { text: String::new(), style: CellStyle::Std }
            },
            None => Cell { text: String::new(), style: CellStyle::Std },
        },
        ColumnKind::Loc => match &dep.computed {
            Some(c) => match c.loc {
                Some(loc) => Cell { text: u64_to_str(loc), style: CellStyle::Std },
                None => Cell { text: String::new(), style: CellStyle::Std },
            },
            None => Cell { text: String::new(), style: CellStyle::Std },
        },
    }
}

/// An owned copy of a row record's own text field.
fn self_text(s: &String) -> (r: String)
    ensures
        r@ == s@,
{
    s.clone()
}

} // verus!
