//! Partitioning of the terminal surface into the viewer's regions.
//!
//! The chrome budget is fixed: one title row at the top and four rows
//! reserved at the bottom (status, input/hint, and one spare). The table
//! fills everything between. Below the minimum budget of five rows the
//! affected regions collapse to zero area, which is legal and simply
//! hides them.
use vstd::prelude::*;

verus! {

/// A rectangular region of the terminal surface. Zero area is legal and
/// means the region is hidden.
#[derive(Clone, Copy, PartialEq, Eq, Structural, Debug)]
pub struct Region {
    pub left: u16,
    pub top: u16,
    pub width: u16,
    pub height: u16,
}

impl Region {
    pub fn new(left: u16, top: u16, width: u16, height: u16) -> (r: Region)
        ensures
            r == (Region { left, top, width, height }),
    {
        Region { left, top, width, height }
    }
}

/// The named regions of the viewer, top to bottom.
#[derive(Clone, Copy, PartialEq, Eq, Structural, Debug)]
pub struct ScreenLayout {
    pub title: Region,
    pub table: Region,
    pub status: Region,
    pub input: Region,
    pub hint: Region,
}

/// The region assignment for a surface of `w` by `h` cells.
pub open spec fn spec_layout(w: u16, h: u16) -> ScreenLayout {
    ScreenLayout {
        title: Region {
            left: 0,
            top: 0,
            width: w,
            height: if h >= 1 { 1u16 } else { 0u16 },
        },
        table: Region {
            left: 0,
            top: 1,
            width: w,
            height: if h >= 5 { (h - 4) as u16 } else { 0u16 },
        },
        status: Region {
            left: 0,
            top: if h >= 3 { (h - 3) as u16 } else { 0u16 },
            width: w,
            height: if h >= 5 { 1u16 } else { 0u16 },
        },
        input: Region {
            left: 0,
            top: if h >= 2 { (h - 2) as u16 } else { 0u16 },
            width: (w / 2) as u16,
            height: if h >= 5 { 1u16 } else { 0u16 },
        },
        hint: Region {
            left: (w / 2) as u16,
            top: if h >= 2 { (h - 2) as u16 } else { 0u16 },
            width: (w - w / 2) as u16,
            height: if h >= 5 { 1u16 } else { 0u16 },
        },
    }
}

/// Compute the regions for a surface of `w` by `h` cells.
///
/// For any surface at least five rows tall, the table gets everything
/// but the four chrome rows, and the input and hint regions split the
/// bottom row exactly.
pub fn compute_layout(w: u16, h: u16) -> (r: ScreenLayout)
    ensures
        r == spec_layout(w, h),
        h >= 5 ==> r.table.height + 4 == h,
        r.input.width + r.hint.width == w,
        r.hint.left == r.input.width,
{
    let title = Region { left: 0, top: 0, width: w, height: if h >= 1 { 1 } else { 0 } };
    let table = Region { left: 0, top: 1, width: w, height: if h >= 5 { h - 4 } else { 0 } };
    let status = Region {
        left: 0,
        top: if h >= 3 { h - 3 } else { 0 },
        width: w,
        height: if h >= 5 { 1 } else { 0 },
    };
    let input = Region {
        left: 0,
        top: if h >= 2 { h - 2 } else { 0 },
        width: w / 2,
        height: if h >= 5 { 1 } else { 0 },
    };
    let hint = Region {
        left: w / 2,
        top: if h >= 2 { h - 2 } else { 0 },
        width: w - w / 2,
        height: if h >= 5 { 1 } else { 0 },
    };
    ScreenLayout { title, table, status, input, hint }
}

} // verus!
