use verify_screen::cells::ColumnKind;
use verify_screen::column::Alignment;
use verify_screen::column::Column;
use verify_screen::column::allocate_widths;
use verify_screen::column::fit_text;
use verify_screen::column::standard_columns;

fn col(min_width: u16, max_width: u16) -> Column {
    Column::new("c".to_string(), min_width, max_width, ColumnKind::CrateName)
}

#[test]
fn slack_distributes_left_to_right() {
    let cols = vec![col(2, 5), col(3, 3)];
    // Minimums sum to 5; slack 5. The first column absorbs 3 (up to its
    // maximum), the second has no headroom; 2 cells stay unused.
    assert_eq!(allocate_widths(&cols, 10), vec![5, 3]);
}

#[test]
fn slack_exhausts_midway() {
    let cols = vec![col(2, 10), col(2, 10), col(2, 10)];
    // Minimums sum to 6; slack 3, all absorbed by the first column.
    assert_eq!(allocate_widths(&cols, 9), vec![5, 2, 2]);
    // Slack 10: first column reaches its maximum, second takes the rest.
    assert_eq!(allocate_widths(&cols, 16), vec![10, 4, 2]);
}

#[test]
fn exact_fit_gives_minimums() {
    let cols = vec![col(4, 9), col(6, 9)];
    assert_eq!(allocate_widths(&cols, 10), vec![4, 6]);
}

#[test]
fn narrow_surface_hides_a_suffix_of_columns() {
    let cols = vec![col(4, 9), col(5, 9), col(6, 9)];
    // 4 + 5 fits in 10, adding 6 does not: the last column is hidden.
    assert_eq!(allocate_widths(&cols, 10), vec![4, 5, 0]);
    // Only the first minimum fits in 5.
    assert_eq!(allocate_widths(&cols, 5), vec![4, 0, 0]);
    // Nothing fits in 3.
    assert_eq!(allocate_widths(&cols, 3), vec![0, 0, 0]);
}

#[test]
fn zero_width_surface() {
    let cols = vec![col(0, 4), col(1, 4)];
    // A zero-minimum column still "fits" in a zero budget.
    assert_eq!(allocate_widths(&cols, 0), vec![0, 0]);
}

#[test]
fn fit_pads_per_alignment() {
    assert_eq!(fit_text("ab", 5, Alignment::Left), "ab   ");
    assert_eq!(fit_text("ab", 5, Alignment::Right), "   ab");
    // Centering keeps the extra space on the right.
    assert_eq!(fit_text("ab", 5, Alignment::Center), " ab  ");
    assert_eq!(fit_text("ab", 2, Alignment::Center), "ab");
}

#[test]
fn fit_truncates_without_marker() {
    assert_eq!(fit_text("abcdef", 3, Alignment::Left), "abc");
    assert_eq!(fit_text("abcdef", 3, Alignment::Right), "abc");
    assert_eq!(fit_text("abcdef", 0, Alignment::Center), "");
}

#[test]
fn standard_table_has_thirteen_columns() {
    let cols = standard_columns();
    assert_eq!(cols.len(), 13);
    assert_eq!(cols[0].name, "crate");
    assert_eq!(cols[0].min_width, 10);
    assert_eq!(cols[0].max_width, 80);
    assert_eq!(cols[0].align, Alignment::Left);
    assert_eq!(cols[1].name, "version");
    assert_eq!(cols[2].name, "trust");
    assert_eq!(cols[2].align, Alignment::Center);
    assert_eq!(cols[3].name, "last trusted");
    assert_eq!(cols[12].name, "l.o.c.");
    // The minimum widths sum to 71: an 80-cell surface leaves slack 9,
    // all absorbed by the crate column.
    let widths = allocate_widths(&cols, 80);
    assert_eq!(widths, vec![19, 9, 6, 12, 3, 3, 6, 6, 2, 3, 2, 3, 6]);
}
