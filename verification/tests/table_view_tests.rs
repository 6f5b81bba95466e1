use verify_screen::cells::ColumnKind;
use verify_screen::column::Alignment;
use verify_screen::column::Column;
use verify_screen::dep::Dep;
use verify_screen::layout::Region;
use verify_screen::table_view::TableView;

fn dep(name: &str) -> Dep {
    Dep { name: name.to_string(), version: "1.0.0".to_string(), computed: None }
}

fn deps(n: usize) -> Vec<Dep> {
    (0..n).map(|i| dep(&format!("crate{i}"))).collect()
}

fn small_view(viewport_height: u16) -> TableView {
    let columns = vec![
        Column::new("crate".to_string(), 4, 10, ColumnKind::CrateName)
            .with_align(Alignment::Left),
    ];
    TableView::new(Region { left: 0, top: 1, width: 10, height: viewport_height }, columns)
}

#[test]
fn empty_view_is_at_bottom() {
    let t = small_view(5);
    assert_eq!(t.row_count(), 0);
    assert!(t.is_at_bottom());
    assert_eq!(t.visible_slice(), (0, 0));
}

#[test]
fn appending_does_not_move_the_offset() {
    let mut t = small_view(3);
    for d in deps(10) {
        t.add_row(d);
    }
    assert_eq!(t.row_count(), 10);
    // The offset stayed at 0, so the view is no longer at the bottom.
    assert!(!t.is_at_bottom());
    assert_eq!(t.visible_slice(), (0, 3));
}

#[test]
fn scroll_clamps_at_both_ends() {
    let mut t = small_view(3);
    for d in deps(10) {
        t.add_row(d);
    }
    // Max offset is 10 - 3 = 7.
    t.try_scroll_lines(100);
    assert_eq!(t.visible_slice(), (7, 10));
    assert!(t.is_at_bottom());
    t.try_scroll_lines(-2);
    assert_eq!(t.visible_slice(), (5, 8));
    t.try_scroll_lines(-100);
    assert_eq!(t.visible_slice(), (0, 3));
    t.try_scroll_lines(-1);
    assert_eq!(t.visible_slice(), (0, 3));
}

#[test]
fn page_scroll_moves_by_viewport_height() {
    let mut t = small_view(3);
    for d in deps(10) {
        t.add_row(d);
    }
    t.try_scroll_pages(1);
    assert_eq!(t.visible_slice(), (3, 6));
    t.try_scroll_pages(1);
    assert_eq!(t.visible_slice(), (6, 9));
    t.try_scroll_pages(1);
    assert_eq!(t.visible_slice(), (7, 10));
    t.try_scroll_pages(-2);
    assert_eq!(t.visible_slice(), (1, 4));
    t.try_scroll_pages(-1);
    assert_eq!(t.visible_slice(), (0, 3));
}

#[test]
fn shrinking_viewport_pulls_offset_back() {
    let mut t = small_view(8);
    for d in deps(10) {
        t.add_row(d);
    }
    t.try_scroll_lines(2);
    assert!(t.is_at_bottom());
    // Growing the viewport to cover everything clamps the offset to 0.
    t.set_area(Region { left: 0, top: 1, width: 10, height: 12 });
    assert_eq!(t.visible_slice(), (0, 10));
    // Shrinking it again leaves the offset at 0, now not at the bottom.
    t.set_area(Region { left: 0, top: 1, width: 10, height: 4 });
    assert_eq!(t.visible_slice(), (0, 4));
    assert!(!t.is_at_bottom());
}

#[test]
fn ingest_follows_the_tail_only_when_pinned() {
    let mut t = small_view(4);
    t.ingest(&deps(6));
    // Was at the bottom (empty view), so it follows: offset 6 - 4 = 2.
    assert_eq!(t.row_count(), 6);
    assert!(t.is_at_bottom());
    assert_eq!(t.visible_slice(), (2, 6));
    // Scroll away, then ingest more: the view stays put.
    t.try_scroll_lines(-2);
    t.ingest(&deps(9));
    assert_eq!(t.row_count(), 9);
    assert_eq!(t.visible_slice(), (0, 4));
    assert!(!t.is_at_bottom());
    // Back to the bottom: the next ingest follows again.
    t.scroll_to_bottom();
    t.ingest(&deps(12));
    assert!(t.is_at_bottom());
    assert_eq!(t.visible_slice(), (8, 12));
}

#[test]
fn viewport_height_change_reclamps() {
    let mut t = small_view(3);
    for d in deps(10) {
        t.add_row(d);
    }
    t.scroll_to_bottom();
    assert_eq!(t.visible_slice(), (7, 10));
    // A taller viewport lowers the maximum offset: 10 - 8 = 2.
    t.set_viewport_height(8);
    assert_eq!(t.visible_slice(), (2, 10));
    assert!(t.is_at_bottom());
    // A shorter one leaves the offset where it is.
    t.set_viewport_height(4);
    assert_eq!(t.visible_slice(), (2, 6));
    assert!(!t.is_at_bottom());
}

#[test]
fn ingest_takes_only_the_new_rows() {
    let mut t = small_view(4);
    let source = deps(6);
    t.ingest(&source);
    t.ingest(&source);
    assert_eq!(t.row_count(), 6);
}
