use verify_screen::cells::CellStyle;
use verify_screen::dep::ComputedDep;
use verify_screen::dep::Dep;
use verify_screen::dep::TrustedCounts;
use verify_screen::dep::VerificationStatus;
use verify_screen::dep::VersionCounts;
use verify_screen::screen::DepTable;
use verify_screen::screen::TableContent;
use verify_screen::screen::VerifyScreen;
use verify_screen::status::Progress;
use verify_screen::status::TableComputationStatus;

fn dep(name: &str) -> Dep {
    Dep { name: name.to_string(), version: "1.0.0".to_string(), computed: None }
}

fn deps(n: usize) -> Vec<Dep> {
    (0..n).map(|i| dep(&format!("crate{i}"))).collect()
}

fn geiger(done: u64, total: u64) -> TableComputationStatus {
    TableComputationStatus::ComputingGeiger { progress: Progress { done, total } }
}

#[test]
fn end_to_end_scenario() {
    let mut screen = VerifyScreen::new("demo".to_string());

    // Surface 80x24: the table region is 20 rows tall. While the status
    // is New, appended rows are not ingested and the table shows the
    // placeholder.
    let table = DepTable { deps: deps(15), computation_status: TableComputationStatus::New };
    let plan = screen.update_for(80, 24, &table);
    assert!(plan.cleared);
    assert_eq!(plan.table_area.height, 20);
    assert!(matches!(plan.table, TableContent::Placeholder(_)));
    assert_eq!(screen.table().row_count(), 0);
    assert_eq!(plan.hint_text, "Hit *ctrl-q* to quit");

    // The first phase begins: the table switches to live rows.
    let table = DepTable { deps: deps(15), computation_status: geiger(0, 15) };
    let plan = screen.update_for(80, 24, &table);
    assert!(!plan.cleared);
    assert_eq!(plan.status_text, "Computing Geiger : *0* / 15");
    assert_eq!(
        plan.hint_text,
        "Hit *ctrl-q* to quit, *PageUp* or *PageDown* to scroll"
    );
    match &plan.table {
        TableContent::Rows(rows) => assert_eq!(rows.len(), 15),
        TableContent::Placeholder(_) => panic!("expected live rows"),
    }
    assert_eq!(screen.table().row_count(), 15);
    assert!(screen.table().is_at_bottom());

    // Ten more rows arrive while the view is at the bottom: the offset
    // recomputes to 25 - 20 = 5 and the bottom rows are visible.
    let table = DepTable { deps: deps(25), computation_status: geiger(10, 15) };
    let plan = screen.update_for(80, 24, &table);
    assert_eq!(screen.table().row_count(), 25);
    assert_eq!(screen.table().visible_slice(), (5, 25));
    assert!(screen.table().is_at_bottom());
    match &plan.table {
        TableContent::Rows(rows) => assert_eq!(rows.len(), 20),
        TableContent::Placeholder(_) => panic!("expected live rows"),
    }

    // The user scrolls up past the top: the offset clamps to 0 and the
    // view is no longer at the bottom.
    screen.try_scroll_lines(-5);
    screen.try_scroll_lines(-100);
    assert_eq!(screen.table().visible_slice(), (0, 20));
    assert!(!screen.table().is_at_bottom());

    // A subsequent append does not move the offset.
    let table = DepTable { deps: deps(30), computation_status: geiger(15, 15) };
    screen.update_for(80, 24, &table);
    assert_eq!(screen.table().row_count(), 30);
    assert_eq!(screen.table().visible_slice(), (0, 20));
}

#[test]
fn idle_tick_is_a_short_circuit() {
    let mut screen = VerifyScreen::new("demo".to_string());
    let table = DepTable { deps: vec![], computation_status: TableComputationStatus::New };
    let plan = screen.update_for(80, 24, &table);
    assert!(plan.cleared);
    let before = (plan.title_area, plan.table_area, plan.status_area, plan.input_area,
        plan.hint_area);
    let plan = screen.update_for(80, 24, &table);
    assert!(!plan.cleared);
    let after = (plan.title_area, plan.table_area, plan.status_area, plan.input_area,
        plan.hint_area);
    assert_eq!(before, after);
    // A resize lays out anew.
    let plan = screen.update_for(100, 30, &table);
    assert!(plan.cleared);
    assert_eq!(plan.table_area.height, 26);
    assert_eq!(plan.input_area.width, 50);
}

#[test]
fn title_markup_is_a_heading() {
    let mut screen = VerifyScreen::new("my-repo".to_string());
    let table = DepTable { deps: vec![], computation_status: TableComputationStatus::New };
    let plan = screen.update_for(80, 24, &table);
    assert_eq!(plan.title_markup, "# my-repo");
    assert_eq!(screen.title().as_str(), "my-repo");
}

#[test]
fn placeholder_text_mentions_preparing() {
    let mut screen = VerifyScreen::new("demo".to_string());
    let table = DepTable { deps: deps(3), computation_status: TableComputationStatus::New };
    let plan = screen.update_for(80, 24, &table);
    match &plan.table {
        TableContent::Placeholder(text) => assert_eq!(
            text,
            "\n*preparing table... You may quit at any time with ctrl-q*"
        ),
        TableContent::Rows(_) => panic!("expected the placeholder"),
    }
    assert_eq!(plan.input_text, "");
}

#[test]
fn backward_status_snapshots_are_ignored() {
    let mut screen = VerifyScreen::new("demo".to_string());
    let table = DepTable { deps: deps(2), computation_status: TableComputationStatus::Done };
    screen.update_for(80, 24, &table);
    assert_eq!(screen.status(), TableComputationStatus::Done);
    // The source misbehaves and reports New again: the viewer keeps the
    // last valid state and the table stays live.
    let table = DepTable { deps: deps(2), computation_status: TableComputationStatus::New };
    let plan = screen.update_for(80, 24, &table);
    assert_eq!(screen.status(), TableComputationStatus::Done);
    assert_eq!(plan.status_text, "Computation finished");
    assert!(matches!(plan.table, TableContent::Rows(_)));
}

#[test]
fn rendered_cells_are_fitted_and_styled() {
    let mut screen = VerifyScreen::new("demo".to_string());
    let computed = ComputedDep {
        trust: VerificationStatus::Verified,
        latest_trusted_version: "1.2.3".to_string(),
        reviews: VersionCounts { version: 2, total: 5000 },
        downloads: Some(VersionCounts { version: 800, total: 1_500_000 }),
        owners: Some(TrustedCounts { trusted: 1, total: 3 }),
        issues: TrustedCounts { trusted: 0, total: 2 },
        loc: Some(12_000),
    };
    let row = Dep {
        name: "serde".to_string(),
        version: "1.0.0".to_string(),
        computed: Some(computed),
    };
    let table = DepTable { deps: vec![row], computation_status: geiger(1, 1) };
    let plan = screen.update_for(80, 24, &table);
    let rows = match &plan.table {
        TableContent::Rows(rows) => rows,
        TableContent::Placeholder(_) => panic!("expected live rows"),
    };
    assert_eq!(rows.len(), 1);
    let cells = &rows[0];
    assert_eq!(cells.len(), 13);
    // On an 80-cell surface the crate column is 19 wide (see the column
    // tests), left-aligned.
    assert_eq!(cells[0].text, "serde              ");
    assert_eq!(cells[0].style, CellStyle::Std);
    // version: width 9, right-aligned.
    assert_eq!(cells[1].text, "    1.0.0");
    // trust: width 6, centered, verified shows "high" in green.
    assert_eq!(cells[2].text, " high ");
    assert_eq!(cells[2].style, CellStyle::Good);
    // last trusted: width 12, right-aligned.
    assert_eq!(cells[3].text, "       1.2.3");
    // reviews: width 3, centered; 5000 formats as 4K.
    assert_eq!(cells[4].text, " 2 ");
    assert_eq!(cells[5].text, "4K ");
    // downloads: width 6, right-aligned; 800 is under 1000, so Medium.
    assert_eq!(cells[6].text, "   800");
    assert_eq!(cells[6].style, CellStyle::Medium);
    assert_eq!(cells[7].text, "    1M");
    assert_eq!(cells[7].style, CellStyle::Std);
    // owners: trusted owners show in green.
    assert_eq!(cells[8].text, " 1");
    assert_eq!(cells[8].style, CellStyle::Good);
    assert_eq!(cells[9].text, "  3");
    // issues: zero trusted issues render empty.
    assert_eq!(cells[10].text, "  ");
    assert_eq!(cells[10].style, CellStyle::Std);
    assert_eq!(cells[11].text, "  2");
    assert_eq!(cells[11].style, CellStyle::Medium);
    // l.o.c.: 12000 reduces to 11K.
    assert_eq!(cells[12].text, "   11K");
}

#[test]
fn uncomputed_rows_render_placeholders() {
    let mut screen = VerifyScreen::new("demo".to_string());
    let table = DepTable { deps: vec![dep("tokio")], computation_status: geiger(0, 1) };
    let plan = screen.update_for(80, 24, &table);
    let rows = match &plan.table {
        TableContent::Rows(rows) => rows,
        TableContent::Placeholder(_) => panic!("expected live rows"),
    };
    let cells = &rows[0];
    assert_eq!(cells[2].text, "  ?   ");
    assert_eq!(cells[2].style, CellStyle::Medium);
    assert_eq!(cells[3].text, "           ?");
    assert_eq!(cells[4].text, " ? ");
    assert_eq!(cells[6].text, "      ");
    assert_eq!(cells[10].text, "  ");
}
