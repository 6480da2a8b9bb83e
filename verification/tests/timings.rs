use dbt_index_core::timings::{Stage, Timings};

const MS: u128 = 1_000_000;

/// `reset` clears, a region attributes to the stage it is given, and the
/// report covers every stage even at zero.
#[test]
fn records_resets_and_reports() {
    let mut t = Timings::new();
    t.reset();
    assert_eq!(t.read(Stage::PayloadParse), (0, 0));

    let before = t.enter(Stage::PayloadParse).expect("not open yet");
    t.exit(Stage::PayloadParse, before, 2 * MS);
    let (dur, calls) = t.read(Stage::PayloadParse);
    assert_eq!(calls, 1);
    assert!(dur as u128 >= MS, "recorded {dur}");
    assert_eq!(t.read(Stage::EpochRead), (0, 0));

    // One report line per stage.
    assert_eq!(t.snapshot().len(), Stage::all().len());

    t.reset();
    assert_eq!(t.total(), 0);
}

/// A nested stage is charged to itself and subtracted from its parent, and a
/// stage nested inside itself is charged once.
#[test]
fn stages_are_disjoint() {
    let mut t = Timings::new();
    t.reset();
    let outer_before = t.enter(Stage::RowBuild).expect("outer region opens");
    // Same stage re-entered: the inner region adds nothing.
    assert_eq!(t.enter(Stage::RowBuild), None);
    let inner_before = t.enter(Stage::StagingWrite).expect("inner region opens");
    t.exit(Stage::StagingWrite, inner_before, 20 * MS);
    t.exit(Stage::RowBuild, outer_before, 25 * MS);

    let (outer, outer_calls) = t.read(Stage::RowBuild);
    let (inner, inner_calls) = t.read(Stage::StagingWrite);
    assert_eq!(outer_calls, 1, "the re-entered region recorded a second call");
    assert_eq!(inner_calls, 1);
    assert!(inner as u128 >= 15 * MS, "inner was {inner}");
    assert!(outer < inner, "the nested stage was not subtracted: outer {outer}, inner {inner}");
    assert_eq!(outer as u128, 5 * MS);
    t.reset();
}

#[test]
fn labels_and_order_are_stable() {
    let labels: Vec<&str> = Stage::all().into_iter().map(|s| s.label()).collect();
    assert_eq!(
        labels,
        vec!["epoch_read", "payload_parse", "row_build", "staging_write", "projection", "copy", "views_sql"]
    );
    for (i, s) in Stage::all().into_iter().enumerate() {
        assert_eq!(s.index(), i);
    }
}

#[test]
fn attributed_except_leaves_out_only_its_stage() {
    let mut t = Timings::new();
    t.record(Stage::EpochRead, 3);
    t.record(Stage::Copy, 4);
    t.record(Stage::Copy, 5);
    assert_eq!(t.attributed_except(Stage::Copy), 3);
    assert_eq!(t.attributed_except(Stage::EpochRead), 9);
    assert_eq!(t.attributed_except(Stage::ViewsSql), 12);
    assert_eq!(t.total(), 12);
    assert_eq!(t.read(Stage::Copy), (9, 2));
}

#[test]
fn a_region_never_charges_below_zero() {
    let mut t = Timings::new();
    let before = t.enter(Stage::Projection).unwrap();
    t.record(Stage::Copy, 50);
    // Less wall time than the nested stage recorded: the charge is zero.
    t.exit(Stage::Projection, before, 10);
    assert_eq!(t.read(Stage::Projection), (0, 1));
    // Closed again, so a new region opens.
    assert!(t.enter(Stage::Projection).is_some());
}

#[test]
fn recording_wraps_at_sixty_four_bits() {
    let mut t = Timings::new();
    t.record(Stage::RowBuild, u64::MAX as u128);
    t.record(Stage::RowBuild, 2);
    assert_eq!(t.read(Stage::RowBuild), (1, 2));
    // An elapsed time past 64 bits is cut, as the cast does.
    let mut u = Timings::new();
    u.record(Stage::RowBuild, (1u128 << 64) + 7);
    assert_eq!(u.read(Stage::RowBuild), (7, 1));
}
