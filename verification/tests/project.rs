use dbt_index_core::project::{JoinColumn, filter_mask, join_plan, join_take_indices, table_plan};
use dbt_index_core::schema::spec_for;
use dbt_index_core::spec::{ColTy, Filter, Ns, Src, TableSpec, c, n, r};

fn names(v: &[&str]) -> Vec<String> {
    v.iter().map(|s| s.to_string()).collect()
}

fn keys(v: &[Option<&str>]) -> Vec<Option<String>> {
    v.iter().map(|s| s.map(|x| x.to_string())).collect()
}

fn models_like() -> TableSpec {
    TableSpec {
        ns: Ns::Dbt,
        name: "t",
        src: Src::Table("nodes"),
        filter: Filter::ResourceTypeIn(&["model", "seed"]),
        cols: vec![c("unique_id"), r("group", "group_name"), n("row_count", ColTy::I64), c("added_later")],
    }
}

#[test]
fn a_table_plan_renames_null_fills_and_tolerates_older_sources() {
    let plan = table_plan(&models_like(), &names(&["name", "unique_id", "group_name"]));
    assert_eq!(plan, vec![Some(1), Some(2), None, None]);
}

#[test]
fn the_first_column_of_a_name_is_the_one_read() {
    let plan = table_plan(&models_like(), &names(&["unique_id", "unique_id"]));
    assert_eq!(plan[0], Some(0));
}

#[test]
fn the_resource_type_filter_drops_nulls_and_other_types() {
    let col = keys(&[Some("model"), Some("macro"), None, Some("seed"), Some("MODEL")]);
    assert_eq!(filter_mask(&models_like(), Some(&col)), Some(vec![true, false, false, true, false]));
    // No resource type column: nothing to filter on, every row is kept.
    assert_eq!(filter_mask(&models_like(), None), None);
    let mut all = models_like();
    all.filter = Filter::All;
    assert_eq!(filter_mask(&all, Some(&col)), None);
}

#[test]
fn data_tests_keeps_tests_without_detail() {
    // The left join keeps a test with no `test_metadata` row, its detail null.
    let left = keys(&[Some("test.p.a"), Some("test.p.b"), None]);
    let right = keys(&[Some("test.p.a"), None, Some("test.p.a")]);
    let take = join_take_indices(3, Some(&left), Some(&right));
    assert_eq!(take, vec![Some(2), None, None], "later right rows win; unmatched rows stay");
    assert_eq!(join_take_indices(2, None, Some(&right)), vec![None, None]);
    assert_eq!(join_take_indices(2, Some(&keys(&[Some("x"), Some("y")])), None), vec![None, None]);
}

#[test]
fn a_join_plan_prefers_the_left_side() {
    let spec = spec_for(Ns::Dbt, "data_tests").expect("data_tests is in the schema");
    let left = names(&["unique_id", "name", "resource_type", "kwargs"]);
    let right = names(&["unique_id", "test_name", "kwargs", "test_name"]);
    let plan = join_plan(&spec, &left, &right, true);
    let at = |out: &str| spec.cols.iter().position(|col| col.out == out).unwrap();
    assert_eq!(plan[at("unique_id")], JoinColumn::Left(0));
    assert_eq!(plan[at("arguments")], JoinColumn::Left(3));
    // The right side's last field of a name is the one taken.
    assert_eq!(plan[at("test_name")], JoinColumn::Right(3));
    assert_eq!(plan[at("severity")], JoinColumn::Null);
    // With no right rows, nothing comes from the right.
    let empty = join_plan(&spec, &left, &right, false);
    assert_eq!(empty[at("test_name")], JoinColumn::Null);
    assert_eq!(empty[at("unique_id")], JoinColumn::Left(0));
}
