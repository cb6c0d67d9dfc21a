use ncti_orm::model::{Restriction, StIndexDef};
use ncti_orm::planner::{index_selector, plan, AccessPath};

fn index(name: &str, cols: &[&str], slot: u16) -> StIndexDef {
    StIndexDef {
        name: name.to_string(),
        cols: cols.iter().map(|c| c.to_string()).collect(),
        idx_slot: slot,
        col_count: cols.len() as u32,
        is_unique: 0,
        is_primary: 0,
    }
}

fn eq(name: &str, value: &str) -> Restriction {
    Restriction::equ(name.to_string(), value.to_string())
}

fn names(rs: &[Restriction]) -> Vec<(String, String)> {
    rs.iter().map(|r| (r.name.clone(), r.value.clone())).collect()
}

#[test]
fn single_restriction_on_indexed_column_is_a_composite_match() {
    let ixs = vec![index("IDX_id", &["id"], 0)];
    let p = plan(&vec![eq("id", "5")], &ixs);
    assert_eq!(p.path, AccessPath::Composite(0));
    assert_eq!(names(&p.seek), vec![("id".to_string(), "5".to_string())]);
    assert!(p.residual.is_empty());
    assert_eq!(index_selector(p.path, &ixs), 0);
}

#[test]
fn single_restriction_on_plain_column_is_a_full_scan() {
    let ixs = vec![index("IDX_id", &["id"], 0)];
    let p = plan(&vec![eq("name1", "x")], &ixs);
    assert_eq!(p.path, AccessPath::FullScan);
    assert!(p.seek.is_empty());
    assert_eq!(names(&p.residual), vec![("name1".to_string(), "x".to_string())]);
    assert_eq!(index_selector(p.path, &ixs), -1);
}

#[test]
fn two_restrictions_with_single_column_index_are_a_partial_match() {
    let ixs = vec![index("IDX_id", &["id"], 3)];
    let p = plan(&vec![eq("id", "5"), eq("name1", "x")], &ixs);
    assert_eq!(p.path, AccessPath::Partial(0, 0));
    assert_eq!(names(&p.seek), vec![("id".to_string(), "5".to_string())]);
    assert_eq!(names(&p.residual), vec![("name1".to_string(), "x".to_string())]);
    assert_eq!(index_selector(p.path, &ixs), 3);
}

#[test]
fn partial_match_takes_the_restriction_on_the_leading_column() {
    let ixs = vec![index("IDX_id", &["id"], 0)];
    let p = plan(&vec![eq("name1", "x"), eq("name2", "y"), eq("id", "5")], &ixs);
    assert_eq!(p.path, AccessPath::Partial(0, 2));
    assert_eq!(names(&p.seek), vec![("id".to_string(), "5".to_string())]);
    assert_eq!(
        names(&p.residual),
        vec![("name1".to_string(), "x".to_string()), ("name2".to_string(), "y".to_string())]
    );
}

#[test]
fn first_of_two_fitting_indexes_is_chosen() {
    let ixs = vec![
        index("IDX_other", &["name1"], 0),
        index("IDX_a", &["id", "name1"], 1),
        index("IDX_b", &["id", "name1"], 2),
    ];
    let p = plan(&vec![eq("id", "5"), eq("name1", "x")], &ixs);
    assert_eq!(p.path, AccessPath::Composite(1));
    assert_eq!(index_selector(p.path, &ixs), 1);
    assert!(p.residual.is_empty());
}

#[test]
fn composite_match_depends_on_restriction_order() {
    let ixs = vec![index("IDX_a", &["id", "name1"], 0)];
    let p = plan(&vec![eq("name1", "x"), eq("id", "5")], &ixs);
    assert_eq!(p.path, AccessPath::Partial(0, 1));
    assert_eq!(names(&p.seek), vec![("id".to_string(), "5".to_string())]);
    assert_eq!(names(&p.residual), vec![("name1".to_string(), "x".to_string())]);
}

#[test]
fn partial_match_takes_the_first_index_with_a_restricted_lead() {
    let ixs = vec![
        index("IDX_c", &["name3"], 0),
        index("IDX_b", &["name2", "id"], 1),
        index("IDX_a", &["id"], 2),
    ];
    let p = plan(&vec![eq("id", "1"), eq("name2", "y")], &ixs);
    assert_eq!(p.path, AccessPath::Partial(1, 1));
    assert_eq!(names(&p.seek), vec![("name2".to_string(), "y".to_string())]);
    assert_eq!(names(&p.residual), vec![("id".to_string(), "1".to_string())]);
}

#[test]
fn no_index_and_several_restrictions_is_a_full_scan() {
    let p = plan(&vec![eq("a", "1"), eq("b", "2")], &vec![]);
    assert_eq!(p.path, AccessPath::FullScan);
    assert!(p.seek.is_empty());
    assert_eq!(p.residual.len(), 2);
}

#[test]
fn empty_restrictions_scan_everything() {
    let p = plan(&vec![], &vec![index("IDX_id", &["id"], 0)]);
    assert_eq!(p.path, AccessPath::FullScan);
    assert!(p.residual.is_empty());
}
