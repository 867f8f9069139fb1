use crabkit::transitive_relation::TransitiveRelation;

#[test]
fn reachable_follows_chains() {
    let mut r = TransitiveRelation::new();
    r.add(0, 1);
    r.add(1, 2);
    r.add(2, 1);
    r.add(3, 4);
    let s = r.reachable_from(0, 5);
    assert_eq!(s, vec![false, true, true, false, false]);
    // `a` itself is in the set only through a cycle.
    let s = r.reachable_from(1, 5);
    assert_eq!(s, vec![false, true, true, false, false]);
    let s = r.reachable_from(4, 5);
    assert_eq!(s, vec![false; 5]);
}

#[test]
fn reachable_from_unrelated_local() {
    let mut r = TransitiveRelation::new();
    r.add(7, 0);
    assert_eq!(r.reachable_from(7, 1), vec![true]);
    assert_eq!(r.reachable_from(9, 1), vec![false]);
}
