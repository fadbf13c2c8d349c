use raytracer::intersect::{first_root_in, nearest_hit, Nearest, Root, RootPair};

#[test]
fn root_pair_is_ordered() {
    assert_eq!(RootPair::new(3, 8), RootPair { near: 3, far: 8 });
    assert_eq!(RootPair::new(8, 3), RootPair { near: 3, far: 8 });
    assert_eq!(RootPair::new(5, 5), RootPair { near: 5, far: 5 });
}

#[test]
fn near_root_first() {
    assert_eq!(first_root_in(RootPair::new(2, 6), 1, 10), Some(Root::Near));
}

#[test]
fn far_root_when_near_is_behind() {
    assert_eq!(first_root_in(RootPair::new(-4, 6), 1, 10), Some(Root::Far));
}

#[test]
fn interval_ends_are_excluded() {
    assert_eq!(first_root_in(RootPair::new(1, 10), 1, 10), None);
    assert_eq!(first_root_in(RootPair::new(1, 9), 1, 10), Some(Root::Far));
}

#[test]
fn no_root_beyond_interval() {
    assert_eq!(first_root_in(RootPair::new(12, 20), 1, 10), None);
    assert_eq!(first_root_in(RootPair::new(-5, 0), 1, 10), None);
}

#[test]
fn nearest_not_first_found() {
    let cands = vec![Some(RootPair::new(7, 9)), None, Some(RootPair::new(3, 4)), Some(RootPair::new(5, 6))];
    assert_eq!(nearest_hit(&cands, 1, 100), Some(Nearest { index: 2, root: Root::Near, key: 3 }));
}

#[test]
fn nearest_uses_far_root_from_inside() {
    let cands = vec![Some(RootPair::new(7, 9)), Some(RootPair::new(-3, 4))];
    assert_eq!(nearest_hit(&cands, 1, 100), Some(Nearest { index: 1, root: Root::Far, key: 4 }));
}

#[test]
fn nearest_tie_keeps_earliest() {
    let cands = vec![Some(RootPair::new(8, 9)), Some(RootPair::new(5, 6)), Some(RootPair::new(5, 7))];
    assert_eq!(nearest_hit(&cands, 1, 100), Some(Nearest { index: 1, root: Root::Near, key: 5 }));
}

#[test]
fn nearest_none_when_all_miss() {
    let cands = vec![None, Some(RootPair::new(150, 200)), Some(RootPair::new(-9, 0))];
    assert_eq!(nearest_hit(&cands, 1, 100), None);
    assert_eq!(nearest_hit(&Vec::new(), 1, 100), None);
}
