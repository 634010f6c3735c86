use sickle_ui::hierarchy::Hierarchy;

fn forest(n: usize) -> Hierarchy {
    let mut h = Hierarchy::new();
    for _ in 0..n {
        h.spawn();
    }
    h
}

#[test]
fn spawned_elements_are_roots() {
    let mut h = Hierarchy::new();
    assert_eq!(h.count(), 0);
    assert_eq!(h.spawn(), 0);
    assert_eq!(h.spawn(), 1);
    assert_eq!(h.count(), 2);
    assert_eq!(h.parent(0), None);
    assert_eq!(h.child_count(1), 0);
}

#[test]
fn children_keep_their_order() {
    let mut h = forest(5);
    h.add_child(0, 1);
    h.add_child(0, 2);
    h.add_child(0, 3);
    assert_eq!(h.children[0], vec![1, 2, 3]);
    h.insert_child(0, 0, 4);
    assert_eq!(h.children[0], vec![4, 1, 2, 3]);
    assert_eq!(h.parent(4), Some(0));
    assert_eq!(h.child(0, 2), 2);
    assert_eq!(h.position(0, 3), Some(3));
    assert_eq!(h.position(0, 0), None);
    assert_eq!(h.child_count(0), 4);
}

#[test]
fn moving_within_a_parent_counts_places_after_removal() {
    let mut h = forest(5);
    for c in 1..5 {
        h.add_child(0, c);
    }
    h.insert_child(0, 2, 1);
    assert_eq!(h.children[0], vec![2, 3, 1, 4]);
    h.insert_child(0, 0, 4);
    assert_eq!(h.children[0], vec![4, 2, 3, 1]);
    h.insert_child(0, 99, 4);
    assert_eq!(h.children[0], vec![2, 3, 1, 4]);
    h.add_child(0, 2);
    assert_eq!(h.children[0], vec![3, 1, 4, 2]);
}

#[test]
fn moving_to_another_parent_leaves_the_old_one() {
    let mut h = forest(4);
    h.add_child(0, 2);
    h.add_child(0, 3);
    h.insert_child(1, 0, 2);
    assert_eq!(h.children[0], vec![3]);
    assert_eq!(h.children[1], vec![2]);
    assert_eq!(h.parent(2), Some(1));
    assert_eq!(h.parent(3), Some(0));
}

#[test]
fn detach_makes_a_root() {
    let mut h = forest(3);
    h.add_child(0, 1);
    h.add_child(1, 2);
    h.detach(1);
    assert_eq!(h.parent(1), None);
    assert_eq!(h.children[0], Vec::<usize>::new());
    assert_eq!(h.children[1], vec![2]);
    assert_eq!(h.parent(2), Some(1));
    h.detach(1);
    assert_eq!(h.parent(1), None);
    h.attach(0, 5, 1);
    assert_eq!(h.children[0], vec![1]);
}
