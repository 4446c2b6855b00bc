use magnidraw::ui::{IdCounter, IdTree, get_id};

fn leaf(id: u32) -> IdTree {
    IdTree { id, children: Vec::new() }
}

fn sample() -> IdTree {
    // 0 ── 1 ── 3
    //   │    └─ 4 ── 6
    //   └─ 2 ── 5
    IdTree {
        id: 0,
        children: vec![
            IdTree {
                id: 1,
                children: vec![leaf(3), IdTree { id: 4, children: vec![leaf(6)] }],
            },
            IdTree { id: 2, children: vec![leaf(5)] },
        ],
    }
}

#[test]
fn get_id_counts_up_from_zero() {
    let mut counter = IdCounter::new();
    assert_eq!(get_id(&mut counter), 0);
    assert_eq!(get_id(&mut counter), 1);
    assert_eq!(get_id(&mut counter), 2);
    assert_eq!(counter.current(), 3);
}

#[test]
fn get_id_wraps_after_max() {
    let mut counter = IdCounter::starting_at(u32::MAX);
    assert_eq!(get_id(&mut counter), u32::MAX);
    assert_eq!(get_id(&mut counter), 0);
}

#[test]
fn get_id_hands_out_distinct_ids() {
    let mut counter = IdCounter::new();
    let ids: Vec<u32> = (0..100).map(|_| get_id(&mut counter)).collect();
    for i in 0..ids.len() {
        for j in (i + 1)..ids.len() {
            assert_ne!(ids[i], ids[j]);
        }
    }
}

#[test]
fn child_ids_lists_descendants_depth_first() {
    assert_eq!(sample().child_ids(), vec![1, 3, 4, 6, 2, 5]);
    assert_eq!(leaf(7).child_ids(), Vec::<u32>::new());
}

#[test]
fn find_child_direct_child() {
    assert_eq!(sample().find_child(2), Some(vec![1]));
}

#[test]
fn find_child_deep_descendant() {
    assert_eq!(sample().find_child(6), Some(vec![0, 1, 0]));
    assert_eq!(sample().find_child(5), Some(vec![1, 0]));
}

#[test]
fn find_child_missing_or_self() {
    assert_eq!(sample().find_child(9), None);
    // An element is not its own child.
    assert_eq!(sample().find_child(0), None);
}

#[test]
fn find_child_finds_exactly_the_child_ids() {
    let tree = sample();
    let ids = tree.child_ids();
    for id in 0..10u32 {
        let found = tree.find_child(id);
        assert_eq!(found.is_some(), ids.contains(&id));
        if let Some(path) = found {
            let mut node = &tree;
            for i in path {
                node = &node.children[i];
            }
            assert_eq!(node.id, id);
        }
    }
}

#[test]
fn find_child_takes_first_match_in_order() {
    // The id 7 occurs under the first child and as the second child: the
    // first child that has it below wins.
    let tree = IdTree {
        id: 0,
        children: vec![IdTree { id: 1, children: vec![leaf(7)] }, leaf(7)],
    };
    assert_eq!(tree.find_child(7), Some(vec![0, 0]));
}
