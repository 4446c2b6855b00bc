use magnidraw::{BatchKey, Batches};

fn key(z_index: i32, material: u32) -> BatchKey {
    BatchKey { z_index, material }
}

#[test]
fn batches_group_by_key_in_draw_order() {
    let mut b: Batches<u8> = Batches::new();
    b.push(key(0, 1), vec![1, 2]);
    b.push(key(1, 1), vec![10]);
    b.push(key(0, 1), vec![3]);
    b.push(key(0, 2), vec![20, 21]);
    let (keys, items) = b.into_parts();
    assert_eq!(keys, vec![key(0, 1), key(1, 1), key(0, 2)]);
    assert_eq!(items, vec![vec![1, 2, 3], vec![10], vec![20, 21]]);
}

#[test]
fn empty_batches() {
    let b: Batches<u8> = Batches::new();
    let (keys, items) = b.into_parts();
    assert!(keys.is_empty());
    assert!(items.is_empty());
}

#[test]
fn empty_push_still_opens_a_batch() {
    let mut b: Batches<&str> = Batches::new();
    b.push(key(-3, 0), Vec::new());
    b.push(key(-3, 0), vec!["text"]);
    let (keys, items) = b.into_parts();
    assert_eq!(keys, vec![key(-3, 0)]);
    assert_eq!(items, vec![vec!["text"]]);
}

#[test]
fn interleaved_draws_collect_per_key_in_order() {
    let mut b: Batches<u8> = Batches::new();
    for i in 0..5u8 {
        b.push(key(3, 0), vec![i, i]);
        b.push(key(i as i32, 9), vec![100 + i]);
    }
    let (keys, items) = b.into_parts();
    let at = keys.iter().position(|k| *k == key(3, 0)).unwrap();
    assert_eq!(keys.iter().filter(|k| **k == key(3, 0)).count(), 1);
    assert_eq!(items[at], vec![0, 0, 1, 1, 2, 2, 3, 3, 4, 4]);
    let other = keys.iter().position(|k| *k == key(3, 9)).unwrap();
    assert_eq!(items[other], vec![103]);
}
