use dataloader_rs::collate::{Collate, DefaultCollate, NoOpCollate};

#[test]
fn vec_of_array() {
    assert_eq!(
        DefaultCollate::default().collate(vec![[1, 2], [3, 4], [5, 6]]),
        vec![vec![1, 3, 5], vec![2, 4, 6]]
    );
}

#[test]
fn nested_arrays_are_transposed_at_every_level() {
    let batch = vec![[[1u32, 2], [3, 4]], [[5, 6], [7, 8]]];
    assert_eq!(
        DefaultCollate.collate(batch),
        vec![vec![vec![1u32, 5], vec![2, 6]], vec![vec![3, 7], vec![4, 8]]]
    );
}

#[test]
fn empty_batch_of_arrays_gives_empty_columns() {
    let batch: Vec<[i64; 3]> = vec![];
    let out = DefaultCollate.collate(batch);
    assert_eq!(out, vec![Vec::<i64>::new(), vec![], vec![]]);
}

#[test]
fn single_sample_batch() {
    assert_eq!(DefaultCollate.collate(vec![[9i32, 8]]), vec![vec![9], vec![8]]);
    assert_eq!(DefaultCollate.collate(vec![42usize]), vec![42usize]);
}

#[test]
fn leaves_become_columns() {
    assert_eq!(DefaultCollate.collate(vec![true, false, true]), vec![true, false, true]);
    assert_eq!(DefaultCollate.collate(vec!['a', 'b']), vec!['a', 'b']);
    assert_eq!(
        DefaultCollate.collate(vec![String::from("x"), String::from("yz")]),
        vec![String::from("x"), String::from("yz")]
    );
    assert_eq!(DefaultCollate.collate(vec![-1i8, 2]), vec![-1i8, 2]);
}

#[test]
fn references_collate_as_their_values() {
    let stored = vec![[1u64, 2], [3, 4]];
    let refs: Vec<&[u64; 2]> = stored.iter().collect();
    let by_ref = DefaultCollate.collate(refs);
    let by_value = DefaultCollate.collate(stored.clone());
    assert_eq!(by_ref, by_value);
    assert_eq!(by_ref, vec![vec![1u64, 3], vec![2, 4]]);
}

#[test]
fn pairs_collate_field_by_field() {
    let batch = vec![(1i32, [true, false]), (2, [false, false]), (3, [true, true])];
    let (ids, flags) = DefaultCollate.collate(batch);
    assert_eq!(ids, vec![1, 2, 3]);
    assert_eq!(flags, vec![vec![true, false, true], vec![false, false, true]]);
}

#[test]
fn no_op_returns_the_batch_unchanged() {
    let empty: Vec<[i32; 2]> = vec![];
    assert_eq!(NoOpCollate.collate(empty), Vec::<[i32; 2]>::new());
    assert_eq!(NoOpCollate.collate(vec![vec![1, 2, 3]]), vec![vec![1, 2, 3]]);
    assert_eq!(NoOpCollate.collate(vec![3, 1, 2]), vec![3, 1, 2]);
}
