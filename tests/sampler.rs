use dataloader_rs::sampler::{indices, BatchSampler, RandomSampler, Sampler, SequentialSampler};

fn all_groups<S: Sampler>(b: &BatchSampler<S>) -> Vec<Vec<usize>> {
    let mut pass = b.iter();
    let mut out = Vec::new();
    while let Some(g) = pass.next() {
        out.push(g);
    }
    out
}

#[test]
fn sequential_sampler_visits_in_order() {
    let s = SequentialSampler::new(5);
    assert_eq!(s.len(), 5);
    assert_eq!(indices(&s), vec![0, 1, 2, 3, 4]);
    assert_eq!(indices(&SequentialSampler::new(0)), Vec::<usize>::new());
}

#[test]
fn random_sampler_is_a_permutation() {
    for n in [0usize, 1, 2, 7, 100] {
        let s = RandomSampler::new(n);
        let mut got = indices(&s);
        got.sort();
        assert_eq!(got, (0..n).collect::<Vec<usize>>());
    }
}

#[test]
fn seeded_random_sampler_is_reproducible() {
    let a = RandomSampler::from_seed(50, 12345);
    let b = RandomSampler::from_seed(50, 12345);
    assert_eq!(indices(&a), indices(&b));
    let mut sorted = indices(&a);
    sorted.sort();
    assert_eq!(sorted, (0..50).collect::<Vec<usize>>());
    assert_ne!(indices(&a), (0..50).collect::<Vec<usize>>());
}

#[test]
fn groups_cover_the_pass_without_dropping() {
    let b = BatchSampler { sampler: SequentialSampler::new(7), batch_size: 3, drop_last: false };
    assert_eq!(b.len(), 3);
    assert_eq!(all_groups(&b), vec![vec![0, 1, 2], vec![3, 4, 5], vec![6]]);
}

#[test]
fn drop_last_leaves_out_the_short_group() {
    let b = BatchSampler { sampler: SequentialSampler::new(13), batch_size: 5, drop_last: true };
    assert_eq!(b.len(), 2);
    let groups = all_groups(&b);
    assert_eq!(groups, vec![vec![0, 1, 2, 3, 4], vec![5, 6, 7, 8, 9]]);
    assert_eq!(groups.iter().map(|g| g.len()).sum::<usize>(), 13 - 13 % 5);
}

#[test]
fn exact_multiple_has_no_short_group() {
    for drop_last in [false, true] {
        let b = BatchSampler { sampler: SequentialSampler::new(6), batch_size: 2, drop_last };
        assert_eq!(b.len(), 3);
        assert_eq!(all_groups(&b), vec![vec![0, 1], vec![2, 3], vec![4, 5]]);
    }
}

#[test]
fn batch_larger_than_dataset() {
    let keep = BatchSampler { sampler: SequentialSampler::new(3), batch_size: 10, drop_last: false };
    assert_eq!(all_groups(&keep), vec![vec![0, 1, 2]]);
    let drop = BatchSampler { sampler: SequentialSampler::new(3), batch_size: 10, drop_last: true };
    assert_eq!(drop.len(), 0);
    assert_eq!(all_groups(&drop), Vec::<Vec<usize>>::new());
}

#[test]
fn random_groups_cover_every_index_once() {
    let b = BatchSampler { sampler: RandomSampler::new(10), batch_size: 4, drop_last: false };
    let groups = all_groups(&b);
    assert_eq!(groups.iter().map(|g| g.len()).collect::<Vec<_>>(), vec![4, 4, 2]);
    let mut flat: Vec<usize> = groups.concat();
    flat.sort();
    assert_eq!(flat, (0..10).collect::<Vec<usize>>());
}

#[test]
fn group_at_past_the_end_is_none() {
    let b = BatchSampler { sampler: SequentialSampler::new(4), batch_size: 3, drop_last: false };
    let pass = b.iter();
    assert_eq!(pass.group_at(1), Some(vec![3]));
    assert_eq!(pass.group_at(2), None);
    assert_eq!(pass.group_at(usize::MAX), None);
}
