use std::collections::VecDeque;
use std::sync::Arc;

use dataloader_rs::collate::{DefaultCollate, NoOpCollate};
use dataloader_rs::dataloader::fetch_batch;
use dataloader_rs::sampler::RandomSampler;
use dataloader_rs::{DataLoaderBuilder, GetSample, Len};

#[test]
fn end_to_end_two_batches() {
    let loader = DataLoaderBuilder::new(vec![1, 2, 3, 4]).batch_size(2).build().unwrap();
    assert_eq!(loader.len(), 2);
    let mut pass = loader.iter();
    assert_eq!(pass.next(), Some(vec![1, 2]));
    assert_eq!(pass.next(), Some(vec![3, 4]));
    assert_eq!(pass.next(), None);
}

#[test]
fn end_to_end_remainder_dropped() {
    let data: Vec<i32> = (1..=13).collect();
    let loader = DataLoaderBuilder::new(data).batch_size(5).drop_last().build().unwrap();
    assert_eq!(loader.len(), 2);
    let mut pass = loader.iter();
    assert_eq!(pass.next(), Some(vec![1, 2, 3, 4, 5]));
    assert_eq!(pass.next(), Some(vec![6, 7, 8, 9, 10]));
    assert_eq!(pass.next(), None);
}

#[test]
fn sequential_passes_repeat() {
    let loader = DataLoaderBuilder::new(vec![[1u8, 2], [3, 4], [5, 6]]).batch_size(2).build().unwrap();
    let collect = || {
        let mut pass = loader.iter();
        let mut out = Vec::new();
        while let Some(b) = pass.next() {
            out.push(b);
        }
        out
    };
    let first = collect();
    assert_eq!(first, vec![vec![vec![1u8, 3], vec![2, 4]], vec![vec![5], vec![6]]]);
    assert_eq!(collect(), first);
}

#[test]
fn shuffled_pass_yields_every_sample_once() {
    let data: Vec<u32> = (100..120).collect();
    let loader = DataLoaderBuilder::new(data).shuffle().batch_size(6).build().unwrap();
    assert_eq!(loader.len(), 4);
    let mut pass = loader.iter();
    let mut seen = Vec::new();
    let mut sizes = Vec::new();
    while let Some(b) = pass.next() {
        sizes.push(b.len());
        seen.extend(b);
    }
    assert_eq!(sizes, vec![6, 6, 6, 2]);
    seen.sort();
    assert_eq!(seen, (100..120).collect::<Vec<u32>>());
}

#[test]
fn no_op_collate_in_a_pipeline() {
    let loader = DataLoaderBuilder::new(vec![[1, 2], [3, 4], [5, 6]])
        .batch_size(2)
        .collate_fn(NoOpCollate)
        .build()
        .unwrap();
    let mut pass = loader.iter();
    assert_eq!(pass.next(), Some(vec![[1, 2], [3, 4]]));
    assert_eq!(pass.next(), Some(vec![[5, 6]]));
    assert_eq!(pass.next(), None);
}

#[test]
fn borrowed_dataset_yields_owned_batches() {
    let data = vec![[1i64, 10], [2, 20], [3, 30]];
    let loader = DataLoaderBuilder::new(&data).batch_size(3).build().unwrap();
    let mut pass = loader.iter();
    assert_eq!(pass.next(), Some(vec![vec![1i64, 2, 3], vec![10, 20, 30]]));
    assert_eq!(pass.next(), None);
    assert_eq!(data.len(), 3);
}

#[test]
fn other_dataset_kinds() {
    let deque: VecDeque<u16> = VecDeque::from(vec![5, 6, 7]);
    assert_eq!(Len::len(&deque), 3);
    assert_eq!(deque.get_sample(2), 7);
    let shared = Arc::new(vec![9u64, 8]);
    assert_eq!(shared.get_sample(1), 8);
    assert!(!Len::is_empty(&shared));
    assert!(Len::is_empty(&Vec::<u8>::new()));
    let loader = DataLoaderBuilder::new(deque).batch_size(2).build().unwrap();
    let mut pass = loader.iter();
    assert_eq!(pass.next(), Some(vec![5u16, 6]));
    assert_eq!(pass.next(), Some(vec![7u16]));
}

#[test]
fn fetch_batch_follows_the_indices() {
    let data = vec![10, 20, 30, 40];
    assert_eq!(fetch_batch(&data, &DefaultCollate, &vec![3, 0, 3]), vec![40, 10, 40]);
}

#[test]
fn empty_dataset_has_no_batches() {
    let loader = DataLoaderBuilder::new(Vec::<i32>::new())
        .batch_size(4)
        .sampler::<RandomSampler>()
        .build()
        .unwrap();
    assert_eq!(loader.len(), 0);
    assert_eq!(loader.iter().next(), None);
}
