use dataloader_rs::collate::NoOpCollate;
use dataloader_rs::sampler::RandomSampler;
use dataloader_rs::{BuildError, DataLoaderBuilder};

#[test]
fn api() {
    let _loader = DataLoaderBuilder::new(vec![1, 2, 3, 4]).build();
    let _loader = DataLoaderBuilder::new(vec![1, 2, 3, 4]).shuffle().build();

    let _loader = DataLoaderBuilder::new(vec![1, 2, 3, 4])
        .batch_size(2)
        .build();

    let _loader = DataLoaderBuilder::new(vec![1, 2, 3, 4])
        .batch_size(2)
        .drop_last()
        .build();

    let _loader = DataLoaderBuilder::new(vec![1, 2, 3, 4])
        .batch_size(2)
        .drop_last()
        .collate_fn(NoOpCollate)
        .build();

    let _loader = DataLoaderBuilder::new(vec![1, 2, 3, 4])
        .batch_size(2)
        .drop_last()
        .sampler::<RandomSampler>()
        .build();

    let _loader = DataLoaderBuilder::new(vec![1, 2, 3, 4])
        .batch_size(2)
        .drop_last()
        .sampler::<RandomSampler>()
        .collate_fn(NoOpCollate)
        .build();

    let _loader = DataLoaderBuilder::new(vec![1, 2, 3, 4])
        .shuffle()
        .batch_size(2)
        .drop_last()
        .collate_fn(NoOpCollate)
        .build();
}

#[test]
fn zero_batch_size_is_refused() {
    let r = DataLoaderBuilder::new(vec![1, 2, 3]).batch_size(0).build();
    assert_eq!(r.err(), Some(BuildError::ZeroBatchSize));
}

#[test]
fn default_options_give_batches_of_one() {
    let loader = DataLoaderBuilder::new(vec![7u8, 8, 9]).build().unwrap();
    assert_eq!(loader.len(), 3);
    let mut pass = loader.iter();
    assert_eq!(pass.next(), Some(vec![7u8]));
    assert_eq!(pass.next(), Some(vec![8u8]));
    assert_eq!(pass.next(), Some(vec![9u8]));
    assert_eq!(pass.next(), None);
    assert_eq!(pass.next(), None);
}
