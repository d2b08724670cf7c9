//! Batches for indexable datasets: a sampler picks the order of the indices,
//! a batch sampler cuts it into groups, and a collate strategy merges the
//! samples of each group into one batched value.

pub mod collate;
pub mod dataloader;
pub mod dataset;
pub mod sampler;

pub use dataloader::{BuildError, DataLoader, DataLoaderBuilder, DataLoaderIter};
pub use dataset::{Dataset, GetSample, Len};
