use crate::collate::{Collate, DefaultCollate};
use crate::dataset::{Dataset, GetSample, Len};
use crate::sampler::{
    group_count, groups, lemma_sequential_order, order, BatchIter, BatchSampler, RandomSampler, Sampler,
    SequentialSampler,
};
use vstd::prelude::*;

verus! {

/// Why a pipeline could not be built.
#[derive(Clone, Copy, Debug, PartialEq, Eq, Hash)]
pub enum BuildError {
    /// A batch must hold at least one sample.
    ZeroBatchSize,
}

/// `samples` holds, in order, a sample that `d` may return for each index of
/// `indices`.
pub open spec fn fetched<D: GetSample>(d: &D, indices: Seq<usize>, samples: Seq<D::Sample>) -> bool {
    &&& samples.len() == indices.len()
    &&& forall|i: int| 0 <= i < indices.len() ==> #[trigger] d.is_sample_at(indices[i] as int, samples[i])
}

/// `out` is what `c` makes of the samples of `d` at `indices`.
pub open spec fn batch_of<D: GetSample, C: Collate<D::Sample>>(
    d: &D,
    c: &C,
    indices: Seq<usize>,
    out: C::Output,
) -> bool {
    exists|samples: Seq<D::Sample>| #[trigger] fetched(d, indices, samples) && c.collated(samples, out)
}

/// Fetch the samples of `d` at `indices`, in order, and collate them with `c`.
pub fn fetch_batch<D: Dataset, C: Collate<D::Sample>>(d: &D, c: &C, indices: &Vec<usize>) -> (r: C::Output)
    requires
        forall|i: int| 0 <= i < indices@.len() ==> (#[trigger] indices@[i] as nat) < d.sample_count(),
    ensures
        batch_of(d, c, indices@, r),
{
    let mut samples: Vec<D::Sample> = Vec::new();
    let mut i: usize = 0;
    while i < indices.len()
        invariant
            forall|k: int| 0 <= k < indices@.len() ==> (#[trigger] indices@[k] as nat) < d.sample_count(),
            i <= indices@.len(),
            samples@.len() == i,
            forall|k: int| 0 <= k < i ==> #[trigger] d.is_sample_at(indices@[k] as int, samples@[k]),
        decreases indices@.len() - i,
    {
        let s = d.get_sample(indices[i]);
        samples.push(s);
        i = i + 1;
    }
    let ghost fetched_samples = samples@;
    let r = c.collate(samples);
    assert(fetched(d, indices@, fetched_samples));
    r
}

/// A batching pipeline: a dataset, a batch sampler over it and a collate
/// strategy. Its configuration does not change once built.
pub struct DataLoader<D, S = SequentialSampler, C = DefaultCollate> where
    D: Dataset,
    S: Sampler,
    C: Collate<D::Sample>,
 {
    dataset: D,
    batch_sampler: BatchSampler<S>,
    collate_fn: C,
}

impl<D: Dataset, S: Sampler, C: Collate<D::Sample>> DataLoader<D, S, C> {
    #[verifier::type_invariant]
    spec fn inv(&self) -> bool {
        &&& self.batch_sampler.wf()
        &&& self.batch_sampler.sampler.length() == self.dataset.sample_count()
    }

    /// The dataset batches are drawn from.
    pub closed spec fn dataset_spec(&self) -> D {
        self.dataset
    }

    /// The collate strategy.
    pub closed spec fn collate_spec(&self) -> C {
        self.collate_fn
    }

    /// The number of samples of a full batch.
    pub closed spec fn batch_size_spec(&self) -> nat {
        self.batch_sampler.batch_size as nat
    }

    /// Whether a short last batch is left out.
    pub closed spec fn drop_last_spec(&self) -> bool {
        self.batch_sampler.drop_last
    }

    /// The number of batches of a pass.
    pub fn len(&self) -> (r: usize)
        ensures
            r as nat == group_count(
                self.dataset_spec().sample_count(),
                self.batch_size_spec(),
                self.drop_last_spec(),
            ),
    {
        proof {
            use_type_invariant(self);
        }
        self.batch_sampler.len()
    }

    /// Start a pass over the batches. Each pass builds its sampler anew, so
    /// a random order is drawn again.
    pub fn iter(&self) -> (r: DataLoaderIter<'_, D, S, C>)
        ensures
            r.is_fresh_pass_of(self),
    {
        proof {
            use_type_invariant(self);
        }
        DataLoaderIter { dataset: &self.dataset, collate_fn: &self.collate_fn, batches: self.batch_sampler.iter() }
    }
}

/// One pass of a [`DataLoader`]: yields its batches one at a time, fetching
/// and collating each when it is asked for.
pub struct DataLoaderIter<'a, D, S, C> where D: Dataset, S: Sampler, C: Collate<D::Sample> {
    dataset: &'a D,
    collate_fn: &'a C,
    batches: BatchIter<S>,
}

impl<'a, D: Dataset, S: Sampler, C: Collate<D::Sample>> DataLoaderIter<'a, D, S, C> {
    #[verifier::type_invariant]
    spec fn inv(&self) -> bool {
        &&& self.batches.wf()
        &&& self.batches.sampler.length() == self.dataset.sample_count()
    }

    /// The dataset of the pass.
    pub closed spec fn dataset_spec(&self) -> D {
        *self.dataset
    }

    /// The collate strategy of the pass.
    pub closed spec fn collate_spec(&self) -> C {
        *self.collate_fn
    }

    /// The sampler of the pass.
    pub closed spec fn sampler_spec(&self) -> S {
        self.batches.sampler
    }

    /// The groups of indices of the pass, in order.
    pub closed spec fn groups_spec(&self) -> Seq<Seq<usize>> {
        self.batches.spec_groups()
    }

    /// How many batches have been yielded so far.
    pub closed spec fn position(&self) -> nat {
        self.batches.next_group as nat
    }

    /// `self` is a pass of `loader` that has not yielded anything yet.
    pub open spec fn is_fresh_pass_of(&self, loader: &DataLoader<D, S, C>) -> bool {
        &&& self.dataset_spec() == loader.dataset_spec()
        &&& self.collate_spec() == loader.collate_spec()
        &&& self.sampler_spec().wf()
        &&& self.sampler_spec().length() == loader.dataset_spec().sample_count()
        &&& self.groups_spec() == groups(
            order(&self.sampler_spec()),
            loader.batch_size_spec(),
            loader.drop_last_spec(),
        )
        &&& self.position() == 0
    }

    /// The next batch of the pass, or `None` once all have been yielded.
    pub fn next(&mut self) -> (r: Option<C::Output>)
        ensures
            final(self).dataset_spec() == old(self).dataset_spec(),
            final(self).collate_spec() == old(self).collate_spec(),
            final(self).sampler_spec() == old(self).sampler_spec(),
            final(self).groups_spec() == old(self).groups_spec(),
            old(self).position() < old(self).groups_spec().len() ==> {
                &&& r is Some
                &&& batch_of(
                    &old(self).dataset_spec(),
                    &old(self).collate_spec(),
                    old(self).groups_spec()[old(self).position() as int],
                    r->0,
                )
                &&& final(self).position() == old(self).position() + 1
            },
            old(self).position() >= old(self).groups_spec().len() ==> {
                &&& r is None
                &&& final(self).position() == old(self).position()
            },
    {
        proof {
            use_type_invariant(&*self);
        }
        let g = self.batches.next_group;
        match self.batches.group_at(g) {
            None => None,
            Some(indices) => {
                self.batches.next_group = g + 1;
                Some(fetch_batch(self.dataset, self.collate_fn, &indices))
            },
        }
    }
}

/// Gathers the options of a pipeline, then builds it.
pub struct DataLoaderBuilder<D, S = SequentialSampler, C = DefaultCollate> where
    D: Dataset,
    S: Sampler,
    C: Collate<D::Sample>,
 {
    /// The dataset from which the loader will yield the data.
    dataset: D,
    /// The sampler used to gather elements of the batch together.
    batch_sampler: BatchSampler<S>,
    /// Used to collate the data together.
    collate_fn: C,
}

impl<D: Dataset> DataLoaderBuilder<D, SequentialSampler, DefaultCollate> where DefaultCollate: Collate<D::Sample> {
    /// A builder with the default options: sequential order, batches of one
    /// sample, the last batch kept, structural collation.
    pub fn new(dataset: D) -> (r: Self)
        ensures
            r.dataset_spec() == dataset,
            r.sampler_spec().data_source_len as nat == dataset.sample_count(),
            r.collate_spec() == DefaultCollate,
            r.batch_size_spec() == 1,
            r.drop_last_spec() == false,
    {
        let dataset_len = dataset.len();
        DataLoaderBuilder {
            dataset,
            batch_sampler: BatchSampler {
                sampler: SequentialSampler::new(dataset_len),
                batch_size: 1,
                drop_last: false,
            },
            collate_fn: DefaultCollate,
        }
    }
}

impl<D: Dataset, S: Sampler, C: Collate<D::Sample>> DataLoaderBuilder<D, S, C> {
    #[verifier::type_invariant]
    spec fn inv(&self) -> bool {
        &&& self.batch_sampler.sampler.wf()
        &&& self.batch_sampler.sampler.length() == self.dataset.sample_count()
    }

    /// The dataset.
    pub closed spec fn dataset_spec(&self) -> D {
        self.dataset
    }

    /// The sampler chosen.
    pub closed spec fn sampler_spec(&self) -> S {
        self.batch_sampler.sampler
    }

    /// The batch size chosen.
    pub closed spec fn batch_size_spec(&self) -> nat {
        self.batch_sampler.batch_size as nat
    }

    /// Whether a short last batch is left out.
    pub closed spec fn drop_last_spec(&self) -> bool {
        self.batch_sampler.drop_last
    }

    /// The collate strategy chosen.
    pub closed spec fn collate_spec(&self) -> C {
        self.collate_fn
    }

    /// Use a random sampler.
    pub fn shuffle(self) -> (r: DataLoaderBuilder<D, RandomSampler, C>)
        ensures
            r.dataset_spec() == self.dataset_spec(),
            r.sampler_spec().wf(),
            r.sampler_spec().length() == self.dataset_spec().sample_count(),
            r.batch_size_spec() == self.batch_size_spec(),
            r.drop_last_spec() == self.drop_last_spec(),
            r.collate_spec() == self.collate_spec(),
    {
        self.sampler::<RandomSampler>()
    }

    /// Set the number of elements in a batch. Zero is refused by `build`.
    pub fn batch_size(self, batch_size: usize) -> (r: Self)
        ensures
            r.dataset_spec() == self.dataset_spec(),
            r.sampler_spec() == self.sampler_spec(),
            r.batch_size_spec() == batch_size as nat,
            r.drop_last_spec() == self.drop_last_spec(),
            r.collate_spec() == self.collate_spec(),
    {
        proof {
            use_type_invariant(&self);
        }
        let DataLoaderBuilder { dataset, batch_sampler, collate_fn } = self;
        DataLoaderBuilder {
            dataset,
            batch_sampler: BatchSampler {
                sampler: batch_sampler.sampler,
                batch_size,
                drop_last: batch_sampler.drop_last,
            },
            collate_fn,
        }
    }

    /// Drop the last elements if they do not fill a batch. For instance with
    /// 13 samples and a batch size of 5, the last 3 samples are dropped.
    pub fn drop_last(self) -> (r: Self)
        ensures
            r.dataset_spec() == self.dataset_spec(),
            r.sampler_spec() == self.sampler_spec(),
            r.batch_size_spec() == self.batch_size_spec(),
            r.drop_last_spec() == true,
            r.collate_spec() == self.collate_spec(),
    {
        proof {
            use_type_invariant(&self);
        }
        let DataLoaderBuilder { dataset, batch_sampler, collate_fn } = self;
        DataLoaderBuilder {
            dataset,
            batch_sampler: BatchSampler {
                sampler: batch_sampler.sampler,
                batch_size: batch_sampler.batch_size,
                drop_last: true,
            },
            collate_fn,
        }
    }

    /// Set a custom collate function.
    pub fn collate_fn<CF>(self, collate_fn: CF) -> (r: DataLoaderBuilder<D, S, CF>) where CF: Collate<D::Sample>
        ensures
            r.dataset_spec() == self.dataset_spec(),
            r.sampler_spec() == self.sampler_spec(),
            r.batch_size_spec() == self.batch_size_spec(),
            r.drop_last_spec() == self.drop_last_spec(),
            r.collate_spec() == collate_fn,
    {
        proof {
            use_type_invariant(&self);
        }
        let DataLoaderBuilder { dataset, batch_sampler, collate_fn: _ } = self;
        DataLoaderBuilder { dataset, batch_sampler, collate_fn }
    }

    /// Set a custom [`Sampler`], built for the dataset's length.
    pub fn sampler<SA>(self) -> (r: DataLoaderBuilder<D, SA, C>) where SA: Sampler
        ensures
            r.dataset_spec() == self.dataset_spec(),
            r.sampler_spec().wf(),
            r.sampler_spec().length() == self.dataset_spec().sample_count(),
            r.batch_size_spec() == self.batch_size_spec(),
            r.drop_last_spec() == self.drop_last_spec(),
            r.collate_spec() == self.collate_spec(),
    {
        proof {
            use_type_invariant(&self);
        }
        let sampler: SA = SA::new(self.dataset.len());
        let DataLoaderBuilder { dataset, batch_sampler, collate_fn } = self;
        DataLoaderBuilder {
            dataset,
            batch_sampler: BatchSampler {
                sampler,
                batch_size: batch_sampler.batch_size,
                drop_last: batch_sampler.drop_last,
            },
            collate_fn,
        }
    }

    /// Create a [`DataLoader`] from the options gathered; a batch size of
    /// zero is refused.
    pub fn build(self) -> (r: Result<DataLoader<D, S, C>, BuildError>)
        ensures
            r is Err <==> self.batch_size_spec() == 0,
            r is Err ==> r->Err_0 == BuildError::ZeroBatchSize,
            r is Ok ==> {
                &&& r->Ok_0.dataset_spec() == self.dataset_spec()
                &&& r->Ok_0.batch_size_spec() == self.batch_size_spec()
                &&& r->Ok_0.drop_last_spec() == self.drop_last_spec()
                &&& r->Ok_0.collate_spec() == self.collate_spec()
            },
    {
        proof {
            use_type_invariant(&self);
        }
        if self.batch_sampler.batch_size == 0 {
            return Err(BuildError::ZeroBatchSize);
        }
        let DataLoaderBuilder { dataset, batch_sampler, collate_fn } = self;
        Ok(DataLoader { dataset, batch_sampler, collate_fn })
    }
}

/// Two passes of the same sequentially sampled pipeline cut the same groups
/// of indices, `0..length` in order, from the same dataset with the same
/// collate strategy: they yield the same batches.
pub proof fn lemma_sequential_passes_agree<'a, 'b, D: Dataset, C: Collate<D::Sample>>(
    loader: &DataLoader<D, SequentialSampler, C>,
    p: DataLoaderIter<'a, D, SequentialSampler, C>,
    q: DataLoaderIter<'b, D, SequentialSampler, C>,
)
    requires
        p.is_fresh_pass_of(loader),
        q.is_fresh_pass_of(loader),
    ensures
        p.dataset_spec() == q.dataset_spec(),
        p.collate_spec() == q.collate_spec(),
        p.groups_spec() == q.groups_spec(),
        p.groups_spec() == groups(
            Seq::new(loader.dataset_spec().sample_count(), |i: int| i as usize),
            loader.batch_size_spec(),
            loader.drop_last_spec(),
        ),
{
    lemma_sequential_order(p.sampler_spec());
    lemma_sequential_order(q.sampler_spec());
}

} // verus!
