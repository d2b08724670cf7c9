use std::collections::VecDeque;
use std::sync::Arc;
use vstd::prelude::*;

verus! {

/// The number of samples a dataset holds.
pub trait Len {
    /// How many samples there are; valid indices are below it.
    spec fn sample_count(&self) -> nat;

    /// The number of samples.
    fn len(&self) -> (r: usize)
        ensures
            r as nat == self.sample_count(),
    ;

    /// Whether the dataset holds no sample.
    fn is_empty(&self) -> (r: bool)
        ensures
            r == (self.sample_count() == 0),
    ;
}

/// Return a sample from the dataset at a given index.
pub trait GetSample: Len {
    /// Type of one sample of the dataset.
    type Sample: Sized;

    /// `s` is a sample that the dataset may return for `index`.
    spec fn is_sample_at(&self, index: int, s: Self::Sample) -> bool;

    /// Return the dataset sample corresponding to the index.
    fn get_sample(&self, index: usize) -> (r: Self::Sample)
        requires
            (index as nat) < self.sample_count(),
        ensures
            self.is_sample_at(index as int, r),
    ;
}

/// A dataset: indexed access to a known number of samples.
pub trait Dataset: GetSample {

}

impl<T: GetSample> Dataset for T {

}

impl<T> Len for Vec<T> {
    open spec fn sample_count(&self) -> nat {
        self@.len()
    }

    fn len(&self) -> (r: usize) {
        Vec::len(self)
    }

    fn is_empty(&self) -> (r: bool) {
        Vec::len(self) == 0
    }
}

impl<T: Clone> GetSample for Vec<T> {
    type Sample = T;

    open spec fn is_sample_at(&self, index: int, s: T) -> bool {
        cloned(self@[index], s)
    }

    fn get_sample(&self, index: usize) -> (r: T) {
        self[index].clone()
    }
}

impl<T> Len for VecDeque<T> {
    open spec fn sample_count(&self) -> nat {
        self@.len()
    }

    fn len(&self) -> (r: usize) {
        VecDeque::len(self)
    }

    fn is_empty(&self) -> (r: bool) {
        VecDeque::len(self) == 0
    }
}

impl<T: Clone> GetSample for VecDeque<T> {
    type Sample = T;

    open spec fn is_sample_at(&self, index: int, s: T) -> bool {
        cloned(self@[index], s)
    }

    fn get_sample(&self, index: usize) -> (r: T) {
        self[index].clone()
    }
}

impl<T: Len> Len for Arc<T> {
    open spec fn sample_count(&self) -> nat {
        (**self).sample_count()
    }

    fn len(&self) -> (r: usize) {
        (**self).len()
    }

    fn is_empty(&self) -> (r: bool) {
        (**self).is_empty()
    }
}

impl<T: GetSample> GetSample for Arc<T> {
    type Sample = T::Sample;

    open spec fn is_sample_at(&self, index: int, s: T::Sample) -> bool {
        (**self).is_sample_at(index, s)
    }

    fn get_sample(&self, index: usize) -> (r: T::Sample) {
        (**self).get_sample(index)
    }
}

impl<'a, T> Len for &'a Vec<T> {
    open spec fn sample_count(&self) -> nat {
        (**self)@.len()
    }

    fn len(&self) -> (r: usize) {
        Vec::len(*self)
    }

    fn is_empty(&self) -> (r: bool) {
        Vec::len(*self) == 0
    }
}

/// A borrowed vector hands out references to its elements, so that passes
/// over it move nothing out of it.
impl<'a, T> GetSample for &'a Vec<T> {
    type Sample = &'a T;

    open spec fn is_sample_at(&self, index: int, s: &'a T) -> bool {
        *s == (**self)@[index]
    }

    fn get_sample(&self, index: usize) -> (r: &'a T) {
        let v: &'a Vec<T> = *self;
        &v[index]
    }
}

} // verus!
