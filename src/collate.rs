use vstd::prelude::*;

verus! {

/// The recursive merge protocol: turns the values of one batch, one per
/// sample, into a single batched value.
///
/// `collated(batch, out)` says that `out` is a correct collation of `batch`;
/// each implementation defines it for its own shape of sample.
pub trait Collate<T>: Sized {
    /// The batched form of a sequence of `T`.
    type Output;

    spec fn collated(&self, batch: Seq<T>, out: Self::Output) -> bool;

    /// Merge the samples of one batch.
    fn collate(&self, batch: Vec<T>) -> (r: Self::Output)
        ensures
            self.collated(batch@, r),
    ;
}

/// The structural collate strategy: leaves become columns, arrays are
/// transposed and collated position by position, references are cloned.
#[derive(Clone, Copy, Debug, Default)]
pub struct DefaultCollate;

/// The pass-through strategy: the batch is handed back as it came.
#[derive(Clone, Copy, Debug, Default)]
pub struct NoOpCollate;

/// `dst` holds, position by position, a clone of each value of `src`.
pub open spec fn clones_of<T: Clone>(src: Seq<T>, dst: Seq<T>) -> bool {
    &&& dst.len() == src.len()
    &&& forall|j: int| 0 <= j < src.len() ==> cloned(#[trigger] src[j], dst[j])
}

/// `out` is what `c` makes of some element-wise clone of `src`.
pub open spec fn collates_clones<T: Clone, C: Collate<T>>(c: &C, src: Seq<T>, out: C::Output) -> bool {
    exists|d: Seq<T>| #[trigger] clones_of(src, d) && c.collated(d, out)
}

/// The values at position `k` of each array of the batch, in batch order.
pub open spec fn column<T, const N: usize>(batch: Seq<[T; N]>, k: int) -> Seq<T> {
    Seq::new(batch.len(), |j: int| batch[j]@[k])
}

/// The values behind a sequence of references.
pub open spec fn referents<T>(batch: Seq<&T>) -> Seq<T> {
    Seq::new(batch.len(), |j: int| *batch[j])
}

/// The first components of a sequence of pairs.
pub open spec fn firsts<A, B>(batch: Seq<(A, B)>) -> Seq<A> {
    Seq::new(batch.len(), |j: int| batch[j].0)
}

/// The second components of a sequence of pairs.
pub open spec fn seconds<A, B>(batch: Seq<(A, B)>) -> Seq<B> {
    Seq::new(batch.len(), |j: int| batch[j].1)
}

/// The clone of a value of type `T` is always that value.
pub open spec fn clone_is_exact<T: Clone>() -> bool {
    forall|a: T, b: T| #[trigger] cloned(a, b) ==> a == b
}

impl<T> Collate<T> for NoOpCollate {
    type Output = Vec<T>;

    open spec fn collated(&self, batch: Seq<T>, out: Vec<T>) -> bool {
        out@ == batch
    }

    fn collate(&self, batch: Vec<T>) -> (r: Vec<T>) {
        batch
    }
}

impl Collate<u8> for DefaultCollate {
    type Output = Vec<u8>;

    open spec fn collated(&self, batch: Seq<u8>, out: Vec<u8>) -> bool {
        out@ == batch
    }

    fn collate(&self, batch: Vec<u8>) -> (r: Vec<u8>) {
        batch
    }
}

impl Collate<u16> for DefaultCollate {
    type Output = Vec<u16>;

    open spec fn collated(&self, batch: Seq<u16>, out: Vec<u16>) -> bool {
        out@ == batch
    }

    fn collate(&self, batch: Vec<u16>) -> (r: Vec<u16>) {
        batch
    }
}

impl Collate<u32> for DefaultCollate {
    type Output = Vec<u32>;

    open spec fn collated(&self, batch: Seq<u32>, out: Vec<u32>) -> bool {
        out@ == batch
    }

    fn collate(&self, batch: Vec<u32>) -> (r: Vec<u32>) {
        batch
    }
}

impl Collate<u64> for DefaultCollate {
    type Output = Vec<u64>;

    open spec fn collated(&self, batch: Seq<u64>, out: Vec<u64>) -> bool {
        out@ == batch
    }

    fn collate(&self, batch: Vec<u64>) -> (r: Vec<u64>) {
        batch
    }
}

impl Collate<usize> for DefaultCollate {
    type Output = Vec<usize>;

    open spec fn collated(&self, batch: Seq<usize>, out: Vec<usize>) -> bool {
        out@ == batch
    }

    fn collate(&self, batch: Vec<usize>) -> (r: Vec<usize>) {
        batch
    }
}

impl Collate<i8> for DefaultCollate {
    type Output = Vec<i8>;

    open spec fn collated(&self, batch: Seq<i8>, out: Vec<i8>) -> bool {
        out@ == batch
    }

    fn collate(&self, batch: Vec<i8>) -> (r: Vec<i8>) {
        batch
    }
}

impl Collate<i16> for DefaultCollate {
    type Output = Vec<i16>;

    open spec fn collated(&self, batch: Seq<i16>, out: Vec<i16>) -> bool {
        out@ == batch
    }

    fn collate(&self, batch: Vec<i16>) -> (r: Vec<i16>) {
        batch
    }
}

impl Collate<i32> for DefaultCollate {
    type Output = Vec<i32>;

    open spec fn collated(&self, batch: Seq<i32>, out: Vec<i32>) -> bool {
        out@ == batch
    }

    fn collate(&self, batch: Vec<i32>) -> (r: Vec<i32>) {
        batch
    }
}

impl Collate<i64> for DefaultCollate {
    type Output = Vec<i64>;

    open spec fn collated(&self, batch: Seq<i64>, out: Vec<i64>) -> bool {
        out@ == batch
    }

    fn collate(&self, batch: Vec<i64>) -> (r: Vec<i64>) {
        batch
    }
}

impl Collate<isize> for DefaultCollate {
    type Output = Vec<isize>;

    open spec fn collated(&self, batch: Seq<isize>, out: Vec<isize>) -> bool {
        out@ == batch
    }

    fn collate(&self, batch: Vec<isize>) -> (r: Vec<isize>) {
        batch
    }
}

impl Collate<bool> for DefaultCollate {
    type Output = Vec<bool>;

    open spec fn collated(&self, batch: Seq<bool>, out: Vec<bool>) -> bool {
        out@ == batch
    }

    fn collate(&self, batch: Vec<bool>) -> (r: Vec<bool>) {
        batch
    }
}

impl Collate<char> for DefaultCollate {
    type Output = Vec<char>;

    open spec fn collated(&self, batch: Seq<char>, out: Vec<char>) -> bool {
        out@ == batch
    }

    fn collate(&self, batch: Vec<char>) -> (r: Vec<char>) {
        batch
    }
}

impl Collate<String> for DefaultCollate {
    type Output = Vec<String>;

    open spec fn collated(&self, batch: Seq<String>, out: Vec<String>) -> bool {
        out@ == batch
    }

    fn collate(&self, batch: Vec<String>) -> (r: Vec<String>) {
        batch
    }
}

/// An array sample is transposed: position `k` of the result collates the
/// `k`-th values of all the samples.
impl<T: Clone, const N: usize> Collate<[T; N]> for DefaultCollate where DefaultCollate: Collate<T> {
    type Output = Vec<<DefaultCollate as Collate<T>>::Output>;

    open spec fn collated(&self, batch: Seq<[T; N]>, out: Self::Output) -> bool {
        &&& out@.len() == N
        &&& forall|k: int|
            0 <= k < N ==> #[trigger] collates_clones::<T, DefaultCollate>(self, column(batch, k), out@[k])
    }

    fn collate(&self, batch: Vec<[T; N]>) -> (r: Self::Output) {
        let mut collated: Vec<<DefaultCollate as Collate<T>>::Output> = Vec::new();
        let mut k: usize = 0;
        while k < N
            invariant
                k <= N,
                collated@.len() == k,
                forall|k2: int|
                    0 <= k2 < k ==> #[trigger] collates_clones::<T, DefaultCollate>(self, column(batch@, k2), collated@[k2]),
            decreases N - k,
        {
            let mut col: Vec<T> = Vec::new();
            let mut j: usize = 0;
            while j < batch.len()
                invariant
                    k < N,
                    j <= batch@.len(),
                    col@.len() == j,
                    forall|j2: int| 0 <= j2 < j ==> cloned(#[trigger] column(batch@, k as int)[j2], col@[j2]),
                decreases batch@.len() - j,
            {
                let v = batch[j][k].clone();
                col.push(v);
                j = j + 1;
            }
            let ghost c = col@;
            let out = <DefaultCollate as Collate<T>>::collate(self, col);
            assert(clones_of(column(batch@, k as int), c));
            collated.push(out);
            k = k + 1;
        }
        collated
    }
}


/// References are cloned, and the owned values are collated.
impl<'a, T: Clone> Collate<&'a T> for DefaultCollate where DefaultCollate: Collate<T> {
    type Output = <DefaultCollate as Collate<T>>::Output;

    open spec fn collated(&self, batch: Seq<&'a T>, out: Self::Output) -> bool {
        collates_clones::<T, DefaultCollate>(self, referents(batch), out)
    }

    fn collate(&self, batch: Vec<&'a T>) -> (r: Self::Output) {
        let mut owned: Vec<T> = Vec::new();
        let mut j: usize = 0;
        while j < batch.len()
            invariant
                j <= batch@.len(),
                owned@.len() == j,
                forall|j2: int| 0 <= j2 < j ==> cloned(#[trigger] referents(batch@)[j2], owned@[j2]),
            decreases batch@.len() - j,
        {
            let v: T = batch[j].clone();
            owned.push(v);
            j = j + 1;
        }
        let ghost d = owned@;
        let r = <DefaultCollate as Collate<T>>::collate(self, owned);
        assert(clones_of(referents(batch@), d));
        r
    }
}

/// A pair is collated field by field: the first components together, the
/// second components together.
impl<A: Clone, B: Clone> Collate<(A, B)> for DefaultCollate where
    DefaultCollate: Collate<A>,
    DefaultCollate: Collate<B>,
 {
    type Output = (<DefaultCollate as Collate<A>>::Output, <DefaultCollate as Collate<B>>::Output);

    open spec fn collated(&self, batch: Seq<(A, B)>, out: Self::Output) -> bool {
        &&& collates_clones::<A, DefaultCollate>(self, firsts(batch), out.0)
        &&& collates_clones::<B, DefaultCollate>(self, seconds(batch), out.1)
    }

    fn collate(&self, batch: Vec<(A, B)>) -> (r: Self::Output) {
        let mut xs: Vec<A> = Vec::new();
        let mut ys: Vec<B> = Vec::new();
        let mut j: usize = 0;
        while j < batch.len()
            invariant
                j <= batch@.len(),
                xs@.len() == j,
                ys@.len() == j,
                forall|j2: int| 0 <= j2 < j ==> cloned(#[trigger] firsts(batch@)[j2], xs@[j2]),
                forall|j2: int| 0 <= j2 < j ==> cloned(#[trigger] seconds(batch@)[j2], ys@[j2]),
            decreases batch@.len() - j,
        {
            let x: A = batch[j].0.clone();
            let y: B = batch[j].1.clone();
            xs.push(x);
            ys.push(y);
            j = j + 1;
        }
        let ghost dx = xs@;
        let ghost dy = ys@;
        let rx = <DefaultCollate as Collate<A>>::collate(self, xs);
        let ry = <DefaultCollate as Collate<B>>::collate(self, ys);
        assert(clones_of(firsts(batch@), dx));
        assert(clones_of(seconds(batch@), dy));
        (rx, ry)
    }
}

/// Where clones are exact, the only clone of a sequence is the sequence itself.
pub proof fn lemma_exact_clones<T: Clone>(src: Seq<T>, dst: Seq<T>)
    requires
        clone_is_exact::<T>(),
    ensures
        clones_of(src, dst) <==> dst == src,
{
    if clones_of(src, dst) {
        assert forall|j: int| 0 <= j < src.len() implies dst[j] == src[j] by {
            assert(cloned(src[j], dst[j]));
        }
        assert(dst =~= src);
    }
    if dst == src {
        assert forall|j: int| 0 <= j < src.len() implies cloned(#[trigger] src[j], dst[j]) by {}
    }
}

/// Where clones are exact, collating clones of `src` is collating `src`.
pub proof fn lemma_collates_exact_clones<T: Clone, C: Collate<T>>(c: &C, src: Seq<T>, out: C::Output)
    requires
        clone_is_exact::<T>(),
    ensures
        collates_clones(c, src, out) <==> c.collated(src, out),
{
    if collates_clones(c, src, out) {
        let d = choose|d: Seq<T>| #[trigger] clones_of(src, d) && c.collated(d, out);
        lemma_exact_clones(src, d);
    }
    if c.collated(src, out) {
        lemma_exact_clones(src, src);
        assert(clones_of(src, src));
    }
}

/// Transpose law: collating arrays of length `N` gives `N` entries, and entry
/// `k` is the collation of the `k`-th values of the samples, in batch order.
pub proof fn lemma_array_transpose<T: Clone, const N: usize>(
    batch: Seq<[T; N]>,
    out: Vec<<DefaultCollate as Collate<T>>::Output>,
) where DefaultCollate: Collate<T>
    requires
        clone_is_exact::<T>(),
    ensures
        <DefaultCollate as Collate<[T; N]>>::collated(&DefaultCollate, batch, out) <==> {
            &&& out@.len() == N
            &&& forall|k: int|
                0 <= k < N ==> <DefaultCollate as Collate<T>>::collated(
                    &DefaultCollate,
                    #[trigger] column(batch, k),
                    out@[k],
                )
        },
{
    assert forall|k: int| 0 <= k < N implies (collates_clones::<T, DefaultCollate>(
        &DefaultCollate,
        column(batch, k),
        out@[k],
    ) <==> <DefaultCollate as Collate<T>>::collated(&DefaultCollate, #[trigger] column(batch, k), out@[k])) by {
        lemma_collates_exact_clones::<T, DefaultCollate>(&DefaultCollate, column(batch, k), out@[k]);
    }
}

/// Collating references gives exactly what collating the referenced values
/// themselves gives.
pub proof fn lemma_reference_collate<'a, T: Clone>(
    batch: Seq<&'a T>,
    out: <DefaultCollate as Collate<T>>::Output,
) where DefaultCollate: Collate<T>
    requires
        clone_is_exact::<T>(),
    ensures
        <DefaultCollate as Collate<&'a T>>::collated(&DefaultCollate, batch, out)
            <==> <DefaultCollate as Collate<T>>::collated(&DefaultCollate, referents(batch), out),
{
    lemma_collates_exact_clones::<T, DefaultCollate>(&DefaultCollate, referents(batch), out);
}

/// The pass-through strategy returns its input unchanged and in order, for
/// every batch length.
pub proof fn lemma_no_op_identity<T>(batch: Seq<T>, out: Vec<T>)
    ensures
        NoOpCollate.collated(batch, out) <==> out@ == batch,
{
}

} // verus!
