use std::collections::hash_map::RandomState;
use std::hash::BuildHasher;
use vstd::arithmetic::div_mod::{lemma_fundamental_div_mod, lemma_mod_pos_bound};
use vstd::prelude::*;

verus! {

/// An index selection policy: position `pos` of a pass over a dataset of
/// `length()` samples visits index `index_spec(pos)`.
pub trait Sampler: Sized {
    /// The number of samples of the dataset sampled from.
    spec fn length(&self) -> nat;

    /// The sampler's internal invariant.
    spec fn wf(&self) -> bool;

    /// The index visited at position `pos` of the pass.
    spec fn index_spec(&self, pos: int) -> usize;

    /// A sampler over a dataset of `data_source_len` samples.
    fn new(data_source_len: usize) -> (r: Self)
        ensures
            r.wf(),
            r.length() == data_source_len as nat,
    ;

    /// The number of indices of a pass.
    fn len(&self) -> (r: usize)
        requires
            self.wf(),
        ensures
            r as nat == self.length(),
    ;

    /// The index visited at position `pos`.
    fn index(&self, pos: usize) -> (r: usize)
        requires
            self.wf(),
            (pos as nat) < self.length(),
        ensures
            r == self.index_spec(pos as int),
            (r as nat) < self.length(),
    ;
}

/// The whole sequence of indices of one pass of `s`.
pub open spec fn order<S: Sampler>(s: &S) -> Seq<usize> {
    Seq::new(s.length(), |pos: int| s.index_spec(pos))
}

/// `s` holds each of `0..n` exactly once.
pub open spec fn is_permutation(s: Seq<usize>, n: nat) -> bool {
    &&& s.len() == n
    &&& forall|i: int| 0 <= i < n ==> (#[trigger] s[i] as nat) < n
    &&& forall|i: int, j: int| 0 <= i < n && 0 <= j < n && i != j ==> #[trigger] s[i] != #[trigger] s[j]
    &&& forall|v: usize| (v as nat) < n ==> #[trigger] s.contains(v)
}

/// The indices of one pass, in the order the sampler visits them.
pub fn indices<S: Sampler>(s: &S) -> (r: Vec<usize>)
    requires
        s.wf(),
    ensures
        r@ == order(s),
{
    let n = s.len();
    let mut r: Vec<usize> = Vec::new();
    let mut pos: usize = 0;
    while pos < n
        invariant
            s.wf(),
            n as nat == s.length(),
            pos <= n,
            r@ == order(s).take(pos as int),
        decreases n - pos,
    {
        let i = s.index(pos);
        r.push(i);
        pos = pos + 1;
        assert(r@ =~= order(s).take(pos as int));
    }
    assert(r@ =~= order(s));
    r
}

/// Visits the indices in their natural order.
#[derive(Clone, Copy, Debug, PartialEq, Eq, Hash, Default)]
pub struct SequentialSampler {
    /// The number of samples of the dataset.
    pub data_source_len: usize,
}

impl Sampler for SequentialSampler {
    open spec fn length(&self) -> nat {
        self.data_source_len as nat
    }

    open spec fn wf(&self) -> bool {
        true
    }

    open spec fn index_spec(&self, pos: int) -> usize {
        pos as usize
    }

    fn new(data_source_len: usize) -> (r: Self) {
        SequentialSampler { data_source_len }
    }

    fn len(&self) -> (r: usize) {
        self.data_source_len
    }

    fn index(&self, pos: usize) -> (r: usize) {
        pos
    }
}

/// Visits the indices in an order drawn at random when it is built.
#[derive(Clone, Debug, PartialEq, Eq)]
pub struct RandomSampler {
    /// The number of samples of the dataset.
    pub data_source_len: usize,
    /// The order of the pass.
    pub permutation: Vec<usize>,
}

/// Relies on `RandomState::new` of std: a hasher builder with keys that are
/// drawn at random; nothing is known of them.
#[verifier::external_body]
fn fresh_random_state() -> RandomState {
    RandomState::new()
}

/// Relies on `BuildHasher::hash_one` of std, here on a randomly keyed
/// `RandomState`: any `u64` may come back.
#[verifier::external_body]
fn hash_with(state: &RandomState, value: u64) -> u64 {
    state.hash_one(value)
}

/// One step of a xorshift generator.
fn next_random(x: u64) -> u64 {
    let a = x ^ (x << 13u64);
    let b = a ^ (a >> 7u64);
    b ^ (b << 17u64)
}

impl RandomSampler {
    /// A sampler whose order is a shuffle of `0..data_source_len` driven by
    /// `seed`: the same seed gives the same order.
    pub fn from_seed(data_source_len: usize, seed: u64) -> (r: Self)
        ensures
            r.wf(),
            r.length() == data_source_len as nat,
    {
        let n = data_source_len;
        let mut perm: Vec<usize> = Vec::new();
        let mut k: usize = 0;
        while k < n
            invariant
                k <= n,
                perm@.len() == k,
                forall|i: int| 0 <= i < k ==> perm@[i] == i,
            decreases n - k,
        {
            perm.push(k);
            k = k + 1;
        }
        let ghost mut inv: Seq<int> = Seq::new(n as nat, |v: int| v);
        let mut state: u64 = seed ^ 0x9E37_79B9_7F4A_7C15u64;
        let mut i: usize = n;
        while i > 1
            invariant
                i <= n,
                perm@.len() == n,
                inv.len() == n,
                forall|p: int| 0 <= p < n ==> (#[trigger] perm@[p] as int) < n && inv[perm@[p] as int] == p,
                forall|v: int| 0 <= v < n ==> 0 <= #[trigger] inv[v] < n && perm@[inv[v]] as int == v,
            decreases i,
        {
            state = next_random(state);
            let j: usize = (state % (i as u64)) as usize;
            let a = perm[i - 1];
            let b = perm[j];
            perm.set(i - 1, b);
            perm.set(j, a);
            proof {
                inv = inv.update(a as int, j as int).update(b as int, i - 1);
            }
            i = i - 1;
        }
        let r = RandomSampler { data_source_len: n, permutation: perm };
        assert forall|v: usize| (v as nat) < n implies #[trigger] r.permutation@.contains(v) by {
            assert(r.permutation@[inv[v as int]] == v);
        }
        assert forall|p: int, q: int| 0 <= p < n && 0 <= q < n && p != q implies #[trigger] r.permutation@[p]
            != #[trigger] r.permutation@[q] by {
            assert(inv[r.permutation@[p] as int] == p);
            assert(inv[r.permutation@[q] as int] == q);
        }
        r
    }
}

impl Sampler for RandomSampler {
    open spec fn length(&self) -> nat {
        self.data_source_len as nat
    }

    open spec fn wf(&self) -> bool {
        is_permutation(self.permutation@, self.data_source_len as nat)
    }

    open spec fn index_spec(&self, pos: int) -> usize {
        self.permutation@[pos]
    }

    fn new(data_source_len: usize) -> (r: Self) {
        let state = fresh_random_state();
        let seed = hash_with(&state, data_source_len as u64);
        RandomSampler::from_seed(data_source_len, seed)
    }

    fn len(&self) -> (r: usize) {
        self.data_source_len
    }

    fn index(&self, pos: usize) -> (r: usize) {
        self.permutation[pos]
    }
}

/// The number of groups that a pass of `len` indices is cut into.
pub open spec fn group_count(len: nat, batch_size: nat, drop_last: bool) -> nat {
    if drop_last || len % batch_size == 0 {
        len / batch_size
    } else {
        len / batch_size + 1
    }
}

/// Group `g` of `order`: the `batch_size` indices from position
/// `g * batch_size` on, or fewer at the end.
pub open spec fn group(order: Seq<usize>, batch_size: nat, g: int) -> Seq<usize> {
    let start = g * batch_size;
    let end = if start + batch_size <= order.len() {
        start + batch_size
    } else {
        order.len() as int
    };
    order.subrange(start, end)
}

/// The groups of a pass, in order.
pub open spec fn groups(order: Seq<usize>, batch_size: nat, drop_last: bool) -> Seq<Seq<usize>> {
    Seq::new(group_count(order.len(), batch_size, drop_last), |g: int| group(order, batch_size, g))
}

/// Cuts the indices of a sampler's pass into groups of `batch_size`.
#[derive(Clone, Debug, PartialEq, Eq)]
pub struct BatchSampler<S: Sampler> {
    /// Where the indices come from.
    pub sampler: S,
    /// The number of indices of a full group.
    pub batch_size: usize,
    /// Whether a last group shorter than `batch_size` is left out.
    pub drop_last: bool,
}

/// One pass of a [`BatchSampler`]: yields its groups one at a time.
#[derive(Clone, Debug, PartialEq, Eq)]
pub struct BatchIter<S: Sampler> {
    /// The sampler of this pass.
    pub sampler: S,
    /// The number of indices of a full group.
    pub batch_size: usize,
    /// Whether a short last group is left out.
    pub drop_last: bool,
    /// The group that comes next.
    pub next_group: usize,
}

/// Where fewer than `count` groups have been cut, the next group lies
/// inside the pass.
proof fn lemma_group_in_range(len: nat, bs: nat, drop_last: bool, g: nat)
    requires
        bs > 0,
        g < group_count(len, bs, drop_last),
    ensures
        g * bs < len,
        drop_last ==> g * bs + bs <= len,
{
    lemma_fundamental_div_mod(len as int, bs as int);
    lemma_mod_pos_bound(len as int, bs as int);
    let q = len / bs;
    if g < q {
        assert(g * bs + bs <= q * bs) by (nonlinear_arith)
            requires
                g < q,
        ;
    } else {
        assert(g == q);
    }
}

impl<S: Sampler> BatchSampler<S> {
    pub open spec fn wf(&self) -> bool {
        self.sampler.wf() && self.batch_size > 0
    }

    /// The groups of a pass over this sampler's order.
    pub open spec fn spec_groups(&self) -> Seq<Seq<usize>> {
        groups(order(&self.sampler), self.batch_size as nat, self.drop_last)
    }

    /// The number of groups of a pass.
    pub fn len(&self) -> (r: usize)
        requires
            self.wf(),
        ensures
            r as nat == group_count(self.sampler.length(), self.batch_size as nat, self.drop_last),
    {
        let n = self.sampler.len();
        let q = n / self.batch_size;
        if self.drop_last || n % self.batch_size == 0 {
            q
        } else {
            proof {
                lemma_fundamental_div_mod(n as int, self.batch_size as int);
                assert(q < n) by (nonlinear_arith)
                    requires
                        n == self.batch_size * q + n % self.batch_size,
                        n % self.batch_size > 0,
                        self.batch_size > 0,
                ;
            }
            q + 1
        }
    }

    /// Start a pass: the sampler is built anew, so that a random order is
    /// drawn again.
    pub fn iter(&self) -> (r: BatchIter<S>)
        requires
            self.wf(),
        ensures
            r.wf(),
            r.sampler.length() == self.sampler.length(),
            r.batch_size == self.batch_size,
            r.drop_last == self.drop_last,
            r.next_group == 0,
    {
        let n = self.sampler.len();
        BatchIter { sampler: S::new(n), batch_size: self.batch_size, drop_last: self.drop_last, next_group: 0 }
    }
}

impl<S: Sampler> BatchIter<S> {
    pub open spec fn wf(&self) -> bool {
        self.sampler.wf() && self.batch_size > 0
    }

    /// The groups of this pass.
    pub open spec fn spec_groups(&self) -> Seq<Seq<usize>> {
        groups(order(&self.sampler), self.batch_size as nat, self.drop_last)
    }

    /// Group `g` of the pass, or `None` where the pass has fewer groups.
    pub fn group_at(&self, g: usize) -> (r: Option<Vec<usize>>)
        requires
            self.wf(),
        ensures
            (g as nat) < self.spec_groups().len() ==> r is Some && r->0@ == self.spec_groups()[g as int],
            (g as nat) >= self.spec_groups().len() ==> r is None,
            r is Some ==> (g as nat) < self.sampler.length() <= usize::MAX,
            r is Some ==> forall|i: int| 0 <= i < r->0@.len() ==> (#[trigger] r->0@[i] as nat) < self.sampler.length(),
    {
        let n = self.sampler.len();
        let bs = self.batch_size;
        let q = n / bs;
        let count_full_only = self.drop_last || n % bs == 0;
        if g > q || (g == q && count_full_only) {
            return None;
        }
        proof {
            lemma_group_in_range(n as nat, bs as nat, self.drop_last, g as nat);
            assert(g <= g * bs) by (nonlinear_arith)
                requires
                    bs > 0,
            ;
        }
        let start: usize = g * bs;
        let end: usize = if n - start < bs {
            n
        } else {
            start + bs
        };
        let mut out: Vec<usize> = Vec::new();
        let mut pos: usize = start;
        while pos < end
            invariant
                self.sampler.wf(),
                n as nat == self.sampler.length(),
                start <= pos <= end <= n,
                out@ == order(&self.sampler).subrange(start as int, pos as int),
                forall|k: int| 0 <= k < out@.len() ==> (#[trigger] out@[k] as nat) < n,
            decreases end - pos,
        {
            let i = self.sampler.index(pos);
            out.push(i);
            pos = pos + 1;
            assert(out@ =~= order(&self.sampler).subrange(start as int, pos as int));
        }
        Some(out)
    }

    /// The next group of the pass, or `None` once all have been yielded.
    pub fn next(&mut self) -> (r: Option<Vec<usize>>)
        requires
            old(self).wf(),
        ensures
            final(self).wf(),
            final(self).sampler == old(self).sampler,
            final(self).batch_size == old(self).batch_size,
            final(self).drop_last == old(self).drop_last,
            (old(self).next_group as nat) < old(self).spec_groups().len() ==> {
                &&& r is Some
                &&& r->0@ == old(self).spec_groups()[old(self).next_group as int]
                &&& final(self).next_group == old(self).next_group + 1
            },
            (old(self).next_group as nat) >= old(self).spec_groups().len() ==> {
                &&& r is None
                &&& final(self).next_group == old(self).next_group
            },
    {
        let g = self.next_group;
        let r = self.group_at(g);
        if r.is_some() {
            self.next_group = g + 1;
        }
        r
    }
}

/// The first `n` groups, put end to end, are the indices of `order` up to
/// position `n * batch_size` (or all of them, where that is past the end).
proof fn lemma_first_groups(order: Seq<usize>, bs: nat, n: nat)
    requires
        bs > 0,
        n == 0 || (n - 1) * bs <= order.len(),
    ensures
        Seq::new(n, |g: int| group(order, bs, g)).flatten() == order.take(
            if n * bs <= order.len() { (n * bs) as int } else { order.len() as int },
        ),
    decreases n,
{
    let gs = Seq::new(n, |g: int| group(order, bs, g));
    gs.lemma_flatten_and_flatten_alt_are_equivalent();
    if n == 0 {
        assert(gs.flatten_alt() =~= order.take(0));
    } else {
        let m = (n - 1) as nat;
        assert(m == 0 || (m - 1) * bs <= order.len()) by (nonlinear_arith)
            requires
                (n - 1) * bs <= order.len(),
                m == n - 1,
                n > 0,
        ;
        assert(n * bs == m * bs + bs) by (nonlinear_arith)
            requires
                m == n - 1,
        ;
        lemma_first_groups(order, bs, m);
        let prev = Seq::new(m, |g: int| group(order, bs, g));
        assert(gs.drop_last() =~= prev);
        prev.lemma_flatten_and_flatten_alt_are_equivalent();
        assert(gs.flatten_alt() =~= order.take(
            if n * bs <= order.len() { (n * bs) as int } else { order.len() as int },
        ));
    }
}

/// Without dropping, the groups of a pass put end to end give back the
/// whole pass, in order: their sizes add up to its length, and no group is
/// empty or larger than `batch_size`.
pub proof fn lemma_grouping_complete(order: Seq<usize>, batch_size: nat)
    requires
        batch_size > 0,
    ensures
        groups(order, batch_size, false).flatten() == order,
        groups(order, batch_size, false).flatten().len() == order.len(),
        forall|g: int|
            0 <= g < groups(order, batch_size, false).len() ==> 0 < (#[trigger] groups(
                order,
                batch_size,
                false,
            )[g]).len() <= batch_size,
{
    assert forall|g: int| 0 <= g < groups(order, batch_size, false).len() implies 0 < (#[trigger] groups(
        order,
        batch_size,
        false,
    )[g]).len() <= batch_size by {
        lemma_group_in_range(order.len(), batch_size, false, g as nat);
    }
    let len = order.len();
    let n = group_count(len, batch_size, false);
    lemma_fundamental_div_mod(len as int, batch_size as int);
    lemma_mod_pos_bound(len as int, batch_size as int);
    let q = len / batch_size;
    if len % batch_size == 0 {
        assert(n * batch_size == len) by (nonlinear_arith)
            requires
                n == q,
                len == batch_size * q + 0,
        ;
        assert(n == 0 || (n - 1) * batch_size <= len) by (nonlinear_arith)
            requires
                n * batch_size == len,
        ;
    } else {
        let r = len % batch_size;
        assert(n * batch_size >= len && (n - 1) * batch_size <= len) by (nonlinear_arith)
            requires
                n == q + 1,
                len == batch_size * q + r,
                r < batch_size,
        ;
    }
    lemma_first_groups(order, batch_size, n);
    assert(groups(order, batch_size, false) =~= Seq::new(n, |g: int| group(order, batch_size, g)));
    assert(order.take(len as int) =~= order);
}

/// With dropping, every group is full, and the groups put end to end cover
/// the first `length - length % batch_size` indices of the pass, in order.
pub proof fn lemma_drop_last(order: Seq<usize>, batch_size: nat)
    requires
        batch_size > 0,
    ensures
        forall|g: int|
            0 <= g < groups(order, batch_size, true).len() ==> (#[trigger] groups(order, batch_size, true)[g]).len()
                == batch_size,
        groups(order, batch_size, true).flatten() == order.take(order.len() - (order.len() % batch_size) as int),
        groups(order, batch_size, true).flatten().len() == order.len() - (order.len() % batch_size) as int,
{
    let len = order.len();
    let n = group_count(len, batch_size, true);
    lemma_fundamental_div_mod(len as int, batch_size as int);
    lemma_mod_pos_bound(len as int, batch_size as int);
    let r = len % batch_size;
    assert(n * batch_size == len - r) by (nonlinear_arith)
        requires
            len == batch_size * n + r,
    ;
    assert(n == 0 || (n - 1) * batch_size <= len) by (nonlinear_arith)
        requires
            n * batch_size <= len,
    ;
    assert forall|g: int| 0 <= g < groups(order, batch_size, true).len() implies (#[trigger] groups(
        order,
        batch_size,
        true,
    )[g]).len() == batch_size by {
        lemma_group_in_range(len, batch_size, true, g as nat);
    }
    lemma_first_groups(order, batch_size, n);
    assert(groups(order, batch_size, true) =~= Seq::new(n, |g: int| group(order, batch_size, g)));
}

/// A pass of a sequential sampler visits `0, 1, ..., length - 1`.
pub proof fn lemma_sequential_order(s: SequentialSampler)
    ensures
        order(&s) == Seq::new(s.data_source_len as nat, |i: int| i as usize),
{
    assert(order(&s) =~= Seq::new(s.data_source_len as nat, |i: int| i as usize));
}

/// A well-formed random sampler visits each index of `0..length` exactly once.
pub proof fn lemma_random_is_permutation(s: RandomSampler)
    requires
        s.wf(),
    ensures
        is_permutation(order(&s), s.length()),
{
    assert(order(&s) =~= s.permutation@);
}

} // verus!
