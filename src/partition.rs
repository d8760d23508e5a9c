use vstd::prelude::*;

verus! {

/// Why the targets cannot be dealt out.
#[derive(Debug, PartialEq, Eq, Structural)]
pub enum PlanError {
    /// A pool of zero workers would leave every target unchecked.
    NoWorkers,
}

/// The indices `worker, worker + workers, worker + 2 * workers, ...` below
/// `n`, in ascending order: `s` holds exactly them.
pub open spec fn is_stride(s: Seq<usize>, worker: int, workers: int, n: int) -> bool {
    &&& forall|k: int| 0 <= k < s.len() ==> #[trigger] s[k] == worker + k * workers
    &&& forall|k: int| 0 <= k < s.len() ==> #[trigger] s[k] < n
    &&& worker + s.len() * workers >= n
}

/// The indices of the `worker`-th of `workers` workers among `n` targets:
/// every index `j < n` with `j % workers == worker`, in ascending order.
pub fn worker_indices(worker: usize, workers: usize, n: usize) -> (r: Vec<usize>)
    requires
        worker < workers,
    ensures
        is_stride(r@, worker as int, workers as int, n as int),
{
    let mut v: Vec<usize> = Vec::new();
    let mut j: usize = worker;
    assert(worker + v@.len() * workers == worker) by (nonlinear_arith)
        requires
            v@.len() == 0,
    ;
    while j < n
        invariant
            worker < workers,
            j < n ==> j == worker + v@.len() * workers,
            j >= n ==> worker + v@.len() * workers >= n,
            forall|k: int| 0 <= k < v@.len() ==> #[trigger] v@[k] == worker + k * workers,
            forall|k: int| 0 <= k < v@.len() ==> #[trigger] v@[k] < n,
        decreases n - j,
    {
        v.push(j);
        assert(worker + v@.len() * workers == j + workers) by (nonlinear_arith)
            requires
                j == worker + (v@.len() - 1) * workers,
        ;
        if n - j > workers {
            j = j + workers;
        } else {
            j = n;
        }
    }
    v
}

/// Deals the indices of `n` targets out to `workers` workers: worker `i`
/// gets `worker_indices(i, workers, n)`. A pool of no workers is refused.
pub fn plan(workers: usize, n: usize) -> (r: Result<Vec<Vec<usize>>, PlanError>)
    ensures
        workers == 0 <==> r == Err::<Vec<Vec<usize>>, PlanError>(PlanError::NoWorkers),
        r matches Ok(p) ==> p@.len() == workers && forall|i: int|
            0 <= i < workers ==> is_stride(#[trigger] p@[i]@, i, workers as int, n as int),
{
    if workers == 0 {
        return Err(PlanError::NoWorkers);
    }
    let mut p: Vec<Vec<usize>> = Vec::new();
    let mut i: usize = 0;
    while i < workers
        invariant
            i <= workers,
            p@.len() == i,
            forall|k: int| 0 <= k < i ==> is_stride(#[trigger] p@[k]@, k, workers as int, n as int),
        decreases workers - i,
    {
        p.push(worker_indices(i, workers, n));
        i = i + 1;
    }
    Ok(p)
}

/// An index listed in a stride sits at the place its quotient gives, and
/// belongs to the worker its remainder gives.
proof fn lemma_stride_member(s: Seq<usize>, worker: int, workers: int, n: int, k: int)
    requires
        0 <= worker < workers,
        is_stride(s, worker, workers, n),
        0 <= k < s.len(),
    ensures
        s[k] as int % workers == worker,
        s[k] as int / workers == k,
{
    assert(s[k] == worker + k * workers);
    vstd::arithmetic::div_mod::lemma_fundamental_div_mod_converse(
        s[k] as int,
        workers,
        k,
        worker,
    );
}

/// The strides of a pool partition the targets: for `workers >= 1` and `n`
/// targets, an index below `n` is listed by the worker its remainder names,
/// exactly once and by no other worker, and every listed index is below `n`.
pub proof fn lemma_strides_partition(strides: Seq<Seq<usize>>, workers: int, n: int)
    requires
        workers >= 1,
        n >= 0,
        strides.len() == workers,
        forall|i: int| 0 <= i < workers ==> is_stride(#[trigger] strides[i], i, workers, n),
    ensures
        forall|i: int, k: int|
            0 <= i < workers && 0 <= k < strides[i].len() ==> #[trigger] strides[i][k] < n,
        forall|j: int|
            0 <= j < n ==> #[trigger] strides[j % workers].contains(j as usize),
        forall|i: int, k: int|
            0 <= i < workers && 0 <= k < strides[i].len() ==> (#[trigger] strides[i][k]) as int
                % workers == i,
        forall|i: int, k1: int, k2: int|
            0 <= i < workers && 0 <= k1 < strides[i].len() && 0 <= k2 < strides[i].len()
                && #[trigger] strides[i][k1] == #[trigger] strides[i][k2] ==> k1 == k2,
{
    assert forall|i: int, k: int|
        0 <= i < workers && 0 <= k < strides[i].len() implies (#[trigger] strides[i][k]) as int
            % workers == i by {
        lemma_stride_member(strides[i], i, workers, n, k);
    }
    assert forall|i: int, k1: int, k2: int|
        0 <= i < workers && 0 <= k1 < strides[i].len() && 0 <= k2 < strides[i].len()
            && #[trigger] strides[i][k1] == #[trigger] strides[i][k2] implies k1 == k2 by {
        lemma_stride_member(strides[i], i, workers, n, k1);
        lemma_stride_member(strides[i], i, workers, n, k2);
    }
    assert forall|j: int| 0 <= j < n implies #[trigger] strides[j % workers].contains(
        j as usize,
    ) by {
        let i = j % workers;
        let q = j / workers;
        let s = strides[i];
        vstd::arithmetic::div_mod::lemma_fundamental_div_mod(j, workers);
        assert(j == i + q * workers) by (nonlinear_arith)
            requires
                j == workers * q + i,
        ;
        assert(q < s.len()) by (nonlinear_arith)
            requires
                i + s.len() * workers >= n,
                j == i + q * workers,
                j < n,
                workers >= 1,
        ;
        assert(s[q] == j);
    }
}

} // verus!
