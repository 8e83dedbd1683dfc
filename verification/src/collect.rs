//! Collecting the results of steps that may fail: the first failure ends
//! the collection and is its result.
use vstd::prelude::*;

verus! {

/// The results of `step(0)`, ..., `step(n - 1)` in order, or the first
/// error among them.
pub open spec fn try_collect<B, E>(n: nat, step: spec_fn(int) -> Result<B, E>) -> Result<
    Seq<B>,
    E,
>
    decreases n,
{
    if n == 0 {
        Ok(seq![])
    } else {
        match try_collect((n - 1) as nat, step) {
            Err(e) => Err(e),
            Ok(collected) => match step(n - 1) {
                Err(e) => Err(e),
                Ok(b) => Ok(collected.push(b)),
            },
        }
    }
}

/// The results of `step(0)`, ..., `step(n - 1)`, each a list, joined in
/// order, or the first error among them.
pub open spec fn try_concat<B, E>(n: nat, step: spec_fn(int) -> Result<Seq<B>, E>) -> Result<
    Seq<B>,
    E,
>
    decreases n,
{
    if n == 0 {
        Ok(seq![])
    } else {
        match try_concat((n - 1) as nat, step) {
            Err(e) => Err(e),
            Ok(collected) => match step(n - 1) {
                Err(e) => Err(e),
                Ok(b) => Ok(collected + b),
            },
        }
    }
}

/// A collection that has failed after `k` steps fails in the same way
/// after more.
pub proof fn lemma_try_collect_error<B, E>(n: nat, step: spec_fn(int) -> Result<B, E>, k: nat)
    requires
        k <= n,
        try_collect(k, step) is Err,
    ensures
        try_collect(n, step) == try_collect(k, step),
    decreases n - k,
{
    if k < n {
        lemma_try_collect_error(n, step, k + 1);
    }
}

/// A joined collection that has failed after `k` steps fails in the same
/// way after more.
pub proof fn lemma_try_concat_error<B, E>(
    n: nat,
    step: spec_fn(int) -> Result<Seq<B>, E>,
    k: nat,
)
    requires
        k <= n,
        try_concat(k, step) is Err,
    ensures
        try_concat(n, step) == try_concat(k, step),
    decreases n - k,
{
    if k < n {
        lemma_try_concat_error(n, step, k + 1);
    }
}

} // verus!
