//! Collecting results in order: every value, or the first error.

use vstd::prelude::*;

verus! {

/// The values of the results, in order, where every result is a value; else
/// the first error among them.
pub open spec fn collected<T, E>(results: Seq<Result<T, E>>) -> Result<Seq<T>, E>
    decreases results.len(),
{
    if results.len() == 0 {
        Ok(Seq::empty())
    } else {
        match collected(results.drop_last()) {
            Err(e) => Err(e),
            Ok(values) => match results.last() {
                Err(e) => Err(e),
                Ok(value) => Ok(values.push(value)),
            },
        }
    }
}

/// Whether the result at `k` is the error `e`, and every result before it is
/// a value.
pub open spec fn is_first_error<T, E>(results: Seq<Result<T, E>>, k: int, e: E) -> bool {
    &&& 0 <= k < results.len()
    &&& results[k] == Err::<T, E>(e)
    &&& forall|j: int| 0 <= j < k ==> (#[trigger] results[j]) is Ok
}

/// What one more result adds to those collected before it.
pub proof fn lemma_collected_next<T, E>(results: Seq<Result<T, E>>, i: int)
    requires
        0 <= i < results.len(),
    ensures
        collected(results.take(i + 1)) == match collected(results.take(i)) {
            Err(e) => Err::<Seq<T>, E>(e),
            Ok(values) => match results[i] {
                Err(e) => Err(e),
                Ok(value) => Ok(values.push(value)),
            },
        },
{
    assert(results.take(i + 1).drop_last() =~= results.take(i));
}

/// Once the first `n` results hold an error, the whole sequence collects to
/// that error.
pub proof fn lemma_collected_failure_stays<T, E>(results: Seq<Result<T, E>>, n: int)
    requires
        0 <= n <= results.len(),
        collected(results.take(n)) is Err,
    ensures
        collected(results) == collected(results.take(n)),
    decreases results.len() - n,
{
    if n < results.len() {
        lemma_collected_next(results, n);
        lemma_collected_failure_stays(results, n + 1);
    } else {
        assert(results.take(n) =~= results);
    }
}

/// The results collect to values exactly where each of them is a value, and
/// then to those values in order.
pub proof fn lemma_collected_ok<T, E>(results: Seq<Result<T, E>>)
    ensures
        collected(results) is Ok <==> forall|j: int|
            0 <= j < results.len() ==> (#[trigger] results[j]) is Ok,
        collected(results) matches Ok(values) ==> values.len() == results.len() && forall|j: int|
            0 <= j < results.len() ==> results[j] == Ok::<T, E>(#[trigger] values[j]),
    decreases results.len(),
{
    if results.len() > 0 {
        let front = results.drop_last();
        lemma_collected_ok(front);
        assert forall|j: int| 0 <= j < front.len() implies front[j] == results[j] by {}
        if collected(results) is Ok {
            assert forall|j: int| 0 <= j < results.len() implies (#[trigger] results[j]) is Ok by {
                if j < front.len() {
                    assert(front[j] is Ok);
                }
            }
        } else if collected(front) is Err {
            let j = choose|j: int| 0 <= j < front.len() && !((#[trigger] front[j]) is Ok);
            assert(!(results[j] is Ok));
        } else {
            assert(!(results[results.len() - 1] is Ok));
        }
    }
}

/// Where the results collect to an error, it is the first error among them.
pub proof fn lemma_collected_first_error<T, E>(results: Seq<Result<T, E>>)
    ensures
        collected(results) matches Err(e) ==> exists|k: int| #[trigger]
            is_first_error(results, k, e),
    decreases results.len(),
{
    if results.len() > 0 && collected(results) is Err {
        let e = collected(results)->Err_0;
        let front = results.drop_last();
        lemma_collected_first_error(front);
        lemma_collected_ok(front);
        if collected(front) is Err {
            let k = choose|k: int| #[trigger] is_first_error(front, k, e);
            assert forall|j: int| 0 <= j < k implies (#[trigger] results[j]) is Ok by {
                assert(front[j] is Ok);
            }
            assert(is_first_error(results, k, e));
        } else {
            let k = results.len() - 1;
            assert forall|j: int| 0 <= j < k implies (#[trigger] results[j]) is Ok by {
                assert(front[j] is Ok);
            }
            assert(is_first_error(results, k, e));
        }
    }
}

} // verus!
