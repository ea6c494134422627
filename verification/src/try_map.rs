//! Walking a sequence with a fallible step, stopping at the first failure.

use vstd::prelude::*;

verus! {

/// Applies `f` to every element of `s` together with its index, in order, and
/// collects the results. The walk ends at the first element on which `f`
/// fails, and that failure is the result.
pub open spec fn try_map<A, B, E>(s: Seq<A>, f: spec_fn(int, A) -> Result<B, E>) -> Result<
    Seq<B>,
    E,
>
    decreases s.len(),
{
    if s.len() == 0 {
        Ok(Seq::empty())
    } else {
        match try_map(s.drop_last(), f) {
            Err(e) => Err(e),
            Ok(init) => match f(s.len() - 1, s.last()) {
                Err(e) => Err(e),
                Ok(b) => Ok(init.push(b)),
            },
        }
    }
}

/// Walking one element further: the walk over the first `i + 1` elements is
/// the walk over the first `i`, followed by `f` on element `i`.
pub proof fn lemma_try_map_step<A, B, E>(s: Seq<A>, f: spec_fn(int, A) -> Result<B, E>, i: int)
    requires
        0 <= i < s.len(),
    ensures
        try_map(s.take(i + 1), f) == match try_map(s.take(i), f) {
            Err(e) => Err(e),
            Ok(init) => match f(i, s[i]) {
                Err(e) => Err(e),
                Ok(b) => Ok(init.push(b)),
            },
        },
{
    assert(s.take(i + 1).drop_last() =~= s.take(i));
}

/// A failure among the first `i` elements is the failure of the whole walk.
pub proof fn lemma_try_map_err_prefix<A, B, E>(
    s: Seq<A>,
    f: spec_fn(int, A) -> Result<B, E>,
    i: int,
)
    requires
        0 <= i <= s.len(),
        try_map(s.take(i), f) is Err,
    ensures
        try_map(s, f) == try_map(s.take(i), f),
    decreases s.len() - i,
{
    if i < s.len() {
        lemma_try_map_step(s, f, i);
        lemma_try_map_err_prefix(s, f, i + 1);
    } else {
        assert(s.take(i) =~= s);
    }
}

/// The walk succeeds exactly when `f` succeeds on every element, and then
/// yields the results of `f` in order.
pub proof fn lemma_try_map_ok<A, B, E>(s: Seq<A>, f: spec_fn(int, A) -> Result<B, E>)
    ensures
        try_map(s, f) is Ok <==> forall|i: int| 0 <= i < s.len() ==> (#[trigger] f(i, s[i])) is Ok,
        try_map(s, f) matches Ok(out) ==> out.len() == s.len() && forall|i: int|
            0 <= i < s.len() ==> f(i, s[i]) == Ok::<B, E>(#[trigger] out[i]),
    decreases s.len(),
{
    if s.len() > 0 {
        let init = s.drop_last();
        lemma_try_map_ok(init, f);
        assert(forall|i: int| 0 <= i < init.len() ==> init[i] == s[i]);
        if try_map(s, f) is Ok {
            assert forall|i: int| 0 <= i < s.len() implies (#[trigger] f(i, s[i])) is Ok by {
                if i < init.len() {
                    assert(f(i, init[i]) is Ok);
                }
            }
        }
        if forall|i: int| 0 <= i < s.len() ==> (#[trigger] f(i, s[i])) is Ok {
            assert forall|i: int| 0 <= i < init.len() implies (#[trigger] f(i, init[i])) is Ok by {
                assert(f(i, s[i]) is Ok);
            }
            assert(f(s.len() - 1, s[s.len() - 1]) is Ok);
        }
    }
}

/// If `f` succeeds on every element before `i` and fails on element `i`, the
/// walk fails as `f` does on element `i`.
pub proof fn lemma_try_map_first_err<A, B, E>(
    s: Seq<A>,
    f: spec_fn(int, A) -> Result<B, E>,
    i: int,
)
    requires
        0 <= i < s.len(),
        forall|j: int| 0 <= j < i ==> (#[trigger] f(j, s[j])) is Ok,
        f(i, s[i]) is Err,
    ensures
        try_map(s, f) matches Err(e) && f(i, s[i]) == Err::<B, E>(e),
{
    let head = s.take(i);
    lemma_try_map_ok(head, f);
    assert forall|j: int| 0 <= j < head.len() implies (#[trigger] f(j, head[j])) is Ok by {
        assert(f(j, s[j]) is Ok);
    }
    lemma_try_map_step(s, f, i);
    lemma_try_map_err_prefix(s, f, i + 1);
}

} // verus!
