use vstd::prelude::*;

use crate::select::select_spec;
use crate::target::Target;

verus! {

/// The value a chain of selector calls yields: `calls` lists, in
/// order, the target each selector is named after and the
/// replacement handed to it; the calls apply left to right to
/// `original`.
pub open spec fn chain_result<T>(target: Target, original: T, calls: Seq<(Target, T)>) -> T
    decreases calls.len(),
{
    if calls.len() == 0 {
        original
    } else {
        select_spec(
            target,
            calls.last().0,
            chain_result(target, original, calls.drop_last()),
            calls.last().1,
        )
    }
}

/// Extending a chain by one selector call applies that call to the
/// chain's value.
pub proof fn lemma_chain_push<T>(
    target: Target,
    original: T,
    calls: Seq<(Target, T)>,
    wanted: Target,
    replacement: T,
)
    ensures
        chain_result(target, original, calls.push((wanted, replacement))) == select_spec(
            target,
            wanted,
            chain_result(target, original, calls),
            replacement,
        ),
{
    assert(calls.push((wanted, replacement)).drop_last() =~= calls);
}

/// A chain with no selector for the active target yields the
/// original value unchanged.
pub proof fn lemma_chain_no_match<T>(target: Target, original: T, calls: Seq<(Target, T)>)
    requires
        forall|i: int| 0 <= i < calls.len() ==> (#[trigger] calls[i]).0 != target,
    ensures
        chain_result(target, original, calls) == original,
    decreases calls.len(),
{
    if calls.len() > 0 {
        lemma_chain_no_match(target, original, calls.drop_last());
    }
}

/// The last selector for the active target decides the chain's
/// value: it yields that call's replacement, whatever stands
/// elsewhere in the chain.
pub proof fn lemma_chain_last_match<T>(
    target: Target,
    original: T,
    calls: Seq<(Target, T)>,
    i: int,
)
    requires
        0 <= i < calls.len(),
        calls[i].0 == target,
        forall|j: int| i < j < calls.len() ==> (#[trigger] calls[j]).0 != target,
    ensures
        chain_result(target, original, calls) == calls[i].1,
    decreases calls.len(),
{
    if i < calls.len() - 1 {
        lemma_chain_last_match(target, original, calls.drop_last(), i);
    }
}

/// A selector for a target other than the active one can be dropped
/// from any position of a chain without changing its value.
pub proof fn lemma_chain_skip_non_match<T>(
    target: Target,
    original: T,
    calls: Seq<(Target, T)>,
    i: int,
)
    requires
        0 <= i < calls.len(),
        calls[i].0 != target,
    ensures
        chain_result(target, original, calls.remove(i)) == chain_result(target, original, calls),
    decreases calls.len(),
{
    if i == calls.len() - 1 {
        assert(calls.remove(i) =~= calls.drop_last());
    } else {
        lemma_chain_skip_non_match(target, original, calls.drop_last(), i);
        assert(calls.remove(i).drop_last() =~= calls.drop_last().remove(i));
        assert(calls.remove(i).last() == calls.last());
    }
}

} // verus!
