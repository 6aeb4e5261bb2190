//! Per-invocation measurements and the running maxima the execution
//! loop folds them into. The history of an execution is modelled as a
//! sequence of invocation records; the maxima are defined over that
//! sequence, and shown to be maxima proper — and, for durations,
//! independent of the order in which invocations ran.

use vstd::prelude::*;

verus! {

/// What one subprocess run measured: wall-clock duration, and the
/// sampler's peak resident memory when it produced any sample.
#[derive(Clone, Copy, Debug, PartialEq, Eq)]
pub struct InvocationMetrics {
    pub duration_ms: u128,
    pub max_rss_kb: Option<u64>,
}

/// One completed invocation, as the execution history records it: its
/// metrics and whether the action reported success.
#[derive(Clone, Copy, Debug, PartialEq, Eq)]
pub struct InvRecord {
    pub duration_ms: u128,
    pub rss_kb: Option<u64>,
    pub ok: bool,
}

/// The maximum duration over a history; `None` exactly when the
/// history is empty.
pub open spec fn max_duration_of(h: Seq<InvRecord>) -> Option<u128>
    decreases h.len(),
{
    if h.len() == 0 {
        None
    } else {
        match max_duration_of(h.drop_last()) {
            None => Some(h.last().duration_ms),
            Some(m) => Some(
                if h.last().duration_ms > m {
                    h.last().duration_ms
                } else {
                    m
                },
            ),
        }
    }
}

/// The maximum memory sample over a history; `None` exactly when no
/// invocation produced a sample.
pub open spec fn max_memory_of(h: Seq<InvRecord>) -> Option<u64>
    decreases h.len(),
{
    if h.len() == 0 {
        None
    } else {
        match h.last().rss_kb {
            None => max_memory_of(h.drop_last()),
            Some(k) => match max_memory_of(h.drop_last()) {
                None => Some(k),
                Some(m) => Some(
                    if k > m {
                        k
                    } else {
                        m
                    },
                ),
            },
        }
    }
}

/// How many invocations in a history reported failure.
pub open spec fn failure_count(h: Seq<InvRecord>) -> nat
    decreases h.len(),
{
    if h.len() == 0 {
        0
    } else {
        failure_count(h.drop_last()) + (if h.last().ok {
            0nat
        } else {
            1nat
        })
    }
}

/// Appending a record folds into each aggregate in the expected way.
pub proof fn lemma_history_push(h: Seq<InvRecord>, r: InvRecord)
    ensures
        max_duration_of(h.push(r)) == (match max_duration_of(h) {
            None => Some(r.duration_ms),
            Some(m) => Some(
                if r.duration_ms > m {
                    r.duration_ms
                } else {
                    m
                },
            ),
        }),
        max_memory_of(h.push(r)) == (match r.rss_kb {
            None => max_memory_of(h),
            Some(k) => match max_memory_of(h) {
                None => Some(k),
                Some(m) => Some(
                    if k > m {
                        k
                    } else {
                        m
                    },
                ),
            },
        }),
        failure_count(h.push(r)) == failure_count(h) + (if r.ok {
            0nat
        } else {
            1nat
        }),
{
    assert(h.push(r).drop_last() =~= h);
    assert(h.push(r).last() == r);
}

/// The maximum duration is a maximum proper: absent exactly on an
/// empty history, and otherwise a duration some invocation took that
/// no invocation exceeds.
pub proof fn lemma_max_duration_is_max(h: Seq<InvRecord>)
    ensures
        (max_duration_of(h) is None) <==> h.len() == 0,
        h.len() > 0 ==> exists|i: int|
            0 <= i < h.len() && #[trigger] h[i].duration_ms == max_duration_of(h)->Some_0,
        forall|i: int| 0 <= i < h.len() ==> #[trigger] h[i].duration_ms <= max_duration_of(h)->Some_0,
    decreases h.len(),
{
    if h.len() > 0 {
        lemma_max_duration_is_max(h.drop_last());
        let m = max_duration_of(h)->Some_0;
        if h.len() > 1 {
            let prev = max_duration_of(h.drop_last())->Some_0;
            if h.last().duration_ms > prev {
                assert(h[h.len() - 1].duration_ms == m);
            } else {
                let j = choose|j: int|
                    0 <= j < h.drop_last().len() && #[trigger] h.drop_last()[j].duration_ms == prev;
                assert(h[j].duration_ms == m);
            }
            assert(forall|i: int|
                0 <= i < h.len() - 1 ==> #[trigger] h[i].duration_ms == h.drop_last()[i].duration_ms);
        } else {
            assert(h[0].duration_ms == m);
        }
    }
}

/// The memory maximum is absent exactly when no invocation produced a
/// sample.
pub proof fn lemma_max_memory_absent(h: Seq<InvRecord>)
    ensures
        (max_memory_of(h) is None) <==> (forall|i: int|
            0 <= i < h.len() ==> #[trigger] h[i].rss_kb is None),
    decreases h.len(),
{
    if h.len() > 0 {
        lemma_max_memory_absent(h.drop_last());
        assert(forall|i: int| 0 <= i < h.len() - 1 ==> #[trigger] h[i].rss_kb == h.drop_last()[i].rss_kb);
        assert(h[h.len() - 1] == h.last());
    }
}

/// The maximum duration of a history depends only on which records it
/// holds, not on their order: two histories with the same records,
/// fixture and repeat order aside, report the same maximum.
pub proof fn lemma_max_duration_order_independent(h1: Seq<InvRecord>, h2: Seq<InvRecord>)
    requires
        h1.to_multiset() == h2.to_multiset(),
    ensures
        max_duration_of(h1) == max_duration_of(h2),
{
    h1.to_multiset_ensures();
    h2.to_multiset_ensures();
    lemma_max_duration_is_max(h1);
    lemma_max_duration_is_max(h2);
    if h1.len() == 0 || h2.len() == 0 {
        assert(h1.to_multiset().len() == h2.to_multiset().len());
        assert(h1.len() == h2.len());
        assert(max_duration_of(h1) is None);
        assert(max_duration_of(h2) is None);
    } else {
        let m1 = max_duration_of(h1)->Some_0;
        let m2 = max_duration_of(h2)->Some_0;
        let i1 = choose|i: int| 0 <= i < h1.len() && #[trigger] h1[i].duration_ms == m1;
        assert(h1.contains(h1[i1]));
        assert(h1.to_multiset().count(h1[i1]) > 0);
        assert(h2.to_multiset().count(h1[i1]) > 0);
        assert(h2.contains(h1[i1]));
        let j1 = choose|j: int| 0 <= j < h2.len() && h2[j] == h1[i1];
        assert(h2[j1].duration_ms <= m2);
        let i2 = choose|i: int| 0 <= i < h2.len() && #[trigger] h2[i].duration_ms == m2;
        assert(h2.contains(h2[i2]));
        assert(h2.to_multiset().count(h2[i2]) > 0);
        assert(h1.to_multiset().count(h2[i2]) > 0);
        assert(h1.contains(h2[i2]));
        let j2 = choose|j: int| 0 <= j < h1.len() && h1[j] == h2[i2];
        assert(h1[j2].duration_ms <= m1);
        assert(m1 == m2);
        assert(max_duration_of(h1) == Some(m1));
        assert(max_duration_of(h2) == Some(m2));
    }
}

} // verus!
