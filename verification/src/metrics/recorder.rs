//! The timing recorder: named duration samples and the summary statistics
//! over them (mean and 95th percentile of a sorted sample list). The
//! recorder is a value the caller threads through; printing the summary is
//! the shell's business.

use vstd::prelude::*;

verus! {

/// Recorded timing samples: `(operation name, duration in microseconds)`,
/// in recording order.
pub struct Recorder {
    pub(crate) times: Vec<(&'static str, u128)>,
}

impl Recorder {
    /// The recorded samples.
    pub closed spec fn spec_times(&self) -> Seq<(&'static str, u128)> {
        self.times@
    }

    /// A fresh recorder with no samples.
    pub fn new() -> (r: Recorder)
        ensures
            r.spec_times() == Seq::<(&'static str, u128)>::empty(),
    {
        Recorder { times: Vec::new() }
    }

    /// The recorded samples, for summarizing.
    pub fn samples(&self) -> (r: &Vec<(&'static str, u128)>)
        ensures
            r@ == self.spec_times(),
    {
        &self.times
    }
}

/// Records the time elapsed since `start` under `name`; the measured
/// duration comes from the clock and is not specified.
pub fn record(rec: &mut Recorder, name: &'static str, start: std::time::Instant)
    ensures
        final(rec).spec_times().len() == old(rec).spec_times().len() + 1,
        final(rec).spec_times().take(old(rec).spec_times().len() as int) == old(rec).spec_times(),
        final(rec).spec_times().last().0 == name,
{
    let d = std::time::Instant::now().duration_since(start);
    let us = d.as_micros();
    let ghost prev = rec.times@;
    rec.times.push((name, us));
    proof {
        assert(rec.times@.take(prev.len() as int) =~= prev);
    }
}

/// Records an explicit duration under `name`.
pub fn record_duration(rec: &mut Recorder, name: &'static str, duration_us: u128)
    ensures
        final(rec).spec_times() == old(rec).spec_times().push((name, duration_us)),
{
    rec.times.push((name, duration_us));
}

/// Whether a duration sample list is in ascending order.
pub open spec fn spec_sorted(s: Seq<u128>) -> bool {
    forall|i: int, j: int| 0 <= i < j < s.len() ==> s[i] <= s[j]
}

/// Sum of a duration sample list.
pub open spec fn spec_sum(s: Seq<u128>) -> int
    decreases s.len(),
{
    if s.len() == 0 {
        0
    } else {
        spec_sum(s.drop_last()) + s.last()
    }
}

/// Swapping two positions leaves the multiset of samples unchanged.
proof fn lemma_swap_preserves_multiset(s: Seq<u128>, i: int, j: int)
    requires
        0 <= i < s.len(),
        0 <= j < s.len(),
        i != j,
    ensures
        s.update(i, s[j]).update(j, s[i]).to_multiset() == s.to_multiset(),
{
    broadcast use vstd::seq_lib::to_multiset_update;
    broadcast use vstd::seq_lib::group_to_multiset_ensures;

    let s1 = s.update(i, s[j]);
    let s2 = s1.update(j, s[i]);
    assert(s1[j] == s[j]);
    assert(s1.to_multiset() == s.to_multiset().insert(s[j]).remove(s[i]));
    assert(s2.to_multiset() == s1.to_multiset().insert(s[i]).remove(s[j]));
    assert(s.contains(s[i]));
    assert(s.to_multiset().count(s[i]) > 0);
    assert(s2.to_multiset() =~= s.to_multiset());
}

/// Sorts a duration sample list in place, ascending; the samples are
/// re-ordered, never changed.
pub fn sort_durations(v: &mut Vec<u128>)
    ensures
        spec_sorted(final(v)@),
        final(v)@.to_multiset() == old(v)@.to_multiset(),
        final(v)@.len() == old(v)@.len(),
{
    let n = v.len();
    if n < 2 {
        return ;
    }
    let mut i: usize = 1;
    while i < n
        invariant
            n == v@.len(),
            1 <= i <= n,
            v@.to_multiset() == old(v)@.to_multiset(),
            forall|a: int, b: int|
                #![trigger v@[a], v@[b]]
                0 <= a < b < i ==> v@[a] <= v@[b],
        decreases n - i,
    {
        let mut j: usize = i;
        while j > 0 && v[j - 1] > v[j]
            invariant
                n == v@.len(),
                j <= i < n,
                v@.to_multiset() == old(v)@.to_multiset(),
                forall|a: int, b: int|
                    #![trigger v@[a], v@[b]]
                    0 <= a < b <= i && b != j ==> v@[a] <= v@[b],
            decreases j,
        {
            let x = v[j - 1];
            let y = v[j];
            proof {
                lemma_swap_preserves_multiset(v@, j - 1, j as int);
            }
            let ghost before = v@;
            v.set(j - 1, y);
            v.set(j, x);
            proof {
                assert(v@ =~= before.update(j - 1, before[j as int]).update(
                    j as int,
                    before[j - 1],
                ));
                assert forall|a: int, b: int|
                    #![trigger v@[a], v@[b]]
                    0 <= a < b <= i && b != j - 1 implies v@[a] <= v@[b] by {
                    if b == j {
                        if a < j - 1 {
                            assert(before[a] <= before[j - 1]);
                        }
                    } else if a == j - 1 || a == j {
                        assert(before[j - 1] <= before[b] && before[j as int] <= before[b]);
                    } else {
                        assert(before[a] <= before[b]);
                    }
                }
            }
            j = j - 1;
        }
        proof {
            assert forall|a: int, b: int|
                #![trigger v@[a], v@[b]]
                0 <= a < b <= i implies v@[a] <= v@[b] by {
                if b == j {
                    assert(j > 0);
                    assert(v@[j - 1] <= v@[j as int]);
                    if a < j - 1 {
                        assert(v@[a] <= v@[j - 1]);
                    }
                }
            }
        }
        i = i + 1;
    }
}

/// Sum of a prefix never exceeds the sum of the whole list.
proof fn lemma_sum_take_le(s: Seq<u128>, k: int)
    requires
        0 <= k <= s.len(),
    ensures
        spec_sum(s.take(k)) <= spec_sum(s),
    decreases s.len() - k,
{
    if k == s.len() {
        assert(s.take(k) =~= s);
    } else {
        assert(s.take(k + 1).drop_last() =~= s.take(k));
        assert(spec_sum(s.take(k + 1)) == spec_sum(s.take(k)) + s[k]);
        lemma_sum_take_le(s, k + 1);
    }
}

/// Mean of the samples in microseconds (zero on an empty list), rounded
/// down.
pub fn mean_us(v: &Vec<u128>) -> (r: u128)
    requires
        spec_sum(v@) <= u128::MAX,
    ensures
        r == if v@.len() == 0 {
            0int
        } else {
            spec_sum(v@) / (v@.len() as int)
        },
{
    if v.len() == 0 {
        return 0;
    }
    let mut sum: u128 = 0;
    let mut i: usize = 0;
    proof {
        assert(v@.take(0) =~= Seq::<u128>::empty());
    }
    while i < v.len()
        invariant
            i <= v@.len(),
            sum == spec_sum(v@.take(i as int)),
            spec_sum(v@) <= u128::MAX,
        decreases v@.len() - i,
    {
        proof {
            assert(v@.take(i + 1).drop_last() =~= v@.take(i as int));
            assert(spec_sum(v@.take(i + 1)) == spec_sum(v@.take(i as int)) + v@[i as int]);
            lemma_sum_take_le(v@, i + 1);
        }
        sum = sum + v[i];
        i = i + 1;
    }
    proof {
        assert(v@.take(v@.len() as int) =~= v@);
    }
    sum / (v.len() as u128)
}

/// The sample index the 95th percentile is read from, for `n` samples.
pub open spec fn spec_p95_index(n: nat) -> nat {
    if (n * 95) / 100 == 0 {
        0
    } else {
        ((n * 95) / 100 - 1) as nat
    }
}

/// 95th percentile of a sorted sample list (zero on an empty list): the
/// sample at index `(n * 95) / 100`, saturated down by one.
pub fn p95_us(v: &Vec<u128>) -> (r: u128)
    requires
        v@.len() * 95 <= usize::MAX,
    ensures
        r == if v@.len() == 0 {
            0u128
        } else {
            v@[spec_p95_index(v@.len()) as int]
        },
{
    let n = v.len();
    if n == 0 {
        return 0;
    }
    let idx = (n * 95) / 100;
    proof {
        assert((n * 95) / 100 < n) by (nonlinear_arith)
            requires
                n >= 1,
        ;
    }
    if idx == 0 {
        v[0]
    } else {
        v[idx - 1]
    }
}

} // verus!
