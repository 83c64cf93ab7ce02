//! Run-metrics types and the computational half of the run-log pipeline.
//! The JSONL file writer itself (locking, rotation, fsync) is an external
//! collaborator and lives in the shell around the library; this module
//! holds what can be computed and checked: the record types, the retention
//! decision of the log rotation, the redaction of provenance arguments,
//! and (in the submodules) the timing recorder, the line schema and the
//! run identifier.

pub mod recorder;
pub mod run_id;
pub mod schema;

use vstd::prelude::*;

verus! {

/// One run to be logged: the example's name and its element count.
#[derive(Debug)]
pub struct RunLog {
    pub example: &'static str,
    pub n: usize,
}

/// An owned run-log line, as read back from a log file (fields beyond
/// these are ignored by the reader).
#[derive(Debug)]
pub struct RunLineOwned {
    pub example: String,
    pub n: usize,
    pub allocs: u64,
    pub alloc_bytes: u64,
    pub ts: String,
    pub schema_version: u8,
    pub pid: u32,
}

/// The retention decision of the log rotation: given the modification
/// times of the rotated files, returns the indices of `count - keep` files
/// to delete (none when at most `keep` exist), pairwise distinct, and such
/// that every deleted file is at most as fresh as every kept one. The
/// shell around the library performs the actual deletions.
pub fn retention_victims(mtimes: &Vec<u64>, keep: usize) -> (victims: Vec<usize>)
    ensures
        mtimes@.len() <= keep ==> victims@.len() == 0,
        mtimes@.len() > keep ==> victims@.len() == mtimes@.len() - keep,
        forall|i: int| 0 <= i < victims@.len() ==> (#[trigger] victims@[i]) < mtimes@.len(),
        forall|i: int, j: int|
            0 <= i < j < victims@.len() ==> #[trigger] victims@[i] != #[trigger] victims@[j],
        forall|i: int, k: int|
            #![trigger victims@[i], mtimes@[k]]
            0 <= i < victims@.len() && 0 <= k < mtimes@.len() && !victims@.contains(k as usize)
                ==> mtimes@[victims@[i] as int] <= mtimes@[k],
{
    let n = mtimes.len();
    if n <= keep {
        return Vec::new();
    }
    let excess = n - keep;
    let mut victims: Vec<usize> = Vec::new();
    let mut round: usize = 0;
    while round < excess
        invariant
            n == mtimes@.len(),
            excess == n - keep,
            n > keep,
            round <= excess,
            victims@.len() == round,
            forall|i: int| 0 <= i < victims@.len() ==> (#[trigger] victims@[i]) < n,
            forall|i: int, j: int|
                0 <= i < j < victims@.len() ==> #[trigger] victims@[i] != #[trigger] victims@[j],
            forall|i: int, k: int|
                #![trigger victims@[i], mtimes@[k]]
                0 <= i < victims@.len() && 0 <= k < n && !victims@.contains(k as usize)
                    ==> mtimes@[victims@[i] as int] <= mtimes@[k],
        decreases excess - round,
    {
        let (found, best) = oldest_remaining(mtimes, &victims);
        proof {
            if !found {
                lemma_covering_distinct_len(victims@, n as nat);
            }
            assert(found);
        }
        let ghost old_v = victims@;
        victims.push(best);
        proof {
            assert forall|k: int|
                0 <= k < n && !(#[trigger] victims@.contains(k as usize)) implies !old_v.contains(
                k as usize,
            ) && k != best by {
                if old_v.contains(k as usize) {
                    let i = choose|i: int| 0 <= i < old_v.len() && old_v[i] == k as usize;
                    assert(victims@[i] == k as usize);
                    assert(victims@.contains(k as usize));
                }
                if k == best {
                    assert(victims@[victims@.len() - 1] == best);
                    assert(victims@.contains(k as usize));
                }
            }
        }
        round = round + 1;
    }
    victims
}

/// Scans for the index with the smallest modification time among those not
/// yet listed in `victims`; `found` is false only when every index below
/// `mtimes.len()` is already listed.
fn oldest_remaining(mtimes: &Vec<u64>, victims: &Vec<usize>) -> (r: (bool, usize))
    ensures
        r.0 ==> (r.1 as int) < mtimes@.len() && !victims@.contains(r.1),
        r.0 ==> forall|k: int|
            0 <= k < mtimes@.len() && !victims@.contains(k as usize) ==> mtimes@[r.1 as int] <= #[trigger] mtimes@[k],
        !r.0 ==> forall|k: int|
            0 <= k < mtimes@.len() ==> #[trigger] victims@.contains(k as usize),
{
    let n = mtimes.len();
    let mut best: usize = 0;
    let mut found = false;
    let mut k: usize = 0;
    while k < n
        invariant
            n == mtimes@.len(),
            k <= n,
            found ==> (best as int) < n && !victims@.contains(best),
            found ==> forall|k2: int|
                0 <= k2 < k && !victims@.contains(k2 as usize) ==> mtimes@[best as int]
                    <= #[trigger] mtimes@[k2],
            !found ==> forall|k2: int| 0 <= k2 < k ==> #[trigger] victims@.contains(k2 as usize),
        decreases n - k,
    {
        let mut taken = false;
        let mut vi: usize = 0;
        while vi < victims.len()
            invariant
                vi <= victims@.len(),
                taken == exists|j: int| 0 <= j < vi && victims@[j] == k,
            decreases victims@.len() - vi,
        {
            if victims[vi] == k {
                taken = true;
            }
            vi = vi + 1;
        }
        proof {
            if taken {
                assert(victims@.contains(k));
            } else {
                if victims@.contains(k) {
                    let j = choose|j: int| 0 <= j < victims@.len() && victims@[j] == k;
                    assert(false);
                }
            }
        }
        if !taken {
            if !found || mtimes[k] < mtimes[best] {
                best = k;
                found = true;
            }
        }
        k = k + 1;
    }
    (found, best)
}

/// Pigeonhole: pairwise distinct indices that cover all of `0..n` cannot
/// be fewer than `n`.
proof fn lemma_covering_distinct_len(v: Seq<usize>, n: nat)
    requires
        n <= usize::MAX,
        forall|i: int, j: int| 0 <= i < j < v.len() ==> #[trigger] v[i] != #[trigger] v[j],
        forall|k: int| 0 <= k < n ==> #[trigger] v.contains(k as usize),
    ensures
        v.len() >= n,
{
    broadcast use vstd::seq_lib::seq_to_set_is_finite;
    broadcast use vstd::set::group_set_axioms;

    let m = v.map_values(|x: usize| x as int);
    assert(m.len() == v.len());
    assert(m.no_duplicates()) by {
        assert forall|i: int, j: int|
            #![trigger m[i], m[j]]
            0 <= i < m.len() && 0 <= j < m.len() && i != j implies m[i] != m[j] by {
            assert(v[i] != v[j]);
            assert(m[i] == v[i] as int && m[j] == v[j] as int);
        }
    }
    m.unique_seq_to_set();
    let s = m.to_set();
    assert forall|k: int| 0 <= k < n implies s.contains(k) by {
        assert(v.contains(k as usize));
        let i = choose|i: int| 0 <= i < v.len() && v[i] == k as usize;
        assert(m[i] == v[i] as int);
        assert(m.contains(k));
    }
    assert(vstd::set_lib::set_int_range(0, n as int).subset_of(s));
    vstd::set_lib::lemma_int_range(0, n as int);
    vstd::set_lib::lemma_len_subset(vstd::set_lib::set_int_range(0, n as int), s);
}

/// Case-insensitive match of a subject character against a lowercase
/// pattern character.
pub open spec fn spec_eq_ci(a: char, b: char) -> bool {
    a == b || (65 <= a as u32 <= 90 && a as u32 + 32 == b as u32)
}

/// Whether the lowercase pattern `p` matches `s` at `pos`,
/// case-insensitively.
pub open spec fn spec_match_at(s: Seq<char>, p: Seq<char>, pos: int) -> bool {
    &&& 0 <= pos
    &&& pos + p.len() <= s.len()
    &&& forall|j: int| 0 <= j < p.len() ==> spec_eq_ci(s[pos + j], #[trigger] p[j])
}

/// Position of the first case-insensitive occurrence of `p` in `s` at or
/// after `from`, or a negative value if there is none.
pub open spec fn spec_find_ci(s: Seq<char>, p: Seq<char>, from: int) -> int
    decreases s.len() - from,
{
    if from < 0 || from + p.len() > s.len() {
        -1
    } else if spec_match_at(s, p, from) {
        from
    } else {
        spec_find_ci(s, p, from + 1)
    }
}

/// One redaction step: everything after the first case-insensitive
/// occurrence of the lowercase pattern `p` (which ends in `=`) is replaced
/// by `***`; without an occurrence the argument is unchanged.
pub open spec fn spec_mask_with(s: Seq<char>, p: Seq<char>) -> Seq<char> {
    let pos = spec_find_ci(s, p, 0);
    if pos < 0 {
        s
    } else {
        s.take(pos + p.len()) + "***"@
    }
}

/// Full redaction of one argument: the four secret-bearing patterns are
/// applied in order, then an overlong argument is cut at 256 characters
/// and marked with an ellipsis.
pub open spec fn spec_mask_arg(s: Seq<char>) -> Seq<char> {
    let masked = spec_mask_with(
        spec_mask_with(spec_mask_with(spec_mask_with(s, "token="@), "secret="@), "password="@),
        "pwd="@,
    );
    if masked.len() > 256 {
        masked.take(256) + "..."@
    } else {
        masked
    }
}

/// Case-insensitive character comparison against a lowercase pattern
/// character.
fn eq_ci(a: char, b: char) -> (r: bool)
    ensures
        r == spec_eq_ci(a, b),
{
    a == b || (a as u32 >= 65 && a as u32 <= 90 && a as u32 + 32 == b as u32)
}

/// First case-insensitive occurrence of `p` in `s`: `r.0` says whether one
/// exists, and then `r.1` is its position.
fn find_ci(s: &str, p: &str) -> (r: (bool, usize))
    ensures
        r.0 ==> r.1 == spec_find_ci(s@, p@, 0) && spec_find_ci(s@, p@, 0) >= 0,
        !r.0 ==> spec_find_ci(s@, p@, 0) < 0,
{
    let slen = s.unicode_len();
    let plen = p.unicode_len();
    if plen > slen {
        return (false, 0);
    }
    let mut pos: usize = 0;
    while pos <= slen - plen
        invariant
            plen <= slen,
            slen == s@.len(),
            plen == p@.len(),
            pos <= slen - plen + 1,
            spec_find_ci(s@, p@, 0) == spec_find_ci(s@, p@, pos as int),
        decreases slen - pos,
    {
        if match_at(s, p, pos) {
            return (true, pos);
        }
        pos = pos + 1;
    }
    (false, 0)
}

/// Whether the lowercase pattern matches at `pos`, executable.
fn match_at(s: &str, p: &str, pos: usize) -> (r: bool)
    requires
        pos + p@.len() <= s@.len(),
    ensures
        r == spec_match_at(s@, p@, pos as int),
{
    let plen = p.unicode_len();
    let slen = s.unicode_len();
    let mut j: usize = 0;
    while j < plen
        invariant
            plen == p@.len(),
            slen == s@.len(),
            pos + plen <= s@.len(),
            j <= plen,
            forall|j2: int| 0 <= j2 < j ==> spec_eq_ci(s@[pos + j2], #[trigger] p@[j2]),
        decreases plen - j,
    {
        if !eq_ci(s.get_char(pos + j), p.get_char(j)) {
            return false;
        }
        j = j + 1;
    }
    true
}

/// A found occurrence is a real match, with the pattern inside the
/// subject.
proof fn lemma_find_ci_match(s: Seq<char>, p: Seq<char>, from: int)
    requires
        spec_find_ci(s, p, from) >= 0,
    ensures
        spec_match_at(s, p, spec_find_ci(s, p, from)),
    decreases s.len() - from,
{
    if from < 0 || from + p.len() > s.len() {
    } else if spec_match_at(s, p, from) {
    } else {
        lemma_find_ci_match(s, p, from + 1);
    }
}

/// Applies one redaction pattern to one argument.
fn mask_with(s: String, p: &str) -> (r: String)
    ensures
        r@ == spec_mask_with(s@, p@),
{
    let (found, pos) = find_ci(s.as_str(), p);
    if !found {
        return s;
    }
    let plen = p.unicode_len();
    let slen = s.as_str().unicode_len();
    proof {
        lemma_find_ci_match(s@, p@, 0);
    }
    let mut out = s.as_str().substring_char(0, pos + plen).to_owned();
    out.append("***");
    proof {
        assert(out@ =~= spec_mask_with(s@, p@));
    }
    out
}

/// Redacts one argument: secrets after `token=`, `secret=`, `password=` or
/// `pwd=` are replaced by `***`, and an argument longer than 256
/// characters is cut and marked.
pub fn mask_arg(s: String) -> (r: String)
    ensures
        r@ == spec_mask_arg(s@),
{
    let t = mask_with(mask_with(mask_with(mask_with(s, "token="), "secret="), "password="), "pwd=");
    let tl = t.as_str().unicode_len();
    if tl > 256 {
        let mut out = t.as_str().substring_char(0, 256).to_owned();
        out.append("...");
        proof {
            assert(out@ =~= spec_mask_arg(s@));
        }
        out
    } else {
        t
    }
}

/// Redacts a provenance argument list: every argument is masked, and a
/// list of more than 64 arguments is cut at 64 with a trailing marker.
pub fn mask_args(args: Vec<String>) -> (r: Vec<String>)
    ensures
        args@.len() <= 64 ==> r@.len() == args@.len(),
        args@.len() > 64 ==> r@.len() == 65,
        forall|k: int| 0 <= k < r@.len() && k < 64 ==> (#[trigger] r@[k])@ == spec_mask_arg(
            args@[k]@,
        ),
        args@.len() <= 64 ==> forall|k: int|
            0 <= k < r@.len() ==> (#[trigger] r@[k])@ == spec_mask_arg(args@[k]@),
        args@.len() > 64 ==> r@[64]@ == "...truncated"@,
{
    let n = args.len();
    let limit = if n > 64 {
        64
    } else {
        n
    };
    let mut out: Vec<String> = Vec::new();
    let mut i: usize = 0;
    while i < limit
        invariant
            limit <= n,
            n == args@.len(),
            limit <= 64,
            n > 64 ==> limit == 64,
            n <= 64 ==> limit == n,
            i <= limit,
            out@.len() == i,
            forall|k: int| 0 <= k < i ==> (#[trigger] out@[k])@ == spec_mask_arg(args@[k]@),
        decreases limit - i,
    {
        let a = args[i].clone();
        out.push(mask_arg(a));
        i = i + 1;
    }
    if n > 64 {
        out.push(String::from_str("...truncated"));
    }
    out
}

} // verus!
