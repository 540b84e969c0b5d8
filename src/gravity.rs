//! The pair schedule of the gravity pass: every unordered pair of distinct
//! bodies, once.
use vstd::prelude::*;

verus! {

/// The pairs `(i, j)` with `i < j`, taken for `j = 1, 2, ...` in turn.
pub open spec fn pairs_below(j: nat) -> Seq<(usize, usize)> {
    Seq::new(j, |i: int| (i as usize, j as usize))
}

/// All pairs `(i, j)` with `i < j < n`, grouped by `j`, each group in
/// increasing `i`.
pub open spec fn pair_seq(n: nat) -> Seq<(usize, usize)>
    decreases n,
{
    if n == 0 {
        Seq::empty()
    } else {
        pair_seq((n - 1) as nat) + pairs_below((n - 1) as nat)
    }
}

/// The pairs that the gravity pass visits for `n` bodies: each unordered
/// pair of distinct bodies once, as `(i, j)` with `i < j`.
pub fn pair_schedule(n: usize) -> (r: Vec<(usize, usize)>)
    ensures
        r@ == pair_seq(n as nat),
{
    let mut out: Vec<(usize, usize)> = Vec::new();
    let mut j: usize = 0;
    while j < n
        invariant
            0 <= j <= n,
            out@ == pair_seq(j as nat),
        decreases n - j,
    {
        let ghost prev = out@;
        let mut i: usize = 0;
        while i < j
            invariant
                0 <= i <= j,
                j < n,
                prev == pair_seq(j as nat),
                out@ == prev + pairs_below(j as nat).take(i as int),
            decreases j - i,
        {
            out.push((i, j));
            proof {
                assert(pairs_below(j as nat).take(i + 1) =~= pairs_below(j as nat).take(i as int)
                    .push((i, j)));
            }
            i = i + 1;
        }
        proof {
            assert(pairs_below(j as nat).take(j as int) =~= pairs_below(j as nat));
            assert(pair_seq((j + 1) as nat) == pair_seq(j as nat) + pairs_below(j as nat));
        }
        j = j + 1;
    }
    out
}

/// The schedule for `n` bodies holds exactly the pairs `(i, j)` with
/// `i < j < n`, each once; so with no body or a single body it is empty and
/// no force is ever computed.
pub proof fn lemma_pair_seq_exact(n: nat)
    requires
        n <= usize::MAX,
    ensures
        pair_seq(n).no_duplicates(),
        forall|k: int|
            0 <= k < pair_seq(n).len() ==> (#[trigger] pair_seq(n)[k]).0 < pair_seq(n)[k].1 < n,
        forall|i: usize, j: usize| i < j < n ==> pair_seq(n).contains((i, j)),
        n <= 1 ==> pair_seq(n).len() == 0,
    decreases n,
{
    if n > 0 {
        let m = (n - 1) as nat;
        lemma_pair_seq_exact(m);
        let s = pair_seq(m);
        let t = pairs_below(m);
        assert(pair_seq(n) == s + t);
        assert forall|k: int| 0 <= k < pair_seq(n).len() implies (#[trigger] pair_seq(n)[k]).0
            < pair_seq(n)[k].1 < n by {
            if k >= s.len() {
                assert(pair_seq(n)[k] == t[k - s.len()]);
            }
        }
        assert forall|i: usize, j: usize| i < j < n implies pair_seq(n).contains((i, j)) by {
            if j < m {
                assert(s.contains((i, j)));
                let k = choose|k: int| 0 <= k < s.len() && s[k] == (i, j);
                assert(pair_seq(n)[k] == (i, j));
            } else {
                assert(pair_seq(n)[s.len() + i] == (i, j));
            }
        }
        assert forall|a: int, b: int|
            0 <= a < pair_seq(n).len() && 0 <= b < pair_seq(n).len() && a != b implies
            pair_seq(n)[a] != pair_seq(n)[b] by {
            if a < s.len() && b < s.len() {
                assert(pair_seq(n)[a] == s[a] && pair_seq(n)[b] == s[b]);
            } else if a >= s.len() && b >= s.len() {
                assert(pair_seq(n)[a] == t[a - s.len()] && pair_seq(n)[b] == t[b - s.len()]);
            } else if a < s.len() {
                assert(pair_seq(n)[a] == s[a] && s[a].1 < m);
                assert(pair_seq(n)[b] == t[b - s.len()]);
            } else {
                assert(pair_seq(n)[b] == s[b] && s[b].1 < m);
                assert(pair_seq(n)[a] == t[a - s.len()]);
            }
        }
    }
}

} // verus!
