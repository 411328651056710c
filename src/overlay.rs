use vstd::prelude::*;
use crate::kind::DotType;
use crate::population::{Population, Slot};

verus! {

/// Ticks between two evaluations of the life rule.
pub const LIFE_PERIOD: u64 = 30;

/// What the life rule decides for one qualifying particle.
#[derive(Clone, Copy, Debug, PartialEq, Eq, Structural)]
pub enum Verdict {
    /// Fewer than two or more than three neighbours: the particle dies.
    Dies,
    /// Exactly two neighbours: the particle survives.
    Survives,
    /// Exactly three neighbours: the particle survives and one offspring is born.
    Breeds,
}

/// The life rule for a particle with `n` qualifying neighbours.
pub open spec fn verdict_of(n: nat) -> Verdict {
    if n < 2 || n > 3 {
        Verdict::Dies
    } else if n == 3 {
        Verdict::Breeds
    } else {
        Verdict::Survives
    }
}

/// The life rule for a particle with `neighbors` qualifying neighbours.
pub fn life_verdict(neighbors: usize) -> (r: Verdict)
    ensures
        r == verdict_of(neighbors as nat),
{
    if neighbors < 2 || neighbors > 3 {
        Verdict::Dies
    } else if neighbors == 3 {
        Verdict::Breeds
    } else {
        Verdict::Survives
    }
}

/// Whether an entry takes part in the life rule: live and of the base kind.
pub open spec fn qualifies<T>(s: Slot<T>) -> bool {
    s.alive && s.kind == DotType::Classic
}

/// Number of indices `j < n`, other than `i`, whose entry qualifies and which
/// `near` says lie within range of `i`.
pub open spec fn neighbor_count<T>(s: Seq<Slot<T>>, near: Seq<Seq<bool>>, i: int, n: int) -> nat
    decreases n,
{
    if n <= 0 {
        0
    } else {
        let j = n - 1;
        neighbor_count(s, near, i, j) + if j != i && qualifies(s[j]) && near[i][j] {
            1nat
        } else {
            0nat
        }
    }
}

/// The verdict for the entry at `i`, from its neighbours among all entries.
pub open spec fn verdict_at<T>(s: Seq<Slot<T>>, near: Seq<Seq<bool>>, i: int) -> Verdict {
    verdict_of(neighbor_count(s, near, i, s.len() as int))
}

/// The indices below `n`, ascending, of the qualifying entries whose verdict
/// is `v`.
pub open spec fn picked<T>(s: Seq<Slot<T>>, near: Seq<Seq<bool>>, v: Verdict, n: int) -> Seq<usize>
    decreases n,
{
    if n <= 0 {
        seq![]
    } else {
        let i = n - 1;
        if qualifies(s[i]) && verdict_at(s, near, i) == v {
            picked(s, near, v, i).push(i as usize)
        } else {
            picked(s, near, v, i)
        }
    }
}

/// `near` is a square table over the entries of `s`.
pub open spec fn fits<T>(s: Seq<Slot<T>>, near: Seq<Seq<bool>>) -> bool {
    &&& near.len() == s.len()
    &&& forall|i: int| 0 <= i < near.len() ==> (#[trigger] near[i]).len() == s.len()
}

/// Dead entries take no part in neighbour counts: changing anything about
/// them (body, kind, or which entries they are near) leaves every count as it
/// was, as long as they stay dead.
pub proof fn lemma_dead_ignored<T>(
    s: Seq<Slot<T>>,
    t: Seq<Slot<T>>,
    near: Seq<Seq<bool>>,
    near2: Seq<Seq<bool>>,
    i: int,
    n: int,
)
    requires
        0 <= i < s.len(),
        n <= s.len(),
        t.len() == s.len(),
        forall|j: int| 0 <= j < s.len() && s[j].alive ==> #[trigger] t[j] == s[j],
        forall|j: int| 0 <= j < s.len() && !s[j].alive ==> !(#[trigger] t[j]).alive,
        forall|j: int| 0 <= j < s.len() && s[j].alive ==> #[trigger] near2[i][j] == near[i][j],
    ensures
        neighbor_count(s, near, i, n) == neighbor_count(t, near2, i, n),
    decreases n,
{
    if n > 0 {
        lemma_dead_ignored(s, t, near, near2, i, n - 1);
        let j = n - 1;
        if s[j].alive {
            assert(t[j] == s[j]);
            assert(near2[i][j] == near[i][j]);
        } else {
            assert(!t[j].alive);
        }
    }
}

/// The outcome of one pass of the life rule: the indices to mark dead, and
/// the indices of the particles next to which one offspring each is born.
pub struct LifePlan {
    pub doomed: Vec<usize>,
    pub parents: Vec<usize>,
}

impl<T: Copy> Population<T> {
    /// Evaluates the life rule on a snapshot of the population, where
    /// `near[i][j]` says whether entries `i` and `j` lie within the
    /// interaction radius of each other. Nothing is changed: every decision
    /// comes from the same neighbour counts.
    pub fn life_plan(&self, near: &Vec<Vec<bool>>) -> (r: LifePlan)
        requires
            self.wf(),
            fits(self@, near.deep_view()),
        ensures
            r.doomed@ == picked(self@, near.deep_view(), Verdict::Dies, self@.len() as int),
            r.parents@ == picked(self@, near.deep_view(), Verdict::Breeds, self@.len() as int),
    {
        let n = self.len();
        let ghost s = self@;
        let ghost nv = near.deep_view();
        let mut doomed: Vec<usize> = Vec::new();
        let mut parents: Vec<usize> = Vec::new();
        let mut i: usize = 0;
        while i < n
            invariant
                n == s.len(),
                s == self@,
                nv == near.deep_view(),
                self.wf(),
                fits(s, nv),
                i <= n,
                doomed@ == picked(s, nv, Verdict::Dies, i as int),
                parents@ == picked(s, nv, Verdict::Breeds, i as int),
            decreases n - i,
        {
            if self.is_alive(i) && self.kind(i) == DotType::Classic {
                let row = &near[i];
                assert(row@ == nv[i as int]);
                let mut count: usize = 0;
                let mut j: usize = 0;
                while j < n
                    invariant
                        n == s.len(),
                        s == self@,
                        nv == near.deep_view(),
                        fits(s, nv),
                        i < n,
                        row@ == nv[i as int],
                        j <= n,
                        count == neighbor_count(s, nv, i as int, j as int),
                        count <= j,
                    decreases n - j,
                {
                    if j != i && self.is_alive(j) && self.kind(j) == DotType::Classic && row[j] {
                        count = count + 1;
                    }
                    j = j + 1;
                }
                let v = life_verdict(count);
                if v == Verdict::Dies {
                    doomed.push(i);
                } else if v == Verdict::Breeds {
                    parents.push(i);
                }
            }
            i = i + 1;
        }
        LifePlan { doomed, parents }
    }
}

/// Every index that `picked` lists is a qualifying entry with that verdict,
/// every such entry below `n` is listed, and the list is strictly ascending,
/// so no index appears twice.
pub proof fn lemma_picked<T>(s: Seq<Slot<T>>, near: Seq<Seq<bool>>, v: Verdict, n: int)
    requires
        0 <= n <= s.len(),
        s.len() <= usize::MAX,
    ensures
        forall|k: int| 0 <= k < picked(s, near, v, n).len() ==> {
            let i = #[trigger] picked(s, near, v, n)[k] as int;
            0 <= i < n && qualifies(s[i]) && verdict_at(s, near, i) == v
        },
        forall|i: int|
            0 <= i < n && qualifies(s[i]) && verdict_at(s, near, i) == v ==> #[trigger] picked(
                s,
                near,
                v,
                n,
            ).contains(i as usize),
        forall|a: int, b: int|
            0 <= a < b < picked(s, near, v, n).len() ==> #[trigger] picked(s, near, v, n)[a]
                < #[trigger] picked(s, near, v, n)[b],
    decreases n,
{
    if n > 0 {
        lemma_picked(s, near, v, n - 1);
        let prev = picked(s, near, v, n - 1);
        let cur = picked(s, near, v, n);
        assert forall|i: int|
            0 <= i < n && qualifies(s[i]) && verdict_at(s, near, i) == v implies #[trigger] cur.contains(
            i as usize,
        ) by {
            if i < n - 1 {
                assert(prev.contains(i as usize));
                let w = choose|w: int| 0 <= w < prev.len() && prev[w] == i as usize;
                assert(cur[w] == i as usize);
            } else {
                assert(cur[cur.len() - 1] == i as usize);
            }
        }
    }
}

/// The life rule on a snapshot: a qualifying particle with two or three
/// qualifying neighbours is not marked dead; with exactly three it is the
/// parent of exactly one offspring; with fewer than two or more than three it
/// is marked dead and breeds nothing. Entries that do not qualify (dead, or of
/// another kind) are neither marked nor parents.
pub proof fn lemma_life_rule<T>(s: Seq<Slot<T>>, near: Seq<Seq<bool>>, i: int)
    requires
        0 <= i < s.len(),
        s.len() <= usize::MAX,
    ensures
        ({
            let n = neighbor_count(s, near, i, s.len() as int);
            let doomed = picked(s, near, Verdict::Dies, s.len() as int);
            let parents = picked(s, near, Verdict::Breeds, s.len() as int);
            &&& qualifies(s[i]) && (n == 2 || n == 3) ==> !doomed.contains(i as usize)
            &&& qualifies(s[i]) && n == 3 ==> parents.contains(i as usize)
            &&& forall|a: int, b: int|
                0 <= a < parents.len() && 0 <= b < parents.len() && #[trigger] parents[a] == i as usize
                    && #[trigger] parents[b] == i as usize ==> a == b
            &&& qualifies(s[i]) && n != 3 ==> !parents.contains(i as usize)
            &&& qualifies(s[i]) && (n < 2 || n > 3) ==> doomed.contains(i as usize)
            &&& !qualifies(s[i]) ==> !doomed.contains(i as usize) && !parents.contains(i as usize)
        }),
{
    let len = s.len() as int;
    lemma_picked(s, near, Verdict::Dies, len);
    lemma_picked(s, near, Verdict::Breeds, len);
    let doomed = picked(s, near, Verdict::Dies, len);
    let parents = picked(s, near, Verdict::Breeds, len);
    if doomed.contains(i as usize) {
        let w = choose|w: int| 0 <= w < doomed.len() && doomed[w] == i as usize;
        assert(doomed[w] == i as usize);
    }
    if parents.contains(i as usize) {
        let w = choose|w: int| 0 <= w < parents.len() && parents[w] == i as usize;
        assert(parents[w] == i as usize);
    }
    assert forall|a: int, b: int|
        0 <= a < parents.len() && 0 <= b < parents.len() && #[trigger] parents[a] == i as usize
            && #[trigger] parents[b] == i as usize implies a == b by {
        if a < b {
            assert(parents[a] < parents[b]);
        } else if b < a {
            assert(parents[b] < parents[a]);
        }
    }
}

} // verus!
