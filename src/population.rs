use vstd::prelude::*;
use crate::kind::DotType;

verus! {

/// Largest number of entries a population ever holds, dead ones included.
pub const MAX_DOTS: usize = 1000;

/// One entry of a population: a particle body, its kind, and whether it is
/// still live. A dead entry stays in place until the next compaction.
#[derive(Clone, Copy)]
pub struct Slot<T> {
    pub body: T,
    pub kind: DotType,
    pub alive: bool,
}

/// A fresh live entry.
pub open spec fn fresh<T>(body: T, kind: DotType) -> Slot<T> {
    Slot { body, kind, alive: true }
}

/// Fresh live entries for a list of newcomers.
pub open spec fn fresh_all<T>(s: Seq<(T, DotType)>) -> Seq<Slot<T>> {
    s.map_values(|e: (T, DotType)| fresh(e.0, e.1))
}

/// The live entries of `s`, in their order.
pub open spec fn living<T>(s: Seq<Slot<T>>) -> Seq<Slot<T>>
    decreases s.len(),
{
    if s.len() == 0 {
        s
    } else if s.last().alive {
        living(s.drop_last()).push(s.last())
    } else {
        living(s.drop_last())
    }
}

/// Whether `doomed` lists the index `k`.
pub open spec fn listed(doomed: Seq<usize>, k: int) -> bool {
    exists|w: int| 0 <= w < doomed.len() && doomed[w] as int == k
}

/// `s` with every entry whose index `doomed` lists marked dead.
pub open spec fn with_dead<T>(s: Seq<Slot<T>>, doomed: Seq<usize>) -> Seq<Slot<T>> {
    Seq::new(s.len(), |k: int| Slot { alive: s[k].alive && !listed(doomed, k), ..s[k] })
}

/// Entries `i < j` of `s` are both live: such a pair interacts.
pub open spec fn live_pair<T>(s: Seq<Slot<T>>, i: int, j: int) -> bool {
    0 <= i < j < s.len() && s[i].alive && s[j].alive
}

/// Pair `(a, b)` comes before pair `(c, d)` in the sweep order: by first
/// index, then by second.
pub open spec fn precedes(a: int, b: int, c: int, d: int) -> bool {
    a < c || (a == c && b < d)
}

/// Pair `(c, d)` comes after `after` in the sweep order; every pair comes
/// after `None`.
pub open spec fn comes_after(after: Option<(usize, usize)>, c: int, d: int) -> bool {
    match after {
        None => true,
        Some(p) => precedes(p.0 as int, p.1 as int, c, d),
    }
}

/// An ordered, capacity-bounded collection of particles. Indices are stable
/// until `compact`, the only operation that removes entries.
pub struct Population<T> {
    slots: Vec<Slot<T>>,
}

impl<T> View for Population<T> {
    type V = Seq<Slot<T>>;

    closed spec fn view(&self) -> Seq<Slot<T>> {
        self.slots@
    }
}

impl<T> Population<T> {
    /// The population holds at most `MAX_DOTS` entries. Every operation
    /// preserves this, so it holds after any sequence of operations.
    pub open spec fn wf(&self) -> bool {
        self@.len() <= MAX_DOTS
    }
}

impl<T: Copy> Population<T> {
    /// An empty population.
    pub fn new() -> (r: Self)
        ensures
            r@ == Seq::<Slot<T>>::empty(),
            r.wf(),
    {
        Population { slots: Vec::new() }
    }

    /// Number of entries, dead ones included.
    pub fn len(&self) -> (r: usize)
        ensures
            r == self@.len(),
    {
        self.slots.len()
    }

    /// Whether no entry can be added.
    pub fn is_full(&self) -> (r: bool)
        ensures
            r == (self@.len() == MAX_DOTS),
    {
        self.slots.len() == MAX_DOTS
    }

    /// Adds a live entry at the end, unless the population is full, in which
    /// case nothing changes. Returns whether the entry was added.
    pub fn insert(&mut self, body: T, kind: DotType) -> (added: bool)
        requires
            old(self).wf(),
        ensures
            added == (old(self)@.len() < MAX_DOTS),
            added ==> final(self)@ == old(self)@.push(fresh(body, kind)),
            !added ==> final(self)@ == old(self)@,
            final(self).wf(),
    {
        if self.slots.len() < MAX_DOTS {
            self.slots.push(Slot { body, kind, alive: true });
            true
        } else {
            false
        }
    }

    /// Adds the newcomers in order while room remains; the rest are dropped.
    /// Returns how many were added.
    pub fn insert_all(&mut self, newcomers: &Vec<(T, DotType)>) -> (added: usize)
        requires
            old(self).wf(),
        ensures
            added == vstd::math::min(newcomers@.len() as int, MAX_DOTS - old(self)@.len()),
            final(self)@ == old(self)@ + fresh_all(newcomers@).take(added as int),
            final(self).wf(),
    {
        let ghost start = self@;
        let mut k: usize = 0;
        while k < newcomers.len() && self.slots.len() < MAX_DOTS
            invariant
                k <= newcomers@.len(),
                start.len() <= MAX_DOTS,
                self@.len() == start.len() + k,
                self@.len() <= MAX_DOTS,
                self@ =~= start + fresh_all(newcomers@).take(k as int),
            decreases newcomers@.len() - k,
        {
            let (body, kind) = newcomers[k];
            self.slots.push(Slot { body, kind, alive: true });
            k = k + 1;
            assert(fresh_all(newcomers@).take(k as int) =~= fresh_all(newcomers@).take(
                (k - 1) as int,
            ).push(fresh(body, kind)));
        }
        k
    }

    /// The body stored at `i`.
    pub fn body(&self, i: usize) -> (r: T)
        requires
            i < self@.len(),
        ensures
            r == self@[i as int].body,
    {
        self.slots[i].body
    }

    /// The kind of the entry at `i`.
    pub fn kind(&self, i: usize) -> (r: DotType)
        requires
            i < self@.len(),
        ensures
            r == self@[i as int].kind,
    {
        self.slots[i].kind
    }

    /// Whether the entry at `i` is live.
    pub fn is_alive(&self, i: usize) -> (r: bool)
        requires
            i < self@.len(),
        ensures
            r == self@[i as int].alive,
    {
        self.slots[i].alive
    }

    /// Replaces the body stored at `i`, keeping its kind and liveness.
    pub fn set_body(&mut self, i: usize, body: T)
        requires
            i < old(self)@.len(),
        ensures
            final(self)@ == old(self)@.update(i as int, Slot { body, ..old(self)@[i as int] }),
    {
        let s = self.slots[i];
        self.slots.set(i, Slot { body, ..s });
    }

    /// Marks the entry at `i` dead; it stays in place until `compact`.
    pub fn mark_dead(&mut self, i: usize)
        requires
            i < old(self)@.len(),
        ensures
            final(self)@ == old(self)@.update(i as int, Slot { alive: false, ..old(self)@[i as int] }),
    {
        let s = self.slots[i];
        self.slots.set(i, Slot { alive: false, ..s });
    }

    /// Marks dead every entry whose index is listed; repeated indices are
    /// harmless.
    pub fn mark_all_dead(&mut self, doomed: &Vec<usize>)
        requires
            forall|k: int| 0 <= k < doomed@.len() ==> doomed@[k] < old(self)@.len(),
        ensures
            final(self)@ == with_dead(old(self)@, doomed@),
    {
        let ghost start = self@;
        let mut k: usize = 0;
        while k < doomed.len()
            invariant
                k <= doomed@.len(),
                forall|m: int| 0 <= m < doomed@.len() ==> doomed@[m] < start.len(),
                self@ =~= with_dead(start, doomed@.take(k as int)),
            decreases doomed@.len() - k,
        {
            let i = doomed[k];
            let s = self.slots[i];
            self.slots.set(i, Slot { alive: false, ..s });
            k = k + 1;
            proof {
                let prev = doomed@.take((k - 1) as int);
                let cur = doomed@.take(k as int);
                assert(cur =~= prev.push(i));
                assert forall|m: int| 0 <= m < start.len() implies #[trigger] listed(cur, m) == (
                listed(prev, m) || m == i as int) by {
                    if m == i as int {
                        assert(cur[k - 1] as int == m);
                    }
                    if listed(prev, m) {
                        let w = choose|w: int| 0 <= w < prev.len() && prev[w] as int == m;
                        assert(cur[w] as int == m);
                    }
                    if listed(cur, m) {
                        let w = choose|w: int| 0 <= w < cur.len() && cur[w] as int == m;
                        if w < k - 1 {
                            assert(prev[w] as int == m);
                        }
                    }
                }
                assert(self@ =~= with_dead(start, cur));
            }
        }
        assert(doomed@.take(doomed@.len() as int) =~= doomed@);
    }

    /// The first live pair after `after` in the sweep order (the first of
    /// all for `None`), or `None` when there is none. Starting from `None`
    /// and feeding each result back visits every live pair exactly once, in
    /// order, and no pair with a dead entry.
    pub fn next_pair(&self, after: Option<(usize, usize)>) -> (r: Option<(usize, usize)>)
        requires
            self.wf(),
            after matches Some(p) ==> p.0 < p.1 < self@.len(),
        ensures
            r matches Some(p) ==> live_pair(self@, p.0 as int, p.1 as int) && comes_after(
                after,
                p.0 as int,
                p.1 as int,
            ) && forall|a: int, b: int|
                #[trigger] live_pair(self@, a, b) && comes_after(after, a, b) ==> !precedes(
                    a,
                    b,
                    p.0 as int,
                    p.1 as int,
                ),
            r matches None ==> forall|a: int, b: int| #[trigger]
                live_pair(self@, a, b) ==> !comes_after(after, a, b),
    {
        let n = self.slots.len();
        let (mut i, mut j): (usize, usize) = match after {
            None => (0, 1),
            Some(p) => (p.0, p.1 + 1),
        };
        while i < n
            invariant
                n == self@.len(),
                n <= MAX_DOTS,
                i < j,
                i < n ==> j <= n,
                after matches Some(p) ==> p.0 < p.1 < n,
                comes_after(after, i as int, j as int) || (after matches Some(p) && p.0 == i
                    && p.1 + 1 == j),
                forall|a: int, b: int|
                    #[trigger] live_pair(self@, a, b) && comes_after(after, a, b) ==> !precedes(
                        a,
                        b,
                        i as int,
                        j as int,
                    ),
            decreases n - i,
        {
            if self.slots[i].alive {
                while j < n
                    invariant
                        n == self@.len(),
                        n <= MAX_DOTS,
                        i < j <= n,
                        self@[i as int].alive,
                        after matches Some(p) ==> p.0 < p.1 < n,
                        comes_after(after, i as int, j as int) || (after matches Some(p) && p.0
                            == i && p.1 + 1 == j),
                        forall|a: int, b: int|
                            #[trigger] live_pair(self@, a, b) && comes_after(after, a, b)
                                ==> !precedes(a, b, i as int, j as int),
                    decreases n - j,
                {
                    if self.slots[j].alive {
                        return Some((i, j));
                    }
                    j = j + 1;
                }
            }
            i = i + 1;
            j = i + 1;
        }
        None
    }

    /// Applies the outcome of an interaction sweep, in this order: the eaten
    /// entries are marked dead, the newcomers are added while room remains,
    /// and, when `compact` is set, dead entries are purged.
    pub fn settle(&mut self, eaten: &Vec<usize>, newcomers: &Vec<(T, DotType)>, compact: bool)
        requires
            old(self).wf(),
            forall|k: int| 0 <= k < eaten@.len() ==> eaten@[k] < old(self)@.len(),
        ensures
            final(self).wf(),
            ({
                let marked = with_dead(old(self)@, eaten@);
                let room = MAX_DOTS - marked.len();
                let grown = marked + fresh_all(newcomers@).take(
                    vstd::math::min(newcomers@.len() as int, room),
                );
                final(self)@ == if compact {
                    living(grown)
                } else {
                    grown
                }
            }),
    {
        self.mark_all_dead(eaten);
        self.insert_all(newcomers);
        if compact {
            self.compact();
        }
    }

    /// Number of live entries.
    pub fn live_count(&self) -> (r: usize)
        ensures
            r == living(self@).len(),
    {
        let mut n: usize = 0;
        let mut k: usize = 0;
        while k < self.slots.len()
            invariant
                k <= self@.len(),
                n == living(self@.take(k as int)).len(),
                n <= k,
            decreases self@.len() - k,
        {
            assert(self@.take((k + 1) as int).drop_last() =~= self@.take(k as int));
            if self.slots[k].alive {
                n = n + 1;
            }
            k = k + 1;
        }
        assert(self@.take(k as int) =~= self@);
        n
    }

    /// Physically removes the dead entries, keeping the live ones in order.
    /// This is the only operation that shifts indices.
    pub fn compact(&mut self)
        ensures
            final(self)@ == living(old(self)@),
            final(self)@.len() <= old(self)@.len(),
    {
        let mut kept: Vec<Slot<T>> = Vec::new();
        let mut k: usize = 0;
        while k < self.slots.len()
            invariant
                k <= self@.len(),
                kept@ == living(self@.take(k as int)),
                kept@.len() <= k,
            decreases self@.len() - k,
        {
            assert(self@.take((k + 1) as int).drop_last() =~= self@.take(k as int));
            let s = self.slots[k];
            if s.alive {
                kept.push(s);
            }
            k = k + 1;
        }
        assert(self@.take(k as int) =~= self@);
        self.slots = kept;
    }

    /// Removes every entry.
    pub fn clear(&mut self)
        ensures
            final(self)@ == Seq::<Slot<T>>::empty(),
    {
        self.slots = Vec::new();
    }
}

} // verus!
