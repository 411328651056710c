use vstd::prelude::*;
use rand::Rng;
use crate::kind::{DotType, kind_seq};
use crate::population::MAX_DOTS;

verus! {

/// The kinds random seeding chooses among: the base kind alone while the life
/// rule is in force, every kind otherwise.
pub open spec fn seed_pool(life_mode: bool) -> Seq<DotType> {
    if life_mode {
        seq![DotType::Classic]
    } else {
        kind_seq()
    }
}

fn pool(life_mode: bool) -> (r: Vec<DotType>)
    ensures
        r@ == seed_pool(life_mode),
{
    if life_mode {
        let r = vec![DotType::Classic];
        assert(r@ =~= seed_pool(life_mode));
        r
    } else {
        DotType::all_types()
    }
}

/// Relies on rand's `thread_rng().gen_range(0..n)`: a value drawn from
/// `0..n`, which must not be empty.
#[verifier::external_body]
fn draw_below(n: usize) -> (r: usize)
    requires
        n > 0,
    ensures
        r < n,
{
    rand::thread_rng().gen_range(0..n)
}

/// The kinds picked by a list of draws, each an index into the seeding pool.
pub fn kinds_from_draws(draws: &Vec<usize>, life_mode: bool) -> (r: Vec<DotType>)
    requires
        forall|k: int| 0 <= k < draws@.len() ==> draws@[k] < seed_pool(life_mode).len(),
    ensures
        r@.len() == draws@.len(),
        forall|k: int| 0 <= k < r@.len() ==> r@[k] == seed_pool(life_mode)[draws@[k] as int],
{
    let kinds = pool(life_mode);
    let mut r: Vec<DotType> = Vec::new();
    let mut k: usize = 0;
    while k < draws.len()
        invariant
            kinds@ == seed_pool(life_mode),
            forall|m: int| 0 <= m < draws@.len() ==> draws@[m] < seed_pool(life_mode).len(),
            k <= draws@.len(),
            r@.len() == k,
            forall|m: int| 0 <= m < k ==> r@[m] == seed_pool(life_mode)[draws@[m] as int],
        decreases draws@.len() - k,
    {
        r.push(kinds[draws[k]]);
        k = k + 1;
    }
    r
}

/// Randomly chosen kinds for seeding `count` particles, at most as many as a
/// population holds; each comes from the seeding pool.
pub fn seed_kinds(count: usize, life_mode: bool) -> (r: Vec<DotType>)
    ensures
        r@.len() == vstd::math::min(count as int, MAX_DOTS as int),
        forall|k: int| 0 <= k < r@.len() ==> seed_pool(life_mode).contains(#[trigger] r@[k]),
{
    let n = if count < MAX_DOTS { count } else { MAX_DOTS };
    let size = pool(life_mode).len();
    let mut draws: Vec<usize> = Vec::new();
    let mut k: usize = 0;
    while k < n
        invariant
            size == seed_pool(life_mode).len(),
            k <= n,
            draws@.len() == k,
            forall|m: int| 0 <= m < k ==> draws@[m] < size,
        decreases n - k,
    {
        draws.push(draw_below(size));
        k = k + 1;
    }
    let r = kinds_from_draws(&draws, life_mode);
    assert forall|k: int| 0 <= k < r@.len() implies seed_pool(life_mode).contains(#[trigger] r@[k]) by {
        assert(r@[k] == seed_pool(life_mode)[draws@[k] as int]);
    }
    r
}

} // verus!
