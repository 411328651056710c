use vstd::prelude::*;

verus! {

/// Number of particle kinds.
pub const KIND_COUNT: usize = 14;

/// The closed set of particle behaviours.
#[derive(Clone, Copy, Debug, PartialEq, Eq, Structural)]
pub enum DotType {
    /// Plain particle; the only kind the life rule applies to.
    Classic,
    /// Eats `Prey` and `Classic` particles no larger than itself.
    Predator,
    /// Flees from predators.
    Prey,
    /// Eats anything at most a little larger than itself, and grows.
    Absorber,
    /// Has no interaction rule of its own.
    Transformer,
    /// Pushes other particles away.
    Repulsor,
    /// Pulls other particles toward itself.
    Attractor,
    /// Moves toward particles of other kinds.
    Chaser,
    /// Drives predators away from particles of its own kind.
    Protector,
    /// Passes through other particles without colliding.
    Phantom,
    /// Pushes close particles away hard, recoiling itself.
    Bouncer,
    /// Moves toward particles of its own kind.
    Social,
    /// Grows steadily over time.
    Grower,
    /// Spawns offspring once large enough.
    Divider,
}

/// Position of a kind in the canonical order.
pub open spec fn ordinal(t: DotType) -> nat {
    match t {
        DotType::Classic => 0,
        DotType::Predator => 1,
        DotType::Prey => 2,
        DotType::Absorber => 3,
        DotType::Transformer => 4,
        DotType::Repulsor => 5,
        DotType::Attractor => 6,
        DotType::Chaser => 7,
        DotType::Protector => 8,
        DotType::Phantom => 9,
        DotType::Bouncer => 10,
        DotType::Social => 11,
        DotType::Grower => 12,
        DotType::Divider => 13,
    }
}

/// Every kind, in the canonical order.
pub open spec fn kind_seq() -> Seq<DotType> {
    seq![
        DotType::Classic,
        DotType::Predator,
        DotType::Prey,
        DotType::Absorber,
        DotType::Transformer,
        DotType::Repulsor,
        DotType::Attractor,
        DotType::Chaser,
        DotType::Protector,
        DotType::Phantom,
        DotType::Bouncer,
        DotType::Social,
        DotType::Grower,
        DotType::Divider,
    ]
}

impl DotType {
    /// Every kind, in the canonical order.
    pub fn all_types() -> (r: Vec<DotType>)
        ensures
            r@ == kind_seq(),
    {
        let r = vec![
            DotType::Classic,
            DotType::Predator,
            DotType::Prey,
            DotType::Absorber,
            DotType::Transformer,
            DotType::Repulsor,
            DotType::Attractor,
            DotType::Chaser,
            DotType::Protector,
            DotType::Phantom,
            DotType::Bouncer,
            DotType::Social,
            DotType::Grower,
            DotType::Divider,
        ];
        assert(r@ =~= kind_seq());
        r
    }

    /// Position of this kind in the canonical order.
    pub fn index(&self) -> (r: usize)
        ensures
            r == ordinal(*self),
            r < KIND_COUNT,
    {
        match self {
            DotType::Classic => 0,
            DotType::Predator => 1,
            DotType::Prey => 2,
            DotType::Absorber => 3,
            DotType::Transformer => 4,
            DotType::Repulsor => 5,
            DotType::Attractor => 6,
            DotType::Chaser => 7,
            DotType::Protector => 8,
            DotType::Phantom => 9,
            DotType::Bouncer => 10,
            DotType::Social => 11,
            DotType::Grower => 12,
            DotType::Divider => 13,
        }
    }

    /// The kind after this one in the canonical order, wrapping round to the first.
    pub fn next(&self) -> (r: DotType)
        ensures
            ordinal(r) == (ordinal(*self) + 1) % (KIND_COUNT as nat),
    {
        let all = DotType::all_types();
        let i = self.index();
        all[(i + 1) % KIND_COUNT]
    }
}

} // verus!
