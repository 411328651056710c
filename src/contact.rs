use vstd::prelude::*;
use crate::kind::DotType;

verus! {

/// The size condition under which one particle may eat another.
#[derive(Clone, Copy, Debug, PartialEq, Eq, Structural)]
pub enum Appetite {
    /// It never eats the other.
    Never,
    /// It eats the other when its radius is at least the other's.
    NotLarger,
    /// It eats the other when its radius is at least nine tenths of the other's.
    NearlyAsLarge,
}

/// Which size condition, if any, lets a particle of kind `eater` eat one of
/// kind `target`.
pub open spec fn appetite_of(eater: DotType, target: DotType) -> Appetite {
    match eater {
        DotType::Predator => if target == DotType::Prey || target == DotType::Classic {
            Appetite::NotLarger
        } else {
            Appetite::Never
        },
        DotType::Absorber => Appetite::NearlyAsLarge,
        _ => Appetite::Never,
    }
}

/// Which size condition, if any, lets a particle of kind `eater` eat one of
/// kind `target`.
pub fn appetite(eater: DotType, target: DotType) -> (r: Appetite)
    ensures
        r == appetite_of(eater, target),
{
    match eater {
        DotType::Predator => {
            if target == DotType::Prey || target == DotType::Classic {
                Appetite::NotLarger
            } else {
                Appetite::Never
            }
        },
        DotType::Absorber => Appetite::NearlyAsLarge,
        _ => Appetite::Never,
    }
}

/// Whether two overlapping particles push each other apart: they do unless
/// one of them passes through others.
pub open spec fn solid_pair(a: DotType, b: DotType) -> bool {
    a != DotType::Phantom && b != DotType::Phantom
}

/// Whether two overlapping particles push each other apart.
pub fn collides(a: DotType, b: DotType) -> (r: bool)
    ensures
        r == solid_pair(a, b),
{
    a != DotType::Phantom && b != DotType::Phantom
}

/// How a pair of particles within interaction range is resolved at contact.
#[derive(Clone, Copy, Debug, PartialEq, Eq, Structural)]
pub enum Contact {
    /// The particles do not overlap.
    Apart,
    /// The first (lower-index) particle eats the second.
    FirstEats,
    /// The second particle eats the first.
    SecondEats,
    /// The particles overlap and push each other apart.
    Collision,
    /// The particles overlap and pass through each other.
    PassThrough,
}

/// The contact outcome for a pair of kinds `first`, `second`, where
/// `overlapping` says the centres are closer than the sum of the radii (and not
/// degenerate), and `first_eats` / `second_eats` say that each side's
/// appetite is met and the pair is within eating distance.
pub open spec fn contact_of(
    overlapping: bool,
    first_eats: bool,
    second_eats: bool,
    first: DotType,
    second: DotType,
) -> Contact {
    if !overlapping {
        Contact::Apart
    } else if first_eats {
        Contact::FirstEats
    } else if second_eats {
        Contact::SecondEats
    } else if solid_pair(first, second) {
        Contact::Collision
    } else {
        Contact::PassThrough
    }
}

/// Resolves the contact of a pair. Eating is checked first, the lower index
/// first, so when both sides qualify the first one wins.
pub fn resolve_contact(
    overlapping: bool,
    first_eats: bool,
    second_eats: bool,
    first: DotType,
    second: DotType,
) -> (r: Contact)
    ensures
        r == contact_of(overlapping, first_eats, second_eats, first, second),
{
    if !overlapping {
        Contact::Apart
    } else if first_eats {
        Contact::FirstEats
    } else if second_eats {
        Contact::SecondEats
    } else if collides(first, second) {
        Contact::Collision
    } else {
        Contact::PassThrough
    }
}

impl Contact {
    /// Whether one particle of the pair ate the other.
    pub open spec fn is_meal(self) -> bool {
        self == Contact::FirstEats || self == Contact::SecondEats
    }

    /// Whether the kind-specific forces are still evaluated for the pair:
    /// a meal resolves the pair completely.
    pub fn type_forces_follow(&self) -> (r: bool)
        ensures
            r == !self.is_meal(),
    {
        match self {
            Contact::FirstEats => false,
            Contact::SecondEats => false,
            _ => true,
        }
    }
}

/// An overlapping pair has at most one eater; when exactly one side qualifies
/// it is the eater, and when both do the lower index wins.
pub proof fn lemma_single_eater(
    first_eats: bool,
    second_eats: bool,
    first: DotType,
    second: DotType,
)
    ensures
        ({
            let c = contact_of(true, first_eats, second_eats, first, second);
            &&& c.is_meal() == (first_eats || second_eats)
            &&& (first_eats ==> c == Contact::FirstEats)
            &&& (!first_eats && second_eats ==> c == Contact::SecondEats)
        }),
{
}

} // verus!
