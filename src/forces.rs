use vstd::prelude::*;
use crate::kind::DotType;

verus! {

/// One particle of an interacting pair: the lower index is the first.
#[derive(Clone, Copy, Debug, PartialEq, Eq, Structural)]
pub enum Role {
    First,
    Second,
}

/// Direction of a push, relative to the other particle of the pair.
#[derive(Clone, Copy, Debug, PartialEq, Eq, Structural)]
pub enum Heading {
    Toward,
    Away,
}

/// The configured coefficient a push is scaled by.
#[derive(Clone, Copy, Debug, PartialEq, Eq, Structural)]
pub enum Coefficient {
    Attraction,
    Repulsion,
}

/// How close a pair must be, as a share of the interaction radius, for an
/// effect to act.
#[derive(Clone, Copy, Debug, PartialEq, Eq, Structural)]
pub enum Reach {
    /// Anywhere within the interaction radius.
    Full,
    /// Closer than seven tenths of the interaction radius.
    SevenTenths,
    /// Closer than half the interaction radius.
    Half,
}

/// A force on one particle of a pair, along the line joining the two. Its
/// magnitude is the coefficient times `halves / 2`, divided by the pair's
/// distance (taken as at least 1).
#[derive(Clone, Copy, Debug, PartialEq, Eq, Structural)]
pub struct Push {
    pub subject: Role,
    pub heading: Heading,
    pub coefficient: Coefficient,
    pub halves: u32,
    pub reach: Reach,
}

/// What a pair of particles within interaction range does, beyond contact.
#[derive(Clone, Copy, Debug, PartialEq, Eq, Structural)]
pub enum Effect {
    /// A force on one of the two particles.
    Push(Push),
    /// Every predator within the interaction radius of the second particle is
    /// pushed away from it, at twice the repulsion coefficient, without
    /// distance falloff.
    Guard(Reach),
    /// The first particle, if larger than the division size, spawns one
    /// offspring near itself.
    Divide,
}

/// A push effect with the given parts.
pub open spec fn push(
    subject: Role,
    heading: Heading,
    coefficient: Coefficient,
    halves: u32,
    reach: Reach,
) -> Effect {
    Effect::Push(Push { subject, heading, coefficient, halves, reach })
}

/// The effects of the first particle's kind acting on the pair.
pub open spec fn acting(first: DotType, second: DotType, division_tick: bool) -> Seq<Effect> {
    match first {
        DotType::Attractor => seq![
            push(Role::Second, Heading::Toward, Coefficient::Attraction, 2, Reach::Full),
        ],
        DotType::Repulsor => seq![
            push(Role::Second, Heading::Away, Coefficient::Repulsion, 2, Reach::Full),
        ],
        DotType::Chaser => if second != first {
            seq![push(Role::First, Heading::Toward, Coefficient::Attraction, 4, Reach::Full)]
        } else {
            seq![]
        },
        DotType::Prey => if second == DotType::Predator {
            seq![push(Role::First, Heading::Away, Coefficient::Repulsion, 6, Reach::Full)]
        } else {
            seq![]
        },
        DotType::Social => if second == first {
            seq![push(Role::First, Heading::Toward, Coefficient::Attraction, 3, Reach::Full)]
        } else {
            seq![]
        },
        DotType::Protector => if second == first {
            seq![Effect::Guard(Reach::SevenTenths)]
        } else {
            seq![]
        },
        DotType::Divider => if division_tick {
            seq![Effect::Divide]
        } else {
            seq![]
        },
        DotType::Bouncer => seq![
            push(Role::Second, Heading::Away, Coefficient::Repulsion, 10, Reach::Half),
            push(Role::First, Heading::Away, Coefficient::Repulsion, 5, Reach::Half),
        ],
        _ => seq![],
    }
}

/// The effects of the second particle's kind acting back on the first: only
/// attraction and repulsion act in both roles.
pub open spec fn reacting(second: DotType) -> Seq<Effect> {
    match second {
        DotType::Attractor => seq![
            push(Role::First, Heading::Toward, Coefficient::Attraction, 2, Reach::Full),
        ],
        DotType::Repulsor => seq![
            push(Role::First, Heading::Away, Coefficient::Repulsion, 2, Reach::Full),
        ],
        _ => seq![],
    }
}

/// Every kind-specific effect of a pair, in the order they are applied.
pub open spec fn effects_of(first: DotType, second: DotType, division_tick: bool) -> Seq<Effect> {
    acting(first, second, division_tick) + reacting(second)
}

fn make_push(
    subject: Role,
    heading: Heading,
    coefficient: Coefficient,
    halves: u32,
    reach: Reach,
) -> (r: Effect)
    ensures
        r == push(subject, heading, coefficient, halves, reach),
{
    Effect::Push(Push { subject, heading, coefficient, halves, reach })
}

/// The kind-specific effects of a pair within interaction range, where
/// `division_tick` says whether the current tick is one on which dividers
/// divide.
pub fn pair_effects(first: DotType, second: DotType, division_tick: bool) -> (r: Vec<Effect>)
    ensures
        r@ == effects_of(first, second, division_tick),
{
    let mut r: Vec<Effect> = Vec::new();
    match first {
        DotType::Attractor => {
            r.push(make_push(Role::Second, Heading::Toward, Coefficient::Attraction, 2, Reach::Full));
        },
        DotType::Repulsor => {
            r.push(make_push(Role::Second, Heading::Away, Coefficient::Repulsion, 2, Reach::Full));
        },
        DotType::Chaser => {
            if second != first {
                r.push(make_push(Role::First, Heading::Toward, Coefficient::Attraction, 4, Reach::Full));
            }
        },
        DotType::Prey => {
            if second == DotType::Predator {
                r.push(make_push(Role::First, Heading::Away, Coefficient::Repulsion, 6, Reach::Full));
            }
        },
        DotType::Social => {
            if second == first {
                r.push(make_push(Role::First, Heading::Toward, Coefficient::Attraction, 3, Reach::Full));
            }
        },
        DotType::Protector => {
            if second == first {
                r.push(Effect::Guard(Reach::SevenTenths));
            }
        },
        DotType::Divider => {
            if division_tick {
                r.push(Effect::Divide);
            }
        },
        DotType::Bouncer => {
            r.push(make_push(Role::Second, Heading::Away, Coefficient::Repulsion, 10, Reach::Half));
            r.push(make_push(Role::First, Heading::Away, Coefficient::Repulsion, 5, Reach::Half));
        },
        _ => {},
    }
    assert(r@ =~= acting(first, second, division_tick));
    let ghost mid = r@;
    match second {
        DotType::Attractor => {
            r.push(make_push(Role::First, Heading::Toward, Coefficient::Attraction, 2, Reach::Full));
        },
        DotType::Repulsor => {
            r.push(make_push(Role::First, Heading::Away, Coefficient::Repulsion, 2, Reach::Full));
        },
        _ => {},
    }
    assert(r@ =~= mid + reacting(second));
    r
}

/// When both particles of a pair attract, each pulls the other toward
/// itself: the two pulls combine rather than cancel.
pub proof fn lemma_mutual_attraction(division_tick: bool)
    ensures
        effects_of(DotType::Attractor, DotType::Attractor, division_tick) == seq![
            push(Role::Second, Heading::Toward, Coefficient::Attraction, 2, Reach::Full),
            push(Role::First, Heading::Toward, Coefficient::Attraction, 2, Reach::Full),
        ],
{
    assert(effects_of(DotType::Attractor, DotType::Attractor, division_tick) =~= seq![
        push(Role::Second, Heading::Toward, Coefficient::Attraction, 2, Reach::Full),
        push(Role::First, Heading::Toward, Coefficient::Attraction, 2, Reach::Full),
    ]);
}

} // verus!
