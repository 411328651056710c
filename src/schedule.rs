use vstd::prelude::*;
use crate::kind::{DotType, ordinal, KIND_COUNT};
use crate::overlay::LIFE_PERIOD;

verus! {

/// Ticks between two compactions of the population.
pub const COMPACT_PERIOD: u64 = 60;

/// Ticks between two division opportunities.
pub const DIVIDE_PERIOD: u64 = 120;

/// What one running tick does besides moving the particles.
#[derive(Clone, Copy, Debug, PartialEq, Eq, Structural)]
pub struct TickPlan {
    /// The tick's number; the first tick is 1.
    pub frame: u64,
    /// Whether dividers may divide on this tick.
    pub division: bool,
    /// Whether dead entries are purged at the end of the interaction sweep.
    pub compact: bool,
    /// Whether the life rule is evaluated after the particles move.
    pub life: bool,
}

/// The plan for tick number `frame`.
pub open spec fn plan_for(frame: u64, life_mode: bool) -> TickPlan {
    TickPlan {
        frame,
        division: frame % DIVIDE_PERIOD == 0,
        compact: frame % COMPACT_PERIOD == 0,
        life: life_mode && frame % LIFE_PERIOD == 0,
    }
}

/// The user-facing modes of the simulation and its tick counter.
#[derive(Clone, Copy, Debug, PartialEq, Eq, Structural)]
pub struct Controls {
    pub paused: bool,
    pub show_aura: bool,
    /// Whether the life rule is in force (and seeding makes base-kind
    /// particles only).
    pub life_mode: bool,
    /// Number of running ticks so far.
    pub frame: u64,
    /// The kind that manual placement adds.
    pub selected: DotType,
}

impl Controls {
    /// Running, with the aura shown, the life rule off, no tick yet, and the
    /// base kind selected.
    pub fn new() -> (r: Controls)
        ensures
            r == (Controls {
                paused: false,
                show_aura: true,
                life_mode: false,
                frame: 0,
                selected: DotType::Classic,
            }),
    {
        Controls {
            paused: false,
            show_aura: true,
            life_mode: false,
            frame: 0,
            selected: DotType::Classic,
        }
    }

    /// Pauses a running simulation, or resumes a paused one.
    pub fn toggle_pause(&mut self)
        ensures
            *final(self) == (Controls { paused: !old(self).paused, ..*old(self) }),
    {
        self.paused = !self.paused;
    }

    /// Shows or hides the aura of influence.
    pub fn toggle_aura(&mut self)
        ensures
            *final(self) == (Controls { show_aura: !old(self).show_aura, ..*old(self) }),
    {
        self.show_aura = !self.show_aura;
    }

    /// Switches the life rule on or off.
    pub fn toggle_life_mode(&mut self)
        ensures
            *final(self) == (Controls { life_mode: !old(self).life_mode, ..*old(self) }),
    {
        self.life_mode = !self.life_mode;
    }

    /// Selects the next kind for manual placement, wrapping round.
    pub fn cycle_selected(&mut self)
        ensures
            final(self).paused == old(self).paused,
            final(self).show_aura == old(self).show_aura,
            final(self).life_mode == old(self).life_mode,
            final(self).frame == old(self).frame,
            ordinal(final(self).selected) == (ordinal(old(self).selected) + 1) % (KIND_COUNT as nat),
    {
        self.selected = self.selected.next();
    }

    /// Starts a tick. A paused simulation does nothing and gets no plan; a
    /// running one counts the tick and gets the plan for it.
    pub fn begin_tick(&mut self) -> (r: Option<TickPlan>)
        requires
            old(self).frame < u64::MAX,
        ensures
            old(self).paused ==> r == None::<TickPlan> && *final(self) == *old(self),
            !old(self).paused ==> *final(self) == (Controls {
                frame: (old(self).frame + 1) as u64,
                ..*old(self)
            }) && r == Some(plan_for(final(self).frame, old(self).life_mode)),
    {
        if self.paused {
            None
        } else {
            self.frame = self.frame + 1;
            let f = self.frame;
            Some(
                TickPlan {
                    frame: f,
                    division: f % DIVIDE_PERIOD == 0,
                    compact: f % COMPACT_PERIOD == 0,
                    life: self.life_mode && f % LIFE_PERIOD == 0,
                },
            )
        }
    }
}

} // verus!
