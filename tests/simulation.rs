use dotgame::contact::{appetite, collides, resolve_contact, Appetite, Contact};
use dotgame::forces::{pair_effects, Coefficient, Effect, Heading, Push, Reach, Role};
use dotgame::kind::{DotType, KIND_COUNT};
use dotgame::overlay::{life_verdict, Verdict};
use dotgame::population::{Population, MAX_DOTS};
use dotgame::schedule::{Controls, TickPlan};
use dotgame::seeding::{kinds_from_draws, seed_kinds};

fn pull(subject: Role, halves: u32) -> Effect {
    Effect::Push(Push {
        subject,
        heading: Heading::Toward,
        coefficient: Coefficient::Attraction,
        halves,
        reach: Reach::Full,
    })
}

fn shove(subject: Role, halves: u32, reach: Reach) -> Effect {
    Effect::Push(Push {
        subject,
        heading: Heading::Away,
        coefficient: Coefficient::Repulsion,
        halves,
        reach,
    })
}

/// Builds a square nearness table from a list of close pairs.
fn table(n: usize, close: &[(usize, usize)]) -> Vec<Vec<bool>> {
    let mut near = vec![vec![false; n]; n];
    for &(a, b) in close {
        near[a][b] = true;
        near[b][a] = true;
    }
    near
}

#[test]
fn all_types_lists_each_kind_once_in_order() {
    let all = DotType::all_types();
    assert_eq!(all.len(), KIND_COUNT);
    assert_eq!(all[0], DotType::Classic);
    assert_eq!(all[1], DotType::Predator);
    assert_eq!(all[9], DotType::Phantom);
    assert_eq!(all[13], DotType::Divider);
    for (k, t) in all.iter().enumerate() {
        assert_eq!(t.index(), k);
    }
}

#[test]
fn next_kind_wraps_round() {
    assert_eq!(DotType::Classic.next(), DotType::Predator);
    assert_eq!(DotType::Grower.next(), DotType::Divider);
    assert_eq!(DotType::Divider.next(), DotType::Classic);
}

#[test]
fn predators_eat_prey_and_classic_only() {
    assert_eq!(appetite(DotType::Predator, DotType::Prey), Appetite::NotLarger);
    assert_eq!(appetite(DotType::Predator, DotType::Classic), Appetite::NotLarger);
    assert_eq!(appetite(DotType::Predator, DotType::Predator), Appetite::Never);
    assert_eq!(appetite(DotType::Predator, DotType::Absorber), Appetite::Never);
    assert_eq!(appetite(DotType::Prey, DotType::Predator), Appetite::Never);
}

#[test]
fn absorbers_eat_anything_nearly_as_large() {
    assert_eq!(appetite(DotType::Absorber, DotType::Predator), Appetite::NearlyAsLarge);
    assert_eq!(appetite(DotType::Absorber, DotType::Absorber), Appetite::NearlyAsLarge);
    assert_eq!(appetite(DotType::Classic, DotType::Prey), Appetite::Never);
}

#[test]
fn predator_next_to_prey_eats_it() {
    // Equal radii: the predator's appetite is met, the prey's is not.
    assert_eq!(appetite(DotType::Predator, DotType::Prey), Appetite::NotLarger);
    let c = resolve_contact(true, true, false, DotType::Predator, DotType::Prey);
    assert_eq!(c, Contact::FirstEats);
    assert!(!c.type_forces_follow());
    let c = resolve_contact(true, false, true, DotType::Prey, DotType::Predator);
    assert_eq!(c, Contact::SecondEats);
}

#[test]
fn lower_index_wins_when_both_may_eat() {
    let c = resolve_contact(true, true, true, DotType::Absorber, DotType::Absorber);
    assert_eq!(c, Contact::FirstEats);
}

#[test]
fn contact_without_meal() {
    assert_eq!(
        resolve_contact(false, true, true, DotType::Absorber, DotType::Absorber),
        Contact::Apart
    );
    let c = resolve_contact(true, false, false, DotType::Classic, DotType::Prey);
    assert_eq!(c, Contact::Collision);
    assert!(c.type_forces_follow());
    assert_eq!(
        resolve_contact(true, false, false, DotType::Phantom, DotType::Prey),
        Contact::PassThrough
    );
    assert!(!collides(DotType::Classic, DotType::Phantom));
    assert!(collides(DotType::Classic, DotType::Bouncer));
}

#[test]
fn attractor_pulls_its_neighbour() {
    // Attractor first, classic second: only the classic is pulled.
    assert_eq!(
        pair_effects(DotType::Attractor, DotType::Classic, false),
        vec![pull(Role::Second, 2)]
    );
    // Classic first, attractor second: the classic is pulled back.
    assert_eq!(
        pair_effects(DotType::Classic, DotType::Attractor, false),
        vec![pull(Role::First, 2)]
    );
}

#[test]
fn two_attractors_pull_each_other() {
    assert_eq!(
        pair_effects(DotType::Attractor, DotType::Attractor, true),
        vec![pull(Role::Second, 2), pull(Role::First, 2)]
    );
}

#[test]
fn repulsor_pushes_both_ways() {
    assert_eq!(
        pair_effects(DotType::Repulsor, DotType::Repulsor, false),
        vec![shove(Role::Second, 2, Reach::Full), shove(Role::First, 2, Reach::Full)]
    );
}

#[test]
fn kind_specific_effects() {
    assert_eq!(pair_effects(DotType::Chaser, DotType::Prey, false), vec![pull(Role::First, 4)]);
    assert_eq!(pair_effects(DotType::Chaser, DotType::Chaser, false), vec![]);
    assert_eq!(
        pair_effects(DotType::Prey, DotType::Predator, false),
        vec![shove(Role::First, 6, Reach::Full)]
    );
    assert_eq!(pair_effects(DotType::Prey, DotType::Classic, false), vec![]);
    assert_eq!(pair_effects(DotType::Social, DotType::Social, false), vec![pull(Role::First, 3)]);
    assert_eq!(
        pair_effects(DotType::Protector, DotType::Protector, false),
        vec![Effect::Guard(Reach::SevenTenths)]
    );
    assert_eq!(pair_effects(DotType::Protector, DotType::Prey, false), vec![]);
    assert_eq!(
        pair_effects(DotType::Bouncer, DotType::Classic, false),
        vec![shove(Role::Second, 10, Reach::Half), shove(Role::First, 5, Reach::Half)]
    );
    assert_eq!(pair_effects(DotType::Classic, DotType::Prey, false), vec![]);
}

#[test]
fn dividers_divide_per_pair_on_division_ticks() {
    assert_eq!(pair_effects(DotType::Divider, DotType::Classic, true), vec![Effect::Divide]);
    assert_eq!(pair_effects(DotType::Divider, DotType::Classic, false), vec![]);
    // A divider in second place does not divide for that pair.
    assert_eq!(pair_effects(DotType::Classic, DotType::Divider, true), vec![]);
}

#[test]
fn life_verdicts() {
    assert_eq!(life_verdict(0), Verdict::Dies);
    assert_eq!(life_verdict(1), Verdict::Dies);
    assert_eq!(life_verdict(2), Verdict::Survives);
    assert_eq!(life_verdict(3), Verdict::Breeds);
    assert_eq!(life_verdict(4), Verdict::Dies);
}

#[test]
fn life_rule_on_five_particles() {
    // Entry 0 is near 1, 2 and 3; entry 4 is near 3 only.
    let mut pop: Population<u32> = Population::new();
    for k in 0..5 {
        assert!(pop.insert(k, DotType::Classic));
    }
    let near = table(5, &[(0, 1), (0, 2), (0, 3), (3, 4)]);
    let plan = pop.life_plan(&near);
    // Counts: 0 -> 3, 1 -> 1, 2 -> 1, 3 -> 2, 4 -> 1.
    assert_eq!(plan.doomed, vec![1, 2, 4]);
    assert_eq!(plan.parents, vec![0]);
}

#[test]
fn life_rule_ignores_dead_and_other_kinds() {
    let mut pop: Population<u32> = Population::new();
    pop.insert(0, DotType::Classic);
    pop.insert(1, DotType::Classic);
    pop.insert(2, DotType::Classic);
    pop.insert(3, DotType::Classic);
    pop.insert(4, DotType::Prey);
    pop.mark_dead(3);
    let near = table(5, &[(0, 1), (0, 2), (0, 3), (0, 4), (1, 2)]);
    let plan = pop.life_plan(&near);
    // Entry 0 counts 1 and 2 only; 3 is dead and 4 is another kind.
    assert_eq!(plan.doomed, Vec::<usize>::new());
    assert_eq!(plan.parents, Vec::<usize>::new());
}

#[test]
fn population_never_exceeds_capacity() {
    let mut pop: Population<u32> = Population::new();
    for k in 0..MAX_DOTS {
        assert!(pop.insert(k as u32, DotType::Classic));
    }
    assert!(pop.is_full());
    assert!(!pop.insert(7, DotType::Prey));
    assert_eq!(pop.len(), MAX_DOTS);
    let more = vec![(1u32, DotType::Divider); 5];
    assert_eq!(pop.insert_all(&more), 0);
    assert_eq!(pop.len(), MAX_DOTS);
    pop.mark_dead(0);
    pop.compact();
    assert_eq!(pop.len(), MAX_DOTS - 1);
    assert_eq!(pop.insert_all(&more), 1);
    assert_eq!(pop.len(), MAX_DOTS);
    assert_eq!(pop.kind(MAX_DOTS - 1), DotType::Divider);
}

#[test]
fn insert_all_adds_in_order() {
    let mut pop: Population<u32> = Population::new();
    pop.insert(10, DotType::Classic);
    let added = pop.insert_all(&vec![(20, DotType::Prey), (30, DotType::Phantom)]);
    assert_eq!(added, 2);
    assert_eq!(pop.body(1), 20);
    assert_eq!(pop.kind(1), DotType::Prey);
    assert_eq!(pop.body(2), 30);
    assert!(pop.is_alive(2));
}

#[test]
fn marking_dead_keeps_entries_until_compaction() {
    let mut pop: Population<u32> = Population::new();
    for k in 0..4 {
        pop.insert(k * 10, DotType::Classic);
    }
    pop.mark_all_dead(&vec![2, 0, 2]);
    assert_eq!(pop.len(), 4);
    assert_eq!(pop.live_count(), 2);
    assert!(!pop.is_alive(0));
    assert!(pop.is_alive(1));
    assert!(!pop.is_alive(2));
    assert_eq!(pop.body(2), 20);
    pop.compact();
    assert_eq!(pop.len(), 2);
    assert_eq!(pop.body(0), 10);
    assert_eq!(pop.body(1), 30);
    assert_eq!(pop.live_count(), 2);
}

#[test]
fn set_body_keeps_kind_and_liveness() {
    let mut pop: Population<(i32, i32)> = Population::new();
    pop.insert((1, 2), DotType::Grower);
    pop.set_body(0, (5, 6));
    assert_eq!(pop.body(0), (5, 6));
    assert_eq!(pop.kind(0), DotType::Grower);
    assert!(pop.is_alive(0));
    pop.clear();
    assert_eq!(pop.len(), 0);
}

fn all_pairs(pop: &Population<u32>) -> Vec<(usize, usize)> {
    let mut seen = Vec::new();
    let mut cur = pop.next_pair(None);
    while let Some(p) = cur {
        seen.push(p);
        cur = pop.next_pair(Some(p));
    }
    seen
}

#[test]
fn sweep_visits_live_pairs_in_order() {
    let mut pop: Population<u32> = Population::new();
    for k in 0..5 {
        pop.insert(k, DotType::Classic);
    }
    pop.mark_dead(1);
    pop.mark_dead(4);
    assert_eq!(all_pairs(&pop), vec![(0, 2), (0, 3), (2, 3)]);
}

#[test]
fn sweep_of_empty_or_single_population() {
    let mut pop: Population<u32> = Population::new();
    assert_eq!(pop.next_pair(None), None);
    pop.insert(1, DotType::Prey);
    assert_eq!(pop.next_pair(None), None);
    pop.insert(2, DotType::Prey);
    assert_eq!(all_pairs(&pop), vec![(0, 1)]);
}

#[test]
fn settle_applies_meals_births_then_compaction() {
    let mut pop: Population<u32> = Population::new();
    for k in 0..3 {
        pop.insert(k, DotType::Classic);
    }
    pop.settle(&vec![1], &vec![(9, DotType::Divider)], false);
    assert_eq!(pop.len(), 4);
    assert!(!pop.is_alive(1));
    assert_eq!(pop.kind(3), DotType::Divider);
    pop.settle(&vec![0], &vec![], true);
    assert_eq!(pop.len(), 2);
    assert_eq!(pop.body(0), 2);
    assert_eq!(pop.body(1), 9);
}

#[test]
fn controls_start_running_with_classic_selected() {
    let c = Controls::new();
    assert!(!c.paused);
    assert!(c.show_aura);
    assert!(!c.life_mode);
    assert_eq!(c.frame, 0);
    assert_eq!(c.selected, DotType::Classic);
}

#[test]
fn toggles_flip_one_mode_each() {
    let mut c = Controls::new();
    c.toggle_pause();
    assert!(c.paused);
    c.toggle_aura();
    assert!(!c.show_aura);
    c.toggle_life_mode();
    assert!(c.life_mode);
    c.toggle_pause();
    assert!(!c.paused);
    c.cycle_selected();
    assert_eq!(c.selected, DotType::Predator);
    for _ in 0..13 {
        c.cycle_selected();
    }
    assert_eq!(c.selected, DotType::Classic);
}

#[test]
fn paused_ticks_do_nothing() {
    let mut c = Controls::new();
    c.toggle_pause();
    assert_eq!(c.begin_tick(), None);
    assert_eq!(c.frame, 0);
}

#[test]
fn tick_plans_follow_the_periods() {
    let mut c = Controls::new();
    c.toggle_life_mode();
    let first = c.begin_tick().unwrap();
    assert_eq!(first, TickPlan { frame: 1, division: false, compact: false, life: false });
    let mut plans = vec![first];
    for _ in 1..120 {
        plans.push(c.begin_tick().unwrap());
    }
    assert_eq!(c.frame, 120);
    assert_eq!(plans[29], TickPlan { frame: 30, division: false, compact: false, life: true });
    assert_eq!(plans[59], TickPlan { frame: 60, division: false, compact: true, life: true });
    assert_eq!(plans[119], TickPlan { frame: 120, division: true, compact: true, life: true });
    c.toggle_life_mode();
    for _ in 0..30 {
        c.begin_tick();
    }
    assert_eq!(c.frame, 150);
}

#[test]
fn seeding_is_capped_and_uses_the_pool() {
    let kinds = seed_kinds(50, true);
    assert_eq!(kinds.len(), 50);
    assert!(kinds.iter().all(|k| *k == DotType::Classic));
    assert_eq!(seed_kinds(0, false).len(), 0);
    assert_eq!(seed_kinds(5000, false).len(), MAX_DOTS);
}

#[test]
fn draws_pick_kinds_from_the_pool() {
    assert_eq!(
        kinds_from_draws(&vec![0, 13, 6, 9], false),
        vec![DotType::Classic, DotType::Divider, DotType::Attractor, DotType::Phantom]
    );
    assert_eq!(kinds_from_draws(&vec![0, 0], true), vec![DotType::Classic, DotType::Classic]);
}
