//! The per-agent decision engine: the action executor for a committed
//! goal, the goal resolver for an idle agent, and the spawn decision.
//!
//! Each tick the host builds a plain snapshot of what the agent can see,
//! calls [`run`], performs the returned step, and — when the step was an
//! action attempt — reports the outcome back through [`execute_react`].

use vstd::prelude::*;

use crate::model::{
    Action, CreepMemory, CreepState, CreepTarget, ObjRef, Outcome, RoomSnapshot, Step,
    contains_ref, ref_adjacent, ref_resolves,
};
use crate::rng::draw;

verus! {

/// The room's stored resource level below which a delivery prefers an
/// extension-class structure; at or above it, the delivery goes to the
/// home facility.
pub const REPLENISH_THRESHOLD: u32 = 300;

/// The population size at which no further agent is requested.
pub const CREEP_THRESHOLD: u64 = 6;

/// What the executor leaves in the goal slot and asks the host to do, for
/// a committed goal under the given agent and world state.
///
/// Per variant: the applicability condition (carried resource for
/// Upgrade/Charge/Construct, free capacity for Harvest) is checked first;
/// if it fails, or the goal's stored reference no longer resolves, the
/// goal is cleared and nothing is attempted. Harvest moves instead of
/// acting when the agent is not adjacent to the source. Charge picks its
/// destination anew each tick: an extension-class structure when the
/// room's stored resource is below the replenishment threshold and one is
/// discoverable, otherwise the home spawn facility.
pub open spec fn spec_execute_plan(
    creep: CreepState,
    snap: RoomSnapshot,
    goal: CreepTarget,
) -> (Option<CreepTarget>, Step) {
    match goal {
        CreepTarget::Upgrade(c) => {
            if creep.carried > 0 {
                if ref_resolves(snap, c) {
                    (Some(goal), Step::Act(Action::Upgrade(c)))
                } else {
                    (None, Step::Idle)
                }
            } else {
                (None, Step::Idle)
            }
        },
        CreepTarget::Harvest(s) => {
            if creep.free > 0 {
                if ref_resolves(snap, s) {
                    if ref_adjacent(snap, s) {
                        (Some(goal), Step::Act(Action::Harvest(s)))
                    } else {
                        (Some(goal), Step::Move(s))
                    }
                } else {
                    (None, Step::Idle)
                }
            } else {
                (None, Step::Idle)
            }
        },
        CreepTarget::Charge => {
            if creep.carried > 0 {
                if snap.energy_available < REPLENISH_THRESHOLD {
                    match snap.extension {
                        Some(e) => (Some(goal), Step::Act(Action::Transfer(e, creep.carried))),
                        None => (
                            Some(goal),
                            Step::Act(Action::Transfer(snap.spawn->Some_0, creep.carried)),
                        ),
                    }
                } else {
                    (Some(goal), Step::Act(Action::Transfer(snap.spawn->Some_0, creep.carried)))
                }
            } else {
                (None, Step::Idle)
            }
        },
        CreepTarget::Construct(s) => {
            if creep.carried > 0 {
                if ref_resolves(snap, s) {
                    (Some(goal), Step::Act(Action::Build(s)))
                } else {
                    (None, Step::Idle)
                }
            } else {
                (None, Step::Idle)
            }
        },
    }
}

/// A Charge goal on an agent that carries resource needs the home spawn
/// facility to be present: a missing home facility is a fault of the
/// host, so such inputs are excluded rather than handled.
pub open spec fn spawn_available_for_charge(
    creep: CreepState,
    snap: RoomSnapshot,
    target: Option<CreepTarget>,
) -> bool {
    (target == Some(CreepTarget::Charge) && creep.carried > 0) ==> snap.spawn is Some
}

/// Action executor, planning phase. Reads the committed goal and decides
/// this tick's step; clears the goal on a stale reference or a failed
/// applicability condition. With no committed goal it is a no-op.
pub fn execute_plan(creep: &CreepState, snap: &RoomSnapshot, memory: &mut CreepMemory) -> (step:
    Step)
    requires
        spawn_available_for_charge(*creep, *snap, old(memory).target),
    ensures
        old(memory).target is None ==> *final(memory) == *old(memory) && step == Step::Idle,
        old(memory).target matches Some(g) ==> ({
            let (t, s) = spec_execute_plan(*creep, *snap, g);
            final(memory).target == t && step == s
        }),
{
    let t = memory.target;
    match t {
        None => Step::Idle,
        Some(CreepTarget::Upgrade(c)) => {
            if creep.carried > 0 {
                if contains_ref(&snap.live, c) {
                    Step::Act(Action::Upgrade(c))
                } else {
                    memory.target = None;
                    Step::Idle
                }
            } else {
                memory.target = None;
                Step::Idle
            }
        },
        Some(CreepTarget::Harvest(s)) => {
            if creep.free > 0 {
                if contains_ref(&snap.live, s) {
                    if contains_ref(&snap.adjacent, s) {
                        Step::Act(Action::Harvest(s))
                    } else {
                        Step::Move(s)
                    }
                } else {
                    memory.target = None;
                    Step::Idle
                }
            } else {
                memory.target = None;
                Step::Idle
            }
        },
        Some(CreepTarget::Charge) => {
            if creep.carried > 0 {
                let dest = if snap.energy_available < REPLENISH_THRESHOLD {
                    match snap.extension {
                        Some(e) => e,
                        None => snap.spawn.unwrap(),
                    }
                } else {
                    snap.spawn.unwrap()
                };
                Step::Act(Action::Transfer(dest, creep.carried))
            } else {
                memory.target = None;
                Step::Idle
            }
        },
        Some(CreepTarget::Construct(s)) => {
            if creep.carried > 0 {
                if contains_ref(&snap.live, s) {
                    Step::Act(Action::Build(s))
                } else {
                    memory.target = None;
                    Step::Idle
                }
            } else {
                memory.target = None;
                Step::Idle
            }
        },
    }
}

/// What the goal slot holds after the outcome of an attempted action is
/// consumed. A non-range rejection clears the goal; a range rejection
/// keeps it (except for Harvest, where adjacency was already checked and
/// any rejection clears). A delivery goal is one-shot: it is also cleared
/// once the agent carries nothing.
pub open spec fn spec_react_target(
    action: Action,
    outcome: Outcome,
    carried_after: u32,
    target: Option<CreepTarget>,
) -> Option<CreepTarget> {
    match action {
        Action::Upgrade(_) => if outcome is Failed {
            None
        } else {
            target
        },
        Action::Harvest(_) => if outcome is Success {
            target
        } else {
            None
        },
        Action::Transfer(_, _) => if outcome is Failed || carried_after == 0 {
            None
        } else {
            target
        },
        Action::Build(_) => if outcome is Failed {
            None
        } else {
            target
        },
    }
}

/// The movement the outcome triggers: a move toward the action's target on
/// a range rejection, except for Harvest, and nothing otherwise.
pub open spec fn spec_react_move(action: Action, outcome: Outcome) -> Option<ObjRef> {
    match action {
        Action::Upgrade(c) => if outcome is NotInRange {
            Some(c)
        } else {
            None
        },
        Action::Harvest(_) => None,
        Action::Transfer(d, _) => if outcome is NotInRange {
            Some(d)
        } else {
            None
        },
        Action::Build(s) => if outcome is NotInRange {
            Some(s)
        } else {
            None
        },
    }
}

/// Action executor, reaction phase. Consumes the outcome the host reports
/// for the attempted action, updates the goal slot, and returns the target
/// to move toward, if any. `carried_after` is the agent's carried resource
/// as re-read after the attempt.
pub fn execute_react(
    action: &Action,
    outcome: Outcome,
    carried_after: u32,
    memory: &mut CreepMemory,
) -> (mv: Option<ObjRef>)
    ensures
        final(memory).target == spec_react_target(*action, outcome, carried_after, old(memory).target),
        mv == spec_react_move(*action, outcome),
        final(memory).target == old(memory).target || final(memory).target is None,
{
    match action {
        Action::Upgrade(c) => {
            match outcome {
                Outcome::Success => None,
                Outcome::NotInRange => Some(*c),
                Outcome::Failed => {
                    memory.target = None;
                    None
                },
            }
        },
        Action::Harvest(_) => {
            match outcome {
                Outcome::Success => None,
                _ => {
                    memory.target = None;
                    None
                },
            }
        },
        Action::Transfer(d, _) => {
            let mv: Option<ObjRef> = match outcome {
                Outcome::Success => None,
                Outcome::NotInRange => Some(*d),
                Outcome::Failed => {
                    memory.target = None;
                    None
                },
            };
            if carried_after == 0 {
                memory.target = None;
            }
            mv
        },
        Action::Build(s) => {
            match outcome {
                Outcome::Success => None,
                Outcome::NotInRange => Some(*s),
                Outcome::Failed => {
                    memory.target = None;
                    None
                },
            }
        },
    }
}

/// The goal the resolver commits for an idle agent, as a function of the
/// snapshot and the random draws alone — the resolver is deterministic in
/// its inputs.
///
/// With resource carried, the first draw (out of ten) selects the upgrade
/// branch with weight three when construction work exists and seven
/// otherwise; failing that, the second draw selects delivery with weight
/// three; failing that, the first visible construction site is taken, if
/// any. With nothing carried, the indexed active source is taken, if any
/// exists.
pub open spec fn spec_resolve(
    creep: CreepState,
    snap: RoomSnapshot,
    d1: u64,
    d2: u64,
    src_idx: int,
) -> Option<CreepTarget> {
    if creep.carried > 0 {
        let threshold: u64 = if snap.construction_sites@.len() > 0 {
            3
        } else {
            7
        };
        if d1 < threshold {
            match snap.controller {
                Some(c) => Some(CreepTarget::Upgrade(c)),
                None => None,
            }
        } else if d2 < 3 {
            Some(CreepTarget::Charge)
        } else if snap.construction_sites@.len() > 0 {
            Some(CreepTarget::Construct(snap.construction_sites@[0]))
        } else {
            None
        }
    } else {
        if snap.active_sources@.len() > 0 {
            Some(CreepTarget::Harvest(snap.active_sources@[src_idx]))
        } else {
            None
        }
    }
}

/// Goal resolver on explicit draws: commits the agent to at most one goal,
/// exactly as [`spec_resolve`] dictates. `d1` and `d2` are uniform draws
/// below ten; `src_idx` picks among the active sources when any exist.
pub fn resolve_with_draws(
    creep: &CreepState,
    snap: &RoomSnapshot,
    d1: u64,
    d2: u64,
    src_idx: usize,
) -> (t: Option<CreepTarget>)
    requires
        d1 < 10,
        d2 < 10,
        snap.active_sources@.len() > 0 ==> src_idx < snap.active_sources@.len(),
    ensures
        t == spec_resolve(*creep, *snap, d1, d2, src_idx as int),
{
    if creep.carried > 0 {
        let threshold: u64 = if snap.construction_sites.len() > 0 {
            3
        } else {
            7
        };
        if d1 < threshold {
            match snap.controller {
                Some(c) => Some(CreepTarget::Upgrade(c)),
                None => None,
            }
        } else if d2 < 3 {
            Some(CreepTarget::Charge)
        } else if snap.construction_sites.len() > 0 {
            Some(CreepTarget::Construct(snap.construction_sites[0]))
        } else {
            None
        }
    } else {
        if snap.active_sources.len() > 0 {
            Some(CreepTarget::Harvest(snap.active_sources[src_idx]))
        } else {
            None
        }
    }
}

/// The resolver committed some goal that [`spec_resolve`] yields for valid
/// draws — every possible outcome of the randomized policy is of this
/// shape.
pub open spec fn resolver_outcome(
    creep: CreepState,
    snap: RoomSnapshot,
    t: Option<CreepTarget>,
) -> bool {
    exists|d1: u64, d2: u64, idx: int|
        #![auto]
        d1 < 10 && d2 < 10 && 0 <= idx && (snap.active_sources@.len() > 0 ==> idx
            < snap.active_sources@.len()) && t == spec_resolve(creep, snap, d1, d2, idx)
}

/// Goal resolver: draws from the generator and commits the agent to at
/// most one goal. Runs only for an agent with no committed goal.
pub fn resolve(
    creep: &CreepState,
    snap: &RoomSnapshot,
    memory: &mut CreepMemory,
    rng: &mut rand::rngs::SmallRng,
)
    requires
        old(memory).target is None,
    ensures
        resolver_outcome(*creep, *snap, final(memory).target),
{
    let d1 = draw(rng, 10);
    let d2 = draw(rng, 10);
    let n = snap.active_sources.len();
    let idx: usize = if n > 0 {
        draw(rng, n as u64) as usize
    } else {
        0
    };
    let t = resolve_with_draws(creep, snap, d1, d2, idx);
    memory.target = t;
    proof {
        assert(spec_resolve(*creep, *snap, d1, d2, idx as int) == t);
    }
}

/// One resolve-or-execute cycle for one agent: the executor's planning
/// phase when a goal is committed, the resolver otherwise. The two never
/// both run in the same cycle.
pub fn run(
    creep: &CreepState,
    snap: &RoomSnapshot,
    memory: &mut CreepMemory,
    rng: &mut rand::rngs::SmallRng,
) -> (step: Step)
    requires
        spawn_available_for_charge(*creep, *snap, old(memory).target),
    ensures
        old(memory).target matches Some(g) ==> ({
            let (t, s) = spec_execute_plan(*creep, *snap, g);
            final(memory).target == t && step == s
        }),
        old(memory).target is None ==> step == Step::Idle && resolver_outcome(
            *creep,
            *snap,
            final(memory).target,
        ),
{
    if memory.target.is_some() {
        execute_plan(creep, snap, memory)
    } else {
        resolve(creep, snap, memory, rng);
        Step::Idle
    }
}

/// A goal slot holds at most one committed goal by construction, and a
/// committed goal is only ever kept or cleared, never replaced: the
/// planning phase leaves the same goal or none, so a different goal can
/// be assigned only after the slot was cleared and the resolver ran.
pub proof fn lemma_goal_slot_stable(creep: CreepState, snap: RoomSnapshot, g: CreepTarget)
    ensures
        ({
            let (t, s) = spec_execute_plan(creep, snap, g);
            t == Some(g) || t is None
        }),
{
}

/// The reaction phase likewise only keeps or clears the committed goal;
/// it never commits one.
pub proof fn lemma_react_never_commits(
    action: Action,
    outcome: Outcome,
    carried_after: u32,
    target: Option<CreepTarget>,
)
    ensures
        spec_react_target(action, outcome, carried_after, target) == target
            || spec_react_target(action, outcome, carried_after, target) is None,
{
}

/// An agent that carries nothing is never left committed to a goal that
/// spends resource: after planning, and after any resolver outcome, the
/// slot holds nothing or a Harvest goal.
pub proof fn lemma_empty_carry_no_spending_goal(
    creep: CreepState,
    snap: RoomSnapshot,
    g: CreepTarget,
    t: Option<CreepTarget>,
)
    requires
        creep.carried == 0,
    ensures
        ({
            let (t2, s) = spec_execute_plan(creep, snap, g);
            t2 is None || t2 matches Some(CreepTarget::Harvest(_))
        }),
        resolver_outcome(creep, snap, t) ==> (t is None || t matches Some(
            CreepTarget::Harvest(_),
        )),
{
}

/// Stale-reference handling: when a committed goal's stored reference no
/// longer resolves, the planning phase clears the goal and issues neither
/// an action attempt nor a movement.
pub proof fn lemma_stale_ref_clears(
    creep: CreepState,
    snap: RoomSnapshot,
    g: CreepTarget,
    r: ObjRef,
)
    requires
        crate::model::goal_ref(g) == Some(r),
        !ref_resolves(snap, r),
    ensures
        spec_execute_plan(creep, snap, g).0 is None,
        spec_execute_plan(creep, snap, g).1 == Step::Idle,
{
}

/// Whether to request one more agent: the room can afford the fixed body
/// and the population is below the threshold.
pub fn should_spawn(energy_available: u32, body_cost: u32, creep_count: u64) -> (b: bool)
    ensures
        b == (energy_available >= body_cost && creep_count < CREEP_THRESHOLD),
{
    energy_available >= body_cost && creep_count < CREEP_THRESHOLD
}

} // verus!
