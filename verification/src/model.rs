//! Data model: stable object references, the committed goal, the agent's
//! persisted memory, and the per-tick world snapshot the decisions read.

use vstd::prelude::*;

verus! {

/// A stable identifier for a world object (controller, energy source,
/// construction site, spawn, extension). A reference is a plain value,
/// never a live handle: resolving it against the current tick's world may
/// fail, and every consumer treats that as a recoverable condition.
#[derive(Clone, Copy, PartialEq, Eq, Structural, Debug, Hash)]
pub struct ObjRef {
    pub id: u128,
}

/// A goal the agent has committed to across ticks. At most one is stored
/// per agent; it holds only stable references, never live handles.
#[derive(Clone, Copy, PartialEq, Eq, Structural, Debug)]
pub enum CreepTarget {
    /// Feed carried resource into the named controller.
    Upgrade(ObjRef),
    /// Gather resource from the named energy source.
    Harvest(ObjRef),
    /// Deliver carried resource; the destination is chosen anew each tick.
    Charge,
    /// Spend carried resource on the named construction site.
    Construct(ObjRef),
}

/// The agent's persisted record: exactly the committed goal, or none.
#[derive(Clone, Copy, PartialEq, Eq, Structural, Debug)]
pub struct CreepMemory {
    pub target: Option<CreepTarget>,
}

/// The agent's own live state for the current tick, as plain values.
#[derive(Clone, Copy, PartialEq, Eq, Structural, Debug)]
pub struct CreepState {
    /// Carried resource quantity.
    pub carried: u32,
    /// Remaining free carrying capacity.
    pub free: u32,
}

/// What the agent can see this tick, re-read from the world each tick.
#[derive(Clone, PartialEq, Eq, Debug)]
pub struct RoomSnapshot {
    /// References that resolve to a live object this tick.
    pub live: Vec<ObjRef>,
    /// References whose object the agent stands adjacent to this tick.
    pub adjacent: Vec<ObjRef>,
    /// The first controller among visible structures, if any.
    pub controller: Option<ObjRef>,
    /// Visible construction sites, in enumeration order.
    pub construction_sites: Vec<ObjRef>,
    /// Currently active energy sources.
    pub active_sources: Vec<ObjRef>,
    /// The agent's home spawn facility, if any.
    pub spawn: Option<ObjRef>,
    /// The first extension-class structure among visible structures, if any.
    pub extension: Option<ObjRef>,
    /// The room's aggregate stored resource.
    pub energy_available: u32,
}

/// A world action the executor asks the host to attempt this tick.
#[derive(Clone, Copy, PartialEq, Eq, Structural, Debug)]
pub enum Action {
    /// Upgrade the named controller.
    Upgrade(ObjRef),
    /// Harvest the named source.
    Harvest(ObjRef),
    /// Transfer the given amount of resource to the named structure.
    Transfer(ObjRef, u32),
    /// Build the named construction site.
    Build(ObjRef),
}

/// What the host should do after a planning step.
#[derive(Clone, Copy, PartialEq, Eq, Structural, Debug)]
pub enum Step {
    /// Attempt the action and report its outcome back to the executor.
    Act(Action),
    /// Move toward the named object, fire-and-forget; no outcome consumed.
    Move(ObjRef),
    /// Nothing to do this tick.
    Idle,
}

/// The outcome the host reports for an attempted action.
#[derive(Clone, Copy, PartialEq, Eq, Structural, Debug)]
pub enum Outcome {
    /// The action was accepted.
    Success,
    /// The action was rejected only for being out of range (recoverable).
    NotInRange,
    /// The action was rejected with any other code (fatal to this goal).
    Failed,
}

/// Whether the reference resolves to a live object this tick.
pub open spec fn ref_resolves(snap: RoomSnapshot, r: ObjRef) -> bool {
    snap.live@.contains(r)
}

/// Whether the agent stands adjacent to the referenced object this tick.
pub open spec fn ref_adjacent(snap: RoomSnapshot, r: ObjRef) -> bool {
    snap.adjacent@.contains(r)
}

/// The stable reference a goal stores, if its variant stores one.
pub open spec fn goal_ref(g: CreepTarget) -> Option<ObjRef> {
    match g {
        CreepTarget::Upgrade(c) => Some(c),
        CreepTarget::Harvest(s) => Some(s),
        CreepTarget::Charge => None,
        CreepTarget::Construct(s) => Some(s),
    }
}

/// Linear membership test against a reference list of the snapshot.
pub fn contains_ref(v: &Vec<ObjRef>, r: ObjRef) -> (b: bool)
    ensures
        b == v@.contains(r),
{
    let mut i: usize = 0;
    while i < v.len()
        invariant
            i <= v@.len(),
            forall|j: int| 0 <= j < i ==> v@[j] != r,
        decreases v@.len() - i,
    {
        if v[i] == r {
            return true;
        }
        i += 1;
    }
    false
}

} // verus!
