//! The travel state machine: drives an agent along a resolved path of
//! stargates, one hop at a time, each tick.
//!
//! The machine itself works on plain values: the caller looks up world
//! positions, measures the scalar distance from the agent to the next stargate
//! in milli-units, and performs the movement or teleport that the returned
//! action asks for. Everything the machine decides — when to move, how far,
//! when to jump, when to finish or fail — is computed and verified here.

use vstd::prelude::*;

use crate::agent::Agent;
use crate::pathfinding::SystemGraph;

verus! {

/// The distance to a stargate, in milli-units, at or under which the agent
/// jumps through it (0.1 world units).
pub const DISTANCE_REQUIRED_TO_JUMP_STARGATE_MILLI: u64 = 100;

/// The states an agent's travel action moves through. `Requested` and
/// `Executing` are working states; `Success` and `Failure` are terminal;
/// `Cancelled` is set from outside and degrades to `Failure`.
#[derive(Clone, Copy, Debug, PartialEq, Eq, Structural)]
pub enum TravelState {
    /// A travel intent has been issued.
    Requested,
    /// The agent is moving toward the next stargate of its path.
    Executing,
    /// The destination was reached and the path fully consumed.
    Success,
    /// No path was found, or the path or a lookup failed underway.
    Failure,
    /// An overriding behaviour asked the travel to stop.
    Cancelled,
}

/// The action where an agent flies to another solar system, together with
/// its accumulating desire to do so.
#[derive(Clone, Copy, Debug, PartialEq, Eq, Structural)]
pub struct FlyToSystem {
    /// The id of the system to fly to, if one has been chosen.
    pub target: Option<u32>,
    /// The desire to travel to a system, in whole points.
    pub desire: u32,
}

impl Default for FlyToSystem {
    fn default() -> (r: Self)
        ensures
            r.target is None,
            r.desire == 0,
    {
        FlyToSystem { target: None, desire: 0 }
    }
}

impl FlyToSystem {
    /// Creates a new `FlyToSystem` action with no target and no desire.
    pub fn new() -> (r: Self)
        ensures
            r.target is None,
            r.desire == 0,
    {
        FlyToSystem { target: None, desire: 0 }
    }

    /// Increases the desire to fly, saturating at `u32::MAX`.
    pub fn increase_desire(&mut self, increase_by: u32)
        ensures
            final(self).desire == if old(self).desire + increase_by <= u32::MAX {
                old(self).desire + increase_by
            } else {
                u32::MAX as int
            },
            final(self).target == old(self).target,
    {
        self.desire = self.desire.saturating_add(increase_by);
    }

    /// Reset desire back to 0.
    pub fn reset_desire(&mut self)
        ensures
            final(self).desire == 0,
            final(self).target == old(self).target,
    {
        self.desire = 0;
    }
}

/// A marker for the scorer that weighs the desire to fly to a system.
#[derive(Clone, Copy, Debug, PartialEq, Eq, Structural, Default)]
pub struct WantToFlyToSystem;

/// The utility score of the desire to fly, in hundredths: the desire
/// accumulator divided by one hundred, clamped between zero and one. It
/// saturates once one hundred points of desire have accumulated and never
/// exceeds the maximum.
pub fn want_to_fly_to_system_scorer_system(fly: &FlyToSystem) -> (score: u32)
    ensures
        score == if fly.desire <= 100 {
            fly.desire as int
        } else {
            100int
        },
        score <= 100,
        fly.desire >= 100 ==> score == 100,
{
    if fly.desire <= 100 {
        fly.desire
    } else {
        100
    }
}

/// What the caller observed about the next stargate of the path this tick.
#[derive(Clone, Copy, Debug, PartialEq, Eq, Structural)]
pub enum GateObservation {
    /// No spawned stargate matched the path's next stargate.
    Missing,
    /// The next stargate was found this far from the agent, in milli-units.
    Sighted {
        /// The scalar distance from the agent to the stargate, in milli-units.
        distance_milli: u64,
    },
}

/// What the caller must do to the world after a tick.
#[derive(Clone, Copy, Debug, PartialEq, Eq, Structural)]
pub enum TravelAction {
    /// Nothing; the machine is resting or has finished.
    Idle,
    /// Move the agent this far toward the next stargate, in milli-units.
    Move {
        /// How far to move; never farther than the stargate.
        step_milli: u64,
    },
    /// Teleport the agent to the paired destination stargate.
    Jump {
        /// The id of the system the agent arrives in.
        destination_system_id: u32,
        /// The id of the stargate the agent arrives at.
        destination_gate_id: u32,
    },
}

/// The distance an agent covers in one tick: the elapsed time times its
/// speed, but never past the target. The agent cannot overshoot, however
/// large the frame time.
pub fn movement_step(distance_milli: u64, elapsed_millis: u64, speed_milli: u64) -> (step: u64)
    ensures
        step <= distance_milli,
        step == if distance_milli as int <= (elapsed_millis as int) * (speed_milli as int)
            / 1000 {
            distance_milli as int
        } else {
            (elapsed_millis as int) * (speed_milli as int) / 1000
        },
{
    proof {
        assert((elapsed_millis as int) * (speed_milli as int) <= u128::MAX as int)
            by (nonlinear_arith)
            requires
                elapsed_millis <= u64::MAX,
                speed_milli <= u64::MAX,
        ;
    }
    let budget: u128 = (elapsed_millis as u128) * (speed_milli as u128) / 1000;
    if (distance_milli as u128) <= budget {
        distance_milli
    } else {
        proof {
            assert(budget < u64::MAX as u128);
        }
        budget as u64
    }
}

/// The remaining distance to a waypoint after some number of ticks, when
/// each tick moves `min(remaining, step)` closer until the waypoint is
/// within jump range.
pub open spec fn distance_after_ticks(d: int, step: int, k: nat) -> int
    decreases k,
{
    if k == 0 {
        d
    } else {
        let prev = distance_after_ticks(d, step, (k - 1) as nat);
        if prev <= DISTANCE_REQUIRED_TO_JUMP_STARGATE_MILLI as int {
            prev
        } else if prev <= step {
            0
        } else {
            prev - step
        }
    }
}

/// Until the waypoint is in jump range, every tick closes at least `step`
/// of the remaining distance.
pub proof fn lemma_travel_progress(d: int, step: int, k: nat)
    requires
        step >= 1,
        d >= 0,
    ensures
        distance_after_ticks(d, step, k) >= 0,
        distance_after_ticks(d, step, k)
            <= DISTANCE_REQUIRED_TO_JUMP_STARGATE_MILLI as int || distance_after_ticks(d, step, k)
            <= d - k * step,
    decreases k,
{
    if k > 0 {
        let k1 = (k - 1) as nat;
        let prev = distance_after_ticks(d, step, k1);
        lemma_travel_progress(d, step, k1);
        assert(k1 * step == k * step - step) by (nonlinear_arith)
            requires
                k >= 1,
                k1 == k - 1,
        ;
        if prev <= DISTANCE_REQUIRED_TO_JUMP_STARGATE_MILLI as int {
        } else {
            assert(prev <= d - k1 * step);
            if prev <= step {
                assert(distance_after_ticks(d, step, k) == 0);
            } else {
                assert(distance_after_ticks(d, step, k) == prev - step);
                assert(prev - step <= d - k * step);
            }
        }
    }
}

/// An agent heading for a stargate comes within jump range after a number
/// of ticks proportional to the distance over the per-tick step: once
/// `k * step` covers the starting distance, the remaining distance is at
/// or under the jump threshold, so the hop completes and, on a one-hop
/// path, the travel action succeeds with the agent's current system set
/// to the path's destination.
pub proof fn lemma_agent_reaches_jump_range(d: int, step: int, k: nat)
    requires
        step >= 1,
        d >= 0,
        k * step >= d,
    ensures
        distance_after_ticks(d, step, k) <= DISTANCE_REQUIRED_TO_JUMP_STARGATE_MILLI as int,
{
    lemma_travel_progress(d, step, k);
}

/// One tick of the fly-to-system action.
///
/// On `Requested`, a path to a random reachable system is resolved: with a
/// non-empty path the agent stores it and the action starts `Executing`;
/// on resolver failure it fails. A request is owed progress: it can fail
/// only when the graph does not know the agent's current system or some
/// indexed destination really is unreachable from it — in a connected
/// galaxy a request always starts executing. On `Executing`, the agent moves toward
/// the path's first stargate, clamped so it cannot overshoot; within jump
/// range it jumps: its position teleports to the paired stargate, its current
/// system becomes the stargate's destination, and the consumed stargate is popped
/// — `Success` once the path is empty. A missing stargate or a destination
/// system the graph does not know fails the action instead of aborting
/// the simulation. `Cancelled` degrades to `Failure`. Desire is reset on
/// every completion or failure found while executing.
pub fn fly_to_system(
    graph: &SystemGraph,
    agent: &mut Agent,
    fly: &mut FlyToSystem,
    state: &mut TravelState,
    observation: GateObservation,
    elapsed_millis: u64,
) -> (action: TravelAction)
    requires
        graph.wf(),
    ensures
        *old(state) is Requested ==> {
            &&& (*final(state) is Executing || *final(state) is Failure)
            &&& *final(fly) == *old(fly)
            &&& action == TravelAction::Idle
            &&& (*final(state) is Failure ==> *final(agent) == *old(agent))
            &&& !graph.contains_id(old(agent).current_system.system.id) ==> *final(state)
                is Failure
            &&& (graph.contains_id(old(agent).current_system.system.id)
                && !graph.some_destination_unreachable(
                graph.slot(old(agent).current_system.system.id),
            ) ==> *final(state) is Executing)
            &&& (*final(state) is Failure ==> !graph.contains_id(
                old(agent).current_system.system.id,
            ) || graph.some_destination_unreachable(
                graph.slot(old(agent).current_system.system.id),
            ))
            &&& (*final(state) is Executing ==> (*final(agent) == *old(agent) || {
                &&& final(agent).stargate_path.path@.len() > 0
                &&& graph.path_to_some_system_ok(
                    graph.slot(old(agent).current_system.system.id),
                    final(agent).stargate_path.path@,
                )
                &&& *final(agent) == (Agent {
                    stargate_path: final(agent).stargate_path,
                    ..*old(agent)
                })
            }))
        },
        *old(state) is Executing ==> {
            let path = old(agent).stargate_path.path@;
            &&& (path.len() == 0 ==> *final(state) is Failure && final(fly).desire == 0
                && *final(agent) == *old(agent) && action == TravelAction::Idle)
            &&& (path.len() > 0 && observation is Missing ==> *final(state) is Failure
                && final(fly).desire == 0 && *final(agent) == *old(agent) && action
                == TravelAction::Idle)
            &&& (observation matches GateObservation::Sighted { distance_milli } ==> path.len() > 0
                ==> {
                let gate = path[0];
                if distance_milli > DISTANCE_REQUIRED_TO_JUMP_STARGATE_MILLI {
                    &&& *final(state) is Executing
                    &&& *final(agent) == *old(agent)
                    &&& *final(fly) == *old(fly)
                    &&& action matches TravelAction::Move { step_milli } && step_milli as int == ({
                        let budget = (elapsed_millis as int) * (old(agent).speed_milli as int)
                            / 1000;
                        if distance_milli as int <= budget {
                            distance_milli as int
                        } else {
                            budget
                        }
                    }) && step_milli <= distance_milli
                } else if !graph.contains_id(gate.destination_system_id) {
                    &&& *final(state) is Failure
                    &&& final(fly).desire == 0
                    &&& *final(agent) == *old(agent)
                    &&& action == TravelAction::Idle
                } else {
                    &&& action == (TravelAction::Jump {
                        destination_system_id: gate.destination_system_id,
                        destination_gate_id: gate.destination_gate_id,
                    })
                    &&& final(agent).current_system.system == graph.node_at(
                        graph.slot(gate.destination_system_id),
                    ).attributes
                    &&& final(agent).current_system.system.id == gate.destination_system_id
                    &&& final(agent).stargate_path.path@ == path.drop_first()
                    &&& (path.len() == 1 ==> *final(state) is Success && final(fly).desire == 0)
                    &&& (path.len() > 1 ==> *final(state) is Executing && *final(fly) == *old(fly))
                }
            })
        },
        *old(state) is Cancelled ==> *final(state) is Failure && *final(agent) == *old(agent)
            && *final(fly) == *old(fly) && action == TravelAction::Idle,
        (*old(state) is Success || *old(state) is Failure) ==> *final(state) == *old(state)
            && *final(agent) == *old(agent) && *final(fly) == *old(fly) && action
            == TravelAction::Idle,
    {
        match *state {
            TravelState::Requested => {
                let here = crate::solar_system::SolarSystem {
                    attributes: agent.current_system.system.clone(),
                    entities: crate::solar_system::EntityList(Vec::new()),
                };
                match graph.get_pathfinding_to_random_system(&here) {
                    Ok(path) => {
                        if path.len() > 0 {
                            agent.set_stargate_path(path);
                        }
                        *state = TravelState::Executing;
                    },
                    Err(_) => {
                        *state = TravelState::Failure;
                    },
                }
                TravelAction::Idle
            },
            TravelState::Executing => {
                if agent.stargate_path.path.len() == 0 {
                    fly.reset_desire();
                    *state = TravelState::Failure;
                    return TravelAction::Idle;
                }
                match observation {
                    GateObservation::Missing => {
                        fly.reset_desire();
                        *state = TravelState::Failure;
                        TravelAction::Idle
                    },
                    GateObservation::Sighted { distance_milli } => {
                        if distance_milli > DISTANCE_REQUIRED_TO_JUMP_STARGATE_MILLI {
                            let step = movement_step(
                                distance_milli,
                                elapsed_millis,
                                agent.speed_milli,
                            );
                            TravelAction::Move { step_milli: step }
                        } else {
                            let dest_system_id = agent.stargate_path.path[0].destination_system_id;
                            let dest_gate_id = agent.stargate_path.path[0].destination_gate_id;
                            match graph.system_by_id(&dest_system_id) {
                                Some(system) => {
                                    agent.current_system.system = system.attributes.clone();
                                    let _consumed = agent.stargate_path.path.remove(0);
                                    if agent.stargate_path.path.len() == 0 {
                                        fly.reset_desire();
                                        *state = TravelState::Success;
                                    }
                                    TravelAction::Jump {
                                        destination_system_id: dest_system_id,
                                        destination_gate_id: dest_gate_id,
                                    }
                                },
                                None => {
                                    fly.reset_desire();
                                    *state = TravelState::Failure;
                                    TravelAction::Idle
                                },
                            }
                        }
                    },
                }
            },
            TravelState::Cancelled => {
                *state = TravelState::Failure;
                TravelAction::Idle
            },
            TravelState::Success => TravelAction::Idle,
            TravelState::Failure => TravelAction::Idle,
        }
    }

/// Drives a one-hop journey to completion, tick by tick, and so states
/// the travel machine's liveness as one item: an agent executing a
/// one-hop path to a system the graph knows, moving with a positive
/// per-tick step, reaches `Success` within a number of ticks bounded by
/// the starting distance over the step — at most one more than the ticks
/// the distance takes to close — and then stands in the path's
/// destination with an empty path and its desire reset. Each tick
/// observes the remaining scalar distance, lets the machine act, and
/// applies the returned movement to the distance, exactly as a caller
/// would.
pub fn drive_one_hop_journey(
    graph: &SystemGraph,
    agent: &mut Agent,
    fly: &mut FlyToSystem,
    start_distance_milli: u64,
    elapsed_millis: u64,
) -> (ticks: u128)
    requires
        graph.wf(),
        old(agent).stargate_path.path@.len() == 1,
        graph.contains_id(old(agent).stargate_path.path@[0].destination_system_id),
        (elapsed_millis as int) * (old(agent).speed_milli as int) / 1000 >= 1,
    ensures
        final(agent).current_system.system.id == old(
            agent,
        ).stargate_path.path@[0].destination_system_id,
        final(agent).stargate_path.path@.len() == 0,
        final(fly).desire == 0,
        1 <= ticks,
        (ticks as int - 2) * ((elapsed_millis as int) * (old(agent).speed_milli as int) / 1000)
            < start_distance_milli as int,
{
    let ghost d0 = start_distance_milli as int;
    let ghost b = (elapsed_millis as int) * (old(agent).speed_milli as int) / 1000;
    let mut state = TravelState::Executing;
    let mut distance = start_distance_milli;
    let mut ticks: u128 = 0;
    while state == TravelState::Executing
        invariant
            graph.wf(),
            b == (elapsed_millis as int) * (old(agent).speed_milli as int) / 1000,
            b >= 1,
            d0 == start_distance_milli as int,
            old(agent).stargate_path.path@.len() == 1,
            graph.contains_id(old(agent).stargate_path.path@[0].destination_system_id),
            state == TravelState::Executing || state == TravelState::Success,
            state == TravelState::Executing ==> {
                &&& *agent == *old(agent)
                &&& *fly == *old(fly)
                &&& distance as int == distance_after_ticks(d0, b, ticks as nat)
                &&& (ticks == 0 || (ticks as int - 1) * b < d0)
            },
            state == TravelState::Success ==> {
                &&& agent.current_system.system.id == old(
                    agent,
                ).stargate_path.path@[0].destination_system_id
                &&& agent.stargate_path.path@.len() == 0
                &&& fly.desire == 0
                &&& 1 <= ticks
                &&& (ticks as int - 2) * b < d0
            },
        decreases distance as int + (if state == TravelState::Executing {
            1int
        } else {
            0int
        }),
    {
        let ghost pre_ticks = ticks;
        let ghost pre_distance = distance as int;
        let action = fly_to_system(
            graph,
            agent,
            fly,
            &mut state,
            GateObservation::Sighted { distance_milli: distance },
            elapsed_millis,
        );
        proof {
            lemma_travel_progress(d0, b, pre_ticks as nat);
            // The move-tick ceiling keeps the counter far from overflow.
            assert(pre_ticks as int <= u64::MAX as int) by (nonlinear_arith)
                requires
                    pre_ticks == 0 || (pre_ticks as int - 1) * b < d0,
                    b >= 1,
                    0 <= pre_ticks,
                    d0 <= u64::MAX as int,
            ;
        }
        ticks = ticks + 1;
        match action {
            TravelAction::Move { step_milli } => {
                proof {
                    // A movement action means the stargate was still out of
                    // jump range this tick.
                    assert(pre_distance > DISTANCE_REQUIRED_TO_JUMP_STARGATE_MILLI as int);
                    // The recursion's floor bound puts a ceiling on the
                    // move ticks taken so far.
                    assert(pre_ticks as int * b < d0);
                }
                distance = distance - step_milli;
                proof {
                    assert(distance as int == distance_after_ticks(d0, b, ticks as nat));
                }
            },
            TravelAction::Jump { .. } => {
                proof {
                    assert(state == TravelState::Success);
                }
            },
            TravelAction::Idle => {
                proof {
                    assert(false);
                }
            },
        }
    }
    ticks
}

} // verus!
