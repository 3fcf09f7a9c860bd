//! The idle and wander behaviours: between journeys an agent drifts to
//! random spots inside its current system, and each completed drift feeds
//! its desire to fly somewhere new.
//!
//! As with travel, the caller supplies the plain values the world knows —
//! a random target position, the scalar distance still to cover — and
//! performs the returned action; every decision is made and verified here.

use vstd::prelude::*;

use crate::agent::Position;
use crate::travel::FlyToSystem;
use crate::travel::TravelAction;
use crate::travel::TravelState;
use crate::travel::movement_step;

verus! {

/// The distance to a wander target, in milli-units, at or under which the
/// wander is complete (0.1 world units).
pub const MAX_DISTANCE_MILLI: u64 = 100;

/// An action where the actor idles: it either drifts to a spot in its
/// current system or decides to fly to another system instead.
#[derive(Clone, Copy, Debug, PartialEq, Eq, Structural, Default)]
pub struct Idle {
    /// The position to wander to.
    pub target: Option<Position>,
}

impl Idle {
    /// Creates a new `Idle` action with no target.
    pub fn new() -> (r: Self)
        ensures
            r.target is None,
    {
        Idle { target: None }
    }
}

/// An action where the actor wanders to a random spot in its system.
#[derive(Clone, Copy, Debug, PartialEq, Eq, Structural, Default)]
pub struct Wander {
    /// The position to wander to.
    pub target: Option<Position>,
}

impl Wander {
    /// Creates a new `Wander` action with no target.
    pub fn new() -> (r: Self)
        ensures
            r.target is None,
    {
        Wander { target: None }
    }
}

/// A marker for the scorer that weighs the desire to wander.
#[derive(Clone, Copy, Debug, PartialEq, Eq, Structural, Default)]
pub struct WantToWander;

/// The constant utility score of idling, in hundredths.
pub fn idle_scorer_system() -> (score: u32)
    ensures
        score == 30,
{
    30
}

/// The constant utility score of wandering, in hundredths.
pub fn want_to_wander_scorer_system() -> (score: u32)
    ensures
        score == 80,
{
    80
}

/// One tick of the idle action.
///
/// On `Requested`, a coin is flipped: either the agent resolves to fly to
/// another system — its desire to travel jumps by one hundred points and
/// the idle action succeeds — or it starts drifting toward the given
/// random position. On `Executing` with a target, the agent moves toward
/// it, clamped so it cannot overshoot; on arrival the completed drift adds
/// fifteen points of desire and the action succeeds. `Cancelled` degrades
/// to `Failure`.
pub fn idle_action_system(
    idle: &mut Idle,
    fly: &mut FlyToSystem,
    state: &mut TravelState,
    wander_target: Position,
    distance_milli: u64,
    elapsed_millis: u64,
    speed_milli: u64,
) -> (action: TravelAction)
    ensures
        *old(state) is Requested ==> action == TravelAction::Idle && ({
            ||| (*final(state) is Success && *final(idle) == *old(idle) && final(fly).desire
                == if old(fly).desire + 100 <= u32::MAX {
                old(fly).desire + 100
            } else {
                u32::MAX as int
            } && final(fly).target == old(fly).target)
            ||| (*final(state) is Executing && final(idle).target == Some(wander_target) && *final(fly) == *old(fly))
        }),
        *old(state) is Executing ==> {
            &&& (old(idle).target is None ==> *final(state) == *old(state) && *final(idle) == *old(idle) && *final(fly) == *old(fly) && action == TravelAction::Idle)
            &&& (old(idle).target is Some ==> {
                if distance_milli > MAX_DISTANCE_MILLI {
                    &&& *final(state) is Executing
                    &&& *final(idle) == *old(idle)
                    &&& *final(fly) == *old(fly)
                    &&& action matches TravelAction::Move { step_milli } && step_milli as int == ({
                        let budget = (elapsed_millis as int) * (speed_milli as int) / 1000;
                        if distance_milli as int <= budget {
                            distance_milli as int
                        } else {
                            budget
                        }
                    })
                } else {
                    &&& *final(state) is Success
                    &&& *final(idle) == *old(idle)
                    &&& final(fly).desire == if old(fly).desire + 15 <= u32::MAX {
                        old(fly).desire + 15
                    } else {
                        u32::MAX as int
                    }
                    &&& final(fly).target == old(fly).target
                    &&& action == TravelAction::Idle
                }
            })
        },
        *old(state) is Cancelled ==> *final(state) is Failure && *final(idle) == *old(idle)
            && *final(fly) == *old(fly) && action == TravelAction::Idle,
        (*old(state) is Success || *old(state) is Failure) ==> *final(state) == *old(state)
            && *final(idle) == *old(idle) && *final(fly) == *old(fly) && action
            == TravelAction::Idle,
{
    match *state {
        TravelState::Requested => {
            let should_fly_to_system = crate::rng::random_bool();
            if should_fly_to_system {
                fly.increase_desire(100);
                *state = TravelState::Success;
            } else {
                idle.target = Some(wander_target);
                *state = TravelState::Executing;
            }
            TravelAction::Idle
        },
        TravelState::Executing => {
            match idle.target {
                Some(_) => {
                    if distance_milli > MAX_DISTANCE_MILLI {
                        let step = movement_step(distance_milli, elapsed_millis, speed_milli);
                        TravelAction::Move { step_milli: step }
                    } else {
                        fly.increase_desire(15);
                        *state = TravelState::Success;
                        TravelAction::Idle
                    }
                },
                None => TravelAction::Idle,
            }
        },
        TravelState::Cancelled => {
            *state = TravelState::Failure;
            TravelAction::Idle
        },
        TravelState::Success => TravelAction::Idle,
        TravelState::Failure => TravelAction::Idle,
    }
}

/// The decision tick of the wander action: on `Requested` the given random
/// position becomes the target and the wander starts executing; every
/// other state is left alone.
pub fn wander_decision_system(wander: &mut Wander, state: &mut TravelState, wander_target: Position)
    ensures
        *old(state) is Requested ==> *final(state) is Executing && final(wander).target == Some(
            wander_target,
        ),
        !(*old(state) is Requested) ==> *final(state) == *old(state) && *final(wander) == *old(wander),
{
    if *state == TravelState::Requested {
        wander.target = Some(wander_target);
        *state = TravelState::Executing;
    }
}

/// The movement tick of the wander action: while executing with a target,
/// the agent moves toward it without overshooting; on arrival the
/// completed wander adds fifteen points of desire and the action
/// succeeds. `Cancelled` degrades to `Failure`.
pub fn wander_movement_system(
    wander: &Wander,
    fly: &mut FlyToSystem,
    state: &mut TravelState,
    distance_milli: u64,
    elapsed_millis: u64,
    speed_milli: u64,
) -> (action: TravelAction)
    ensures
        *old(state) is Executing ==> {
            &&& (wander.target is None ==> *final(state) == *old(state) && *final(fly) == *old(fly)
                && action == TravelAction::Idle)
            &&& (wander.target is Some ==> {
                if distance_milli > MAX_DISTANCE_MILLI {
                    &&& *final(state) is Executing
                    &&& *final(fly) == *old(fly)
                    &&& action matches TravelAction::Move { step_milli } && step_milli as int == ({
                        let budget = (elapsed_millis as int) * (speed_milli as int) / 1000;
                        if distance_milli as int <= budget {
                            distance_milli as int
                        } else {
                            budget
                        }
                    })
                } else {
                    &&& *final(state) is Success
                    &&& final(fly).desire == if old(fly).desire + 15 <= u32::MAX {
                        old(fly).desire + 15
                    } else {
                        u32::MAX as int
                    }
                    &&& final(fly).target == old(fly).target
                    &&& action == TravelAction::Idle
                }
            })
        },
        *old(state) is Cancelled ==> *final(state) is Failure && *final(fly) == *old(fly) && action
            == TravelAction::Idle,
        !(*old(state) is Executing || *old(state) is Cancelled) ==> *final(state) == *old(state)
            && *final(fly) == *old(fly) && action == TravelAction::Idle,
{
    match *state {
        TravelState::Executing => {
            match wander.target {
                Some(_) => {
                    if distance_milli > MAX_DISTANCE_MILLI {
                        let step = movement_step(distance_milli, elapsed_millis, speed_milli);
                        TravelAction::Move { step_milli: step }
                    } else {
                        fly.increase_desire(15);
                        *state = TravelState::Success;
                        TravelAction::Idle
                    }
                },
                None => TravelAction::Idle,
            }
        },
        TravelState::Cancelled => {
            *state = TravelState::Failure;
            TravelAction::Idle
        },
        _ => TravelAction::Idle,
    }
}

} // verus!
