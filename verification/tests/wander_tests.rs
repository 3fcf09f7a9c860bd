//! Tests of the idle and wander behaviours.

use ascendancy_lib::agent::Position;
use ascendancy_lib::travel::FlyToSystem;
use ascendancy_lib::travel::TravelAction;
use ascendancy_lib::travel::TravelState;
use ascendancy_lib::wander::idle_action_system;
use ascendancy_lib::wander::idle_scorer_system;
use ascendancy_lib::wander::wander_decision_system;
use ascendancy_lib::wander::wander_movement_system;
use ascendancy_lib::wander::want_to_wander_scorer_system;
use ascendancy_lib::wander::Idle;
use ascendancy_lib::wander::Wander;

#[test]
fn idle_request_picks_a_behaviour() {
    let mut idle = Idle::new();
    let mut fly = FlyToSystem::new();
    let mut state = TravelState::Requested;
    let target = Position {
        x_milli: 4000,
        y_milli: -2500,
    };
    let action = idle_action_system(&mut idle, &mut fly, &mut state, target, 0, 16, 100_000);
    assert_eq!(action, TravelAction::Idle);
    match state {
        // The coin chose to fly: a hundred points of desire, no drift.
        TravelState::Success => {
            assert_eq!(fly.desire, 100);
            assert_eq!(idle.target, None);
        }
        // The coin chose to drift toward the given random position.
        TravelState::Executing => {
            assert_eq!(fly.desire, 0);
            assert_eq!(idle.target, Some(target));
        }
        other => panic!("unexpected state {:?}", other),
    }
}

#[test]
fn idle_drift_completes_and_feeds_desire() {
    let target = Position {
        x_milli: 4000,
        y_milli: 0,
    };
    let mut idle = Idle { target: Some(target) };
    let mut fly = FlyToSystem::new();
    let mut state = TravelState::Executing;
    // Far away: a movement step, clamped by the 16 ms budget.
    let action = idle_action_system(&mut idle, &mut fly, &mut state, target, 4000, 16, 100_000);
    assert_eq!(action, TravelAction::Move { step_milli: 1600 });
    assert_eq!(state, TravelState::Executing);
    // Within arrival range: the wander succeeds and adds fifteen points.
    let action = idle_action_system(&mut idle, &mut fly, &mut state, target, 80, 16, 100_000);
    assert_eq!(action, TravelAction::Idle);
    assert_eq!(state, TravelState::Success);
    assert_eq!(fly.desire, 15);
}

#[test]
fn idle_without_target_rests() {
    let mut idle = Idle::new();
    let mut fly = FlyToSystem::new();
    let mut state = TravelState::Executing;
    let target = Position {
        x_milli: 0,
        y_milli: 0,
    };
    let action = idle_action_system(&mut idle, &mut fly, &mut state, target, 0, 16, 100_000);
    assert_eq!(action, TravelAction::Idle);
    assert_eq!(state, TravelState::Executing);
    assert_eq!(fly.desire, 0);
}

#[test]
fn idle_cancel_degrades_to_failure() {
    let mut idle = Idle::new();
    let mut fly = FlyToSystem::new();
    let mut state = TravelState::Cancelled;
    let target = Position {
        x_milli: 0,
        y_milli: 0,
    };
    idle_action_system(&mut idle, &mut fly, &mut state, target, 0, 16, 100_000);
    assert_eq!(state, TravelState::Failure);
}

#[test]
fn wander_decision_takes_the_target() {
    let mut wander = Wander::new();
    let mut state = TravelState::Requested;
    let target = Position {
        x_milli: 123,
        y_milli: 456,
    };
    wander_decision_system(&mut wander, &mut state, target);
    assert_eq!(state, TravelState::Executing);
    assert_eq!(wander.target, Some(target));
    // Outside `Requested` the decision leaves everything alone.
    let mut state = TravelState::Success;
    wander_decision_system(&mut wander, &mut state, target);
    assert_eq!(state, TravelState::Success);
}

#[test]
fn wander_movement_arrives_and_feeds_desire() {
    let target = Position {
        x_milli: 2000,
        y_milli: 0,
    };
    let wander = Wander { target: Some(target) };
    let mut fly = FlyToSystem::new();
    let mut state = TravelState::Executing;
    let action = wander_movement_system(&wander, &mut fly, &mut state, 2000, 16, 100_000);
    assert_eq!(action, TravelAction::Move { step_milli: 1600 });
    let action = wander_movement_system(&wander, &mut fly, &mut state, 90, 16, 100_000);
    assert_eq!(action, TravelAction::Idle);
    assert_eq!(state, TravelState::Success);
    assert_eq!(fly.desire, 15);
}

#[test]
fn scorer_constants() {
    assert_eq!(idle_scorer_system(), 30);
    assert_eq!(want_to_wander_scorer_system(), 80);
}
