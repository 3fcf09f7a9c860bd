//! Tests of the travel state machine and the desire scoring layer.

use ascendancy_lib::agent::Agent;
use ascendancy_lib::faction::FactionID;
use ascendancy_lib::pathfinding::SystemGraph;
use ascendancy_lib::solar_system::EntityList;
use ascendancy_lib::solar_system::SolarSystem;
use ascendancy_lib::solar_system::SystemAttributes;
use ascendancy_lib::stargate::Stargate;
use ascendancy_lib::travel::fly_to_system;
use ascendancy_lib::travel::movement_step;
use ascendancy_lib::travel::want_to_fly_to_system_scorer_system;
use ascendancy_lib::travel::FlyToSystem;
use ascendancy_lib::travel::GateObservation;
use ascendancy_lib::travel::TravelAction;
use ascendancy_lib::travel::TravelState;
use ascendancy_lib::travel::DISTANCE_REQUIRED_TO_JUMP_STARGATE_MILLI;

fn attrs(id: u32, name: &str) -> SystemAttributes {
    SystemAttributes {
        id,
        name: name.to_owned(),
        owner: FactionID { id: 0 },
    }
}

fn sys(id: u32, name: &str) -> SolarSystem {
    SolarSystem {
        attributes: attrs(id, name),
        entities: EntityList(Vec::new()),
    }
}

fn two_system_graph() -> SystemGraph {
    let mut graph = SystemGraph::new();
    let n1 = graph.add_node(sys(1, "Sol"));
    let n2 = graph.add_node(sys(2, "Alpha"));
    graph.add_edge(n1, n2, Stargate::new(10, "out".to_owned(), 5, 20, 1, 2, true));
    graph.add_edge(n2, n1, Stargate::new(20, "back".to_owned(), 5, 10, 2, 1, true));
    graph
}

#[test]
fn movement_step_never_overshoots() {
    // A whole second at speed 2.5 units/s covers 2.5 units.
    assert_eq!(movement_step(10_000, 1000, 2500), 2500);
    // Near the target the step is clamped to the remaining distance.
    assert_eq!(movement_step(600, 1000, 2500), 600);
    // A huge frame time still cannot overshoot.
    assert_eq!(movement_step(600, 1_000_000, 2500), 600);
    // Fixed-point rounding: 16 ms at 100 units/s is 1.6 units.
    assert_eq!(movement_step(10_000, 16, 100_000), 1600);
}

#[test]
fn one_hop_agent_reaches_success_within_bounded_ticks() {
    let graph = two_system_graph();
    let mut agent = Agent::new(7, "pilot".to_owned(), attrs(1, "Sol"));
    agent.set_stargate_path(vec![Stargate::new(10, "out".to_owned(), 5, 20, 1, 2, true)]);
    let mut fly = FlyToSystem::new();
    fly.increase_desire(40);
    let mut state = TravelState::Executing;

    // The stargate is 2.5 units away; each 16 ms tick at 100 units/s covers
    // 1.6 units, so two moves bring the agent into jump range and the
    // third tick jumps: four ticks at the very most.
    let mut distance: u64 = 2500;
    let mut ticks = 0;
    while state == TravelState::Executing && ticks < 4 {
        let action = fly_to_system(
            &graph,
            &mut agent,
            &mut fly,
            &mut state,
            GateObservation::Sighted {
                distance_milli: distance,
            },
            16,
        );
        match action {
            TravelAction::Move { step_milli } => {
                assert!(step_milli <= distance);
                distance -= step_milli;
            }
            TravelAction::Jump {
                destination_system_id,
                destination_gate_id,
            } => {
                assert!(distance <= DISTANCE_REQUIRED_TO_JUMP_STARGATE_MILLI);
                assert_eq!(destination_system_id, 2);
                assert_eq!(destination_gate_id, 20);
            }
            TravelAction::Idle => panic!("the executing machine never idles"),
        }
        ticks += 1;
    }
    assert_eq!(state, TravelState::Success);
    assert_eq!(ticks, 3);
    // Once successful, the agent stands in the path's final destination.
    assert_eq!(agent.current_system.system.id, 2);
    assert!(agent.stargate_path.path.is_empty());
    // Completion resets the desire accumulator.
    assert_eq!(fly.desire, 0);
}

#[test]
fn missing_gate_fails_safely() {
    let graph = two_system_graph();
    let mut agent = Agent::new(7, "pilot".to_owned(), attrs(1, "Sol"));
    agent.set_stargate_path(vec![Stargate::new(10, "out".to_owned(), 5, 20, 1, 2, true)]);
    let mut fly = FlyToSystem::new();
    fly.increase_desire(40);
    let mut state = TravelState::Executing;
    let action = fly_to_system(
        &graph,
        &mut agent,
        &mut fly,
        &mut state,
        GateObservation::Missing,
        16,
    );
    assert_eq!(action, TravelAction::Idle);
    assert_eq!(state, TravelState::Failure);
    assert_eq!(fly.desire, 0);
}

#[test]
fn empty_path_while_executing_fails() {
    let graph = two_system_graph();
    let mut agent = Agent::new(7, "pilot".to_owned(), attrs(1, "Sol"));
    let mut fly = FlyToSystem::new();
    let mut state = TravelState::Executing;
    fly_to_system(
        &graph,
        &mut agent,
        &mut fly,
        &mut state,
        GateObservation::Sighted { distance_milli: 50 },
        16,
    );
    assert_eq!(state, TravelState::Failure);
}

#[test]
fn unknown_jump_destination_fails_safely() {
    let graph = two_system_graph();
    let mut agent = Agent::new(7, "pilot".to_owned(), attrs(1, "Sol"));
    // The stargate leads to a system the graph does not know.
    agent.set_stargate_path(vec![Stargate::new(10, "out".to_owned(), 5, 20, 1, 99, true)]);
    let mut fly = FlyToSystem::new();
    let mut state = TravelState::Executing;
    let action = fly_to_system(
        &graph,
        &mut agent,
        &mut fly,
        &mut state,
        GateObservation::Sighted { distance_milli: 50 },
        16,
    );
    assert_eq!(action, TravelAction::Idle);
    assert_eq!(state, TravelState::Failure);
}

#[test]
fn cancelled_degrades_to_failure() {
    let graph = two_system_graph();
    let mut agent = Agent::new(7, "pilot".to_owned(), attrs(1, "Sol"));
    let mut fly = FlyToSystem::new();
    let mut state = TravelState::Cancelled;
    let action = fly_to_system(
        &graph,
        &mut agent,
        &mut fly,
        &mut state,
        GateObservation::Missing,
        16,
    );
    assert_eq!(action, TravelAction::Idle);
    assert_eq!(state, TravelState::Failure);
}

#[test]
fn requested_resolves_or_fails() {
    let graph = two_system_graph();
    let mut agent = Agent::new(7, "pilot".to_owned(), attrs(1, "Sol"));
    let mut fly = FlyToSystem::new();
    let mut state = TravelState::Requested;
    fly_to_system(
        &graph,
        &mut agent,
        &mut fly,
        &mut state,
        GateObservation::Missing,
        16,
    );
    // Both systems are reachable from Sol, so the request always starts
    // executing; a non-empty resolved path starts at Sol's stargate.
    assert_eq!(state, TravelState::Executing);
    if !agent.stargate_path.path.is_empty() {
        assert_eq!(agent.stargate_path.path[0].origin_system_id(), 1);
    }
}

#[test]
fn requested_with_unknown_current_system_fails() {
    let graph = two_system_graph();
    let mut agent = Agent::new(7, "pilot".to_owned(), attrs(99, "Ghost"));
    let mut fly = FlyToSystem::new();
    let mut state = TravelState::Requested;
    fly_to_system(
        &graph,
        &mut agent,
        &mut fly,
        &mut state,
        GateObservation::Missing,
        16,
    );
    assert_eq!(state, TravelState::Failure);
}

#[test]
fn desire_score_ramps_and_clamps() {
    let mut fly = FlyToSystem::new();
    assert_eq!(want_to_fly_to_system_scorer_system(&fly), 0);
    // One completed wander adds fifteen points: a score of 0.15.
    fly.increase_desire(15);
    assert_eq!(fly.desire, 15);
    assert_eq!(want_to_fly_to_system_scorer_system(&fly), 15);
    // Two more wanders still stay on the linear ramp.
    fly.increase_desire(15);
    fly.increase_desire(15);
    assert_eq!(want_to_fly_to_system_scorer_system(&fly), 45);
    // A direct decision to fly saturates the score at 1.0 exactly.
    fly.increase_desire(100);
    assert_eq!(fly.desire, 145);
    assert_eq!(want_to_fly_to_system_scorer_system(&fly), 100);
    fly.increase_desire(u32::MAX);
    assert_eq!(want_to_fly_to_system_scorer_system(&fly), 100);
    fly.reset_desire();
    assert_eq!(fly.desire, 0);
    assert_eq!(want_to_fly_to_system_scorer_system(&fly), 0);
}

#[test]
fn driven_one_hop_journey_reaches_the_destination() {
    let graph = two_system_graph();
    let mut agent = Agent::new(7, "pilot".to_owned(), attrs(1, "Sol"));
    agent.set_stargate_path(vec![Stargate::new(10, "out".to_owned(), 5, 20, 1, 2, true)]);
    let mut fly = FlyToSystem::new();
    fly.increase_desire(40);
    // 2.5 units to the stargate at 1.6 units per 16 ms tick: two moves,
    // then the jump.
    let ticks =
        ascendancy_lib::travel::drive_one_hop_journey(&graph, &mut agent, &mut fly, 2500, 16);
    assert_eq!(ticks, 3);
    assert_eq!(agent.current_system.system.id, 2);
    assert!(agent.stargate_path.path.is_empty());
    assert_eq!(fly.desire, 0);
}
