//! Tests of the plain world types: systems, gates, selection, factions,
//! agents.

use ascendancy_lib::agent::Agent;
use ascendancy_lib::faction::Bank;
use ascendancy_lib::faction::FactionID;
use ascendancy_lib::selection::Selection;
use ascendancy_lib::solar_system::EntityList;
use ascendancy_lib::solar_system::SolarSystem;
use ascendancy_lib::solar_system::SystemAttributes;
use ascendancy_lib::stargate::JumpGates;
use ascendancy_lib::stargate::Stargate;

fn sys(id: u32, name: &str) -> SolarSystem {
    SolarSystem {
        attributes: SystemAttributes {
            id,
            name: name.to_owned(),
            owner: FactionID { id: 0 },
        },
        entities: EntityList(Vec::new()),
    }
}

#[test]
fn solar_system_updates() {
    let mut system = SolarSystem::new_placeholder();
    assert_eq!(system.attributes.name, "Placeholder");
    system.update_system_name("Sol".to_owned());
    assert_eq!(system.attributes.name, "Sol");
    system.update_system_owner(FactionID { id: 3 });
    assert_eq!(system.attributes.owner, FactionID { id: 3 });
    system.add_entity(11);
    system.add_entity(22);
    system.add_entity(11);
    assert_eq!(system.entities.0, vec![11, 22, 11]);
    system.remove_entity(11);
    assert_eq!(system.entities.0, vec![22]);
    system.remove_entity(99);
    assert_eq!(system.entities.0, vec![22]);
}

#[test]
fn stargate_fields_and_switches() {
    let mut gate = Stargate::default();
    assert_eq!(gate.name, "Abandoned Star Gate");
    assert!(gate.is_active());
    gate.deactivate();
    assert!(!gate.is_active());
    gate.activate();
    assert!(gate.is_active());
    gate.set_origin_system_id(1);
    gate.set_destination_system_id(2);
    gate.set_destination_gate_id(77);
    assert_eq!(gate.origin_system_id(), 1);
    assert_eq!(gate.destination_system_id(), 2);
    assert_eq!(gate.destination_gate_id, 77);

    let built = Stargate::new(5, "gate".to_owned(), 9, 6, 1, 2, false);
    assert_eq!(built.id(), 5);
    assert_eq!(built.distance(), 9);
    assert!(!built.is_active());

    let mut gates = JumpGates::default();
    gates.add_gate(built);
    assert_eq!(gates.0.len(), 1);
}

#[test]
fn selection_tracks_systems() {
    let mut selection = Selection::new();
    assert_eq!(selection.count(), 0);
    selection.set(sys(1, "Sol"));
    selection.set(sys(2, "Alpha"));
    selection.set(sys(1, "Sol"));
    assert_eq!(selection.count(), 3);
    assert_eq!(selection.get(0).unwrap().attributes.id, 1);
    assert_eq!(selection.get(1).unwrap().attributes.id, 2);
    assert!(selection.get(3).is_none());
    // Removing a system removes every copy of it.
    selection.remove(sys(1, "Sol"));
    assert_eq!(selection.count(), 1);
    assert_eq!(selection.get_all()[0].attributes.id, 2);
    selection.clear();
    assert_eq!(selection.count(), 0);
}

#[test]
fn bank_moves_money_and_keeps_totals() {
    let mut bank = Bank {
        balance: 500,
        total_deposits: 0,
        total_withdrawals: 0,
        total_loans: 0,
        total_loans_repaid: 0,
    };
    assert_eq!(bank.bank_balance(), 500);
    bank.deposit(250);
    assert_eq!(bank.bank_balance(), 750);
    assert_eq!(bank.total_deposits, 250);
    bank.withdraw(100);
    assert_eq!(bank.bank_balance(), 650);
    assert_eq!(bank.total_withdrawals, 100);
}

#[test]
fn randomized_bank_stays_in_range() {
    for _ in 0..50 {
        let bank = Bank::randomized();
        assert!((1_000_000..2_000_000).contains(&bank.balance));
        assert_eq!(bank.total_deposits, 0);
    }
}

#[test]
fn new_agent_starts_at_home() {
    let home = SystemAttributes {
        id: 4,
        name: "Sol".to_owned(),
        owner: FactionID { id: 1 },
    };
    let agent = Agent::new(9, "pilot".to_owned(), home.clone());
    assert_eq!(agent.id, 9);
    assert_eq!(agent.name, "pilot");
    assert_eq!(agent.home_system.home, home);
    assert_eq!(agent.current_system.system, home);
    assert!(agent.stargate_path.path.is_empty());
    assert!(agent.target_system.location.is_none());
    assert_eq!(agent.speed_milli, 100_000);
    assert_eq!(agent.wallet.money_centi, 10_000);
    assert_eq!(agent.health.current_centi, agent.health.max_centi);
}
