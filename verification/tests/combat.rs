use bytemon_dungeon::actor::{Actor, EAction, EActionResult, EActorType};
use bytemon_dungeon::advantage::{EAlignment, EAttribute};
use bytemon_dungeon::battler::EBattlerState;
use bytemon_dungeon::log::{tail, Log};

#[test]
fn test_move() {
    let mut actor = Actor::default();
    let mut log = Log::new();

    actor.move_to_direction((1, 0), &mut log);

    assert_eq!(actor.get_position(), (6i16, 5i16));
    tail(&log);
}

#[test]
fn alignment_advantage_concrete() {
    // Data > Vaccine at 2.0 (8 quarters), the inverse at 0.5 (2 quarters).
    assert_eq!(EAlignment::Data.get_advantage(&EAlignment::Vaccine), 8);
    assert_eq!(EAlignment::Vaccine.get_advantage(&EAlignment::Data), 2);
    assert_eq!(EAlignment::Vaccine.get_advantage(&EAlignment::Virus), 8);
    assert_eq!(EAlignment::Virus.get_advantage(&EAlignment::Vaccine), 2);
    assert_eq!(EAlignment::Virus.get_advantage(&EAlignment::Data), 8);
    assert_eq!(EAlignment::Data.get_advantage(&EAlignment::Virus), 2);
}

#[test]
fn alignment_free_is_neutral() {
    let all = [
        EAlignment::Free,
        EAlignment::Vaccine,
        EAlignment::Data,
        EAlignment::Virus,
    ];
    for x in all {
        assert_eq!(EAlignment::Free.get_advantage(&x), 4);
        assert_eq!(x.get_advantage(&EAlignment::Free), 4);
    }
}

#[test]
fn alignment_inverse_product() {
    // Both directed multipliers always cancel to 1.0: 16 in sixteenths.
    let all = [
        EAlignment::Free,
        EAlignment::Vaccine,
        EAlignment::Data,
        EAlignment::Virus,
    ];
    for a in all {
        for b in all {
            assert_eq!(a.get_advantage(&b) * b.get_advantage(&a), 16);
        }
    }
}

#[test]
fn attribute_advantage_concrete() {
    // Fire > Plant at 1.5 (6 quarters), Plant > Fire at 0.75 (3 quarters).
    assert_eq!(EAttribute::Fire.get_advantage(&EAttribute::Plant), 6);
    assert_eq!(EAttribute::Plant.get_advantage(&EAttribute::Fire), 3);
    // Light and Dark are mutually strong.
    assert_eq!(EAttribute::Light.get_advantage(&EAttribute::Dark), 6);
    assert_eq!(EAttribute::Dark.get_advantage(&EAttribute::Light), 6);
}

#[test]
fn attribute_neutral_is_neutral() {
    let all = [
        EAttribute::Fire,
        EAttribute::Water,
        EAttribute::Plant,
        EAttribute::Eletric,
        EAttribute::Earth,
        EAttribute::Wind,
        EAttribute::Light,
        EAttribute::Dark,
        EAttribute::Neutral,
    ];
    for x in all {
        assert_eq!(EAttribute::Neutral.get_advantage(&x), 4);
        assert_eq!(x.get_advantage(&EAttribute::Neutral), 4);
    }
}

#[test]
fn attack_damage_round_trip() {
    // STR 50 against STA 50 with neutral tags on both sides:
    // ((50-50)/500*50+50) * round(1.0) / 20 = 50/20 = 2 damage.
    let attacker = Actor::default();
    let mut defender = Actor::default();
    attacker.battler.attack(&mut defender.battler);
    assert_eq!(defender.battler.hp, 98);
}

#[test]
fn update_check_death_transition() {
    let mut a = Actor::default();
    a.battler.hp = 0;
    a.battler.update_check();
    assert!(matches!(a.battler.state, EBattlerState::Dead));

    let mut b = Actor::default();
    b.battler.hp = 1;
    b.battler.update_check();
    assert!(matches!(b.battler.state, EBattlerState::Alive));
}

#[test]
fn update_check_does_not_revive() {
    let mut a = Actor::default();
    a.battler.hp = 0;
    a.battler.update_check();
    a.battler.hp = 100;
    a.battler.update_check();
    assert!(matches!(a.battler.state, EBattlerState::Dead));
}

#[test]
fn take_action_attack_hits_target() {
    let attacker = Actor::default();
    let mut target = Some(Actor::default());
    let r = attacker.take_action(EAction::Attacking, &mut target);
    assert_eq!(r, EActionResult::Performed);
    assert_eq!(target.unwrap().battler.hp, 98);
}

#[test]
fn take_action_other_kinds() {
    let actor = Actor::default();

    let mut no_target: Option<Actor> = None;
    assert_eq!(
        actor.take_action(EAction::Attacking, &mut no_target),
        EActionResult::Ignored
    );

    let mut target = Some(Actor::default());
    assert_eq!(
        actor.take_action(EAction::Waiting, &mut target),
        EActionResult::NotSupported
    );
    assert_eq!(
        actor.take_action(EAction::UsingItem, &mut target),
        EActionResult::Ignored
    );
    // An untouched target keeps its hit points.
    assert_eq!(target.unwrap().battler.hp, 100);
}

#[test]
fn action_timer_gates_turns() {
    let mut a = Actor::default();
    assert!(!a.can_act());
    for _ in 0..10 {
        a.update_action_timer();
    }
    // Ten ticks at speed 50 reach exactly 500: not yet ready.
    assert_eq!(a.action_timer, 500);
    assert!(!a.can_act());
    a.update_action_timer();
    assert!(a.can_act());
}

#[test]
fn new_player_fields() {
    let p = Actor::new_player("Irineu".to_owned());
    assert_eq!(p.get_name(), "Irineu");
    assert_eq!(p.get_position(), (5i16, 5i16));
    assert!(matches!(p.role, EActorType::Player));
    assert_eq!(p.battler.hp, 100);
}
