use bot_core::bot::lower_body::{LowerBodyMachine, LowerBodyMachineInput, LowerBodyState};
use bot_core::bot::signals::count_signals;
use bot_core::bot::upper_body::{UpperBodyMachine, UpperBodyMachineInput, UpperBodyState};

fn lower(walk: bool, dead: bool) -> LowerBodyMachineInput {
    LowerBodyMachineInput { walk, scream: false, dead }
}

fn upper(attack: bool, aim: bool, dead: bool, index: u32) -> UpperBodyMachineInput {
    UpperBodyMachineInput {
        attack,
        walk: false,
        scream: false,
        dead,
        aim,
        attack_animation_index: index,
    }
}

#[test]
fn lower_body_walks_while_told_to() {
    let mut m = LowerBodyMachine::new();
    assert_eq!(m.state(), LowerBodyState::Idle);
    assert!(!m.is_walking());
    m.apply(lower(true, false));
    assert_eq!(m.state(), LowerBodyState::Walk);
    assert!(m.is_walking());
    m.apply(lower(true, false));
    assert_eq!(m.state(), LowerBodyState::Walk);
    m.apply(lower(false, false));
    assert_eq!(m.state(), LowerBodyState::Idle);
}

#[test]
fn lower_body_ignores_scream() {
    let mut m = LowerBodyMachine::new();
    m.apply(LowerBodyMachineInput { walk: false, scream: true, dead: false });
    assert_eq!(m.state(), LowerBodyState::Idle);
}

#[test]
fn lower_body_death_is_irreversible() {
    for start_walking in [false, true] {
        let mut m = LowerBodyMachine::new();
        m.apply(lower(start_walking, false));
        m.apply(lower(true, true));
        assert!(m.is_dead());
        for walk in [false, true] {
            for dead in [false, true] {
                m.apply(lower(walk, dead));
                assert_eq!(m.state(), LowerBodyState::Dead);
            }
        }
    }
}

#[test]
fn lower_body_keeps_walk_speed_across_ticks() {
    let mut m = LowerBodyMachine::new();
    assert_eq!(m.walk_animation_speed, 1000);
    m.set_walk_animation_speed(400);
    m.apply(lower(true, false));
    assert_eq!(m.walk_animation_speed, 400);
    assert_eq!(m.state(), LowerBodyState::Walk);
}

#[test]
fn footsteps_sound_only_while_walking() {
    let signals = vec![1u64, 7, 1, 1, 0];
    let mut m = LowerBodyMachine::new();
    assert_eq!(m.footsteps(&signals), 0);
    m.apply(lower(true, false));
    assert_eq!(m.footsteps(&signals), 3);
    assert_eq!(m.footsteps(&vec![]), 0);
    m.apply(lower(true, true));
    assert_eq!(m.footsteps(&signals), 0);
}

#[test]
fn signals_are_counted_exactly() {
    assert_eq!(count_signals(&vec![], 1), 0);
    assert_eq!(count_signals(&vec![1, 1, 1], 1), 3);
    assert_eq!(count_signals(&vec![2, 3, 4], 1), 0);
    assert_eq!(count_signals(&vec![2, 1, 2, 1], 2), 2);
}

#[test]
fn upper_body_aims_while_told_to() {
    let mut m = UpperBodyMachine::new(3);
    assert_eq!(m.state(), UpperBodyState::Idle);
    m.apply(upper(false, true, false, 0), false);
    assert_eq!(m.state(), UpperBodyState::Aim);
    assert!(m.is_aiming());
    m.apply(upper(false, false, false, 0), false);
    assert_eq!(m.state(), UpperBodyState::Idle);
}

#[test]
fn upper_body_strikes_with_the_selected_variant() {
    let mut m = UpperBodyMachine::new(3);
    m.apply(upper(true, false, false, 2), false);
    assert_eq!(m.state(), UpperBodyState::Attack(2));
    let mut n = UpperBodyMachine::new(3);
    n.apply(upper(false, true, false, 0), false);
    n.apply(upper(true, true, false, 1), true);
    assert_eq!(n.state(), UpperBodyState::Attack(1));
}

#[test]
fn upper_body_strike_plays_to_its_end() {
    let mut m = UpperBodyMachine::new(3);
    m.apply(upper(true, false, false, 2), false);
    // Neither a new selection nor the end of the wish to strike cuts it short.
    m.apply(upper(true, true, false, 0), false);
    assert_eq!(m.state(), UpperBodyState::Attack(2));
    m.apply(upper(false, false, false, 1), false);
    assert_eq!(m.state(), UpperBodyState::Attack(2));
    m.apply(upper(true, true, false, 1), true);
    assert_eq!(m.state(), UpperBodyState::Aim);
    let mut n = UpperBodyMachine::new(3);
    n.apply(upper(true, false, false, 2), false);
    n.apply(upper(true, false, false, 2), true);
    assert_eq!(n.state(), UpperBodyState::Idle);
}

#[test]
fn upper_body_scream_is_one_shot() {
    let scream = UpperBodyMachineInput {
        attack: false,
        walk: false,
        scream: true,
        dead: false,
        aim: true,
        attack_animation_index: 0,
    };
    let mut m = UpperBodyMachine::new(1);
    m.apply(scream, false);
    assert_eq!(m.state(), UpperBodyState::Scream);
    m.apply(upper(true, false, false, 0), false);
    assert_eq!(m.state(), UpperBodyState::Scream);
    m.apply(scream, true);
    assert_eq!(m.state(), UpperBodyState::Aim);
    // A strike wins over a scream.
    let mut n = UpperBodyMachine::new(1);
    n.apply(UpperBodyMachineInput { attack: true, ..scream }, false);
    assert_eq!(n.state(), UpperBodyState::Attack(0));
}

#[test]
fn upper_body_death_is_irreversible() {
    let starts = [
        upper(false, false, false, 0),
        upper(false, true, false, 0),
        upper(true, false, false, 1),
    ];
    for start in starts {
        let mut m = UpperBodyMachine::new(2);
        m.apply(start, false);
        m.apply(upper(true, true, true, 0), false);
        assert!(m.is_dead());
        for attack in [false, true] {
            for aim in [false, true] {
                for dead in [false, true] {
                    for ended in [false, true] {
                        m.apply(upper(attack, aim, dead, 1), ended);
                        assert_eq!(m.state(), UpperBodyState::Dead);
                    }
                }
            }
        }
    }
}
