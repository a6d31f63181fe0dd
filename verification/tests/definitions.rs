use bot_core::bot::definition::{
    AttackAnimationDefinition, BotDefinition, BotDefinitionsContainer, Damage,
};
use bot_core::bot::BotKind;

fn attack(amount: u32) -> AttackAnimationDefinition {
    AttackAnimationDefinition {
        path: format!("attack_{}.fbx", amount),
        timestamp: 400_000,
        damage: Damage::Point(amount),
        speed: 1000,
    }
}

fn definition(health: u32, attacks: Vec<AttackAnimationDefinition>) -> BotDefinition {
    BotDefinition {
        scale: 1000,
        health,
        walk_speed: 1200,
        weapon_scale: 1000,
        model: String::from("model.fbx"),
        weapon_hand_name: String::from("hand"),
        left_leg_name: String::from("left_leg"),
        right_leg_name: String::from("right_leg"),
        spine: String::from("spine"),
        hips: String::from("hips"),
        v_aim_angle_hack: 0,
        can_use_weapons: false,
        close_combat_distance: 1000,
        pain_sounds: vec![],
        scream_sounds: vec![],
        idle_sounds: vec![],
        idle_animation: String::from("idle"),
        scream_animation: String::from("scream"),
        attack_animations: attacks,
        walk_animation: String::from("walk"),
        aim_animation: String::from("aim"),
        dying_animation: String::from("dying"),
    }
}

#[test]
fn damage_amount_of_both_forms() {
    assert_eq!(Damage::Point(7_500).amount(), 7_500);
    assert_eq!(Damage::Splash { radius: 3_000, amount: 20_000 }.amount(), 20_000);
}

#[test]
fn definition_needs_an_attack() {
    assert!(!definition(1, vec![]).check_valid());
    assert!(definition(1, vec![attack(1)]).check_valid());
}

#[test]
fn attack_damage_by_variant() {
    let d = definition(1, vec![attack(10), attack(20), attack(30)]);
    assert_eq!(d.attack_damage(0), 10);
    assert_eq!(d.attack_damage(1), 20);
    assert_eq!(d.attack_damage(2), 30);
}

#[test]
fn container_starts_empty() {
    let c = BotDefinitionsContainer::new();
    assert!(c.get_definition(BotKind::Mutant).is_none());
    assert!(c.get_definition(BotKind::Parasite).is_none());
    assert!(c.get_definition(BotKind::Zombie).is_none());
}

#[test]
fn container_holds_one_definition_per_kind() {
    let mut c = BotDefinitionsContainer::new();
    c.insert(BotKind::Mutant, definition(100, vec![attack(1)]));
    c.insert(BotKind::Zombie, definition(300, vec![attack(3)]));
    assert_eq!(c.get_definition(BotKind::Mutant).unwrap().health, 100);
    assert_eq!(c.get_definition(BotKind::Zombie).unwrap().health, 300);
    assert!(c.get_definition(BotKind::Parasite).is_none());
    c.insert(BotKind::Mutant, definition(150, vec![attack(1)]));
    assert_eq!(c.get_definition(BotKind::Mutant).unwrap().health, 150);
    assert_eq!(c.get_definition(BotKind::Zombie).unwrap().health, 300);
}
