//! The tuning data of the bot kinds.

use super::BotKind;
use std::collections::HashMap;
use vstd::prelude::*;

verus! {

broadcast use vstd::std_specs::hash::group_hash_axioms;

/// The harm that a hit does, in thousandths of a health point.
#[derive(Clone, Copy, PartialEq, Eq, Structural, Debug)]
pub enum Damage {
    /// Harm to everything within `radius` millimetres.
    Splash { radius: u32, amount: u32 },
    /// Harm to the one that was hit.
    Point(u32),
}

impl Damage {
    pub open spec fn spec_amount(self) -> u32 {
        match self {
            Damage::Splash { amount, .. } => amount,
            Damage::Point(amount) => amount,
        }
    }

    /// How much health the hit takes.
    pub fn amount(&self) -> (r: u32)
        ensures
            r == self.spec_amount(),
    {
        match self {
            Damage::Splash { amount, .. } => *amount,
            Damage::Point(amount) => *amount,
        }
    }
}

/// One variant of a kind's melee attack.
#[derive(Clone, Debug)]
pub struct AttackAnimationDefinition {
    /// Where the animation is stored.
    pub path: String,
    /// The moment within the animation at which the blow lands, in
    /// microseconds from its start.
    pub timestamp: u32,
    /// What the blow does when it lands.
    pub damage: Damage,
    /// The playback rate, in thousandths.
    pub speed: u32,
}

/// Everything that distinguishes one kind of bot from another.
#[derive(Clone, Debug)]
pub struct BotDefinition {
    /// The model's scale, in thousandths.
    pub scale: u32,
    /// The health a bot starts with, in thousandths of a point.
    pub health: u32,
    /// The walking speed, in millimetres per second.
    pub walk_speed: u32,
    /// The scale of a carried weapon, in thousandths.
    pub weapon_scale: u32,
    pub model: String,
    pub weapon_hand_name: String,
    pub left_leg_name: String,
    pub right_leg_name: String,
    pub spine: String,
    pub hips: String,
    /// A correction added to the vertical aim, in thousandths of a degree.
    pub v_aim_angle_hack: i32,
    pub can_use_weapons: bool,
    /// The reach of a melee attack, in millimetres.
    pub close_combat_distance: u32,
    pub pain_sounds: Vec<String>,
    pub scream_sounds: Vec<String>,
    pub idle_sounds: Vec<String>,
    pub idle_animation: String,
    pub scream_animation: String,
    pub attack_animations: Vec<AttackAnimationDefinition>,
    pub walk_animation: String,
    pub aim_animation: String,
    pub dying_animation: String,
}

impl BotDefinition {
    /// A definition is usable when the kind has at least one attack variant
    /// and no more than a 32-bit index can tell apart.
    pub open spec fn is_valid(&self) -> bool {
        0 < self.attack_animations@.len() <= u32::MAX
    }

    pub fn check_valid(&self) -> (r: bool)
        ensures
            r == self.is_valid(),
    {
        0 < self.attack_animations.len() && self.attack_animations.len() <= u32::MAX as usize
    }

    /// The harm done by attack variant `index`.
    pub open spec fn spec_attack_damage(&self, index: int) -> u32
        recommends
            0 <= index < self.attack_animations@.len(),
    {
        self.attack_animations@[index].damage.spec_amount()
    }

    pub fn attack_damage(&self, index: u32) -> (r: u32)
        requires
            index < self.attack_animations@.len(),
        ensures
            r == self.spec_attack_damage(index as int),
    {
        self.attack_animations[index as usize].damage.amount()
    }
}

/// The definitions of the kinds that a game was configured with.
pub struct BotDefinitionsContainer {
    /// The definitions, each under the identifier of its kind.
    map: HashMap<i32, BotDefinition>,
}

impl BotDefinitionsContainer {
    /// The definitions by kind.
    pub closed spec fn view(&self) -> Map<BotKind, BotDefinition> {
        Map::new(
            |kind: BotKind| self.map@.contains_key(kind.spec_id() as i32),
            |kind: BotKind| self.map@[kind.spec_id() as i32],
        )
    }

    /// A container without definitions.
    pub fn new() -> (container: BotDefinitionsContainer)
        ensures
            container@ == Map::<BotKind, BotDefinition>::empty(),
    {
        let container = BotDefinitionsContainer { map: HashMap::new() };
        assert(container@ =~= Map::<BotKind, BotDefinition>::empty());
        container
    }

    /// Records the definition of `kind`, in place of an earlier one.
    pub fn insert(&mut self, kind: BotKind, definition: BotDefinition)
        ensures
            final(self)@ == old(self)@.insert(kind, definition),
    {
        self.map.insert(kind.id(), definition);
        assert(self@ =~= old(self)@.insert(kind, definition)) by {
            assert forall|other: BotKind| other != kind implies other.spec_id()
                != kind.spec_id() by {}
        }
    }

    /// The definition of `kind`, if one was recorded.
    pub fn get_definition(&self, kind: BotKind) -> (r: Option<&BotDefinition>)
        ensures
            match r {
                Some(definition) => self@.contains_key(kind) && *definition == self@[kind],
                None => !self@.contains_key(kind),
            },
    {
        let id = kind.id();
        self.map.get(&id)
    }
}

} // verus!
