//! The bot: its kind, its state, and what it does each tick.
//!
//! A tick goes in three steps. The caller observes the world: where the
//! body is, which parts of it are damaged, who could be engaged and what
//! stands in between, which signals the animations have surfaced. It hands
//! all that to `Bot::update`, which changes the bot and returns what is to
//! be done: messages to send, animations to switch, a body to remove,
//! whether to walk and whether to aim. The caller carries that out; to aim,
//! it works out heading and elevation of the line of sight and passes them
//! to `Bot::aim_horizontally` and `Bot::aim_vertically`, which turn the bot
//! at its bounded speed.

use crate::geometry::{Point3, Vector3};
use crate::handle::Handle;
use crate::message::Message;
use crate::smooth_angle::{wrap_wide_angle, wrapped, SmoothAngle, FULL_TURN};
use definition::{BotDefinition, BotDefinitionsContainer};
use lower_body::{LowerBodyMachine, LowerBodyMachineInput, LowerBodyState};
use target::{Candidate, Target};
use upper_body::{UpperBodyMachine, UpperBodyMachineInput, UpperBodyState};
use vstd::prelude::*;

pub mod definition;
pub mod footstep;
pub mod lower_body;
pub mod signals;
pub mod steering;
pub mod target;
pub mod upper_body;

verus! {

/// The species of a bot. Each kind has its own tuning data.
#[derive(Clone, Copy, PartialEq, Eq, Structural, Hash, Debug)]
pub enum BotKind {
    Mutant,
    Parasite,
    Zombie,
}

/// The character that stands for a digit.
pub open spec fn digit(d: int) -> char {
    if d == 0 {
        '0'
    } else if d == 1 {
        '1'
    } else if d == 2 {
        '2'
    } else if d == 3 {
        '3'
    } else if d == 4 {
        '4'
    } else if d == 5 {
        '5'
    } else if d == 6 {
        '6'
    } else if d == 7 {
        '7'
    } else if d == 8 {
        '8'
    } else {
        '9'
    }
}

/// A natural number in decimal, without leading zeros.
pub open spec fn decimal_digits(n: nat) -> Seq<char>
    decreases n,
{
    if n < 10 {
        seq![digit(n as int)]
    } else {
        decimal_digits(n / 10).push(digit((n % 10) as int))
    }
}

/// A number in decimal, with a minus sign if it is negative.
pub open spec fn decimal(i: int) -> Seq<char> {
    if i < 0 {
        seq!['-'] + decimal_digits((-i) as nat)
    } else {
        decimal_digits(i as nat)
    }
}

/// The text of the error that `BotKind::from_id` gives for `id`.
pub open spec fn invalid_kind_text(id: int) -> Seq<char> {
    "Invalid bot kind "@ + decimal(id)
}

/// Renders the error for an unknown kind identifier with `format!`, which
/// writes an integer in decimal, with a minus sign if it is negative: the
/// words "Invalid bot kind " followed by `id`.
#[verifier::external_body]
fn invalid_kind_message(id: i32) -> (message: String)
    ensures
        message@ == invalid_kind_text(id as int),
{
    format!("Invalid bot kind {}", id)
}

impl BotKind {
    /// The integer under which the kind is persisted.
    pub open spec fn spec_id(self) -> int {
        match self {
            BotKind::Mutant => 0,
            BotKind::Parasite => 1,
            BotKind::Zombie => 2,
        }
    }

    /// The kind that is persisted as `id`, if there is one.
    pub open spec fn spec_from_id(id: int) -> Option<BotKind> {
        if id == 0 {
            Some(BotKind::Mutant)
        } else if id == 1 {
            Some(BotKind::Parasite)
        } else if id == 2 {
            Some(BotKind::Zombie)
        } else {
            None
        }
    }

    /// Resolves a persisted identifier. An identifier that names no kind is
    /// an error that carries the offending number.
    pub fn from_id(id: i32) -> (r: Result<BotKind, String>)
        ensures
            match Self::spec_from_id(id as int) {
                Some(kind) => r == Ok::<BotKind, String>(kind),
                None => r is Err && r->Err_0@ == invalid_kind_text(id as int),
            },
    {
        match id {
            0 => Ok(BotKind::Mutant),
            1 => Ok(BotKind::Parasite),
            2 => Ok(BotKind::Zombie),
            _ => Err(invalid_kind_message(id)),
        }
    }

    pub fn id(self) -> (r: i32)
        ensures
            r == self.spec_id(),
    {
        match self {
            BotKind::Mutant => 0,
            BotKind::Parasite => 1,
            BotKind::Zombie => 2,
        }
    }

    /// The kind's name as shown to players.
    pub open spec fn spec_description(self) -> Seq<char> {
        match self {
            BotKind::Mutant => "Mutant"@,
            BotKind::Parasite => "Parasite"@,
            BotKind::Zombie => "Zombie"@,
        }
    }

    pub fn description(self) -> (r: &'static str)
        ensures
            r@ == self.spec_description(),
    {
        match self {
            BotKind::Mutant => "Mutant",
            BotKind::Parasite => "Parasite",
            BotKind::Zombie => "Zombie",
        }
    }

    /// Every kind is recovered from its identifier, and only identifiers of
    /// kinds resolve.
    pub proof fn lemma_id_round_trip(kind: BotKind, id: int)
        ensures
            Self::spec_from_id(kind.spec_id()) == Some(kind),
            Self::spec_from_id(id) is Some ==> Self::spec_from_id(id).unwrap().spec_id() == id,
            Self::spec_from_id(id) is Some <==> 0 <= id <= 2,
    {
    }
}

/// A speed factor of one: nothing slows the bot down.
pub const FULL_SPEED: u32 = 1000;

/// For how long, in microseconds, a bot that was hurt cannot aim.
pub const RESTORATION_TIME: i64 = 800_000;

/// For how long, in microseconds, a bot that has started a strike cannot
/// start another.
pub const ATTACK_TIMEOUT: i64 = 300_000;

/// The turn speed of a bot's aim, in thousandths of a degree per second.
pub const AIM_SPEED: u32 = 260_000;

/// A part of the body that slows the bot down while it is damaged.
#[derive(Clone, Copy, PartialEq, Eq, Structural, Debug)]
pub struct HitRegion {
    /// The factor, in thousandths, that damage to this part puts on the
    /// bot's speed.
    pub movement_speed_factor: u32,
    /// Whether the part is reacting to an impact right now.
    pub damaged: bool,
}

/// The factor that the damaged regions put on a bot's speed: the least of
/// their factors, and full speed at most.
pub open spec fn spec_movement_speed_factor(regions: Seq<HitRegion>) -> u32
    decreases regions.len(),
{
    if regions.len() == 0 {
        FULL_SPEED
    } else {
        let others = spec_movement_speed_factor(regions.drop_last());
        let region = regions.last();
        if region.damaged && region.movement_speed_factor < others {
            region.movement_speed_factor
        } else {
            others
        }
    }
}

/// Finds how much the damaged regions slow a bot down.
pub fn calculate_movement_speed_factor(regions: &Vec<HitRegion>) -> (k: u32)
    ensures
        k == spec_movement_speed_factor(regions@),
{
    let mut k: u32 = FULL_SPEED;
    let mut i: usize = 0;
    while i < regions.len()
        invariant
            i <= regions.len(),
            k == spec_movement_speed_factor(regions@.take(i as int)),
        decreases regions.len() - i,
    {
        assert(regions@.take(i + 1).drop_last() == regions@.take(i as int));
        if regions[i].damaged && regions[i].movement_speed_factor < k {
            k = regions[i].movement_speed_factor;
        }
        i += 1;
    }
    assert(regions@.take(i as int) == regions@);
    k
}

/// The speed factor is the minimum over the damaged regions: no damaged
/// region has a smaller factor, and the factor is that of some damaged
/// region unless it is full speed. Without a damaged region it is full
/// speed. Where some region is damaged and no damaged region speeds the
/// bot up, the factor is that of a damaged region: their minimum.
pub proof fn lemma_movement_speed_factor_is_minimum(regions: Seq<HitRegion>)
    ensures
        ({
            &&& exists|i: int| 0 <= i < regions.len() && (#[trigger] regions[i]).damaged
            &&& forall|i: int|
                0 <= i < regions.len() && (#[trigger] regions[i]).damaged
                    ==> regions[i].movement_speed_factor <= FULL_SPEED
        }) ==> exists|i: int|
            0 <= i < regions.len() && (#[trigger] regions[i]).damaged
                && regions[i].movement_speed_factor == spec_movement_speed_factor(regions),
        spec_movement_speed_factor(regions) <= FULL_SPEED,
        forall|i: int|
            0 <= i < regions.len() && (#[trigger] regions[i]).damaged
                ==> spec_movement_speed_factor(regions) <= regions[i].movement_speed_factor,
        spec_movement_speed_factor(regions) == FULL_SPEED || exists|i: int|
            0 <= i < regions.len() && (#[trigger] regions[i]).damaged
                && regions[i].movement_speed_factor == spec_movement_speed_factor(regions),
        (forall|i: int| 0 <= i < regions.len() ==> !(#[trigger] regions[i]).damaged)
            ==> spec_movement_speed_factor(regions) == FULL_SPEED,
    decreases regions.len(),
{
    if regions.len() > 0 {
        let others = regions.drop_last();
        lemma_movement_speed_factor_is_minimum(others);
        let k = spec_movement_speed_factor(regions);
        assert forall|i: int| 0 <= i < regions.len() && (#[trigger] regions[i]).damaged implies k
            <= regions[i].movement_speed_factor by {
            if i < others.len() {
                assert(others[i] == regions[i]);
            }
        }
        if k != FULL_SPEED {
            if k == spec_movement_speed_factor(others) {
                let i = choose|i: int|
                    0 <= i < others.len() && (#[trigger] others[i]).damaged
                        && others[i].movement_speed_factor == spec_movement_speed_factor(others);
                assert(regions[i] == others[i]);
            } else {
                assert(regions[regions.len() - 1].damaged);
            }
        }
        if forall|i: int| 0 <= i < regions.len() ==> !(#[trigger] regions[i]).damaged {
            assert forall|i: int| 0 <= i < others.len() implies !(#[trigger] others[i]).damaged by {
                assert(others[i] == regions[i]);
            }
            assert(!regions[regions.len() - 1].damaged);
        }
    }
}

/// What a bot carries. Only ammunition matters to it.
#[derive(Clone, Copy, PartialEq, Eq, Structural, Debug)]
pub struct Inventory {
    pub ammo: u32,
}

impl Inventory {
    /// Takes exactly `amount` rounds out, or none at all if fewer are left.
    /// Returns how many were taken.
    pub fn try_extract_exact_items(&mut self, amount: u32) -> (taken: u32)
        ensures
            old(self).ammo >= amount ==> taken == amount && final(self).ammo == old(self).ammo
                - amount,
            old(self).ammo < amount ==> taken == 0 && final(self).ammo == old(self).ammo,
    {
        if self.ammo >= amount {
            self.ammo -= amount;
            amount
        } else {
            0
        }
    }
}

/// An animation that the controller switches on and off by itself.
#[derive(Clone, Copy, PartialEq, Eq, Structural, Debug)]
pub enum Animation {
    /// The death of the upper body.
    UpperDying,
    /// The death of the lower body.
    LowerDying,
    /// The attack variant of the given index.
    Attack(u32),
}

/// What is to be done to an animation.
#[derive(Clone, Copy, PartialEq, Eq, Structural, Debug)]
pub enum AnimationCommand {
    Enable(Animation),
    Disable(Animation),
    /// Enable the animation and play it from its start.
    EnableAndRewind(Animation),
}

/// What the world shows a bot at the start of a tick.
#[derive(Clone, Debug)]
pub struct UpdateContext {
    /// The time since the last tick, in microseconds.
    pub dt: u32,
    /// Where the bot's body is.
    pub position: Point3,
    /// The parts of the body that can slow the bot down.
    pub hit_regions: Vec<HitRegion>,
    /// Whether the weapon in hand, if there is one, is ready to fire again.
    pub weapon_ready: bool,
    /// How many rounds one shot of that weapon takes.
    pub ammo_per_shot: u32,
    /// The signals that the current attack animation has surfaced since the
    /// last tick, oldest first.
    pub attack_signals: Vec<u64>,
    /// The signals that the walk cycle has surfaced since the last tick,
    /// oldest first.
    pub walk_signals: Vec<u64>,
    /// Whether the current attack animation has played to its end.
    pub attack_animation_ended: bool,
    /// Whether the current attack animation is switched on.
    pub attack_animation_enabled: bool,
}

/// What a bot wants done at the end of a tick.
#[derive(Clone, Debug)]
pub struct UpdateOutput {
    /// The messages to send, in this order.
    pub messages: Vec<Message>,
    /// What to do to the animations, in this order.
    pub animations: Vec<AnimationCommand>,
    /// The physics body to remove from the world, or the handle to nothing.
    pub removed_body: Handle,
    /// The factor, in thousandths, by which damage slows the bot down. The
    /// walk cycle plays at this rate.
    pub movement_speed_factor: u32,
    /// The speed to give the navigation agent, in millimetres per second;
    /// none for a dead bot, whose agent is left alone.
    pub agent_speed: Option<u32>,
    /// Whether the body is to be driven towards the agent's next waypoint.
    /// If not, a living bot's horizontal velocity is to be zeroed.
    pub is_moving: bool,
    /// Where the bot looks.
    pub look_dir: Vector3,
    /// Whether spine and body are to be turned towards `look_dir`.
    pub aims: bool,
    /// How many footfalls are to be sounded.
    pub footsteps: usize,
    /// What was fed to the locomotion machine.
    pub lower_body_input: LowerBodyMachineInput,
    /// What was fed to the combat machine.
    pub upper_body_input: UpperBodyMachineInput,
}

/// What a bot makes of a tick before it changes anything.
#[derive(Clone, Copy, PartialEq, Eq, Structural, Debug)]
pub struct Assessment {
    /// Whether the bot is alive. The other fields of a dead bot's assessment
    /// say that nothing happens.
    pub alive: bool,
    pub movement_speed_factor: u32,
    /// The target to engage from now on.
    pub target: Option<Target>,
    /// From the bot to the target, or forward without a target.
    pub look_dir: Vector3,
    /// Whether the target is within reach of a melee attack.
    pub in_close_combat: bool,
    /// Whether the bot was hurt since the last tick.
    pub was_damaged: bool,
    /// Whether the bot has recovered enough to aim.
    pub can_aim: bool,
    /// Whether the bot walks towards its target.
    pub is_moving: bool,
    /// Whether everything but the ammunition allows a shot.
    pub attempts_shot: bool,
    /// Whether a shot is fired.
    pub shoots: bool,
    /// Whether a new strike is started.
    pub retriggers: bool,
}

/// A timer after `dt` microseconds. Timers run below zero, and stop at the
/// least number they can hold.
pub open spec fn spec_elapse(timer: i64, dt: u32) -> i64 {
    if timer - dt < i64::MIN {
        i64::MIN
    } else {
        (timer - dt) as i64
    }
}

pub fn elapse(timer: i64, dt: u32) -> (r: i64)
    ensures
        r == spec_elapse(timer, dt),
{
    if timer < i64::MIN + dt as i64 {
        i64::MIN
    } else {
        timer - dt as i64
    }
}

/// A walking speed under a speed factor, rounded down.
pub open spec fn spec_scaled_speed(walk_speed: u32, factor: u32) -> int {
    walk_speed * factor / (FULL_SPEED as int)
}

/// What is persisted of a bot. The kind is held as its identifier, so that a
/// record can be read before the kind's definition is known.
#[derive(Clone, Copy, PartialEq, Eq, Structural, Debug)]
pub struct BotRecord {
    pub kind_id: i32,
    pub health: u32,
    pub body: Handle,
    pub weapon: Option<Handle>,
    pub inventory: Inventory,
    pub target: Option<Target>,
    pub lower_body_machine: LowerBodyMachine,
    pub upper_body_machine: UpperBodyMachine,
    pub restoration_time: i64,
    pub yaw: SmoothAngle,
    pub pitch: SmoothAngle,
    pub attack_animation_index: u32,
}

impl BotRecord {
    /// A record fits a definition when the definition is usable, the
    /// record's attack variant is one that the definition has, its combat
    /// machine knows as many variants as the definition, and its heading
    /// and elevation are wrapped.
    pub open spec fn fits(&self, definition: BotDefinition) -> bool {
        &&& definition.is_valid()
        &&& self.attack_animation_index < definition.attack_animations@.len()
        &&& self.upper_body_machine.attack_variants == definition.attack_animations@.len()
        &&& self.upper_body_machine.wf()
        &&& self.yaw.is_wrapped()
        &&& self.pitch.is_wrapped()
    }

    /// Checks whether the record fits a definition.
    pub fn check_fits(&self, definition: &BotDefinition) -> (r: bool)
        ensures
            r == self.fits(*definition),
    {
        let variants = definition.attack_animations.len();
        let machine_fits = match self.upper_body_machine.state {
            UpperBodyState::Attack(i) => i < self.upper_body_machine.attack_variants,
            _ => true,
        };
        let angles_fit = 0 <= self.yaw.angle && self.yaw.angle < FULL_TURN && 0 <= self.yaw.target
            && self.yaw.target < FULL_TURN && 0 <= self.pitch.angle && self.pitch.angle < FULL_TURN
            && 0 <= self.pitch.target && self.pitch.target < FULL_TURN;
        definition.check_valid() && (self.attack_animation_index as usize) < variants
            && self.upper_body_machine.attack_variants as usize == variants && machine_fits
            && angles_fit
    }
}

/// A bot: one hostile entity under the controller's command.
#[derive(Clone, Copy, Debug)]
pub struct Bot<'a> {
    /// Whom the bot engages.
    pub target: Option<Target>,
    pub kind: BotKind,
    /// The tuning data of the bot's kind.
    pub definition: &'a BotDefinition,
    /// In thousandths of a point. A bot without health is dead.
    pub health: u32,
    /// The bot's physics body, or the handle to nothing once it is removed.
    pub body: Handle,
    /// The weapon in hand.
    pub weapon: Option<Handle>,
    pub inventory: Inventory,
    pub lower_body_machine: LowerBodyMachine,
    pub upper_body_machine: UpperBodyMachine,
    /// The health at the end of the last tick.
    pub last_health: u32,
    /// While positive, the bot is recovering from a hit and cannot aim.
    pub restoration_time: i64,
    /// The heading of the body.
    pub yaw: SmoothAngle,
    /// The elevation of the spine.
    pub pitch: SmoothAngle,
    /// While positive, the bot cannot start a strike.
    pub attack_timeout: i64,
    /// The attack variant in use.
    pub attack_animation_index: u32,
    /// Whether the model has a spine bone to aim with.
    pub has_spine: bool,
}

impl<'a> Bot<'a> {
    /// The state of a bot is sound when its definition is usable, its attack
    /// variant is one that the kind has, its combat machine knows as many
    /// variants as the kind, and its heading and elevation are wrapped.
    pub open spec fn wf(&self) -> bool {
        &&& self.definition.is_valid()
        &&& self.attack_animation_index < self.definition.attack_animations@.len()
        &&& self.upper_body_machine.attack_variants == self.definition.attack_animations@.len()
        &&& self.upper_body_machine.wf()
        &&& self.yaw.is_wrapped()
        &&& self.pitch.is_wrapped()
    }

    /// Checks whether the state of the bot is sound.
    pub fn check_wf(&self) -> (r: bool)
        ensures
            r == self.wf(),
    {
        self.save().check_fits(self.definition)
    }

    /// A bot is dead when it has no health left, and from the first tick
    /// that found it so: that tick feeds death to both machines, death is
    /// final in them, and a bot with a dead machine is dead whatever its
    /// health has become.
    pub open spec fn spec_is_dead(&self) -> bool {
        ||| self.health == 0
        ||| self.lower_body_machine.state == LowerBodyState::Dead
        ||| self.upper_body_machine.state == UpperBodyState::Dead
    }

    pub open spec fn spec_can_shoot(&self) -> bool {
        self.upper_body_machine.state == UpperBodyState::Aim && self.definition.can_use_weapons
    }

    /// A bot of the given kind, fresh into the world: in full health, at
    /// rest, facing forward, unarmed, and with no target.
    pub fn new(
        kind: BotKind,
        definition: &'a BotDefinition,
        body: Handle,
        has_spine: bool,
    ) -> (bot: Bot<'a>)
        requires
            definition.is_valid(),
        ensures
            bot.wf(),
            bot == (Bot {
                target: None,
                kind,
                definition,
                health: definition.health,
                body,
                weapon: None,
                inventory: Inventory { ammo: 0 },
                lower_body_machine: LowerBodyMachine {
                    state: LowerBodyState::Idle,
                    walk_animation_speed: FULL_SPEED,
                },
                upper_body_machine: UpperBodyMachine {
                    state: UpperBodyState::Idle,
                    attack_variants: definition.attack_animations@.len() as u32,
                },
                last_health: definition.health,
                restoration_time: 0,
                yaw: SmoothAngle { angle: 0, target: 0, speed: AIM_SPEED },
                pitch: SmoothAngle { angle: 0, target: 0, speed: AIM_SPEED },
                attack_timeout: 0,
                attack_animation_index: 0,
                has_spine,
            }),
    {
        Bot {
            target: None,
            kind,
            definition,
            health: definition.health,
            body,
            weapon: None,
            inventory: Inventory { ammo: 0 },
            lower_body_machine: LowerBodyMachine::new(),
            upper_body_machine: UpperBodyMachine::new(definition.attack_animations.len() as u32),
            last_health: definition.health,
            restoration_time: 0,
            yaw: SmoothAngle { angle: 0, target: 0, speed: AIM_SPEED },
            pitch: SmoothAngle { angle: 0, target: 0, speed: AIM_SPEED },
            attack_timeout: 0,
            attack_animation_index: 0,
            has_spine,
        }
    }

    /// Whether the target, if there is one, is within reach of a melee
    /// attack from `position`.
    pub open spec fn spec_in_close_combat(&self, target: Option<Target>, position: Point3) -> bool {
        match target {
            Some(target) => position.spec_distance_squared(target.position)
                <= self.definition.close_combat_distance * self.definition.close_combat_distance,
            None => false,
        }
    }

    /// Where a bot at `position` looks: at its target, or forward.
    pub open spec fn spec_look_dir(target: Option<Target>, position: Point3) -> Vector3 {
        match target {
            Some(target) => position.spec_vector_to(target.position),
            None => Vector3::spec_forward(),
        }
    }

    /// What the bot makes of a tick.
    ///
    /// A dead bot does nothing. A living bot brings its target up to date,
    /// looks at it, and is in close combat when the target is within reach.
    /// It can aim unless it was hurt since the last tick or is still
    /// recovering. It walks when it has a target out of reach. It attempts
    /// a shot when it has a target out of reach, can aim, is in a position
    /// to fire, and holds a weapon that is ready; the shot is fired when the
    /// ammunition suffices. It starts a new strike when it is in close
    /// combat, the time since it last started one is up, and the current
    /// attack animation has ended or is switched off.
    pub open spec fn spec_assess(
        &self,
        self_handle: Handle,
        context: UpdateContext,
        targets: Seq<Candidate>,
    ) -> Assessment {
        if self.spec_is_dead() {
            Assessment {
                alive: false,
                movement_speed_factor: FULL_SPEED,
                target: self.target,
                look_dir: Vector3::spec_forward(),
                in_close_combat: false,
                was_damaged: false,
                can_aim: false,
                is_moving: false,
                attempts_shot: false,
                shoots: false,
                retriggers: false,
            }
        } else {
            let target = target::spec_select_target(
                self.target,
                targets,
                self_handle,
                self.body,
                context.position,
            );
            let in_close_combat = self.spec_in_close_combat(target, context.position);
            let was_damaged = self.health < self.last_health;
            let can_aim = !was_damaged && self.restoration_time <= 0;
            let attempts_shot = !in_close_combat && can_aim && self.spec_can_shoot()
                && target is Some && self.weapon is Some && context.weapon_ready;
            Assessment {
                alive: true,
                movement_speed_factor: spec_movement_speed_factor(context.hit_regions@),
                target,
                look_dir: Self::spec_look_dir(target, context.position),
                in_close_combat,
                was_damaged,
                can_aim,
                is_moving: !in_close_combat && target is Some,
                attempts_shot,
                shoots: attempts_shot && self.inventory.ammo >= context.ammo_per_shot,
                retriggers: in_close_combat && self.attack_timeout <= 0 && (
                context.attack_animation_ended || !context.attack_animation_enabled),
            }
        }
    }

    /// The recovery timer after the tick: restarted if the bot was hurt, and
    /// run down by the time that passed. A dead bot's timer stands still.
    pub open spec fn spec_restoration_time(&self, a: Assessment, context: UpdateContext) -> i64 {
        if a.alive {
            spec_elapse(
                if a.was_damaged {
                    RESTORATION_TIME
                } else {
                    self.restoration_time
                },
                context.dt,
            )
        } else {
            self.restoration_time
        }
    }

    /// The strike timer after the tick: set anew when a new strike is
    /// started, and run down by the time that passed. A dead bot's timer
    /// stands still.
    pub open spec fn spec_attack_timeout(&self, a: Assessment, context: UpdateContext) -> i64 {
        if a.alive {
            spec_elapse(
                if a.retriggers {
                    ATTACK_TIMEOUT
                } else {
                    self.attack_timeout
                },
                context.dt,
            )
        } else {
            self.attack_timeout
        }
    }

    /// The attack variant after the tick: the one drawn, if a new strike is
    /// started.
    pub open spec fn spec_attack_animation_index(&self, a: Assessment, pick: u32) -> u32 {
        if a.retriggers {
            pick
        } else {
            self.attack_animation_index
        }
    }

    /// What the tick feeds the locomotion machine.
    pub open spec fn spec_lower_body_input(a: Assessment) -> LowerBodyMachineInput {
        LowerBodyMachineInput { walk: a.is_moving, scream: false, dead: !a.alive }
    }

    /// What the tick feeds the combat machine. It strikes while in close
    /// combat with the time since the last start of a strike up, and aims
    /// while the kind can handle weapons and the bot can aim.
    pub open spec fn spec_upper_body_input(
        &self,
        a: Assessment,
        context: UpdateContext,
        pick: u32,
    ) -> UpperBodyMachineInput {
        UpperBodyMachineInput {
            attack: a.in_close_combat && self.spec_attack_timeout(a, context) <= 0,
            walk: a.is_moving,
            scream: false,
            dead: !a.alive,
            aim: self.definition.can_use_weapons && a.can_aim,
            attack_animation_index: self.spec_attack_animation_index(a, pick),
        }
    }

    /// The bot after a tick in which it made assessment `a` and drew `pick`.
    pub open spec fn spec_apply(
        &self,
        a: Assessment,
        context: UpdateContext,
        pick: u32,
    ) -> Bot<'a> {
        Bot {
            target: a.target,
            body: if a.alive {
                self.body
            } else {
                Handle::spec_none()
            },
            inventory: Inventory {
                ammo: if a.shoots {
                    (self.inventory.ammo - context.ammo_per_shot) as u32
                } else {
                    self.inventory.ammo
                },
            },
            lower_body_machine: LowerBodyMachine {
                state: lower_body::lower_body_step(
                    self.lower_body_machine.state,
                    Self::spec_lower_body_input(a),
                ),
                walk_animation_speed: a.movement_speed_factor,
            },
            upper_body_machine: UpperBodyMachine {
                state: upper_body::upper_body_step(
                    self.upper_body_machine.state,
                    self.spec_upper_body_input(a, context, pick),
                    context.attack_animation_ended,
                ),
                attack_variants: self.upper_body_machine.attack_variants,
            },
            last_health: if a.alive {
                self.health
            } else {
                self.last_health
            },
            restoration_time: self.spec_restoration_time(a, context),
            attack_timeout: self.spec_attack_timeout(a, context),
            attack_animation_index: self.spec_attack_animation_index(a, pick),
            ..*self
        }
    }

    /// The bot after a tick in which it drew `pick`.
    pub open spec fn spec_update(
        &self,
        self_handle: Handle,
        context: UpdateContext,
        targets: Seq<Candidate>,
        pick: u32,
    ) -> Bot<'a> {
        self.spec_apply(self.spec_assess(self_handle, context, targets), context, pick)
    }

    /// The message that one landed blow sends.
    pub open spec fn spec_damage_message(&self, target: Target) -> Message {
        Message::DamageActor {
            actor: target.handle,
            who: Handle::spec_none(),
            amount: self.definition.spec_attack_damage(self.attack_animation_index as int),
        }
    }

    /// The message that a tick sends to fire the weapon: one along the line
    /// of sight if a shot is fired, none otherwise.
    pub open spec fn spec_shot(&self, a: Assessment) -> Seq<Message> {
        if a.shoots && self.weapon is Some {
            seq![
                Message::ShootWeapon { weapon: self.weapon.unwrap(), direction: Some(a.look_dir) },
            ]
        } else {
            Seq::<Message>::empty()
        }
    }

    /// The messages that a tick sends to harm the target: one for each hit
    /// signal of the current attack animation, provided the bot is in close
    /// combat. Hit signals outside close combat are dropped.
    pub open spec fn spec_blows(&self, a: Assessment, context: UpdateContext) -> Seq<Message> {
        match a.target {
            Some(target) if a.in_close_combat => Seq::new(
                signals::count_signal(context.attack_signals@, UpperBodyMachine::HIT_SIGNAL),
                |i: int| self.spec_damage_message(target),
            ),
            _ => Seq::<Message>::empty(),
        }
    }

    /// The messages of a tick: first the shot, then the blows.
    pub open spec fn spec_messages(&self, a: Assessment, context: UpdateContext) -> Seq<Message> {
        self.spec_shot(a) + self.spec_blows(a, context)
    }

    /// What a tick does to the animations. A dead bot has both death
    /// animations switched on and every attack animation switched off. A
    /// bot that starts a new strike has the current attack animation and
    /// then the one drawn played from the start.
    pub open spec fn spec_animations(&self, a: Assessment, pick: u32) -> Seq<AnimationCommand> {
        if !a.alive {
            seq![
                AnimationCommand::Enable(Animation::UpperDying),
                AnimationCommand::Enable(Animation::LowerDying),
            ] + Seq::new(
                self.definition.attack_animations@.len(),
                |i: int| AnimationCommand::Disable(Animation::Attack(i as u32)),
            )
        } else if a.retriggers {
            seq![
                AnimationCommand::EnableAndRewind(Animation::Attack(self.attack_animation_index)),
                AnimationCommand::EnableAndRewind(Animation::Attack(pick)),
            ]
        } else {
            Seq::<AnimationCommand>::empty()
        }
    }

    /// Whether `out` is what a tick with assessment `a` and draw `pick`
    /// asks for.
    pub open spec fn is_output_of(
        &self,
        a: Assessment,
        context: UpdateContext,
        pick: u32,
        out: UpdateOutput,
    ) -> bool {
        &&& out.messages@ == self.spec_messages(a, context)
        &&& out.animations@ == self.spec_animations(a, pick)
        &&& out.removed_body == if a.alive {
            Handle::spec_none()
        } else {
            self.body
        }
        &&& out.movement_speed_factor == a.movement_speed_factor
        &&& out.agent_speed == if a.alive {
            Some(spec_scaled_speed(self.definition.walk_speed, a.movement_speed_factor) as u32)
        } else {
            None
        }
        &&& out.is_moving == a.is_moving
        &&& out.look_dir == a.look_dir
        &&& out.aims == (a.alive && a.target is Some && !a.look_dir.spec_is_degenerate())
        &&& out.footsteps == if a.alive {
            self.lower_body_machine.spec_footsteps(context.walk_signals@)
        } else {
            0
        }
        &&& out.lower_body_input == Self::spec_lower_body_input(a)
        &&& out.upper_body_input == self.spec_upper_body_input(a, context, pick)
    }

    /// The definition of `kind`, which the container must hold.
    pub fn get_definition(
        definitions: &'a BotDefinitionsContainer,
        kind: BotKind,
    ) -> (definition: &'a BotDefinition)
        requires
            definitions@.contains_key(kind),
        ensures
            *definition == definitions@[kind],
    {
        definitions.get_definition(kind).unwrap()
    }

    /// What is written down of the bot when the game is saved.
    pub fn save(&self) -> (record: BotRecord)
        ensures
            record == self.spec_save(),
    {
        BotRecord {
            kind_id: self.kind.id(),
            health: self.health,
            body: self.body,
            weapon: self.weapon,
            inventory: self.inventory,
            target: self.target,
            lower_body_machine: self.lower_body_machine,
            upper_body_machine: self.upper_body_machine,
            restoration_time: self.restoration_time,
            yaw: self.yaw,
            pitch: self.pitch,
            attack_animation_index: self.attack_animation_index,
        }
    }

    pub open spec fn spec_save(&self) -> BotRecord {
        BotRecord {
            kind_id: self.kind.spec_id() as i32,
            health: self.health,
            body: self.body,
            weapon: self.weapon,
            inventory: self.inventory,
            target: self.target,
            lower_body_machine: self.lower_body_machine,
            upper_body_machine: self.upper_body_machine,
            restoration_time: self.restoration_time,
            yaw: self.yaw,
            pitch: self.pitch,
            attack_animation_index: self.attack_animation_index,
        }
    }

    /// The bot that a record describes, under the definition of its kind.
    /// What a record does not hold starts afresh: the bot remembers no
    /// earlier health, may strike at once, and has no spine to aim with.
    pub open spec fn spec_load(
        record: BotRecord,
        kind: BotKind,
        definition: &'a BotDefinition,
    ) -> Bot<'a> {
        Bot {
            target: record.target,
            kind,
            definition,
            health: record.health,
            body: record.body,
            weapon: record.weapon,
            inventory: record.inventory,
            lower_body_machine: record.lower_body_machine,
            upper_body_machine: record.upper_body_machine,
            last_health: 0,
            restoration_time: record.restoration_time,
            yaw: record.yaw,
            pitch: record.pitch,
            attack_timeout: 0,
            attack_animation_index: record.attack_animation_index,
            has_spine: false,
        }
    }

    /// Restores a bot from a record. The kind is resolved first, and its
    /// definition looked up, before anything else of the record is used; a
    /// record whose kind identifier names no kind is refused with the error
    /// of `BotKind::from_id`. The definitions must hold the record's kind,
    /// and the record must fit that definition.
    pub fn load(
        record: &BotRecord,
        definitions: &'a BotDefinitionsContainer,
    ) -> (r: Result<Bot<'a>, String>)
        requires
            BotKind::spec_from_id(record.kind_id as int) matches Some(kind)
                ==> definitions@.contains_key(kind) && record.fits(definitions@[kind]),
        ensures
            match BotKind::spec_from_id(record.kind_id as int) {
                Some(kind) => r is Ok && r->Ok_0.wf() && *r->Ok_0.definition == definitions@[kind]
                    && r->Ok_0 == Self::spec_load(*record, kind, r->Ok_0.definition),
                None => r is Err && r->Err_0@ == invalid_kind_text(record.kind_id as int),
            },
    {
        let kind = match BotKind::from_id(record.kind_id) {
            Ok(kind) => kind,
            Err(message) => {
                return Err(message);
            },
        };
        let definition = Self::get_definition(definitions, kind);
        Ok(
            Bot {
                target: record.target,
                kind,
                definition,
                health: record.health,
                body: record.body,
                weapon: record.weapon,
                inventory: record.inventory,
                lower_body_machine: record.lower_body_machine,
                upper_body_machine: record.upper_body_machine,
                last_health: 0,
                restoration_time: record.restoration_time,
                yaw: record.yaw,
                pitch: record.pitch,
                attack_timeout: 0,
                attack_animation_index: record.attack_animation_index,
                has_spine: false,
            },
        )
    }

    pub fn is_dead(&self) -> (r: bool)
        ensures
            r == self.spec_is_dead(),
    {
        self.health == 0 || self.lower_body_machine.is_dead() || self.upper_body_machine.is_dead()
    }

    /// Whether the bot is in a position to fire: it aims, and its kind can
    /// handle weapons.
    pub fn can_shoot(&self) -> (r: bool)
        ensures
            r == self.spec_can_shoot(),
    {
        self.upper_body_machine.is_aiming() && self.definition.can_use_weapons
    }

    /// Works out what the bot makes of a tick, without changing anything.
    pub fn assess(
        &self,
        self_handle: Handle,
        context: &UpdateContext,
        targets: &Vec<Candidate>,
    ) -> (a: Assessment)
        ensures
            a == self.spec_assess(self_handle, *context, targets@),
    {
        if self.is_dead() {
            return Assessment {
                alive: false,
                movement_speed_factor: FULL_SPEED,
                target: self.target,
                look_dir: Vector3::forward(),
                in_close_combat: false,
                was_damaged: false,
                can_aim: false,
                is_moving: false,
                attempts_shot: false,
                shoots: false,
                retriggers: false,
            };
        }
        let movement_speed_factor = calculate_movement_speed_factor(&context.hit_regions);
        let target = target::select_target(
            self.target,
            targets,
            self_handle,
            self.body,
            context.position,
        );
        let (look_dir, in_close_combat) = match target {
            None => (Vector3::forward(), false),
            Some(target) => {
                let reach: u128 = self.definition.close_combat_distance as u128;
                assert(reach * reach <= 0xffff_ffff * 0xffff_ffff) by (nonlinear_arith)
                    requires
                        0 <= reach <= 0xffff_ffff,
                ;
                (
                    context.position.vector_to(target.position),
                    context.position.distance_squared(target.position) <= reach * reach,
                )
            },
        };
        let was_damaged = self.health < self.last_health;
        let can_aim = !was_damaged && self.restoration_time <= 0;
        let attempts_shot = !in_close_combat && can_aim && self.can_shoot() && target.is_some()
            && self.weapon.is_some() && context.weapon_ready;
        Assessment {
            alive: true,
            movement_speed_factor,
            target,
            look_dir,
            in_close_combat,
            was_damaged,
            can_aim,
            is_moving: !in_close_combat && target.is_some(),
            attempts_shot,
            shoots: attempts_shot && self.inventory.ammo >= context.ammo_per_shot,
            retriggers: in_close_combat && self.attack_timeout <= 0 && (
            context.attack_animation_ended || !context.attack_animation_enabled),
        }
    }

    /// Carries out an assessment: changes the bot and says what is to be
    /// done outside it.
    fn apply(
        &mut self,
        a: &Assessment,
        context: &UpdateContext,
        pick: u32,
        Ghost(self_handle): Ghost<Handle>,
        Ghost(targets): Ghost<Seq<Candidate>>,
    ) -> (out: UpdateOutput)
        requires
            old(self).wf(),
            pick < old(self).definition.attack_animations@.len(),
            *a == old(self).spec_assess(self_handle, *context, targets),
        ensures
            final(self).wf(),
            *final(self) == old(self).spec_apply(*a, *context, pick),
            old(self).is_output_of(*a, *context, pick, out),
    {
        let mut messages: Vec<Message> = Vec::new();
        let mut animations: Vec<AnimationCommand> = Vec::new();
        let mut removed_body = Handle::none();
        let mut agent_speed: Option<u32> = None;
        let mut footsteps: usize = 0;
        let mut aims = false;
        let variants = self.definition.attack_animations.len();
        proof {
            lemma_movement_speed_factor_is_minimum(context.hit_regions@);
        }

        if !a.alive {
            animations.push(AnimationCommand::Enable(Animation::UpperDying));
            animations.push(AnimationCommand::Enable(Animation::LowerDying));
            let mut i: usize = 0;
            while i < variants
                invariant
                    i <= variants <= u32::MAX,
                    animations@ == seq![
                        AnimationCommand::Enable(Animation::UpperDying),
                        AnimationCommand::Enable(Animation::LowerDying),
                    ] + Seq::new(
                        i as nat,
                        |j: int| AnimationCommand::Disable(Animation::Attack(j as u32)),
                    ),
                decreases variants - i,
            {
                animations.push(AnimationCommand::Disable(Animation::Attack(i as u32)));
                i += 1;
            }
            removed_body = self.body;
            self.body = Handle::none();
        } else {
            assert(self.definition.walk_speed * a.movement_speed_factor <= 0xffff_ffff * 1000)
                by (nonlinear_arith)
                requires
                    0 <= self.definition.walk_speed <= 0xffff_ffff,
                    0 <= a.movement_speed_factor <= 1000,
            ;
            let scaled: u64 = self.definition.walk_speed as u64 * a.movement_speed_factor as u64
                / FULL_SPEED as u64;
            agent_speed = Some(scaled as u32);
            self.target = a.target;
            if a.was_damaged {
                self.restoration_time = RESTORATION_TIME;
            }
            self.last_health = self.health;

            if a.attempts_shot {
                if let Some(weapon) = self.weapon {
                    if self.inventory.try_extract_exact_items(context.ammo_per_shot)
                        == context.ammo_per_shot {
                        messages.push(
                            Message::ShootWeapon { weapon, direction: Some(a.look_dir) },
                        );
                    }
                }
            }
            let ghost shot = messages@;

            if let Some(target) = a.target {
                if a.in_close_combat {
                    let amount = self.definition.attack_damage(self.attack_animation_index);
                    let blow = Message::DamageActor {
                        actor: target.handle,
                        who: Handle::none(),
                        amount,
                    };
                    let mut i: usize = 0;
                    let ghost mut blows: nat = 0;
                    while i < context.attack_signals.len()
                        invariant
                            i <= context.attack_signals.len(),
                            blows == signals::count_signal(
                                context.attack_signals@.take(i as int),
                                UpperBodyMachine::HIT_SIGNAL,
                            ),
                            messages@ == shot + Seq::new(blows, |j: int| blow),
                        decreases context.attack_signals.len() - i,
                    {
                        assert(context.attack_signals@.take(i + 1).drop_last()
                            == context.attack_signals@.take(i as int));
                        if context.attack_signals[i] == UpperBodyMachine::HIT_SIGNAL {
                            messages.push(blow);
                            proof {
                                blows = blows + 1;
                            }
                        }
                        i += 1;
                    }
                    assert(context.attack_signals@.take(i as int) == context.attack_signals@);
                }
            }

            footsteps = self.lower_body_machine.footsteps(&context.walk_signals);
            self.restoration_time = elapse(self.restoration_time, context.dt);

            if a.retriggers {
                animations.push(
                    AnimationCommand::EnableAndRewind(
                        Animation::Attack(self.attack_animation_index),
                    ),
                );
                self.attack_animation_index = pick;
                animations.push(AnimationCommand::EnableAndRewind(Animation::Attack(pick)));
                self.attack_timeout = ATTACK_TIMEOUT;
            }
            self.attack_timeout = elapse(self.attack_timeout, context.dt);
            aims = a.target.is_some() && !a.look_dir.is_degenerate();
        }

        let lower_body_input = LowerBodyMachineInput {
            walk: a.is_moving,
            scream: false,
            dead: !a.alive,
        };
        let upper_body_input = UpperBodyMachineInput {
            attack: a.in_close_combat && self.attack_timeout <= 0,
            walk: a.is_moving,
            scream: false,
            dead: !a.alive,
            aim: self.definition.can_use_weapons && a.can_aim,
            attack_animation_index: self.attack_animation_index,
        };
        self.lower_body_machine.set_walk_animation_speed(a.movement_speed_factor);
        self.lower_body_machine.apply(lower_body_input);
        self.upper_body_machine.apply(upper_body_input, context.attack_animation_ended);
        assert(animations@ =~= old(self).spec_animations(*a, pick));

        UpdateOutput {
            messages,
            animations,
            removed_body,
            movement_speed_factor: a.movement_speed_factor,
            agent_speed,
            is_moving: a.is_moving,
            look_dir: a.look_dir,
            aims,
            footsteps,
            lower_body_input,
            upper_body_input,
        }
    }

    /// Runs one tick of the bot, with `pick` as the attack variant to use
    /// should a new strike begin.
    pub fn update_with(
        &mut self,
        self_handle: Handle,
        context: &UpdateContext,
        targets: &Vec<Candidate>,
        pick: u32,
    ) -> (out: UpdateOutput)
        requires
            old(self).wf(),
            pick < old(self).definition.attack_animations@.len(),
        ensures
            final(self).wf(),
            *final(self) == old(self).spec_update(self_handle, *context, targets@, pick),
            old(self).is_output_of(
                old(self).spec_assess(self_handle, *context, targets@),
                *context,
                pick,
                out,
            ),
    {
        let a = self.assess(self_handle, context, targets);
        self.apply(&a, context, pick, Ghost(self_handle), Ghost(targets@))
    }

    /// Runs one tick of the bot. Should a new strike begin, its variant is
    /// drawn at random from those that the kind has.
    pub fn update(
        &mut self,
        self_handle: Handle,
        context: &UpdateContext,
        targets: &Vec<Candidate>,
    ) -> (out: UpdateOutput)
        requires
            old(self).wf(),
        ensures
            final(self).wf(),
            exists|pick: u32|
                {
                    &&& pick < old(self).definition.attack_animations@.len()
                    &&& *final(self) == #[trigger] old(self).spec_update(
                        self_handle,
                        *context,
                        targets@,
                        pick,
                    )
                    &&& old(self).is_output_of(
                        old(self).spec_assess(self_handle, *context, targets@),
                        *context,
                        pick,
                        out,
                    )
                },
    {
        let a = self.assess(self_handle, context, targets);
        let pick = if a.retriggers {
            crate::random::random_index(self.definition.attack_animations.len()) as u32
        } else {
            self.attack_animation_index
        };
        let out = self.apply(&a, context, pick, Ghost(self_handle), Ghost(targets@));
        assert(*self == old(self).spec_update(self_handle, *context, targets@, pick));
        out
    }

    /// Turns the spine towards the elevation of the line of sight, given in
    /// thousandths of a degree, for `dt` microseconds. Returns the elevation
    /// to give the spine bone now, if the model has one: the one before
    /// this turn.
    pub fn aim_vertically(&mut self, elevation: i32, dt: u32) -> (angle: Option<i32>)
        ensures
            *final(self) == (Bot {
                pitch: (SmoothAngle {
                    target: wrapped(elevation + old(self).definition.v_aim_angle_hack) as i32,
                    ..old(self).pitch
                }).spec_update(dt as int),
                ..*old(self)
            }),
            angle == if old(self).has_spine {
                Some(old(self).pitch.angle)
            } else {
                None
            },
            final(self).pitch.is_wrapped(),
            old(self).wf() ==> final(self).wf(),
    {
        let angle = self.pitch.angle();
        let corrected: i64 = elevation as i64 + self.definition.v_aim_angle_hack as i64;
        self.pitch.set_target(wrap_wide_angle(corrected));
        self.pitch.update(dt);
        if self.has_spine {
            Some(angle)
        } else {
            None
        }
    }

    /// Turns the body towards the heading of the line of sight, given in
    /// thousandths of a degree, for `dt` microseconds. Returns the heading
    /// to give the body now: the one before this turn.
    pub fn aim_horizontally(&mut self, heading: i32, dt: u32) -> (angle: i32)
        ensures
            *final(self) == (Bot {
                yaw: (SmoothAngle { target: heading, ..old(self).yaw }).spec_update(dt as int),
                ..*old(self)
            }),
            angle == old(self).yaw.angle,
            final(self).yaw.is_wrapped(),
            old(self).wf() ==> final(self).wf(),
    {
        let angle = self.yaw.angle();
        self.yaw.set_target(heading);
        self.yaw.update(dt);
        angle
    }

    /// Takes `amount` from the bot's health, which never falls below none.
    pub fn damage(&mut self, amount: u32)
        ensures
            *final(self) == (Bot {
                health: if old(self).health >= amount {
                    (old(self).health - amount) as u32
                } else {
                    0
                },
                ..*old(self)
            }),
    {
        if self.health >= amount {
            self.health -= amount;
        } else {
            self.health = 0;
        }
    }

    /// Makes the bot engage the given entity.
    pub fn set_target(&mut self, handle: Handle, position: Point3)
        ensures
            *final(self) == (Bot { target: Some(Target { position, handle }), ..*old(self) }),
    {
        self.target = Some(Target { position, handle });
    }

    /// Tells the bot that an actor has left the world. If that was its
    /// target, the bot has none any more.
    pub fn on_actor_removed(&mut self, handle: Handle)
        ensures
            *final(self) == (Bot {
                target: match old(self).target {
                    Some(target) if target.handle == handle => None,
                    other => other,
                },
                ..*old(self)
            }),
    {
        if let Some(target) = self.target {
            if target.handle == handle {
                self.target = None;
            }
        }
    }
}

/// How many of the messages ask to harm an actor.
pub open spec fn count_damage(messages: Seq<Message>) -> nat
    decreases messages.len(),
{
    if messages.len() == 0 {
        0
    } else {
        count_damage(messages.drop_last()) + if messages.last() is DamageActor {
            1nat
        } else {
            0nat
        }
    }
}

/// How many of the messages ask to fire a weapon.
pub open spec fn count_shots(messages: Seq<Message>) -> nat
    decreases messages.len(),
{
    if messages.len() == 0 {
        0
    } else {
        count_shots(messages.drop_last()) + if messages.last() is ShootWeapon {
            1nat
        } else {
            0nat
        }
    }
}

/// Counting over a run of `n` copies of one message behind some others.
proof fn lemma_count_repeated(head: Seq<Message>, n: nat, message: Message)
    ensures
        count_damage(head + Seq::new(n, |i: int| message)) == count_damage(head) + if message
            is DamageActor {
            n
        } else {
            0
        },
        count_shots(head + Seq::new(n, |i: int| message)) == count_shots(head) + if message
            is ShootWeapon {
            n
        } else {
            0
        },
    decreases n,
{
    let all = head + Seq::new(n, |i: int| message);
    if n == 0 {
        assert(all == head);
    } else {
        let fewer = head + Seq::new((n - 1) as nat, |i: int| message);
        assert(all.drop_last() == fewer);
        assert(all.last() == message);
        lemma_count_repeated(head, (n - 1) as nat, message);
    }
}

impl<'a> Bot<'a> {
    /// The bot as a tick finds it when its health has become `health` in
    /// the meantime.
    pub open spec fn spec_found_with(&self, health: u32) -> Bot<'a> {
        Bot { health, ..*self }
    }

    /// The bot after a run of ticks, each with the health that the tick
    /// finds the bot with, the bot's own handle, what the world showed, the
    /// candidates, and the variant drawn.
    pub open spec fn spec_run(
        &self,
        ticks: Seq<(u32, Handle, UpdateContext, Seq<Candidate>, u32)>,
    ) -> Bot<'a>
        decreases ticks.len(),
    {
        if ticks.len() == 0 {
            *self
        } else {
            let tick = ticks.last();
            self.spec_run(ticks.drop_last()).spec_found_with(tick.0).spec_update(
                tick.1,
                tick.2,
                tick.3,
                tick.4,
            )
        }
    }

    /// The bot as tick `k` of a run finds it.
    pub open spec fn spec_found_at(
        &self,
        ticks: Seq<(u32, Handle, UpdateContext, Seq<Candidate>, u32)>,
        k: int,
    ) -> Bot<'a>
        recommends
            0 <= k < ticks.len(),
    {
        self.spec_run(ticks.take(k)).spec_found_with(ticks[k].0)
    }

    /// A dead bot acts no more. Its tick selects no target, sends no
    /// message, starts no strike, sounds no footfall, moves and aims
    /// nowhere, and feeds `dead` to both machines, which are dead
    /// thereafter. The body is given up for removal and the bot keeps none.
    /// Health, target, ammunition and timers stay as they are. After the
    /// tick the bot is dead whatever becomes of its health.
    pub proof fn lemma_dead_bot_does_nothing(
        &self,
        self_handle: Handle,
        context: UpdateContext,
        targets: Seq<Candidate>,
        pick: u32,
    )
        requires
            self.spec_is_dead(),
        ensures
            ({
                let a = self.spec_assess(self_handle, context, targets);
                let next = self.spec_update(self_handle, context, targets, pick);
                &&& !a.alive && !a.is_moving && !a.shoots && !a.retriggers && !a.in_close_combat
                &&& a.target == self.target
                &&& self.spec_messages(a, context).len() == 0
                &&& Self::spec_lower_body_input(a).dead
                &&& self.spec_upper_body_input(a, context, pick).dead
                &&& !self.spec_upper_body_input(a, context, pick).attack
                &&& next.lower_body_machine.state == LowerBodyState::Dead
                &&& next.upper_body_machine.state == UpperBodyState::Dead
                &&& next.body == Handle::spec_none()
                &&& next.health == self.health
                &&& next.target == self.target
                &&& next.inventory == self.inventory
                &&& next.restoration_time == self.restoration_time
                &&& next.attack_timeout == self.attack_timeout
                &&& next.attack_animation_index == self.attack_animation_index
                &&& forall|health: u32| (#[trigger] next.spec_found_with(health)).spec_is_dead()
            }),
    {
    }

    /// Death is irreversible. Once tick `j` of a run has found the bot dead,
    /// every later tick `k` finds it dead, whatever has become of its health
    /// in between: it selects no target, sends no message, starts no strike,
    /// does not move, and feeds `dead` to both machines. From the tick after
    /// the first dead one on, both machines are dead and there is no body
    /// left to hand out.
    pub proof fn lemma_death_is_irreversible(
        &self,
        ticks: Seq<(u32, Handle, UpdateContext, Seq<Candidate>, u32)>,
        j: int,
        k: int,
    )
        requires
            0 <= j <= k < ticks.len(),
            self.spec_found_at(ticks, j).spec_is_dead(),
        ensures
            ({
                let found = self.spec_found_at(ticks, k);
                let a = found.spec_assess(ticks[k].1, ticks[k].2, ticks[k].3);
                &&& found.spec_is_dead()
                &&& !a.alive && !a.is_moving && !a.shoots && !a.retriggers && !a.in_close_combat
                &&& a.target == found.target
                &&& found.spec_messages(a, ticks[k].2).len() == 0
                &&& Self::spec_lower_body_input(a).dead
                &&& found.spec_upper_body_input(a, ticks[k].2, ticks[k].4).dead
                &&& j < k ==> {
                    &&& found.body == Handle::spec_none()
                    &&& found.lower_body_machine.state == LowerBodyState::Dead
                    &&& found.upper_body_machine.state == UpperBodyState::Dead
                }
            }),
        decreases k - j,
    {
        if j < k {
            self.lemma_death_is_irreversible(ticks, j, k - 1);
            let before = self.spec_found_at(ticks, k - 1);
            let tick = ticks[k - 1];
            before.lemma_dead_bot_does_nothing(tick.1, tick.2, tick.3, tick.4);
            assert(ticks.take(k).last() == tick);
            assert(ticks.take(k).drop_last() == ticks.take(k - 1));
            assert(self.spec_run(ticks.take(k)) == before.spec_update(
                tick.1,
                tick.2,
                tick.3,
                tick.4,
            ));
        }
        let found = self.spec_found_at(ticks, k);
        found.lemma_dead_bot_does_nothing(ticks[k].1, ticks[k].2, ticks[k].3, ticks[k].4);
    }

    /// A run in which some tick has found the bot dead leaves it dead for
    /// good: both machines are dead, the body is gone, and whatever health
    /// the bot is given, it is dead.
    pub proof fn lemma_dead_after_run(
        &self,
        ticks: Seq<(u32, Handle, UpdateContext, Seq<Candidate>, u32)>,
        j: int,
    )
        requires
            0 <= j < ticks.len(),
            self.spec_found_at(ticks, j).spec_is_dead(),
        ensures
            self.spec_run(ticks).lower_body_machine.state == LowerBodyState::Dead,
            self.spec_run(ticks).upper_body_machine.state == UpperBodyState::Dead,
            self.spec_run(ticks).body == Handle::spec_none(),
            !self.spec_run(ticks).spec_can_shoot(),
            forall|health: u32|
                (#[trigger] self.spec_run(ticks).spec_found_with(health)).spec_is_dead(),
    {
        let k = ticks.len() - 1;
        self.lemma_death_is_irreversible(ticks, j, k);
        let found = self.spec_found_at(ticks, k);
        found.lemma_dead_bot_does_nothing(ticks[k].1, ticks[k].2, ticks[k].3, ticks[k].4);
        assert(ticks.drop_last() == ticks.take(k));
    }

    /// The controller never makes a bot scream: a bot whose combat machine
    /// is not screaming is not screaming after its tick either.
    pub proof fn lemma_bot_never_screams(
        &self,
        self_handle: Handle,
        context: UpdateContext,
        targets: Seq<Candidate>,
        pick: u32,
    )
        requires
            self.upper_body_machine.state != UpperBodyState::Scream,
        ensures
            self.spec_update(self_handle, context, targets, pick).upper_body_machine.state
                != UpperBodyState::Scream,
    {
        let a = self.spec_assess(self_handle, context, targets);
        upper_body::lemma_upper_body_scream_needs_input(
            self.upper_body_machine.state,
            self.spec_upper_body_input(a, context, pick),
            context.attack_animation_ended,
        );
    }

    /// A living bot never holds on to an entity that is gone: after its
    /// tick its target is one of the candidates of that tick, alive and not
    /// the bot itself, or it has none. If the entity it engaged is no longer
    /// among the candidates, the bot engages another or none.
    pub proof fn lemma_target_is_never_dangling(
        &self,
        self_handle: Handle,
        context: UpdateContext,
        targets: Seq<Candidate>,
        pick: u32,
    )
        requires
            !self.spec_is_dead(),
        ensures
            match self.spec_update(self_handle, context, targets, pick).target {
                Some(target) => target.handle != self_handle && exists|i: int|
                    0 <= i < targets.len() && (#[trigger] targets[i]).descriptor.handle
                        == target.handle && targets[i].descriptor.position == target.position
                        && targets[i].descriptor.health > 0,
                None => true,
            },
            (self.target matches Some(old_target) && forall|i: int|
                0 <= i < targets.len() ==> (#[trigger] targets[i]).descriptor.handle
                    != old_target.handle) ==> match self.spec_update(
                self_handle,
                context,
                targets,
                pick,
            ).target {
                Some(target) => target.handle != self.target.unwrap().handle,
                None => true,
            },
    {
        target::lemma_selected_target_is_a_candidate(
            self.target,
            targets,
            self_handle,
            self.body,
            context.position,
        );
    }

    /// How many of a tick's messages ask for a shot and how many for a blow.
    proof fn lemma_message_counts(&self, a: Assessment, context: UpdateContext)
        ensures
            count_shots(self.spec_messages(a, context)) == self.spec_shot(a).len(),
            count_damage(self.spec_messages(a, context)) == self.spec_blows(a, context).len(),
    {
        let shot = self.spec_shot(a);
        if shot.len() > 0 {
            assert(count_damage(shot.drop_last()) == 0);
            assert(count_shots(shot.drop_last()) == 0);
            assert(shot.last() is ShootWeapon);
        }
        match a.target {
            Some(target) if a.in_close_combat => {
                lemma_count_repeated(
                    shot,
                    signals::count_signal(context.attack_signals@, UpperBodyMachine::HIT_SIGNAL),
                    self.spec_damage_message(target),
                );
            },
            _ => {
                assert(self.spec_messages(a, context) == shot);
            },
        }
    }

    /// Melee damage is dealt exactly for the hit signals that arrive while
    /// the bot is in close combat: a tick asks for as many blows as the
    /// current attack animation surfaced hit signals if the target is then
    /// within reach, and for none if it is not. Each blow is against the
    /// target of this tick, with the damage of the attack variant in use.
    pub proof fn lemma_melee_damage_iff_hit_in_close_combat(
        &self,
        self_handle: Handle,
        context: UpdateContext,
        targets: Seq<Candidate>,
    )
        ensures
            ({
                let a = self.spec_assess(self_handle, context, targets);
                let messages = self.spec_messages(a, context);
                let hits = signals::count_signal(
                    context.attack_signals@,
                    UpperBodyMachine::HIT_SIGNAL,
                );
                &&& count_damage(messages) == if a.in_close_combat {
                    hits
                } else {
                    0
                }
                &&& count_damage(messages) > 0 <==> a.in_close_combat && hits > 0
                &&& a.in_close_combat ==> a.alive && a.target is Some
                &&& a.in_close_combat <==> !self.spec_is_dead() && self.spec_in_close_combat(
                    a.target,
                    context.position,
                )
                &&& forall|i: int|
                    0 <= i < messages.len() && (#[trigger] messages[i]) is DamageActor
                        ==> messages[i] == self.spec_damage_message(a.target.unwrap())
            }),
    {
        self.lemma_message_counts(self.spec_assess(self_handle, context, targets), context);
    }

    /// Ammunition is conserved. A shot that is attempted with too little
    /// ammunition changes nothing and sends no message to fire. A shot that
    /// is fired takes exactly what one shot costs and sends exactly one
    /// message to fire. Nothing else touches the ammunition.
    pub proof fn lemma_ammo_is_conserved(
        &self,
        self_handle: Handle,
        context: UpdateContext,
        targets: Seq<Candidate>,
        pick: u32,
    )
        ensures
            ({
                let a = self.spec_assess(self_handle, context, targets);
                let next = self.spec_update(self_handle, context, targets, pick);
                let messages = self.spec_messages(a, context);
                &&& a.shoots <==> a.attempts_shot && self.inventory.ammo >= context.ammo_per_shot
                &&& a.shoots ==> next.inventory.ammo == self.inventory.ammo - context.ammo_per_shot
                    && count_shots(messages) == 1
                &&& !a.shoots ==> next.inventory.ammo == self.inventory.ammo && count_shots(
                    messages,
                ) == 0
            }),
    {
        self.lemma_message_counts(self.spec_assess(self_handle, context, targets), context);
    }
}

} // verus!
