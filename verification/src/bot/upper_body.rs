//! The combat state machine, which poses a bot from the hips up.

use vstd::prelude::*;

verus! {

/// The pose that the upper body is in.
#[derive(Clone, Copy, PartialEq, Eq, Structural, Hash, Debug)]
pub enum UpperBodyState {
    /// At rest.
    Idle,
    /// Holding a weapon on the target.
    Aim,
    /// Striking, with the attack variant of the given index.
    Attack(u32),
    /// Screaming, once.
    Scream,
    /// Fallen, for good.
    Dead,
}

/// What the controller feeds the combat machine each tick.
#[derive(Clone, Copy, PartialEq, Eq, Structural, Debug)]
pub struct UpperBodyMachineInput {
    pub attack: bool,
    pub walk: bool,
    pub scream: bool,
    pub dead: bool,
    pub aim: bool,
    /// The attack variant to strike with, should a strike begin.
    pub attack_animation_index: u32,
}

/// The combat state machine of a kind with `attack_variants` melee attacks.
#[derive(Clone, Copy, PartialEq, Eq, Structural, Debug)]
pub struct UpperBodyMachine {
    pub state: UpperBodyState,
    pub attack_variants: u32,
}

/// The pose to fall back to when nothing else is going on.
pub open spec fn upper_body_rest(input: UpperBodyMachineInput) -> UpperBodyState {
    if input.aim {
        UpperBodyState::Aim
    } else {
        UpperBodyState::Idle
    }
}

/// The pose after one tick. `animation_ended` says whether the one-shot
/// animation of the current pose has played to its end.
///
/// Death is final and wins over everything. A strike or a scream plays to
/// its end and then gives way to aiming or resting. From rest or aim, a
/// strike begins when told to, with the variant that the input selects; a
/// scream begins when told to and no strike is; otherwise the machine aims
/// exactly while it is told to. Walking does not show in the upper body.
pub open spec fn upper_body_step(
    state: UpperBodyState,
    input: UpperBodyMachineInput,
    animation_ended: bool,
) -> UpperBodyState {
    if state == UpperBodyState::Dead || input.dead {
        UpperBodyState::Dead
    } else {
        match state {
            UpperBodyState::Attack(_) | UpperBodyState::Scream => if animation_ended {
                upper_body_rest(input)
            } else {
                state
            },
            _ => if input.attack {
                UpperBodyState::Attack(input.attack_animation_index)
            } else if input.scream {
                UpperBodyState::Scream
            } else {
                upper_body_rest(input)
            },
        }
    }
}

/// The pose after a run of ticks, each with its input and its observation
/// of the current animation.
pub open spec fn upper_body_run(
    state: UpperBodyState,
    inputs: Seq<(UpperBodyMachineInput, bool)>,
) -> UpperBodyState
    decreases inputs.len(),
{
    if inputs.len() == 0 {
        state
    } else {
        upper_body_step(upper_body_run(state, inputs.drop_last()), inputs.last().0, inputs.last().1)
    }
}

impl UpperBodyMachine {
    /// The signal that an attack animation surfaces when the blow lands.
    pub const HIT_SIGNAL: u64 = 1;

    /// A machine only ever strikes with a variant that its kind has.
    pub open spec fn wf(&self) -> bool {
        self.state matches UpperBodyState::Attack(i) ==> i < self.attack_variants
    }

    /// A machine at rest.
    pub fn new(attack_variants: u32) -> (machine: UpperBodyMachine)
        ensures
            machine.state == UpperBodyState::Idle,
            machine.attack_variants == attack_variants,
            machine.wf(),
    {
        UpperBodyMachine { state: UpperBodyState::Idle, attack_variants }
    }

    pub fn state(&self) -> (state: UpperBodyState)
        ensures
            state == self.state,
    {
        self.state
    }

    pub fn is_aiming(&self) -> (r: bool)
        ensures
            r <==> self.state == UpperBodyState::Aim,
    {
        self.state == UpperBodyState::Aim
    }

    pub fn is_dead(&self) -> (r: bool)
        ensures
            r <==> self.state == UpperBodyState::Dead,
    {
        self.state == UpperBodyState::Dead
    }

    /// Advances the machine by one tick.
    pub fn apply(&mut self, input: UpperBodyMachineInput, animation_ended: bool)
        requires
            old(self).wf(),
            input.attack_animation_index < old(self).attack_variants,
        ensures
            final(self).state == upper_body_step(old(self).state, input, animation_ended),
            final(self).attack_variants == old(self).attack_variants,
            final(self).wf(),
    {
        let rest = if input.aim {
            UpperBodyState::Aim
        } else {
            UpperBodyState::Idle
        };
        if self.state == UpperBodyState::Dead || input.dead {
            self.state = UpperBodyState::Dead;
        } else {
            match self.state {
                UpperBodyState::Attack(_) | UpperBodyState::Scream => {
                    if animation_ended {
                        self.state = rest;
                    }
                },
                _ => {
                    if input.attack {
                        self.state = UpperBodyState::Attack(input.attack_animation_index);
                    } else if input.scream {
                        self.state = UpperBodyState::Scream;
                    } else {
                        self.state = rest;
                    }
                },
            }
        }
    }
}

/// Death is final: a machine that is dead stays dead whatever it is fed.
pub proof fn lemma_upper_body_dead_stays_dead(inputs: Seq<(UpperBodyMachineInput, bool)>)
    ensures
        upper_body_run(UpperBodyState::Dead, inputs) == UpperBodyState::Dead,
    decreases inputs.len(),
{
    if inputs.len() > 0 {
        lemma_upper_body_dead_stays_dead(inputs.drop_last());
    }
}

/// Death is irreversible: once one tick has fed `dead`, the machine is dead
/// after that tick and after every later one.
pub proof fn lemma_upper_body_death_is_irreversible(
    state: UpperBodyState,
    inputs: Seq<(UpperBodyMachineInput, bool)>,
    k: int,
)
    requires
        0 <= k < inputs.len(),
        inputs[k].0.dead,
    ensures
        upper_body_run(state, inputs) == UpperBodyState::Dead,
    decreases inputs.len(),
{
    if k < inputs.len() - 1 {
        lemma_upper_body_death_is_irreversible(state, inputs.drop_last(), k);
    }
}

/// A machine that never screams is never found screaming.
pub proof fn lemma_upper_body_scream_needs_input(
    state: UpperBodyState,
    input: UpperBodyMachineInput,
    animation_ended: bool,
)
    requires
        state != UpperBodyState::Scream,
        !input.scream,
    ensures
        upper_body_step(state, input, animation_ended) != UpperBodyState::Scream,
{
}

} // verus!
