//! The locomotion state machine, which poses a bot from the hips down.

use super::signals::{count_signal, count_signals};
use vstd::prelude::*;

verus! {

/// The pose that the lower body is in.
#[derive(Clone, Copy, PartialEq, Eq, Structural, Hash, Debug)]
pub enum LowerBodyState {
    /// Standing.
    Idle,
    /// Walking, in a loop.
    Walk,
    /// Fallen, for good.
    Dead,
}

/// What the controller feeds the locomotion machine each tick.
#[derive(Clone, Copy, PartialEq, Eq, Structural, Debug)]
pub struct LowerBodyMachineInput {
    pub walk: bool,
    pub scream: bool,
    pub dead: bool,
}

/// The locomotion state machine.
#[derive(Clone, Copy, PartialEq, Eq, Structural, Debug)]
pub struct LowerBodyMachine {
    pub state: LowerBodyState,
    /// The playback rate of the walk cycle, in thousandths.
    pub walk_animation_speed: u32,
}

/// The pose after one tick: death is final and wins over everything, and
/// otherwise the bot walks exactly while it is told to. A scream does not
/// show in the legs.
pub open spec fn lower_body_step(
    state: LowerBodyState,
    input: LowerBodyMachineInput,
) -> LowerBodyState {
    if state == LowerBodyState::Dead || input.dead {
        LowerBodyState::Dead
    } else if input.walk {
        LowerBodyState::Walk
    } else {
        LowerBodyState::Idle
    }
}

/// The pose after a run of ticks.
pub open spec fn lower_body_run(
    state: LowerBodyState,
    inputs: Seq<LowerBodyMachineInput>,
) -> LowerBodyState
    decreases inputs.len(),
{
    if inputs.len() == 0 {
        state
    } else {
        lower_body_step(lower_body_run(state, inputs.drop_last()), inputs.last())
    }
}

impl LowerBodyMachine {
    /// The signal that the walk cycle surfaces each time a foot comes down.
    pub const STEP_SIGNAL: u64 = 1;

    /// A machine at rest, with the walk cycle at its authored rate.
    pub fn new() -> (machine: LowerBodyMachine)
        ensures
            machine.state == LowerBodyState::Idle,
            machine.walk_animation_speed == 1000,
    {
        LowerBodyMachine { state: LowerBodyState::Idle, walk_animation_speed: 1000 }
    }

    pub fn state(&self) -> (state: LowerBodyState)
        ensures
            state == self.state,
    {
        self.state
    }

    pub fn is_walking(&self) -> (r: bool)
        ensures
            r <==> self.state == LowerBodyState::Walk,
    {
        self.state == LowerBodyState::Walk
    }

    pub fn is_dead(&self) -> (r: bool)
        ensures
            r <==> self.state == LowerBodyState::Dead,
    {
        self.state == LowerBodyState::Dead
    }

    /// Scales the walk cycle, so that the feet keep pace with the body.
    pub fn set_walk_animation_speed(&mut self, factor: u32)
        ensures
            final(self).walk_animation_speed == factor,
            final(self).state == old(self).state,
    {
        self.walk_animation_speed = factor;
    }

    /// Advances the machine by one tick.
    pub fn apply(&mut self, input: LowerBodyMachineInput)
        ensures
            final(self).state == lower_body_step(old(self).state, input),
            final(self).walk_animation_speed == old(self).walk_animation_speed,
    {
        if self.state == LowerBodyState::Dead || input.dead {
            self.state = LowerBodyState::Dead;
        } else if input.walk {
            self.state = LowerBodyState::Walk;
        } else {
            self.state = LowerBodyState::Idle;
        }
    }

    /// The footfalls to sound for the signals that the walk cycle surfaced:
    /// one for each step signal, while the machine is walking.
    pub open spec fn spec_footsteps(&self, signals: Seq<u64>) -> nat {
        if self.state == LowerBodyState::Walk {
            count_signal(signals, Self::STEP_SIGNAL)
        } else {
            0
        }
    }

    pub fn footsteps(&self, signals: &Vec<u64>) -> (n: usize)
        ensures
            n == self.spec_footsteps(signals@),
    {
        if self.is_walking() {
            count_signals(signals, Self::STEP_SIGNAL)
        } else {
            0
        }
    }
}

/// Death is final: a machine that is dead stays dead whatever it is fed.
pub proof fn lemma_lower_body_dead_stays_dead(inputs: Seq<LowerBodyMachineInput>)
    ensures
        lower_body_run(LowerBodyState::Dead, inputs) == LowerBodyState::Dead,
    decreases inputs.len(),
{
    if inputs.len() > 0 {
        lemma_lower_body_dead_stays_dead(inputs.drop_last());
    }
}

/// Death is irreversible: once one tick has fed `dead`, the machine is dead
/// after that tick and after every later one.
pub proof fn lemma_lower_body_death_is_irreversible(
    state: LowerBodyState,
    inputs: Seq<LowerBodyMachineInput>,
    k: int,
)
    requires
        0 <= k < inputs.len(),
        inputs[k].dead,
    ensures
        lower_body_run(state, inputs) == LowerBodyState::Dead,
    decreases inputs.len(),
{
    if k < inputs.len() - 1 {
        lemma_lower_body_death_is_irreversible(state, inputs.drop_last(), k);
    }
}

} // verus!
