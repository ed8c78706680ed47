//! What the runner needs of a learning agent.
use vstd::prelude::*;

use crate::action::Action;
use crate::game::GameState;
use crate::single_layer::{network_params_valid, SingleLayerNetworkParameters};

verus! {

/// The largest reward that an agent is asked to learn from: the largest
/// `usize` on every target (`u32::MAX`). The tabular agent's fixed-point
/// values have room for it: a value may reach 20 times the reward in
/// thousandths, and the update multiplies values by 19, within `i64`.
pub const MAX_REWARD: usize = 4_294_967_295;

/// `e + 1`, staying at the largest value.
pub open spec fn next_count(e: usize) -> usize {
    if e < usize::MAX {
        (e + 1) as usize
    } else {
        e
    }
}

/// Notes an agent hands back after learning from a step.
#[derive(Debug)]
pub struct Metrics {
    pub annotations: Vec<String>,
}

impl Metrics {
    /// Metrics with nothing to report.
    pub fn new() -> (r: Metrics)
        ensures
            r.annotations@.len() == 0,
    {
        Metrics { annotations: Vec::new() }
    }
}

impl Default for Metrics {
    fn default() -> (r: Metrics)
        ensures
            r.annotations@.len() == 0,
    {
        Metrics::new()
    }
}

/// The kinds of agent, each with its parameters.
#[derive(Debug, Clone, Copy, PartialEq, Eq, Structural)]
pub enum ModelParameters {
    QTable,
    QNetwork(SingleLayerNetworkParameters),
}

/// Parameters an agent can be built from.
pub open spec fn model_params_valid(p: ModelParameters) -> bool {
    match p {
        ModelParameters::QTable => true,
        ModelParameters::QNetwork(q) => network_params_valid(q),
    }
}

impl ModelParameters {
    /// Checks that an agent can be built from these parameters, with a
    /// message that says why not.
    pub fn validate(&self) -> (r: Result<(), String>)
        ensures
            r is Ok <==> model_params_valid(*self),
    {
        match self {
            ModelParameters::QTable => Ok(()),
            ModelParameters::QNetwork(q) => q.validate(),
        }
    }
}

/// Something that model parameters can be had from.
pub trait IntoModelParameters: Sized {
    fn into_model_parameters(self) -> Result<ModelParameters, String>;
}

impl IntoModelParameters for ModelParameters {
    fn into_model_parameters(self) -> (r: Result<ModelParameters, String>)
        ensures
            r == Ok::<ModelParameters, String>(self),
    {
        Ok(self)
    }
}

/// A learning agent: it picks actions for game states and learns from the
/// outcome of each step.
pub trait Network: Sized {
    /// The agent's own invariant; none unless the agent states one.
    open spec fn wf(&self) -> bool {
        true
    }

    /// Whether choosing `a` in `state` (exploring or not), estimating its
    /// value as `value`, and becoming `after` is a step this agent may take;
    /// any, unless the agent says.
    open spec fn picks(&self, after: Self, explore: bool, state: GameState, a: Action, value: i64) -> bool {
        true
    }

    /// Whether becoming `after` and reporting `m` is what this agent does on
    /// learning from the transition; anything, unless the agent says.
    open spec fn learns(
        &self,
        after: Self,
        state: GameState,
        action: Action,
        next_state: GameState,
        reward: usize,
        done: bool,
        m: Metrics,
    ) -> bool {
        true
    }

    /// The action to take in `state`, with the agent's estimate of its value
    /// in thousandths. With `explore`, the agent may use the random source to
    /// depart from its greedy choice.
    fn next_action(
        &mut self,
        rng: &mut rand::rngs::StdRng,
        explore: bool,
        state: &GameState,
    ) -> (r: (Action, i64))
        requires
            old(self).wf(),
        ensures
            final(self).wf(),
            old(self).picks(*final(self), explore, *state, r.0, r.1),
    ;

    /// Learns from one transition: from `state`, `action` led to
    /// `next_state`, with `reward` earned so far in the episode, and `done`
    /// when the episode ended there.
    fn result(
        &mut self,
        rng: &mut rand::rngs::StdRng,
        state: GameState,
        action: Action,
        next_state: &GameState,
        reward: usize,
        done: bool,
    ) -> (r: Metrics)
        requires
            old(self).wf(),
            reward <= MAX_REWARD,
        ensures
            final(self).wf(),
            old(self).learns(*final(self), state, action, *next_state, reward, done, r),
    ;
}

} // verus!
