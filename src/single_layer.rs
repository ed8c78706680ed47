//! The parameters of the neural agent and the schedules of its rates.
//!
//! Rates are held in millionths: `RATE_ONE` stands for 1.
use vstd::prelude::*;

use crate::action::{index_action, Action};
use crate::game::GameState;
use crate::replay::{recorded, ReplayMemory, ReplayPlan, DEFAULT_SYNC_INTERVAL};
use crate::rng::below;

verus! {

/// The stored form of the rate 1.
pub const RATE_ONE: u32 = 1_000_000;

/// A rate that moves in a straight line from `initial_rate` at episode 0 to
/// `final_rate` at episode `final_episode`, and stays there after.
#[derive(Debug, Clone, Copy, PartialEq, Eq, Structural)]
pub struct DynamicValue {
    pub initial_rate: u32,
    pub final_rate: u32,
    pub final_episode: usize,
}

/// The rate of schedule `d` at episode `episode`, rounded towards the
/// initial rate.
pub open spec fn scheduled_rate(d: DynamicValue, episode: nat) -> int {
    if d.final_episode == 0 || episode >= d.final_episode {
        d.final_rate as int
    } else if d.initial_rate >= d.final_rate {
        d.initial_rate - (episode * (d.initial_rate - d.final_rate) as nat) / (d.final_episode as nat)
    } else {
        d.initial_rate + (episode * (d.final_rate - d.initial_rate) as nat) / (d.final_episode as nat)
    }
}

impl DynamicValue {
    /// The rate at episode `episode`.
    pub fn rate_at(&self, episode: usize) -> (r: u32)
        ensures
            r == scheduled_rate(*self, episode as nat),
            self.initial_rate <= self.final_rate ==> self.initial_rate <= r <= self.final_rate,
            self.final_rate <= self.initial_rate ==> self.final_rate <= r <= self.initial_rate,
    {
        if self.final_episode == 0 || episode >= self.final_episode {
            return self.final_rate;
        }
        let e = episode as u128;
        let n = self.final_episode as u128;
        if self.initial_rate >= self.final_rate {
            let drop = share(e, (self.initial_rate - self.final_rate) as u128, n);
            (self.initial_rate as u128 - drop) as u32
        } else {
            let rise = share(e, (self.final_rate - self.initial_rate) as u128, n);
            (self.initial_rate as u128 + rise) as u32
        }
    }
}

/// `e / n` of `span`, rounded down.
fn share(e: u128, span: u128, n: u128) -> (r: u128)
    requires
        e < n,
        n <= 0xffff_ffff_ffff_ffff,
        span <= 0xffff_ffff,
    ensures
        r == (e * span) / (n as int),
        r <= span,
{
    assert(e * span <= n * span) by (nonlinear_arith)
        requires
            e < n,
    ;
    assert(n * span <= 0xffff_ffff_ffff_ffff * 0xffff_ffff) by (nonlinear_arith)
        requires
            n <= 0xffff_ffff_ffff_ffff,
            span <= 0xffff_ffff,
    ;
    let prod = e * span;
    let r = prod / n;
    assert(r <= span) by (nonlinear_arith)
        requires
            r == prod / n,
            prod <= n * span,
            e < n,
    ;
    r
}

/// How the neural agent is set up.
#[derive(Debug, Clone, Copy, PartialEq, Eq, Structural)]
pub struct SingleLayerNetworkParameters {
    pub minibatch_size: usize,
    pub expierence_buffer_size: usize,
    /// In millionths.
    pub discount_factor: u32,
    pub learning: DynamicValue,
    pub exploration: DynamicValue,
    /// Steps between two refreshes of the target parameters.
    pub target_sync_interval: usize,
}

impl Default for SingleLayerNetworkParameters {
    fn default() -> (r: Self)
        ensures
            r.minibatch_size == 10,
            r.expierence_buffer_size == 1000,
            r.discount_factor == 900_000,
            r.learning == (DynamicValue { initial_rate: 1000, final_rate: 1000, final_episode: 1000 }),
            r.exploration == (DynamicValue {
                initial_rate: 1_000_000,
                final_rate: 100_000,
                final_episode: 1000,
            }),
            r.target_sync_interval == DEFAULT_SYNC_INTERVAL,
    {
        SingleLayerNetworkParameters {
            minibatch_size: 10,
            expierence_buffer_size: 1000,
            discount_factor: 900_000,
            learning: DynamicValue { initial_rate: 1000, final_rate: 1000, final_episode: 1000 },
            exploration: DynamicValue { initial_rate: 1_000_000, final_rate: 100_000, final_episode: 1000 },
            target_sync_interval: DEFAULT_SYNC_INTERVAL,
        }
    }
}

/// Parameters the neural agent can be built from: room for at least one
/// experience, exploration rates that are probabilities, and a positive
/// interval between refreshes of the target parameters.
pub open spec fn network_params_valid(p: SingleLayerNetworkParameters) -> bool {
    &&& p.expierence_buffer_size >= 1
    &&& p.target_sync_interval >= 1
    &&& p.exploration.initial_rate <= RATE_ONE
    &&& p.exploration.final_rate <= RATE_ONE
}

impl SingleLayerNetworkParameters {
    /// Checks that the neural agent can be built from these parameters, with
    /// a message that says why not.
    pub fn validate(&self) -> (r: Result<(), String>)
        ensures
            r is Ok <==> network_params_valid(*self),
    {
        if self.expierence_buffer_size < 1 {
            Err("the experience buffer must hold at least one experience".to_owned())
        } else if self.target_sync_interval < 1 {
            Err("the target parameters must be refreshed every step or less often".to_owned())
        } else if self.exploration.initial_rate > RATE_ONE || self.exploration.final_rate > RATE_ONE {
            Err("an exploration rate must not exceed 1".to_owned())
        } else {
            Ok(())
        }
    }
}

/// What exploring decides for a draw `draw` below `RATE_ONE` and an action
/// index `pick`: the action of index `pick` when the draw falls under
/// `chance`, else none.
pub open spec fn exploration_outcome(chance: u32, draw: usize, pick: usize) -> Option<Action> {
    if draw < chance {
        index_action(pick as nat)
    } else {
        None
    }
}

/// One step as the agent saw it.
#[derive(Debug)]
pub struct Experience {
    pub state: GameState,
    pub action: Action,
    pub reward: usize,
    pub next_state: GameState,
    pub done: bool,
}

/// What the neural agent decides without its network: when to explore,
/// what to remember, when to train and refresh its target parameters, and
/// its current exploration and learning rates.
#[derive(Debug)]
pub struct SingleLayerCore {
    pub parameters: SingleLayerNetworkParameters,
    pub memory: ReplayMemory<Experience>,
    /// In millionths.
    pub explore_chance: u32,
    /// In millionths.
    pub learning_rate: u32,
}

impl SingleLayerCore {
    /// The invariant: the memory is set up from the parameters, and both
    /// rates are those of the schedules at the number of episodes ended.
    pub open spec fn wf(&self) -> bool {
        &&& network_params_valid(self.parameters)
        &&& self.memory.wf()
        &&& self.memory.capacity == self.parameters.expierence_buffer_size
        &&& self.memory.minibatch_size == self.parameters.minibatch_size
        &&& self.memory.sync_interval == self.parameters.target_sync_interval
        &&& self.explore_chance == scheduled_rate(self.parameters.exploration, self.memory.episode as nat)
        &&& self.learning_rate == scheduled_rate(self.parameters.learning, self.memory.episode as nat)
        &&& self.explore_chance <= RATE_ONE
    }

    /// A core with an empty memory, at episode 0 of both schedules.
    pub fn new(parameters: SingleLayerNetworkParameters) -> (r: SingleLayerCore)
        requires
            network_params_valid(parameters),
        ensures
            r.wf(),
            r.parameters == parameters,
            r.memory.buffer@.len() == 0,
            r.memory.episode == 0,
            r.memory.step == 0,
            r.memory.sync_interval == parameters.target_sync_interval,
            r.memory.online_version == r.memory.target_version,
    {
        let memory = ReplayMemory::new(
            parameters.expierence_buffer_size,
            parameters.minibatch_size,
            parameters.target_sync_interval,
        );
        let explore_chance = parameters.exploration.rate_at(0);
        let learning_rate = parameters.learning.rate_at(0);
        SingleLayerCore { parameters, memory, explore_chance, learning_rate }
    }

    /// The exploration decision for a draw `draw` below `RATE_ONE` and an
    /// action index `pick`: explore, with the action of index `pick`, when the
    /// draw falls under `explore_chance`; otherwise leave the choice to the
    /// network.
    pub fn explore_decision(&self, draw: usize, pick: usize) -> (r: Option<Action>)
        requires
            pick < 4,
        ensures
            r == exploration_outcome(self.explore_chance, draw, pick),
    {
        if draw < self.explore_chance as usize {
            Some(Action::of_index(pick))
        } else {
            None
        }
    }

    /// Whether to explore, and how: a draw below `RATE_ONE` and, where it
    /// falls under `explore_chance`, an action index drawn uniformly, handed
    /// to `explore_decision`. So with probability `explore_chance` an action
    /// drawn uniformly; otherwise `None`, and the network chooses.
    pub fn explore(&self, rng: &mut rand::rngs::StdRng) -> (r: Option<Action>)
        requires
            self.wf(),
        ensures
            exists|draw: usize, pick: usize|
                draw < RATE_ONE && pick < 4 && r == #[trigger] exploration_outcome(
                    self.explore_chance,
                    draw,
                    pick,
                ),
    {
        let draw = below(rng, RATE_ONE as usize);
        let pick = if draw < self.explore_chance as usize {
            below(rng, 4)
        } else {
            0
        };
        self.explore_decision(draw, pick)
    }

    /// Records one experience (see `ReplayMemory::record`); when it ends an
    /// episode both rates move to the schedules' next episode.
    pub fn record(&mut self, rng: &mut rand::rngs::StdRng, e: Experience) -> (r: ReplayPlan)
        requires
            old(self).wf(),
        ensures
            final(self).wf(),
            final(self).parameters == old(self).parameters,
            recorded(old(self).memory, final(self).memory, e, e.done, r),
            !e.done ==> final(self).explore_chance == old(self).explore_chance
                && final(self).learning_rate == old(self).learning_rate,
    {
        let done = e.done;
        let plan = self.memory.record(rng, e, done);
        if done {
            self.explore_chance = self.parameters.exploration.rate_at(self.memory.episode);
            self.learning_rate = self.parameters.learning.rate_at(self.memory.episode);
        }
        plan
    }
}

} // verus!
