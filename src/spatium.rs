//! The episodic runner: it advances training one step per call, resetting
//! the game at each episode boundary.
use vstd::prelude::*;

use crate::action::{action_name, Action};
use crate::game::{
    game_stepped, is_state_of, params_valid, renders, Game1, GameParameters, GameState,
    RenderingInfo,
};
use crate::network::{next_count, Metrics, Network};

verus! {

/// How an episode ended.
#[derive(Debug, Clone, Copy, PartialEq, Eq, Structural)]
pub struct EpisodeResult {
    pub steps: usize,
    pub score: usize,
}

/// What one call of `Spatium::step` reports.
#[derive(Debug)]
pub struct StepResult {
    /// Calls of `step` before this one.
    pub global_step: usize,
    pub episode: usize,
    pub step: usize,
    /// The action taken, or "None" on the call that started an episode.
    pub action: String,
    /// Whether the run has reached its budget of episodes.
    pub done: bool,
    pub episode_result: Option<EpisodeResult>,
    pub rendering_info: Option<RenderingInfo>,
    pub metrics: Option<Metrics>,
}

/// The position within an episode that is under way.
#[derive(Debug)]
pub struct RunningArgs {
    pub episode: usize,
    pub step: usize,
    pub game_state: GameState,
}

/// Where the runner stands: about to start an episode, or within one.
#[derive(Debug)]
pub enum EpisodeState {
    Init { episode: usize },
    Running(RunningArgs),
}

/// A game and an agent, trained one step per call.
#[derive(Debug)]
pub struct Spatium<N> {
    pub max_episodes: usize,
    pub game: Game1,
    pub network: N,
    pub episode_state: Option<EpisodeState>,
    pub global_step: usize,
}

/// An episode that ends on its budget of steps, not on the goal, reports
/// exactly that budget as its length: the step reported is one past the
/// game's count before the step, and the game ends on reaching the budget.
pub proof fn lemma_timeout_episode_length(g0: Game1, g1: Game1, a: Action, step: usize)
    requires
        g0.wf(),
        !g0.done,
        step == g0.step + 1,
        game_stepped(g0, g1, a),
        g1.done,
        !g0.food@.contains(g1.agent),
        g0.params.max_steps >= 1,
    ensures
        step == g0.params.max_steps,
        g1.step == g0.params.max_steps,
{
}

/// One step within an episode, as reported by `r`: agent `n0`, in snapshot
/// `s0` of game `g0`, picked action `a` (valued `v`) while exploring and
/// became `n1`; the game took `a` to `g1`; the agent learnt from that
/// transition, becoming `n2` and reporting the metrics in `r`, which names
/// `a`.
pub open spec fn agent_stepped<N: Network>(
    n0: N,
    n2: N,
    s0: GameState,
    g0: Game1,
    g1: Game1,
    r: StepResult,
) -> bool {
    exists|a: Action, v: i64, n1: N, s1: GameState, m: Metrics|
        {
            &&& n0.picks(n1, true, s0, a, v)
            &&& game_stepped(g0, g1, a)
            &&& is_state_of(s1, g1)
            &&& n1.learns(n2, s0, a, s1, g1.reward, g1.done, m)
            &&& r.metrics == Some(m)
            &&& r.action@ == action_name(a)
        }
}

impl<N: Network> Spatium<N> {
    /// The invariant: game and agent well formed; within an episode the game
    /// is not over, its snapshot is the one held, and the step to come is one
    /// past the game's count.
    pub open spec fn wf(&self) -> bool {
        &&& self.game.wf()
        &&& self.network.wf()
        &&& match self.episode_state {
            Some(EpisodeState::Running(args)) => {
                &&& !self.game.done
                &&& is_state_of(args.game_state, self.game)
                &&& args.step == self.game.step + 1
            },
            _ => true,
        }
    }

    /// The episode that the next call works on.
    pub open spec fn current_episode(&self) -> usize {
        match self.episode_state {
            None => 0,
            Some(EpisodeState::Init { episode }) => episode,
            Some(EpisodeState::Running(args)) => args.episode,
        }
    }

    /// A runner for the game that `game_parameters` describe, not yet in an
    /// episode. Fails, with a message, on parameters that no game can be
    /// built from.
    pub fn new(
        game_parameters: GameParameters,
        network: N,
        rng: &mut rand::rngs::StdRng,
        max_episodes: usize,
    ) -> (r: Result<Spatium<N>, String>)
        requires
            network.wf(),
        ensures
            r is Ok <==> match game_parameters {
                GameParameters::Game1(p) => params_valid(p),
            },
            r matches Ok(s) ==> {
                &&& s.wf()
                &&& s.episode_state is None
                &&& s.max_episodes == max_episodes
                &&& s.global_step == 0
                &&& s.network == network
                &&& match game_parameters {
                    GameParameters::Game1(p) => s.game.params == p,
                }
            },
    {
        match game_parameters {
            GameParameters::Game1(p) => {
                match p.validate() {
                    Err(e) => {
                        return Err(e);
                    },
                    Ok(()) => {},
                }
            },
        }
        let game = game_parameters.into_game(rng);
        Ok(Spatium { max_episodes, game, network, episode_state: None, global_step: 0 })
    }

    fn process_initial_state(&mut self, rng: &mut rand::rngs::StdRng, episode: usize) -> (r: StepResult)
        requires
            old(self).wf(),
        ensures
            final(self).wf(),
            final(self).max_episodes == old(self).max_episodes,
            final(self).network == old(self).network,
            final(self).global_step == old(self).global_step,
            final(self).game.fresh(),
            final(self).game.params == old(self).game.params,
            final(self).game.level == old(self).game.level,
            final(self).episode_state matches Some(EpisodeState::Running(args)) && args.episode == episode
                && args.step == 1,
            r.global_step == old(self).global_step,
            r.episode == episode,
            r.step == 0,
            r.action@ == "None"@,
            r.done == (episode >= old(self).max_episodes),
            r.episode_result is None,
            r.metrics is None,
            r.rendering_info matches Some(ri) && renders(ri, final(self).game),
    {
        let game_state = self.game.reset(rng);
        let rendering_info = self.game.rendering_info();
        self.episode_state = Some(EpisodeState::Running(RunningArgs { episode, step: 1, game_state }));
        StepResult {
            global_step: self.global_step,
            episode,
            step: 0,
            action: "None".to_owned(),
            done: episode >= self.max_episodes,
            episode_result: None,
            rendering_info: Some(rendering_info),
            metrics: None,
        }
    }

    fn process_running_state(&mut self, rng: &mut rand::rngs::StdRng, args: RunningArgs) -> (r: StepResult)
        requires
            old(self).game.wf(),
            old(self).network.wf(),
            !old(self).game.done,
            is_state_of(args.game_state, old(self).game),
            args.step == old(self).game.step + 1,
        ensures
            final(self).wf(),
            final(self).max_episodes == old(self).max_episodes,
            final(self).global_step == old(self).global_step,
            agent_stepped(old(self).network, final(self).network, args.game_state, old(self).game, final(self).game, r),
            r.global_step == old(self).global_step,
            r.episode == args.episode,
            r.step == args.step,
            r.done == (args.episode >= old(self).max_episodes),
            r.metrics is Some,
            r.rendering_info matches Some(ri) && renders(ri, final(self).game),
            final(self).game.done ==> {
                &&& final(self).episode_state matches Some(EpisodeState::Init { episode })
                    && episode == next_count(args.episode)
                &&& r.episode_result == Some(
                    EpisodeResult { steps: args.step, score: final(self).game.reward },
                )
            },
            !final(self).game.done ==> {
                &&& final(self).episode_state matches Some(EpisodeState::Running(next))
                    && next.episode == args.episode && next.step == args.step + 1
                &&& r.episode_result is None
            },
    {
        let RunningArgs { episode, step, game_state } = args;
        let ghost s0 = game_state;
        let (action, _value) = self.network.next_action(rng, true, &game_state);
        let ghost n1 = self.network;
        let (game_state1, score1, done) = self.game.step(action);
        let metrics = self.network.result(rng, game_state, action, &game_state1, score1, done);
        let ghost m = metrics;
        let ghost s1 = game_state1;
        let name = action.name();
        let result = StepResult {
            global_step: self.global_step,
            episode,
            step,
            action: name,
            done: episode >= self.max_episodes,
            episode_result: None,
            rendering_info: Some(self.game.rendering_info()),
            metrics: Some(metrics),
        };
        proof {
            assert(n1.learns(self.network, s0, action, s1, self.game.reward, self.game.done, m));
        }
        if done {
            let next = if episode < usize::MAX {
                episode + 1
            } else {
                episode
            };
            self.episode_state = Some(EpisodeState::Init { episode: next });
            StepResult { episode_result: Some(EpisodeResult { steps: step, score: score1 }), ..result }
        } else {
            self.episode_state = Some(
                EpisodeState::Running(RunningArgs { episode, step: step + 1, game_state: game_state1 }),
            );
            result
        }
    }

    /// Advances by one step. Outside an episode it resets the game and
    /// starts episode `current_episode()` at step 0. Within one it asks the
    /// agent for an action (exploring), applies it, lets the agent learn from
    /// the transition, and reports the step; when the game ends the episode
    /// its result is attached and the next call starts the following episode.
    pub fn step(&mut self, rng: &mut rand::rngs::StdRng) -> (r: StepResult)
        requires
            old(self).wf(),
        ensures
            final(self).wf(),
            final(self).max_episodes == old(self).max_episodes,
            final(self).global_step == next_count(old(self).global_step),
            r.global_step == old(self).global_step,
            r.episode == old(self).current_episode(),
            match old(self).episode_state {
                Some(EpisodeState::Running(args)) => {
                    &&& r.step == args.step
                    &&& r.done == (args.episode >= old(self).max_episodes)
                    &&& r.metrics is Some
                    &&& agent_stepped(
                        old(self).network,
                        final(self).network,
                        args.game_state,
                        old(self).game,
                        final(self).game,
                        r,
                    )
                    &&& r.rendering_info matches Some(ri) && renders(ri, final(self).game)
                    &&& final(self).game.done ==> {
                        &&& final(self).current_episode() == next_count(args.episode)
                        &&& final(self).episode_state matches Some(EpisodeState::Init { .. })
                        &&& r.episode_result == Some(
                            EpisodeResult { steps: args.step, score: final(self).game.reward },
                        )
                    }
                    &&& !final(self).game.done ==> {
                        &&& final(self).episode_state matches Some(EpisodeState::Running(next))
                            && next.episode == args.episode && next.step == args.step + 1
                        &&& r.episode_result is None
                    }
                },
                _ => {
                    &&& r.step == 0
                    &&& r.action@ == "None"@
                    &&& r.done == (old(self).current_episode() >= old(self).max_episodes)
                    &&& r.episode_result is None
                    &&& r.metrics is None
                    &&& final(self).game.fresh()
                    &&& final(self).game.params == old(self).game.params
                    &&& final(self).network == old(self).network
                    &&& final(self).episode_state matches Some(EpisodeState::Running(args))
                        && args.episode == old(self).current_episode() && args.step == 1
                    &&& r.rendering_info matches Some(ri) && renders(ri, final(self).game)
                },
            },
    {
        let episode_state = self.episode_state.take();
        let result = match episode_state {
            None => self.process_initial_state(rng, 0),
            Some(EpisodeState::Init { episode }) => self.process_initial_state(rng, episode),
            Some(EpisodeState::Running(args)) => self.process_running_state(rng, args),
        };
        if self.global_step < usize::MAX {
            self.global_step = self.global_step + 1;
        }
        result
    }
}

} // verus!
