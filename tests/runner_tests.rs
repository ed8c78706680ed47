use rand::rngs::StdRng;
use rand::SeedableRng;
use spatium::action::Action;
use spatium::game::{Game1, Game1Parameters, GameParameters, GameState, DEFAULT_GOAL_BONUS};
use spatium::network::{Metrics, Network};
use spatium::qtable::QTable;
use spatium::single_layer::{DynamicValue, Experience, SingleLayerCore, SingleLayerNetworkParameters};
use spatium::spatium::{EpisodeResult, Spatium};

fn run_until_done(max_episodes: usize) -> usize {
    let mut rng = StdRng::seed_from_u64(17);
    let game = GameParameters::Game1(Default::default());
    let mut spat = Spatium::new(game, QTable::new(), &mut rng, max_episodes).unwrap();
    let mut episodes = 0;
    loop {
        let result = spat.step(&mut rng);
        if result.episode_result.is_some() {
            episodes += 1;
        }
        if result.done {
            break;
        }
    }
    episodes
}

#[test]
fn lib_it_works() {
    assert_eq!(run_until_done(2), 2);
}

#[test]
fn spatium_it_works() {
    assert_eq!(run_until_done(10000), 10000);
}

#[test]
fn runner_episode_round_trip() {
    let mut rng = StdRng::seed_from_u64(23);
    let params = Game1Parameters { max_steps: 3, size: 3, random: false, goal_bonus: 10 };
    let mut spat = Spatium::new(GameParameters::Game1(params), QTable::new(), &mut rng, 5).unwrap();
    let first = spat.step(&mut rng);
    assert_eq!((first.episode, first.step), (0, 0));
    assert!(first.episode_result.is_none());
    assert!(first.metrics.is_none());
    assert_eq!(first.action, "None");
    assert!(first.rendering_info.is_some());
    for k in 1..3 {
        let r = spat.step(&mut rng);
        assert_eq!((r.episode, r.step), (0, k));
        assert!(r.episode_result.is_none());
        assert!(r.metrics.is_some());
    }
    let last = spat.step(&mut rng);
    assert_eq!(last.step, 3);
    assert_eq!(last.episode_result, Some(EpisodeResult { steps: 3, score: 0 }));
    let next = spat.step(&mut rng);
    assert_eq!((next.episode, next.step), (1, 0));
    assert!(next.episode_result.is_none());
    assert_eq!(next.global_step, 4);
}

#[test]
fn runner_done_flag_counts_episodes() {
    let mut rng = StdRng::seed_from_u64(29);
    let params = Game1Parameters { max_steps: 1, size: 3, random: false, goal_bonus: 10 };
    let mut spat = Spatium::new(GameParameters::Game1(params), QTable::new(), &mut rng, 1).unwrap();
    assert!(!spat.step(&mut rng).done);
    let r = spat.step(&mut rng);
    assert_eq!(r.episode, 0);
    assert!(!r.done);
    assert_eq!(r.episode_result, Some(EpisodeResult { steps: 1, score: 0 }));
    let start = spat.step(&mut rng);
    assert_eq!((start.episode, start.step), (1, 0));
    assert!(start.done);
    let r = spat.step(&mut rng);
    assert_eq!(r.episode, 1);
    assert!(r.done);
}

#[test]
fn runner_rejects_bad_parameters() {
    let mut rng = StdRng::seed_from_u64(31);
    let params = Game1Parameters { max_steps: 10, size: 1, random: true, goal_bonus: 10 };
    assert!(Spatium::new(GameParameters::Game1(params), QTable::new(), &mut rng, 5).is_err());
}

struct Scripted {
    moves: Vec<Action>,
    next: usize,
    seen: Vec<(Action, usize, bool)>,
}

impl Network for Scripted {
    fn next_action(&mut self, _rng: &mut StdRng, _explore: bool, _state: &GameState) -> (Action, i64) {
        let a = self.moves[self.next % self.moves.len()];
        self.next += 1;
        (a, 0)
    }

    fn result(
        &mut self,
        _rng: &mut StdRng,
        _state: GameState,
        action: Action,
        _next_state: &GameState,
        reward: usize,
        done: bool,
    ) -> Metrics {
        self.seen.push((action, reward, done));
        Metrics::new()
    }
}

#[test]
fn scripted_route_reaches_goal() {
    let mut rng = StdRng::seed_from_u64(37);
    let params = Game1Parameters { max_steps: 30, size: 3, random: false, goal_bonus: 10 };
    let agent = Scripted {
        moves: vec![Action::Right, Action::Right, Action::Down, Action::Down],
        next: 0,
        seen: vec![],
    };
    let mut spat = Spatium::new(GameParameters::Game1(params), agent, &mut rng, 3).unwrap();
    let first = spat.step(&mut rng);
    assert_eq!(first.step, 0);
    let mut last = None;
    for k in 1..5 {
        let r = spat.step(&mut rng);
        assert_eq!(r.step, k);
        last = Some(r);
    }
    let last = last.unwrap();
    assert_eq!(last.action, "Down");
    assert_eq!(last.episode_result, Some(EpisodeResult { steps: 4, score: DEFAULT_GOAL_BONUS }));
    assert_eq!(spat.network.seen.last(), Some(&(Action::Down, DEFAULT_GOAL_BONUS, true)));
    assert_eq!(spat.network.seen.len(), 4);
    assert!(spat.network.seen[..3].iter().all(|s| !s.2 && s.1 == 0));
    let agent_layer = &last.rendering_info.unwrap().layers[1];
    assert_eq!((agent_layer.points[0].x, agent_layer.points[0].y), (2, 2));
    let next = spat.step(&mut rng);
    assert_eq!((next.episode, next.step), (1, 0));
}

#[test]
fn neural_core_decisions() {
    let mut rng = StdRng::seed_from_u64(41);
    let mut p = SingleLayerNetworkParameters::default();
    p.expierence_buffer_size = 2;
    p.minibatch_size = 3;
    p.exploration = DynamicValue { initial_rate: 1_000_000, final_rate: 0, final_episode: 2 };
    let mut core = SingleLayerCore::new(p);
    assert_eq!(core.explore_chance, 1_000_000);
    for _ in 0..10 {
        assert!(core.explore(&mut rng).is_some());
    }
    let mut g = Game1::new(Game1Parameters { max_steps: 30, size: 3, random: false, goal_bonus: 10 }, &mut rng);
    let s0 = g.build_state();
    let (s1, r, d) = g.step(Action::Right);
    let plan = core.record(
        &mut rng,
        Experience { state: s0.clone(), action: Action::Right, reward: r, next_state: s1.clone(), done: d },
    );
    assert!(plan.batch.is_empty());
    assert!(plan.sync_target);
    let plan = core.record(
        &mut rng,
        Experience { state: s1.clone(), action: Action::Up, reward: 0, next_state: s0.clone(), done: true },
    );
    assert_eq!(plan.batch.len(), 3);
    assert!(plan.episode_ended);
    assert_eq!(core.memory.episode, 1);
    assert_eq!(core.explore_chance, 500_000);
    core.record(
        &mut rng,
        Experience { state: s0.clone(), action: Action::Up, reward: 0, next_state: s1, done: true },
    );
    assert_eq!(core.explore_chance, 0);
    assert_eq!(core.memory.len(), 2);
    for _ in 0..10 {
        assert!(core.explore(&mut rng).is_none());
    }
}
