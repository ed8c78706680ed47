use rand::rngs::StdRng;
use rand::SeedableRng;
use spatium::action::Action;
use spatium::game::{Game1, Game1Parameters};
use spatium::network::Network;
use spatium::qtable::{argmax, noisy_choice, QTable, NOISE_BOUND};
use spatium::replay::ReplayMemory;
use spatium::single_layer::{DynamicValue, SingleLayerCore, SingleLayerNetworkParameters};
use spatium::{IntoModelParameters, ModelParameters};

#[test]
fn test_argmax() {
    let n: Vec<i64> = vec![0, 1, 5, 2];
    assert_eq!(argmax(&n), (2, 5));
    let n: Vec<i64> = vec![-5, -6, -7, -2];
    assert_eq!(argmax(&n), (3, -2));
}

#[test]
fn argmax_ties_pick_first() {
    assert_eq!(argmax(&vec![4, 4, 4, 4]), (0, 4));
    assert_eq!(argmax(&vec![-3, 7, -1, 7]), (1, 7));
}

#[test]
fn noisy_choice_is_exact() {
    assert_eq!(noisy_choice(&vec![0, 8000, 0, 0], &vec![2999, 0, 0, 0]), (Action::Right, 8000));
    assert_eq!(noisy_choice(&vec![100, 0, 0, 0], &vec![0, 100, 0, 0]), (Action::Up, 100));
    assert_eq!(noisy_choice(&vec![0, 0, 0, 0], &vec![0, 0, 0, 1]), (Action::Left, 1));
    assert_eq!(noisy_choice(&vec![5000, 0, 0, 0], &vec![0, 2999, 2999, 2999]), (Action::Up, 5000));
}

fn game() -> Game1 {
    let mut rng = StdRng::seed_from_u64(5);
    Game1::new(Game1Parameters { max_steps: 30, size: 3, random: false, goal_bonus: 10 }, &mut rng)
}

#[test]
fn greedy_after_single_update() {
    let mut g = game();
    let s0 = g.build_state();
    let mut t = QTable::new();
    assert_eq!(t.row(&s0.arr), vec![0, 0, 0, 0]);
    assert_eq!(t.greedy_action(&s0), (Action::Up, 0));
    let (s1, _, _) = g.step(Action::Right);
    // target 10 * 1000 + 19 * 0 / 20, moved four fifths of the way from 0
    t.learn(s0.clone(), Action::Right, &s1, 10);
    assert_eq!(t.row(&s0.arr), vec![0, 8000, 0, 0]);
    for _ in 0..3 {
        assert_eq!(t.greedy_action(&s0), (Action::Right, 8000));
    }
    assert_eq!(t.row(&s1.arr), vec![0, 0, 0, 0]);
}

#[test]
fn update_bootstraps_from_next_state() {
    let mut g = game();
    let s0 = g.build_state();
    let (s1, _, _) = g.step(Action::Right);
    let mut t = QTable::new();
    t.learn(s1.clone(), Action::Down, &s0, 10);
    assert_eq!(t.row(&s1.arr), vec![0, 0, 8000, 0]);
    // target 0 * 1000 + 19 * 8000 / 20 = 7600; 0 + 4 * 7600 / 5 = 6080
    t.learn(s0.clone(), Action::Right, &s1, 0);
    assert_eq!(t.row(&s0.arr), vec![0, 6080, 0, 0]);
    // a value above the target moves down: 6080 - 4 * (6080 - 7600 * 0) / 5
    let mut empty_next = s1.clone();
    empty_next.arr = vec![9, 9, 9];
    t.learn(s0.clone(), Action::Right, &empty_next, 0);
    assert_eq!(t.row(&s0.arr), vec![0, 1216, 0, 0]);
}

#[test]
fn network_trait_on_table() {
    let mut g = game();
    let s0 = g.build_state();
    let mut t = QTable::new();
    let mut rng = StdRng::seed_from_u64(11);
    for _ in 0..20 {
        let (a, v) = t.next_action(&mut rng, true, &s0);
        assert!(a.index() < 4);
        assert!((0..NOISE_BOUND).contains(&v));
    }
    let (s1, r, d) = g.step(Action::Down);
    let m = t.result(&mut rng, s0.clone(), Action::Down, &s1, r, d);
    assert!(m.annotations.is_empty());
    assert_eq!(t.next_action(&mut rng, false, &s0), (Action::Up, 0));
    assert!(NOISE_BOUND > 0);
}

#[test]
fn replay_buffer_bounded_and_sync() {
    let mut rng = StdRng::seed_from_u64(2);
    let mut m: ReplayMemory<u32> = ReplayMemory::new(3, 2, 2);
    let p = m.record(&mut rng, 10, false);
    assert!(p.batch.is_empty());
    assert!(p.sync_target);
    assert_eq!(m.target_version, m.online_version);
    let p = m.record(&mut rng, 11, false);
    assert!(p.metrics.annotations.is_empty());
    assert!(p.batch.is_empty());
    assert!(!p.sync_target);
    let p = m.record(&mut rng, 12, true);
    assert_eq!(p.metrics.annotations, vec!["Experience buffer full".to_string()]);
    assert_eq!(p.batch.len(), 2);
    assert!(p.batch.iter().all(|i| *i < 3));
    assert!(p.sync_target);
    assert!(p.episode_ended);
    assert_eq!(m.online_version, 1);
    assert_eq!(m.target_version, 1);
    assert_eq!(m.episode, 1);
    let p = m.record(&mut rng, 13, false);
    assert!(!p.sync_target);
    assert_eq!(m.online_version, 2);
    assert_eq!(m.target_version, 1);
    for k in 0..20u32 {
        m.record(&mut rng, 100 + k, false);
        assert!(m.len() <= 3);
    }
    assert_eq!(m.buffer, vec![117, 118, 119]);
    assert_eq!(*m.get(0), 117);
    assert_eq!(m.step, 24);
}

#[test]
fn replay_without_minibatch_never_trains() {
    let mut rng = StdRng::seed_from_u64(4);
    let mut m: ReplayMemory<u8> = ReplayMemory::new(1, 0, 1);
    for k in 0..5u8 {
        let p = m.record(&mut rng, k, false);
        assert!(p.batch.is_empty());
        assert!(p.sync_target);
    }
    assert_eq!(m.buffer, vec![4]);
    assert_eq!(m.online_version, 0);
}

#[test]
fn linear_rate_schedule() {
    let d = DynamicValue { initial_rate: 1_000_000, final_rate: 100_000, final_episode: 1000 };
    assert_eq!(d.rate_at(0), 1_000_000);
    assert_eq!(d.rate_at(500), 550_000);
    assert_eq!(d.rate_at(999), 100_900);
    assert_eq!(d.rate_at(1000), 100_000);
    assert_eq!(d.rate_at(5000), 100_000);
    let up = DynamicValue { initial_rate: 1000, final_rate: 5000, final_episode: 4 };
    assert_eq!(up.rate_at(1), 2000);
    assert_eq!(up.rate_at(3), 4000);
    let now = DynamicValue { initial_rate: 7, final_rate: 3, final_episode: 0 };
    assert_eq!(now.rate_at(0), 3);
}

#[test]
fn model_parameters_checks() {
    let d = SingleLayerNetworkParameters::default();
    assert_eq!(d.minibatch_size, 10);
    assert_eq!(d.expierence_buffer_size, 1000);
    assert!(ModelParameters::QNetwork(d).validate().is_ok());
    assert!(ModelParameters::QTable.validate().is_ok());
    let mut bad = d;
    bad.expierence_buffer_size = 0;
    assert!(ModelParameters::QNetwork(bad).validate().is_err());
    let mut bad = d;
    bad.exploration.initial_rate = 1_000_001;
    assert!(ModelParameters::QNetwork(bad).validate().is_err());
    assert_eq!(ModelParameters::QTable.into_model_parameters(), Ok(ModelParameters::QTable));
}

#[test]
fn learning_through_the_trait_then_greedy() {
    let mut g = game();
    let s0 = g.build_state();
    let (s1, _, _) = g.step(Action::Right);
    let mut t = QTable::new();
    let mut rng = StdRng::seed_from_u64(13);
    let m = t.result(&mut rng, s0.clone(), Action::Right, &s1, 10, false);
    assert!(m.annotations.is_empty());
    assert_eq!(t.row(&s0.arr), vec![0, 8000, 0, 0]);
    assert_eq!(t.next_action(&mut rng, false, &s0), (Action::Right, 8000));
    assert_eq!(t.next_action(&mut rng, false, &s0), (Action::Right, 8000));
    for _ in 0..10 {
        t.next_action(&mut rng, true, &s0);
    }
    assert_eq!(t.row(&s0.arr), vec![0, 8000, 0, 0]);
    assert_eq!(t.row(&s1.arr), vec![0, 0, 0, 0]);
}

#[test]
fn exploration_decision_is_exact() {
    let mut p = SingleLayerNetworkParameters::default();
    p.exploration = DynamicValue { initial_rate: 250_000, final_rate: 250_000, final_episode: 1 };
    let core = SingleLayerCore::new(p);
    assert_eq!(core.explore_decision(0, 3), Some(Action::Left));
    assert_eq!(core.explore_decision(249_999, 1), Some(Action::Right));
    assert_eq!(core.explore_decision(250_000, 1), None);
    assert_eq!(core.explore_decision(999_999, 0), None);
    assert_eq!(Action::of_index(2), Action::Down);
}

#[test]
fn sync_interval_comes_from_parameters() {
    let mut p = SingleLayerNetworkParameters::default();
    assert_eq!(p.target_sync_interval, 300);
    p.target_sync_interval = 0;
    assert!(ModelParameters::QNetwork(p).validate().is_err());
    p.target_sync_interval = 2;
    let core = SingleLayerCore::new(p);
    assert_eq!(core.memory.sync_interval, 2);
}

#[test]
fn learning_at_the_largest_reward() {
    let mut g = game();
    let s0 = g.build_state();
    let (s1, _, _) = g.step(Action::Down);
    let mut t = QTable::new();
    let big = spatium::network::MAX_REWARD;
    t.learn(s1.clone(), Action::Left, &s0, big);
    // 4 * (reward * 1000) / 5
    assert_eq!(t.row(&s1.arr), vec![0, 0, 0, 3_435_973_836_000]);
    t.learn(s0.clone(), Action::Down, &s1, big);
    // target reward * 1000 + 19 * 3_435_973_836_000 / 20, four fifths of it
    let target: i64 = 4_294_967_295_000 + 19 * 3_435_973_836_000 / 20;
    assert_eq!(t.row(&s0.arr), vec![0, 0, 4 * target / 5, 0]);
    assert_eq!(t.greedy_action(&s0), (Action::Down, 4 * target / 5));
}
