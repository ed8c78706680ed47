use rand::rngs::StdRng;
use rand::SeedableRng;
use spatium::action::Action;
use spatium::game::{Game1, Game1Parameters, GameParameters, Sprite, DEFAULT_GOAL_BONUS};

fn fixed(max_steps: usize) -> Game1 {
    let mut rng = StdRng::seed_from_u64(1);
    Game1::new(Game1Parameters { max_steps, size: 3, random: false, goal_bonus: 10 }, &mut rng)
}

#[test]
fn action_index_round_trip() {
    for a in Action::all() {
        assert_eq!(Action::from_index(a.index()), Some(a));
    }
    assert_eq!(Action::all(), vec![Action::Up, Action::Right, Action::Down, Action::Left]);
    assert_eq!(Action::Left.index(), 3);
    assert_eq!(Action::from_index(4), None);
    assert_eq!(Action::from_index(usize::MAX), None);
}

#[test]
fn action_one_hot_and_names() {
    assert_eq!(Action::Up.vec(), vec![1, 0, 0, 0]);
    assert_eq!(Action::Down.vec(), vec![0, 0, 1, 0]);
    assert_eq!(Action::Right.name(), "Right");
    assert_eq!(Action::Left.name(), "Left");
}

#[test]
fn fixed_game_layout() {
    let g = fixed(30);
    assert_eq!(g.agent, Sprite { x: 0, y: 0 });
    assert_eq!(g.blocks, vec![Sprite { x: 1, y: 1 }]);
    assert_eq!(g.food, vec![Sprite { x: 2, y: 2 }]);
    assert_eq!(g.step, 0);
    assert_eq!(g.reward, 0);
    assert!(!g.done);
    assert_eq!(g.io(), (9, 4));
    let s = g.build_state();
    assert_eq!(s.layers, 1);
    assert_eq!(s.arr, vec![1, 0, 0, 0, 0, 0, 0, 0, 0]);
}

#[test]
fn fixed_route_reaches_goal_in_four_steps() {
    let mut g = fixed(30);
    let mut last = (g.build_state(), 0, false);
    for (i, a) in [Action::Right, Action::Right, Action::Down, Action::Down].iter().enumerate() {
        assert!(!g.done);
        last = g.step(*a);
        assert_eq!(g.step, i + 1);
    }
    assert_eq!(g.agent, Sprite { x: 2, y: 2 });
    assert_eq!(last.1, DEFAULT_GOAL_BONUS);
    assert!(last.2);
    assert!(g.done);
    assert_eq!(g.step, 4);
    assert_eq!(last.0.arr, vec![0, 0, 0, 0, 0, 0, 0, 0, 1]);
}

#[test]
fn wall_press_on_last_step_times_out() {
    let mut g = fixed(1);
    let (_, reward, done) = g.step(Action::Up);
    assert_eq!(g.agent, Sprite { x: 0, y: 0 });
    assert_eq!(g.step, 1);
    assert_eq!(reward, 0);
    assert!(done);
}

#[test]
fn obstacle_blocks_move_but_step_counts() {
    let mut g = fixed(30);
    g.step(Action::Right);
    let (_, _, done) = g.step(Action::Down);
    assert_eq!(g.agent, Sprite { x: 1, y: 0 });
    assert_eq!(g.step, 2);
    assert!(!done);
    g.step(Action::Left);
    g.step(Action::Left);
    assert_eq!(g.agent, Sprite { x: 0, y: 0 });
    assert_eq!(g.step, 4);
}

#[test]
fn step_counter_and_timeout() {
    let mut g = fixed(5);
    let moves = [Action::Down, Action::Up, Action::Down, Action::Up];
    for (i, a) in moves.iter().enumerate() {
        let (_, _, done) = g.step(*a);
        assert_eq!(g.step, i + 1);
        assert!(!done);
    }
    let (_, reward, done) = g.step(Action::Left);
    assert_eq!(g.step, 5);
    assert_eq!(reward, 0);
    assert!(done);
}

#[test]
fn random_placement_is_free() {
    for seed in 0..200u64 {
        let mut rng = StdRng::seed_from_u64(seed);
        let size = 2 + (seed as usize % 5);
        let g = Game1::new(Game1Parameters { max_steps: 10, size, random: true, goal_bonus: 10 }, &mut rng);
        assert!(g.agent != Sprite { x: 1, y: 1 });
        assert_eq!(g.food.len(), 1);
        assert!(g.food[0] != g.agent);
        assert!(g.food[0] != Sprite { x: 1, y: 1 });
        assert!(g.agent.x < 2 && g.agent.y < 2);
        assert!(g.food[0].x < 2 && g.food[0].y < 2);
        let s = g.build_state();
        assert_eq!(s.layers, 2);
        assert_eq!(s.arr.len(), 2 * size * size);
        assert_eq!(s.arr.iter().filter(|v| **v == 1).count(), 2);
        assert_eq!(s.arr[g.agent.y * size + g.agent.x], 1);
        assert_eq!(s.arr[(size + g.food[0].y) * size + g.food[0].x], 1);
    }
}

#[test]
fn level_follows_outcomes() {
    let mut g = fixed(30);
    assert_eq!(g.level, 1);
    for a in [Action::Right, Action::Right, Action::Down, Action::Down] {
        g.step(a);
    }
    assert_eq!(g.level, 2);
    let mut rng = StdRng::seed_from_u64(3);
    let s = g.reset(&mut rng);
    assert_eq!(g.level, 2);
    assert_eq!(g.step, 0);
    assert!(!g.done);
    assert_eq!(s.arr[0], 1);
}

#[test]
fn parameters_validation() {
    let bad = [
        Game1Parameters { max_steps: 5, size: 1, random: true, goal_bonus: 10 },
        Game1Parameters { max_steps: 5, size: 2, random: false, goal_bonus: 10 },
        Game1Parameters { max_steps: 5, size: usize::MAX, random: true, goal_bonus: 10 },
        Game1Parameters { max_steps: 5, size: 1 << 40, random: true, goal_bonus: 10 },
    ];
    for p in bad.iter() {
        assert!(p.validate().is_err());
    }
    assert!(Game1Parameters { max_steps: 5, size: 2, random: true, goal_bonus: 10 }.validate().is_ok());
    assert!(Game1Parameters { max_steps: 5, size: 5000, random: false, goal_bonus: 10 }.validate().is_ok());
    let d = Game1Parameters::default();
    assert_eq!(d, Game1Parameters { max_steps: 30, size: 3, random: true, goal_bonus: 10 });
    assert!(Game1Parameters { goal_bonus: 4_294_967_296, ..d }.validate().is_err());
    assert!(Game1Parameters { goal_bonus: 4_294_967_295, ..d }.validate().is_ok());
    let mut rng = StdRng::seed_from_u64(9);
    let g = GameParameters::Game1(d).into_game(&mut rng);
    assert_eq!(g.io(), (18, 4));
}

#[test]
fn rendering_layers() {
    let g = fixed(30);
    let r = g.rendering_info();
    assert_eq!(r.width, 3);
    assert_eq!(r.height, 3);
    let names: Vec<&str> = r.layers.iter().map(|l| l.name.as_str()).collect();
    assert_eq!(names, vec!["food", "agent", "block"]);
    assert_eq!((r.layers[0].points[0].x, r.layers[0].points[0].y), (2, 2));
    assert_eq!((r.layers[1].points[0].x, r.layers[1].points[0].y), (0, 0));
    assert_eq!((r.layers[2].points[0].x, r.layers[2].points[0].y), (1, 1));
}

#[test]
fn custom_goal_bonus_and_wider_placement() {
    let mut rng = StdRng::seed_from_u64(8);
    let mut g = Game1::new(Game1Parameters { max_steps: 30, size: 3, random: false, goal_bonus: 7 }, &mut rng);
    let mut last = 0;
    for a in [Action::Right, Action::Right, Action::Down, Action::Down] {
        last = g.step(a).1;
    }
    assert_eq!(last, 7);
    let mut g = Game1::new(Game1Parameters { max_steps: 30, size: 6, random: true, goal_bonus: 10 }, &mut rng);
    g.level = 4;
    for _ in 0..50 {
        g.reset(&mut rng);
        assert!(g.agent.x <= 4 && g.agent.y <= 4);
        assert!(g.food[0].x <= 4 && g.food[0].y <= 4);
        assert!(g.agent != g.food[0]);
        assert!(g.agent != Sprite { x: 1, y: 1 });
    }
}

#[test]
fn large_grid_is_accepted() {
    let mut rng = StdRng::seed_from_u64(12);
    let p = Game1Parameters { max_steps: 5, size: 1500, random: false, goal_bonus: 10 };
    assert!(p.validate().is_ok());
    let mut g = Game1::new(p, &mut rng);
    assert_eq!(g.food, vec![Sprite { x: 1499, y: 1499 }]);
    assert_eq!(g.io(), (1500 * 1500, 4));
    let (s, _, done) = g.step(Action::Down);
    assert!(!done);
    assert_eq!(s.arr.len(), 1500 * 1500);
    assert_eq!(s.arr[1500], 1);
}
