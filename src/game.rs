//! The grid world: an agent, one obstacle and one goal on a square grid.
use vstd::prelude::*;

use crate::action::Action;
use crate::network::MAX_REWARD;
use crate::rng::below;

verus! {

/// The reward added when the agent reaches a goal, unless the parameters
/// set another.
pub const DEFAULT_GOAL_BONUS: usize = 10;

/// A cell of the grid, `x` to the right and `y` downwards.
#[derive(Debug, Clone, Copy, PartialEq, Eq, Structural)]
pub struct Sprite {
    pub x: usize,
    pub y: usize,
}

/// A point of a rendering layer.
#[derive(Debug, Clone, Copy, PartialEq, Eq, Structural)]
pub struct Point {
    pub x: usize,
    pub y: usize,
}

/// Named points to draw, one layer per kind of sprite.
#[derive(Debug)]
pub struct RenderingLayer {
    pub name: String,
    pub points: Vec<Point>,
}

/// What a renderer needs to draw the current grid.
#[derive(Debug)]
pub struct RenderingInfo {
    pub width: usize,
    pub height: usize,
    pub layers: Vec<RenderingLayer>,
}

/// A snapshot of the grid: `layers` occupancy layers of `height` rows of
/// `width` cells, flattened row-major into `arr`. Layer 0 marks the agent;
/// on randomly placed games layer 1 marks the goal.
#[derive(Debug, Clone)]
pub struct GameState {
    pub arr: Vec<u8>,
    pub layers: usize,
    pub height: usize,
    pub width: usize,
}

/// How a game is set up.
#[derive(Debug, Clone, Copy, PartialEq, Eq, Structural)]
pub struct Game1Parameters {
    pub max_steps: usize,
    pub size: usize,
    pub random: bool,
    /// The reward for reaching the goal.
    pub goal_bonus: usize,
}

/// The kinds of game, each with its parameters.
#[derive(Debug, Clone, Copy, PartialEq, Eq, Structural)]
pub enum GameParameters {
    Game1(Game1Parameters),
}

/// A grid world in play.
#[derive(Debug)]
pub struct Game1 {
    pub params: Game1Parameters,
    /// How far from the origin random placement may reach, less one.
    pub level: usize,
    pub step: usize,
    pub agent: Sprite,
    pub blocks: Vec<Sprite>,
    pub food: Vec<Sprite>,
    pub reward: usize,
    pub done: bool,
}

/// Parameters that a game can be built from: a grid of at least 2 by 2 that
/// holds the obstacle at (1, 1), small enough that the cells of both layers
/// can be counted in a `usize`, and, where the goal is not placed at random,
/// room for the goal in the far corner apart from the obstacle; and a goal
/// bonus that an agent can learn from.
pub open spec fn params_valid(p: Game1Parameters) -> bool {
    &&& 2 <= p.size
    &&& 2 * p.size * p.size <= usize::MAX
    &&& (p.random || p.size >= 3)
    &&& p.goal_bonus <= MAX_REWARD
}

/// How far from the origin random placement reaches at a level: cells
/// with both coordinates below `level + 1`, within the grid.
pub open spec fn placement_reach(level: usize, size: usize) -> int {
    if level < size {
        level + 1
    } else {
        size as int
    }
}

pub open spec fn in_grid(s: Sprite, size: usize) -> bool {
    s.x < size && s.y < size
}

/// The cell an action aims at, the agent's own cell where it would leave
/// the grid.
pub open spec fn target_cell(s: Sprite, a: Action, size: usize) -> Sprite {
    match a {
        Action::Up => if s.y == 0 { s } else { Sprite { x: s.x, y: (s.y - 1) as usize } },
        Action::Right => if s.x + 1 >= size { s } else { Sprite { x: (s.x + 1) as usize, y: s.y } },
        Action::Down => if s.y + 1 >= size { s } else { Sprite { x: s.x, y: (s.y + 1) as usize } },
        Action::Left => if s.x == 0 { s } else { Sprite { x: (s.x - 1) as usize, y: s.y } },
    }
}

/// Where the agent stands after an action: the target cell unless an
/// obstacle holds it.
pub open spec fn next_agent(g: Game1, a: Action) -> Sprite {
    let t = target_cell(g.agent, a, g.params.size);
    if g.blocks@.contains(t) {
        g.agent
    } else {
        t
    }
}

/// The placement level after an episode: up after a win, down (not below 3)
/// after a loss, unchanged while the episode runs.
pub open spec fn next_level(level: usize, done: bool, reward: usize) -> usize {
    if !done {
        level
    } else if reward > 0 {
        if level < usize::MAX { (level + 1) as usize } else { level }
    } else if level > 3 {
        (level - 1) as usize
    } else {
        level
    }
}

pub open spec fn layer_count(random: bool) -> int {
    if random { 2 } else { 1 }
}

/// The flat index of cell (x, y) of a layer.
pub open spec fn cell_index(size: int, layer: int, y: int, x: int) -> int {
    (layer * size + y) * size + x
}

/// Whether flat index `i` marks the agent or, on random games, a goal.
pub open spec fn cell_marked(g: Game1, i: int) -> bool {
    let n = g.params.size as int;
    i == cell_index(n, 0, g.agent.y as int, g.agent.x as int) || (g.params.random && exists|k: int|
        0 <= k < g.food@.len() && i == cell_index(n, 1, g.food@[k].y as int, g.food@[k].x as int))
}

/// The occupancy grid of a game, flattened.
pub open spec fn state_cells(g: Game1) -> Seq<u8> {
    let n = g.params.size as int;
    Seq::new(
        (layer_count(g.params.random) * n * n) as nat,
        |i: int| if cell_marked(g, i) { 1u8 } else { 0u8 },
    )
}

/// `s` is the snapshot of game `g`.
pub open spec fn is_state_of(s: GameState, g: Game1) -> bool {
    &&& s.arr@ == state_cells(g)
    &&& s.layers == layer_count(g.params.random)
    &&& s.height == g.params.size
    &&& s.width == g.params.size
}

/// `r` draws game `g`: its goals, its agent and its obstacles, in that order.
pub open spec fn renders(r: RenderingInfo, g: Game1) -> bool {
    &&& r.width == g.params.size
    &&& r.height == g.params.size
    &&& r.layers@.len() == 3
    &&& r.layers@[0].name@ == "food"@
    &&& r.layers@[0].points@ == points_of(g.food@)
    &&& r.layers@[1].name@ == "agent"@
    &&& r.layers@[1].points@ == seq![Point { x: g.agent.x, y: g.agent.y }]
    &&& r.layers@[2].name@ == "block"@
    &&& r.layers@[2].points@ == points_of(g.blocks@)
}

/// `g1` is `g0` after one step with action `a`.
pub open spec fn game_stepped(g0: Game1, g1: Game1, a: Action) -> bool {
    &&& g1.params == g0.params
    &&& g1.agent == next_agent(g0, a)
    &&& g1.blocks@ == g0.blocks@
    &&& g1.food@ == g0.food@
    &&& g1.step == g0.step + 1
    &&& g1.reward == if g0.food@.contains(g1.agent) { g0.params.goal_bonus } else { 0 }
    &&& g1.done == (g0.food@.contains(g1.agent) || g0.step + 1 >= g0.params.max_steps)
}

/// Over any run of actions on a game in play, each step adds exactly one to
/// the step counter; a game can only be stepped while not over, so once a
/// step reports it over no later step is taken.
pub proof fn lemma_steps_counted(gs: Seq<Game1>, acts: Seq<Action>)
    requires
        gs.len() == acts.len() + 1,
        forall|i: int|
            0 <= i < acts.len() ==> !(#[trigger] gs[i]).done && game_stepped(gs[i], gs[i + 1], acts[i]),
    ensures
        forall|i: int| 0 <= i < gs.len() ==> #[trigger] gs[i].step == gs[0].step + i,
    decreases acts.len(),
{
    if acts.len() > 0 {
        let n = acts.len() as int;
        lemma_steps_counted(gs.drop_last(), acts.drop_last());
        assert forall|i: int| 0 <= i < gs.len() implies #[trigger] gs[i].step == gs[0].step + i by {
            if i < n {
                assert(gs.drop_last()[i] == gs[i]);
            } else {
                assert(gs.drop_last()[n - 1] == gs[n - 1]);
                assert(!gs[n - 1].done && game_stepped(gs[n - 1], gs[n], acts[n - 1]));
            }
        }
    }
}

/// A move into the wall or into an obstacle leaves the agent in place, yet
/// the step is counted and the goal and the budget of steps are checked as
/// on any other step.
pub proof fn lemma_blocked_move_counts(g0: Game1, g1: Game1, a: Action)
    requires
        game_stepped(g0, g1, a),
        target_cell(g0.agent, a, g0.params.size) == g0.agent || g0.blocks@.contains(
            target_cell(g0.agent, a, g0.params.size),
        ),
    ensures
        g1.agent == g0.agent,
        g1.step == g0.step + 1,
        g1.done == (g0.food@.contains(g0.agent) || g0.step + 1 >= g0.params.max_steps),
        g1.reward == if g0.food@.contains(g0.agent) { g0.params.goal_bonus } else { 0 },
{
}

pub open spec fn points_of(s: Seq<Sprite>) -> Seq<Point> {
    s.map_values(|p: Sprite| Point { x: p.x, y: p.y })
}

proof fn lemma_cell_index_bound(n: int, layers: int, l: int, y: int, x: int)
    requires
        0 <= x < n,
        0 <= y < n,
        0 <= l < layers,
    ensures
        0 <= cell_index(n, l, y, x) < layers * n * n,
{
    assert(0 <= (l * n + y) * n + x < layers * n * n) by (nonlinear_arith)
        requires
            0 <= x < n,
            0 <= y < n,
            0 <= l < layers,
    ;
}

/// Whether both layers of a grid of side `n` can be counted in a `usize`.
fn grid_fits(n: usize) -> (r: bool)
    ensures
        r == (2 * n * n <= usize::MAX),
{
    match n.checked_mul(n) {
        None => {
            assert(2 * n * n > usize::MAX) by (nonlinear_arith)
                requires
                    n * n > usize::MAX,
            ;
            false
        },
        Some(square) => {
            assert(square * 2 == 2 * n * n) by (nonlinear_arith)
                requires
                    square == n * n,
            ;
            square.checked_mul(2).is_some()
        },
    }
}

/// Whether `s` is one of the sprites of `v`.
fn contains_sprite(v: &Vec<Sprite>, s: Sprite) -> (r: bool)
    ensures
        r == v@.contains(s),
{
    let mut i: usize = 0;
    while i < v.len()
        invariant
            i <= v@.len(),
            forall|k: int| 0 <= k < i ==> v@[k] != s,
        decreases v@.len() - i,
    {
        if v[i] == s {
            assert(v@[i as int] == s);
            return true;
        }
        i += 1;
    }
    false
}

fn sprite_points(v: &Vec<Sprite>) -> (r: Vec<Point>)
    ensures
        r@ == points_of(v@),
{
    let mut r: Vec<Point> = Vec::new();
    let mut i: usize = 0;
    while i < v.len()
        invariant
            i <= v@.len(),
            r@ == points_of(v@.take(i as int)),
        decreases v@.len() - i,
    {
        r.push(Point { x: v[i].x, y: v[i].y });
        i += 1;
        assert(v@.take(i as int) =~= v@.take((i - 1) as int).push(v@[i - 1]));
        assert(r@ =~= points_of(v@.take(i as int)));
    }
    assert(v@.take(i as int) =~= v@);
    r
}

impl Game1Parameters {
    /// Checks that a game can be built from these parameters, with a message
    /// that says why not.
    pub fn validate(&self) -> (r: Result<(), String>)
        ensures
            r is Ok <==> params_valid(*self),
    {
        if self.size < 2 {
            Err("the grid must be at least 2 by 2".to_owned())
        } else if !grid_fits(self.size) {
            Err("the grid is too large".to_owned())
        } else if !self.random && self.size < 3 {
            Err("a fixed goal needs a grid of at least 3 by 3".to_owned())
        } else if self.goal_bonus > MAX_REWARD {
            Err("the goal bonus is too large".to_owned())
        } else {
            Ok(())
        }
    }

    /// The sizes of what a value model reads and writes: the number of grid
    /// cells over all layers, and the number of actions.
    pub fn io(&self) -> (r: (usize, usize))
        requires
            params_valid(*self),
        ensures
            r.0 == layer_count(self.random) * self.size * self.size,
            r.1 == 4,
    {
        let n = self.size;
        let layers: usize = if self.random { 2 } else { 1 };
        assert(layers * n <= layers * n * n <= 2 * n * n) by (nonlinear_arith)
            requires
                1 <= layers <= 2,
                n >= 1,
        ;
        (layers * n * n, 4)
    }
}

impl Default for Game1Parameters {
    fn default() -> (r: Self)
        ensures
            r == (Game1Parameters {
                max_steps: 30,
                size: 3,
                random: true,
                goal_bonus: DEFAULT_GOAL_BONUS,
            }),
    {
        Game1Parameters { max_steps: 30, size: 3, random: true, goal_bonus: DEFAULT_GOAL_BONUS }
    }
}

impl GameParameters {
    /// Builds the game these parameters describe.
    pub fn into_game(self, rng: &mut rand::rngs::StdRng) -> (r: Game1)
        requires
            match self {
                GameParameters::Game1(p) => params_valid(p),
            },
        ensures
            r.wf(),
            r.fresh(),
            match self {
                GameParameters::Game1(p) => r.params == p && r.level == 1,
            },
    {
        match self {
            GameParameters::Game1(p) => Game1::new(p, rng),
        }
    }
}

impl Game1 {
    /// The invariant of a game in play.
    pub open spec fn wf(&self) -> bool {
        let n = self.params.size;
        &&& params_valid(self.params)
        &&& self.level >= 1
        &&& in_grid(self.agent, n)
        &&& forall|k: int| 0 <= k < self.blocks@.len() ==> in_grid(#[trigger] self.blocks@[k], n)
        &&& forall|k: int| 0 <= k < self.food@.len() ==> in_grid(#[trigger] self.food@[k], n)
        &&& !self.blocks@.contains(self.agent)
        &&& (self.reward == 0 || (self.reward == self.params.goal_bonus && self.done))
        &&& (!self.done ==> (self.step < self.params.max_steps || self.step == 0))
    }

    /// A game as it stands before its first step: the agent free of the
    /// obstacle and off the goal, nothing earned, not over.
    pub open spec fn fresh(&self) -> bool {
        &&& self.step == 0
        &&& self.reward == 0
        &&& !self.done
        &&& self.blocks@ == seq![Sprite { x: 1, y: 1 }]
        &&& self.food@.len() == 1
        &&& !self.blocks@.contains(self.agent)
        &&& !self.food@.contains(self.agent)
        &&& !self.blocks@.contains(self.food@[0])
        &&& (!self.params.random ==> self.agent == Sprite { x: 0, y: 0 } && self.food@[0] == Sprite {
            x: (self.params.size - 1) as usize,
            y: (self.params.size - 1) as usize,
        })
    }

    /// Whether `s` is clear of the agent, the goals and the obstacles.
    pub open spec fn is_free_spec(&self, s: Sprite) -> bool {
        &&& s != self.agent
        &&& !self.food@.contains(s)
        &&& !self.blocks@.contains(s)
    }

    fn is_free(&self, s: Sprite) -> (r: bool)
        ensures
            r == self.is_free_spec(s),
    {
        s != self.agent && !contains_sprite(&self.food, s) && !contains_sprite(&self.blocks, s)
    }

    /// A free cell within `level + 1` of the origin (and within the grid),
    /// each such cell as likely as another.
    fn random_empty_space(&self, rng: &mut rand::rngs::StdRng) -> (r: Sprite)
        requires
            exists|s: Sprite|
                s.x < placement_reach(self.level, self.params.size) && s.y < placement_reach(
                    self.level,
                    self.params.size,
                ) && #[trigger] self.is_free_spec(s),
        ensures
            self.is_free_spec(r),
            r.x < placement_reach(self.level, self.params.size),
            r.y < placement_reach(self.level, self.params.size),
    {
        let reach: usize = if self.level < self.params.size {
            self.level + 1
        } else {
            self.params.size
        };
        let mut cells: Vec<Sprite> = Vec::new();
        let mut y: usize = 0;
        while y < reach
            invariant
                reach == placement_reach(self.level, self.params.size),
                y <= reach,
                forall|k: int|
                    0 <= k < cells@.len() ==> self.is_free_spec(#[trigger] cells@[k])
                        && cells@[k].x < reach && cells@[k].y < reach,
                forall|s: Sprite|
                    s.x < reach && s.y < y && #[trigger] self.is_free_spec(s) ==> cells@.contains(s),
            decreases reach - y,
        {
            let mut x: usize = 0;
            while x < reach
                invariant
                    reach == placement_reach(self.level, self.params.size),
                    y < reach,
                    x <= reach,
                    forall|k: int|
                        0 <= k < cells@.len() ==> self.is_free_spec(#[trigger] cells@[k])
                            && cells@[k].x < reach && cells@[k].y < reach,
                    forall|s: Sprite|
                        ((s.x < reach && s.y < y) || (s.x < x && s.y == y))
                            && #[trigger] self.is_free_spec(s) ==> cells@.contains(s),
                decreases reach - x,
            {
                let s = Sprite { x, y };
                if self.is_free(s) {
                    let ghost prev = cells@;
                    cells.push(s);
                    proof {
                        assert forall|t: Sprite| prev.contains(t) implies cells@.contains(t) by {
                            let j = choose|j: int| 0 <= j < prev.len() && prev[j] == t;
                            assert(cells@[j] == t);
                        }
                        assert(cells@[cells@.len() - 1] == s);
                    }
                }
                x += 1;
            }
            y += 1;
        }
        proof {
            let w = choose|s: Sprite|
                s.x < reach && s.y < reach && #[trigger] self.is_free_spec(s);
            assert(cells@.contains(w));
        }
        let i = below(rng, cells.len());
        cells[i]
    }

    /// A fresh game: the obstacle at (1, 1); the agent at the origin and the
    /// goal in the far corner, or, on random games, each in a free cell near
    /// the origin picked with the random source.
    pub fn new(p: Game1Parameters, rng: &mut rand::rngs::StdRng) -> (r: Game1)
        requires
            params_valid(p),
        ensures
            r.wf(),
            r.fresh(),
            r.params == p,
            r.level == 1,
            p.random ==> r.agent.x <= 1 && r.agent.y <= 1 && r.food@[0].x <= 1 && r.food@[0].y <= 1,
    {
        Self::with_level(p, 1, rng)
    }

    fn with_level(p: Game1Parameters, level: usize, rng: &mut rand::rngs::StdRng) -> (r: Game1)
        requires
            params_valid(p),
            level >= 1,
        ensures
            r.wf(),
            r.fresh(),
            r.params == p,
            r.level == level,
            p.random ==> r.agent.x <= level && r.agent.y <= level && r.food@[0].x <= level
                && r.food@[0].y <= level,
    {
        let mut g = Game1 {
            params: p,
            level,
            step: 0,
            agent: Sprite { x: 0, y: 0 },
            blocks: vec![Sprite { x: 1, y: 1 }],
            food: Vec::new(),
            reward: 0,
            done: false,
        };
        assert(g.blocks@ == seq![Sprite { x: 1, y: 1 }]);
        if p.random {
            assert(g.is_free_spec(Sprite { x: 1, y: 0 }));
            g.agent = g.random_empty_space(rng);
        }
        let food = if p.random {
            let a = g.agent;
            assert(a != Sprite { x: 1, y: 1 });
            if a == (Sprite { x: 1, y: 0 }) {
                assert(g.is_free_spec(Sprite { x: 0, y: 1 }));
            } else {
                assert(g.is_free_spec(Sprite { x: 1, y: 0 }));
            }
            g.random_empty_space(rng)
        } else {
            Sprite { x: p.size - 1, y: p.size - 1 }
        };
        g.food.push(food);
        assert(g.food@ == seq![food]);
        g
    }

    /// Starts a new episode: a fresh game with the same parameters and the
    /// current placement level.
    pub fn reset(&mut self, rng: &mut rand::rngs::StdRng) -> (r: GameState)
        requires
            old(self).wf(),
        ensures
            final(self).wf(),
            final(self).fresh(),
            final(self).params == old(self).params,
            final(self).level == old(self).level,
            is_state_of(r, *final(self)),
    {
        *self = Self::with_level(self.params, self.level, rng);
        self.build_state()
    }

    /// The sizes of what a value model reads and writes: the number of grid
    /// cells over all layers, and the number of actions.
    pub fn io(&self) -> (r: (usize, usize))
        requires
            self.wf(),
        ensures
            r.0 == layer_count(self.params.random) * self.params.size * self.params.size,
            r.1 == 4,
    {
        self.params.io()
    }

    /// The current snapshot.
    pub fn build_state(&self) -> (r: GameState)
        requires
            self.wf(),
        ensures
            is_state_of(r, *self),
    {
        let n = self.params.size;
        let layers: usize = if self.params.random { 2 } else { 1 };
        assert(layers * n <= layers * n * n <= 2 * n * n) by (nonlinear_arith)
            requires
                1 <= layers <= 2,
                n >= 1,
        ;
        let total = layers * n * n;
        let mut arr: Vec<u8> = Vec::new();
        while arr.len() < total
            invariant
                arr@.len() <= total,
                forall|i: int| 0 <= i < arr@.len() ==> arr@[i] == 0u8,
            decreases total - arr@.len(),
        {
            arr.push(0);
        }
        proof {
            lemma_cell_index_bound(n as int, layers as int, 0, self.agent.y as int, self.agent.x as int);
        }
        let ai = self.agent.y * n + self.agent.x;
        assert(ai == cell_index(n as int, 0, self.agent.y as int, self.agent.x as int));
        arr.set(ai, 1);
        if self.params.random {
            let mut k: usize = 0;
            while k < self.food.len()
                invariant
                    self.wf(),
                    self.params.random,
                    n == self.params.size,
                    layers == 2,
                    total == layers * n * n,
                    k <= self.food@.len(),
                    arr@.len() == total,
                    forall|i: int|
                        0 <= i < total ==> arr@[i] == (if i == ai || exists|j: int|
                            0 <= j < k && i == cell_index(
                                n as int,
                                1,
                                self.food@[j].y as int,
                                self.food@[j].x as int,
                            ) { 1u8 } else { 0u8 }),
                decreases self.food@.len() - k,
            {
                let f = self.food[k];
                assert(in_grid(self.food@[k as int], n));
                proof {
                    lemma_cell_index_bound(n as int, 2, 1, f.y as int, f.x as int);
                }
                assert(n + f.y < 2 * n <= total) by (nonlinear_arith)
                    requires
                        f.y < n,
                        total == 2 * n * n,
                        n >= 1,
                ;
                assert((n + f.y) * n + f.x == cell_index(n as int, 1, f.y as int, f.x as int)) by (nonlinear_arith);
                assert((n + f.y) * n <= (n + f.y) * n + f.x);
                let fi = (n + f.y) * n + f.x;
                assert(fi == cell_index(n as int, 1, f.y as int, f.x as int));
                arr.set(fi, 1);
                k += 1;
                assert forall|i: int| 0 <= i < total implies arr@[i] == (if i == ai || exists|j: int|
                    0 <= j < k && i == cell_index(
                        n as int,
                        1,
                        self.food@[j].y as int,
                        self.food@[j].x as int,
                    ) { 1u8 } else { 0u8 }) by {
                    if i == fi {
                        assert(i == cell_index(
                            n as int,
                            1,
                            self.food@[k - 1].y as int,
                            self.food@[k - 1].x as int,
                        ));
                    }
                }
            }
        }
        let r = GameState { arr, layers, height: n, width: n };
        assert(r.arr@ =~= state_cells(*self));
        r
    }

    /// Ends the step: a goal under the agent earns the bonus and ends the
    /// episode, the counter moves on, and the budget of steps may end it.
    fn update_state(&mut self) -> (r: (GameState, usize, bool))
        requires
            old(self).wf(),
            !old(self).done,
        ensures
            final(self).wf(),
            final(self).params == old(self).params,
            final(self).agent == old(self).agent,
            final(self).blocks@ == old(self).blocks@,
            final(self).food@ == old(self).food@,
            final(self).level == old(self).level,
            final(self).step == old(self).step + 1,
            final(self).reward == old(self).reward + if old(self).food@.contains(old(self).agent) {
                old(self).params.goal_bonus
            } else {
                0
            },
            final(self).done == (old(self).food@.contains(old(self).agent) || old(self).step + 1
                >= old(self).params.max_steps),
            is_state_of(r.0, *final(self)),
            r.1 == final(self).reward,
            r.2 == final(self).done,
    {
        if contains_sprite(&self.food, self.agent) {
            self.reward = self.reward + self.params.goal_bonus;
            self.done = true;
        }
        self.step = self.step + 1;
        if self.step >= self.params.max_steps {
            self.done = true;
        }
        (self.build_state(), self.reward, self.done)
    }

    /// Applies an action. A move off the grid or into an obstacle leaves the
    /// agent where it was; either way the goal and the budget of steps are
    /// checked and the step is counted. At the end of an episode the placement
    /// level follows the outcome. Returns the new snapshot, the reward earned
    /// so far and whether the episode is over.
    pub fn step(&mut self, action: Action) -> (r: (GameState, usize, bool))
        requires
            old(self).wf(),
            !old(self).done,
        ensures
            final(self).wf(),
            game_stepped(*old(self), *final(self), action),
            final(self).params == old(self).params,
            final(self).agent == next_agent(*old(self), action),
            final(self).blocks@ == old(self).blocks@,
            final(self).food@ == old(self).food@,
            final(self).step == old(self).step + 1,
            final(self).reward == if old(self).food@.contains(final(self).agent) {
                old(self).params.goal_bonus
            } else {
                0
            },
            final(self).done == (old(self).food@.contains(final(self).agent) || old(self).step + 1
                >= old(self).params.max_steps),
            final(self).level == next_level(old(self).level, final(self).done, final(self).reward),
            is_state_of(r.0, *final(self)),
            r.1 == final(self).reward,
            r.2 == final(self).done,
    {
        let n = self.params.size;
        let a = self.agent;
        let target = match action {
            Action::Up => if a.y == 0 { a } else { Sprite { x: a.x, y: a.y - 1 } },
            Action::Right => if a.x + 1 >= n { a } else { Sprite { x: a.x + 1, y: a.y } },
            Action::Down => if a.y + 1 >= n { a } else { Sprite { x: a.x, y: a.y + 1 } },
            Action::Left => if a.x == 0 { a } else { Sprite { x: a.x - 1, y: a.y } },
        };
        if !contains_sprite(&self.blocks, target) {
            self.agent = target;
        }
        let result = self.update_state();
        let ghost mid = *self;
        if result.2 {
            if result.1 > 0 {
                if self.level < usize::MAX {
                    self.level = self.level + 1;
                }
            } else if self.level > 3 {
                self.level = self.level - 1;
            }
        }
        assert(self.food@ == mid.food@ && self.agent == mid.agent && self.params == mid.params);
        assert forall|i: int| cell_marked(*self, i) == cell_marked(mid, i) by {}
        assert(state_cells(*self) =~= state_cells(mid));
        result
    }

    /// The layers to draw: the goals, the agent and the obstacles.
    pub fn rendering_info(&self) -> (r: RenderingInfo)
        ensures
            renders(r, *self),
    {
        let agent_layer = RenderingLayer {
            name: "agent".to_owned(),
            points: vec![Point { x: self.agent.x, y: self.agent.y }],
        };
        let block_layer = RenderingLayer { name: "block".to_owned(), points: sprite_points(&self.blocks) };
        let food_layer = RenderingLayer { name: "food".to_owned(), points: sprite_points(&self.food) };
        let r = RenderingInfo {
            width: self.params.size,
            height: self.params.size,
            layers: vec![food_layer, agent_layer, block_layer],
        };
        assert(r.layers@.len() == 3);
        assert(r.layers@[0].name@ == "food"@);
        assert(r.layers@[1].name@ == "agent"@);
        assert(r.layers@[2].name@ == "block"@);
        assert(r.layers@[0].points@ == points_of(self.food@));
        assert(r.layers@[1].points@ == seq![Point { x: self.agent.x, y: self.agent.y }]);
        assert(r.layers@[2].points@ == points_of(self.blocks@));
        r
    }
}

} // verus!
