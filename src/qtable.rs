//! The tabular agent: one row of action values per grid state seen, learnt
//! by one-step Q-learning.
//!
//! Values are fixed-point: a value of 1 is stored as `VALUE_SCALE`. The
//! learning rate is 4/5 and the discount 19/20; divisions round down.
use vstd::prelude::*;

use crate::action::{action_index, index_action, Action};
use crate::game::GameState;
use crate::network::{Metrics, Network, MAX_REWARD};
use crate::rng::below;

verus! {

/// The stored form of the value 1.
pub const VALUE_SCALE: i64 = 1000;

/// Exploration noise is drawn below this bound (3 in value units).
pub const NOISE_BOUND: i64 = 3000;

/// No stored value exceeds this bound: 20 times the largest reward, in
/// thousandths (19 times it still fits an `i64`).
pub const MAX_VALUE: i64 = 85_899_345_900_000;

/// The row of a state not seen yet.
pub open spec fn zero_row() -> Seq<i64> {
    seq![0i64, 0i64, 0i64, 0i64]
}

/// The index of the first greatest entry of `v`: a later entry replaces the
/// best one only when it is strictly greater.
pub open spec fn first_argmax(v: Seq<i64>) -> int
    decreases v.len(),
{
    if v.len() <= 1 {
        0
    } else {
        let i = first_argmax(v.drop_last());
        if v.last() > v[i] {
            v.len() - 1
        } else {
            i
        }
    }
}

/// The learning target: the reward plus the discounted best value of the
/// next state.
pub open spec fn target_value(reward: nat, next_best: nat) -> nat {
    (reward * VALUE_SCALE + (19 * next_best) / 20) as nat
}

/// A value moved four fifths of the way towards `target`.
pub open spec fn updated_value(q: nat, target: nat) -> nat {
    if target >= q {
        q + (4 * (target - q) as nat) / 5
    } else {
        (q - (4 * (q - target) as nat) / 5) as nat
    }
}

/// The row of `s` in table `m`.
pub open spec fn row_of(m: Map<Seq<u8>, Seq<i64>>, s: Seq<u8>) -> Seq<i64> {
    if m.contains_key(s) {
        m[s]
    } else {
        zero_row()
    }
}

/// The best value of the row of `s`.
pub open spec fn best_value(m: Map<Seq<u8>, Seq<i64>>, s: Seq<u8>) -> nat {
    let row = row_of(m, s);
    row[first_argmax(row)] as nat
}

/// The row of `s` after learning that action `a` led to `s1` with `reward`.
pub open spec fn updated_row(
    m: Map<Seq<u8>, Seq<i64>>,
    s: Seq<u8>,
    a: int,
    reward: nat,
    s1: Seq<u8>,
) -> Seq<i64> {
    let row = row_of(m, s);
    row.update(a, updated_value(row[a] as nat, target_value(reward, best_value(m, s1))) as i64)
}

/// Each entry of `row` plus the matching entry of `noise`.
pub open spec fn add_noise(row: Seq<i64>, noise: Seq<i64>) -> Seq<i64> {
    Seq::new(row.len(), |j: int| (row[j] + noise[j]) as i64)
}

/// The greedy action in state `s` of table `m`: the first with the greatest
/// value in its row.
pub open spec fn greedy_choice(m: Map<Seq<u8>, Seq<i64>>, s: Seq<u8>) -> Action {
    index_action(first_argmax(row_of(m, s)) as nat).unwrap()
}

/// The action and the value chosen from `row` once `noise` is added: the
/// first greatest noisy value, and that value.
pub open spec fn noisy_pick(row: Seq<i64>, noise: Seq<i64>) -> (Action, i64) {
    let v = add_noise(row, noise);
    (index_action(first_argmax(v) as nat).unwrap(), v[first_argmax(v)])
}

/// Whether action `a` with value `value` is what exploring picks in state
/// `s` of table `m` for some noise below `NOISE_BOUND` on each value.
pub open spec fn noisy_choice_of(m: Map<Seq<u8>, Seq<i64>>, s: Seq<u8>, a: Action, value: i64) -> bool {
    exists|noise: Seq<i64>|
        noise.len() == 4 && (forall|j: int| 0 <= j < 4 ==> 0 <= #[trigger] noise[j] < NOISE_BOUND)
            && #[trigger] noisy_pick(row_of(m, s), noise) == (a, value)
}

/// `first_argmax` names an entry that no entry exceeds and that every
/// earlier entry falls short of.
pub proof fn lemma_first_argmax(v: Seq<i64>)
    requires
        v.len() > 0,
    ensures
        0 <= first_argmax(v) < v.len(),
        forall|j: int| 0 <= j < v.len() ==> #[trigger] v[j] <= v[first_argmax(v)],
        forall|j: int| 0 <= j < first_argmax(v) ==> #[trigger] v[j] < v[first_argmax(v)],
    decreases v.len(),
{
    if v.len() > 1 {
        let w = v.drop_last();
        lemma_first_argmax(w);
        assert forall|j: int| 0 <= j < w.len() implies w[j] == v[j] by {}
        let i = first_argmax(w);
        assert(w[i] == v[i]);
    }
}

pub open spec fn rows_bounded(row: Seq<i64>) -> bool {
    &&& row.len() == 4
    &&& forall|j: int| 0 <= j < 4 ==> 0 <= #[trigger] row[j] <= MAX_VALUE
}

/// Learning keeps values within `MAX_VALUE` when the values it reads and
/// the reward are within bounds.
proof fn lemma_update_bounded(q: nat, best: nat, reward: nat)
    requires
        q <= MAX_VALUE,
        best <= MAX_VALUE,
        reward <= MAX_REWARD,
    ensures
        updated_value(q, target_value(reward, best)) <= MAX_VALUE,
{
    let t = target_value(reward, best);
    assert((19 * best) / 20 <= 19 * MAX_VALUE / 20) by (nonlinear_arith)
        requires
            best <= MAX_VALUE,
    ;
    assert(t <= MAX_VALUE);
    if t >= q {
        assert((4 * (t - q) as nat) / 5 <= (t - q) as nat) by (nonlinear_arith);
    }
}

/// After learning from a transition out of `s`, the row of `s` is the
/// updated row, so the greedy choice there (asked any number of times, as
/// asking changes nothing) is the first greatest entry of that row. Only the
/// entry of the action taken has moved.
pub proof fn lemma_greedy_after_learning(
    m: Map<Seq<u8>, Seq<i64>>,
    s: Seq<u8>,
    a: int,
    reward: nat,
    s1: Seq<u8>,
)
    requires
        0 <= a < 4,
        m.contains_key(s) ==> m[s].len() == 4,
    ensures
        ({
            let up = updated_row(m, s, a, reward, s1);
            let m1 = m.insert(s, up);
            &&& row_of(m1, s) == up
            &&& first_argmax(row_of(m1, s)) == first_argmax(up)
            &&& up[a] == updated_value(
                row_of(m, s)[a] as nat,
                target_value(reward, best_value(m, s1)),
            ) as i64
            &&& forall|j: int| 0 <= j < 4 && j != a ==> #[trigger] up[j] == row_of(m, s)[j]
        }),
{
}

/// The tabular agent. Each state seen has a row of four values, one per
/// action in index order. States are held as a list of distinct keys beside
/// their rows, so that what the table holds can be stated as a map.
pub struct QTable {
    keys: Vec<Vec<u8>>,
    rows: Vec<Vec<i64>>,
}

impl View for QTable {
    type V = Map<Seq<u8>, Seq<i64>>;

    closed spec fn view(&self) -> Map<Seq<u8>, Seq<i64>> {
        Map::new(
            |s: Seq<u8>| exists|i: int| 0 <= i < self.keys@.len() && self.keys@[i]@ == s,
            |s: Seq<u8>|
                self.rows@[choose|i: int| 0 <= i < self.keys@.len() && self.keys@[i]@ == s]@,
        )
    }
}

fn same_bytes(a: &Vec<u8>, b: &Vec<u8>) -> (r: bool)
    ensures
        r == (a@ == b@),
{
    if a.len() != b.len() {
        return false;
    }
    let mut i: usize = 0;
    while i < a.len()
        invariant
            a@.len() == b@.len(),
            i <= a@.len(),
            forall|k: int| 0 <= k < i ==> a@[k] == b@[k],
        decreases a@.len() - i,
    {
        if a[i] != b[i] {
            return false;
        }
        i += 1;
    }
    assert(a@ =~= b@);
    true
}

/// The index of the first greatest entry of `v`, with that entry.
pub fn argmax(v: &Vec<i64>) -> (r: (usize, i64))
    requires
        v@.len() > 0,
    ensures
        r.0 == first_argmax(v@),
        r.1 == v@[first_argmax(v@)],
{
    let mut best: usize = 0;
    let mut j: usize = 1;
    assert(v@.take(1).len() == 1);
    while j < v.len()
        invariant
            1 <= j <= v@.len(),
            best == first_argmax(v@.take(j as int)),
            best < j,
        decreases v@.len() - j,
    {
        assert(v@.take(j as int + 1).drop_last() =~= v@.take(j as int));
        if v[j] > v[best] {
            best = j;
        }
        j += 1;
    }
    assert(v@.take(v@.len() as int) =~= v@);
    proof {
        lemma_first_argmax(v@);
    }
    (best, v[best])
}

/// The greedy action of a row with noise added: the first action whose
/// noisy value is greatest, with that value.
pub fn noisy_choice(row: &Vec<i64>, noise: &Vec<i64>) -> (r: (Action, i64))
    requires
        row@.len() == 4,
        noise@.len() == 4,
        forall|j: int| 0 <= j < 4 ==> 0 <= #[trigger] row@[j] <= MAX_VALUE && 0 <= noise@[j] < NOISE_BOUND,
    ensures
        r == noisy_pick(row@, noise@),
{
    let mut sum: Vec<i64> = Vec::new();
    let mut j: usize = 0;
    while j < 4
        invariant
            j <= 4,
            row@.len() == 4,
            noise@.len() == 4,
            forall|k: int| 0 <= k < 4 ==> 0 <= #[trigger] row@[k] <= MAX_VALUE && 0 <= noise@[k] < NOISE_BOUND,
            sum@ =~= add_noise(row@, noise@).take(j as int),
        decreases 4 - j,
    {
        sum.push(row[j] + noise[j]);
        j += 1;
        assert(sum@ =~= add_noise(row@, noise@).take(j as int));
    }
    assert(sum@ =~= add_noise(row@, noise@));
    let (i, v) = argmax(&sum);
    proof {
        lemma_first_argmax(sum@);
    }
    (Action::of_index(i), v)
}

impl QTable {
    closed spec fn inv(&self) -> bool {
        &&& self.keys@.len() == self.rows@.len()
        &&& forall|i: int| 0 <= i < self.rows@.len() ==> rows_bounded(#[trigger] self.rows@[i]@)
        &&& forall|i: int, j: int|
            0 <= i < j < self.keys@.len() ==> #[trigger] self.keys@[i]@ != #[trigger] self.keys@[j]@
    }

    /// Every stored row has four values within `MAX_VALUE`.
    pub closed spec fn well_formed(&self) -> bool {
        self.inv()
    }

    proof fn lemma_view_at(&self, i: int)
        requires
            self.inv(),
            0 <= i < self.keys@.len(),
        ensures
            self@.contains_key(self.keys@[i]@),
            self@[self.keys@[i]@] == self.rows@[i]@,
    {
        let s = self.keys@[i]@;
        assert(exists|k: int| 0 <= k < self.keys@.len() && self.keys@[k]@ == s);
        let c = choose|k: int| 0 <= k < self.keys@.len() && self.keys@[k]@ == s;
        if c != i {
            if c < i {
                assert(self.keys@[c]@ != self.keys@[i]@);
            } else {
                assert(self.keys@[i]@ != self.keys@[c]@);
            }
        }
    }

    proof fn lemma_rows_bounded(&self, s: Seq<u8>)
        requires
            self.inv(),
        ensures
            rows_bounded(row_of(self@, s)),
    {
        if self@.contains_key(s) {
            let c = choose|k: int| 0 <= k < self.keys@.len() && self.keys@[k]@ == s;
            self.lemma_view_at(c);
            assert(rows_bounded(self.rows@[c]@));
        }
    }

    /// An empty table.
    pub fn new() -> (r: QTable)
        ensures
            r.well_formed(),
            r@ == Map::<Seq<u8>, Seq<i64>>::empty(),
    {
        let r = QTable { keys: Vec::new(), rows: Vec::new() };
        assert(r@ =~= Map::<Seq<u8>, Seq<i64>>::empty());
        r
    }

    fn find(&self, s: &Vec<u8>) -> (r: Option<usize>)
        requires
            self.inv(),
        ensures
            r matches Some(i) ==> i < self.keys@.len() && self.keys@[i as int]@ == s@,
            r is None ==> !self@.contains_key(s@),
    {
        let mut i: usize = 0;
        while i < self.keys.len()
            invariant
                i <= self.keys@.len(),
                forall|k: int| 0 <= k < i ==> self.keys@[k]@ != s@,
            decreases self.keys@.len() - i,
        {
            if same_bytes(&self.keys[i], s) {
                return Some(i);
            }
            i += 1;
        }
        None
    }

    /// The row of values of `s`; zeros for a state not seen yet.
    pub fn row(&self, s: &Vec<u8>) -> (r: Vec<i64>)
        requires
            self.well_formed(),
        ensures
            r@ == row_of(self@, s@),
            rows_bounded(r@),
    {
        proof {
            self.lemma_rows_bounded(s@);
        }
        match self.find(s) {
            Some(i) => {
                proof {
                    self.lemma_view_at(i as int);
                    assert(rows_bounded(self.rows@[i as int]@));
                }
                let row = &self.rows[i];
                let r = vec![row[0], row[1], row[2], row[3]];
                assert(r@ =~= row_of(self@, s@));
                r
            },
            None => {
                let r = vec![0i64, 0i64, 0i64, 0i64];
                assert(r@ =~= zero_row());
                r
            },
        }
    }

    /// The greedy action in `state`, with the value that chose it.
    pub fn greedy_action(&self, state: &GameState) -> (r: (Action, i64))
        requires
            self.well_formed(),
        ensures
            r.0 == crate::action::index_action(
                first_argmax(row_of(self@, state.arr@)) as nat,
            ).unwrap(),
            r.1 == best_value(self@, state.arr@),
    {
        let row = self.row(&state.arr);
        let i = argmax(&row).0;
        proof {
            lemma_first_argmax(row@);
        }
        (Action::of_index(i), row[i])
    }

    /// The action in `state` when exploring: each value gets a noise drawn
    /// below `NOISE_BOUND` before the first greatest is taken.
    pub fn exploring_action(&self, rng: &mut rand::rngs::StdRng, state: &GameState) -> (r: (Action, i64))
        requires
            self.well_formed(),
        ensures
            noisy_choice_of(self@, state.arr@, r.0, r.1),
    {
        let row = self.row(&state.arr);
        let mut noise: Vec<i64> = Vec::new();
        let mut j: usize = 0;
        while j < 4
            invariant
                j <= 4,
                noise@.len() == j,
                forall|k: int| 0 <= k < j ==> 0 <= #[trigger] noise@[k] < NOISE_BOUND,
            decreases 4 - j,
        {
            let d = below(rng, NOISE_BOUND as usize);
            noise.push(d as i64);
            j += 1;
        }
        noisy_choice(&row, &noise)
    }

    /// Learns from one transition by the one-step Q-learning rule: the value
    /// of `action` in `state` moves four fifths of the way towards the reward
    /// plus 19/20 of the best value of `next_state`. Nothing else changes.
    pub fn learn(&mut self, state: GameState, action: Action, next_state: &GameState, reward: usize)
        requires
            old(self).well_formed(),
            reward <= MAX_REWARD,
        ensures
            final(self).well_formed(),
            final(self)@ == old(self)@.insert(
                state.arr@,
                updated_row(
                    old(self)@,
                    state.arr@,
                    crate::action::action_index(action) as int,
                    reward as nat,
                    next_state.arr@,
                ),
            ),
    {
        let ghost m = self@;
        let row = self.row(&state.arr);
        let next_row = self.row(&next_state.arr);
        let bi = argmax(&next_row).0;
        proof {
            lemma_first_argmax(next_row@);
        }
        let best = next_row[bi];
        let a = action.index();
        let q = row[a];
        proof {
            lemma_update_bounded(q as nat, best as nat, reward as nat);
        }
        let target = (reward as i64) * VALUE_SCALE + (19 * best) / 20;
        let value = if target >= q {
            q + (4 * (target - q)) / 5
        } else {
            q - (4 * (q - target)) / 5
        };
        let mut new_row = row;
        new_row.set(a, value);
        let ghost new_view = new_row@;
        assert(new_view == updated_row(m, state.arr@, a as int, reward as nat, next_state.arr@));
        assert(rows_bounded(new_view));
        let key = state.arr;
        match self.find(&key) {
            Some(i) => {
                let ghost old_self = *self;
                proof {
                    old_self.lemma_view_at(i as int);
                }
                self.rows.set(i, new_row);
                assert(self.keys@ == old_self.keys@);
                assert forall|s: Seq<u8>| #[trigger] self@.contains_key(s) == m.insert(key@, new_view).contains_key(s) by {
                    if s == key@ {
                        self.lemma_view_at(i as int);
                    } else if m.contains_key(s) {
                        let c = choose|k: int| 0 <= k < old_self.keys@.len() && old_self.keys@[k]@ == s;
                        self.lemma_view_at(c);
                    } else if self@.contains_key(s) {
                        let c = choose|k: int| 0 <= k < self.keys@.len() && self.keys@[k]@ == s;
                        old_self.lemma_view_at(c);
                    }
                }
                assert forall|s: Seq<u8>| #[trigger] self@.contains_key(s) implies self@[s] == m.insert(key@, new_view)[s] by {
                    let c = choose|k: int| 0 <= k < self.keys@.len() && self.keys@[k]@ == s;
                    self.lemma_view_at(c);
                    old_self.lemma_view_at(c);
                }
                assert(self@ =~= m.insert(key@, new_view));
            },
            None => {
                let ghost old_self = *self;
                self.keys.push(key);
                self.rows.push(new_row);
                let ghost n = old_self.keys@.len() as int;
                assert(self.keys@[n]@ == key@);
                assert forall|i: int, j: int|
                    0 <= i < j < self.keys@.len() implies #[trigger] self.keys@[i]@ != #[trigger] self.keys@[j]@ by {
                    if j == n {
                        assert(old_self.keys@[i] == self.keys@[i]);
                        if self.keys@[i]@ == key@ {
                            old_self.lemma_view_at(i);
                        }
                    } else {
                        assert(old_self.keys@[i] == self.keys@[i]);
                        assert(old_self.keys@[j] == self.keys@[j]);
                    }
                }
                assert forall|i: int| 0 <= i < self.rows@.len() implies rows_bounded(#[trigger] self.rows@[i]@) by {
                    if i < n {
                        assert(old_self.rows@[i] == self.rows@[i]);
                    }
                }
                assert forall|s: Seq<u8>| #[trigger] self@.contains_key(s) == m.insert(key@, new_view).contains_key(s) by {
                    if s == key@ {
                        self.lemma_view_at(n);
                    } else if m.contains_key(s) {
                        let c = choose|k: int| 0 <= k < old_self.keys@.len() && old_self.keys@[k]@ == s;
                        assert(self.keys@[c] == old_self.keys@[c]);
                        self.lemma_view_at(c);
                    } else if self@.contains_key(s) {
                        let c = choose|k: int| 0 <= k < self.keys@.len() && self.keys@[k]@ == s;
                        assert(c != n);
                        assert(self.keys@[c] == old_self.keys@[c]);
                        old_self.lemma_view_at(c);
                    }
                }
                assert forall|s: Seq<u8>| #[trigger] self@.contains_key(s) implies self@[s] == m.insert(key@, new_view)[s] by {
                    let c = choose|k: int| 0 <= k < self.keys@.len() && self.keys@[k]@ == s;
                    self.lemma_view_at(c);
                    if c < n {
                        assert(self.keys@[c] == old_self.keys@[c]);
                        assert(self.rows@[c] == old_self.rows@[c]);
                        old_self.lemma_view_at(c);
                    }
                }
                assert(self@ =~= m.insert(key@, new_view));
            },
        }
    }
}

impl Network for QTable {
    open spec fn wf(&self) -> bool {
        self.well_formed()
    }

    /// Choosing leaves the table as it is; the choice is the greedy one with
    /// its value, or when exploring the greedy one after some noise below
    /// `NOISE_BOUND`, with its noisy value.
    open spec fn picks(&self, after: Self, explore: bool, state: GameState, a: Action, value: i64) -> bool {
        &&& after@ == self@
        &&& !explore ==> a == greedy_choice(self@, state.arr@) && value == best_value(self@, state.arr@)
        &&& explore ==> noisy_choice_of(self@, state.arr@, a, value)
    }

    /// Learning replaces the row of `state` by the updated row and reports
    /// nothing.
    open spec fn learns(
        &self,
        after: Self,
        state: GameState,
        action: Action,
        next_state: GameState,
        reward: usize,
        done: bool,
        m: Metrics,
    ) -> bool {
        &&& after@ == self@.insert(
            state.arr@,
            updated_row(self@, state.arr@, action_index(action) as int, reward as nat, next_state.arr@),
        )
        &&& m.annotations@.len() == 0
    }

    fn next_action(
        &mut self,
        rng: &mut rand::rngs::StdRng,
        explore: bool,
        state: &GameState,
    ) -> (r: (Action, i64))
        ensures
            final(self)@ == old(self)@,
            !explore ==> r.0 == greedy_choice(old(self)@, state.arr@) && r.1 == best_value(
                old(self)@,
                state.arr@,
            ),
            explore ==> noisy_choice_of(old(self)@, state.arr@, r.0, r.1),
    {
        if explore {
            self.exploring_action(rng, state)
        } else {
            self.greedy_action(state)
        }
    }

    fn result(
        &mut self,
        rng: &mut rand::rngs::StdRng,
        state: GameState,
        action: Action,
        next_state: &GameState,
        reward: usize,
        done: bool,
    ) -> (r: Metrics)
        ensures
            final(self)@ == old(self)@.insert(
                state.arr@,
                updated_row(
                    old(self)@,
                    state.arr@,
                    action_index(action) as int,
                    reward as nat,
                    next_state.arr@,
                ),
            ),
            r.annotations@.len() == 0,
    {
        self.learn(state, action, next_state, reward);
        Metrics::new()
    }
}

} // verus!
