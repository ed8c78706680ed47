//! The four moves an agent can make, and their stable numbering.
use vstd::prelude::*;

verus! {

/// A move of the agent by one cell.
#[derive(Debug, Clone, Copy, PartialEq, Eq, Structural)]
pub enum Action {
    Up,
    Right,
    Down,
    Left,
}

/// The number of distinct actions.
pub const ACTION_COUNT: usize = 4;

/// The stable index of an action: `Up` 0, `Right` 1, `Down` 2, `Left` 3.
pub open spec fn action_index(a: Action) -> nat {
    match a {
        Action::Up => 0,
        Action::Right => 1,
        Action::Down => 2,
        Action::Left => 3,
    }
}

/// The action with a given index; only indices below 4 name an action.
pub open spec fn index_action(i: nat) -> Option<Action> {
    if i == 0 {
        Some(Action::Up)
    } else if i == 1 {
        Some(Action::Right)
    } else if i == 2 {
        Some(Action::Down)
    } else if i == 3 {
        Some(Action::Left)
    } else {
        None
    }
}

/// The name under which an action is reported.
pub open spec fn action_name(a: Action) -> Seq<char> {
    match a {
        Action::Up => "Up"@,
        Action::Right => "Right"@,
        Action::Down => "Down"@,
        Action::Left => "Left"@,
    }
}

/// The one-hot encoding of an action: a 1 at its index and 0 elsewhere.
pub open spec fn one_hot(a: Action) -> Seq<u8> {
    Seq::new(4, |j: int| if j == action_index(a) { 1u8 } else { 0u8 })
}

impl Action {
    /// Every action, in index order.
    pub fn all() -> (r: Vec<Action>)
        ensures
            r@ == seq![Action::Up, Action::Right, Action::Down, Action::Left],
            forall|i: int| 0 <= i < 4 ==> action_index(#[trigger] r@[i]) == i,
    {
        vec![Action::Up, Action::Right, Action::Down, Action::Left]
    }

    /// The index of this action.
    pub fn index(&self) -> (r: usize)
        ensures
            r == action_index(*self),
            r < ACTION_COUNT,
    {
        match self {
            Action::Up => 0,
            Action::Right => 1,
            Action::Down => 2,
            Action::Left => 3,
        }
    }

    /// The action with index `i`, or `None` when `i` is 4 or more.
    pub fn from_index(i: usize) -> (r: Option<Action>)
        ensures
            r == index_action(i as nat),
            r is Some <==> i < ACTION_COUNT,
            r matches Some(a) ==> action_index(a) == i,
    {
        match i {
            0 => Some(Action::Up),
            1 => Some(Action::Right),
            2 => Some(Action::Down),
            3 => Some(Action::Left),
            _ => None,
        }
    }

    /// The action with index `i`, which must be below 4: an index from 4 on
    /// names no action, and asking for one is a programming error.
    pub fn of_index(i: usize) -> (r: Action)
        requires
            i < ACTION_COUNT,
        ensures
            index_action(i as nat) == Some(r),
            action_index(r) == i,
    {
        match i {
            0 => Action::Up,
            1 => Action::Right,
            2 => Action::Down,
            _ => Action::Left,
        }
    }

    /// The one-hot vector of this action.
    pub fn vec(&self) -> (r: Vec<u8>)
        ensures
            r@ == one_hot(*self),
    {
        let k = self.index();
        let mut r: Vec<u8> = Vec::new();
        let mut j: usize = 0;
        while j < ACTION_COUNT
            invariant
                j <= ACTION_COUNT,
                k == action_index(*self),
                r@.len() == j,
                forall|m: int| 0 <= m < j ==> r@[m] == (if m == k { 1u8 } else { 0u8 }),
            decreases ACTION_COUNT - j,
        {
            if j == k {
                r.push(1);
            } else {
                r.push(0);
            }
            j += 1;
        }
        assert(r@ =~= one_hot(*self));
        r
    }

    /// The name of this action, as shown to users.
    pub fn name(&self) -> (r: String)
        ensures
            r@ == action_name(*self),
    {
        match self {
            Action::Up => "Up".to_owned(),
            Action::Right => "Right".to_owned(),
            Action::Down => "Down".to_owned(),
            Action::Left => "Left".to_owned(),
        }
    }
}

/// Converting an action to its index and back gives the same action, and no
/// index from 4 on names an action.
pub proof fn lemma_index_round_trip(a: Action, i: nat)
    ensures
        index_action(action_index(a)) == Some(a),
        i >= 4 ==> index_action(i) is None,
        i < 4 ==> (index_action(i) matches Some(b) && action_index(b) == i),
{
}

} // verus!
