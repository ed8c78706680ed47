//! The bookkeeping of the neural agent: a bounded experience-replay buffer,
//! minibatch sampling, and the schedule on which the target parameters are
//! refreshed from the online ones.
//!
//! The parameters themselves are not held here. Each set is named by a
//! version: the online version moves on with every training step, and the
//! target version is set to it at every refresh.
use vstd::prelude::*;

use crate::network::{next_count, Metrics};
use crate::rng::below;

verus! {

/// How many steps lie between two refreshes of the target parameters,
/// unless the agent's parameters set another number.
pub const DEFAULT_SYNC_INTERVAL: usize = 300;

/// The buffer after one more experience: `e` appended, and the oldest left
/// out when that would pass the capacity.
pub open spec fn pushed<T>(b: Seq<T>, e: T, capacity: nat) -> Seq<T> {
    if b.push(e).len() > capacity {
        b.push(e).drop_first()
    } else {
        b.push(e)
    }
}

/// The buffer after a run of experiences, in order.
pub open spec fn pushed_all<T>(b: Seq<T>, es: Seq<T>, capacity: nat) -> Seq<T>
    decreases es.len(),
{
    if es.len() == 0 {
        b
    } else {
        pushed(pushed_all(b, es.drop_last(), capacity), es.last(), capacity)
    }
}

/// However many experiences are recorded, a buffer that starts within a
/// capacity of at least one stays within it.
pub proof fn lemma_buffer_stays_bounded<T>(b: Seq<T>, es: Seq<T>, capacity: nat)
    requires
        capacity >= 1,
        b.len() <= capacity,
    ensures
        pushed_all(b, es, capacity).len() <= capacity,
    decreases es.len(),
{
    if es.len() > 0 {
        lemma_buffer_stays_bounded(b, es.drop_last(), capacity);
    }
}

/// `m1` is `m0` after recording experience `e`, where `done` tells whether
/// `e` ended an episode, and `r` is the plan of that step.
pub open spec fn recorded<T>(
    m0: ReplayMemory<T>,
    m1: ReplayMemory<T>,
    e: T,
    done: bool,
    r: ReplayPlan,
) -> bool {
    let train = m1.buffer@.len() == m1.capacity && m1.minibatch_size > 0;
    &&& m1.wf()
    &&& m1.buffer@ == pushed(m0.buffer@, e, m0.capacity as nat)
    &&& m1.capacity == m0.capacity
    &&& m1.minibatch_size == m0.minibatch_size
    &&& m1.sync_interval == m0.sync_interval
    &&& r.batch@.len() == if train { m1.minibatch_size as int } else { 0 }
    &&& forall|k: int| 0 <= k < r.batch@.len() ==> #[trigger] r.batch@[k] < m1.buffer@.len()
    &&& m1.online_version == if train { next_count(m0.online_version) } else { m0.online_version }
    &&& r.sync_target == (m0.step % m0.sync_interval == 0)
    &&& r.sync_target ==> m1.target_version == m1.online_version
    &&& !r.sync_target ==> m1.target_version == m0.target_version
    &&& r.episode_ended == done
    &&& m1.episode == if done { next_count(m0.episode) } else { m0.episode }
    &&& m1.step == next_count(m0.step)
    &&& r.metrics.annotations@.len() == if m0.buffer@.len() + 1 == m0.capacity { 1int } else { 0 }
}

/// Whatever is recorded, the buffer stays within its capacity and grows by
/// one until full; on a refresh step the target parameters equal the online
/// ones after training, and on any other step they stay as they were.
pub proof fn lemma_record_keeps_laws<T>(
    m0: ReplayMemory<T>,
    m1: ReplayMemory<T>,
    e: T,
    done: bool,
    r: ReplayPlan,
)
    requires
        m0.wf(),
        recorded(m0, m1, e, done, r),
    ensures
        m1.buffer@.len() <= m1.capacity,
        m1.buffer@.len() == if m0.buffer@.len() + 1 <= m0.capacity {
            m0.buffer@.len() + 1
        } else {
            m0.capacity as nat
        },
        m1.buffer@.last() == e,
        m0.step % m0.sync_interval == 0 ==> m1.target_version == m1.online_version,
        m0.step % m0.sync_interval != 0 ==> m1.target_version == m0.target_version,
{
}

/// What one recorded step asks of the agent.
#[derive(Debug)]
pub struct ReplayPlan {
    /// Buffer positions of the minibatch to train on, drawn with
    /// replacement; empty when no training is due.
    pub batch: Vec<usize>,
    /// Whether the target parameters are to be refreshed from the online
    /// ones after training.
    pub sync_target: bool,
    /// Whether this step ended an episode, so that the schedules move on.
    pub episode_ended: bool,
    pub metrics: Metrics,
}

/// A bounded buffer of experiences and the counters of the training
/// schedule.
#[derive(Debug)]
pub struct ReplayMemory<T> {
    pub buffer: Vec<T>,
    pub capacity: usize,
    pub minibatch_size: usize,
    pub sync_interval: usize,
    /// Steps recorded so far.
    pub step: usize,
    /// Episodes ended so far.
    pub episode: usize,
    pub online_version: usize,
    pub target_version: usize,
}

impl<T> ReplayMemory<T> {
    /// The invariant: a positive capacity and interval, and a buffer within
    /// the capacity.
    pub open spec fn wf(&self) -> bool {
        &&& self.capacity >= 1
        &&& self.sync_interval >= 1
        &&& self.buffer@.len() <= self.capacity
    }

    /// An empty memory. Both parameter sets start out the same.
    pub fn new(capacity: usize, minibatch_size: usize, sync_interval: usize) -> (r: ReplayMemory<T>)
        requires
            capacity >= 1,
            sync_interval >= 1,
        ensures
            r.wf(),
            r.buffer@.len() == 0,
            r.capacity == capacity,
            r.minibatch_size == minibatch_size,
            r.sync_interval == sync_interval,
            r.step == 0,
            r.episode == 0,
            r.online_version == r.target_version,
    {
        ReplayMemory {
            buffer: Vec::new(),
            capacity,
            minibatch_size,
            sync_interval,
            step: 0,
            episode: 0,
            online_version: 0,
            target_version: 0,
        }
    }

    /// The number of experiences held.
    pub fn len(&self) -> (r: usize)
        ensures
            r == self.buffer@.len(),
    {
        self.buffer.len()
    }

    /// The experience at position `i`, the oldest first.
    pub fn get(&self, i: usize) -> (r: &T)
        requires
            i < self.buffer@.len(),
        ensures
            *r == self.buffer@[i as int],
    {
        &self.buffer[i]
    }

    /// Records one experience and plans the step. The buffer drops its
    /// oldest experience when full. Once it holds `capacity` experiences a
    /// minibatch of `minibatch_size` positions is drawn, with replacement, and
    /// training moves the online version on. Every `sync_interval` steps,
    /// counting the first, the target version takes the online one; between
    /// such steps it stays. A step with `done` ends an episode.
    pub fn record(&mut self, rng: &mut rand::rngs::StdRng, e: T, done: bool) -> (r: ReplayPlan)
        requires
            old(self).wf(),
        ensures
            recorded(*old(self), *final(self), e, done, r),
    {
        let mut metrics = Metrics::new();
        if self.buffer.len() == self.capacity - 1 {
            metrics.annotations.push("Experience buffer full".to_owned());
        }
        let ghost before = self.buffer@;
        self.buffer.push(e);
        if self.buffer.len() > self.capacity {
            self.buffer.remove(0);
            assert(self.buffer@ =~= before.push(e).drop_first());
        }
        let mut batch: Vec<usize> = Vec::new();
        if self.buffer.len() >= self.capacity && self.minibatch_size > 0 {
            let n = self.buffer.len();
            let mut k: usize = 0;
            while k < self.minibatch_size
                invariant
                    n == self.buffer@.len(),
                    n >= 1,
                    k <= self.minibatch_size,
                    batch@.len() == k,
                    forall|j: int| 0 <= j < k ==> #[trigger] batch@[j] < n,
                decreases self.minibatch_size - k,
            {
                batch.push(below(rng, n));
                k += 1;
            }
            if self.online_version < usize::MAX {
                self.online_version = self.online_version + 1;
            }
        }
        let sync_target = self.step % self.sync_interval == 0;
        if sync_target {
            self.target_version = self.online_version;
        }
        if done && self.episode < usize::MAX {
            self.episode = self.episode + 1;
        }
        if self.step < usize::MAX {
            self.step = self.step + 1;
        }
        ReplayPlan { batch, sync_target, episode_ended: done, metrics }
    }
}

} // verus!
