use vstd::prelude::*;

use crate::config::PoolConfig;

verus! {

/// Where a handle stands in an acquisition. The pool's reaction to the
/// handle going out of scope depends on it.
#[derive(PartialEq, Eq, Structural, Clone, Copy, Debug)]
pub enum ObjectState {
    /// Registered as a waiter; no resource attached.
    New,
    /// A creation slot is reserved and `create` is in flight.
    Creating,
    /// A resource was taken from the queue and `recycle` is in flight.
    Recycling,
    /// The resource is validated and handed to the caller.
    Ready,
}

/// What an acquirer has to do next.
#[derive(PartialEq, Eq, Structural, Clone, Copy, Debug)]
pub enum Action {
    /// A creation slot was reserved: call the manager's `create`.
    Create,
    /// Wait for a slot to arrive in the queue.
    Wait,
}

/// The result of looking at the head of the queue.
pub enum Taken<T> {
    /// The queue is empty: keep waiting.
    Empty,
    /// A returned resource, now to be recycled.
    Resource(T),
    /// A tombstone was consumed; the acquirer goes on with the given action.
    Retry(Action),
}

/// A snapshot of the two counters.
#[derive(PartialEq, Eq, Structural, Clone, Copy, Debug)]
pub struct Status {
    /// Number of resources the pool has caused to exist and not destroyed.
    pub size: usize,
    /// When non-negative, the number of slots in the queue; when negative,
    /// minus the number of waiting acquirers.
    pub available: isize,
}

/// The mathematical state of a pool.
pub struct PoolView<T> {
    pub config: PoolConfig,
    pub max_size: nat,
    pub size: nat,
    pub available: int,
    /// Returned resources (`Some`) and tombstones (`None`), oldest first.
    pub queue: Seq<Option<T>>,
    /// Handles in state `New`.
    pub waiting: nat,
    /// Handles in state `Creating`.
    pub creating: nat,
    /// Handles in state `Recycling`.
    pub recycling: nat,
    /// Handles in state `Ready`.
    pub ready: nat,
}

impl<T> PoolView<T> {
    /// The counters agree with the queue and with the handles that exist.
    pub open spec fn wf(self) -> bool {
        &&& 0 < self.max_size <= isize::MAX
        &&& self.max_size == self.config.max_size
        &&& self.size <= self.max_size
        &&& self.size == self.queue.len() + self.creating + self.recycling + self.ready
        &&& self.available == self.queue.len() - self.waiting
        &&& self.waiting <= isize::MAX
    }

    /// The number of handles of the given state.
    pub open spec fn count(self, state: ObjectState) -> nat {
        match state {
            ObjectState::New => self.waiting,
            ObjectState::Creating => self.creating,
            ObjectState::Recycling => self.recycling,
            ObjectState::Ready => self.ready,
        }
    }
}

/// An empty pool with the given configuration.
pub open spec fn empty_spec<T>(config: PoolConfig) -> PoolView<T> {
    PoolView {
        config,
        max_size: config.max_size as nat,
        size: 0,
        available: 0,
        queue: Seq::empty(),
        waiting: 0,
        creating: 0,
        recycling: 0,
        ready: 0,
    }
}

/// A waiter decides: with no slot left for it in the queue and room under the
/// cap, it turns its waiter place into a creation slot; otherwise it waits.
pub open spec fn decide_spec<T>(v: PoolView<T>) -> (PoolView<T>, Action) {
    if v.available < 0 && v.size < v.max_size {
        (
            PoolView {
                size: v.size + 1,
                available: v.available + 1,
                waiting: (v.waiting - 1) as nat,
                creating: v.creating + 1,
                ..v
            },
            Action::Create,
        )
    } else {
        (v, Action::Wait)
    }
}

/// An acquisition starts: one more waiter, then the decision.
pub open spec fn begin_spec<T>(v: PoolView<T>) -> (PoolView<T>, Action) {
    decide_spec(PoolView { available: v.available - 1, waiting: v.waiting + 1, ..v })
}

/// A waiter looks at the head of the queue.
pub open spec fn take_spec<T>(v: PoolView<T>) -> (PoolView<T>, Taken<T>) {
    if v.queue.len() == 0 {
        (v, Taken::Empty)
    } else {
        match v.queue[0] {
            Some(r) => (
                PoolView {
                    queue: v.queue.drop_first(),
                    waiting: (v.waiting - 1) as nat,
                    recycling: v.recycling + 1,
                    ..v
                },
                Taken::Resource(r),
            ),
            None => {
                let w = PoolView {
                    queue: v.queue.drop_first(),
                    size: (v.size - 1) as nat,
                    available: v.available - 1,
                    ..v
                };
                (decide_spec(w).0, Taken::Retry(decide_spec(w).1))
            },
        }
    }
}

/// `create` succeeded: the handle becomes ready.
pub open spec fn created_spec<T>(v: PoolView<T>) -> PoolView<T> {
    PoolView { creating: (v.creating - 1) as nat, ready: v.ready + 1, ..v }
}

/// `recycle` accepted the resource: the handle becomes ready.
pub open spec fn recycled_spec<T>(v: PoolView<T>) -> PoolView<T> {
    PoolView { recycling: (v.recycling - 1) as nat, ready: v.ready + 1, ..v }
}

/// `recycle` rejected the resource: it is destroyed, the handle is a waiter
/// again, and decides anew.
pub open spec fn rejected_spec<T>(v: PoolView<T>) -> (PoolView<T>, Action) {
    decide_spec(
        PoolView {
            size: (v.size - 1) as nat,
            available: v.available - 1,
            recycling: (v.recycling - 1) as nat,
            waiting: v.waiting + 1,
            ..v
        },
    )
}

/// A handle of the given state goes out of scope, holding `obj`.
pub open spec fn release_spec<T>(v: PoolView<T>, state: ObjectState, obj: Option<T>) -> PoolView<
    T,
> {
    match state {
        ObjectState::New => PoolView {
            available: v.available + 1,
            waiting: (v.waiting - 1) as nat,
            ..v
        },
        ObjectState::Creating => PoolView {
            size: (v.size - 1) as nat,
            creating: (v.creating - 1) as nat,
            ..v
        },
        ObjectState::Recycling => PoolView {
            available: v.available + 1,
            queue: v.queue.push(None),
            recycling: (v.recycling - 1) as nat,
            ..v
        },
        ObjectState::Ready => PoolView {
            available: v.available + 1,
            queue: v.queue.push(obj),
            ready: (v.ready - 1) as nat,
            ..v
        },
    }
}

/// The shared state of an object pool: its configuration, the queue of
/// returned resources and the counters, with the number of handles in each
/// state. Callers serialise access to it; the manager's calls and all
/// waiting happen outside.
pub struct Pool<T> {
    config: PoolConfig,
    size: usize,
    available: isize,
    queue: std::collections::VecDeque<Option<T>>,
    waiting: usize,
    creating: usize,
    recycling: usize,
    ready: usize,
}

impl<T> View for Pool<T> {
    type V = PoolView<T>;

    closed spec fn view(&self) -> PoolView<T> {
        PoolView {
            config: self.config,
            max_size: self.config.max_size as nat,
            size: self.size as nat,
            available: self.available as int,
            queue: self.queue@,
            waiting: self.waiting as nat,
            creating: self.creating as nat,
            recycling: self.recycling as nat,
            ready: self.ready as nat,
        }
    }
}

impl<T> Pool<T> {
    /// A pool with the given cap and no time budgets. Performs no I/O.
    pub fn new(max_size: usize) -> (r: Pool<T>)
        requires
            0 < max_size <= isize::MAX,
        ensures
            r@ == empty_spec::<T>(r@.config),
            r@.config.max_size == max_size,
            r@.config.create_timeout is None,
            r@.config.wait_timeout is None,
            r@.config.recycle_timeout is None,
            r@.wf(),
    {
        Self::from_config(PoolConfig::new(max_size))
    }

    /// A pool with the given configuration. Performs no I/O.
    pub fn from_config(config: PoolConfig) -> (r: Pool<T>)
        requires
            0 < config.max_size <= isize::MAX,
        ensures
            r@ == empty_spec::<T>(config),
            r@.wf(),
    {
        let r = Pool {
            config,
            size: 0,
            available: 0,
            queue: std::collections::VecDeque::new(),
            waiting: 0,
            creating: 0,
            recycling: 0,
            ready: 0,
        };
        assert(r@.queue =~= Seq::<Option<T>>::empty());
        r
    }

    /// The configuration the pool was made with.
    pub fn config(&self) -> (r: &PoolConfig)
        ensures
            *r == self@.config,
    {
        &self.config
    }

    /// The two counters.
    pub fn status(&self) -> (r: Status)
        ensures
            r.size == self@.size,
            r.available == self@.available,
    {
        Status { size: self.size, available: self.available }
    }

    /// The number of handles of the given state.
    pub fn count(&self, state: ObjectState) -> (r: usize)
        ensures
            r == self@.count(state),
    {
        match state {
            ObjectState::New => self.waiting,
            ObjectState::Creating => self.creating,
            ObjectState::Recycling => self.recycling,
            ObjectState::Ready => self.ready,
        }
    }

    fn decide(&mut self) -> (r: Action)
        requires
            old(self)@.wf(),
            old(self)@.waiting > 0,
        ensures
            (final(self)@, r) == decide_spec(old(self)@),
            final(self)@.wf(),
    {
        if self.available < 0 && self.size < self.config.max_size {
            self.size = self.size + 1;
            self.available = self.available + 1;
            self.waiting = self.waiting - 1;
            self.creating = self.creating + 1;
            Action::Create
        } else {
            Action::Wait
        }
    }

    /// Starts an acquisition: the caller registers as a waiter, then either
    /// reserves a creation slot or is told to wait for a returned resource.
    pub fn begin_get(&mut self) -> (r: Action)
        requires
            old(self)@.wf(),
            old(self)@.waiting < isize::MAX,
        ensures
            (final(self)@, r) == begin_spec(old(self)@),
            final(self)@.wf(),
    {
        self.available = self.available - 1;
        self.waiting = self.waiting + 1;
        self.decide()
    }

    /// A waiter takes the slot at the head of the queue, if there is one. A
    /// resource moves to the caller, who recycles it; a tombstone stands for
    /// a destroyed resource and is absorbed, and the waiter decides anew.
    pub fn take(&mut self) -> (r: Taken<T>)
        requires
            old(self)@.wf(),
            old(self)@.waiting > 0,
        ensures
            (final(self)@, r) == take_spec(old(self)@),
            final(self)@.wf(),
    {
        match self.queue.pop_front() {
            None => Taken::Empty,
            Some(Some(obj)) => {
                self.waiting = self.waiting - 1;
                self.recycling = self.recycling + 1;
                Taken::Resource(obj)
            },
            Some(None) => {
                self.size = self.size - 1;
                self.available = self.available - 1;
                let a = self.decide();
                Taken::Retry(a)
            },
        }
    }

    /// The manager created a resource for a handle in state `Creating`.
    pub fn create_succeeded(&mut self)
        requires
            old(self)@.wf(),
            old(self)@.creating > 0,
        ensures
            final(self)@ == created_spec(old(self)@),
            final(self)@.wf(),
    {
        self.creating = self.creating - 1;
        self.ready = self.ready + 1;
    }

    /// The manager accepted the resource of a handle in state `Recycling`.
    pub fn recycle_succeeded(&mut self)
        requires
            old(self)@.wf(),
            old(self)@.recycling > 0,
        ensures
            final(self)@ == recycled_spec(old(self)@),
            final(self)@.wf(),
    {
        self.recycling = self.recycling - 1;
        self.ready = self.ready + 1;
    }

    /// The manager rejected the resource of a handle in state `Recycling`:
    /// the resource is destroyed and the handle, a waiter again, decides anew.
    pub fn recycle_failed(&mut self) -> (r: Action)
        requires
            old(self)@.wf(),
            old(self)@.recycling > 0,
            old(self)@.waiting < isize::MAX,
        ensures
            (final(self)@, r) == rejected_spec(old(self)@),
            final(self)@.wf(),
    {
        self.size = self.size - 1;
        self.available = self.available - 1;
        self.recycling = self.recycling - 1;
        self.waiting = self.waiting + 1;
        self.decide()
    }

    /// A handle of the given state goes out of scope with `obj`. A waiter
    /// gives back its place; a reserved creation slot is freed; a resource
    /// whose recycling was cut short is destroyed and leaves a tombstone so
    /// that parked waiters are not stranded; a ready resource is queued for
    /// reuse.
    pub fn release(&mut self, state: ObjectState, obj: Option<T>)
        requires
            old(self)@.wf(),
            old(self)@.count(state) > 0,
            state == ObjectState::Ready ==> obj is Some,
        ensures
            final(self)@ == release_spec(old(self)@, state, obj),
            final(self)@.wf(),
    {
        match state {
            ObjectState::New => {
                self.available = self.available + 1;
                self.waiting = self.waiting - 1;
            },
            ObjectState::Creating => {
                self.size = self.size - 1;
                self.creating = self.creating - 1;
            },
            ObjectState::Recycling => {
                self.available = self.available + 1;
                self.queue.push_back(None);
                self.recycling = self.recycling - 1;
            },
            ObjectState::Ready => {
                self.available = self.available + 1;
                self.queue.push_back(obj);
                self.ready = self.ready - 1;
            },
        }
    }
}

} // verus!
