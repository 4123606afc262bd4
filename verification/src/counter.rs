use vstd::prelude::*;

use crate::env::Env;

verus! {

/// A counter of references. The count lives in the environment's shared
/// counts, so clones of a counter share one count.
#[derive(Clone, Copy, Debug)]
pub struct Counter {
    slot: usize,
}

impl Counter {
    /// The slot of the shared count.
    pub closed spec fn slot(&self) -> usize {
        self.slot
    }

    /// The current count in `env`.
    pub open spec fn count(&self, env: &Env) -> usize {
        env.external_counts()[self.slot() as int]
    }

    /// The count of the counter lives in `env`.
    pub open spec fn belongs_to(&self, env: &Env) -> bool {
        self.slot() < env.external_counts().len()
    }

    /// A counter starting at `i`.
    pub fn new(env: &mut Env, i: usize) -> (r: Self)
        requires
            old(env).wf(),
        ensures
            final(env).wf(),
            final(env).heap() == old(env).heap(),
            final(env).refs() == old(env).refs(),
            final(env).next_callback() == old(env).next_callback(),
            final(env).props_kept(old(env)),
            final(env).external_counts() == old(env).external_counts().push(i),
            r.slot() == old(env).external_counts().len(),
            r.belongs_to(final(env)),
            r.count(final(env)) == i,
    {
        let slot = env.new_counter();
        env.set_counter(slot, i);
        Counter { slot }
    }

    /// Adds one to the shared count and gives the new count.
    pub fn inc(&self, env: &mut Env) -> (r: usize)
        requires
            old(env).wf(),
            self.belongs_to(old(env)),
            self.count(old(env)) < usize::MAX,
        ensures
            final(env).wf(),
            final(env).heap() == old(env).heap(),
            final(env).refs() == old(env).refs(),
            final(env).next_callback() == old(env).next_callback(),
            final(env).props_kept(old(env)),
            final(env).external_counts() == old(env).external_counts().update(
                self.slot() as int,
                (self.count(old(env)) + 1) as usize,
            ),
            r == self.count(old(env)) + 1,
    {
        let n = env.counter(self.slot) + 1;
        env.set_counter(self.slot, n);
        n
    }

    /// Takes one from the shared count and gives the new count.
    pub fn dec(&self, env: &mut Env) -> (r: usize)
        requires
            old(env).wf(),
            self.belongs_to(old(env)),
            self.count(old(env)) > 0,
        ensures
            final(env).wf(),
            final(env).heap() == old(env).heap(),
            final(env).refs() == old(env).refs(),
            final(env).next_callback() == old(env).next_callback(),
            final(env).props_kept(old(env)),
            final(env).external_counts() == old(env).external_counts().update(
                self.slot() as int,
                (self.count(old(env)) - 1) as usize,
            ),
            r == self.count(old(env)) - 1,
    {
        let n = env.counter(self.slot) - 1;
        env.set_counter(self.slot, n);
        n
    }
}

/// A value whose construction and dropping can be watched.
pub struct DropDetector {}

impl DropDetector {
    /// Does nothing; a call shows that the value is still alive.
    pub fn hello(&self) {
    }
}

} // verus!
