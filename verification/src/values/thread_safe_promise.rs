use vstd::prelude::*;

use crate::env::{Env, Value};
use crate::error::Result;
use crate::traits::{FromJsValue, JsValue};
use crate::values::js_promise::{JsPromise, Settlement};
use crate::values::thread_safe_function::count_after_release;

verus! {

/// A handle to a promise that other threads can wait on; the promise and the
/// environment stay alive while the handle's reference count is above 0.
pub struct ThreadSafePromise {
    slot: usize,
    promise: Value,
}

impl ThreadSafePromise {
    /// The slot of the shared reference count.
    pub closed spec fn slot(&self) -> usize {
        self.slot
    }

    /// The promise that the handle waits on.
    pub closed spec fn promise(&self) -> Value {
        self.promise
    }

    /// The handle's shared reference count in `env`.
    pub open spec fn count(&self, env: &Env) -> usize {
        env.external_counts()[self.slot() as int]
    }

    /// The handle belongs to `env`.
    pub open spec fn belongs_to(&self, env: &Env) -> bool {
        &&& self.slot() < env.external_counts().len()
        &&& env.valid(self.promise())
    }

    /// Makes a thread-safe handle to `target` with a reference count of 1,
    /// and holds the environment alive for it.
    pub fn new(env: &mut Env, target: &JsPromise) -> (r: Result<Self>)
        requires
            old(env).wf(),
            old(env).valid(target.handle()),
            old(env).refs() < usize::MAX,
        ensures
            final(env).wf(),
            final(env).props_kept(old(env)),
            final(env).heap() == old(env).heap(),
            final(env).refs() == old(env).refs() + 1,
            final(env).next_callback() == old(env).next_callback(),
            final(env).external_counts() == old(env).external_counts().push(1),
            r matches Ok(t) && t.promise() == target.handle()
                && t.slot() == old(env).external_counts().len()
                && t.belongs_to(final(env)),
    {
        let slot = env.new_counter();
        env.inc_ref();
        Ok(ThreadSafePromise { slot, promise: *target.value() })
    }

    /// Attaches a settlement callback to the promise and lets go of this
    /// handle.
    pub fn settled<F>(self, env: &mut Env, settled_callback: F) -> (r: Result<Settlement<F>>)
        requires
            old(env).wf(),
            self.belongs_to(old(env)),
            old(env).data(self.promise()) is Promise,
            self.count(old(env)) == 1 ==> old(env).refs() > 0,
        ensures
            final(env).wf(),
            final(env).props_kept(old(env)),
            final(env).heap() == old(env).heap(),
            final(env).next_callback() == old(env).next_callback(),
            final(env).external_counts() == old(env).external_counts().update(
                self.slot() as int,
                count_after_release(self.count(old(env))),
            ),
            final(env).refs() == if self.count(old(env)) == 1 {
                old(env).refs() - 1
            } else {
                old(env).refs() as int
            },
            r matches Ok(s) && s.promise() == self.promise() && s.is_armed() && s.callback() == settled_callback,
    {
        let promise = JsPromise::from_js_value(&*env, self.promise)?;
        let r = promise.settled(&*env, settled_callback);
        self.drop_with(env);
        r
    }

    /// The same as [`ThreadSafePromise::settled`]; the caller waits on the
    /// settlement for what the callback gives.
    pub fn settled_blocking<F>(self, env: &mut Env, settled_callback: F) -> (r: Result<Settlement<F>>)
        requires
            old(env).wf(),
            self.belongs_to(old(env)),
            old(env).data(self.promise()) is Promise,
            self.count(old(env)) == 1 ==> old(env).refs() > 0,
        ensures
            final(env).wf(),
            final(env).props_kept(old(env)),
            final(env).heap() == old(env).heap(),
            final(env).next_callback() == old(env).next_callback(),
            final(env).external_counts() == old(env).external_counts().update(
                self.slot() as int,
                count_after_release(self.count(old(env))),
            ),
            final(env).refs() == if self.count(old(env)) == 1 {
                old(env).refs() - 1
            } else {
                old(env).refs() as int
            },
            r matches Ok(s) && s.promise() == self.promise() && s.is_armed() && s.callback() == settled_callback,
    {
        self.settled(env, settled_callback)
    }

    /// Adds a holder to the reference count.
    pub fn inc_ref(&self, env: &mut Env) -> (r: Result<()>)
        requires
            old(env).wf(),
            self.belongs_to(old(env)),
            self.count(old(env)) < usize::MAX,
        ensures
            final(env).wf(),
            final(env).props_kept(old(env)),
            final(env).heap() == old(env).heap(),
            final(env).refs() == old(env).refs(),
            final(env).next_callback() == old(env).next_callback(),
            final(env).external_counts() == old(env).external_counts().update(
                self.slot() as int,
                (self.count(old(env)) + 1) as usize,
            ),
            r is Ok,
    {
        let n = env.counter(self.slot);
        env.set_counter(self.slot, n + 1);
        Ok(())
    }

    /// Takes a holder from the reference count; the one that takes it from 1
    /// to 0 lets go of the promise and of the environment.
    pub fn dec_ref(&self, env: &mut Env) -> (r: Result<()>)
        requires
            old(env).wf(),
            self.belongs_to(old(env)),
            self.count(old(env)) == 1 ==> old(env).refs() > 0,
        ensures
            final(env).wf(),
            final(env).props_kept(old(env)),
            final(env).heap() == old(env).heap(),
            final(env).next_callback() == old(env).next_callback(),
            final(env).external_counts() == old(env).external_counts().update(
                self.slot() as int,
                count_after_release(self.count(old(env))),
            ),
            final(env).refs() == if self.count(old(env)) == 1 {
                old(env).refs() - 1
            } else {
                old(env).refs() as int
            },
            r is Ok,
    {
        let previous = env.counter(self.slot);
        let next = if previous == 0 {
            usize::MAX
        } else {
            previous - 1
        };
        env.set_counter(self.slot, next);
        if previous == 1 {
            env.dec_ref();
        }
        Ok(())
    }

    /// Another handle to the same promise, sharing the reference count,
    /// which goes up by one.
    pub fn clone_with(&self, env: &mut Env) -> (r: Self)
        requires
            old(env).wf(),
            self.belongs_to(old(env)),
            self.count(old(env)) < usize::MAX,
        ensures
            final(env).wf(),
            final(env).props_kept(old(env)),
            final(env).heap() == old(env).heap(),
            final(env).refs() == old(env).refs(),
            final(env).next_callback() == old(env).next_callback(),
            final(env).external_counts() == old(env).external_counts().update(
                self.slot() as int,
                (self.count(old(env)) + 1) as usize,
            ),
            r.slot() == self.slot(),
            r.promise() == self.promise(),
    {
        let _ = self.inc_ref(env);
        ThreadSafePromise { slot: self.slot, promise: self.promise }
    }

    /// Lets go of this handle, as dropping it does.
    pub fn drop_with(self, env: &mut Env)
        requires
            old(env).wf(),
            self.belongs_to(old(env)),
            self.count(old(env)) == 1 ==> old(env).refs() > 0,
        ensures
            final(env).wf(),
            final(env).props_kept(old(env)),
            final(env).heap() == old(env).heap(),
            final(env).next_callback() == old(env).next_callback(),
            final(env).external_counts() == old(env).external_counts().update(
                self.slot() as int,
                count_after_release(self.count(old(env))),
            ),
            final(env).refs() == if self.count(old(env)) == 1 {
                old(env).refs() - 1
            } else {
                old(env).refs() as int
            },
    {
        let _ = self.dec_ref(env);
    }
}

} // verus!
