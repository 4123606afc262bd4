use vstd::prelude::*;

use crate::env::{undefined_handle, Env, Value};
use crate::error::{IonError, Result};
use crate::traits::{FromJsValue, JsValue};
use crate::values::js_function::{frame_valid, CallFrame, JsFunction};
use crate::values::js_unknown::JsUnknown;
use crate::values::js_values_vec::JsValuesTupleIntoVec;

verus! {

/// What a shared reference count becomes when one holder lets go: one less,
/// wrapping from 0 to `usize::MAX` as an atomic subtraction does.
pub open spec fn count_after_release(count: usize) -> usize {
    if count == 0 {
        usize::MAX
    } else {
        (count - 1) as usize
    }
}

/// A handle to a function that other threads can call; the function and the
/// environment stay alive while the handle's reference count is above 0.
pub struct ThreadSafeFunction {
    slot: usize,
    function: Value,
}

/// The half of a call through a thread-safe handle that reads what the call
/// returned.
pub struct PendingReturn<MapReturn> {
    map_return: MapReturn,
}

impl<MapReturn> PendingReturn<MapReturn> {
    /// The function that reads the returned value.
    pub closed spec fn map_return(&self) -> MapReturn {
        self.map_return
    }

    /// Hands what the call returned to the reader and gives what it gives;
    /// a call that raised gives [`IonError::FunctionCallError`].
    pub fn complete<Return>(self, env: &Env, outcome: Option<Value>) -> (r: Result<Return>)
        where
            MapReturn: FnOnce(&Env, JsUnknown) -> Result<Return>,
        requires
            forall|e: &Env, u: JsUnknown| #[trigger] call_requires(self.map_return(), (e, u)),
        ensures
            outcome is None ==> r == Err::<Return, IonError>(IonError::FunctionCallError),
            outcome matches Some(v) ==> exists|u: JsUnknown| u.handle() == v && #[trigger] call_ensures(
                self.map_return(),
                (env, u),
                r,
            ),
    {
        match outcome {
            Some(v) => {
                let u = JsUnknown::from_handle(v);
                assert(call_requires(self.map_return(), (env, u)));
                (self.map_return)(env, u)
            },
            None => Err(IonError::FunctionCallError),
        }
    }
}

impl ThreadSafeFunction {
    /// The slot of the shared reference count.
    pub closed spec fn slot(&self) -> usize {
        self.slot
    }

    /// The function that the handle calls.
    pub closed spec fn function(&self) -> Value {
        self.function
    }

    /// The handle's shared reference count in `env`.
    pub open spec fn count(&self, env: &Env) -> usize {
        env.external_counts()[self.slot() as int]
    }

    /// The handle belongs to `env`.
    pub open spec fn belongs_to(&self, env: &Env) -> bool {
        &&& self.slot() < env.external_counts().len()
        &&& env.valid(self.function())
    }

    /// Makes a thread-safe handle to `target` with a reference count of 1,
    /// and holds the environment alive for it.
    pub fn new(env: &mut Env, target: &JsFunction) -> (r: Result<Self>)
        requires
            old(env).wf(),
            old(env).valid(target.handle()),
            old(env).refs() < usize::MAX,
        ensures
            final(env).wf(),
            final(env).props_kept(old(env)),
            final(env).heap() == old(env).heap(),
            final(env).refs() == old(env).refs() + 1,
            final(env).next_callback() == old(env).next_callback(),
            final(env).external_counts() == old(env).external_counts().push(1),
            r matches Ok(t) && t.function() == target.handle()
                && t.slot() == old(env).external_counts().len()
                && t.belongs_to(final(env)),
    {
        let slot = env.new_counter();
        env.inc_ref();
        Ok(ThreadSafeFunction { slot, function: *target.value() })
    }

    /// Asks for a call of the function with the arguments that
    /// `map_arguments` gives, converted in order, and `undefined` as `this`;
    /// the returned half reads the result with `map_return`. Fails with the
    /// error of `map_arguments` when it fails, and with the error of the
    /// first argument whose conversion fails.
    pub fn call<Args: JsValuesTupleIntoVec, MapArguments, MapReturn>(
        &self,
        env: &mut Env,
        map_arguments: MapArguments,
        map_return: MapReturn,
    ) -> (r: Result<(CallFrame, PendingReturn<MapReturn>)>)
        where
            MapArguments: FnOnce(&Env) -> Result<Args>,
        requires
            old(env).wf(),
            self.belongs_to(old(env)),
            call_requires(map_arguments, (&*old(env),)),
            forall|a: Args| #[trigger] call_ensures(map_arguments, (&*old(env),), Ok::<Args, IonError>(a)) ==> a.args_fit(old(env).heap().len()),
        ensures
            final(env).wf(),
            final(env).extends(old(env)),
            final(env).same_bookkeeping(old(env)),
            exists|res: Result<Args>| {
                &&& call_ensures(map_arguments, (&*old(env),), res)
                &&& match res {
                    Err(e) => r == Err::<(CallFrame, PendingReturn<MapReturn>), IonError>(e),
                    Ok(args) => (r is Ok <==> args.args_convert())
                        && (r matches Err(e) ==> e == args.args_error()) && (r matches Ok((frame, pending)) ==> frame.function == self.function()
                        && frame.receiver == undefined_handle()
                        && !frame.construct
                        && frame.args@.len() == args.arity()
                        && args.args_stand_for(final(env).heap(), frame.args@)
                        && frame_valid(final(env), &frame)
                        && pending.map_return() == map_return),
                }
            },
    {
        let res = map_arguments(&*env);
        let args = match res {
            Ok(args) => args,
            Err(e) => {
                return Err(e);
            },
        };
        let args = args.into_vec(env)?;
        let receiver = env.undefined();
        Ok((CallFrame { function: self.function, receiver, args, construct: false }, PendingReturn { map_return }))
    }

    /// The same as [`ThreadSafeFunction::call`]; the caller waits on the
    /// returned half for what `map_return` gives.
    pub fn call_blocking<Args: JsValuesTupleIntoVec, MapArguments, MapReturn>(
        &self,
        env: &mut Env,
        map_arguments: MapArguments,
        map_return: MapReturn,
    ) -> (r: Result<(CallFrame, PendingReturn<MapReturn>)>)
        where
            MapArguments: FnOnce(&Env) -> Result<Args>,
        requires
            old(env).wf(),
            self.belongs_to(old(env)),
            call_requires(map_arguments, (&*old(env),)),
            forall|a: Args| #[trigger] call_ensures(map_arguments, (&*old(env),), Ok::<Args, IonError>(a)) ==> a.args_fit(old(env).heap().len()),
        ensures
            final(env).wf(),
            final(env).extends(old(env)),
            final(env).same_bookkeeping(old(env)),
            exists|res: Result<Args>| {
                &&& call_ensures(map_arguments, (&*old(env),), res)
                &&& match res {
                    Err(e) => r == Err::<(CallFrame, PendingReturn<MapReturn>), IonError>(e),
                    Ok(args) => (r is Ok <==> args.args_convert())
                        && (r matches Err(e) ==> e == args.args_error()) && (r matches Ok((frame, pending)) ==> frame.function == self.function()
                        && frame.receiver == undefined_handle()
                        && !frame.construct
                        && frame.args@.len() == args.arity()
                        && args.args_stand_for(final(env).heap(), frame.args@)
                        && frame_valid(final(env), &frame)
                        && pending.map_return() == map_return),
                }
            },
    {
        self.call(env, map_arguments, map_return)
    }

    /// Adds a holder to the reference count.
    pub fn inc_ref(&self, env: &mut Env) -> (r: Result<()>)
        requires
            old(env).wf(),
            self.belongs_to(old(env)),
            self.count(old(env)) < usize::MAX,
        ensures
            final(env).wf(),
            final(env).props_kept(old(env)),
            final(env).heap() == old(env).heap(),
            final(env).refs() == old(env).refs(),
            final(env).next_callback() == old(env).next_callback(),
            final(env).external_counts() == old(env).external_counts().update(
                self.slot() as int,
                (self.count(old(env)) + 1) as usize,
            ),
            r is Ok,
    {
        let n = env.counter(self.slot);
        env.set_counter(self.slot, n + 1);
        Ok(())
    }

    /// Takes a holder from the reference count; the one that takes it from 1
    /// to 0 lets go of the function and of the environment.
    pub fn dec_ref(&self, env: &mut Env) -> (r: Result<()>)
        requires
            old(env).wf(),
            self.belongs_to(old(env)),
            self.count(old(env)) == 1 ==> old(env).refs() > 0,
        ensures
            final(env).wf(),
            final(env).props_kept(old(env)),
            final(env).heap() == old(env).heap(),
            final(env).next_callback() == old(env).next_callback(),
            final(env).external_counts() == old(env).external_counts().update(
                self.slot() as int,
                count_after_release(self.count(old(env))),
            ),
            final(env).refs() == if self.count(old(env)) == 1 {
                old(env).refs() - 1
            } else {
                old(env).refs() as int
            },
            r is Ok,
    {
        let previous = env.counter(self.slot);
        let next = if previous == 0 {
            usize::MAX
        } else {
            previous - 1
        };
        env.set_counter(self.slot, next);
        if previous == 1 {
            env.dec_ref();
        }
        Ok(())
    }

    /// Another handle to the same function, sharing the reference count,
    /// which goes up by one.
    pub fn clone_with(&self, env: &mut Env) -> (r: Self)
        requires
            old(env).wf(),
            self.belongs_to(old(env)),
            self.count(old(env)) < usize::MAX,
        ensures
            final(env).wf(),
            final(env).props_kept(old(env)),
            final(env).heap() == old(env).heap(),
            final(env).refs() == old(env).refs(),
            final(env).next_callback() == old(env).next_callback(),
            final(env).external_counts() == old(env).external_counts().update(
                self.slot() as int,
                (self.count(old(env)) + 1) as usize,
            ),
            r.slot() == self.slot(),
            r.function() == self.function(),
    {
        let _ = self.inc_ref(env);
        ThreadSafeFunction { slot: self.slot, function: self.function }
    }

    /// Lets go of this handle, as dropping it does.
    pub fn drop_with(self, env: &mut Env)
        requires
            old(env).wf(),
            self.belongs_to(old(env)),
            self.count(old(env)) == 1 ==> old(env).refs() > 0,
        ensures
            final(env).wf(),
            final(env).props_kept(old(env)),
            final(env).heap() == old(env).heap(),
            final(env).next_callback() == old(env).next_callback(),
            final(env).external_counts() == old(env).external_counts().update(
                self.slot() as int,
                count_after_release(self.count(old(env))),
            ),
            final(env).refs() == if self.count(old(env)) == 1 {
                old(env).refs() - 1
            } else {
                old(env).refs() as int
            },
    {
        let _ = self.dec_ref(env);
    }
}

} // verus!
