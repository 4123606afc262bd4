use vstd::prelude::*;

use crate::env::{Env, JsData, PromiseState, Value};
use crate::error::{IonError, Result};
use crate::traits::{FromJsValue, JsValue, ToJsUnknown, ToJsValue};
use crate::values::js_object::JsObject;
use crate::values::js_unknown::JsUnknown;

verus! {

/// A JavaScript promise.
#[derive(Clone, Copy, Debug)]
pub struct JsPromise {
    pub(crate) value: Value,
}

/// How a promise settled, as its settlement callback sees it.
pub enum JsPromiseResult<R: FromJsValue> {
    Resolved(R),
    Rejected(JsUnknown),
}

/// `r` is what a settlement callback is handed for a promise in `state`.
pub open spec fn settles_as<R: FromJsValue>(state: PromiseState, r: JsPromiseResult<R>) -> bool {
    match state {
        PromiseState::Fulfilled(v) => r matches JsPromiseResult::Resolved(x) && x.handle() == v,
        PromiseState::Rejected(v) => r matches JsPromiseResult::Rejected(u) && u.handle() == v,
        PromiseState::Pending => false,
    }
}

/// A settlement callback waiting for its promise; it runs at most once.
pub struct Settlement<F> {
    promise: Value,
    callback: Option<F>,
    runs: Ghost<nat>,
}

impl<F> Settlement<F> {
    /// The callback runs at most once, and not after it ran or was dropped.
    #[verifier::type_invariant]
    closed spec fn runs_once(&self) -> bool {
        &&& self.runs@ <= 1
        &&& self.callback is Some ==> self.runs@ == 0
    }

    /// The promise waited for.
    pub closed spec fn promise(&self) -> Value {
        self.promise
    }

    /// The callback has not run yet.
    pub closed spec fn is_armed(&self) -> bool {
        self.callback is Some
    }

    /// The callback, while it has not run.
    pub closed spec fn callback(&self) -> F {
        self.callback->Some_0
    }

    /// How many times the callback has run.
    pub closed spec fn runs(&self) -> nat {
        self.runs@
    }

    /// Whether the callback has not run yet.
    pub fn armed(&self) -> (b: bool)
        ensures
            b == self.is_armed(),
    {
        self.callback.is_some()
    }

    /// Runs the callback if the promise has settled and the callback has not
    /// run yet: a fulfilled promise hands it `Resolved`, a rejected one
    /// `Rejected`. Gives `Ok(None)` when it does not run, and what the
    /// callback gives otherwise. Once the promise has settled the callback is
    /// used up; when a fulfilled value is not of a kind that `Resolved` wraps,
    /// it is dropped without running and the result is
    /// [`IonError::ValueCastError`].
    pub fn fire<Resolved: FromJsValue, Ret>(&mut self, env: &Env) -> (r: Result<Option<Ret>>)
        where
            F: FnOnce(&Env, JsPromiseResult<Resolved>) -> Result<Ret>,
        requires
            env.wf(),
            env.valid(old(self).promise()),
            env.data(old(self).promise()) is Promise,
            old(self).is_armed() ==> forall|p: JsPromiseResult<Resolved>|
                settles_as(env.data(old(self).promise())->Promise_0, p)
                ==> #[trigger] call_requires(old(self).callback(), (env, p)),
        ensures
            final(self).promise() == old(self).promise(),
            final(self).runs() <= 1,
            final(self).runs() <= old(self).runs() + 1,
            !(env.data(old(self).promise())->Promise_0 is Pending) ==> !final(self).is_armed(),
            !old(self).is_armed() ==> r == Ok::<Option<Ret>, IonError>(None) && final(self).runs() == old(self).runs(),
            env.data(old(self).promise())->Promise_0 is Pending ==> r == Ok::<Option<Ret>, IonError>(None)
                && final(self).is_armed() == old(self).is_armed()
                && final(self).runs() == old(self).runs()
                && (old(self).is_armed() ==> final(self).callback() == old(self).callback()),
            old(self).is_armed() ==> match env.data(old(self).promise())->Promise_0 {
                PromiseState::Pending => true,
                PromiseState::Fulfilled(v) if !Resolved::accepts(env.data(v)) =>
                    r == Err::<Option<Ret>, IonError>(IonError::ValueCastError) && final(self).runs() == old(self).runs(),
                _ => final(self).runs() == old(self).runs() + 1 && exists|p: JsPromiseResult<Resolved>, res: Result<Ret>| {
                    &&& settles_as(env.data(old(self).promise())->Promise_0, p)
                    &&& call_ensures(old(self).callback(), (env, p), res)
                    &&& match res {
                        Ok(x) => r == Ok::<Option<Ret>, IonError>(Some(x)),
                        Err(e) => r == Err::<Option<Ret>, IonError>(e),
                    }
                },
            },
    {
        proof {
            use_type_invariant(&*self);
        }
        let state = match env.get(self.promise) {
            JsData::Promise(state) => *state,
            _ => {
                proof { assert(false); }
                PromiseState::Pending
            },
        };
        let pending = match state {
            PromiseState::Pending => true,
            _ => false,
        };
        if pending {
            return Ok(None);
        }
        let mut taken = Settlement { promise: self.promise, callback: None, runs: self.runs };
        std::mem::swap(self, &mut taken);
        let callback = match taken.callback {
            Some(callback) => callback,
            None => {
                return Ok(None);
            },
        };
        assert(callback == old(self).callback());
        let result = match state {
            PromiseState::Fulfilled(v) => {
                proof {
                    broadcast use crate::env::lemma_value_index_injective;
                    assert(crate::env::handles_below(env.heap()[old(self).promise().index()], env.heap().len()));
                }
                match Resolved::from_js_value(env, v) {
                    Ok(x) => JsPromiseResult::Resolved(x),
                    Err(e) => {
                        return Err(e);
                    },
                }
            },
            PromiseState::Rejected(v) => JsPromiseResult::Rejected(JsUnknown::from_handle(v)),
            PromiseState::Pending => {
                proof { assert(false); }
                return Ok(None);
            },
        };
        assert(settles_as(state, result));
        assert(call_requires(old(self).callback(), (env, result)));
        let res = callback(env, result);
        self.runs = Ghost((self.runs@ + 1) as nat);
        match res {
            Ok(x) => Ok(Some(x)),
            Err(e) => Err(e),
        }
    }
}

impl JsPromise {
    /// Creates the value that this type wraps: an object with no properties.
    pub fn new(env: &mut Env) -> (r: Result<JsPromise>)
        requires
            old(env).wf(),
        ensures
            final(env).wf(),
            final(env).same_bookkeeping(old(env)),
            final(env).extends(old(env)),
            final(env).heap().len() == old(env).heap().len() + 1,
            r matches Ok(p) && p.handle().index() == old(env).heap().len()
                && final(env).data(p.handle()) is Object
                && final(env).properties(p.handle()).len() == 0,
    {
        let value = env.allocate(JsData::Object);
        Ok(JsPromise { value })
    }

    /// Attaches a settlement callback: it runs once, when the promise has
    /// settled, with how it settled.
    pub fn settled<F>(self, env: &Env, settled_callback: F) -> (r: Result<Settlement<F>>)
        requires
            env.valid(self.handle()),
            env.data(self.handle()) is Promise,
        ensures
            r matches Ok(s) && s.promise() == self.handle() && s.is_armed() && s.callback() == settled_callback
                && s.runs() == 0,
    {
        Ok(Settlement { promise: self.value, callback: Some(settled_callback), runs: Ghost(0) })
    }
}

/// A promise that native code settles: the other half of the promise that
/// [`JsDeferred::new`] hands out.
pub struct JsDeferred {
    promise: Value,
    open: bool,
}

impl JsDeferred {
    /// The promise that this deferred settles.
    pub closed spec fn promise(&self) -> Value {
        self.promise
    }

    /// Whether the deferred can still be resolved or rejected.
    pub closed spec fn is_open(&self) -> bool {
        self.open
    }

    /// Creates a pending promise and the deferred that settles it; the
    /// environment is held alive until the promise is resolved.
    pub fn new(env: &mut Env) -> (r: Result<(JsObject, JsDeferred)>)
        requires
            old(env).wf(),
            old(env).refs() < usize::MAX,
        ensures
            final(env).wf(),
            final(env).props_kept(old(env)),
            final(env).heap() == old(env).heap().push(JsData::Promise(PromiseState::Pending)),
            final(env).refs() == old(env).refs() + 1,
            final(env).external_counts() == old(env).external_counts(),
            final(env).next_callback() == old(env).next_callback(),
            r matches Ok((p, d)) && p.handle() == d.promise() && d.is_open()
                && d.promise().index() == old(env).heap().len(),
    {
        env.inc_ref();
        let value = env.allocate(JsData::Promise(PromiseState::Pending));
        Ok((JsObject::from_js_value(env, value)?, JsDeferred { promise: value, open: true }))
    }

    /// Fulfils the promise with what `callback` gives, converted, and lets go
    /// of the environment; fails with [`IonError::ChannelClosed`] when the
    /// deferred was already used.
    pub fn resolve<Return: ToJsValue, F: FnOnce(&Env) -> Result<Return>>(&mut self, env: &mut Env, callback: F) -> (r: Result<()>)
        requires
            old(env).wf(),
            old(env).valid(old(self).promise()),
            old(env).data(old(self).promise()) is Promise,
            old(self).is_open() ==> old(env).refs() > 0,
            call_requires(callback, (&*old(env),)),
            forall|res: Result<Return>| #[trigger] call_ensures(callback, (&*old(env),), res) ==> res is Ok,
            forall|ret: Return| #[trigger] call_ensures(callback, (&*old(env),), Ok::<Return, IonError>(ret)) ==> ret.fits(old(env).heap().len())
                && ret.converts(),
        ensures
            final(env).wf(),
            final(env).props_kept(old(env)),
            final(self).promise() == old(self).promise(),
            !final(self).is_open(),
            !old(self).is_open() ==> r == Err::<(), IonError>(IonError::ChannelClosed) && *final(env) == *old(env),
            old(self).is_open() ==> {
                &&& r is Ok
                &&& final(env).refs() == old(env).refs() - 1
                &&& final(env).external_counts() == old(env).external_counts()
                &&& final(env).next_callback() == old(env).next_callback()
                &&& exists|mid: Seq<JsData>, ret: Return, v: Value| {
                    &&& call_ensures(callback, (&*old(env),), Ok::<Return, IonError>(ret))
                    &&& crate::traits::heap_extends(mid, old(env).heap())
                    &&& ret.stands_for(mid, v)
                    &&& final(env).heap() == mid.update(
                        old(self).promise().index(),
                        JsData::Promise(PromiseState::Fulfilled(v)),
                    )
                }
            },
    {
        if !self.open {
            return Err(IonError::ChannelClosed);
        }
        self.open = false;
        let ghost env0 = *env;
        let value = match callback(&*env) {
            Ok(value) => value,
            Err(e) => {
                proof { assert(false); }
                return Err(e);
            },
        };
        let v = match Return::to_js_value(env, value) {
            Ok(v) => v,
            Err(e) => {
                proof { assert(false); }
                return Err(e);
            },
        };
        assert(self.promise.index() >= 2) by {
            assert(env0.heap()[0] is Undefined);
            assert(env0.heap()[1] is Null);
            broadcast use crate::env::lemma_value_index_injective;
        }
        let _ = env.replace(self.promise, JsData::Promise(PromiseState::Fulfilled(v)));
        env.dec_ref();
        Ok(())
    }

    /// Uses up the deferred for a rejection; fails with
    /// [`IonError::ChannelClosed`] when it was already used.
    ///
    /// The promise stays pending and the callback does not run: the engine
    /// side of a rejection does nothing yet.
    pub fn reject<Return: ToJsValue, F: FnOnce(&Env) -> Result<Return>>(&mut self, env: &Env, callback: F) -> (r: Result<()>)
        ensures
            final(self).promise() == old(self).promise(),
            !final(self).is_open(),
            old(self).is_open() ==> r is Ok,
            !old(self).is_open() ==> r == Err::<(), IonError>(IonError::ChannelClosed),
    {
        if !self.open {
            return Err(IonError::ChannelClosed);
        }
        self.open = false;
        Ok(())
    }
}

impl FromJsValue for JsPromise {
    closed spec fn handle(&self) -> Value {
        self.value
    }

    open spec fn accepts(d: JsData) -> bool {
        d is Promise
    }

    fn from_js_value(env: &Env, value: Value) -> (r: Result<Self>) {
        match env.get(value) {
            JsData::Promise(_) => Ok(JsPromise { value }),
            _ => Err(IonError::ValueCastError),
        }
    }

    fn from_value_unchecked(value: Value) -> (r: Self) {
        JsPromise { value }
    }
}

impl JsValue for JsPromise {
    fn value(&self) -> (r: &Value) {
        &self.value
    }
}

impl ToJsUnknown for JsPromise {}

impl ToJsValue for JsPromise {
    open spec fn stands_for(&self, heap: Seq<JsData>, v: Value) -> bool {
        v == self.handle()
    }

    open spec fn converts(&self) -> bool {
        true
    }

    open spec fn convert_error(&self) -> IonError {
        IonError::ValueCastError
    }

    open spec fn fits(&self, n: nat) -> bool {
        0 <= self.handle().index() < n
    }

    proof fn lemma_stands_for_kept(&self, h1: Seq<JsData>, h2: Seq<JsData>, v: Value) {
    }

    proof fn lemma_fits_grow(&self, n: nat, m: nat) {
    }

    fn to_js_value(env: &mut Env, val: Self) -> (r: Result<Value>) {
        Ok(val.value)
    }
}

} // verus!
