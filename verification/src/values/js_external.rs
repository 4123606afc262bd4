use vstd::prelude::*;

use std::rc::Rc;

use crate::env::{Env, JsData, Value};
use crate::error::{IonError, Result};
use crate::traits::{FromJsValue, ToJsValue};
use crate::values::js_unknown::JsUnknown;
use crate::values::thread_safe_function::count_after_release;

verus! {

/// The native values behind the externals of one type, by the slot of
/// their shared reference count. A JavaScript external names only its slot;
/// converting it back reads the native value here.
pub struct ExternalStore<T> {
    items: Vec<Option<Rc<T>>>,
}

impl<T> ExternalStore<T> {
    /// The native value held for `slot`, if any.
    pub closed spec fn data_at(&self, slot: int) -> Option<T> {
        if 0 <= slot < self.items@.len() {
            match self.items@[slot] {
                Some(rc) => Some(*rc),
                None => None,
            }
        } else {
            None
        }
    }

    /// A store that holds nothing.
    pub fn new() -> (s: Self)
        ensures
            forall|k: int| #[trigger] s.data_at(k) is None,
    {
        ExternalStore { items: Vec::new() }
    }

    /// Holds `data` for `slot`.
    fn put(&mut self, slot: usize, data: Rc<T>)
        ensures
            final(self).data_at(slot as int) == Some(*data),
            forall|k: int| k != slot ==> #[trigger] final(self).data_at(k) == old(self).data_at(k),
    {
        while self.items.len() < slot
            invariant
                self.items@.len() == old(self).items@.len() || old(self).items@.len() < self.items@.len() <= slot,
                forall|k: int| 0 <= k < old(self).items@.len() ==> #[trigger] self.items@[k] == old(self).items@[k],
                forall|k: int| old(self).items@.len() <= k < self.items@.len() ==> #[trigger] self.items@[k] is None,
            decreases slot - self.items@.len(),
        {
            self.items.push(None);
        }
        if self.items.len() == slot {
            self.items.push(Some(data));
        } else {
            self.items.set(slot, Some(data));
        }
        assert forall|k: int| k != slot implies #[trigger] self.data_at(k) == old(self).data_at(k) by {
            if 0 <= k < old(self).items@.len() {
                assert(self.items@[k] == old(self).items@[k]);
            }
        }
    }

    /// Lets go of the native value held for `slot`.
    fn clear(&mut self, slot: usize)
        ensures
            final(self).data_at(slot as int) is None,
            forall|k: int| k != slot ==> #[trigger] final(self).data_at(k) == old(self).data_at(k),
    {
        if slot < self.items.len() {
            self.items.set(slot, None);
        }
    }

    /// The native value held for `slot`, shared.
    fn lookup(&self, slot: usize) -> (r: Option<Rc<T>>)
        ensures
            match self.data_at(slot as int) {
                Some(d) => r matches Some(rc) && *rc == d,
                None => r is None,
            },
    {
        if slot < self.items.len() {
            match &self.items[slot] {
                Some(rc) => Some(Rc::clone(rc)),
                None => None,
            }
        } else {
            None
        }
    }
}

/// A native value that a JavaScript value refers to. Clones share a
/// reference count that the environment keeps; the native value is released
/// when the count drops from 1 to 0.
pub struct JsExternal<T> {
    value: Value,
    slot: usize,
    data: Rc<T>,
}

impl<T> JsExternal<T> {
    /// The JavaScript value.
    pub closed spec fn handle(&self) -> Value {
        self.value
    }

    /// The slot of the shared reference count.
    pub closed spec fn slot(&self) -> usize {
        self.slot
    }

    /// The native value.
    pub closed spec fn inner(&self) -> T {
        *self.data
    }

    /// The reference count in `env`.
    pub open spec fn count(&self, env: &Env) -> usize {
        env.external_counts()[self.slot() as int]
    }

    /// The value belongs to `env`.
    pub open spec fn belongs_to(&self, env: &Env) -> bool {
        &&& self.slot() < env.external_counts().len()
        &&& env.valid(self.handle())
        &&& env.data(self.handle()) == JsData::External { slot: self.slot() }
    }

    /// Wraps `data` in a new JavaScript value, with a reference count of 1;
    /// `store` keeps the native value for the new slot, so that the
    /// JavaScript value converts back to it.
    pub fn new(env: &mut Env, store: &mut ExternalStore<T>, data: T) -> (r: Result<Self>)
        requires
            old(env).wf(),
        ensures
            final(env).wf(),
            final(env).props_kept(old(env)),
            final(env).refs() == old(env).refs(),
            final(env).next_callback() == old(env).next_callback(),
            final(env).external_counts() == old(env).external_counts().push(1),
            final(env).heap() == old(env).heap().push(JsData::External { slot: old(env).external_counts().len() as usize }),
            final(store).data_at(old(env).external_counts().len() as int) == Some(data),
            forall|k: int| k != old(env).external_counts().len() ==> #[trigger] final(store).data_at(k) == old(store).data_at(k),
            r matches Ok(x) && x.inner() == data && x.belongs_to(final(env))
                && x.slot() == old(env).external_counts().len()
                && x.handle().index() == old(env).heap().len(),
    {
        let slot = env.new_counter();
        let value = env.allocate(JsData::External { slot });
        let data = Rc::new(data);
        store.put(slot, Rc::clone(&data));
        Ok(JsExternal { value, slot, data })
    }

    /// Converts a JavaScript external back: the native value is the one that
    /// `store` holds for its slot, and the shared count goes up by one. Fails
    /// with [`IonError::ValueCastError`] when the value is not an external or
    /// `store` holds nothing for its slot.
    pub fn from_js_value(env: &mut Env, store: &ExternalStore<T>, value: Value) -> (r: Result<Self>)
        requires
            old(env).wf(),
            old(env).valid(value),
            old(env).data(value) matches JsData::External { slot } ==> old(env).external_counts()[slot as int] < usize::MAX,
        ensures
            final(env).wf(),
            final(env).props_kept(old(env)),
            final(env).heap() == old(env).heap(),
            final(env).refs() == old(env).refs(),
            final(env).next_callback() == old(env).next_callback(),
            match old(env).data(value) {
                JsData::External { slot } if store.data_at(slot as int) is Some => r matches Ok(x)
                    && x.handle() == value
                    && x.slot() == slot
                    && x.inner() == store.data_at(slot as int)->Some_0
                    && x.belongs_to(final(env))
                    && final(env).external_counts() == old(env).external_counts().update(
                    slot as int,
                    (old(env).external_counts()[slot as int] + 1) as usize,
                ),
                _ => r == Err::<Self, IonError>(IonError::ValueCastError)
                    && final(env).external_counts() == old(env).external_counts(),
            },
    {
        let slot = match env.get(value) {
            JsData::External { slot } => *slot,
            _ => {
                return Err(IonError::ValueCastError);
            },
        };
        let data = match store.lookup(slot) {
            Some(rc) => rc,
            None => {
                return Err(IonError::ValueCastError);
            },
        };
        proof {
            assert(crate::env::slots_below(env.heap()[value.index()], env.external_counts().len()));
        }
        let n = env.counter(slot);
        env.set_counter(slot, n + 1);
        Ok(JsExternal { value, slot, data })
    }

    /// Forgets the type of the wrapped value.
    pub fn into_unknown(self) -> (r: JsUnknown)
        ensures
            r.handle() == self.handle(),
    {
        JsUnknown::from_handle(self.value)
    }

    /// The native value.
    pub fn as_inner(&self) -> (r: Result<&T>)
        ensures
            r matches Ok(x) && *x == self.inner(),
    {
        Ok(&*self.data)
    }

    /// The JavaScript value.
    pub fn value(&self) -> (r: &Value)
        ensures
            *r == self.handle(),
    {
        &self.value
    }

    /// Another reference to the same value; the count goes up by one.
    pub fn clone_with(&self, env: &mut Env) -> (r: Self)
        requires
            old(env).wf(),
            self.belongs_to(old(env)),
            self.count(old(env)) < usize::MAX,
        ensures
            final(env).wf(),
            final(env).props_kept(old(env)),
            final(env).heap() == old(env).heap(),
            final(env).refs() == old(env).refs(),
            final(env).next_callback() == old(env).next_callback(),
            final(env).external_counts() == old(env).external_counts().update(
                self.slot() as int,
                (self.count(old(env)) + 1) as usize,
            ),
            r.handle() == self.handle(),
            r.slot() == self.slot(),
            r.inner() == self.inner(),
    {
        let n = env.counter(self.slot);
        env.set_counter(self.slot, n + 1);
        JsExternal { value: self.value, slot: self.slot, data: Rc::clone(&self.data) }
    }

    /// Adds one to the shared count without making a new reference (the
    /// `ref` of a reference-counted external).
    pub fn reference(&self, env: &mut Env)
        requires
            old(env).wf(),
            self.belongs_to(old(env)),
            self.count(old(env)) < usize::MAX,
        ensures
            final(env).wf(),
            final(env).props_kept(old(env)),
            final(env).heap() == old(env).heap(),
            final(env).refs() == old(env).refs(),
            final(env).next_callback() == old(env).next_callback(),
            final(env).external_counts() == old(env).external_counts().update(
                self.slot() as int,
                (self.count(old(env)) + 1) as usize,
            ),
    {
        let n = env.counter(self.slot);
        env.set_counter(self.slot, n + 1);
    }

    /// Takes one from the shared count without letting go of this reference.
    pub fn unref(&self, env: &mut Env)
        requires
            old(env).wf(),
            self.belongs_to(old(env)),
            self.count(old(env)) > 0,
        ensures
            final(env).wf(),
            final(env).props_kept(old(env)),
            final(env).heap() == old(env).heap(),
            final(env).refs() == old(env).refs(),
            final(env).next_callback() == old(env).next_callback(),
            final(env).external_counts() == old(env).external_counts().update(
                self.slot() as int,
                (self.count(old(env)) - 1) as usize,
            ),
    {
        let n = env.counter(self.slot);
        env.set_counter(self.slot, n - 1);
    }

    /// Lets go of this reference, as dropping it does; gives whether it was
    /// the last one, which releases the native value from `store`.
    pub fn drop_with(self, env: &mut Env, store: &mut ExternalStore<T>) -> (released: bool)
        requires
            old(env).wf(),
            self.belongs_to(old(env)),
        ensures
            final(env).wf(),
            final(env).props_kept(old(env)),
            final(env).heap() == old(env).heap(),
            final(env).refs() == old(env).refs(),
            final(env).next_callback() == old(env).next_callback(),
            final(env).external_counts() == old(env).external_counts().update(
                self.slot() as int,
                count_after_release(self.count(old(env))),
            ),
            released == (self.count(old(env)) == 1),
            released ==> final(store).data_at(self.slot() as int) is None,
            !released ==> final(store).data_at(self.slot() as int) == old(store).data_at(self.slot() as int),
            forall|k: int| k != self.slot() ==> #[trigger] final(store).data_at(k) == old(store).data_at(k),
    {
        let previous = env.counter(self.slot);
        let next = if previous == 0 {
            usize::MAX
        } else {
            previous - 1
        };
        env.set_counter(self.slot, next);
        if previous == 1 {
            store.clear(self.slot);
        }
        previous == 1
    }
}

impl<T> ToJsValue for JsExternal<T> {
    open spec fn stands_for(&self, heap: Seq<JsData>, v: Value) -> bool {
        v == self.handle()
    }

    open spec fn converts(&self) -> bool {
        true
    }

    open spec fn convert_error(&self) -> IonError {
        IonError::ValueCastError
    }

    open spec fn fits(&self, n: nat) -> bool {
        0 <= self.handle().index() < n
    }

    proof fn lemma_stands_for_kept(&self, h1: Seq<JsData>, h2: Seq<JsData>, v: Value) {
    }

    proof fn lemma_fits_grow(&self, n: nat, m: nat) {
    }

    fn to_js_value(env: &mut Env, val: Self) -> (r: Result<Value>) {
        Ok(val.value)
    }
}

} // verus!
