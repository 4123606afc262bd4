use vstd::prelude::*;

use crate::env::{Env, JsData, Value};
use crate::error::{IonError, Result};
use crate::traits::{FromJsValue, JsValue, ToJsUnknown, ToJsValue};

verus! {

/// A JavaScript boolean.
#[derive(Clone, Copy, Debug)]
pub struct JsBoolean {
    pub(crate) value: Value,
}

/// What reading a value as a boolean gives.
pub open spec fn boolean_value(d: JsData) -> core::result::Result<bool, IonError> {
    match d {
        JsData::Boolean(b) => Ok(b),
        _ => Err(IonError::ValueCastError),
    }
}

impl JsBoolean {
    /// Creates a boolean.
    pub fn new(env: &mut Env, val: bool) -> (r: Result<Self>)
        requires
            old(env).wf(),
        ensures
            final(env).wf(),
            final(env).same_bookkeeping(old(env)),
            final(env).heap() == old(env).heap().push(JsData::Boolean(val)),
            r matches Ok(b) && b.handle().index() == old(env).heap().len(),
            r is Ok,
    {
        let value = env.allocate(JsData::Boolean(val));
        Ok(JsBoolean { value })
    }

    /// Reads the boolean; fails when the value is not a boolean.
    pub fn get_value(&self, env: &Env) -> (r: Result<bool>)
        requires
            env.valid(self.handle()),
        ensures
            r == boolean_value(env.data(self.handle())),
    {
        match env.get(self.value) {
            JsData::Boolean(b) => Ok(*b),
            _ => Err(IonError::ValueCastError),
        }
    }
}

impl ToJsValue for bool {
    open spec fn stands_for(&self, heap: Seq<JsData>, v: Value) -> bool {
        &&& 0 <= v.index() < heap.len()
        &&& heap[v.index()] == JsData::Boolean(*self)
    }

    open spec fn converts(&self) -> bool {
        true
    }

    open spec fn convert_error(&self) -> IonError {
        IonError::ValueCastError
    }

    open spec fn fits(&self, n: nat) -> bool {
        true
    }

    proof fn lemma_stands_for_kept(&self, h1: Seq<JsData>, h2: Seq<JsData>, v: Value) {
    }

    proof fn lemma_fits_grow(&self, n: nat, m: nat) {
    }

    fn to_js_value(env: &mut Env, val: Self) -> (r: Result<Value>) {
        let b = JsBoolean::new(env, val)?;
        Ok(b.value)
    }
}

impl Env {
    /// Creates a boolean.
    pub fn create_boolean(&mut self, value: bool) -> (r: Result<JsBoolean>)
        requires
            old(self).wf(),
        ensures
            final(self).wf(),
            final(self).same_bookkeeping(old(self)),
            final(self).heap() == old(self).heap().push(JsData::Boolean(value)),
            r matches Ok(b) && b.handle().index() == old(self).heap().len(),
            r is Ok,
    {
        JsBoolean::new(self, value)
    }
}

impl FromJsValue for JsBoolean {
    closed spec fn handle(&self) -> Value {
        self.value
    }

    open spec fn accepts(d: JsData) -> bool {
        d is Boolean
    }

    fn from_js_value(env: &Env, value: Value) -> (r: Result<Self>) {
        match env.get(value) {
            JsData::Boolean(_) => Ok(JsBoolean { value }),
            _ => Err(IonError::ValueCastError),
        }
    }

    fn from_value_unchecked(value: Value) -> (r: Self) {
        JsBoolean { value }
    }
}

impl JsValue for JsBoolean {
    fn value(&self) -> (r: &Value) {
        &self.value
    }
}

impl ToJsUnknown for JsBoolean {}

impl ToJsValue for JsBoolean {
    open spec fn stands_for(&self, heap: Seq<JsData>, v: Value) -> bool {
        v == self.handle()
    }

    open spec fn converts(&self) -> bool {
        true
    }

    open spec fn convert_error(&self) -> IonError {
        IonError::ValueCastError
    }

    open spec fn fits(&self, n: nat) -> bool {
        0 <= self.handle().index() < n
    }

    proof fn lemma_stands_for_kept(&self, h1: Seq<JsData>, h2: Seq<JsData>, v: Value) {
    }

    proof fn lemma_fits_grow(&self, n: nat, m: nat) {
    }

    fn to_js_value(env: &mut Env, val: Self) -> (r: Result<Value>) {
        Ok(val.value)
    }
}

} // verus!
