use vstd::prelude::*;

use crate::env::{Env, JsData, Value};
use crate::error::{IonError, Result};
use crate::traits::{FromJsValue, JsValue, ToJsUnknown, ToJsValue};

verus! {

/// A JavaScript value that was thrown.
#[derive(Clone, Copy, Debug)]
pub struct JsException {
    pub(crate) value: Value,
}

impl JsException {
    /// Sees the value as a `T` without checking its kind.
    pub fn cast_unchecked<T: FromJsValue>(self, env: &Env) -> (r: T)
        ensures
            r.handle() == self.handle(),
    {
        T::from_value_unchecked(self.value)
    }

    /// Sees the value as a `T`; fails with [`IonError::ValueCastError`]
    /// when the value is not of a kind that `T` wraps.
    pub fn cast<T: FromJsValue>(self, env: &Env) -> (r: Result<T>)
        requires
            env.valid(self.handle()),
        ensures
            r is Ok <==> T::accepts(env.data(self.handle())),
            r matches Ok(t) ==> t.handle() == self.handle(),
            r matches Err(e) ==> e == IonError::ValueCastError,
    {
        T::from_js_value(env, self.value)
    }
}

impl FromJsValue for JsException {
    closed spec fn handle(&self) -> Value {
        self.value
    }

    open spec fn accepts(d: JsData) -> bool {
        true
    }

    fn from_js_value(env: &Env, value: Value) -> (r: Result<Self>) {
        Ok(JsException { value })
    }

    fn from_value_unchecked(value: Value) -> (r: Self) {
        JsException { value }
    }
}

impl JsValue for JsException {
    fn value(&self) -> (r: &Value) {
        &self.value
    }
}

impl ToJsUnknown for JsException {}

impl ToJsValue for JsException {
    open spec fn stands_for(&self, heap: Seq<JsData>, v: Value) -> bool {
        v == self.handle()
    }

    open spec fn converts(&self) -> bool {
        true
    }

    open spec fn convert_error(&self) -> IonError {
        IonError::ValueCastError
    }

    open spec fn fits(&self, n: nat) -> bool {
        0 <= self.handle().index() < n
    }

    proof fn lemma_stands_for_kept(&self, h1: Seq<JsData>, h2: Seq<JsData>, v: Value) {
    }

    proof fn lemma_fits_grow(&self, n: nat, m: nat) {
    }

    fn to_js_value(env: &mut Env, val: Self) -> (r: Result<Value>) {
        Ok(val.value)
    }
}

} // verus!
