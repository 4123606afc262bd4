use vstd::prelude::*;

use crate::env::{js_type_of, null_handle, Env, JsData, Value};
use crate::error::{IonError, Result};
use crate::traits::{FromJsValue, JsValue, ToJsUnknown, ToJsValue};

verus! {

/// The JavaScript `null` value.
#[derive(Clone, Copy, Debug)]
pub struct JsNull {
    pub(crate) value: Value,
}

impl JsNull {
    /// Sees the value as a `T` without checking its kind.
    pub fn cast_unchecked<T: FromJsValue>(self, env: &Env) -> (r: T)
        ensures
            r.handle() == self.handle(),
    {
        T::from_value_unchecked(self.value)
    }

    /// Sees the value as a `T`; fails with [`IonError::ValueCastError`]
    /// when the value is not of a kind that `T` wraps.
    pub fn cast<T: FromJsValue>(self, env: &Env) -> (r: Result<T>)
        requires
            env.valid(self.handle()),
        ensures
            r is Ok <==> T::accepts(env.data(self.handle())),
            r matches Ok(t) ==> t.handle() == self.handle(),
            r matches Err(e) ==> e == IonError::ValueCastError,
    {
        T::from_js_value(env, self.value)
    }

    /// `typeof` of the value.
    pub fn type_of(&self, env: &Env) -> (r: String)
        requires
            env.valid(self.handle()),
        ensures
            r@ == js_type_of(env.data(self.handle())),
    {
        env.type_of(self.value)
    }
}

impl Env {
    /// The `null` value.
    pub fn get_null(&self) -> (r: Result<JsNull>)
        requires
            self.wf(),
        ensures
            r matches Ok(n) && n.handle() == null_handle() && self.valid(n.handle())
                && self.data(n.handle()) is Null,
    {
        let value = self.null();
        JsNull::from_js_value(self, value)
    }
}

impl FromJsValue for JsNull {
    closed spec fn handle(&self) -> Value {
        self.value
    }

    open spec fn accepts(d: JsData) -> bool {
        d is Null
    }

    fn from_js_value(env: &Env, value: Value) -> (r: Result<Self>) {
        match env.get(value) {
            JsData::Null => Ok(JsNull { value }),
            _ => Err(IonError::ValueCastError),
        }
    }

    fn from_value_unchecked(value: Value) -> (r: Self) {
        JsNull { value }
    }
}

impl JsValue for JsNull {
    fn value(&self) -> (r: &Value) {
        &self.value
    }
}

impl ToJsUnknown for JsNull {}

impl ToJsValue for JsNull {
    open spec fn stands_for(&self, heap: Seq<JsData>, v: Value) -> bool {
        v == self.handle()
    }

    open spec fn converts(&self) -> bool {
        true
    }

    open spec fn convert_error(&self) -> IonError {
        IonError::ValueCastError
    }

    open spec fn fits(&self, n: nat) -> bool {
        0 <= self.handle().index() < n
    }

    proof fn lemma_stands_for_kept(&self, h1: Seq<JsData>, h2: Seq<JsData>, v: Value) {
    }

    proof fn lemma_fits_grow(&self, n: nat, m: nat) {
    }

    fn to_js_value(env: &mut Env, val: Self) -> (r: Result<Value>) {
        Ok(val.value)
    }
}

} // verus!
