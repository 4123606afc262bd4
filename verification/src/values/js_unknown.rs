use vstd::prelude::*;

use crate::env::{js_type_of, undefined_handle, Env, JsData, Value};
use crate::error::{IonError, Result};
use crate::traits::{FromJsValue, JsValue, ToJsUnknown, ToJsValue};

verus! {

/// A JavaScript value of unknown type.
#[derive(Clone, Copy, Debug)]
pub struct JsUnknown {
    pub(crate) value: Value,
}

impl JsUnknown {
    /// Wraps a handle.
    pub(crate) fn from_handle(value: Value) -> (r: JsUnknown)
        ensures
            r.handle() == value,
    {
        JsUnknown { value }
    }

    /// Sees the value as a `T` without checking its kind.
    pub fn cast_unchecked<T: FromJsValue>(self, env: &Env) -> (r: T)
        ensures
            r.handle() == self.handle(),
    {
        T::from_value_unchecked(self.value)
    }

    /// Sees the value as a `T`; fails with [`IonError::ValueCastError`]
    /// when the value is not of a kind that `T` wraps.
    pub fn cast<T: FromJsValue>(self, env: &Env) -> (r: Result<T>)
        requires
            env.valid(self.handle()),
        ensures
            r is Ok <==> T::accepts(env.data(self.handle())),
            r matches Ok(t) ==> t.handle() == self.handle(),
            r matches Err(e) ==> e == IonError::ValueCastError,
    {
        T::from_js_value(env, self.value)
    }

    /// `typeof` of the value.
    pub fn type_of(&self, env: &Env) -> (r: String)
        requires
            env.valid(self.handle()),
        ensures
            r@ == js_type_of(env.data(self.handle())),
    {
        env.type_of(self.value)
    }
}

impl FromJsValue for JsUnknown {
    closed spec fn handle(&self) -> Value {
        self.value
    }

    open spec fn accepts(d: JsData) -> bool {
        true
    }

    fn from_js_value(env: &Env, value: Value) -> (r: Result<Self>) {
        Ok(JsUnknown { value })
    }

    fn from_value_unchecked(value: Value) -> (r: Self) {
        JsUnknown { value }
    }
}

impl JsValue for JsUnknown {
    fn value(&self) -> (r: &Value) {
        &self.value
    }
}

impl ToJsUnknown for JsUnknown {}

impl ToJsValue for JsUnknown {
    open spec fn stands_for(&self, heap: Seq<JsData>, v: Value) -> bool {
        v == self.handle()
    }

    open spec fn converts(&self) -> bool {
        true
    }

    open spec fn convert_error(&self) -> IonError {
        IonError::ValueCastError
    }

    open spec fn fits(&self, n: nat) -> bool {
        0 <= self.handle().index() < n
    }

    proof fn lemma_stands_for_kept(&self, h1: Seq<JsData>, h2: Seq<JsData>, v: Value) {
    }

    proof fn lemma_fits_grow(&self, n: nat, m: nat) {
    }

    fn to_js_value(env: &mut Env, val: Self) -> (r: Result<Value>) {
        Ok(val.value)
    }
}

impl ToJsValue for () {
    open spec fn stands_for(&self, heap: Seq<JsData>, v: Value) -> bool {
        v == undefined_handle()
    }

    open spec fn converts(&self) -> bool {
        true
    }

    open spec fn convert_error(&self) -> IonError {
        IonError::ValueCastError
    }

    open spec fn fits(&self, n: nat) -> bool {
        true
    }

    proof fn lemma_stands_for_kept(&self, h1: Seq<JsData>, h2: Seq<JsData>, v: Value) {
    }

    proof fn lemma_fits_grow(&self, n: nat, m: nat) {
    }

    fn to_js_value(env: &mut Env, val: Self) -> (r: Result<Value>) {
        Ok(env.undefined())
    }
}

} // verus!
