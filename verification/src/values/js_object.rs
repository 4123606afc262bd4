use vstd::prelude::*;

use crate::env::{is_js_object, Env, JsData, Value};
use crate::error::{IonError, Result};
use crate::traits::{FromJsValue, JsValue, ToJsUnknown, ToJsValue};

verus! {

/// A JavaScript object.
#[derive(Clone, Copy, Debug)]
pub struct JsObject {
    pub(crate) value: Value,
}

impl JsObject {
    /// Creates an object with no properties.
    pub fn new(env: &mut Env) -> (r: Result<Self>)
        requires
            old(env).wf(),
        ensures
            final(env).wf(),
            final(env).same_bookkeeping(old(env)),
            final(env).extends(old(env)),
            final(env).heap().len() == old(env).heap().len() + 1,
            r matches Ok(o) && o.handle().index() == old(env).heap().len()
                && final(env).data(o.handle()) is Object
                && final(env).properties(o.handle()).len() == 0,
    {
        let value = env.allocate(JsData::Object);
        Ok(JsObject { value })
    }
}

impl FromJsValue for JsObject {
    closed spec fn handle(&self) -> Value {
        self.value
    }

    open spec fn accepts(d: JsData) -> bool {
        is_js_object(d)
    }

    fn from_js_value(env: &Env, value: Value) -> (r: Result<Self>) {
        match env.get(value) {
            JsData::Object | JsData::Array(_) | JsData::ArrayBuffer { .. } | JsData::Function { .. } | JsData::Promise(_) => Ok(JsObject { value }),
            _ => Err(IonError::ValueCastError),
        }
    }

    fn from_value_unchecked(value: Value) -> (r: Self) {
        JsObject { value }
    }
}

impl JsValue for JsObject {
    fn value(&self) -> (r: &Value) {
        &self.value
    }
}

impl ToJsUnknown for JsObject {}

impl ToJsValue for JsObject {
    open spec fn stands_for(&self, heap: Seq<JsData>, v: Value) -> bool {
        v == self.handle()
    }

    open spec fn converts(&self) -> bool {
        true
    }

    open spec fn convert_error(&self) -> IonError {
        IonError::ValueCastError
    }

    open spec fn fits(&self, n: nat) -> bool {
        0 <= self.handle().index() < n
    }

    proof fn lemma_stands_for_kept(&self, h1: Seq<JsData>, h2: Seq<JsData>, v: Value) {
    }

    proof fn lemma_fits_grow(&self, n: nat, m: nat) {
    }

    fn to_js_value(env: &mut Env, val: Self) -> (r: Result<Value>) {
        Ok(val.value)
    }
}

} // verus!
