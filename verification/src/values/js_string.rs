use vstd::prelude::*;

use crate::env::{Env, JsData, Value};
use crate::error::{IonError, Result};
use crate::traits::{FromJsValue, JsValue, ToJsUnknown, ToJsValue};

verus! {

/// A JavaScript string.
#[derive(Clone, Copy, Debug)]
pub struct JsString {
    pub(crate) value: Value,
}

/// In the store `heap`, the handle `v` holds the string `text`.
pub open spec fn holds_string(heap: Seq<JsData>, v: Value, text: Seq<char>) -> bool {
    &&& 0 <= v.index() < heap.len()
    &&& heap[v.index()] matches JsData::String(s)
    &&& s@ == text
}

/// What reading a value as a string gives: its text, or an error for any
/// value that is not a string.
pub open spec fn string_contents(d: JsData) -> core::result::Result<Seq<char>, IonError> {
    match d {
        JsData::String(s) => Ok(s@),
        _ => Err(IonError::ValueCastError),
    }
}

impl JsString {
    /// Creates a string.
    pub fn new(env: &mut Env, text: &str) -> (r: Result<Self>)
        requires
            old(env).wf(),
        ensures
            final(env).wf(),
            final(env).same_bookkeeping(old(env)),
            final(env).heap().len() == old(env).heap().len() + 1,
            final(env).extends(old(env)),
            r matches Ok(s) && s.handle().index() == old(env).heap().len()
                && holds_string(final(env).heap(), s.handle(), text@),
    {
        let value = env.allocate(JsData::String(String::from_str(text)));
        Ok(JsString { value })
    }

    /// Reads the string; fails when the value is not a string.
    pub fn get_string(&self, env: &Env) -> (r: Result<String>)
        requires
            env.valid(self.handle()),
        ensures
            match string_contents(env.data(self.handle())) {
                Ok(text) => r matches Ok(t) && t@ == text,
                Err(e) => r matches Err(x) && x == e,
            },
    {
        match env.get(self.value) {
            JsData::String(s) => Ok(s.clone()),
            _ => Err(IonError::ValueCastError),
        }
    }
}

impl ToJsValue for String {
    open spec fn stands_for(&self, heap: Seq<JsData>, v: Value) -> bool {
        holds_string(heap, v, self@)
    }

    open spec fn converts(&self) -> bool {
        true
    }

    open spec fn convert_error(&self) -> IonError {
        IonError::ValueCastError
    }

    open spec fn fits(&self, n: nat) -> bool {
        true
    }

    proof fn lemma_stands_for_kept(&self, h1: Seq<JsData>, h2: Seq<JsData>, v: Value) {
    }

    proof fn lemma_fits_grow(&self, n: nat, m: nat) {
    }

    fn to_js_value(env: &mut Env, val: Self) -> (r: Result<Value>) {
        let s = JsString::new(env, val.as_str())?;
        Ok(s.value)
    }
}

impl<'a> ToJsValue for &'a str {
    open spec fn stands_for(&self, heap: Seq<JsData>, v: Value) -> bool {
        holds_string(heap, v, self@)
    }

    open spec fn converts(&self) -> bool {
        true
    }

    open spec fn convert_error(&self) -> IonError {
        IonError::ValueCastError
    }

    open spec fn fits(&self, n: nat) -> bool {
        true
    }

    proof fn lemma_stands_for_kept(&self, h1: Seq<JsData>, h2: Seq<JsData>, v: Value) {
    }

    proof fn lemma_fits_grow(&self, n: nat, m: nat) {
    }

    fn to_js_value(env: &mut Env, val: Self) -> (r: Result<Value>) {
        let s = JsString::new(env, val)?;
        Ok(s.value)
    }
}

impl Env {
    /// Creates a string.
    pub fn create_string(&mut self, value: &str) -> (r: Result<JsString>)
        requires
            old(self).wf(),
        ensures
            final(self).wf(),
            final(self).same_bookkeeping(old(self)),
            final(self).heap().len() == old(self).heap().len() + 1,
            final(self).extends(old(self)),
            r matches Ok(s) && s.handle().index() == old(self).heap().len()
                && holds_string(final(self).heap(), s.handle(), value@),
    {
        JsString::new(self, value)
    }
}

impl FromJsValue for JsString {
    closed spec fn handle(&self) -> Value {
        self.value
    }

    open spec fn accepts(d: JsData) -> bool {
        d is String
    }

    fn from_js_value(env: &Env, value: Value) -> (r: Result<Self>) {
        match env.get(value) {
            JsData::String(_) => Ok(JsString { value }),
            _ => Err(IonError::ValueCastError),
        }
    }

    fn from_value_unchecked(value: Value) -> (r: Self) {
        JsString { value }
    }
}

impl JsValue for JsString {
    fn value(&self) -> (r: &Value) {
        &self.value
    }
}

impl ToJsUnknown for JsString {}

impl ToJsValue for JsString {
    open spec fn stands_for(&self, heap: Seq<JsData>, v: Value) -> bool {
        v == self.handle()
    }

    open spec fn converts(&self) -> bool {
        true
    }

    open spec fn convert_error(&self) -> IonError {
        IonError::ValueCastError
    }

    open spec fn fits(&self, n: nat) -> bool {
        0 <= self.handle().index() < n
    }

    proof fn lemma_stands_for_kept(&self, h1: Seq<JsData>, h2: Seq<JsData>, v: Value) {
    }

    proof fn lemma_fits_grow(&self, n: nat, m: nat) {
    }

    fn to_js_value(env: &mut Env, val: Self) -> (r: Result<Value>) {
        Ok(val.value)
    }
}

} // verus!
