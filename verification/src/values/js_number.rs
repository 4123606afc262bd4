use vstd::prelude::*;

use crate::env::{Env, JsData, Value};
use crate::error::{IonError, Result};
use crate::traits::{FromJsValue, JsValue, ToJsUnknown, ToJsValue};

verus! {

/// A JavaScript number that holds an integer.
#[derive(Clone, Copy, Debug)]
pub struct JsNumber {
    pub(crate) value: Value,
}

/// JavaScript's `ToUint32` of an integer.
pub open spec fn to_uint32(n: int) -> int {
    n % 0x1_0000_0000
}

/// JavaScript's `ToInt32` of an integer.
pub open spec fn to_int32(n: int) -> int {
    if to_uint32(n) >= 0x8000_0000 {
        to_uint32(n) - 0x1_0000_0000
    } else {
        to_uint32(n)
    }
}

/// The integer that JavaScript's `ToUint32` and `ToInt32` start from for a
/// value that is not a string or an object: a number itself, 1 or 0 for a
/// boolean, and 0 for `null` and for `undefined` (whose `NaN` both
/// conversions turn into 0).
pub open spec fn integer_of(d: JsData) -> Option<int> {
    match d {
        JsData::Number(n) => Some(n as int),
        JsData::Boolean(b) => Some(if b { 1int } else { 0int }),
        JsData::Undefined => Some(0int),
        JsData::Null => Some(0int),
        _ => None,
    }
}

impl JsNumber {
    /// The integer that the conversions start from, for the values that
    /// `integer_of` covers.
    fn integer_value(env: &Env, v: Value) -> (n: i64)
        requires
            env.wf(),
            env.valid(v),
            integer_of(env.data(v)) is Some,
        ensures
            n == integer_of(env.data(v))->Some_0,
            -0x8000_0000 <= n < 0x1_0000_0000,
    {
        proof {
            assert(crate::env::value_in_range(env.heap()[v.index()]));
        }
        match env.get(v) {
            JsData::Number(n) => *n,
            JsData::Boolean(b) => if *b { 1 } else { 0 },
            _ => 0,
        }
    }

    /// Creates a number from an unsigned 32-bit integer.
    pub fn from_u32(env: &mut Env, val: u32) -> (r: Result<Self>)
        requires
            old(env).wf(),
        ensures
            final(env).wf(),
            final(env).same_bookkeeping(old(env)),
            final(env).heap() == old(env).heap().push(JsData::Number(val as i64)),
            r matches Ok(n) && n.handle().index() == old(env).heap().len(),
            r is Ok,
    {
        let value = env.allocate(JsData::Number(val as i64));
        Ok(JsNumber { value })
    }

    /// Creates a number from a signed 32-bit integer.
    pub fn from_i32(env: &mut Env, val: i32) -> (r: Result<Self>)
        requires
            old(env).wf(),
        ensures
            final(env).wf(),
            final(env).same_bookkeeping(old(env)),
            final(env).heap() == old(env).heap().push(JsData::Number(val as i64)),
            r matches Ok(n) && n.handle().index() == old(env).heap().len(),
            r is Ok,
    {
        let value = env.allocate(JsData::Number(val as i64));
        Ok(JsNumber { value })
    }

    /// Reads the value as JavaScript's `ToUint32` does.
    ///
    /// The value must not be a string or an object.
    pub fn get_u32(&self, env: &Env) -> (r: Result<u32>)
        requires
            env.wf(),
            env.valid(self.handle()),
            integer_of(env.data(self.handle())) is Some,
        ensures
            r matches Ok(x) && x == to_uint32(integer_of(env.data(self.handle()))->Some_0),
    {
        let n = JsNumber::integer_value(env, self.value);
        if n < 0 {
            Ok((n + 0x1_0000_0000) as u32)
        } else {
            Ok(n as u32)
        }
    }

    /// Reads the value as JavaScript's `ToInt32` does.
    ///
    /// The value must not be a string or an object.
    pub fn get_i32(&self, env: &Env) -> (r: Result<i32>)
        requires
            env.wf(),
            env.valid(self.handle()),
            integer_of(env.data(self.handle())) is Some,
        ensures
            r matches Ok(x) && x == to_int32(integer_of(env.data(self.handle()))->Some_0),
    {
        let n = JsNumber::integer_value(env, self.value);
        if n >= 0x8000_0000 {
            Ok((n - 0x1_0000_0000) as i32)
        } else {
            Ok(n as i32)
        }
    }
}

impl ToJsValue for i32 {
    open spec fn stands_for(&self, heap: Seq<JsData>, v: Value) -> bool {
        &&& 0 <= v.index() < heap.len()
        &&& heap[v.index()] == JsData::Number(*self as i64)
    }

    open spec fn converts(&self) -> bool {
        true
    }

    open spec fn convert_error(&self) -> IonError {
        IonError::ValueCastError
    }

    open spec fn fits(&self, n: nat) -> bool {
        true
    }

    proof fn lemma_stands_for_kept(&self, h1: Seq<JsData>, h2: Seq<JsData>, v: Value) {
    }

    proof fn lemma_fits_grow(&self, n: nat, m: nat) {
    }

    fn to_js_value(env: &mut Env, val: Self) -> (r: Result<Value>) {
        let n = JsNumber::from_i32(env, val)?;
        Ok(n.value)
    }
}

impl ToJsValue for u32 {
    open spec fn stands_for(&self, heap: Seq<JsData>, v: Value) -> bool {
        &&& 0 <= v.index() < heap.len()
        &&& heap[v.index()] == JsData::Number(*self as i64)
    }

    open spec fn converts(&self) -> bool {
        true
    }

    open spec fn convert_error(&self) -> IonError {
        IonError::ValueCastError
    }

    open spec fn fits(&self, n: nat) -> bool {
        true
    }

    proof fn lemma_stands_for_kept(&self, h1: Seq<JsData>, h2: Seq<JsData>, v: Value) {
    }

    proof fn lemma_fits_grow(&self, n: nat, m: nat) {
    }

    fn to_js_value(env: &mut Env, val: Self) -> (r: Result<Value>) {
        let n = JsNumber::from_u32(env, val)?;
        Ok(n.value)
    }
}

impl Env {
    /// Creates a number from a signed 32-bit integer.
    pub fn create_int32(&mut self, value: i32) -> (r: Result<JsNumber>)
        requires
            old(self).wf(),
        ensures
            final(self).wf(),
            final(self).same_bookkeeping(old(self)),
            final(self).heap() == old(self).heap().push(JsData::Number(value as i64)),
            r matches Ok(n) && n.handle().index() == old(self).heap().len(),
            r is Ok,
    {
        JsNumber::from_i32(self, value)
    }

    /// Creates a number from an unsigned 32-bit integer.
    pub fn create_uint32(&mut self, value: u32) -> (r: Result<JsNumber>)
        requires
            old(self).wf(),
        ensures
            final(self).wf(),
            final(self).same_bookkeeping(old(self)),
            final(self).heap() == old(self).heap().push(JsData::Number(value as i64)),
            r matches Ok(n) && n.handle().index() == old(self).heap().len(),
            r is Ok,
    {
        JsNumber::from_u32(self, value)
    }
}

impl FromJsValue for JsNumber {
    closed spec fn handle(&self) -> Value {
        self.value
    }

    open spec fn accepts(d: JsData) -> bool {
        d is Number
    }

    fn from_js_value(env: &Env, value: Value) -> (r: Result<Self>) {
        match env.get(value) {
            JsData::Number(_) => Ok(JsNumber { value }),
            _ => Err(IonError::ValueCastError),
        }
    }

    fn from_value_unchecked(value: Value) -> (r: Self) {
        JsNumber { value }
    }
}

impl JsValue for JsNumber {
    fn value(&self) -> (r: &Value) {
        &self.value
    }
}

impl ToJsUnknown for JsNumber {}

impl ToJsValue for JsNumber {
    open spec fn stands_for(&self, heap: Seq<JsData>, v: Value) -> bool {
        v == self.handle()
    }

    open spec fn converts(&self) -> bool {
        true
    }

    open spec fn convert_error(&self) -> IonError {
        IonError::ValueCastError
    }

    open spec fn fits(&self, n: nat) -> bool {
        0 <= self.handle().index() < n
    }

    proof fn lemma_stands_for_kept(&self, h1: Seq<JsData>, h2: Seq<JsData>, v: Value) {
    }

    proof fn lemma_fits_grow(&self, n: nat, m: nat) {
    }

    fn to_js_value(env: &mut Env, val: Self) -> (r: Result<Value>) {
        Ok(val.value)
    }
}

} // verus!
