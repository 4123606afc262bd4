use vstd::prelude::*;

use crate::env::{js_type_of, Env, JsData, Value};
use crate::error::{IonError, Result};
use crate::values::js_unknown::JsUnknown;

verus! {

/// Heaps `h2` holds every value of `h1` unchanged, and possibly more.
pub open spec fn heap_extends(h2: Seq<JsData>, h1: Seq<JsData>) -> bool {
    &&& h1.len() <= h2.len()
    &&& forall|i: int| 0 <= i < h1.len() ==> #[trigger] h2[i] == h1[i]
}

/// Conversion of a JavaScript value into a native value.
pub trait FromJsValue: Sized {
    /// The handle that the native value wraps.
    spec fn handle(&self) -> Value;

    /// The kinds of JavaScript value that this type wraps.
    spec fn accepts(d: JsData) -> bool;

    /// Wraps a JavaScript value; fails with
    /// [`IonError::ValueCastError`] when the value is not of a kind that
    /// this type wraps.
    fn from_js_value(env: &Env, value: Value) -> (r: Result<Self>)
        requires
            env.valid(value),
        ensures
            r is Ok <==> Self::accepts(env.data(value)),
            r matches Ok(x) ==> x.handle() == value,
            r matches Err(e) ==> e == IonError::ValueCastError,
    ;

    /// Wraps a JavaScript value without looking at its kind.
    fn from_value_unchecked(value: Value) -> (r: Self)
        ensures
            r.handle() == value,
    ;
}

/// A native value that wraps a JavaScript value.
pub trait JsValue: Sized + FromJsValue {
    /// The wrapped handle.
    fn value(&self) -> (r: &Value)
        ensures
            *r == self.handle(),
    ;

    /// `typeof` of the wrapped value.
    fn type_of(&self, env: &Env) -> (r: String)
        requires
            env.valid(self.handle()),
        ensures
            r@ == js_type_of(env.data(self.handle())),
    {
        env.type_of(*self.value())
    }
}

/// Conversion of a native value into a JavaScript value.
pub trait ToJsValue: Sized {
    /// In the store `heap`, the handle `v` stands for `self`.
    spec fn stands_for(&self, heap: Seq<JsData>, v: Value) -> bool;

    /// Every handle that `self` holds lies in a store of `n` values.
    spec fn fits(&self, n: nat) -> bool;

    /// What `v` stands for stays when the store only grows.
    proof fn lemma_stands_for_kept(&self, h1: Seq<JsData>, h2: Seq<JsData>, v: Value)
        requires
            self.stands_for(h1, v),
            heap_extends(h2, h1),
        ensures
            self.stands_for(h2, v),
    ;

    /// A store of more values still holds every handle of `self`.
    proof fn lemma_fits_grow(&self, n: nat, m: nat)
        requires
            self.fits(n),
            n <= m,
        ensures
            self.fits(m),
    ;

    /// The conversion of `self` succeeds.
    spec fn converts(&self) -> bool;

    /// The error that the conversion of `self` fails with, when it fails.
    spec fn convert_error(&self) -> IonError;

    /// Converts `val` into a JavaScript value of `env`; succeeds exactly when
    /// `val.converts()`, and fails with `val.convert_error()` otherwise.
    fn to_js_value(env: &mut Env, val: Self) -> (r: Result<Value>)
        requires
            old(env).wf(),
            val.fits(old(env).heap().len()),
        ensures
            final(env).wf(),
            final(env).extends(old(env)),
            final(env).same_bookkeeping(old(env)),
            r is Ok <==> val.converts(),
            r matches Err(e) ==> e == val.convert_error(),
            r matches Ok(v) ==> final(env).valid(v) && val.stands_for(final(env).heap(), v),
    ;
}

/// A wrapped value that can be seen as a value of unknown type.
pub trait ToJsUnknown: Sized + JsValue {
    /// Forgets the type of the wrapped value.
    fn into_unknown(self) -> (r: JsUnknown)
        ensures
            r.handle() == self.handle(),
    {
        JsUnknown::from_handle(*self.value())
    }
}

} // verus!
