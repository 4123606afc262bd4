use vstd::prelude::*;

use crate::env::{Env, JsData, Value};
use crate::error::{IonError, Result};
use crate::traits::{heap_extends, ToJsValue};

verus! {

/// Conversion of the arguments of a call into JavaScript values.
pub trait JsValuesTupleIntoVec: Sized {
    /// The number of arguments.
    spec fn arity(&self) -> nat;

    /// Every handle that the arguments hold lies in a store of `n` values.
    spec fn args_fit(&self, n: nat) -> bool;

    /// The conversion of every argument succeeds.
    spec fn args_convert(&self) -> bool;

    /// The error of the first argument whose conversion fails.
    spec fn args_error(&self) -> IonError;

    /// In the store `heap`, `args` stand for the arguments, in order.
    spec fn args_stand_for(&self, heap: Seq<JsData>, args: Seq<Value>) -> bool;

    /// What `args` stand for stays when the store only grows.
    proof fn lemma_args_kept(&self, h1: Seq<JsData>, h2: Seq<JsData>, args: Seq<Value>)
        requires
            self.args_stand_for(h1, args),
            heap_extends(h2, h1),
        ensures
            self.args_stand_for(h2, args),
    ;

    /// Converts the arguments, in order, stopping at the first conversion
    /// that fails.
    fn into_vec(self, env: &mut Env) -> (r: Result<Vec<Value>>)
        requires
            old(env).wf(),
            self.args_fit(old(env).heap().len()),
        ensures
            final(env).wf(),
            final(env).extends(old(env)),
            final(env).same_bookkeeping(old(env)),
            r is Ok <==> self.args_convert(),
            r matches Err(e) ==> e == self.args_error(),
            r matches Ok(args) ==> args@.len() == self.arity()
                && self.args_stand_for(final(env).heap(), args@)
                && forall|i: int| 0 <= i < args@.len() ==> final(env).valid(#[trigger] args@[i]),
    ;
}

/// Conversion of JavaScript values into the arguments of a native call.
pub trait TupleFromSliceValues: Sized {
    /// Reads the arguments from `values`.
    fn from_slice_values(env: &Env, values: &[Value]) -> Result<Self>;
}

/// The arguments of a call, wrapped.
pub struct FnArgs<T> {
    pub data: T,
}

impl<T> From<T> for FnArgs<T> {
    fn from(value: T) -> (r: Self) {
        FnArgs { data: value }
    }
}

impl<T> vstd::std_specs::convert::FromSpecImpl<T> for FnArgs<T> {
    open spec fn obeys_from_spec() -> bool {
        true
    }

    open spec fn from_spec(value: T) -> Self {
        FnArgs { data: value }
    }
}

/// A single value is one argument; a value of size zero, such as `()`, is
/// none.
impl<T: ToJsValue> JsValuesTupleIntoVec for T {
    open spec fn arity(&self) -> nat {
        if vstd::layout::size_of::<T>() == 0 { 0 } else { 1 }
    }

    open spec fn args_fit(&self, n: nat) -> bool {
        self.fits(n)
    }

    open spec fn args_convert(&self) -> bool {
        vstd::layout::size_of::<T>() == 0 || self.converts()
    }

    open spec fn args_error(&self) -> IonError {
        self.convert_error()
    }

    open spec fn args_stand_for(&self, heap: Seq<JsData>, args: Seq<Value>) -> bool {
        if vstd::layout::size_of::<T>() == 0 {
            args.len() == 0
        } else {
            args.len() == 1 && self.stands_for(heap, args[0])
        }
    }

    proof fn lemma_args_kept(&self, h1: Seq<JsData>, h2: Seq<JsData>, args: Seq<Value>) {
        if vstd::layout::size_of::<T>() != 0 {
            self.lemma_stands_for_kept(h1, h2, args[0]);
        }
    }

    fn into_vec(self, env: &mut Env) -> (r: Result<Vec<Value>>) {
        if std::mem::size_of::<T>() == 0 {
            let out: Vec<Value> = Vec::new();
            Ok(out)
        } else {
            let v = T::to_js_value(env, self)?;
            let mut out: Vec<Value> = Vec::new();
            out.push(v);
            Ok(out)
        }
    }
}

impl<A: ToJsValue, B: ToJsValue> JsValuesTupleIntoVec for (A, B) {
    open spec fn arity(&self) -> nat {
        2
    }

    open spec fn args_fit(&self, n: nat) -> bool {
        &&& self.0.fits(n)
        &&& self.1.fits(n)
    }

    open spec fn args_convert(&self) -> bool {
        &&& self.0.converts()
        &&& self.1.converts()
    }

    open spec fn args_error(&self) -> IonError {
        if !self.0.converts() {
            self.0.convert_error()
        } else if !self.1.converts() {
            self.1.convert_error()
        } else {
            IonError::ValueCastError
        }
    }

    open spec fn args_stand_for(&self, heap: Seq<JsData>, args: Seq<Value>) -> bool {
        &&& args.len() == 2
        &&& self.0.stands_for(heap, args[0])
        &&& self.1.stands_for(heap, args[1])
    }

    proof fn lemma_args_kept(&self, h1: Seq<JsData>, h2: Seq<JsData>, args: Seq<Value>) {
        self.0.lemma_stands_for_kept(h1, h2, args[0]);
        self.1.lemma_stands_for_kept(h1, h2, args[1]);
    }

    fn into_vec(self, env: &mut Env) -> (r: Result<Vec<Value>>) {
        let ghost start = *env;
        let mut out: Vec<Value> = Vec::new();
        proof {
            self.0.lemma_fits_grow(start.heap().len(), env.heap().len());
        }
        let v0 = A::to_js_value(env, self.0)?;
        out.push(v0);
        let ghost before1 = *env;
        proof {
            self.1.lemma_fits_grow(start.heap().len(), env.heap().len());
        }
        let v1 = B::to_js_value(env, self.1)?;
        proof {
            self.0.lemma_stands_for_kept(before1.heap(), env.heap(), v0);
        }
        out.push(v1);
        Ok(out)
    }
}

impl<A: ToJsValue, B: ToJsValue, C: ToJsValue> JsValuesTupleIntoVec for (A, B, C) {
    open spec fn arity(&self) -> nat {
        3
    }

    open spec fn args_fit(&self, n: nat) -> bool {
        &&& self.0.fits(n)
        &&& self.1.fits(n)
        &&& self.2.fits(n)
    }

    open spec fn args_convert(&self) -> bool {
        &&& self.0.converts()
        &&& self.1.converts()
        &&& self.2.converts()
    }

    open spec fn args_error(&self) -> IonError {
        if !self.0.converts() {
            self.0.convert_error()
        } else if !self.1.converts() {
            self.1.convert_error()
        } else if !self.2.converts() {
            self.2.convert_error()
        } else {
            IonError::ValueCastError
        }
    }

    open spec fn args_stand_for(&self, heap: Seq<JsData>, args: Seq<Value>) -> bool {
        &&& args.len() == 3
        &&& self.0.stands_for(heap, args[0])
        &&& self.1.stands_for(heap, args[1])
        &&& self.2.stands_for(heap, args[2])
    }

    proof fn lemma_args_kept(&self, h1: Seq<JsData>, h2: Seq<JsData>, args: Seq<Value>) {
        self.0.lemma_stands_for_kept(h1, h2, args[0]);
        self.1.lemma_stands_for_kept(h1, h2, args[1]);
        self.2.lemma_stands_for_kept(h1, h2, args[2]);
    }

    fn into_vec(self, env: &mut Env) -> (r: Result<Vec<Value>>) {
        let ghost start = *env;
        let mut out: Vec<Value> = Vec::new();
        proof {
            self.0.lemma_fits_grow(start.heap().len(), env.heap().len());
        }
        let v0 = A::to_js_value(env, self.0)?;
        out.push(v0);
        let ghost before1 = *env;
        proof {
            self.1.lemma_fits_grow(start.heap().len(), env.heap().len());
        }
        let v1 = B::to_js_value(env, self.1)?;
        proof {
            self.0.lemma_stands_for_kept(before1.heap(), env.heap(), v0);
        }
        out.push(v1);
        let ghost before2 = *env;
        proof {
            self.2.lemma_fits_grow(start.heap().len(), env.heap().len());
        }
        let v2 = C::to_js_value(env, self.2)?;
        proof {
            self.0.lemma_stands_for_kept(before2.heap(), env.heap(), v0);
            self.1.lemma_stands_for_kept(before2.heap(), env.heap(), v1);
        }
        out.push(v2);
        Ok(out)
    }
}

impl<A: ToJsValue, B: ToJsValue, C: ToJsValue, D: ToJsValue> JsValuesTupleIntoVec for (A, B, C, D) {
    open spec fn arity(&self) -> nat {
        4
    }

    open spec fn args_fit(&self, n: nat) -> bool {
        &&& self.0.fits(n)
        &&& self.1.fits(n)
        &&& self.2.fits(n)
        &&& self.3.fits(n)
    }

    open spec fn args_convert(&self) -> bool {
        &&& self.0.converts()
        &&& self.1.converts()
        &&& self.2.converts()
        &&& self.3.converts()
    }

    open spec fn args_error(&self) -> IonError {
        if !self.0.converts() {
            self.0.convert_error()
        } else if !self.1.converts() {
            self.1.convert_error()
        } else if !self.2.converts() {
            self.2.convert_error()
        } else if !self.3.converts() {
            self.3.convert_error()
        } else {
            IonError::ValueCastError
        }
    }

    open spec fn args_stand_for(&self, heap: Seq<JsData>, args: Seq<Value>) -> bool {
        &&& args.len() == 4
        &&& self.0.stands_for(heap, args[0])
        &&& self.1.stands_for(heap, args[1])
        &&& self.2.stands_for(heap, args[2])
        &&& self.3.stands_for(heap, args[3])
    }

    proof fn lemma_args_kept(&self, h1: Seq<JsData>, h2: Seq<JsData>, args: Seq<Value>) {
        self.0.lemma_stands_for_kept(h1, h2, args[0]);
        self.1.lemma_stands_for_kept(h1, h2, args[1]);
        self.2.lemma_stands_for_kept(h1, h2, args[2]);
        self.3.lemma_stands_for_kept(h1, h2, args[3]);
    }

    fn into_vec(self, env: &mut Env) -> (r: Result<Vec<Value>>) {
        let ghost start = *env;
        let mut out: Vec<Value> = Vec::new();
        proof {
            self.0.lemma_fits_grow(start.heap().len(), env.heap().len());
        }
        let v0 = A::to_js_value(env, self.0)?;
        out.push(v0);
        let ghost before1 = *env;
        proof {
            self.1.lemma_fits_grow(start.heap().len(), env.heap().len());
        }
        let v1 = B::to_js_value(env, self.1)?;
        proof {
            self.0.lemma_stands_for_kept(before1.heap(), env.heap(), v0);
        }
        out.push(v1);
        let ghost before2 = *env;
        proof {
            self.2.lemma_fits_grow(start.heap().len(), env.heap().len());
        }
        let v2 = C::to_js_value(env, self.2)?;
        proof {
            self.0.lemma_stands_for_kept(before2.heap(), env.heap(), v0);
            self.1.lemma_stands_for_kept(before2.heap(), env.heap(), v1);
        }
        out.push(v2);
        let ghost before3 = *env;
        proof {
            self.3.lemma_fits_grow(start.heap().len(), env.heap().len());
        }
        let v3 = D::to_js_value(env, self.3)?;
        proof {
            self.0.lemma_stands_for_kept(before3.heap(), env.heap(), v0);
            self.1.lemma_stands_for_kept(before3.heap(), env.heap(), v1);
            self.2.lemma_stands_for_kept(before3.heap(), env.heap(), v2);
        }
        out.push(v3);
        Ok(out)
    }
}

impl<A: ToJsValue, B: ToJsValue, C: ToJsValue, D: ToJsValue, E: ToJsValue> JsValuesTupleIntoVec for (A, B, C, D, E) {
    open spec fn arity(&self) -> nat {
        5
    }

    open spec fn args_fit(&self, n: nat) -> bool {
        &&& self.0.fits(n)
        &&& self.1.fits(n)
        &&& self.2.fits(n)
        &&& self.3.fits(n)
        &&& self.4.fits(n)
    }

    open spec fn args_convert(&self) -> bool {
        &&& self.0.converts()
        &&& self.1.converts()
        &&& self.2.converts()
        &&& self.3.converts()
        &&& self.4.converts()
    }

    open spec fn args_error(&self) -> IonError {
        if !self.0.converts() {
            self.0.convert_error()
        } else if !self.1.converts() {
            self.1.convert_error()
        } else if !self.2.converts() {
            self.2.convert_error()
        } else if !self.3.converts() {
            self.3.convert_error()
        } else if !self.4.converts() {
            self.4.convert_error()
        } else {
            IonError::ValueCastError
        }
    }

    open spec fn args_stand_for(&self, heap: Seq<JsData>, args: Seq<Value>) -> bool {
        &&& args.len() == 5
        &&& self.0.stands_for(heap, args[0])
        &&& self.1.stands_for(heap, args[1])
        &&& self.2.stands_for(heap, args[2])
        &&& self.3.stands_for(heap, args[3])
        &&& self.4.stands_for(heap, args[4])
    }

    proof fn lemma_args_kept(&self, h1: Seq<JsData>, h2: Seq<JsData>, args: Seq<Value>) {
        self.0.lemma_stands_for_kept(h1, h2, args[0]);
        self.1.lemma_stands_for_kept(h1, h2, args[1]);
        self.2.lemma_stands_for_kept(h1, h2, args[2]);
        self.3.lemma_stands_for_kept(h1, h2, args[3]);
        self.4.lemma_stands_for_kept(h1, h2, args[4]);
    }

    fn into_vec(self, env: &mut Env) -> (r: Result<Vec<Value>>) {
        let ghost start = *env;
        let mut out: Vec<Value> = Vec::new();
        proof {
            self.0.lemma_fits_grow(start.heap().len(), env.heap().len());
        }
        let v0 = A::to_js_value(env, self.0)?;
        out.push(v0);
        let ghost before1 = *env;
        proof {
            self.1.lemma_fits_grow(start.heap().len(), env.heap().len());
        }
        let v1 = B::to_js_value(env, self.1)?;
        proof {
            self.0.lemma_stands_for_kept(before1.heap(), env.heap(), v0);
        }
        out.push(v1);
        let ghost before2 = *env;
        proof {
            self.2.lemma_fits_grow(start.heap().len(), env.heap().len());
        }
        let v2 = C::to_js_value(env, self.2)?;
        proof {
            self.0.lemma_stands_for_kept(before2.heap(), env.heap(), v0);
            self.1.lemma_stands_for_kept(before2.heap(), env.heap(), v1);
        }
        out.push(v2);
        let ghost before3 = *env;
        proof {
            self.3.lemma_fits_grow(start.heap().len(), env.heap().len());
        }
        let v3 = D::to_js_value(env, self.3)?;
        proof {
            self.0.lemma_stands_for_kept(before3.heap(), env.heap(), v0);
            self.1.lemma_stands_for_kept(before3.heap(), env.heap(), v1);
            self.2.lemma_stands_for_kept(before3.heap(), env.heap(), v2);
        }
        out.push(v3);
        let ghost before4 = *env;
        proof {
            self.4.lemma_fits_grow(start.heap().len(), env.heap().len());
        }
        let v4 = E::to_js_value(env, self.4)?;
        proof {
            self.0.lemma_stands_for_kept(before4.heap(), env.heap(), v0);
            self.1.lemma_stands_for_kept(before4.heap(), env.heap(), v1);
            self.2.lemma_stands_for_kept(before4.heap(), env.heap(), v2);
            self.3.lemma_stands_for_kept(before4.heap(), env.heap(), v3);
        }
        out.push(v4);
        Ok(out)
    }
}

impl<A: ToJsValue, B: ToJsValue, C: ToJsValue, D: ToJsValue, E: ToJsValue, F: ToJsValue> JsValuesTupleIntoVec for (A, B, C, D, E, F) {
    open spec fn arity(&self) -> nat {
        6
    }

    open spec fn args_fit(&self, n: nat) -> bool {
        &&& self.0.fits(n)
        &&& self.1.fits(n)
        &&& self.2.fits(n)
        &&& self.3.fits(n)
        &&& self.4.fits(n)
        &&& self.5.fits(n)
    }

    open spec fn args_convert(&self) -> bool {
        &&& self.0.converts()
        &&& self.1.converts()
        &&& self.2.converts()
        &&& self.3.converts()
        &&& self.4.converts()
        &&& self.5.converts()
    }

    open spec fn args_error(&self) -> IonError {
        if !self.0.converts() {
            self.0.convert_error()
        } else if !self.1.converts() {
            self.1.convert_error()
        } else if !self.2.converts() {
            self.2.convert_error()
        } else if !self.3.converts() {
            self.3.convert_error()
        } else if !self.4.converts() {
            self.4.convert_error()
        } else if !self.5.converts() {
            self.5.convert_error()
        } else {
            IonError::ValueCastError
        }
    }

    open spec fn args_stand_for(&self, heap: Seq<JsData>, args: Seq<Value>) -> bool {
        &&& args.len() == 6
        &&& self.0.stands_for(heap, args[0])
        &&& self.1.stands_for(heap, args[1])
        &&& self.2.stands_for(heap, args[2])
        &&& self.3.stands_for(heap, args[3])
        &&& self.4.stands_for(heap, args[4])
        &&& self.5.stands_for(heap, args[5])
    }

    proof fn lemma_args_kept(&self, h1: Seq<JsData>, h2: Seq<JsData>, args: Seq<Value>) {
        self.0.lemma_stands_for_kept(h1, h2, args[0]);
        self.1.lemma_stands_for_kept(h1, h2, args[1]);
        self.2.lemma_stands_for_kept(h1, h2, args[2]);
        self.3.lemma_stands_for_kept(h1, h2, args[3]);
        self.4.lemma_stands_for_kept(h1, h2, args[4]);
        self.5.lemma_stands_for_kept(h1, h2, args[5]);
    }

    fn into_vec(self, env: &mut Env) -> (r: Result<Vec<Value>>) {
        let ghost start = *env;
        let mut out: Vec<Value> = Vec::new();
        proof {
            self.0.lemma_fits_grow(start.heap().len(), env.heap().len());
        }
        let v0 = A::to_js_value(env, self.0)?;
        out.push(v0);
        let ghost before1 = *env;
        proof {
            self.1.lemma_fits_grow(start.heap().len(), env.heap().len());
        }
        let v1 = B::to_js_value(env, self.1)?;
        proof {
            self.0.lemma_stands_for_kept(before1.heap(), env.heap(), v0);
        }
        out.push(v1);
        let ghost before2 = *env;
        proof {
            self.2.lemma_fits_grow(start.heap().len(), env.heap().len());
        }
        let v2 = C::to_js_value(env, self.2)?;
        proof {
            self.0.lemma_stands_for_kept(before2.heap(), env.heap(), v0);
            self.1.lemma_stands_for_kept(before2.heap(), env.heap(), v1);
        }
        out.push(v2);
        let ghost before3 = *env;
        proof {
            self.3.lemma_fits_grow(start.heap().len(), env.heap().len());
        }
        let v3 = D::to_js_value(env, self.3)?;
        proof {
            self.0.lemma_stands_for_kept(before3.heap(), env.heap(), v0);
            self.1.lemma_stands_for_kept(before3.heap(), env.heap(), v1);
            self.2.lemma_stands_for_kept(before3.heap(), env.heap(), v2);
        }
        out.push(v3);
        let ghost before4 = *env;
        proof {
            self.4.lemma_fits_grow(start.heap().len(), env.heap().len());
        }
        let v4 = E::to_js_value(env, self.4)?;
        proof {
            self.0.lemma_stands_for_kept(before4.heap(), env.heap(), v0);
            self.1.lemma_stands_for_kept(before4.heap(), env.heap(), v1);
            self.2.lemma_stands_for_kept(before4.heap(), env.heap(), v2);
            self.3.lemma_stands_for_kept(before4.heap(), env.heap(), v3);
        }
        out.push(v4);
        let ghost before5 = *env;
        proof {
            self.5.lemma_fits_grow(start.heap().len(), env.heap().len());
        }
        let v5 = F::to_js_value(env, self.5)?;
        proof {
            self.0.lemma_stands_for_kept(before5.heap(), env.heap(), v0);
            self.1.lemma_stands_for_kept(before5.heap(), env.heap(), v1);
            self.2.lemma_stands_for_kept(before5.heap(), env.heap(), v2);
            self.3.lemma_stands_for_kept(before5.heap(), env.heap(), v3);
            self.4.lemma_stands_for_kept(before5.heap(), env.heap(), v4);
        }
        out.push(v5);
        Ok(out)
    }
}

} // verus!
