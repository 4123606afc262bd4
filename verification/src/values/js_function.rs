use vstd::prelude::*;

use crate::env::{is_js_object, undefined_handle, Env, JsData, Value};
use crate::error::{IonError, Result};
use crate::traits::{FromJsValue, JsValue, ToJsUnknown, ToJsValue};
use crate::values::js_object::JsObject;
use crate::values::js_unknown::JsUnknown;
use crate::values::js_values_vec::JsValuesTupleIntoVec;

verus! {

/// A JavaScript function.
#[derive(Clone, Copy, Debug)]
pub struct JsFunction {
    pub(crate) value: Value,
}

/// A call that the engine is asked to run: `function` applied to `args`
/// with `receiver` as `this`; `construct` asks for `new function(...args)`.
#[derive(Debug)]
pub struct CallFrame {
    pub function: Value,
    pub receiver: Value,
    pub args: Vec<Value>,
    pub construct: bool,
}

/// Every handle of a call frame is valid in `env`.
pub open spec fn frame_valid(env: &Env, frame: &CallFrame) -> bool {
    &&& env.valid(frame.function)
    &&& env.valid(frame.receiver)
    &&& forall|i: int| 0 <= i < frame.args@.len() ==> env.valid(#[trigger] frame.args@[i])
}

impl JsFunction {
    /// Creates a native function whose calls run `callback`.
    ///
    /// The store keeps the function object; the callback stays with the
    /// returned [`JsFunctionCallbackInfo`], which runs the calls that the
    /// engine routes to this function.
    pub fn new<Return, Callback>(env: &mut Env, callback: Callback) -> (r: Result<
        (Self, JsFunctionCallbackInfo<Callback>),
    >)
        where
            Return: ToJsValue,
            Callback: Fn(&Env, JsFunctionCallContext) -> Result<Return>,
        requires
            old(env).wf(),
            old(env).next_callback() < u64::MAX,
        ensures
            final(env).wf(),
            final(env).props_kept(old(env)),
            final(env).heap() == old(env).heap().push(JsData::Function { callback: old(env).next_callback() }),
            final(env).refs() == old(env).refs(),
            final(env).external_counts() == old(env).external_counts(),
            final(env).next_callback() == old(env).next_callback() + 1,
            r matches Ok((f, info)) && f.handle().index() == old(env).heap().len()
                && info.function() == f.handle()
                && info.callback_id() == old(env).next_callback()
                && info.callback() == callback,
    {
        let id = env.next_callback_id();
        let value = env.allocate_function();
        Ok((JsFunction { value }, JsFunctionCallbackInfo { function: value, callback_id: id, callback }))
    }

    /// Asks for a call of the function with no arguments and `undefined` as
    /// `this`.
    pub fn call(&self, env: &mut Env) -> (r: Result<CallFrame>)
        requires
            old(env).wf(),
            old(env).valid(self.handle()),
            old(env).data(self.handle()) is Function,
        ensures
            final(env).wf(),
            final(env).heap() == old(env).heap(),
            final(env).same_bookkeeping(old(env)),
            r matches Ok(frame) && frame.function == self.handle()
                && frame.receiver == undefined_handle()
                && frame.args@.len() == 0
                && !frame.construct,
    {
        let args: Vec<Value> = Vec::new();
        let receiver = env.undefined();
        Ok(CallFrame { function: self.value, receiver, args, construct: false })
    }

    /// Asks for a call of the function with `args`, converted in order, and
    /// `undefined` as `this`; fails with the error of the first argument
    /// whose conversion fails.
    pub fn call_with_args<Args: JsValuesTupleIntoVec>(&self, env: &mut Env, args: Args) -> (r: Result<CallFrame>)
        requires
            old(env).wf(),
            old(env).valid(self.handle()),
            old(env).data(self.handle()) is Function,
            args.args_fit(old(env).heap().len()),
        ensures
            final(env).wf(),
            final(env).extends(old(env)),
            final(env).same_bookkeeping(old(env)),
            r is Ok <==> args.args_convert(),
            r matches Err(e) ==> e == args.args_error(),
            r matches Ok(frame) ==> frame.function == self.handle()
                && frame.receiver == undefined_handle()
                && frame.args@.len() == args.arity()
                && args.args_stand_for(final(env).heap(), frame.args@)
                && frame_valid(final(env), &frame)
                && !frame.construct,
    {
        let args = args.into_vec(env)?;
        let receiver = env.undefined();
        Ok(CallFrame { function: self.value, receiver, args, construct: false })
    }

    /// Asks for a call of the function with `args`, converted in order, and
    /// `recv` as `this`; fails with the error of the first argument whose
    /// conversion fails.
    pub fn call_with_args_with_recv<Args: JsValuesTupleIntoVec, Recv: JsValue>(
        &self,
        env: &mut Env,
        args: Args,
        recv: &Recv,
    ) -> (r: Result<CallFrame>)
        requires
            old(env).wf(),
            old(env).valid(self.handle()),
            old(env).data(self.handle()) is Function,
            old(env).valid(recv.handle()),
            args.args_fit(old(env).heap().len()),
        ensures
            final(env).wf(),
            final(env).extends(old(env)),
            final(env).same_bookkeeping(old(env)),
            r is Ok <==> args.args_convert(),
            r matches Err(e) ==> e == args.args_error(),
            r matches Ok(frame) ==> frame.function == self.handle()
                && frame.receiver == recv.handle()
                && frame.args@.len() == args.arity()
                && args.args_stand_for(final(env).heap(), frame.args@)
                && frame_valid(final(env), &frame)
                && !frame.construct,
    {
        let args = args.into_vec(env)?;
        let receiver = *recv.value();
        Ok(CallFrame { function: self.value, receiver, args, construct: false })
    }

    /// Asks for `new function(...args)`, with `args` converted in order;
    /// fails with the error of the first argument whose conversion fails.
    pub fn new_instance<Args: JsValuesTupleIntoVec>(&self, env: &mut Env, args: Args) -> (r: Result<CallFrame>)
        requires
            old(env).wf(),
            old(env).valid(self.handle()),
            old(env).data(self.handle()) is Function,
            args.args_fit(old(env).heap().len()),
        ensures
            final(env).wf(),
            final(env).extends(old(env)),
            final(env).same_bookkeeping(old(env)),
            r is Ok <==> args.args_convert(),
            r matches Err(e) ==> e == args.args_error(),
            r matches Ok(frame) ==> frame.function == self.handle()
                && frame.receiver == undefined_handle()
                && frame.args@.len() == args.arity()
                && args.args_stand_for(final(env).heap(), frame.args@)
                && frame_valid(final(env), &frame)
                && frame.construct,
    {
        let args = args.into_vec(env)?;
        let receiver = env.undefined();
        Ok(CallFrame { function: self.value, receiver, args, construct: true })
    }

    /// Reads what a call returned as a `Return`: `None`, a call that raised,
    /// reads as `undefined`; fails with [`IonError::ValueCastError`] when the
    /// value is not of a kind that `Return` wraps.
    pub fn call_result<Return: FromJsValue>(env: &Env, outcome: Option<Value>) -> (r: Result<Return>)
        requires
            env.wf(),
            outcome matches Some(v) ==> env.valid(v),
        ensures
            ({
                let v = match outcome {
                    Some(v) => v,
                    None => undefined_handle(),
                };
                &&& r is Ok <==> Return::accepts(env.data(v))
                &&& r matches Ok(ret) ==> ret.handle() == v
                &&& r matches Err(e) ==> e == IonError::ValueCastError
            }),
    {
        let value = match outcome {
            Some(v) => v,
            None => env.undefined(),
        };
        Return::from_js_value(env, value)
    }

    /// Reads what a construction returned; fails with
    /// [`IonError::NewInstanceError`] when it raised, and with
    /// [`IonError::ValueCastError`] when it gave no object.
    pub fn new_instance_result(env: &Env, outcome: Option<Value>) -> (r: Result<JsObject>)
        requires
            outcome matches Some(v) ==> env.valid(v),
        ensures
            match outcome {
                Some(v) => if is_js_object(env.data(v)) {
                    r matches Ok(o) && o.handle() == v
                } else {
                    r == Err::<JsObject, IonError>(IonError::ValueCastError)
                },
                None => r == Err::<JsObject, IonError>(IonError::NewInstanceError),
            },
    {
        match outcome {
            Some(v) => JsObject::from_js_value(env, v),
            None => Err(IonError::NewInstanceError),
        }
    }
}

/// What a native function sees of a call: its arguments and its receiver.
#[derive(Debug)]
pub struct JsFunctionCallContext {
    args: Vec<Value>,
    this: JsUnknown,
}

impl JsFunctionCallContext {
    /// A call has no more arguments than an `i32` counts.
    #[verifier::type_invariant]
    closed spec fn arguments_fit(&self) -> bool {
        self.args@.len() <= i32::MAX
    }

    /// The arguments.
    pub closed spec fn arguments(&self) -> Seq<Value> {
        self.args@
    }

    /// The receiver.
    pub closed spec fn receiver(&self) -> Value {
        self.this.handle()
    }

    /// The context that a native function sees of `frame`.
    pub fn from_frame(frame: CallFrame) -> (r: JsFunctionCallContext)
        requires
            frame.args@.len() <= i32::MAX,
        ensures
            r.arguments() == frame.args@,
            r.receiver() == frame.receiver,
    {
        JsFunctionCallContext { args: frame.args, this: JsUnknown::from_handle(frame.receiver) }
    }

    /// The argument at `i` as an `Arg`: `undefined` for a negative `i`; fails
    /// with [`IonError::OutOfBounds`] when `i` is not below the number of
    /// arguments, and with [`IonError::ValueCastError`] when the argument is
    /// not of a kind that `Arg` wraps.
    pub fn arg<Arg: FromJsValue>(&self, env: &Env, i: i32) -> (r: Result<Arg>)
        requires
            env.wf(),
            forall|k: int| 0 <= k < self.arguments().len() ==> env.valid(#[trigger] self.arguments()[k]),
        ensures
            i >= self.arguments().len() ==> r == Err::<Arg, IonError>(IonError::OutOfBounds),
            i < self.arguments().len() ==> ({
                let v = if i < 0 { undefined_handle() } else { self.arguments()[i as int] };
                &&& r is Ok <==> Arg::accepts(env.data(v))
                &&& r matches Ok(a) ==> a.handle() == v
                &&& r matches Err(e) ==> e == IonError::ValueCastError
            }),
    {
        if i >= 0 && (i as usize) >= self.args.len() {
            return Err(IonError::OutOfBounds);
        }
        let value = if i < 0 {
            env.undefined()
        } else {
            self.args[i as usize]
        };
        Arg::from_js_value(env, value)
    }

    /// Every argument, as a value of unknown type.
    pub fn args(&self, env: &Env) -> (r: Result<Vec<JsUnknown>>)
        ensures
            r matches Ok(out) && out@.len() == self.arguments().len()
                && forall|k: int| 0 <= k < out@.len() ==> (#[trigger] out@[k]).handle() == self.arguments()[k],
    {
        let mut result: Vec<JsUnknown> = Vec::new();
        let mut k: usize = 0;
        while k < self.args.len()
            invariant
                k <= self.args@.len(),
                result@.len() == k,
                forall|j: int| 0 <= j < k ==> (#[trigger] result@[j]).handle() == self.args@[j],
            decreases self.args@.len() - k,
        {
            let value = JsUnknown::from_handle(self.args[k]);
            result.push(value);
            k = k + 1;
        }
        Ok(result)
    }

    /// The receiver, as a value of unknown type.
    pub fn this(&self) -> (r: JsUnknown)
        ensures
            r.handle() == self.receiver(),
    {
        self.this
    }

    /// The number of arguments.
    pub fn len(&self) -> (n: i32)
        ensures
            n == self.arguments().len(),
    {
        proof {
            use_type_invariant(self);
        }
        self.args.len() as i32
    }

    /// Whether the call has no arguments.
    pub fn is_empty(&self) -> (b: bool)
        ensures
            b == (self.arguments().len() == 0),
    {
        self.args.len() == 0
    }
}

/// The native side of a function made by [`JsFunction::new`]: runs the calls
/// that the engine routes to it.
pub struct JsFunctionCallbackInfo<Callback> {
    function: Value,
    callback_id: u64,
    callback: Callback,
}

impl<Callback> JsFunctionCallbackInfo<Callback> {
    /// The function object that the callback serves.
    pub closed spec fn function(&self) -> Value {
        self.function
    }

    /// The id that the function object holds.
    pub closed spec fn callback_id(&self) -> u64 {
        self.callback_id
    }

    /// The callback.
    pub closed spec fn callback(&self) -> Callback {
        self.callback
    }

    /// Runs `frame` through the callback and converts what it returns; fails
    /// with [`IonError::FunctionCallError`] when the frame calls another
    /// function, with the callback's error when it fails, and with the
    /// conversion's error when what it returns does not convert.
    pub fn invoke<Return: ToJsValue>(&self, env: &mut Env, frame: CallFrame) -> (r: Result<Value>)
        where
            Callback: Fn(&Env, JsFunctionCallContext) -> Result<Return>,
        requires
            old(env).wf(),
            frame.args@.len() <= i32::MAX,
            forall|e: &Env, c: JsFunctionCallContext| #[trigger] call_requires(self.callback(), (e, c)),
            forall|e: &Env, c: JsFunctionCallContext, ret: Return|
                #[trigger] call_ensures(self.callback(), (e, c), Ok(ret)) ==> ret.fits(e.heap().len()),
        ensures
            final(env).wf(),
            final(env).extends(old(env)),
            final(env).same_bookkeeping(old(env)),
            frame.function != self.function() ==> (r == Err::<Value, IonError>(IonError::FunctionCallError)
                && final(env).heap() == old(env).heap()),
            frame.function == self.function() ==> exists|ctx: JsFunctionCallContext, res: Result<Return>| {
                &&& ctx.arguments() == frame.args@
                &&& ctx.receiver() == frame.receiver
                &&& call_ensures(self.callback(), (&*old(env), ctx), res)
                &&& match res {
                    Ok(ret) => (r is Ok <==> ret.converts())
                        && (r matches Err(e) ==> e == ret.convert_error())
                        && (r matches Ok(v) ==> final(env).valid(v) && ret.stands_for(final(env).heap(), v)),
                    Err(e) => r == Err::<Value, IonError>(e) && final(env).heap() == old(env).heap(),
                }
            },
    {
        if !env.same_value(frame.function, self.function) {
            return Err(IonError::FunctionCallError);
        }
        let ctx = JsFunctionCallContext::from_frame(frame);
        let ghost ctx_g = ctx;
        let ghost env0 = *env;
        assert(call_requires(self.callback(), (&*env, ctx)));
        let res = (self.callback)(&*env, ctx);
        match res {
            Ok(ret) => {
                assert(call_ensures(self.callback(), (&env0, ctx_g), Ok::<Return, IonError>(ret)));
                let v = Return::to_js_value(env, ret);
                v
            },
            Err(e) => Err(e),
        }
    }
}

impl FromJsValue for JsFunction {
    closed spec fn handle(&self) -> Value {
        self.value
    }

    open spec fn accepts(d: JsData) -> bool {
        d is Function
    }

    fn from_js_value(env: &Env, value: Value) -> (r: Result<Self>) {
        match env.get(value) {
            JsData::Function { .. } => Ok(JsFunction { value }),
            _ => Err(IonError::ValueCastError),
        }
    }

    fn from_value_unchecked(value: Value) -> (r: Self) {
        JsFunction { value }
    }
}

impl JsValue for JsFunction {
    fn value(&self) -> (r: &Value) {
        &self.value
    }
}

impl ToJsUnknown for JsFunction {}

impl ToJsValue for JsFunction {
    open spec fn stands_for(&self, heap: Seq<JsData>, v: Value) -> bool {
        v == self.handle()
    }

    open spec fn converts(&self) -> bool {
        true
    }

    open spec fn convert_error(&self) -> IonError {
        IonError::ValueCastError
    }

    open spec fn fits(&self, n: nat) -> bool {
        0 <= self.handle().index() < n
    }

    proof fn lemma_stands_for_kept(&self, h1: Seq<JsData>, h2: Seq<JsData>, v: Value) {
    }

    proof fn lemma_fits_grow(&self, n: nat, m: nat) {
    }

    fn to_js_value(env: &mut Env, val: Self) -> (r: Result<Value>) {
        Ok(val.value)
    }
}

} // verus!
