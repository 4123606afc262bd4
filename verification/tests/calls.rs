use ion::env::Env;
use ion::error::{IonError, Result};
use ion::map_arguments;
use ion::map_return;
use ion::traits::{FromJsValue, JsValue};
use ion::values::js_function::{JsFunction, JsFunctionCallContext};
use ion::values::js_number::JsNumber;
use ion::values::js_object::JsObject;
use ion::values::js_string::JsString;
use ion::values::js_unknown::JsUnknown;
use ion::values::js_values_vec::{FnArgs, JsValuesTupleIntoVec};
use ion::values::thread_safe_function::ThreadSafeFunction;

fn add(env: &Env, ctx: JsFunctionCallContext) -> Result<u32> {
    let a: JsNumber = ctx.arg(env, 0)?;
    let b: JsNumber = ctx.arg(env, 1)?;
    Ok(a.get_u32(env)? + b.get_u32(env)?)
}

#[test]
fn unit_gives_no_arguments() {
    let mut env = Env::new();
    let args = ().into_vec(&mut env).unwrap();
    assert!(args.is_empty());
}

#[test]
fn single_value_gives_one_argument() {
    let mut env = Env::new();
    let args = 5u32.into_vec(&mut env).unwrap();
    assert_eq!(args.len(), 1);
    let n = JsNumber::from_js_value(&env, args[0]).unwrap();
    assert_eq!(n.get_u32(&env), Ok(5));
}

#[test]
fn tuples_give_their_arguments_in_order() {
    let mut env = Env::new();
    let args = (1u32, "two", true).into_vec(&mut env).unwrap();
    assert_eq!(args.len(), 3);
    assert_eq!(env.type_of(args[0]), "number");
    assert_eq!(env.type_of(args[1]), "string");
    assert_eq!(env.type_of(args[2]), "boolean");
    let six = (1u32, 2u32, 3u32, 4u32, 5u32, 6u32).into_vec(&mut env).unwrap();
    assert_eq!(six.len(), 6);
    let last = JsNumber::from_js_value(&env, six[5]).unwrap();
    assert_eq!(last.get_u32(&env), Ok(6));
}

#[test]
fn fn_args_wraps() {
    let args: FnArgs<(u32, bool)> = FnArgs::from((3, true));
    assert_eq!(args.data, (3, true));
}

#[test]
fn native_function_runs_a_call() {
    let mut env = Env::new();
    let (f, info) = JsFunction::new(&mut env, add).unwrap();
    assert_eq!(f.type_of(&env), "function");
    let frame = f.call_with_args(&mut env, (2u32, 40u32)).unwrap();
    assert_eq!(frame.args.len(), 2);
    assert!(!frame.construct);
    let out = info.invoke(&mut env, frame).unwrap();
    let result: JsNumber = JsFunction::call_result(&env, Some(out)).unwrap();
    assert_eq!(result.get_u32(&env), Ok(42));
}

#[test]
fn callback_errors_come_back() {
    let mut env = Env::new();
    let (f, info) = JsFunction::new(&mut env, add).unwrap();
    let frame = f.call_with_args(&mut env, 1u32).unwrap();
    assert_eq!(info.invoke(&mut env, frame), Err(IonError::OutOfBounds));
}

#[test]
fn a_frame_for_another_function_is_refused() {
    let mut env = Env::new();
    let (f, _info_f) = JsFunction::new(&mut env, add).unwrap();
    let (_g, info_g) = JsFunction::new(&mut env, add).unwrap();
    let frame = f.call(&mut env).unwrap();
    assert_eq!(info_g.invoke(&mut env, frame), Err(IonError::FunctionCallError));
}

#[test]
fn call_has_no_arguments_and_undefined_receiver() {
    let mut env = Env::new();
    let (f, _info) = JsFunction::new(&mut env, add).unwrap();
    let frame = f.call(&mut env).unwrap();
    assert!(frame.args.is_empty());
    assert_eq!(frame.receiver, env.undefined());
    assert_eq!(frame.function, *f.value());
}

#[test]
fn call_with_receiver_passes_it() {
    let mut env = Env::new();
    let (f, info) = JsFunction::new(&mut env, |env: &Env, ctx: JsFunctionCallContext| -> Result<bool> {
        let this: JsString = ctx.this().cast(env)?;
        Ok(this.get_string(env)? == "me")
    })
    .unwrap();
    let me = env.create_string("me").unwrap();
    let frame = f.call_with_args_with_recv(&mut env, (), &me).unwrap();
    assert_eq!(frame.receiver, *me.value());
    let out = info.invoke(&mut env, frame).unwrap();
    assert_eq!(env.type_of(out), "boolean");
    let b: ion::values::js_boolean::JsBoolean = JsFunction::call_result(&env, Some(out)).unwrap();
    assert_eq!(b.get_value(&env), Ok(true));
}

#[test]
fn a_raising_call_reads_undefined() {
    let env = Env::new();
    let r: JsUnknown = JsFunction::call_result(&env, None).unwrap();
    assert_eq!(r.type_of(&env), "undefined");
}

#[test]
fn construction_results() {
    let mut env = Env::new();
    let (f, _info) = JsFunction::new(&mut env, add).unwrap();
    let frame = f.new_instance(&mut env, ()).unwrap();
    assert!(frame.construct);
    let o = JsObject::new(&mut env).unwrap();
    let made = JsFunction::new_instance_result(&env, Some(*o.value())).unwrap();
    assert_eq!(made.value(), o.value());
    assert_eq!(JsFunction::new_instance_result(&env, None).unwrap_err(), IonError::NewInstanceError);
}

#[test]
fn call_context_arguments() {
    let mut env = Env::new();
    let (f, _info) = JsFunction::new(&mut env, add).unwrap();
    let frame = f.call_with_args(&mut env, (9u32, "s")).unwrap();
    let ctx = JsFunctionCallContext::from_frame(frame);
    assert_eq!(ctx.len(), 2);
    assert!(!ctx.is_empty());
    let a: JsNumber = ctx.arg(&env, 0).unwrap();
    assert_eq!(a.get_u32(&env), Ok(9));
    assert_eq!(ctx.arg::<JsUnknown>(&env, 2).unwrap_err(), IonError::OutOfBounds);
    let negative: JsUnknown = ctx.arg(&env, -1).unwrap();
    assert_eq!(negative.type_of(&env), "undefined");
    let all = ctx.args(&env).unwrap();
    assert_eq!(all.len(), 2);
    assert_eq!(all[1].type_of(&env), "string");
    assert_eq!(ctx.this().type_of(&env), "undefined");
}

#[test]
fn thread_safe_function_calls_and_counts() {
    let mut env = Env::new();
    let (f, info) = JsFunction::new(&mut env, add).unwrap();
    let tsf = ThreadSafeFunction::new(&mut env, &f).unwrap();
    assert_eq!(env.ref_count(), 1);
    let (frame, pending) = tsf
        .call_blocking(&mut env, |_env: &Env| -> Result<(u32, u32)> { Ok((20, 22)) }, |env: &Env, ret: JsUnknown| -> Result<u32> {
            let n: JsNumber = ret.cast(env)?;
            n.get_u32(env)
        })
        .unwrap();
    let out = info.invoke(&mut env, frame).unwrap();
    assert_eq!(pending.complete(&env, Some(out)), Ok(42));

    let other = tsf.clone_with(&mut env);
    tsf.inc_ref(&mut env).unwrap();
    tsf.dec_ref(&mut env).unwrap();
    other.drop_with(&mut env);
    assert_eq!(env.ref_count(), 1);
    tsf.drop_with(&mut env);
    assert_eq!(env.ref_count(), 0);
}

#[test]
fn thread_safe_call_with_noop_mappers() {
    let mut env = Env::new();
    let (f, info) = JsFunction::new(&mut env, |_env: &Env, _ctx: JsFunctionCallContext| -> Result<()> { Ok(()) }).unwrap();
    let tsf = ThreadSafeFunction::new(&mut env, &f).unwrap();
    let (frame, pending) = tsf.call(&mut env, map_arguments::noop, map_return::noop).unwrap();
    assert!(frame.args.is_empty());
    let out = info.invoke(&mut env, frame).unwrap();
    assert_eq!(pending.complete(&env, Some(out)), Ok(()));
}

#[test]
fn thread_safe_call_that_raises() {
    let mut env = Env::new();
    let (f, _info) = JsFunction::new(&mut env, add).unwrap();
    let tsf = ThreadSafeFunction::new(&mut env, &f).unwrap();
    let (_frame, pending) = tsf.call(&mut env, map_arguments::noop, map_return::noop).unwrap();
    assert_eq!(pending.complete(&env, None), Err(IonError::FunctionCallError));
}

#[test]
fn thread_safe_call_argument_errors_come_back() {
    let mut env = Env::new();
    let (f, _info) = JsFunction::new(&mut env, add).unwrap();
    let tsf = ThreadSafeFunction::new(&mut env, &f).unwrap();
    let r = tsf.call(&mut env, |_env: &Env| -> Result<u32> { Err(IonError::ValueGetError) }, map_return::noop);
    assert!(matches!(r, Err(IonError::ValueGetError)));
}

#[test]
fn noops_succeed() {
    let mut env = Env::new();
    assert_eq!(map_arguments::noop(&env), Ok(()));
    let u = JsUnknown::from_js_value(&env, env.undefined()).unwrap();
    assert_eq!(map_return::noop(&env, u), Ok(()));
    let _ = env.create_array();
}
