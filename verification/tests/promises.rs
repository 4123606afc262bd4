use ion::env::Env;
use ion::error::{IonError, Result};
use ion::traits::{FromJsValue, JsValue};
use ion::values::js_number::JsNumber;
use ion::values::js_promise::{JsPromise, JsPromiseResult};
use ion::values::thread_safe_promise::ThreadSafePromise;

fn read_u32(env: &Env, r: JsPromiseResult<JsNumber>) -> Result<u32> {
    match r {
        JsPromiseResult::Resolved(n) => n.get_u32(env),
        JsPromiseResult::Rejected(_) => Err(IonError::PromiseResolveError),
    }
}

#[test]
fn deferred_resolves_its_promise_once() {
    let mut env = Env::new();
    let (promise, mut deferred) = ion::values::js_promise::JsDeferred::new(&mut env).unwrap();
    assert_eq!(env.ref_count(), 1);
    assert_eq!(promise.type_of(&env), "object");
    let p = JsPromise::from_js_value(&env, *promise.value()).unwrap();
    let mut settlement = p.settled(&env, read_u32).unwrap();
    assert!(settlement.armed());
    assert_eq!(settlement.fire::<JsNumber, u32>(&env), Ok(None));
    assert!(settlement.armed());

    deferred.resolve(&mut env, |_env: &Env| -> Result<u32> { Ok(7) }).unwrap();
    assert_eq!(env.ref_count(), 0);
    assert_eq!(settlement.fire::<JsNumber, u32>(&env), Ok(Some(7)));
    assert!(!settlement.armed());
    assert_eq!(settlement.fire::<JsNumber, u32>(&env), Ok(None));

    assert_eq!(deferred.resolve(&mut env, |_env: &Env| -> Result<u32> { Ok(8) }), Err(IonError::ChannelClosed));
    assert_eq!(deferred.reject(&env, |_env: &Env| -> Result<u32> { Ok(9) }), Err(IonError::ChannelClosed));
}

#[test]
fn rejecting_uses_up_the_deferred() {
    let mut env = Env::new();
    let (_promise, mut deferred) = ion::values::js_promise::JsDeferred::new(&mut env).unwrap();
    assert_eq!(deferred.reject(&env, |_env: &Env| -> Result<u32> { Ok(1) }), Ok(()));
    assert_eq!(deferred.resolve(&mut env, |_env: &Env| -> Result<u32> { Ok(2) }), Err(IonError::ChannelClosed));
}

#[test]
fn new_promise_value_is_an_object() {
    let mut env = Env::new();
    let p = JsPromise::new(&mut env).unwrap();
    assert_eq!(p.type_of(&env), "object");
}

#[test]
fn thread_safe_promise_settles_and_lets_go() {
    let mut env = Env::new();
    let (promise, mut deferred) = ion::values::js_promise::JsDeferred::new(&mut env).unwrap();
    let p = JsPromise::from_js_value(&env, *promise.value()).unwrap();
    let tsp = ThreadSafePromise::new(&mut env, &p).unwrap();
    assert_eq!(env.ref_count(), 2);
    let extra = tsp.clone_with(&mut env);
    tsp.inc_ref(&mut env).unwrap();
    tsp.dec_ref(&mut env).unwrap();
    extra.drop_with(&mut env);
    let mut settlement = tsp.settled_blocking(&mut env, read_u32).unwrap();
    assert_eq!(env.ref_count(), 1);
    deferred.resolve(&mut env, |_env: &Env| -> Result<u32> { Ok(11) }).unwrap();
    assert_eq!(settlement.fire::<JsNumber, u32>(&env), Ok(Some(11)));
    assert_eq!(env.ref_count(), 0);
}

#[test]
fn thread_safe_promise_settled() {
    let mut env = Env::new();
    let (promise, mut deferred) = ion::values::js_promise::JsDeferred::new(&mut env).unwrap();
    let p = JsPromise::from_js_value(&env, *promise.value()).unwrap();
    let tsp = ThreadSafePromise::new(&mut env, &p).unwrap();
    let mut settlement = tsp
        .settled(&mut env, |_env: &Env, r: JsPromiseResult<JsNumber>| -> Result<()> {
            match r {
                JsPromiseResult::Resolved(_) => Ok(()),
                JsPromiseResult::Rejected(_) => Err(IonError::PromiseResolveError),
            }
        })
        .unwrap();
    deferred.resolve(&mut env, |_env: &Env| -> Result<u32> { Ok(3) }).unwrap();
    assert_eq!(settlement.fire::<JsNumber, ()>(&env), Ok(Some(())));
}

#[test]
fn settled_value_of_another_kind_uses_up_the_callback() {
    let mut env = Env::new();
    let (promise, mut deferred) = ion::values::js_promise::JsDeferred::new(&mut env).unwrap();
    let p = JsPromise::from_js_value(&env, *promise.value()).unwrap();
    let mut settlement = p.settled(&env, read_u32).unwrap();
    deferred.resolve(&mut env, |_env: &Env| -> Result<bool> { Ok(true) }).unwrap();
    assert_eq!(settlement.fire::<JsNumber, u32>(&env), Err(IonError::ValueCastError));
    assert!(!settlement.armed());
    assert_eq!(settlement.fire::<JsNumber, u32>(&env), Ok(None));
}
