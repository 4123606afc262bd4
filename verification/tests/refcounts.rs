use ion::counter::{Counter, DropDetector};
use ion::env::Env;
use ion::values::js_array::JsArray;
use ion::error::IonError;
use ion::traits::JsValue;
use ion::values::js_external::{ExternalStore, JsExternal};

#[test]
fn external_holds_its_value() {
    let mut env = Env::new();
    let mut store = ExternalStore::new();
    let e = JsExternal::new(&mut env, &mut store, String::from("native")).unwrap();
    assert_eq!(e.as_inner().unwrap(), "native");
    assert_eq!(env.type_of(*e.value()), "object");
}

#[test]
fn external_is_released_by_the_last_holder() {
    let mut env = Env::new();
    let mut store = ExternalStore::new();
    let e = JsExternal::new(&mut env, &mut store, 5u64).unwrap();
    let handle = *e.value();
    let c1 = e.clone_with(&mut env);
    let c2 = c1.clone_with(&mut env);
    assert_eq!(*c2.as_inner().unwrap(), 5);
    assert!(!c1.drop_with(&mut env, &mut store));
    assert!(!e.drop_with(&mut env, &mut store));
    assert!(c2.drop_with(&mut env, &mut store));
    assert_eq!(JsExternal::<u64>::from_js_value(&mut env, &store, handle).err(), Some(IonError::ValueCastError));
}

#[test]
fn external_goes_into_arrays_as_itself() {
    let mut env = Env::new();
    let mut store = ExternalStore::new();
    let e = JsExternal::new(&mut env, &mut store, 1u8).unwrap();
    let handle = *e.value();
    let a = JsArray::new(&mut env).unwrap();
    a.push(&mut env, e).unwrap();
    assert_eq!(a.get(&env, 0).unwrap(), handle);
}

#[test]
fn counter_counts() {
    let mut env = Env::new();
    let c = Counter::new(&mut env, 1);
    assert_eq!(c.inc(&mut env), 2);
    assert_eq!(c.inc(&mut env), 3);
    assert_eq!(c.dec(&mut env), 2);
    assert_eq!(c.dec(&mut env), 1);
    assert_eq!(c.dec(&mut env), 0);
}

#[test]
fn counter_clones_share_one_count() {
    let mut env = Env::new();
    let c = Counter::new(&mut env, 5);
    let d = c.clone();
    assert_eq!(c.inc(&mut env), 6);
    assert_eq!(d.inc(&mut env), 7);
    assert_eq!(c.dec(&mut env), 6);
}

#[test]
fn external_converts_back_to_its_value() {
    let mut env = Env::new();
    let mut store = ExternalStore::new();
    let e = JsExternal::new(&mut env, &mut store, String::from("native")).unwrap();
    let back = JsExternal::<String>::from_js_value(&mut env, &store, *e.value()).unwrap();
    assert_eq!(back.as_inner().unwrap(), "native");
    assert_eq!(back.value(), e.value());
    assert!(!back.drop_with(&mut env, &mut store));
    assert!(e.drop_with(&mut env, &mut store));
    let number = env.create_uint32(3).unwrap();
    let other_store: ExternalStore<String> = ExternalStore::new();
    assert_eq!(
        JsExternal::<String>::from_js_value(&mut env, &other_store, *number.value()).err(),
        Some(IonError::ValueCastError)
    );
}

#[test]
fn drop_detector_says_hello() {
    let d = DropDetector {};
    d.hello();
}

#[test]
fn external_reference_and_unref_move_the_shared_count() {
    let mut env = Env::new();
    let mut store = ExternalStore::new();
    let e = JsExternal::new(&mut env, &mut store, 9u32).unwrap();
    e.reference(&mut env);
    e.reference(&mut env);
    e.unref(&mut env);
    let c = e.clone_with(&mut env);
    assert!(!c.drop_with(&mut env, &mut store));
    assert!(!e.drop_with(&mut env, &mut store));
}
