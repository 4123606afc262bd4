use ion::env::Env;
use ion::error::IonError;
use ion::traits::{FromJsValue, JsValue, ToJsUnknown, ToJsValue};
use ion::values::js_boolean::JsBoolean;
use ion::values::js_exception::JsException;
use ion::values::js_null::JsNull;
use ion::values::js_number::JsNumber;
use ion::values::js_object::JsObject;
use ion::values::js_object_value::JsObjectValue;
use ion::values::js_string::JsString;
use ion::values::js_unknown::JsUnknown;

#[test]
fn string_round_trip() {
    let mut env = Env::new();
    let s = env.create_string("hello world").unwrap();
    assert_eq!(s.get_string(&env).unwrap(), "hello world");
    let empty = JsString::new(&mut env, "").unwrap();
    assert_eq!(empty.get_string(&env).unwrap(), "");
}

#[test]
fn string_read_of_a_number_fails() {
    let mut env = Env::new();
    let n = env.create_uint32(5).unwrap();
    assert_eq!(JsString::from_js_value(&env, *n.value()).err(), Some(IonError::ValueCastError));
    let s: JsString = n.into_unknown().cast_unchecked(&env);
    assert_eq!(s.get_string(&env), Err(IonError::ValueCastError));
}

#[test]
fn uint32_round_trip() {
    let mut env = Env::new();
    for v in [0u32, 1, 42, u32::MAX] {
        let n = env.create_uint32(v).unwrap();
        assert_eq!(n.get_u32(&env).unwrap(), v);
    }
}

#[test]
fn int32_round_trip() {
    let mut env = Env::new();
    for v in [0i32, -1, 7, i32::MIN, i32::MAX] {
        let n = JsNumber::from_i32(&mut env, v).unwrap();
        assert_eq!(n.get_i32(&env).unwrap(), v);
    }
}

#[test]
fn numbers_wrap_as_javascript_converts_them() {
    let mut env = Env::new();
    let minus_one = env.create_int32(-1).unwrap();
    assert_eq!(minus_one.get_u32(&env).unwrap(), u32::MAX);
    let big = env.create_uint32(0x8000_0000).unwrap();
    assert_eq!(big.get_i32(&env).unwrap(), i32::MIN);
    let max = env.create_uint32(u32::MAX).unwrap();
    assert_eq!(max.get_i32(&env).unwrap(), -1);
}

#[test]
fn boolean_round_trip() {
    let mut env = Env::new();
    let t = env.create_boolean(true).unwrap();
    let f = JsBoolean::new(&mut env, false).unwrap();
    assert_eq!(t.get_value(&env), Ok(true));
    assert_eq!(f.get_value(&env), Ok(false));
}

#[test]
fn boolean_read_of_a_string_fails() {
    let mut env = Env::new();
    let s = env.create_string("true").unwrap();
    assert_eq!(JsBoolean::from_js_value(&env, *s.value()).err(), Some(IonError::ValueCastError));
    let b: JsBoolean = s.into_unknown().cast_unchecked(&env);
    assert_eq!(b.get_value(&env), Err(IonError::ValueCastError));
}

#[test]
fn type_of_each_kind() {
    let mut env = Env::new();
    let n = env.create_uint32(1).unwrap();
    let s = env.create_string("x").unwrap();
    let b = env.create_boolean(true).unwrap();
    let o = JsObject::new(&mut env).unwrap();
    let a = env.create_array().unwrap();
    let null = env.get_null().unwrap();
    let undefined = JsUnknown::from_js_value(&env, env.undefined()).unwrap();
    assert_eq!(n.type_of(&env), "number");
    assert_eq!(s.type_of(&env), "string");
    assert_eq!(b.type_of(&env), "boolean");
    assert_eq!(o.type_of(&env), "object");
    assert_eq!(a.type_of(&env), "object");
    assert_eq!(null.type_of(&env), "object");
    assert_eq!(undefined.type_of(&env), "undefined");
}

#[test]
fn cast_keeps_the_value() {
    let mut env = Env::new();
    let s = env.create_string("abc").unwrap();
    let u = s.into_unknown();
    let back: JsString = u.cast(&env).unwrap();
    assert_eq!(back.get_string(&env).unwrap(), "abc");
    let unchecked: JsString = u.cast_unchecked(&env);
    assert_eq!(unchecked.get_string(&env).unwrap(), "abc");
    let null = env.get_null().unwrap();
    let as_unknown: JsUnknown = null.cast(&env).unwrap();
    assert_eq!(as_unknown.type_of(&env), "object");
    let exc = JsException::from_js_value(&env, *s.value()).unwrap();
    let from_exc: JsString = exc.cast(&env).unwrap();
    assert_eq!(from_exc.get_string(&env).unwrap(), "abc");
    let n: JsNull = env.get_null().unwrap();
    let n2: JsNull = n.cast_unchecked(&env);
    assert_eq!(n2.value(), n.value());
}

#[test]
fn unit_converts_to_undefined() {
    let mut env = Env::new();
    let v = <() as ToJsValue>::to_js_value(&mut env, ()).unwrap();
    assert_eq!(env.type_of(v), "undefined");
}

#[test]
fn named_property_set_then_get() {
    let mut env = Env::new();
    let mut o = JsObject::new(&mut env).unwrap();
    o.set_named_property(&mut env, "answer", 42u32).unwrap();
    o.set_named_property(&mut env, "name", "ion").unwrap();
    let answer: JsNumber = o.get_named_property(&env, "answer").unwrap().unwrap();
    assert_eq!(answer.get_u32(&env).unwrap(), 42);
    let name: JsString = o.get_named_property_unchecked(&env, "name").unwrap();
    assert_eq!(name.get_string(&env).unwrap(), "ion");
}

#[test]
fn named_property_overwrite_keeps_others() {
    let mut env = Env::new();
    let mut o = JsObject::new(&mut env).unwrap();
    o.set_named_property(&mut env, "a", 1u32).unwrap();
    o.set_named_property(&mut env, "b", 2u32).unwrap();
    o.set_named_property(&mut env, "a", 3u32).unwrap();
    let a: JsNumber = o.get_named_property_unchecked(&env, "a").unwrap();
    let b: JsNumber = o.get_named_property_unchecked(&env, "b").unwrap();
    assert_eq!(a.get_u32(&env).unwrap(), 3);
    assert_eq!(b.get_u32(&env).unwrap(), 2);
}

#[test]
fn missing_property_reads_undefined() {
    let mut env = Env::new();
    let o = JsObject::new(&mut env).unwrap();
    let missing: Option<JsUnknown> = o.get_named_property(&env, "nothing").unwrap();
    assert_eq!(missing.unwrap().type_of(&env), "undefined");
}

#[test]
fn deleted_property_reads_undefined() {
    let mut env = Env::new();
    let mut o = JsObject::new(&mut env).unwrap();
    o.set_named_property(&mut env, "a", true).unwrap();
    o.set_named_property(&mut env, "b", false).unwrap();
    assert_eq!(o.delete_named_property(&mut env, "a"), Ok(true));
    assert_eq!(o.delete_named_property(&mut env, "never"), Ok(true));
    let a: JsUnknown = o.get_named_property_unchecked(&env, "a").unwrap();
    assert_eq!(a.type_of(&env), "undefined");
    let b: JsBoolean = o.get_named_property_unchecked(&env, "b").unwrap();
    assert_eq!(b.get_value(&env), Ok(false));
}

#[test]
fn property_with_value_keys() {
    let mut env = Env::new();
    let mut o = JsObject::new(&mut env).unwrap();
    let key = env.create_string("k").unwrap();
    let value = env.create_int32(-5).unwrap();
    o.set_property(&mut env, key, value).unwrap();
    let read: JsNumber = o.get_named_property_unchecked(&env, "k").unwrap();
    assert_eq!(read.get_i32(&env).unwrap(), -5);
    assert_eq!(o.delete_property(&mut env, key), Ok(true));
    let gone: JsUnknown = o.get_named_property_unchecked(&env, "k").unwrap();
    assert_eq!(gone.type_of(&env), "undefined");
}

#[test]
fn env_reference_count() {
    let mut env = Env::new();
    assert_eq!(env.ref_count(), 0);
    env.inc_ref();
    env.inc_ref();
    env.dec_ref();
    assert_eq!(env.ref_count(), 1);
}

#[test]
fn cast_to_the_wrong_kind_fails() {
    let mut env = Env::new();
    let s = env.create_string("abc").unwrap();
    let u = s.into_unknown();
    assert_eq!(u.cast::<JsNumber>(&env).err(), Some(IonError::ValueCastError));
    assert_eq!(u.cast::<JsObject>(&env).err(), Some(IonError::ValueCastError));
    let n = env.get_null().unwrap();
    assert_eq!(n.cast::<JsBoolean>(&env).err(), Some(IonError::ValueCastError));
    assert_eq!(JsNumber::from_js_value(&env, *s.value()).err(), Some(IonError::ValueCastError));
    let o = JsObject::new(&mut env).unwrap();
    assert!(JsObject::from_js_value(&env, *o.value()).is_ok());
    assert_eq!(JsString::from_js_value(&env, *o.value()).err(), Some(IonError::ValueCastError));
}

#[test]
fn mistyped_property_is_an_invalid_argument() {
    let mut env = Env::new();
    let mut o = JsObject::new(&mut env).unwrap();
    o.set_named_property(&mut env, "name", "ion").unwrap();
    assert_eq!(o.get_named_property::<JsNumber>(&env, "name").err(), Some(IonError::InvalidArg));
    let missing = o.get_named_property::<JsNumber>(&env, "nothing");
    assert_eq!(missing.err(), Some(IonError::InvalidArg));
    let unchecked: JsString = o.get_named_property_unchecked(&env, "name").unwrap();
    assert_eq!(unchecked.get_string(&env).unwrap(), "ion");
}

#[test]
fn primitive_keys_name_their_text() {
    let mut env = Env::new();
    let mut o = JsObject::new(&mut env).unwrap();
    let five = env.create_uint32(5).unwrap();
    let minus = env.create_int32(-3).unwrap();
    let yes = env.create_boolean(true).unwrap();
    let null = env.get_null().unwrap();
    o.set_property(&mut env, five, yes).unwrap();
    o.set_property(&mut env, minus, five).unwrap();
    o.set_property(&mut env, yes, minus).unwrap();
    o.set_property(&mut env, null, null).unwrap();
    let a: JsBoolean = o.get_named_property_unchecked(&env, "5").unwrap();
    assert_eq!(a.get_value(&env), Ok(true));
    let b: JsNumber = o.get_named_property_unchecked(&env, "-3").unwrap();
    assert_eq!(b.get_u32(&env), Ok(5));
    let c: JsNumber = o.get_named_property_unchecked(&env, "true").unwrap();
    assert_eq!(c.get_i32(&env), Ok(-3));
    let d: JsUnknown = o.get_named_property_unchecked(&env, "null").unwrap();
    assert_eq!(d.type_of(&env), "object");
    assert_eq!(o.delete_property(&mut env, five), Ok(true));
    let gone: JsUnknown = o.get_named_property_unchecked(&env, "5").unwrap();
    assert_eq!(gone.type_of(&env), "undefined");
}

#[test]
fn numbers_read_from_other_primitives() {
    let mut env = Env::new();
    let t = env.create_boolean(true).unwrap();
    let as_number: JsNumber = t.into_unknown().cast_unchecked(&env);
    assert_eq!(as_number.get_u32(&env), Ok(1));
    let null = env.get_null().unwrap();
    let n: JsNumber = null.cast_unchecked(&env);
    assert_eq!(n.get_i32(&env), Ok(0));
    let u = <() as ToJsValue>::to_js_value(&mut env, ()).unwrap();
    let un: JsNumber = JsUnknown::from_js_value(&env, u).unwrap().cast_unchecked(&env);
    assert_eq!(un.get_u32(&env), Ok(0));
}
