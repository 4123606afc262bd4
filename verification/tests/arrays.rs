use ion::env::Env;
use ion::error::IonError;
use ion::traits::{FromJsValue, JsValue, ToJsUnknown};
use ion::values::js_function::{JsFunction, JsFunctionCallContext};
use ion::values::js_array::JsArray;
use ion::values::js_array_buffer::JsArrayBuffer;
use ion::values::js_number::JsNumber;
use ion::values::js_object_value::JsObjectValue;
use ion::values::js_string::JsString;
use ion::values::js_unknown::JsUnknown;

#[test]
fn new_array_is_empty() {
    let mut env = Env::new();
    let a = env.create_array().unwrap();
    assert_eq!(a.length(&env), Ok(0));
    let b = JsArray::new(&mut env).unwrap();
    assert_eq!(b.length(&env), Ok(0));
}

#[test]
fn with_length_fills_undefined() {
    let mut env = Env::new();
    let a = env.create_array_with_length(3).unwrap();
    assert_eq!(a.length(&env), Ok(3));
    let v = a.get(&env, 2).unwrap();
    assert_eq!(env.type_of(v), "undefined");
    let neg = JsArray::with_length(&mut env, -4).unwrap();
    assert_eq!(neg.length(&env), Ok(0));
}

#[test]
fn push_returns_new_length_and_get_reads_it() {
    let mut env = Env::new();
    let a = env.create_array().unwrap();
    assert_eq!(a.push(&mut env, 10u32), Ok(1));
    assert_eq!(a.push(&mut env, "two"), Ok(2));
    assert_eq!(a.length(&env), Ok(2));
    let first = JsNumber::from_js_value(&env, a.get(&env, 0).unwrap()).unwrap();
    assert_eq!(first.get_u32(&env), Ok(10));
    let second = JsString::from_js_value(&env, a.get(&env, 1).unwrap()).unwrap();
    assert_eq!(second.get_string(&env).unwrap(), "two");
}

#[test]
fn get_past_the_end_is_undefined() {
    let mut env = Env::new();
    let a = env.create_array().unwrap();
    a.push(&mut env, true).unwrap();
    let v = a.get(&env, 5).unwrap();
    assert_eq!(env.type_of(v), "undefined");
}

#[test]
fn set_past_the_end_grows_with_undefined() {
    let mut env = Env::new();
    let a = env.create_array().unwrap();
    a.set(&mut env, 3, 7i32).unwrap();
    assert_eq!(a.length(&env), Ok(4));
    assert_eq!(env.type_of(a.get(&env, 1).unwrap()), "undefined");
    let n = JsNumber::from_js_value(&env, a.get(&env, 3).unwrap()).unwrap();
    assert_eq!(n.get_i32(&env), Ok(7));
    a.set(&mut env, 1, 8i32).unwrap();
    let m = JsNumber::from_js_value(&env, a.get(&env, 1).unwrap()).unwrap();
    assert_eq!(m.get_i32(&env), Ok(8));
    assert_eq!(a.length(&env), Ok(4));
}

#[test]
fn set_value_then_get() {
    let mut env = Env::new();
    let a = env.create_array_with_length(2).unwrap();
    let s = env.create_string("x").unwrap();
    a.set_value(&mut env, 0, *s.value()).unwrap();
    assert_eq!(a.get(&env, 0).unwrap(), *s.value());
}

#[test]
fn array_operations_on_a_non_array_fail() {
    let mut env = Env::new();
    let s = env.create_string("not an array").unwrap();
    assert_eq!(JsArray::from_js_value(&env, *s.value()).err(), Some(IonError::ValueCastError));
    let a: JsArray = s.into_unknown().cast_unchecked(&env);
    assert_eq!(a.length(&env), Err(IonError::ValueCastError));
    assert_eq!(a.get(&env, 0), Err(IonError::ValueCastError));
    assert_eq!(a.set(&mut env, 0, 1u32), Err(IonError::ValueCastError));
    assert_eq!(a.push(&mut env, 1u32), Err(IonError::ValueCastError));
    assert!(a.to_vec::<JsUnknown>(&env).is_err());
}

#[test]
fn from_vec_then_to_vec() {
    let mut env = Env::new();
    let a = env.create_array_from_vec(vec![1u32, 2, 3]).unwrap();
    assert_eq!(a.length(&env), Ok(3));
    let items: Vec<JsNumber> = a.to_vec(&env).unwrap();
    let read: Vec<u32> = items.iter().map(|n| n.get_u32(&env).unwrap()).collect();
    assert_eq!(read, vec![1, 2, 3]);
}

#[test]
fn nested_vectors_become_nested_arrays() {
    let mut env = Env::new();
    let a = JsArray::from_vec(&mut env, vec![vec![true], vec![false, true]]).unwrap();
    let inner: Vec<JsArray> = a.to_vec(&env).unwrap();
    assert_eq!(inner.len(), 2);
    assert_eq!(inner[0].length(&env), Ok(1));
    assert_eq!(inner[1].length(&env), Ok(2));
}

#[test]
fn buffer_round_trip() {
    let mut env = Env::new();
    let b = env.create_array_buffer_from_bytes(&[1, 2, 3, 255]).unwrap();
    assert_eq!(b.to_bytes(&env).unwrap(), vec![1, 2, 3, 255]);
    assert_eq!(b.as_slice(&env).unwrap(), &[1, 2, 3, 255]);
    assert_eq!(b.byte_length(&env), Ok(4));
    assert_eq!(b.is_detached(&env), Ok(false));
}

#[test]
fn new_buffer_is_zeroed() {
    let mut env = Env::new();
    let b = env.create_array_buffer(3).unwrap();
    assert_eq!(b.to_bytes(&env).unwrap(), vec![0, 0, 0]);
    let c = JsArrayBuffer::with_length(&mut env, 0).unwrap();
    assert_eq!(c.to_bytes(&env).unwrap(), Vec::<u8>::new());
}

#[test]
fn writes_through_the_mutable_slice_stay() {
    let mut env = Env::new();
    let b = JsArrayBuffer::new(&mut env, 2).unwrap();
    {
        let bytes = b.as_mut_slice(&mut env).unwrap();
        bytes[1] = 9;
    }
    assert_eq!(b.to_bytes(&env).unwrap(), vec![0, 9]);
}

#[test]
fn detached_buffer_refuses_reads() {
    let mut env = Env::new();
    let b = JsArrayBuffer::from_bytes(&mut env, &[5, 6]).unwrap();
    b.detach(&mut env).unwrap();
    assert_eq!(b.is_detached(&env), Ok(true));
    assert_eq!(b.byte_length(&env), Ok(0));
    assert_eq!(b.to_bytes(&env), Err(IonError::ValueCastError));
    assert_eq!(b.as_slice(&env), Err(IonError::ValueCastError));
    assert!(b.as_mut_slice(&mut env).is_err());
}

#[test]
fn buffer_operations_on_a_non_buffer_fail() {
    let mut env = Env::new();
    let n = env.create_uint32(1).unwrap();
    assert_eq!(JsArrayBuffer::from_js_value(&env, *n.value()).err(), Some(IonError::ValueCastError));
    let b: JsArrayBuffer = n.into_unknown().cast_unchecked(&env);
    assert_eq!(b.byte_length(&env), Err(IonError::ValueCastError));
    assert_eq!(b.is_detached(&env), Err(IonError::ValueCastError));
    assert_eq!(b.to_bytes(&env), Err(IonError::ValueCastError));
    assert_eq!(b.detach(&mut env), Err(IonError::ValueCastError));
}

#[test]
fn byte_vectors_become_buffers() {
    let mut env = Env::new();
    let a = env.create_array().unwrap();
    a.push(&mut env, vec![4u8, 5]).unwrap();
    let b = JsArrayBuffer::from_js_value(&env, a.get(&env, 0).unwrap()).unwrap();
    assert_eq!(b.to_bytes(&env).unwrap(), vec![4, 5]);
}

#[test]
fn arrays_and_buffers_hold_named_properties() {
    let mut env = Env::new();
    let mut arr = JsArray::new(&mut env).unwrap();
    arr.push(&mut env, 7u32).unwrap();
    arr.set_named_property(&mut env, "label", "seven").unwrap();
    let label: JsString = arr.get_named_property_unchecked(&env, "label").unwrap();
    assert_eq!(label.get_string(&env).unwrap(), "seven");
    assert_eq!(arr.length(&env), Ok(1));
    let mut buf = JsArrayBuffer::with_length(&mut env, 2).unwrap();
    buf.set_named_property(&mut env, "tag", 3u32).unwrap();
    let tag: JsNumber = buf.get_named_property_unchecked(&env, "tag").unwrap();
    assert_eq!(tag.get_u32(&env).unwrap(), 3);
    assert_eq!(buf.to_bytes(&env), Ok(vec![0u8, 0u8]));
}

#[test]
fn to_vec_fails_on_an_element_of_another_kind() {
    let mut env = Env::new();
    let a = env.create_array().unwrap();
    a.push(&mut env, 1u32).unwrap();
    a.push(&mut env, "two").unwrap();
    assert_eq!(a.to_vec::<JsNumber>(&env).err(), Some(IonError::ValueCastError));
    assert_eq!(a.to_vec::<JsUnknown>(&env).map(|v| v.len()), Ok(2));
}

#[test]
fn get_with_an_index_that_does_not_convert_fails() {
    let mut env = Env::new();
    let a = env.create_array().unwrap();
    a.push(&mut env, 4u32).unwrap();
    assert_eq!(a.get(&env, -1i32), Err(IonError::ValueCastError));
    assert_eq!(a.get(&env, 1u64 << 32), Err(IonError::ValueCastError));
    let first = JsNumber::from_js_value(&env, a.get(&env, 0usize).unwrap()).unwrap();
    assert_eq!(first.get_u32(&env), Ok(4));
    assert_eq!(env.type_of(a.get(&env, 7u8).unwrap()), "undefined");
}

#[test]
fn int_vector_reads_back_in_order() {
    let mut env = Env::new();
    let xs: Vec<i32> = vec![-7, 0, 42];
    let a = env.create_array_from_vec(xs.clone()).unwrap();
    let back = a.to_vec::<JsNumber>(&env).unwrap();
    assert_eq!(back.len(), 3);
    for (i, n) in back.iter().enumerate() {
        assert_eq!(n.get_i32(&env), Ok(xs[i]));
    }
}

#[test]
fn set_with_an_index_that_does_not_convert_fails() {
    let mut env = Env::new();
    let a = env.create_array().unwrap();
    assert_eq!(a.set(&mut env, -1i64, 1u32), Err(IonError::ValueCastError));
    assert_eq!(a.set(&mut env, u32::MAX, 1u32), Ok(()));
    assert_eq!(a.length(&env), Ok(0));
    let plain: JsNumber = a.get_named_property_unchecked(&env, "4294967295").unwrap();
    assert_eq!(plain.get_u32(&env), Ok(1));
    assert_eq!(a.set(&mut env, 2u8, 1u32), Ok(()));
    assert_eq!(a.length(&env), Ok(3));
}

#[test]
fn unit_arguments_give_an_empty_frame() {
    let mut env = Env::new();
    let (f, _info) = JsFunction::new(&mut env, |_e: &Env, _c: JsFunctionCallContext| -> Result<u32, IonError> { Ok(0) }).unwrap();
    let frame = f.call_with_args(&mut env, ()).unwrap();
    assert_eq!(frame.args.len(), 0);
    let frame = f.call_with_args(&mut env, (1u32, "two")).unwrap();
    assert_eq!(frame.args.len(), 2);
}
