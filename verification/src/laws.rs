//! Properties that hold across the operations of the value layer.
use vstd::prelude::*;

use crate::env::{undefined_handle, value_in_range, Env, JsData, Property, Value};
use crate::error::IonError;
use crate::paths::{path_is_absolute, run_entry, test_entry};
use crate::traits::{FromJsValue, ToJsValue};
use crate::values::js_array::{array_get, array_items, array_length, array_set, array_stands_for};
use crate::values::js_array_buffer::{buffer_contents, holds_bytes};
use crate::values::js_boolean::boolean_value;
use crate::values::js_number::{integer_of, to_int32, to_uint32, JsNumber};
use crate::values::js_object_value::{property_get, props_map};
use crate::values::js_string::{holds_string, string_contents};
use crate::values::js_values_vec::JsValuesTupleIntoVec;
use crate::values::thread_safe_function::count_after_release;

verus! {

/// Reading back a buffer made from some bytes gives those bytes.
pub proof fn lemma_buffer_round_trip(heap: Seq<JsData>, v: Value, data: Seq<u8>)
    requires
        holds_bytes(heap, v, data),
    ensures
        buffer_contents(heap[v.index()]) == Ok::<Seq<u8>, IonError>(data),
{
}

/// Reading back a string made from some text gives that text.
pub proof fn lemma_string_round_trip(heap: Seq<JsData>, v: Value, text: Seq<char>)
    requires
        holds_string(heap, v, text),
    ensures
        string_contents(heap[v.index()]) == Ok::<Seq<char>, IonError>(text),
{
}

/// Reading back a boolean gives the boolean it was made from.
pub proof fn lemma_boolean_round_trip(b: bool)
    ensures
        boolean_value(JsData::Boolean(b)) == Ok::<bool, IonError>(b),
{
}

/// A number made from an unsigned 32-bit integer reads back, unsigned, as
/// that integer.
pub proof fn lemma_uint32_round_trip(u: u32)
    ensures
        to_uint32(u as int) == u as int,
{
}

/// A number made from a signed 32-bit integer reads back, signed, as that
/// integer.
pub proof fn lemma_int32_round_trip(i: i32)
    ensures
        to_int32(i as int) == i as int,
{
}

/// Reading an index of an array gives what was last written there; the
/// other elements stay, and the array grows to hold the index.
pub proof fn lemma_array_set_get(items: Seq<Value>, index: int, v: Value)
    requires
        0 <= index,
    ensures
        array_get(array_set(items, index, v), index) == v,
        array_set(items, index, v).len() == if index < items.len() { items.len() as int } else { index + 1 },
        forall|j: int| 0 <= j < items.len() && j != index ==> #[trigger] array_get(array_set(items, index, v), j) == array_get(items, j),
{
}

/// Pushing appends: the new last element is the pushed one.
pub proof fn lemma_array_push_get(items: Seq<Value>, v: Value)
    ensures
        array_get(items.push(v), items.len() as int) == v,
        items.push(v).len() == items.len() + 1,
{
}

/// An array made from a vector has the vector's length, and each element
/// stands for the vector's element at the same index.
pub proof fn lemma_array_from_vec_read<T: ToJsValue>(env: &Env, a: Value, xs: Seq<T>)
    requires
        env.wf(),
        array_stands_for(env.heap(), a, xs),
    ensures
        array_length(env.heap()[a.index()]) == Ok::<u32, IonError>(xs.len() as u32),
        forall|i: int| 0 <= i < xs.len() ==> (#[trigger] xs[i]).stands_for(env.heap(), array_get(array_items(env.heap()[a.index()]), i)),
{
    assert(value_in_range(env.heap()[a.index()]));
}

/// An array made from a vector of `i32` reads back in order: each element
/// is a number, and reading it as `ToInt32` does gives the vector's element
/// at the same index.
pub proof fn lemma_int_array_round_trip(env: &Env, a: Value, xs: Seq<i32>)
    requires
        env.wf(),
        array_stands_for(env.heap(), a, xs),
    ensures
        forall|i: int| 0 <= i < xs.len() ==> {
            let item = #[trigger] array_items(env.heap()[a.index()])[i];
            &&& env.valid(item)
            &&& <JsNumber as FromJsValue>::accepts(env.data(item))
            &&& to_int32(integer_of(env.data(item))->Some_0) == xs[i]
        },
{
    assert forall|i: int| 0 <= i < xs.len() implies {
        let item = #[trigger] array_items(env.heap()[a.index()])[i];
        &&& env.valid(item)
        &&& <JsNumber as FromJsValue>::accepts(env.data(item))
        &&& to_int32(integer_of(env.data(item))->Some_0) == xs[i]
    } by {
        assert(xs[i].stands_for(env.heap(), array_items(env.heap()[a.index()])[i]));
        lemma_int32_round_trip(xs[i]);
    }
}

/// Reading a property gives what was last written to it; the other
/// properties stay.
pub proof fn lemma_property_set_get(before: Seq<Property>, after: Seq<Property>, key: Seq<char>, v: Value)
    requires
        props_map(after) == props_map(before).insert(key, v),
    ensures
        property_get(after, key) == v,
        forall|k: Seq<char>| k != key ==> #[trigger] property_get(after, k) == property_get(before, k),
{
}

/// A deleted property reads as `undefined`; the other properties stay.
pub proof fn lemma_property_delete_get(before: Seq<Property>, after: Seq<Property>, key: Seq<char>)
    requires
        props_map(after) == props_map(before).remove(key),
    ensures
        property_get(after, key) == undefined_handle(),
        forall|k: Seq<char>| k != key ==> #[trigger] property_get(after, k) == property_get(before, k),
{
}

/// Taking a holder away after adding one restores a reference count.
pub proof fn lemma_count_inc_then_release(count: usize)
    requires
        count < usize::MAX,
    ensures
        count_after_release((count + 1) as usize) == count,
{
}

/// Letting go of a holder brings a reference count to 0 exactly when it
/// was 1.
pub proof fn lemma_release_reaches_zero(count: usize)
    ensures
        (count_after_release(count) == 0) == (count == 1),
{
}

/// A call with `()` as its arguments has none.
pub proof fn lemma_unit_has_no_args()
    ensures
        JsValuesTupleIntoVec::arity(&()) == 0,
{
    broadcast use vstd::layout::layout_of_unit_tuple;
}

/// An absolute path resolves to the same file whatever the current
/// directory.
pub proof fn lemma_absolute_entry_ignores_cwd(cwd1: Seq<char>, cwd2: Seq<char>, path: Seq<char>)
    requires
        path_is_absolute(path),
    ensures
        run_entry(cwd1, path) == run_entry(cwd2, path),
        test_entry(cwd1, path) == test_entry(cwd2, path),
{
}

} // verus!
