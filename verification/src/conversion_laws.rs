//! Properties of the conversions between native and JavaScript values, and
//! of the kinds of JavaScript values.
use vstd::prelude::*;

use crate::env::{is_object_kind, js_type_of, undefined_handle, Env, JsData, PromiseState, Value};
use crate::error::IonError;
use crate::traits::{FromJsValue, ToJsValue};
use crate::values::js_array::{array_get, array_items, array_length, JsArray};
use crate::values::js_array_buffer::{buffer_contents, JsArrayBuffer};
use crate::values::js_boolean::{boolean_value, JsBoolean};
use crate::values::js_exception::JsException;
use crate::values::js_function::JsFunction;
use crate::values::js_null::JsNull;
use crate::values::js_number::{integer_of, to_int32, to_uint32, JsNumber};
use crate::values::js_object::JsObject;
use crate::values::js_object_value::property_key;
use crate::values::js_promise::{settles_as, JsPromise, JsPromiseResult};
use crate::values::js_string::{string_contents, JsString};
use crate::values::js_unknown::JsUnknown;
use crate::values::js_values_vec::JsValuesTupleIntoVec;

verus! {

// Arguments of a call keep their order.

/// A single argument becomes one handle that stands for it; a value of size
/// zero, such as `()`, becomes none.
pub proof fn lemma_single_arg<A: ToJsValue>(a: A, heap: Seq<JsData>, args: Seq<Value>)
    requires
        a.args_stand_for(heap, args),
    ensures
        vstd::layout::size_of::<A>() == 0 ==> args.len() == 0,
        vstd::layout::size_of::<A>() != 0 ==> args.len() == 1 && a.stands_for(heap, args[0]),
        a.args_convert() == (vstd::layout::size_of::<A>() == 0 || a.converts()),
        a.args_error() == a.convert_error(),
{
}

/// Two arguments become two handles, the k-th standing for the k-th
/// argument; the conversion fails with the error of the first argument that
/// does not convert.
pub proof fn lemma_pair_args_in_order<A: ToJsValue, B: ToJsValue>(t: (A, B), heap: Seq<JsData>, args: Seq<Value>)
    requires
        t.args_stand_for(heap, args),
    ensures
        args.len() == 2,
        t.0.stands_for(heap, args[0]),
        t.1.stands_for(heap, args[1]),
        t.args_convert() == (t.0.converts() && t.1.converts()),
        !t.0.converts() ==> t.args_error() == t.0.convert_error(),
        t.0.converts() && !t.1.converts() ==> t.args_error() == t.1.convert_error(),
{
}

/// Three arguments become three handles, the k-th standing for the k-th
/// argument; the conversion fails with the error of the first argument that
/// does not convert.
pub proof fn lemma_triple_args_in_order<A: ToJsValue, B: ToJsValue, C: ToJsValue>(
    t: (A, B, C),
    heap: Seq<JsData>,
    args: Seq<Value>,
)
    requires
        t.args_stand_for(heap, args),
    ensures
        args.len() == 3,
        t.0.stands_for(heap, args[0]),
        t.1.stands_for(heap, args[1]),
        t.2.stands_for(heap, args[2]),
        t.args_convert() == (t.0.converts() && t.1.converts() && t.2.converts()),
        !t.0.converts() ==> t.args_error() == t.0.convert_error(),
        t.0.converts() && !t.1.converts() ==> t.args_error() == t.1.convert_error(),
        t.0.converts() && t.1.converts() && !t.2.converts() ==> t.args_error() == t.2.convert_error(),
{
}

/// Four arguments become four handles, the k-th standing for the k-th
/// argument; the conversion fails with the error of the first argument that
/// does not convert.
pub proof fn lemma_quad_args_in_order<A: ToJsValue, B: ToJsValue, C: ToJsValue, D: ToJsValue>(
    t: (A, B, C, D),
    heap: Seq<JsData>,
    args: Seq<Value>,
)
    requires
        t.args_stand_for(heap, args),
    ensures
        args.len() == 4,
        t.0.stands_for(heap, args[0]),
        t.1.stands_for(heap, args[1]),
        t.2.stands_for(heap, args[2]),
        t.3.stands_for(heap, args[3]),
        t.args_convert() == (t.0.converts() && t.1.converts() && t.2.converts() && t.3.converts()),
        !t.0.converts() ==> t.args_error() == t.0.convert_error(),
        t.0.converts() && !t.1.converts() ==> t.args_error() == t.1.convert_error(),
        t.0.converts() && t.1.converts() && !t.2.converts() ==> t.args_error() == t.2.convert_error(),
        t.0.converts() && t.1.converts() && t.2.converts() && !t.3.converts() ==> t.args_error()
            == t.3.convert_error(),
{
}

/// Five arguments become five handles, the k-th standing for the k-th
/// argument; the conversion fails with the error of the first argument that
/// does not convert.
pub proof fn lemma_five_args_in_order<A: ToJsValue, B: ToJsValue, C: ToJsValue, D: ToJsValue, E: ToJsValue>(
    t: (A, B, C, D, E),
    heap: Seq<JsData>,
    args: Seq<Value>,
)
    requires
        t.args_stand_for(heap, args),
    ensures
        args.len() == 5,
        t.0.stands_for(heap, args[0]),
        t.1.stands_for(heap, args[1]),
        t.2.stands_for(heap, args[2]),
        t.3.stands_for(heap, args[3]),
        t.4.stands_for(heap, args[4]),
        t.args_convert() == (t.0.converts() && t.1.converts() && t.2.converts() && t.3.converts()
            && t.4.converts()),
        !t.0.converts() ==> t.args_error() == t.0.convert_error(),
        t.0.converts() && !t.1.converts() ==> t.args_error() == t.1.convert_error(),
        t.0.converts() && t.1.converts() && !t.2.converts() ==> t.args_error() == t.2.convert_error(),
        t.0.converts() && t.1.converts() && t.2.converts() && !t.3.converts() ==> t.args_error()
            == t.3.convert_error(),
        t.0.converts() && t.1.converts() && t.2.converts() && t.3.converts() && !t.4.converts()
            ==> t.args_error() == t.4.convert_error(),
{
}

/// Six arguments become six handles, the k-th standing for the k-th
/// argument; the conversion fails with the error of the first argument that
/// does not convert.
pub proof fn lemma_six_args_in_order<
    A: ToJsValue,
    B: ToJsValue,
    C: ToJsValue,
    D: ToJsValue,
    E: ToJsValue,
    F: ToJsValue,
>(t: (A, B, C, D, E, F), heap: Seq<JsData>, args: Seq<Value>)
    requires
        t.args_stand_for(heap, args),
    ensures
        args.len() == 6,
        t.0.stands_for(heap, args[0]),
        t.1.stands_for(heap, args[1]),
        t.2.stands_for(heap, args[2]),
        t.3.stands_for(heap, args[3]),
        t.4.stands_for(heap, args[4]),
        t.5.stands_for(heap, args[5]),
        t.args_convert() == (t.0.converts() && t.1.converts() && t.2.converts() && t.3.converts()
            && t.4.converts() && t.5.converts()),
        !t.0.converts() ==> t.args_error() == t.0.convert_error(),
        t.0.converts() && !t.1.converts() ==> t.args_error() == t.1.convert_error(),
        t.0.converts() && t.1.converts() && !t.2.converts() ==> t.args_error() == t.2.convert_error(),
        t.0.converts() && t.1.converts() && t.2.converts() && !t.3.converts() ==> t.args_error()
            == t.3.convert_error(),
        t.0.converts() && t.1.converts() && t.2.converts() && t.3.converts() && !t.4.converts()
            ==> t.args_error() == t.4.convert_error(),
        t.0.converts() && t.1.converts() && t.2.converts() && t.3.converts() && t.4.converts()
            && !t.5.converts() ==> t.args_error() == t.5.convert_error(),
{
}

// Native values become the JavaScript values of the same value.

/// An `i32` becomes the JavaScript number of exactly that value.
pub proof fn lemma_i32_converts_exactly(x: i32, heap: Seq<JsData>, v: Value)
    requires
        x.stands_for(heap, v),
    ensures
        0 <= v.index() < heap.len(),
        heap[v.index()] matches JsData::Number(n) && n == x,
        x.converts(),
{
}

/// A `u32` becomes the JavaScript number of exactly that value.
pub proof fn lemma_u32_converts_exactly(x: u32, heap: Seq<JsData>, v: Value)
    requires
        x.stands_for(heap, v),
    ensures
        0 <= v.index() < heap.len(),
        heap[v.index()] matches JsData::Number(n) && n == x,
        x.converts(),
{
}

/// A `bool` becomes the JavaScript boolean of the same truth.
pub proof fn lemma_bool_converts_exactly(b: bool, heap: Seq<JsData>, v: Value)
    requires
        b.stands_for(heap, v),
    ensures
        0 <= v.index() < heap.len(),
        heap[v.index()] matches JsData::Boolean(c) && c == b,
        b.converts(),
{
}

/// A `String` becomes the JavaScript string of the same text.
pub proof fn lemma_string_converts_exactly(s: String, heap: Seq<JsData>, v: Value)
    requires
        s.stands_for(heap, v),
    ensures
        0 <= v.index() < heap.len(),
        heap[v.index()] matches JsData::String(t) && t@ == s@,
        s.converts(),
{
}

/// A `&str` becomes the JavaScript string of the same text.
pub proof fn lemma_str_converts_exactly(s: &str, heap: Seq<JsData>, v: Value)
    requires
        s.stands_for(heap, v),
    ensures
        0 <= v.index() < heap.len(),
        heap[v.index()] matches JsData::String(t) && t@ == s@,
        s.converts(),
{
}

/// A vector of bytes becomes a live buffer of the same bytes.
pub proof fn lemma_bytes_convert_exactly(bytes: Vec<u8>, heap: Seq<JsData>, v: Value)
    requires
        bytes.stands_for(heap, v),
    ensures
        0 <= v.index() < heap.len(),
        heap[v.index()] matches JsData::ArrayBuffer { bytes: b, detached } && !detached && b@ == bytes@,
        bytes.converts(),
{
}

/// `()` becomes `undefined`.
pub proof fn lemma_unit_converts_to_undefined(env: &Env, v: Value)
    requires
        env.wf(),
        ().stands_for(env.heap(), v),
    ensures
        env.valid(v),
        env.data(v) is Undefined,
{
    broadcast use crate::env::lemma_value_index_injective;
}

/// A vector of `i32` becomes an array of as many elements, the k-th the
/// JavaScript number of exactly the k-th integer.
pub proof fn lemma_i32_vec_converts_exactly(xs: Vec<i32>, heap: Seq<JsData>, v: Value)
    requires
        xs.stands_for(heap, v),
    ensures
        0 <= v.index() < heap.len(),
        heap[v.index()] is Array,
        array_items(heap[v.index()]).len() == xs@.len(),
        forall|k: int| 0 <= k < xs@.len() ==> {
            let item = #[trigger] array_items(heap[v.index()])[k];
            &&& 0 <= item.index() < heap.len()
            &&& heap[item.index()] matches JsData::Number(n) && n == xs@[k]
        },
{
    assert forall|k: int| 0 <= k < xs@.len() implies {
        let item = #[trigger] array_items(heap[v.index()])[k];
        &&& 0 <= item.index() < heap.len()
        &&& heap[item.index()] matches JsData::Number(n) && n == xs@[k]
    } by {
        assert(xs@[k].stands_for(heap, array_items(heap[v.index()])[k]));
    }
}

/// A vector becomes an array of as many elements, the k-th standing for the
/// k-th element of the vector.
pub proof fn lemma_vec_converts_in_order<T: ToJsValue>(xs: Vec<T>, heap: Seq<JsData>, v: Value)
    requires
        xs.stands_for(heap, v),
    ensures
        0 <= v.index() < heap.len(),
        heap[v.index()] is Array,
        array_items(heap[v.index()]).len() == xs@.len(),
        forall|k: int| 0 <= k < xs@.len() ==> (#[trigger] xs@[k]).stands_for(heap, array_items(heap[v.index()])[k]),
        xs.converts() <==> forall|k: int| 0 <= k < xs@.len() ==> (#[trigger] xs@[k]).converts(),
{
}

// Reads.

/// Reading a value as a string, a boolean, bytes or an array length gives
/// what a value of that kind holds, and `ValueCastError` for a value of any
/// other kind.
pub proof fn lemma_reads_follow_the_kind(d: JsData)
    ensures
        d matches JsData::String(s) ==> string_contents(d) == Ok::<Seq<char>, IonError>(s@),
        !(d is String) ==> string_contents(d) == Err::<Seq<char>, IonError>(IonError::ValueCastError),
        d matches JsData::Boolean(b) ==> boolean_value(d) == Ok::<bool, IonError>(b),
        !(d is Boolean) ==> boolean_value(d) == Err::<bool, IonError>(IonError::ValueCastError),
        d matches JsData::ArrayBuffer { bytes: b, detached: false } ==> buffer_contents(d) == Ok::<
            Seq<u8>,
            IonError,
        >(b@),
        !(d matches JsData::ArrayBuffer { detached: false, .. }) ==> buffer_contents(d) == Err::<
            Seq<u8>,
            IonError,
        >(IonError::ValueCastError),
        d matches JsData::Array(items) ==> array_length(d) == Ok::<u32, IonError>(items@.len() as u32),
        !(d is Array) ==> array_length(d) == Err::<u32, IonError>(IonError::ValueCastError),
{
}

/// An element read inside an array is the element at that index; past the
/// end, or before the start, it is `undefined`.
pub proof fn lemma_array_get_reads_the_element(items: Seq<Value>, i: int)
    ensures
        0 <= i < items.len() ==> array_get(items, i) == items[i],
        !(0 <= i < items.len()) ==> array_get(items, i) == undefined_handle(),
{
}

/// `ToUint32` gives the integer in `[0, 2^32)` that differs from `n` by a
/// multiple of `2^32`.
pub proof fn lemma_to_uint32_is_modular(n: int)
    ensures
        0 <= to_uint32(n) < 0x1_0000_0000,
        to_uint32(n) == n - (n / 0x1_0000_0000) * 0x1_0000_0000,
{
}

/// `ToInt32` gives the integer in `[-2^31, 2^31)` that differs from `n` by a
/// multiple of `2^32`.
pub proof fn lemma_to_int32_is_modular(n: int)
    ensures
        -0x8000_0000 <= to_int32(n) < 0x8000_0000,
        to_int32(n) == n - (n / 0x1_0000_0000) * 0x1_0000_0000
            || to_int32(n) == n - (n / 0x1_0000_0000) * 0x1_0000_0000 - 0x1_0000_0000,
{
}

/// The numeric conversions start from the number itself, 1 for `true`, and
/// 0 for `false`, `null` and `undefined`; strings and objects are not
/// covered.
pub proof fn lemma_integer_of_primitives(d: JsData)
    ensures
        d matches JsData::Number(n) ==> integer_of(d) == Some(n as int),
        d matches JsData::Boolean(b) ==> integer_of(d) == Some(if b { 1int } else { 0int }),
        (d is Undefined || d is Null) ==> integer_of(d) == Some(0int),
        (d is String || d is Object || d is Array || d is ArrayBuffer || d is Function || d is Promise
            || d is External) ==> integer_of(d) is None,
{
}

// Promises.

/// A fulfilled promise hands its callback `Resolved` with the fulfilled
/// value, a rejected one `Rejected` with the reason, and a pending one
/// nothing.
pub proof fn lemma_settlement_matches_the_state<R: FromJsValue>(state: PromiseState, p: JsPromiseResult<R>)
    ensures
        state is Pending ==> !settles_as(state, p),
        state matches PromiseState::Fulfilled(v) ==> (settles_as(state, p) <==> (p matches JsPromiseResult::Resolved(
            x,
        ) && x.handle() == v)),
        state matches PromiseState::Rejected(v) ==> (settles_as(state, p) <==> (p matches JsPromiseResult::Rejected(
            u,
        ) && u.handle() == v)),
{
}

// The wrappers take exactly the kinds of value that they name.

/// Objects, which can hold named properties, are the plain objects, arrays,
/// buffers, functions, promises and externals.
pub proof fn lemma_object_kinds(d: JsData)
    ensures
        is_object_kind(d) <==> (d is Object || d is Array || d is ArrayBuffer || d is Function
            || d is Promise || d is External),
{
}


/// The object wrapper takes every JavaScript object (plain objects, arrays,
/// buffers, functions and promises) and nothing else.
pub proof fn lemma_object_wrapper_takes_objects(d: JsData)
    ensures
        <JsObject as FromJsValue>::accepts(d) <==> (d is Object || d is Array || d is ArrayBuffer
            || d is Function || d is Promise),
{
}

/// Each typed wrapper takes exactly the values of its own kind; the unknown
/// and exception wrappers take every value.
pub proof fn lemma_wrappers_take_their_kind(d: JsData)
    ensures
        <JsNumber as FromJsValue>::accepts(d) <==> d is Number,
        <JsString as FromJsValue>::accepts(d) <==> d is String,
        <JsBoolean as FromJsValue>::accepts(d) <==> d is Boolean,
        <JsNull as FromJsValue>::accepts(d) <==> d is Null,
        <JsArray as FromJsValue>::accepts(d) <==> d is Array,
        <JsArrayBuffer as FromJsValue>::accepts(d) <==> d is ArrayBuffer,
        <JsFunction as FromJsValue>::accepts(d) <==> d is Function,
        <JsPromise as FromJsValue>::accepts(d) <==> d is Promise,
        <JsUnknown as FromJsValue>::accepts(d),
        <JsException as FromJsValue>::accepts(d),
{
}

// `typeof`.

/// `typeof` is `"undefined"` for `undefined` alone, `"function"` for
/// functions alone, `"object"` for `null` and every object that is not a
/// function, and names the kind of the other primitives.
pub proof fn lemma_type_of_follows_javascript(d: JsData)
    ensures
        js_type_of(d) == "undefined"@ <==> d is Undefined,
        js_type_of(d) == "function"@ <==> d is Function,
        js_type_of(d) == "object"@ <==> (d is Null || d is Object || d is Array || d is ArrayBuffer
            || d is Promise || d is External),
        js_type_of(d) == "number"@ <==> d is Number,
        js_type_of(d) == "string"@ <==> d is String,
        js_type_of(d) == "boolean"@ <==> d is Boolean,
{
    reveal_strlit("undefined");
    reveal_strlit("function");
    reveal_strlit("object");
    reveal_strlit("number");
    reveal_strlit("string");
    reveal_strlit("boolean");
    assert("undefined"@.len() == 9);
    assert("function"@.len() == 8);
    assert("boolean"@.len() == 7);
    assert("object"@.len() == 6 && "object"@[0] == 'o');
    assert("number"@.len() == 6 && "number"@[0] == 'n');
    assert("string"@.len() == 6 && "string"@[0] == 's');
}

// Keys.

/// The value of a digit character.
pub open spec fn digit_value(c: char) -> int {
    (c as int) - ('0' as int)
}

/// A numeral: decimal digits, with no leading zero unless it is `0`.
pub open spec fn is_numeral(s: Seq<char>) -> bool {
    &&& s.len() > 0
    &&& forall|i: int| 0 <= i < s.len() ==> '0' <= #[trigger] s[i] <= '9'
    &&& s.len() > 1 ==> s[0] != '0'
}

/// The number that a string of decimal digits reads as.
pub open spec fn numeral_value(s: Seq<char>) -> int
    decreases s.len(),
{
    if s.len() == 0 {
        0
    } else {
        numeral_value(s.drop_last()) * 10 + digit_value(s.last())
    }
}

/// The digit character of `d` is a digit of value `d`, and not `0` unless
/// `d` is.
proof fn lemma_digit_char(d: nat)
    requires
        d < 10,
    ensures
        '0' <= crate::memory::digit_char(d) <= '9',
        digit_value(crate::memory::digit_char(d)) == d,
        d != 0 ==> crate::memory::digit_char(d) != '0',
{
    assert('0' as int == 48);
    assert('9' as int == 57);
    if d == 0 {
    } else if d == 1 {
        assert('1' as int == 49);
    } else if d == 2 {
        assert('2' as int == 50);
    } else if d == 3 {
        assert('3' as int == 51);
    } else if d == 4 {
        assert('4' as int == 52);
    } else if d == 5 {
        assert('5' as int == 53);
    } else if d == 6 {
        assert('6' as int == 54);
    } else if d == 7 {
        assert('7' as int == 55);
    } else if d == 8 {
        assert('8' as int == 56);
    } else {
        assert('9' as int == 57);
    }
}

/// `decimal(n)` is the numeral of `n`, and starts with a digit other than
/// `0` when `n` is not 0.
pub proof fn lemma_decimal_is_numeral(n: nat)
    ensures
        is_numeral(crate::memory::decimal(n)),
        numeral_value(crate::memory::decimal(n)) == n,
        n != 0 ==> crate::memory::decimal(n)[0] != '0',
    decreases n,
{
    let d = crate::memory::decimal(n);
    if n < 10 {
        lemma_digit_char(n);
        assert(d == seq![crate::memory::digit_char(n)]);
        assert(d.drop_last() =~= Seq::<char>::empty());
        assert(numeral_value(d.drop_last()) == 0);
    } else {
        let head = crate::memory::decimal(n / 10);
        lemma_decimal_is_numeral(n / 10);
        lemma_digit_char(n % 10);
        let c = crate::memory::digit_char(n % 10);
        assert(d == head + seq![c]);
        assert(d.drop_last() =~= head);
        assert(d.last() == c);
        assert(d[0] == head[0]);
        assert forall|i: int| 0 <= i < d.len() implies '0' <= #[trigger] d[i] <= '9' by {
            if i < head.len() {
                assert(d[i] == head[i]);
            } else {
                assert(d[i] == c);
            }
        }
        assert(numeral_value(d) == numeral_value(head) * 10 + digit_value(c));
    }
}

/// How a number of bytes shows: the numeral of the bytes below 4096, then
/// ` bytes`; of whole KiB below 4096 KiB, then `kb`; of whole MiB above,
/// then `mb`.
pub proof fn lemma_bytes_text_shows_the_amount(b: nat)
    ensures
        ({
            let t = crate::memory::bytes_text(b);
            let (amount, unit) = if b < 4096 {
                (b, " bytes"@)
            } else if b / 1024 < 4096 {
                (b / 1024, "kb"@)
            } else {
                (b / 1024 / 1024, "mb"@)
            };
            &&& t.len() > unit.len()
            &&& t.subrange(t.len() - unit.len(), t.len() as int) == unit
            &&& is_numeral(t.subrange(0, t.len() - unit.len()))
            &&& numeral_value(t.subrange(0, t.len() - unit.len())) == amount
        }),
{
    let t = crate::memory::bytes_text(b);
    let (amount, unit) = if b < 4096 {
        (b, " bytes"@)
    } else if b / 1024 < 4096 {
        (b / 1024, "kb"@)
    } else {
        (b / 1024 / 1024, "mb"@)
    };
    lemma_decimal_is_numeral(amount);
    let d = crate::memory::decimal(amount);
    assert(t == d + unit);
    assert(t.subrange(0, t.len() - unit.len()) =~= d);
    assert(t.subrange(t.len() - unit.len(), t.len() as int) =~= unit);
}

/// A number used as a key names the property spelled by its decimal
/// numeral, after a `-` when it is negative.
pub proof fn lemma_number_key_is_its_numeral(n: i64)
    ensures
        property_key(JsData::Number(n)) is Some,
        n >= 0 ==> ({
            let t = property_key(JsData::Number(n))->Some_0;
            is_numeral(t) && numeral_value(t) == n
        }),
        n < 0 ==> ({
            let t = property_key(JsData::Number(n))->Some_0;
            &&& t[0] == '-'
            &&& is_numeral(t.drop_first())
            &&& numeral_value(t.drop_first()) == -n
        }),
{
    reveal_strlit("-");
    if n >= 0 {
        lemma_decimal_is_numeral(n as nat);
    } else {
        lemma_decimal_is_numeral((-n) as nat);
        let t = property_key(JsData::Number(n))->Some_0;
        assert(t.drop_first() =~= crate::memory::decimal((-n) as nat));
    }
}

/// A string used as a key names the property of its own text; `true`,
/// `false`, `undefined` and `null` name the properties spelled as they are.
pub proof fn lemma_primitive_keys(d: JsData)
    ensures
        d matches JsData::String(s) ==> property_key(d) == Some(s@),
        d matches JsData::Boolean(b) ==> property_key(d) == Some(
            if b {
                seq!['t', 'r', 'u', 'e']
            } else {
                seq!['f', 'a', 'l', 's', 'e']
            },
        ),
        d is Undefined ==> property_key(d) == Some(seq!['u', 'n', 'd', 'e', 'f', 'i', 'n', 'e', 'd']),
        d is Null ==> property_key(d) == Some(seq!['n', 'u', 'l', 'l']),
        (d is Object || d is Array || d is ArrayBuffer || d is Function || d is Promise
            || d is External) ==> property_key(d) is None,
{
    reveal_strlit("true");
    reveal_strlit("false");
    reveal_strlit("undefined");
    reveal_strlit("null");
    assert("true"@ =~= seq!['t', 'r', 'u', 'e']);
    assert("false"@ =~= seq!['f', 'a', 'l', 's', 'e']);
    assert("undefined"@ =~= seq!['u', 'n', 'd', 'e', 'f', 'i', 'n', 'e', 'd']);
    assert("null"@ =~= seq!['n', 'u', 'l', 'l']);
}

} // verus!
