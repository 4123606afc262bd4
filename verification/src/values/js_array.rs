use vstd::prelude::*;
use vstd::std_specs::convert::TryFromSpec;

use crate::values::js_object_value::{props_map, JsObjectValue};
use crate::env::{undefined_handle, Env, JsData, Value};
use crate::error::{IonError, Result};
use crate::traits::{heap_extends, FromJsValue, JsValue, ToJsUnknown, ToJsValue};

verus! {

/// A JavaScript array.
#[derive(Clone, Copy, Debug)]
pub struct JsArray {
    pub(crate) value: Value,
}

/// The elements of an array; empty for any other value.
pub open spec fn array_items(d: JsData) -> Seq<Value> {
    match d {
        JsData::Array(items) => items@,
        _ => Seq::empty(),
    }
}

/// What reading the length of a value gives.
pub open spec fn array_length(d: JsData) -> core::result::Result<u32, IonError> {
    match d {
        JsData::Array(items) => Ok(items@.len() as u32),
        _ => Err(IonError::ValueCastError),
    }
}

/// `items` after writing `v` at `index`; a write past the end fills the gap
/// with `undefined`.
pub open spec fn array_set(items: Seq<Value>, index: int, v: Value) -> Seq<Value> {
    if index < items.len() {
        items.update(index, v)
    } else {
        items + Seq::new((index - items.len()) as nat, |j: int| undefined_handle()) + seq![v]
    }
}

/// What reading `index` of `items` gives: past the end, `undefined`.
pub open spec fn array_get(items: Seq<Value>, index: int) -> Value {
    if 0 <= index < items.len() {
        items[index]
    } else {
        undefined_handle()
    }
}

/// In the store `heap`, the handle `v` is an array whose elements stand for `xs`.
pub open spec fn array_stands_for<T: ToJsValue>(heap: Seq<JsData>, v: Value, xs: Seq<T>) -> bool {
    &&& 0 <= v.index() < heap.len()
    &&& heap[v.index()] is Array
    &&& array_items(heap[v.index()]).len() == xs.len()
    &&& forall|i: int| 0 <= i < xs.len() ==> (#[trigger] xs[i]).stands_for(heap, array_items(heap[v.index()])[i])
}

/// A store that only grows keeps what an array stands for.
pub proof fn lemma_array_stands_for_kept<T: ToJsValue>(h1: Seq<JsData>, h2: Seq<JsData>, v: Value, xs: Seq<T>)
    requires
        array_stands_for(h1, v, xs),
        heap_extends(h2, h1),
    ensures
        array_stands_for(h2, v, xs),
{
    assert(h2[v.index()] == h1[v.index()]);
    assert forall|i: int| 0 <= i < xs.len() implies (#[trigger] xs[i]).stands_for(h2, array_items(h2[v.index()])[i]) by {
        xs[i].lemma_stands_for_kept(h1, h2, array_items(h1[v.index()])[i]);
    }
}

/// Writing `value`, converted, at `index` of the array `a` with `items`
/// took the store `before` to `after` with result `r`: the conversion's
/// failure leaves the array as it was.
pub open spec fn array_written<T: ToJsValue>(
    before: Seq<JsData>,
    after: Seq<JsData>,
    a: Value,
    items: Seq<Value>,
    index: int,
    value: T,
    r: Result<()>,
) -> bool {
    &&& r is Ok <==> value.converts()
    &&& r matches Err(e) ==> e == value.convert_error()
    &&& after.len() >= before.len()
    &&& forall|i: int| 0 <= i < before.len() && i != a.index() ==> #[trigger] after[i] == before[i]
    &&& after[a.index()] is Array
    &&& r is Err ==> after[a.index()] == before[a.index()]
    &&& r is Ok ==> exists|mid: Seq<JsData>, v: Value| {
        &&& heap_extends(mid, before)
        &&& after == mid.update(a.index(), after[a.index()])
        &&& value.stands_for(mid, v)
        &&& array_items(after[a.index()]) == array_set(items, index, v)
    }
}

/// The conversion of each of `xs` succeeds.
pub open spec fn all_convert<T: ToJsValue>(xs: Seq<T>) -> bool {
    forall|i: int| 0 <= i < xs.len() ==> (#[trigger] xs[i]).converts()
}

/// The error of the first of `xs` whose conversion fails.
pub open spec fn first_convert_error<T: ToJsValue>(xs: Seq<T>) -> IonError
    decreases xs.len(),
{
    if xs.len() == 0 {
        IonError::ValueCastError
    } else if !xs[0].converts() {
        xs[0].convert_error()
    } else {
        first_convert_error(xs.drop_first())
    }
}

/// When every element before `k` converts and the one at `k` does not, the
/// first failing conversion is the one at `k`.
pub proof fn lemma_first_convert_error<T: ToJsValue>(xs: Seq<T>, k: int)
    requires
        0 <= k < xs.len(),
        forall|j: int| 0 <= j < k ==> (#[trigger] xs[j]).converts(),
        !xs[k].converts(),
    ensures
        first_convert_error(xs) == xs[k].convert_error(),
    decreases k,
{
    if k > 0 {
        assert(xs[0].converts());
        let rest = xs.drop_first();
        assert forall|j: int| 0 <= j < k - 1 implies (#[trigger] rest[j]).converts() by {
            assert(rest[j] == xs[j + 1]);
        }
        assert(rest[k - 1] == xs[k]);
        lemma_first_convert_error(rest, k - 1);
    }
}

/// Converts each of `xs` in turn; the handles stand for the inputs. Stops
/// at the first conversion that fails, with its error.
fn convert_all<T: ToJsValue>(env: &mut Env, xs: Vec<T>) -> (r: Result<Vec<Value>>)
    requires
        old(env).wf(),
        forall|i: int| 0 <= i < xs@.len() ==> (#[trigger] xs@[i]).fits(old(env).heap().len()),
    ensures
        final(env).wf(),
        final(env).extends(old(env)),
        final(env).same_bookkeeping(old(env)),
        r is Ok <==> all_convert(xs@),
        r matches Err(e) ==> e == first_convert_error(xs@),
        r matches Ok(out) ==> {
            &&& out@.len() == xs@.len()
            &&& forall|i: int| 0 <= i < out@.len() ==> final(env).valid(#[trigger] out@[i])
            &&& forall|i: int| 0 <= i < xs@.len() ==> (#[trigger] xs@[i]).stands_for(final(env).heap(), out@[i])
        },
{
    let ghost items = xs@;
    let ghost start = *env;
    let mut out: Vec<Value> = Vec::new();
    for item in it: xs.into_iter()
        invariant
            it.seq() == items,
            items == xs@,
            start == *old(env),
            env.wf(),
            env.extends(&start),
            env.same_bookkeeping(&start),
            start.wf(),
            forall|i: int| 0 <= i < items.len() ==> (#[trigger] items[i]).fits(start.heap().len()),
            out@.len() == it.index(),
            forall|i: int| 0 <= i < out@.len() ==> (#[trigger] items[i]).converts(),
            forall|i: int| 0 <= i < out@.len() ==> env.valid(#[trigger] out@[i]),
            forall|i: int| 0 <= i < out@.len() ==> (#[trigger] items[i]).stands_for(env.heap(), out@[i]),
    {
        let ghost before = *env;
        proof {
            item.lemma_fits_grow(start.heap().len(), env.heap().len());
        }
        let v = match T::to_js_value(env, item) {
            Ok(v) => v,
            Err(e) => {
                proof {
                    lemma_first_convert_error(items, out@.len() as int);
                }
                return Err(e);
            },
        };
        proof {
            assert forall|i: int| 0 <= i < out@.len() implies (#[trigger] items[i]).stands_for(env.heap(), out@[i]) by {
                items[i].lemma_stands_for_kept(before.heap(), env.heap(), out@[i]);
            }
        }
        out.push(v);
    }
    Ok(out)
}

impl JsArray {
    /// Creates an empty array.
    pub fn new(env: &mut Env) -> (r: Result<Self>)
        requires
            old(env).wf(),
        ensures
            final(env).wf(),
            final(env).same_bookkeeping(old(env)),
            final(env).extends(old(env)),
            final(env).heap().len() == old(env).heap().len() + 1,
            r matches Ok(a) && a.handle().index() == old(env).heap().len()
                && final(env).data(a.handle()) is Array
                && array_items(final(env).data(a.handle())).len() == 0,
    {
        let value = env.allocate(JsData::Array(Vec::new()));
        Ok(JsArray { value })
    }

    /// Creates an array of `length` elements, all `undefined`; a negative
    /// length gives an empty array.
    pub fn with_length(env: &mut Env, length: i32) -> (r: Result<Self>)
        requires
            old(env).wf(),
        ensures
            final(env).wf(),
            final(env).same_bookkeeping(old(env)),
            final(env).extends(old(env)),
            final(env).heap().len() == old(env).heap().len() + 1,
            r matches Ok(a) && a.handle().index() == old(env).heap().len()
                && final(env).data(a.handle()) is Array
                && array_items(final(env).data(a.handle())) == Seq::new(
                    if length < 0 { 0nat } else { length as nat },
                    |j: int| undefined_handle(),
                ),
    {
        let undefined = env.undefined();
        let mut items: Vec<Value> = Vec::new();
        let mut i: i32 = 0;
        while i < length
            invariant
                0 <= i,
                length < 0 ==> i == 0,
                length >= 0 ==> i <= length,
                items@ == Seq::new(i as nat, |j: int| undefined_handle()),
                undefined == undefined_handle(),
            decreases length - i,
        {
            items.push(undefined);
            i = i + 1;
            assert(items@ =~= Seq::new(i as nat, |j: int| undefined_handle()));
        }
        proof {
            if length < 0 {
                assert(items@ =~= Seq::new(0nat, |j: int| undefined_handle()));
            }
            broadcast use crate::env::lemma_value_index_injective;
        }
        let value = env.allocate(JsData::Array(items));
        Ok(JsArray { value })
    }

    /// Creates an array whose elements are `vec`, converted in order; fails
    /// with the error of the first conversion that fails.
    pub fn from_vec<T: ToJsValue>(env: &mut Env, vec: Vec<T>) -> (r: Result<Self>)
        requires
            old(env).wf(),
            vec@.len() <= u32::MAX,
            forall|i: int| 0 <= i < vec@.len() ==> (#[trigger] vec@[i]).fits(old(env).heap().len()),
        ensures
            final(env).wf(),
            final(env).same_bookkeeping(old(env)),
            final(env).extends(old(env)),
            r is Ok <==> all_convert(vec@),
            r matches Err(e) ==> e == first_convert_error(vec@),
            r matches Ok(a) ==> array_stands_for(final(env).heap(), a.handle(), vec@),
    {
        let ghost xs = vec@;
        let items = convert_all(env, vec)?;
        let ghost mid = *env;
        proof {
            broadcast use crate::env::lemma_value_index_injective;
            assert(crate::env::handles_below(JsData::Array(items), env.heap().len()));
        }
        let value = env.allocate(JsData::Array(items));
        proof {
            assert(env.data(value) == JsData::Array(items));
            assert forall|i: int| 0 <= i < xs.len() implies (#[trigger] xs[i]).stands_for(env.heap(), array_items(env.heap()[value.index()])[i]) by {
                xs[i].lemma_stands_for_kept(mid.heap(), env.heap(), items@[i]);
            }
        }
        Ok(JsArray { value })
    }

    /// The number of elements; fails when the value is not an array.
    pub fn length(&self, env: &Env) -> (r: Result<u32>)
        requires
            env.wf(),
            env.valid(self.handle()),
        ensures
            r == array_length(env.data(self.handle())),
    {
        match env.get(self.value) {
            JsData::Array(items) => {
                assert(crate::env::value_in_range(env.heap()[self.handle().index()]));
                Ok(items.len() as u32)
            },
            _ => Err(IonError::ValueCastError),
        }
    }

    /// The element at `index`, given as an integer of any type that
    /// converts to `u32`: `undefined` past the end; fails with
    /// [`IonError::ValueCastError`] when the value is not an array or the
    /// index does not convert.
    pub fn get<I>(&self, env: &Env, index: I) -> (r: Result<Value>)
        where
            u32: TryFrom<I>,
        requires
            env.wf(),
            env.valid(self.handle()),
        ensures
            match env.data(self.handle()) {
                JsData::Array(items) => {
                    &&& <u32 as TryFromSpec<I>>::obeys_try_from_spec() ==> match <u32 as TryFromSpec<I>>::try_from_spec(index) {
                        Ok(i) => r == Ok::<Value, IonError>(array_get(items@, i as int)),
                        Err(_) => r == Err::<Value, IonError>(IonError::ValueCastError),
                    }
                    &&& r is Err ==> r == Err::<Value, IonError>(IonError::ValueCastError)
                    &&& r matches Ok(v) ==> exists|i: u32| v == array_get(items@, i as int)
                },
                _ => r == Err::<Value, IonError>(IonError::ValueCastError),
            },
            r matches Ok(v) ==> env.valid(v),
    {
        match env.get(self.value) {
            JsData::Array(_) => {},
            _ => {
                return Err(IonError::ValueCastError);
            },
        }
        match u32::try_from(index) {
            Ok(i) => self.get_index(env, i),
            Err(_) => Err(IonError::ValueCastError),
        }
    }

    /// The element at `index`: `undefined` past the end; fails when the value
    /// is not an array.
    pub fn get_index(&self, env: &Env, index: u32) -> (r: Result<Value>)
        requires
            env.wf(),
            env.valid(self.handle()),
        ensures
            match env.data(self.handle()) {
                JsData::Array(items) => r == Ok::<Value, IonError>(array_get(items@, index as int)),
                _ => r == Err::<Value, IonError>(IonError::ValueCastError),
            },
            r matches Ok(v) ==> env.valid(v),
    {
        match env.get(self.value) {
            JsData::Array(items) => {
                if (index as usize) < items.len() {
                    proof {
                        broadcast use crate::env::lemma_value_index_injective;
                        assert(crate::env::handles_below(env.heap()[self.handle().index()], env.heap().len()));
                        assert(items@[index as int].index() < env.heap().len());
                    }
                    Ok(items[index as usize])
                } else {
                    Ok(env.undefined())
                }
            },
            _ => Err(IonError::ValueCastError),
        }
    }

    /// Writes the handle `v` at `index`; fails when the value is not an array.
    pub fn set_value(&self, env: &mut Env, index: u32, v: Value) -> (r: Result<()>)
        requires
            old(env).wf(),
            old(env).valid(self.handle()),
            old(env).valid(v),
            index < u32::MAX,
        ensures
            final(env).wf(),
            final(env).same_bookkeeping(old(env)),
            match old(env).data(self.handle()) {
                JsData::Array(items) => {
                    &&& r is Ok
                    &&& final(env).heap() == old(env).heap().update(
                        self.handle().index(),
                        JsData::Array(final(env).data(self.handle())->Array_0),
                    )
                    &&& final(env).data(self.handle()) is Array
                    &&& array_items(final(env).data(self.handle())) == array_set(items@, index as int, v)
                },
                _ => r == Err::<(), IonError>(IonError::ValueCastError) && final(env).heap() == old(env).heap(),
            },
    {
        match env.get(self.value) {
            JsData::Array(_) => {},
            _ => return Err(IonError::ValueCastError),
        }
        let ghost old_env = *env;
        let ghost old_items = array_items(old_env.data(self.handle()));
        assert(self.handle().index() >= 2);
        let undefined = env.undefined();
        let prev = env.replace(self.value, JsData::Undefined);
        let mut items = match prev {
            JsData::Array(items) => items,
            _ => {
                proof { assert(false); }
                Vec::new()
            },
        };
        assert(items@ == old_items);
        let idx = index as usize;
        if idx < items.len() {
            items.set(idx, v);
        } else {
            let ghost base = items@;
            while items.len() < idx
                invariant
                    base.len() <= items@.len() <= idx,
                    items@ == base + Seq::new((items@.len() - base.len()) as nat, |j: int| undefined_handle()),
                    undefined == undefined_handle(),
                decreases idx - items@.len(),
            {
                items.push(undefined);
                assert(items@ =~= base + Seq::new((items@.len() - base.len()) as nat, |j: int| undefined_handle()));
            }
            items.push(v);
        }
        assert(items@ =~= array_set(old_items, index as int, v));
        proof {
            broadcast use crate::env::lemma_value_index_injective;
            assert(crate::env::handles_below(old_env.heap()[self.handle().index()], old_env.heap().len()));
            assert forall|i: int| 0 <= i < items@.len() implies (#[trigger] items@[i]).index() < env.heap().len() by {
                if i < old_items.len() && i != index {
                    assert(items@[i] == old_items[i]);
                }
            }
        }
        let _ = env.replace(self.value, JsData::Array(items));
        Ok(())
    }

    /// Converts `value` and writes it at `index`, given as an integer of any
    /// type that converts to `u32`. JavaScript keeps `u32::MAX` for no
    /// element: there the value becomes the plain property `"4294967295"` of
    /// the array. Fails with [`IonError::ValueCastError`], converting nothing,
    /// when the value is not an array or the index does not convert, and with
    /// the conversion's error, leaving the array as it was, when the
    /// conversion of `value` fails.
    pub fn set<I, T: ToJsValue>(&self, env: &mut Env, index: I, value: T) -> (r: Result<()>)
        where
            u32: TryFrom<I>,
        requires
            old(env).wf(),
            old(env).valid(self.handle()),
            value.fits(old(env).heap().len()),
        ensures
            final(env).wf(),
            final(env).refs() == old(env).refs(),
            final(env).external_counts() == old(env).external_counts(),
            final(env).next_callback() == old(env).next_callback(),
            forall|i: int| 0 <= i < old(env).heap().len() && i != self.handle().index()
                ==> #[trigger] final(env).props_at(i) == old(env).props_at(i),
            match old(env).data(self.handle()) {
                JsData::Array(items) => {
                    &&& <u32 as TryFromSpec<I>>::obeys_try_from_spec() ==> match <u32 as TryFromSpec<I>>::try_from_spec(index) {
                        Ok(i) => if i < u32::MAX {
                            array_written(old(env).heap(), final(env).heap(), self.handle(), items@, i as int, value, r)
                            && final(env).properties(self.handle()) == old(env).properties(self.handle())
                        } else {
                            &&& r is Ok <==> value.converts()
                            &&& r matches Err(e) ==> e == value.convert_error()
                            &&& final(env).extends(old(env))
                            &&& r is Err ==> final(env).properties(self.handle()) == old(env).properties(self.handle())
                            &&& r is Ok ==> exists|v: Value| {
                                &&& value.stands_for(final(env).heap(), v)
                                &&& props_map(final(env).properties(self.handle())) == props_map(
                                    old(env).properties(self.handle()),
                                ).insert("4294967295"@, v)
                            }
                        },
                        Err(_) => r == Err::<(), IonError>(IonError::ValueCastError) && *final(env) == *old(env),
                    }
                    &&& final(env).heap().len() >= old(env).heap().len()
                },
                _ => r == Err::<(), IonError>(IonError::ValueCastError) && *final(env) == *old(env),
            },
    {
        match env.get(self.value) {
            JsData::Array(_) => {},
            _ => return Err(IonError::ValueCastError),
        }
        let i = match u32::try_from(index) {
            Ok(i) => i,
            Err(_) => {
                return Err(IonError::ValueCastError);
            },
        };
        if i == u32::MAX {
            let mut array = *self;
            return array.set_named_property(env, "4294967295", value);
        }
        self.set_index(env, i, value)
    }

    /// Converts `value` and writes it at `index`; fails, converting nothing,
    /// when the value is not an array, and with the conversion's error,
    /// leaving the array as it was, when the conversion fails.
    pub fn set_index<T: ToJsValue>(&self, env: &mut Env, index: u32, value: T) -> (r: Result<()>)
        requires
            old(env).wf(),
            old(env).valid(self.handle()),
            value.fits(old(env).heap().len()),
            index < u32::MAX,
        ensures
            final(env).wf(),
            final(env).same_bookkeeping(old(env)),
            match old(env).data(self.handle()) {
                JsData::Array(items) => array_written(
                    old(env).heap(),
                    final(env).heap(),
                    self.handle(),
                    items@,
                    index as int,
                    value,
                    r,
                ),
                _ => r == Err::<(), IonError>(IonError::ValueCastError) && final(env).heap() == old(env).heap(),
            },
    {
        match env.get(self.value) {
            JsData::Array(_) => {},
            _ => return Err(IonError::ValueCastError),
        }
        let ghost old_env = *env;
        let v = match T::to_js_value(env, value) {
            Ok(v) => v,
            Err(e) => {
                return Err(e);
            },
        };
        let ghost mid = env.heap();
        assert(env.data(self.handle()) == old_env.data(self.handle()));
        let r = self.set_value(env, index, v);
        assert(r is Ok);
        proof {
            assert(heap_extends(mid, old_env.heap()));
            assert(env.heap() == mid.update(self.handle().index(), env.data(self.handle())));
        }
        r
    }

    /// Appends `value` and gives the new length; fails when the value is not
    /// an array, and with the conversion's error, leaving the array as it
    /// was, when the conversion fails.
    pub fn push<T: ToJsValue>(&self, env: &mut Env, value: T) -> (r: Result<u32>)
        requires
            old(env).wf(),
            old(env).valid(self.handle()),
            value.fits(old(env).heap().len()),
            array_items(old(env).data(self.handle())).len() < u32::MAX,
        ensures
            final(env).wf(),
            final(env).same_bookkeeping(old(env)),
            match old(env).data(self.handle()) {
                JsData::Array(items) => {
                    &&& r is Ok <==> value.converts()
                    &&& r matches Err(e) ==> e == value.convert_error()
                    &&& r is Ok ==> r == Ok::<u32, IonError>((items@.len() + 1) as u32)
                    &&& final(env).heap().len() >= old(env).heap().len()
                    &&& forall|i: int| 0 <= i < old(env).heap().len() && i != self.handle().index()
                        ==> #[trigger] final(env).heap()[i] == old(env).heap()[i]
                    &&& final(env).data(self.handle()) is Array
                    &&& r is Err ==> final(env).data(self.handle()) == old(env).data(self.handle())
                    &&& r is Ok ==> exists|mid: Seq<JsData>, v: Value| {
                        &&& heap_extends(mid, old(env).heap())
                        &&& final(env).heap() == mid.update(self.handle().index(), final(env).data(self.handle()))
                        &&& value.stands_for(mid, v)
                        &&& array_items(final(env).data(self.handle())) == items@.push(v)
                    }
                },
                _ => r == Err::<u32, IonError>(IonError::ValueCastError) && final(env).heap() == old(env).heap(),
            },
    {
        let current_length = self.length(env)?;
        let r = self.set_index(env, current_length, value);
        if r.is_err() {
            return Err(r.unwrap_err());
        }
        proof {
            let items = array_items(old(env).data(self.handle()));
            assert forall|v: Value| #[trigger] array_set(items, current_length as int, v) == items.push(v) by {
                assert(array_set(items, current_length as int, v) =~= items.push(v));
            }
        }
        Ok(current_length + 1)
    }

    /// Reads every element as a `T`; fails with [`IonError::ValueCastError`]
    /// when the value is not an array or an element is not of a kind that
    /// `T` wraps.
    pub fn to_vec<T: FromJsValue>(&self, env: &Env) -> (r: Result<Vec<T>>)
        requires
            env.wf(),
            env.valid(self.handle()),
        ensures
            match env.data(self.handle()) {
                JsData::Array(items) => {
                    &&& r is Ok <==> forall|i: int| 0 <= i < items@.len() ==> T::accepts(env.data(#[trigger] items@[i]))
                    &&& r matches Ok(out) ==> out@.len() == items@.len()
                        && forall|i: int| 0 <= i < out@.len() ==> (#[trigger] out@[i]).handle() == items@[i]
                    &&& r matches Err(e) ==> e == IonError::ValueCastError
                },
                _ => r matches Err(e) && e == IonError::ValueCastError,
            },
    {
        let length = self.length(env)?;
        let ghost items = array_items(env.data(self.handle()));
        let mut vec: Vec<T> = Vec::with_capacity(length as usize);
        let mut i: u32 = 0;
        while i < length
            invariant
                env.wf(),
                env.valid(self.handle()),
                env.data(self.handle()) is Array,
                items == array_items(env.data(self.handle())),
                length == items.len(),
                i <= length,
                vec@.len() == i,
                forall|j: int| 0 <= j < i ==> (#[trigger] vec@[j]).handle() == items[j],
                forall|j: int| 0 <= j < i ==> T::accepts(env.data(#[trigger] items[j])),
            decreases length - i,
        {
            let value = self.get_index(env, i)?;
            assert(value == items[i as int]);
            match T::from_js_value(env, value) {
                Ok(item) => vec.push(item),
                Err(e) => {
                    return Err(e);
                },
            }
            i = i + 1;
        }
        Ok(vec)
    }
}

impl<T: ToJsValue> ToJsValue for Vec<T> {
    open spec fn stands_for(&self, heap: Seq<JsData>, v: Value) -> bool {
        array_stands_for(heap, v, self@)
    }

    open spec fn converts(&self) -> bool {
        all_convert(self@)
    }

    open spec fn convert_error(&self) -> IonError {
        first_convert_error(self@)
    }

    open spec fn fits(&self, n: nat) -> bool {
        &&& self@.len() <= u32::MAX
        &&& forall|i: int| 0 <= i < self@.len() ==> (#[trigger] self@[i]).fits(n)
    }

    proof fn lemma_stands_for_kept(&self, h1: Seq<JsData>, h2: Seq<JsData>, v: Value) {
        lemma_array_stands_for_kept(h1, h2, v, self@);
    }

    proof fn lemma_fits_grow(&self, n: nat, m: nat) {
        assert forall|i: int| 0 <= i < self@.len() implies (#[trigger] self@[i]).fits(m) by {
            self@[i].lemma_fits_grow(n, m);
        }
    }

    fn to_js_value(env: &mut Env, val: Self) -> (r: Result<Value>) {
        let a = JsArray::from_vec(env, val)?;
        Ok(a.value)
    }
}

impl Env {
    /// Creates an empty array.
    pub fn create_array(&mut self) -> (r: Result<JsArray>)
        requires
            old(self).wf(),
        ensures
            final(self).wf(),
            final(self).same_bookkeeping(old(self)),
            final(self).extends(old(self)),
            final(self).heap().len() == old(self).heap().len() + 1,
            r matches Ok(a) && a.handle().index() == old(self).heap().len()
                && final(self).data(a.handle()) is Array
                && array_items(final(self).data(a.handle())).len() == 0,
    {
        JsArray::new(self)
    }

    /// Creates an array of `length` elements, all `undefined`.
    pub fn create_array_with_length(&mut self, length: i32) -> (r: Result<JsArray>)
        requires
            old(self).wf(),
        ensures
            final(self).wf(),
            final(self).same_bookkeeping(old(self)),
            final(self).extends(old(self)),
            final(self).heap().len() == old(self).heap().len() + 1,
            r matches Ok(a) && a.handle().index() == old(self).heap().len()
                && final(self).data(a.handle()) is Array
                && array_items(final(self).data(a.handle())) == Seq::new(
                    if length < 0 { 0nat } else { length as nat },
                    |j: int| undefined_handle(),
                ),
    {
        JsArray::with_length(self, length)
    }

    /// Creates an array whose elements are `vec`, converted in order.
    pub fn create_array_from_vec<T: ToJsValue>(&mut self, vec: Vec<T>) -> (r: Result<JsArray>)
        requires
            old(self).wf(),
            vec@.len() <= u32::MAX,
            forall|i: int| 0 <= i < vec@.len() ==> (#[trigger] vec@[i]).fits(old(self).heap().len()),
        ensures
            final(self).wf(),
            final(self).same_bookkeeping(old(self)),
            final(self).extends(old(self)),
            r is Ok <==> all_convert(vec@),
            r matches Err(e) ==> e == first_convert_error(vec@),
            r matches Ok(a) ==> array_stands_for(final(self).heap(), a.handle(), vec@),
    {
        JsArray::from_vec(self, vec)
    }
}

impl FromJsValue for JsArray {
    closed spec fn handle(&self) -> Value {
        self.value
    }

    open spec fn accepts(d: JsData) -> bool {
        d is Array
    }

    fn from_js_value(env: &Env, value: Value) -> (r: Result<Self>) {
        match env.get(value) {
            JsData::Array(_) => Ok(JsArray { value }),
            _ => Err(IonError::ValueCastError),
        }
    }

    fn from_value_unchecked(value: Value) -> (r: Self) {
        JsArray { value }
    }
}

impl JsValue for JsArray {
    fn value(&self) -> (r: &Value) {
        &self.value
    }
}

impl ToJsUnknown for JsArray {}

impl ToJsValue for JsArray {
    open spec fn stands_for(&self, heap: Seq<JsData>, v: Value) -> bool {
        v == self.handle()
    }

    open spec fn converts(&self) -> bool {
        true
    }

    open spec fn convert_error(&self) -> IonError {
        IonError::ValueCastError
    }

    open spec fn fits(&self, n: nat) -> bool {
        0 <= self.handle().index() < n
    }

    proof fn lemma_stands_for_kept(&self, h1: Seq<JsData>, h2: Seq<JsData>, v: Value) {
    }

    proof fn lemma_fits_grow(&self, n: nat, m: nat) {
    }

    fn to_js_value(env: &mut Env, val: Self) -> (r: Result<Value>) {
        Ok(val.value)
    }
}

} // verus!
