use vstd::prelude::*;

use crate::env::{is_object_kind, keys_distinct, undefined_handle, Env, JsData, Property, Value};
use crate::error::{IonError, Result};
use crate::memory::{decimal, push_decimal};
use crate::traits::{heap_extends, FromJsValue, JsValue, ToJsValue};
use crate::values::js_array::JsArray;
use crate::values::js_array_buffer::JsArrayBuffer;
use crate::values::js_function::JsFunction;
use crate::values::js_object::JsObject;
use crate::values::js_string::JsString;

verus! {

/// Some property of `props` is named `key`.
pub open spec fn has_key(props: Seq<Property>, key: Seq<char>) -> bool {
    exists|i: int| 0 <= i < props.len() && (#[trigger] props[i]).key@ == key
}

/// The position of the property named `key`.
pub open spec fn key_index(props: Seq<Property>, key: Seq<char>) -> int {
    choose|i: int| 0 <= i < props.len() && (#[trigger] props[i]).key@ == key
}

/// The properties as a map from names to values.
pub open spec fn props_map(props: Seq<Property>) -> Map<Seq<char>, Value> {
    Map::new(|k: Seq<char>| has_key(props, k), |k: Seq<char>| props[key_index(props, k)].value)
}

/// What reading the property `key` of an object with `props` gives:
/// `undefined` when it has none of that name.
pub open spec fn property_get(props: Seq<Property>, key: Seq<char>) -> Value {
    if props_map(props).contains_key(key) {
        props_map(props)[key]
    } else {
        undefined_handle()
    }
}

/// With distinct names, the property named `key` sits at the one position
/// that holds that name.
pub proof fn lemma_key_index_unique(props: Seq<Property>, key: Seq<char>, i: int)
    requires
        keys_distinct(props),
        0 <= i < props.len(),
        props[i].key@ == key,
    ensures
        has_key(props, key),
        key_index(props, key) == i,
{
    assert(has_key(props, key));
    let j = key_index(props, key);
    if j != i {
        if i < j {
            assert(props[i].key@ != props[j].key@);
        } else {
            assert(props[j].key@ != props[i].key@);
        }
    }
}

/// The position of the property named `key`, if any.
fn find_key(props: &Vec<Property>, key: &String) -> (r: Option<usize>)
    ensures
        match r {
            Some(i) => i < props@.len() && props@[i as int].key@ == key@,
            None => !has_key(props@, key@),
        },
{
    let mut i: usize = 0;
    while i < props.len()
        invariant
            i <= props@.len(),
            forall|j: int| 0 <= j < i ==> (#[trigger] props@[j]).key@ != key@,
        decreases props@.len() - i,
    {
        if props[i].key == *key {
            return Some(i);
        }
        i = i + 1;
    }
    None
}

/// Writes the property `key` of the object `obj` to `v`.
pub(crate) fn object_set(env: &mut Env, obj: Value, key: String, v: Value)
    requires
        old(env).wf(),
        old(env).valid(obj),
        old(env).valid(v),
        is_object_kind(old(env).data(obj)),
    ensures
        final(env).wf(),
        final(env).heap() == old(env).heap(),
        final(env).refs() == old(env).refs(),
        final(env).external_counts() == old(env).external_counts(),
        final(env).next_callback() == old(env).next_callback(),
        forall|i: int| 0 <= i < old(env).heap().len() && i != obj.index() ==> #[trigger] final(env).props_at(i) == old(env).props_at(i),
        props_map(final(env).properties(obj)) == props_map(old(env).properties(obj)).insert(key@, v),
{
    broadcast use crate::env::lemma_value_index_injective;
    let ghost old_props = old(env).properties(obj);
    assert(keys_distinct(old_props));
    let mut props = env.take_props(obj);
    assert(props@ == old_props);
    let ghost k = key@;
    match find_key(&props, &key) {
        Some(i) => {
            let name = props[i].key.clone();
            props.set(i, Property { key: name, value: v });
            proof {
                lemma_key_index_unique(props@, k, i as int);
                assert forall|a: int, b: int| 0 <= a < b < props@.len() implies (#[trigger] props@[a]).key@ != (#[trigger] props@[b]).key@ by {
                    assert(old_props[a].key@ != old_props[b].key@);
                }
                assert forall|k2: Seq<char>| k2 != k implies (has_key(props@, k2) == has_key(old_props, k2)) by {
                    if has_key(old_props, k2) {
                        let j = key_index(old_props, k2);
                        assert(props@[j].key@ == k2);
                    }
                    if has_key(props@, k2) {
                        let j = key_index(props@, k2);
                        assert(old_props[j].key@ == k2);
                    }
                }
                assert forall|k2: Seq<char>| k2 != k && has_key(props@, k2) implies props@[key_index(props@, k2)].value == old_props[key_index(old_props, k2)].value by {
                    let j = key_index(props@, k2);
                    lemma_key_index_unique(old_props, k2, j);
                }
                assert(props_map(props@) =~= props_map(old_props).insert(k, v));
            }
        },
        None => {
            props.push(Property { key, value: v });
            proof {
                let n = old_props.len() as int;
                assert(props@[n].key@ == k);
                assert forall|a: int, b: int| 0 <= a < b < props@.len() implies (#[trigger] props@[a]).key@ != (#[trigger] props@[b]).key@ by {
                    if b == n {
                        assert(props@[a] == old_props[a]);
                    } else {
                        assert(old_props[a].key@ != old_props[b].key@);
                    }
                }
                lemma_key_index_unique(props@, k, n);
                assert forall|k2: Seq<char>| k2 != k implies (has_key(props@, k2) == has_key(old_props, k2)) by {
                    if has_key(old_props, k2) {
                        let j = key_index(old_props, k2);
                        assert(props@[j].key@ == k2);
                    }
                    if has_key(props@, k2) {
                        let j = key_index(props@, k2);
                        assert(j < n);
                        assert(old_props[j].key@ == k2);
                    }
                }
                assert forall|k2: Seq<char>| k2 != k && has_key(props@, k2) implies props@[key_index(props@, k2)].value == old_props[key_index(old_props, k2)].value by {
                    let j = key_index(props@, k2);
                    assert(j < n);
                    lemma_key_index_unique(old_props, k2, j);
                }
                assert(props_map(props@) =~= props_map(old_props).insert(k, v));
            }
        },
    }
    proof {
        assert forall|i: int| 0 <= i < props@.len() implies (#[trigger] props@[i]).value.index() < env.heap().len() by {
            if props@[i].key@ == k {
                lemma_key_index_unique(props@, k, i);
            } else {
                lemma_key_index_unique(props@, props@[i].key@, i);
                assert(props_map(props@).contains_key(props@[i].key@));
                let j = key_index(old_props, props@[i].key@);
                assert(old_props[j].value.index() < env.heap().len()) by {
                    assert(old(env).props_at(obj.index())[j].value.index() < old(env).heap().len());
                }
            }
        }
    }
    env.set_props(obj, props);
}

/// Reads the property `key` of the object `obj`: `undefined` when it has
/// none of that name.
pub(crate) fn object_get(env: &Env, obj: Value, key: &String) -> (r: Value)
    requires
        env.wf(),
        env.valid(obj),
        is_object_kind(env.data(obj)),
    ensures
        r == property_get(env.properties(obj), key@),
        env.valid(r),
{
    broadcast use crate::env::lemma_value_index_injective;
    let props = env.props(obj);
    assert(keys_distinct(props@));
    match find_key(props, key) {
        Some(i) => {
            proof {
                lemma_key_index_unique(props@, key@, i as int);
                assert(env.props_at(obj.index())[i as int].value.index() < env.heap().len());
            }
            props[i].value
        },
        None => env.undefined(),
    }
}

/// Removes the property `key` of the object `obj`, if it has one.
pub(crate) fn object_delete(env: &mut Env, obj: Value, key: &String)
    requires
        old(env).wf(),
        old(env).valid(obj),
        is_object_kind(old(env).data(obj)),
    ensures
        final(env).wf(),
        final(env).heap() == old(env).heap(),
        final(env).refs() == old(env).refs(),
        final(env).external_counts() == old(env).external_counts(),
        final(env).next_callback() == old(env).next_callback(),
        forall|i: int| 0 <= i < old(env).heap().len() && i != obj.index() ==> #[trigger] final(env).props_at(i) == old(env).props_at(i),
        props_map(final(env).properties(obj)) == props_map(old(env).properties(obj)).remove(key@),
{
    broadcast use crate::env::lemma_value_index_injective;
    let ghost old_props = old(env).properties(obj);
    assert(keys_distinct(old_props));
    let mut props = env.take_props(obj);
    assert(props@ == old_props);
    let ghost k = key@;
    match find_key(&props, key) {
        Some(i) => {
            let _ = props.remove(i);
            proof {
                let i = i as int;
                assert forall|a: int| 0 <= a < props@.len() implies #[trigger] props@[a] == (if a < i {
                    old_props[a]
                } else {
                    old_props[a + 1]
                }) by {}
                assert forall|a: int, b: int| 0 <= a < b < props@.len() implies (#[trigger] props@[a]).key@ != (#[trigger] props@[b]).key@ by {
                    let a0 = if a < i { a } else { a + 1 };
                    let b0 = if b < i { b } else { b + 1 };
                    assert(props@[a] == old_props[a0]);
                    assert(props@[b] == old_props[b0]);
                    assert(old_props[a0].key@ != old_props[b0].key@);
                }
                lemma_key_index_unique(old_props, k, i);
                assert forall|k2: Seq<char>| has_key(props@, k2) == (k2 != k && has_key(old_props, k2)) by {
                    if has_key(props@, k2) {
                        let j = key_index(props@, k2);
                        let j0 = if j < i { j } else { j + 1 };
                        assert(props@[j] == old_props[j0]);
                        assert(old_props[j0].key@ == k2);
                        if k2 == k {
                            lemma_key_index_unique(old_props, k, j0);
                        }
                    }
                    if k2 != k && has_key(old_props, k2) {
                        let j0 = key_index(old_props, k2);
                        assert(j0 != i);
                        let j = if j0 < i { j0 } else { j0 - 1 };
                        assert(props@[j] == old_props[j0]);
                        assert(props@[j].key@ == k2);
                    }
                }
                assert forall|k2: Seq<char>| has_key(props@, k2) implies props@[key_index(props@, k2)].value == old_props[key_index(old_props, k2)].value by {
                    let j = key_index(props@, k2);
                    let j0 = if j < i { j } else { j + 1 };
                    assert(props@[j] == old_props[j0]);
                    lemma_key_index_unique(old_props, k2, j0);
                }
                assert(props_map(props@) =~= props_map(old_props).remove(k));
                assert forall|a: int| 0 <= a < props@.len() implies (#[trigger] props@[a]).value.index() < env.heap().len() by {
                    let a0 = if a < i { a } else { a + 1 };
                    assert(props@[a] == old_props[a0]);
                    assert(old(env).props_at(obj.index())[a0].value.index() < old(env).heap().len());
                }
            }
        },
        None => {
            proof {
                assert(props_map(props@) =~= props_map(old_props).remove(k));
            }
        },
    }
    env.set_props(obj, props);
}

/// The name of the property that a primitive value names when it is used as
/// a key: JavaScript's `String(key)`.
pub open spec fn property_key(d: JsData) -> Option<Seq<char>> {
    match d {
        JsData::String(s) => Some(s@),
        JsData::Number(n) => Some(
            if n < 0 {
                "-"@ + decimal((-n) as nat)
            } else {
                decimal(n as nat)
            },
        ),
        JsData::Boolean(b) => Some(
            if b {
                "true"@
            } else {
                "false"@
            },
        ),
        JsData::Undefined => Some("undefined"@),
        JsData::Null => Some("null"@),
        _ => None,
    }
}

/// The name of the property that the primitive value `key` names.
fn key_text(env: &Env, key: Value) -> (r: String)
    requires
        env.wf(),
        env.valid(key),
        property_key(env.data(key)) is Some,
    ensures
        r@ == property_key(env.data(key))->Some_0,
{
    proof {
        assert(crate::env::value_in_range(env.heap()[key.index()]));
    }
    match env.get(key) {
        JsData::String(s) => s.clone(),
        JsData::Number(n) => {
            let mut t = String::new();
            if *n < 0 {
                t.append("-");
                push_decimal(&mut t, (0 - *n) as usize);
            } else {
                push_decimal(&mut t, *n as usize);
            }
            assert(t@ =~= property_key(env.data(key))->Some_0);
            t
        },
        JsData::Boolean(b) => {
            if *b {
                String::from_str("true")
            } else {
                String::from_str("false")
            }
        },
        JsData::Undefined => String::from_str("undefined"),
        _ => String::from_str("null"),
    }
}

/// Operations on the named properties of an object.
pub trait JsObjectValue: JsValue {
    /// Sets the property that `key` names to `value`; a key that is not a
    /// string names the property `String(key)`.
    ///
    /// `key` must hold a primitive value.
    fn set_property<K: JsValue, V: JsValue>(&mut self, env: &mut Env, key: K, value: V) -> (r: Result<()>)
        requires
            old(env).wf(),
            old(env).valid(old(self).handle()),
            is_object_kind(old(env).data(old(self).handle())),
            old(env).valid(key.handle()),
            property_key(old(env).data(key.handle())) is Some,
            old(env).valid(value.handle()),
        ensures
            r is Ok,
            final(self).handle() == old(self).handle(),
            final(env).wf(),
            final(env).heap() == old(env).heap(),
            final(env).refs() == old(env).refs(),
            final(env).external_counts() == old(env).external_counts(),
            final(env).next_callback() == old(env).next_callback(),
            forall|i: int| 0 <= i < old(env).heap().len() && i != old(self).handle().index()
                ==> #[trigger] final(env).props_at(i) == old(env).props_at(i),
            props_map(final(env).properties(old(self).handle())) == props_map(
                old(env).properties(old(self).handle()),
            ).insert(property_key(old(env).data(key.handle()))->Some_0, value.handle()),
    {
        let name = key_text(env, *key.value());
        object_set(env, *self.value(), name, *value.value());
        Ok(())
    }

    /// Sets the property `name` to `value`, converted; fails with the
    /// conversion's error, leaving the properties as they were, when the
    /// conversion fails.
    fn set_named_property<T: ToJsValue>(&mut self, env: &mut Env, name: &str, value: T) -> (r: Result<()>)
        requires
            old(env).wf(),
            old(env).valid(old(self).handle()),
            is_object_kind(old(env).data(old(self).handle())),
            value.fits(old(env).heap().len()),
        ensures
            final(self).handle() == old(self).handle(),
            final(env).wf(),
            final(env).extends(old(env)),
            final(env).refs() == old(env).refs(),
            final(env).external_counts() == old(env).external_counts(),
            final(env).next_callback() == old(env).next_callback(),
            forall|i: int| 0 <= i < old(env).heap().len() && i != old(self).handle().index()
                ==> #[trigger] final(env).props_at(i) == old(env).props_at(i),
            r is Ok <==> value.converts(),
            r matches Err(e) ==> e == value.convert_error(),
            r is Ok ==> exists|v: Value| {
                &&& value.stands_for(final(env).heap(), v)
                &&& props_map(final(env).properties(old(self).handle())) == props_map(
                    old(env).properties(old(self).handle()),
                ).insert(name@, v)
            },
            r is Err ==> final(env).properties(old(self).handle()) == old(env).properties(old(self).handle()),
    {
        let key = String::from_str(name);
        let ghost env0 = *env;
        let v = match T::to_js_value(env, value) {
            Ok(v) => v,
            Err(e) => {
                return Err(e);
            },
        };
        assert(env.data(self.handle()) == env0.data(self.handle()));
        object_set(env, *self.value(), key, v);
        Ok(())
    }

    /// The property `name` as a `T`: it wraps `undefined` when the object has
    /// no property of that name; fails with [`IonError::InvalidArg`] when
    /// the property is not of a kind that `T` wraps.
    fn get_named_property<T: FromJsValue>(&self, env: &Env, name: &str) -> (r: Result<Option<T>>)
        requires
            env.wf(),
            env.valid(self.handle()),
            is_object_kind(env.data(self.handle())),
        ensures
            ({
                let v = property_get(env.properties(self.handle()), name@);
                if T::accepts(env.data(v)) {
                    r matches Ok(Some(t)) && t.handle() == v
                } else {
                    r == Err::<Option<T>, IonError>(IonError::InvalidArg)
                }
            }),
    {
        let key = String::from_str(name);
        let value = object_get(env, *self.value(), &key);
        match T::from_js_value(env, value) {
            Ok(t) => Ok(Some(t)),
            Err(_) => Err(IonError::InvalidArg),
        }
    }

    /// The property `name` as a `T`, without checks: it wraps `undefined`
    /// when the object has no property of that name.
    fn get_named_property_unchecked<T: FromJsValue>(&self, env: &Env, name: &str) -> (r: Result<T>)
        requires
            env.wf(),
            env.valid(self.handle()),
            is_object_kind(env.data(self.handle())),
        ensures
            r matches Ok(t) && t.handle() == property_get(env.properties(self.handle()), name@),
    {
        let key = String::from_str(name);
        let value = object_get(env, *self.value(), &key);
        Ok(T::from_value_unchecked(value))
    }

    /// Deletes the property that `name` names; gives `true`. A key that is
    /// not a string names the property `String(name)`.
    ///
    /// `name` must hold a primitive value.
    fn delete_property<S: JsValue>(&mut self, env: &mut Env, name: S) -> (r: Result<bool>)
        requires
            old(env).wf(),
            old(env).valid(old(self).handle()),
            is_object_kind(old(env).data(old(self).handle())),
            old(env).valid(name.handle()),
            property_key(old(env).data(name.handle())) is Some,
        ensures
            r == Ok::<bool, IonError>(true),
            final(self).handle() == old(self).handle(),
            final(env).wf(),
            final(env).heap() == old(env).heap(),
            final(env).refs() == old(env).refs(),
            final(env).external_counts() == old(env).external_counts(),
            final(env).next_callback() == old(env).next_callback(),
            forall|i: int| 0 <= i < old(env).heap().len() && i != old(self).handle().index()
                ==> #[trigger] final(env).props_at(i) == old(env).props_at(i),
            props_map(final(env).properties(old(self).handle())) == props_map(
                old(env).properties(old(self).handle()),
            ).remove(property_key(old(env).data(name.handle()))->Some_0),
    {
        let key = key_text(env, *name.value());
        object_delete(env, *self.value(), &key);
        Ok(true)
    }

    /// Deletes the property `name`; gives `true`.
    fn delete_named_property(&mut self, env: &mut Env, name: &str) -> (r: Result<bool>)
        requires
            old(env).wf(),
            old(env).valid(old(self).handle()),
            is_object_kind(old(env).data(old(self).handle())),
        ensures
            r == Ok::<bool, IonError>(true),
            final(self).handle() == old(self).handle(),
            final(env).wf(),
            final(env).heap() == old(env).heap(),
            final(env).refs() == old(env).refs(),
            final(env).external_counts() == old(env).external_counts(),
            final(env).next_callback() == old(env).next_callback(),
            forall|i: int| 0 <= i < old(env).heap().len() && i != old(self).handle().index()
                ==> #[trigger] final(env).props_at(i) == old(env).props_at(i),
            props_map(final(env).properties(old(self).handle())) == props_map(
                old(env).properties(old(self).handle()),
            ).remove(name@),
    {
        let key = String::from_str(name);
        object_delete(env, *self.value(), &key);
        Ok(true)
    }
}

impl JsObjectValue for JsObject {}

impl JsObjectValue for JsArray {}

impl JsObjectValue for JsArrayBuffer {}

impl JsObjectValue for JsFunction {}

impl JsObjectValue for JsString {}

} // verus!
