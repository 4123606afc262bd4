use vstd::prelude::*;

verus! {

/// A handle to a value held by an [`Env`].
#[derive(Clone, Copy, Debug, PartialEq, Eq, Structural)]
pub struct Value {
    pub(crate) id: usize,
}

impl Value {
    /// The position of the value in its store.
    pub closed spec fn index(self) -> int {
        self.id as int
    }
}

/// The handle of `undefined`, which every store holds at position 0.
pub closed spec fn undefined_handle() -> Value {
    Value { id: 0 }
}

/// The handle of `null`, which every store holds at position 1.
pub closed spec fn null_handle() -> Value {
    Value { id: 1 }
}

/// Two handles are the same handle when they name the same position.
pub broadcast proof fn lemma_value_index_injective(a: Value, b: Value)
    ensures
        #[trigger] a.index() == #[trigger] b.index() ==> a == b,
        a.index() >= 0,
        undefined_handle().index() == 0,
        null_handle().index() == 1,
{
}

/// The settlement state of a promise.
#[derive(Clone, Copy, Debug)]
pub enum PromiseState {
    Pending,
    Fulfilled(Value),
    Rejected(Value),
}

/// A named property of an object.
#[derive(Debug)]
pub struct Property {
    pub key: String,
    pub value: Value,
}

/// The data of one JavaScript value.
#[derive(Debug)]
pub enum JsData {
    Undefined,
    Null,
    Boolean(bool),
    Number(i64),
    String(String),
    Object,
    Array(Vec<Value>),
    ArrayBuffer { bytes: Vec<u8>, detached: bool },
    Function { callback: u64 },
    Promise(PromiseState),
    External { slot: usize },
}

/// `typeof` of a value, as JavaScript defines it.
pub open spec fn js_type_of(d: JsData) -> Seq<char> {
    match d {
        JsData::Undefined => "undefined"@,
        JsData::Boolean(_) => "boolean"@,
        JsData::Number(_) => "number"@,
        JsData::String(_) => "string"@,
        JsData::Function { .. } => "function"@,
        _ => "object"@,
    }
}

/// Every handle that `d` holds lies below `n`.
pub open spec fn handles_below(d: JsData, n: nat) -> bool {
    match d {
        JsData::Array(items) => forall|i: int| 0 <= i < items@.len() ==> (#[trigger] items@[i]).index() < n,
        JsData::Promise(PromiseState::Fulfilled(v)) => v.index() < n,
        JsData::Promise(PromiseState::Rejected(v)) => v.index() < n,
        _ => true,
    }
}

/// No two properties of `props` have the same name.
pub open spec fn keys_distinct(props: Seq<Property>) -> bool {
    forall|i: int, j: int| 0 <= i < j < props.len() ==> (#[trigger] props[i]).key@ != (#[trigger] props[j]).key@
}

/// Numbers lie in the range that 32-bit integers, signed or not, span, and
/// arrays are no longer than JavaScript allows.
pub open spec fn value_in_range(d: JsData) -> bool {
    match d {
        JsData::Number(n) => -0x8000_0000 <= n < 0x1_0000_0000,
        JsData::Array(items) => items@.len() <= u32::MAX,
        _ => true,
    }
}

/// Each of the first `n` property lists has distinct names and values
/// below `n`.
pub open spec fn prop_lists_ok(lists: Seq<Seq<Property>>, n: nat) -> bool {
    &&& forall|i: int| 0 <= i < n ==> keys_distinct(#[trigger] lists[i])
    &&& forall|i: int, j: int| 0 <= i < n && 0 <= j < lists[i].len()
        ==> (#[trigger] lists[i][j]).value.index() < n
}

/// Values of this kind are JavaScript objects: plain objects, arrays,
/// buffers, functions and promises.
pub open spec fn is_js_object(d: JsData) -> bool {
    match d {
        JsData::Object | JsData::Array(_) | JsData::ArrayBuffer { .. } | JsData::Function { .. }
        | JsData::Promise(_) => true,
        _ => false,
    }
}

/// Values of this kind are objects, which can hold named properties.
pub open spec fn is_object_kind(d: JsData) -> bool {
    match d {
        JsData::Object | JsData::Array(_) | JsData::ArrayBuffer { .. } | JsData::Function { .. }
        | JsData::Promise(_) | JsData::External { .. } => true,
        _ => false,
    }
}

/// Every external slot that `d` names lies below `n`.
pub open spec fn slots_below(d: JsData, n: nat) -> bool {
    match d {
        JsData::External { slot } => slot < n,
        _ => true,
    }
}

/// The store of JavaScript values of one environment.
///
/// Slot 0 holds `undefined` and slot 1 holds `null`; both stay for the life
/// of the store.
pub struct Env {
    heap: Vec<JsData>,
    props: Vec<Vec<Property>>,
    refs: usize,
    counters: Vec<usize>,
    next_callback: u64,
}

impl Env {
    /// The values of the store, by handle position.
    pub closed spec fn heap(&self) -> Seq<JsData> {
        self.heap@
    }

    /// The named properties of every value, by handle position.
    pub closed spec fn prop_lists(&self) -> Seq<Seq<Property>> {
        self.props@.map_values(|p: Vec<Property>| p@)
    }

    /// The named properties of the value at position `i`.
    pub open spec fn props_at(&self, i: int) -> Seq<Property> {
        self.prop_lists()[i]
    }

    /// The named properties of a value.
    pub open spec fn properties(&self, v: Value) -> Seq<Property> {
        self.props_at(v.index())
    }

    /// How many holders keep the environment alive.
    pub closed spec fn refs(&self) -> nat {
        self.refs as nat
    }

    /// The shared reference counts that the environment keeps, by slot.
    pub closed spec fn external_counts(&self) -> Seq<usize> {
        self.counters@
    }

    /// The callback id that the next native function receives.
    pub closed spec fn next_callback(&self) -> u64 {
        self.next_callback
    }

    pub open spec fn valid(&self, v: Value) -> bool {
        0 <= v.index() < self.heap().len()
    }

    pub open spec fn data(&self, v: Value) -> JsData {
        self.heap()[v.index()]
    }

    /// `self` and `other` hold the same property lists.
    pub closed spec fn props_same(&self, other: &Env) -> bool {
        self.props@ == other.props@
    }

    /// One property list stands beside each value.
    pub closed spec fn props_aligned(&self) -> bool {
        self.props@.len() == self.heap@.len()
    }

    /// Each property list has distinct names and valid values.
    pub open spec fn props_ok(&self) -> bool {
        prop_lists_ok(self.prop_lists(), self.heap().len())
    }

    /// The store is well formed.
    pub open spec fn wf(&self) -> bool {
        &&& self.props_aligned()
        &&& self.props_ok()
        &&& self.heap().len() >= 2
        &&& self.heap()[0] is Undefined
        &&& self.heap()[1] is Null
        &&& forall|i: int| 0 <= i < self.heap().len() ==> handles_below(#[trigger] self.heap()[i], self.heap().len())
        &&& forall|i: int| 0 <= i < self.heap().len() ==> slots_below(#[trigger] self.heap()[i], self.external_counts().len())
        &&& forall|i: int| 0 <= i < self.heap().len() ==> value_in_range(#[trigger] self.heap()[i])
    }

    /// `self` holds every value of `old` unchanged, and possibly more.
    pub open spec fn extends(&self, old: &Env) -> bool {
        &&& old.heap().len() <= self.heap().len()
        &&& forall|i: int| 0 <= i < old.heap().len() ==> #[trigger] self.heap()[i] == old.heap()[i]
    }

    /// The values of `old` keep their properties in `self`.
    pub open spec fn props_kept(&self, old: &Env) -> bool {
        forall|i: int| 0 <= i < old.heap().len() ==> #[trigger] self.props_at(i) == old.props_at(i)
    }

    /// The parts of `self` other than the values are those of `old`: the
    /// values of `old` keep their properties.
    pub open spec fn same_bookkeeping(&self, old: &Env) -> bool {
        &&& self.props_kept(old)
        &&& self.refs() == old.refs()
        &&& self.external_counts() == old.external_counts()
        &&& self.next_callback() == old.next_callback()
    }

    /// Creates an empty environment.
    pub fn new() -> (env: Env)
        ensures
            env.wf(),
            env.heap().len() == 2,
            env.refs() == 0,
            env.external_counts().len() == 0,
            env.next_callback() == 0,
    {
        let mut heap: Vec<JsData> = Vec::new();
        heap.push(JsData::Undefined);
        heap.push(JsData::Null);
        let mut props: Vec<Vec<Property>> = Vec::new();
        props.push(Vec::new());
        props.push(Vec::new());
        Env { heap, props, refs: 0, counters: Vec::new(), next_callback: 0 }
    }

    /// The handle of `undefined`.
    pub fn undefined(&self) -> (v: Value)
        requires
            self.wf(),
        ensures
            self.valid(v),
            self.data(v) is Undefined,
            v == undefined_handle(),
    {
        Value { id: 0 }
    }

    /// The handle of `null`.
    pub fn null(&self) -> (v: Value)
        requires
            self.wf(),
        ensures
            self.valid(v),
            self.data(v) is Null,
            v == null_handle(),
    {
        Value { id: 1 }
    }

    /// Reads the data of a value.
    pub fn get(&self, v: Value) -> (d: &JsData)
        requires
            self.valid(v),
        ensures
            *d == self.data(v),
    {
        &self.heap[v.id]
    }

    /// Adds a value to the store.
    pub fn allocate(&mut self, d: JsData) -> (v: Value)
        requires
            old(self).wf(),
            handles_below(d, old(self).heap().len()),
            slots_below(d, old(self).external_counts().len()),
            value_in_range(d),
        ensures
            final(self).wf(),
            final(self).heap() == old(self).heap().push(d),
            final(self).same_bookkeeping(old(self)),
            final(self).properties(v).len() == 0,
            v.index() == old(self).heap().len(),
            final(self).valid(v),
    {
        let v = Value { id: self.heap.len() };
        self.heap.push(d);
        self.props.push(Vec::new());
        proof {
            lemma_props_push(self, old(self));
        }
        proof {
            assert forall|i: int| 0 <= i < self.heap().len() implies handles_below(
                #[trigger] self.heap()[i],
                self.heap().len(),
            ) by {
                lemma_handles_below_grow(self.heap()[i], (self.heap().len() - 1) as nat, self.heap().len());
            }
        }
        v
    }

    /// Replaces the data of a value and hands back the data it held.
    pub(crate) fn replace(&mut self, v: Value, d: JsData) -> (prev: JsData)
        requires
            old(self).wf(),
            old(self).valid(v),
            v.index() >= 2,
            handles_below(d, old(self).heap().len()),
            slots_below(d, old(self).external_counts().len()),
            value_in_range(d),
        ensures
            final(self).wf(),
            final(self).heap() == old(self).heap().update(v.index(), d),
            final(self).same_bookkeeping(old(self)),
            prev == old(self).data(v),
    {
        let mut d = d;
        std::mem::swap(&mut d, &mut self.heap[v.id]);
        proof {
            lemma_props_frame(self, old(self));
        }
        d
    }

    /// The bytes of a live buffer, borrowed for writing; the buffer holds
    /// whatever they are when the borrow ends.
    #[verifier::rlimit(20)]
    pub(crate) fn buffer_bytes_mut(&mut self, v: Value) -> (r: &mut Vec<u8>)
        requires
            old(self).wf(),
            old(self).valid(v),
            old(self).data(v) matches JsData::ArrayBuffer { detached, .. } && !detached,
        ensures
            *r == old(self).data(v)->bytes,
            final(self).props_same(old(self)),
            final(self).heap() == old(self).heap().update(
                v.index(),
                JsData::ArrayBuffer { bytes: *final(r), detached: false },
            ),
            final(self).same_bookkeeping(old(self)),
            final(self).wf(),
    {
        broadcast use lemma_buffer_write_wf;
        match &mut self.heap[v.id] {
            JsData::ArrayBuffer { bytes, .. } => bytes,
            _ => vstd::pervasive::unreached(),
        }
    }

    /// The named properties of a value.
    pub fn props(&self, v: Value) -> (r: &Vec<Property>)
        requires
            self.wf(),
            self.valid(v),
        ensures
            r@ == self.properties(v),
    {
        &self.props[v.id]
    }

    /// Replaces the named properties of a value.
    pub(crate) fn set_props(&mut self, v: Value, props: Vec<Property>)
        requires
            old(self).wf(),
            old(self).valid(v),
            keys_distinct(props@),
            forall|j: int| 0 <= j < props@.len() ==> (#[trigger] props@[j]).value.index() < old(self).heap().len(),
        ensures
            final(self).wf(),
            final(self).heap() == old(self).heap(),
            final(self).refs() == old(self).refs(),
            final(self).external_counts() == old(self).external_counts(),
            final(self).next_callback() == old(self).next_callback(),
            final(self).properties(v) == props@,
            forall|i: int| 0 <= i < old(self).heap().len() && i != v.index() ==> #[trigger] final(self).props_at(i) == old(self).props_at(i),
    {
        self.props.set(v.id, props);
        proof {
            lemma_prop_lists(self);
            lemma_prop_lists(old(self));
            assert forall|i: int| 0 <= i < self.heap().len() implies keys_distinct(#[trigger] self.prop_lists()[i]) by {
                if i != v.index() {
                    assert(self.props_at(i) == old(self).props_at(i));
                }
            }
            assert forall|i: int, j: int| 0 <= i < self.heap().len() && 0 <= j < self.props_at(i).len()
                implies (#[trigger] self.prop_lists()[i][j]).value.index() < self.heap().len() by {
                if i != v.index() {
                    assert(self.props_at(i) == old(self).props_at(i));
                    assert(old(self).props_at(i)[j].value.index() < old(self).heap().len());
                }
            }
        }
    }

    /// Takes the named properties of a value out, leaving it none.
    pub(crate) fn take_props(&mut self, v: Value) -> (props: Vec<Property>)
        requires
            old(self).wf(),
            old(self).valid(v),
        ensures
            final(self).wf(),
            final(self).heap() == old(self).heap(),
            final(self).refs() == old(self).refs(),
            final(self).external_counts() == old(self).external_counts(),
            final(self).next_callback() == old(self).next_callback(),
            final(self).properties(v).len() == 0,
            props@ == old(self).properties(v),
            forall|i: int| 0 <= i < old(self).heap().len() && i != v.index() ==> #[trigger] final(self).props_at(i) == old(self).props_at(i),
    {
        let mut props: Vec<Property> = Vec::new();
        std::mem::swap(&mut props, &mut self.props[v.id]);
        proof {
            lemma_prop_lists(self);
            lemma_prop_lists(old(self));
            assert forall|i: int| 0 <= i < self.heap().len() implies keys_distinct(#[trigger] self.prop_lists()[i]) by {
                if i != v.index() {
                    assert(self.props_at(i) == old(self).props_at(i));
                }
            }
            assert forall|i: int, j: int| 0 <= i < self.heap().len() && 0 <= j < self.props_at(i).len()
                implies (#[trigger] self.prop_lists()[i][j]).value.index() < self.heap().len() by {
                if i != v.index() {
                    assert(self.props_at(i) == old(self).props_at(i));
                    assert(old(self).props_at(i)[j].value.index() < old(self).heap().len());
                }
            }
        }
        props
    }

    /// Marks the environment as held by one more holder.
    pub fn inc_ref(&mut self)
        requires
            old(self).refs() < usize::MAX,
        ensures
            old(self).wf() ==> final(self).wf(),
            final(self).refs() == old(self).refs() + 1,
            final(self).heap() == old(self).heap(),
            final(self).external_counts() == old(self).external_counts(),
            final(self).next_callback() == old(self).next_callback(),
            final(self).props_kept(old(self)),
    {
        self.refs = self.refs + 1;
        proof {
            if old(self).wf() {
                lemma_props_frame(self, old(self));
            }
        }
    }

    /// Marks one holder of the environment as gone.
    pub fn dec_ref(&mut self)
        requires
            old(self).refs() > 0,
        ensures
            old(self).wf() ==> final(self).wf(),
            final(self).refs() == old(self).refs() - 1,
            final(self).heap() == old(self).heap(),
            final(self).external_counts() == old(self).external_counts(),
            final(self).next_callback() == old(self).next_callback(),
            final(self).props_kept(old(self)),
    {
        self.refs = self.refs - 1;
        proof {
            if old(self).wf() {
                lemma_props_frame(self, old(self));
            }
        }
    }

    /// `typeof` of a value.
    pub fn type_of(&self, v: Value) -> (r: String)
        requires
            self.valid(v),
        ensures
            r@ == js_type_of(self.data(v)),
    {
        match self.get(v) {
            JsData::Undefined => String::from_str("undefined"),
            JsData::Boolean(_) => String::from_str("boolean"),
            JsData::Number(_) => String::from_str("number"),
            JsData::String(_) => String::from_str("string"),
            JsData::Function { .. } => String::from_str("function"),
            _ => String::from_str("object"),
        }
    }

    /// Opens a new shared reference count, starting at 1.
    pub(crate) fn new_counter(&mut self) -> (slot: usize)
        requires
            old(self).wf(),
        ensures
            final(self).wf(),
            final(self).heap() == old(self).heap(),
            final(self).refs() == old(self).refs(),
            final(self).next_callback() == old(self).next_callback(),
            final(self).props_kept(old(self)),
            final(self).external_counts() == old(self).external_counts().push(1),
            slot == old(self).external_counts().len(),
    {
        let slot = self.counters.len();
        self.counters.push(1);
        proof {
            lemma_props_frame(self, old(self));
        }
        slot
    }

    /// The count of a shared reference count.
    pub fn counter(&self, slot: usize) -> (n: usize)
        requires
            slot < self.external_counts().len(),
        ensures
            n == self.external_counts()[slot as int],
    {
        self.counters[slot]
    }

    /// Sets a shared reference count.
    pub(crate) fn set_counter(&mut self, slot: usize, n: usize)
        requires
            old(self).wf(),
            slot < old(self).external_counts().len(),
        ensures
            final(self).wf(),
            final(self).heap() == old(self).heap(),
            final(self).refs() == old(self).refs(),
            final(self).next_callback() == old(self).next_callback(),
            final(self).props_kept(old(self)),
            final(self).external_counts() == old(self).external_counts().update(slot as int, n),
    {
        self.counters.set(slot, n);
        proof {
            lemma_props_frame(self, old(self));
        }
    }

    /// Adds a native function whose callback gets the next callback id.
    pub(crate) fn allocate_function(&mut self) -> (v: Value)
        requires
            old(self).wf(),
            old(self).next_callback() < u64::MAX,
        ensures
            final(self).wf(),
            final(self).heap() == old(self).heap().push(JsData::Function { callback: old(self).next_callback() }),
            final(self).refs() == old(self).refs(),
            final(self).external_counts() == old(self).external_counts(),
            final(self).next_callback() == old(self).next_callback() + 1,
            final(self).props_kept(old(self)),
            final(self).properties(v).len() == 0,
            v.index() == old(self).heap().len(),
            final(self).valid(v),
    {
        let id = self.next_callback;
        let v = self.allocate(JsData::Function { callback: id });
        let ghost mid = *self;
        self.next_callback = id + 1;
        proof {
            lemma_props_frame(self, &mid);
        }
        v
    }

    /// The callback id that the next native function receives.
    pub fn next_callback_id(&self) -> (id: u64)
        ensures
            id == self.next_callback(),
    {
        self.next_callback
    }

    /// Whether two handles name the same value.
    pub fn same_value(&self, a: Value, b: Value) -> (r: bool)
        ensures
            r == (a == b),
    {
        a.id == b.id
    }

    /// How many holders keep the environment alive.
    pub fn ref_count(&self) -> (n: usize)
        ensures
            n == self.refs(),
    {
        self.refs
    }
}

/// Writing new bytes into a live buffer keeps the store well formed.
pub broadcast proof fn lemma_buffer_write_wf(new: &Env, old: &Env, i: int, b: Vec<u8>)
    requires
        old.wf(),
        0 <= i < old.heap().len(),
        old.heap()[i] is ArrayBuffer,
        #[trigger] new.props_same(old),
        new.heap() == #[trigger] old.heap().update(i, JsData::ArrayBuffer { bytes: b, detached: false }),
        new.external_counts() == old.external_counts(),
    ensures
        new.wf(),
{
    lemma_props_frame(new, old);
    assert forall|k: int| 0 <= k < new.heap().len() implies handles_below(#[trigger] new.heap()[k], new.heap().len()) by {
        if k != i {
            assert(new.heap()[k] == old.heap()[k]);
        }
    }
    assert forall|k: int| 0 <= k < new.heap().len() implies slots_below(#[trigger] new.heap()[k], new.external_counts().len()) by {
        if k != i {
            assert(new.heap()[k] == old.heap()[k]);
        }
    }
    assert forall|k: int| 0 <= k < new.heap().len() implies value_in_range(#[trigger] new.heap()[k]) by {
        if k != i {
            assert(new.heap()[k] == old.heap()[k]);
        }
    }
}

/// The property lists stay well formed when they do not change and the
/// store keeps its size.
proof fn lemma_props_frame(new: &Env, old: &Env)
    requires
        old.props_ok(),
        new.props@ == old.props@,
        new.heap@.len() == old.heap@.len(),
    ensures
        new.props_ok(),
        new.props_kept(old),
{
    assert forall|i: int| 0 <= i < new.heap().len() implies keys_distinct(#[trigger] new.prop_lists()[i]) by {
        assert(new.props_at(i) == old.props_at(i));
    }
    assert forall|i: int, j: int| 0 <= i < new.heap().len() && 0 <= j < new.props_at(i).len()
        implies (#[trigger] new.prop_lists()[i][j]).value.index() < new.heap().len() by {
        assert(new.props_at(i) == old.props_at(i));
        assert(old.props_at(i)[j].value.index() < old.heap().len());
    }
}

/// The property lists stay well formed when a value with no properties is
/// added.
proof fn lemma_props_push(new: &Env, old: &Env)
    requires
        old.props_ok(),
        old.props_aligned(),
        new.props@.len() == old.props@.len() + 1,
        forall|i: int| 0 <= i < old.props@.len() ==> new.props@[i] == old.props@[i],
        new.heap@.len() == old.heap@.len() + 1,
        new.props@[old.props@.len() as int]@ == Seq::<Property>::empty(),
    ensures
        new.props_ok(),
        new.props_kept(old),
{
    lemma_prop_lists(new);
    lemma_prop_lists(old);
    assert forall|i: int| 0 <= i < new.heap().len() implies keys_distinct(#[trigger] new.prop_lists()[i]) by {
        if i < old.heap().len() {
            assert(new.props_at(i) == old.props_at(i));
        }
    }
    assert forall|i: int, j: int| 0 <= i < new.heap().len() && 0 <= j < new.props_at(i).len()
        implies (#[trigger] new.prop_lists()[i][j]).value.index() < new.heap().len() by {
        if i < old.heap().len() {
            assert(new.props_at(i) == old.props_at(i));
            assert(old.props_at(i)[j].value.index() < old.heap().len());
        }
    }
    assert forall|i: int| 0 <= i < old.heap().len() implies #[trigger] new.props_at(i) == old.props_at(i) by {
    }
}

/// The property lists are the views of the stored lists.
proof fn lemma_prop_lists(e: &Env)
    ensures
        e.prop_lists().len() == e.props@.len(),
        forall|i: int| 0 <= i < e.props@.len() ==> #[trigger] e.prop_lists()[i] == e.props@[i]@,
{
}

/// Raising the bound keeps `handles_below`.
pub proof fn lemma_handles_below_grow(d: JsData, n: nat, m: nat)
    requires
        handles_below(d, n),
        n <= m,
    ensures
        handles_below(d, m),
{
}

} // verus!
