use vstd::prelude::*;

use crate::env::{Env, JsData, Value};
use crate::error::{IonError, Result};
use crate::traits::{FromJsValue, JsValue, ToJsUnknown, ToJsValue};

verus! {

/// A JavaScript `ArrayBuffer`.
#[derive(Clone, Copy, Debug)]
pub struct JsArrayBuffer {
    pub(crate) value: Value,
}

/// In the store `heap`, the handle `v` is a live buffer holding `bytes`.
pub open spec fn holds_bytes(heap: Seq<JsData>, v: Value, bytes: Seq<u8>) -> bool {
    &&& 0 <= v.index() < heap.len()
    &&& heap[v.index()] matches JsData::ArrayBuffer { bytes: b, detached }
    &&& !detached
    &&& b@ == bytes
}

/// What reading the bytes of a value gives: the bytes of a live buffer; an
/// error for a detached buffer or any other value.
pub open spec fn buffer_contents(d: JsData) -> core::result::Result<Seq<u8>, IonError> {
    match d {
        JsData::ArrayBuffer { bytes, detached } => if detached {
            Err(IonError::ValueCastError)
        } else {
            Ok(bytes@)
        },
        _ => Err(IonError::ValueCastError),
    }
}

impl JsArrayBuffer {
    /// Creates a buffer of `length` zero bytes.
    pub fn new(env: &mut Env, length: usize) -> (r: Result<Self>)
        requires
            old(env).wf(),
        ensures
            final(env).wf(),
            final(env).same_bookkeeping(old(env)),
            final(env).extends(old(env)),
            final(env).heap().len() == old(env).heap().len() + 1,
            r matches Ok(b) && b.handle().index() == old(env).heap().len()
                && holds_bytes(final(env).heap(), b.handle(), Seq::new(length as nat, |i: int| 0u8)),
    {
        let bytes: Vec<u8> = vec![0u8; length];
        assert(bytes@ =~= Seq::new(length as nat, |i: int| 0u8));
        let value = env.allocate(JsData::ArrayBuffer { bytes, detached: false });
        Ok(JsArrayBuffer { value })
    }

    /// Creates a buffer holding a copy of `data`.
    pub fn from_bytes(env: &mut Env, data: &[u8]) -> (r: Result<Self>)
        requires
            old(env).wf(),
        ensures
            final(env).wf(),
            final(env).same_bookkeeping(old(env)),
            final(env).extends(old(env)),
            final(env).heap().len() == old(env).heap().len() + 1,
            r matches Ok(b) && b.handle().index() == old(env).heap().len()
                && holds_bytes(final(env).heap(), b.handle(), data@),
    {
        let bytes = vstd::slice::slice_to_vec(data);
        let value = env.allocate(JsData::ArrayBuffer { bytes, detached: false });
        Ok(JsArrayBuffer { value })
    }

    /// Creates a buffer of `length` zero bytes.
    pub fn with_length(env: &mut Env, length: usize) -> (r: Result<Self>)
        requires
            old(env).wf(),
        ensures
            final(env).wf(),
            final(env).same_bookkeeping(old(env)),
            final(env).extends(old(env)),
            final(env).heap().len() == old(env).heap().len() + 1,
            r matches Ok(b) && b.handle().index() == old(env).heap().len()
                && holds_bytes(final(env).heap(), b.handle(), Seq::new(length as nat, |i: int| 0u8)),
    {
        JsArrayBuffer::new(env, length)
    }

    /// The length in bytes; fails when the value is not a buffer.
    pub fn byte_length(&self, env: &Env) -> (r: Result<usize>)
        requires
            env.valid(self.handle()),
        ensures
            match env.data(self.handle()) {
                JsData::ArrayBuffer { bytes, .. } => r == Ok::<usize, IonError>(bytes@.len() as usize),
                _ => r == Err::<usize, IonError>(IonError::ValueCastError),
            },
    {
        match env.get(self.value) {
            JsData::ArrayBuffer { bytes, .. } => Ok(bytes.len()),
            _ => Err(IonError::ValueCastError),
        }
    }

    /// Whether the buffer has been detached; fails when the value is not a
    /// buffer.
    pub fn is_detached(&self, env: &Env) -> (r: Result<bool>)
        requires
            env.valid(self.handle()),
        ensures
            match env.data(self.handle()) {
                JsData::ArrayBuffer { detached, .. } => r == Ok::<bool, IonError>(detached),
                _ => r == Err::<bool, IonError>(IonError::ValueCastError),
            },
    {
        match env.get(self.value) {
            JsData::ArrayBuffer { detached, .. } => Ok(*detached),
            _ => Err(IonError::ValueCastError),
        }
    }

    /// Detaches the buffer: its bytes are gone and its length becomes 0.
    /// Fails when the value is not a buffer.
    pub fn detach(&self, env: &mut Env) -> (r: Result<()>)
        requires
            old(env).wf(),
            old(env).valid(self.handle()),
        ensures
            final(env).wf(),
            final(env).same_bookkeeping(old(env)),
            match old(env).data(self.handle()) {
                JsData::ArrayBuffer { .. } => {
                    &&& r is Ok
                    &&& final(env).heap().len() == old(env).heap().len()
                    &&& forall|i: int| 0 <= i < old(env).heap().len() && i != self.handle().index()
                        ==> #[trigger] final(env).heap()[i] == old(env).heap()[i]
                    &&& final(env).data(self.handle()) matches JsData::ArrayBuffer { bytes, detached }
                        && detached && bytes@.len() == 0
                },
                _ => r == Err::<(), IonError>(IonError::ValueCastError) && final(env).heap() == old(env).heap(),
            },
    {
        match env.get(self.value) {
            JsData::ArrayBuffer { .. } => {},
            _ => return Err(IonError::ValueCastError),
        }
        assert(self.handle().index() >= 2);
        let _ = env.replace(self.value, JsData::ArrayBuffer { bytes: Vec::new(), detached: true });
        Ok(())
    }

    /// A copy of the bytes; fails when the value is not a buffer or the
    /// buffer is detached.
    pub fn to_bytes(&self, env: &Env) -> (r: Result<Vec<u8>>)
        requires
            env.valid(self.handle()),
        ensures
            match buffer_contents(env.data(self.handle())) {
                Ok(bytes) => r matches Ok(out) && out@ == bytes,
                Err(e) => r matches Err(x) && x == e,
            },
    {
        match env.get(self.value) {
            JsData::ArrayBuffer { bytes, detached } => {
                if *detached {
                    return Err(IonError::ValueCastError);
                }
                Ok(vstd::slice::slice_to_vec(bytes.as_slice()))
            },
            _ => Err(IonError::ValueCastError),
        }
    }

    /// The bytes, borrowed from the store; fails when the value is not a
    /// buffer or the buffer is detached.
    pub fn as_slice<'a>(&self, env: &'a Env) -> (r: Result<&'a [u8]>)
        requires
            env.valid(self.handle()),
        ensures
            match buffer_contents(env.data(self.handle())) {
                Ok(bytes) => r matches Ok(out) && out@ == bytes,
                Err(e) => r matches Err(x) && x == e,
            },
    {
        match env.get(self.value) {
            JsData::ArrayBuffer { bytes, detached } => {
                if *detached {
                    return Err(IonError::ValueCastError);
                }
                Ok(bytes.as_slice())
            },
            _ => Err(IonError::ValueCastError),
        }
    }

    /// The bytes, borrowed from the store for writing; fails when the value
    /// is not a buffer or the buffer is detached. The buffer holds what the
    /// bytes are when the borrow ends.
    pub fn as_mut_slice<'a>(&self, env: &'a mut Env) -> (r: Result<&'a mut [u8]>)
        requires
            old(env).wf(),
            old(env).valid(self.handle()),
        ensures
            final(env).same_bookkeeping(old(env)),
            final(env).wf(),
            match buffer_contents(old(env).data(self.handle())) {
                Ok(bytes) => r matches Ok(out) && out@ == bytes && final(out)@ == final(env).data(self.handle())->bytes@
                    && final(env).heap() == old(env).heap().update(
                    self.handle().index(),
                    JsData::ArrayBuffer { bytes: final(env).data(self.handle())->bytes, detached: false },
                ),
                Err(e) => r matches Err(x) && x == e && *final(env) == *old(env),
            },
    {
        let live = match env.get(self.value) {
            JsData::ArrayBuffer { detached, .. } => !*detached,
            _ => false,
        };
        if !live {
            return Err(IonError::ValueCastError);
        }
        let bytes = env.buffer_bytes_mut(self.value);
        Ok(bytes.as_mut_slice())
    }
}

impl ToJsValue for Vec<u8> {
    open spec fn stands_for(&self, heap: Seq<JsData>, v: Value) -> bool {
        holds_bytes(heap, v, self@)
    }

    open spec fn converts(&self) -> bool {
        true
    }

    open spec fn convert_error(&self) -> IonError {
        IonError::ValueCastError
    }

    open spec fn fits(&self, n: nat) -> bool {
        true
    }

    proof fn lemma_stands_for_kept(&self, h1: Seq<JsData>, h2: Seq<JsData>, v: Value) {
    }

    proof fn lemma_fits_grow(&self, n: nat, m: nat) {
    }

    fn to_js_value(env: &mut Env, val: Self) -> (r: Result<Value>) {
        let b = JsArrayBuffer::from_bytes(env, val.as_slice())?;
        Ok(b.value)
    }
}

impl<'a> ToJsValue for &'a [u8] {
    open spec fn stands_for(&self, heap: Seq<JsData>, v: Value) -> bool {
        holds_bytes(heap, v, self@)
    }

    open spec fn converts(&self) -> bool {
        true
    }

    open spec fn convert_error(&self) -> IonError {
        IonError::ValueCastError
    }

    open spec fn fits(&self, n: nat) -> bool {
        true
    }

    proof fn lemma_stands_for_kept(&self, h1: Seq<JsData>, h2: Seq<JsData>, v: Value) {
    }

    proof fn lemma_fits_grow(&self, n: nat, m: nat) {
    }

    fn to_js_value(env: &mut Env, val: Self) -> (r: Result<Value>) {
        let b = JsArrayBuffer::from_bytes(env, val)?;
        Ok(b.value)
    }
}

impl Env {
    /// Creates a buffer of `length` zero bytes.
    pub fn create_array_buffer(&mut self, length: usize) -> (r: Result<JsArrayBuffer>)
        requires
            old(self).wf(),
        ensures
            final(self).wf(),
            final(self).same_bookkeeping(old(self)),
            final(self).extends(old(self)),
            final(self).heap().len() == old(self).heap().len() + 1,
            r matches Ok(b) && b.handle().index() == old(self).heap().len()
                && holds_bytes(final(self).heap(), b.handle(), Seq::new(length as nat, |i: int| 0u8)),
    {
        JsArrayBuffer::new(self, length)
    }

    /// Creates a buffer holding a copy of `data`.
    pub fn create_array_buffer_from_bytes(&mut self, data: &[u8]) -> (r: Result<JsArrayBuffer>)
        requires
            old(self).wf(),
        ensures
            final(self).wf(),
            final(self).same_bookkeeping(old(self)),
            final(self).extends(old(self)),
            final(self).heap().len() == old(self).heap().len() + 1,
            r matches Ok(b) && b.handle().index() == old(self).heap().len()
                && holds_bytes(final(self).heap(), b.handle(), data@),
    {
        JsArrayBuffer::from_bytes(self, data)
    }
}

impl FromJsValue for JsArrayBuffer {
    closed spec fn handle(&self) -> Value {
        self.value
    }

    open spec fn accepts(d: JsData) -> bool {
        d is ArrayBuffer
    }

    fn from_js_value(env: &Env, value: Value) -> (r: Result<Self>) {
        match env.get(value) {
            JsData::ArrayBuffer { .. } => Ok(JsArrayBuffer { value }),
            _ => Err(IonError::ValueCastError),
        }
    }

    fn from_value_unchecked(value: Value) -> (r: Self) {
        JsArrayBuffer { value }
    }
}

impl JsValue for JsArrayBuffer {
    fn value(&self) -> (r: &Value) {
        &self.value
    }
}

impl ToJsUnknown for JsArrayBuffer {}

impl ToJsValue for JsArrayBuffer {
    open spec fn stands_for(&self, heap: Seq<JsData>, v: Value) -> bool {
        v == self.handle()
    }

    open spec fn converts(&self) -> bool {
        true
    }

    open spec fn convert_error(&self) -> IonError {
        IonError::ValueCastError
    }

    open spec fn fits(&self, n: nat) -> bool {
        0 <= self.handle().index() < n
    }

    proof fn lemma_stands_for_kept(&self, h1: Seq<JsData>, h2: Seq<JsData>, v: Value) {
    }

    proof fn lemma_fits_grow(&self, n: nat, m: nat) {
    }

    fn to_js_value(env: &mut Env, val: Self) -> (r: Result<Value>) {
        Ok(val.value)
    }
}

} // verus!
