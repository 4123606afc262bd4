# ion

A verified model of the value layer of a JavaScript runtime binding, written
in Verus.

JavaScript values live in an `Env`, a store addressed by `Value` handles.
Typed wrappers (`JsString`, `JsNumber`, `JsArray`, `JsArrayBuffer`,
`JsObject`, `JsFunction`, `JsPromise`, `JsExternal`, ...) read and write the
store; each operation has a contract over the store's contents, and
`src/laws.rs` states and proves the properties that connect them (what a read
gives back of a write, round trips, reference counting).

Running JavaScript is the engine's work and is not part of the library: a call
is prepared as a `CallFrame`, the engine (or a native callback registered with
`JsFunction::new`) runs it, and the library reads the result. Promises settle
through `JsDeferred`, and settlement callbacks run at most once.

Conversions from a JavaScript value check its kind and fail with
`ValueCastError` on a value of another kind. The native values behind
`JsExternal` live in an `ExternalStore`, keyed by the slot of their shared
reference count, so that an external converts back to its native value.

Layout:

- `src/` the verified library (`env`, `traits`, `values/*`, `memory`,
  `paths`, `laws`, ...).
- `tests/` tests of the library on concrete values.
- `app/` the command-line program around the library.
