use vstd::prelude::*;

verus! {

/// Errors reported by the value layer.
#[derive(Clone, Copy, PartialEq, Eq, Debug)]
pub enum IonError {
    /// A value does not have the JavaScript type that the operation needs.
    ValueCastError,
    /// An argument does not have the JavaScript type that the operation
    /// needs.
    InvalidArg,
    /// A value could not be read.
    ValueGetError,
    /// An argument index lies past the arguments of a call.
    OutOfBounds,
    /// Calling a function raised instead of returning.
    FunctionCallError,
    /// Constructing an object from a function failed.
    NewInstanceError,
    /// A promise could not be resolved.
    PromiseResolveError,
    /// A channel between threads was closed.
    ChannelClosed,
}

/// The result type of the value layer.
pub type Result<T> = core::result::Result<T, IonError>;

} // verus!
