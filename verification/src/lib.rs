//! A verified model of the value layer of a JavaScript runtime binding.
//!
//! Values live in an [`env::Env`], a store of JavaScript data addressed by
//! [`env::Value`] handles. Typed wrappers (`JsString`, `JsArray`, ...) read and
//! write that store through contracts stated over its contents.
use vstd::prelude::*;

pub mod error;
pub mod env;
pub mod traits;
pub mod values;
pub mod map_arguments;
pub mod map_return;
pub mod counter;
pub mod commands;
pub mod memory;
pub mod paths;
pub mod laws;
pub mod conversion_laws;

verus! {

} // verus!
