use vstd::prelude::*;

use crate::env::Env;
use crate::error::Result;
use crate::values::js_unknown::JsUnknown;

verus! {

/// Ignores what a call returned.
pub fn noop(_env: &Env, _ret: JsUnknown) -> (r: Result<()>)
    ensures
        r == Ok::<(), crate::error::IonError>(()),
{
    Ok(())
}

} // verus!
