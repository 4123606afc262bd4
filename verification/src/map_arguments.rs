use vstd::prelude::*;

use crate::env::Env;
use crate::error::Result;

verus! {

/// Arguments for a call that takes none.
pub fn noop(_env: &Env) -> (r: Result<()>)
    ensures
        r == Ok::<(), crate::error::IonError>(()),
{
    Ok(())
}

} // verus!
