use vstd::prelude::*;

verus! {

/// Evaluates a piece of code.
pub struct EvalCommand {
    /// Code to evaluate.
    pub code: String,
}

/// Runs a file.
pub struct RunCommand {
    /// The file to run.
    pub path: String,
}

/// Runs the tests that files declare.
pub struct TestCommand {
    /// The files to run.
    pub files: Vec<String>,
}

} // verus!
