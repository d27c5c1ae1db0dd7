use vstd::prelude::*;

verus! {

/// The two classes of failure the runtime distinguishes.
#[derive(Clone, Copy, Debug, PartialEq, Eq, Structural)]
pub enum ErrorType {
    /// A syscall, IPC or filesystem failure; the current operation is aborted.
    Runtime,
    /// A malformed or unsupported configuration.
    Spec,
}

/// An error with a human-readable message naming the failing step.
#[derive(Clone, Debug)]
pub struct Error {
    pub msg: String,
    pub err_type: ErrorType,
}

impl Error {
    /// A `Runtime` error carrying `msg`.
    pub fn runtime(msg: String) -> (r: Error)
        ensures
            r.msg@ == msg@,
            r.err_type == ErrorType::Runtime,
    {
        Error { msg, err_type: ErrorType::Runtime }
    }

    /// A `Spec` error carrying `msg`.
    pub fn spec(msg: String) -> (r: Error)
        ensures
            r.msg@ == msg@,
            r.err_type == ErrorType::Spec,
    {
        Error { msg, err_type: ErrorType::Spec }
    }
}

} // verus!
