//! The standalone platform: the enclave runs in the runner's own process,
//! so starting it needs nothing and gives a descriptor at once.
use crate::abi::ErrorKind;
use vstd::prelude::*;

verus! {

/// A failure of the runner.
#[derive(Debug)]
pub enum RunnerError {
    /// The host tree cannot be served; the text says why.
    FilesystemError(String),
    /// A host operation of the runner failed.
    Io(ErrorKind),
}

pub struct Standalone;

#[derive(Clone, Debug)]
pub struct StandaloneArgs;

/// A running standalone enclave.
pub struct StandaloneDescriptor;

impl Standalone {
    /// Starts a standalone enclave, which always succeeds.
    pub fn run<I: Into<StandaloneArgs>>(_run_args: I) -> (r: Result<StandaloneDescriptor, RunnerError>)
        ensures
            r is Ok,
    {
        Ok(StandaloneDescriptor)
    }
}

} // verus!
