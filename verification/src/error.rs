//! The failures that the cache and the renderer report.

use vstd::prelude::*;

verus! {

#[derive(Debug, PartialEq, Eq)]
pub enum Error {
    /// An object could not be allocated: no object name, or no handle, is
    /// left.
    ResourceExhausted,
    /// A shader did not compile cleanly. `message` is the diagnostic to log;
    /// the pipeline is kept all the same.
    ShaderCompileFailed { message: String },
    /// No texture is registered under `handle`.
    UnknownHandle { handle: u32 },
}

} // verus!
