use vstd::prelude::*;

verus! {

/// Failure of a persistence operation.
///
/// Every operation either returns a fully usable value or one of these; no
/// error is swallowed, and nothing useful is ever returned alongside one.
#[derive(Debug)]
pub enum Error {
    /// The caller's path text holds a NUL byte, so it cannot be represented
    /// in the boundary's string form. Detected before any boundary call; no
    /// resource is touched.
    BadFilePath,
    /// A boundary call reported a non-success status: the foreign code,
    /// verbatim, and the boundary's own best-effort description.
    Native { code: i32, message: String },
}

} // verus!
