use vstd::prelude::*;

verus! {

/// Every failure the document world can report to its callers.
///
/// All of these are returned as explicit values; no operation of this
/// library panics.
#[derive(Debug)]
pub enum WorldError {
    /// An unknown file identity was given to a read or open operation.
    NotFound,
    /// Exclusive access to the file store could not be acquired.
    AccessDenied,
    /// The engine reported fatal diagnostics; carries their messages.
    CompilationFailure(Vec<String>),
    /// A page was requested from a document that produced no pages.
    PageOutOfRange,
    /// Binary asset resolution was attempted; only source files are supported.
    UnsupportedAsset,
}

impl WorldError {
    /// A short description of the error, suitable for an inline error block.
    pub fn message(&self) -> (r: &'static str)
        ensures
            self is NotFound ==> r@ == "file not found"@,
            self is AccessDenied ==> r@ == "access to the file store was denied"@,
            self is CompilationFailure ==> r@ == "compilation failed"@,
            self is PageOutOfRange ==> r@ == "page index out of range"@,
            self is UnsupportedAsset ==> r@ == "binary assets are not supported"@,
    {
        match self {
            WorldError::NotFound => "file not found",
            WorldError::AccessDenied => "access to the file store was denied",
            WorldError::CompilationFailure(_) => "compilation failed",
            WorldError::PageOutOfRange => "page index out of range",
            WorldError::UnsupportedAsset => "binary assets are not supported",
        }
    }
}

} // verus!
