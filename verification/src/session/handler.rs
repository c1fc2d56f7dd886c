use crate::error::CompilerError;
use vstd::prelude::*;

verus! {

/// Collects the errors of a compilation, in the order they are found.
pub struct ErrorHandler {
    errors: Vec<CompilerError>,
}

impl ErrorHandler {
    pub closed spec fn view(&self) -> Seq<CompilerError> {
        self.errors@
    }

    pub fn new() -> (h: ErrorHandler)
        ensures
            h@ == Seq::<CompilerError>::empty(),
    {
        ErrorHandler { errors: Vec::new() }
    }

    pub fn push_error(&mut self, error: CompilerError)
        ensures
            final(self)@ == old(self)@.push(error),
    {
        self.errors.push(error)
    }

    pub fn error_count(&self) -> (n: usize)
        ensures
            n == self@.len(),
    {
        self.errors.len()
    }

    /// The errors collected, for reporting.
    pub fn errors(&self) -> (r: &Vec<CompilerError>)
        ensures
            r@ == self@,
    {
        &self.errors
    }
}

impl Default for ErrorHandler {
    fn default() -> (h: ErrorHandler)
        ensures
            h@ == Seq::<CompilerError>::empty(),
    {
        ErrorHandler::new()
    }
}

} // verus!
