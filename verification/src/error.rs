use crate::lexer::error::LexerError;
use crate::parser::error::ParserError;
use crate::resolver::error::ResolverError;
use vstd::prelude::*;

verus! {

/// An error of any stage of the compiler.
#[derive(Clone, Debug, PartialEq)]
pub enum CompilerError {
    LexerError(LexerError),
    ParserError(ParserError),
    ResolverError(ResolverError),
}

} // verus!
