use crate::ast_lowerer::hir;
use crate::error::CompilerError;
use crate::lexer::token::Token;
use crate::parser::ast;
use crate::parser::ast::AstId;
use crate::resolver::defs::{DefId, DefKind};
use crate::resolver::ribs::Res;
use crate::session::handler::ErrorHandler;
use std::collections::HashMap;
use vstd::prelude::*;

verus! {

/// What a compilation is asked to hand back besides its errors.
#[derive(Clone, Copy, Debug, PartialEq, Eq, Hash, Structural)]
pub enum OutputType {
    Tokens,
    Ast,
    Hir,
}

/// What a compilation hands back: the stages asked for, the definition
/// of each defining node and the resolution of each path (keyed by the
/// number inside the node's id), and the kind of each definition (keyed by
/// the number inside its id).
pub struct Output {
    pub tokens: Option<Vec<Token>>,
    pub ast: Option<ast::Crate>,
    pub hir: Option<hir::Crate>,
    pub ast_to_def: HashMap<usize, DefId>,
    pub resolutions: HashMap<usize, Res<AstId>>,
    pub def_map: HashMap<usize, DefKind>,
}

/// One compilation: the source text with its name, the outputs asked for,
/// and the errors found so far.
pub struct Session {
    name: String,
    source: String,
    error_handler: ErrorHandler,
    flags: Vec<OutputType>,
}

impl Session {
    pub closed spec fn spec_source(&self) -> Seq<char> {
        self.source@
    }

    pub closed spec fn spec_name(&self) -> Seq<char> {
        self.name@
    }

    pub closed spec fn spec_flags(&self) -> Seq<OutputType> {
        self.flags@
    }

    /// The errors found so far.
    pub closed spec fn spec_errors(&self) -> Seq<CompilerError> {
        self.error_handler@
    }

    pub fn new(name: String, source: String, flags: Vec<OutputType>) -> (s: Session)
        ensures
            s.spec_name() == name@,
            s.spec_source() == source@,
            s.spec_flags() == flags@,
            s.spec_errors() == Seq::<CompilerError>::empty(),
    {
        Session { name, source, error_handler: ErrorHandler::new(), flags }
    }

    pub fn get_source(&self) -> (s: String)
        ensures
            s@ == self.spec_source(),
    {
        self.source.clone()
    }

    /// The name of the source text.
    pub fn get_name(&self) -> (s: String)
        ensures
            s@ == self.spec_name(),
    {
        self.name.clone()
    }

    pub fn push_error(&mut self, error: CompilerError)
        ensures
            final(self).spec_errors() == old(self).spec_errors().push(error),
            final(self).spec_source() == old(self).spec_source(),
            final(self).spec_name() == old(self).spec_name(),
            final(self).spec_flags() == old(self).spec_flags(),
    {
        self.error_handler.push_error(error);
    }

    pub fn error_count(&self) -> (n: usize)
        ensures
            n == self.spec_errors().len(),
    {
        self.error_handler.error_count()
    }

    /// The errors found so far, for reporting.
    pub fn errors(&self) -> (r: &Vec<CompilerError>)
        ensures
            r@ == self.spec_errors(),
    {
        self.error_handler.errors()
    }

    /// Whether the output `t` was asked for.
    pub fn has_flag(&self, t: OutputType) -> (r: bool)
        ensures
            r == self.spec_flags().contains(t),
    {
        let mut i: usize = 0;
        while i < self.flags.len()
            invariant
                i <= self.flags.len(),
                forall|j: int| 0 <= j < i ==> self.flags@[j] != t,
            decreases self.flags.len() - i,
        {
            if self.flags[i] == t {
                return true;
            }
            i = i + 1;
        }
        false
    }
}

} // verus!
