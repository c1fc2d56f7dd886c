pub mod ast_lowerer;
pub mod error;
pub mod lexer;
pub mod parser;
pub mod public;
pub mod resolver;
pub mod session;
pub mod span;
pub mod strings;
pub mod test_runner;
pub mod type_checker;

pub use ast_lowerer::ast_lowerer::AstLowerer;
pub use error::CompilerError;
pub use lexer::lexer::Lexer;
pub use parser::parser::Parser;
pub use resolver::resolver::Resolver;
pub use session::session::{Output, OutputType, Session};
use vstd::prelude::*;

verus! {

/// Whether the UTF-8 encoding of the characters fits in `usize` bytes.
fn byte_len_fits(chars: &Vec<char>) -> (r: bool)
    ensures
        r == (lexer::chars::byte_len(chars@) <= usize::MAX),
{
    let mut total: usize = 0;
    let mut i: usize = 0;
    while i < chars.len()
        invariant
            i <= chars.len(),
            total == lexer::chars::byte_len(chars@.take(i as int)),
        decreases chars.len() - i,
    {
        proof {
            lexer::chars::lemma_byte_len_take_step(chars@, i as int);
        }
        let n = lexer::chars::len_utf8(chars[i]);
        match total.checked_add(n) {
            Some(t) => {
                total = t;
            },
            None => {
                proof {
                    lexer::chars::lemma_byte_len_take_le(chars@, i + 1);
                }
                return false;
            },
        }
        i = i + 1;
    }
    assert(chars@.take(chars.len() as int) =~= chars@);
    true
}

/// The errors that lexing the text reports, as compiler errors.
pub open spec fn lexed_errors(src: Seq<char>) -> Seq<CompilerError> {
    lexer::grammar::lex_from(src, 0).1.map_values(|e: lexer::error::LexerError| CompilerError::LexerError(e))
}

/// The errors after lexing are those the parser reported, then those name
/// resolution reported: `errors` is `base` followed by `k` parser errors and
/// then only resolver errors.
pub open spec fn parse_then_resolve_errors(base: Seq<CompilerError>, errors: Seq<CompilerError>, k: int) -> bool {
    &&& base.is_prefix_of(errors)
    &&& 0 <= k <= errors.len() - base.len()
    &&& forall|i: int| base.len() <= i < base.len() + k ==> #[trigger] errors[i] is ParserError
    &&& forall|i: int| base.len() + k <= i < errors.len() ==> #[trigger] errors[i] is ResolverError
}

/// The crate was parsed from the tokens that lexing `src` gives, with `k`
/// errors reported on the way: its items in order, each with the form its
/// first token begins, and every attempt at an item that gave none
/// reported.
pub open spec fn parsed_from_source(src: Seq<char>, a: parser::ast::Crate, k: int) -> bool {
    exists|toks: Seq<lexer::token::Token>, attempts: Seq<int>, starts: Seq<int>|
        #[trigger] parser::parser::crate_items_parsed(toks, 0, a.items@, k, attempts, starts)
            && lexer::grammar::tokens_model(toks) == lexer::grammar::lex_from(src, 0).0
            && toks.len() > 0 && (!(toks[0].kind is EOF) ==> attempts.len() > 0)
}

/// Compiles the session's source text: lexes, parses, resolves names and
/// lowers the crate. The errors of each stage are added to the session;
/// the output holds the stages asked for: the syntax tree whenever it is
/// asked for (an empty source gives a crate with no items), the lowered
/// tree when it is asked for and lowering can take the crate. After the
/// lexer's errors come the parser's, then those of name resolution.
pub fn compile_source(session: &mut Session) -> (out: Output)
    ensures
        old(session).spec_errors().is_prefix_of(final(session).spec_errors()),
        final(session).spec_source() == old(session).spec_source(),
        final(session).spec_flags() == old(session).spec_flags(),
        out.tokens is Some <==> (old(session).spec_flags().contains(OutputType::Tokens)
            && lexer::chars::byte_len(old(session).spec_source()) <= usize::MAX),
        out.ast is Some <==> (old(session).spec_flags().contains(OutputType::Ast)
            && lexer::chars::byte_len(old(session).spec_source()) <= usize::MAX),
        out.hir is Some ==> old(session).spec_flags().contains(OutputType::Hir),
        out.ast matches Some(a) ==> (out.hir is Some ==> exists|d: resolver::defs::DefinitionMap|
            #![trigger d.ast_to_def_view()]
            d.ast_to_def_view() == out.ast_to_def@ && d.resolutions_view() == out.resolutions@
                && ast_lowerer::lowerable::lowerable_crate(&a, &d)),
        out.ast matches Some(a) ==> (out.hir is None && old(session).spec_flags().contains(OutputType::Hir)
            ==> exists|d: resolver::defs::DefinitionMap|
            #![trigger d.ast_to_def_view()]
            d.ast_to_def_view() == out.ast_to_def@ && d.resolutions_view() == out.resolutions@
                && !ast_lowerer::lowerable::lowerable_crate(&a, &d)),
        lexer::chars::byte_len(old(session).spec_source()) <= usize::MAX ==> exists|k: int|
            #[trigger] parse_then_resolve_errors(
                old(session).spec_errors() + lexed_errors(old(session).spec_source()),
                final(session).spec_errors(),
                k,
            ) && (out.ast matches Some(a) ==> parsed_from_source(old(session).spec_source(), a, k)),
        out.tokens matches Some(t) ==> lexer::grammar::tokens_model(t@) == lexer::grammar::lex_from(
            old(session).spec_source(),
            0,
        ).0,
        lexer::chars::byte_len(old(session).spec_source()) <= usize::MAX ==> (old(session).spec_errors()
            + lexed_errors(old(session).spec_source())).is_prefix_of(final(session).spec_errors()),
        lexer::chars::byte_len(old(session).spec_source()) > usize::MAX ==> final(session).spec_errors()
            == old(session).spec_errors(),
        out.ast matches Some(a) ==> out.hir matches Some(h) ==> exists|d: resolver::defs::DefinitionMap|
            #![trigger d.ast_to_def_view()]
            d.ast_to_def_view() == out.ast_to_def@ && d.resolutions_view() == out.resolutions@
                && ast_lowerer::lowering::crate_items_lowered(a.items@, h.items@, &d) && h.span == a.span,
{
    let mut output = Output {
        tokens: None,
        ast: None,
        hir: None,
        ast_to_def: std::collections::HashMap::new(),
        resolutions: std::collections::HashMap::new(),
        def_map: std::collections::HashMap::new(),
    };
    let source = session.get_source();
    let chars = strings::chars_of(&source);
    if !byte_len_fits(&chars) {
        return output;
    }
    let mut lexer = Lexer::new(chars);
    let tokens = lexer.tokenize();
    let lexer_errors = lexer.errors();
    let ghost lexed = lexed_errors(old(session).spec_source());
    assert(lexer_errors@ =~= lexer::grammar::lex_from(old(session).spec_source(), 0).1);
    let mut i: usize = 0;
    while i < lexer_errors.len()
        invariant
            i <= lexer_errors.len(),
            lexed == lexed_errors(old(session).spec_source()),
            lexed.len() == lexer_errors@.len(),
            forall|j: int| 0 <= j < lexed.len() ==> #[trigger] lexed[j] == CompilerError::LexerError(lexer_errors@[j]),
            session.spec_errors() == old(session).spec_errors() + lexed.take(i as int),
            session.spec_source() == old(session).spec_source(),
            session.spec_flags() == old(session).spec_flags(),
        decreases lexer_errors.len() - i,
    {
        let e = CompilerError::LexerError(lexer_errors[i]);
        session.push_error(e);
        i = i + 1;
        assert(session.spec_errors() =~= old(session).spec_errors() + lexed.take(i as int));
    }
    assert(lexed.take(lexed.len() as int) =~= lexed);
    if session.has_flag(OutputType::Tokens) {
        let mut copy: Vec<lexer::token::Token> = Vec::new();
        let mut k: usize = 0;
        while k < tokens.len()
            invariant
                k <= tokens.len(),
                copy@ == tokens@.take(k as int),
            decreases tokens.len() - k,
        {
            copy.push(parser::cursor::clone_token(&tokens[k]));
            k = k + 1;
            assert(copy@ =~= tokens@.take(k as int));
        }
        assert(copy@ =~= tokens@);
        output.tokens = Some(copy);
    }
    let ghost after_lexing = session.spec_errors();
    assert(after_lexing == old(session).spec_errors() + lexed_errors(old(session).spec_source()));
    proof {
        parser::cursor::lemma_lexed_tokens_parsable(tokens@, 0, lexer::chars::byte_len(old(session).spec_source()));
    }
    let ghost toks = tokens@;
    let mut parser = Parser::new(tokens);
    let krate = parser.parse_crate();
    proof {
        let n = parser.errs().len() as int;
        let (attempts, starts) = choose|attempts: Seq<int>, starts: Seq<int>|
            #[trigger] parser::parser::crate_items_parsed(toks, 0, krate.items@, n, attempts, starts)
                && (!(toks[0].kind is EOF) ==> attempts.len() > 0);
        assert(parsed_from_source(old(session).spec_source(), krate, n));
    }
    let parser_errors = parser.errors();
    let mut i: usize = 0;
    while i < parser_errors.len()
        invariant
            i <= parser_errors.len(),
            old(session).spec_errors().is_prefix_of(session.spec_errors()),
            after_lexing.is_prefix_of(session.spec_errors()),
            parse_then_resolve_errors(after_lexing, session.spec_errors(), i as int),
            session.spec_errors().len() == after_lexing.len() + i,
            session.spec_source() == old(session).spec_source(),
            session.spec_flags() == old(session).spec_flags(),
        decreases parser_errors.len() - i,
    {
        proof {
            strings::lemma_prefix_push(
                old(session).spec_errors(),
                session.spec_errors(),
                CompilerError::ParserError(parser_errors@[i as int]),
            );
            strings::lemma_prefix_push(
                after_lexing,
                session.spec_errors(),
                CompilerError::ParserError(parser_errors@[i as int]),
            );
        }
        session.push_error(CompilerError::ParserError(parser_errors[i].clone()));
        i = i + 1;
    }
    let n_parse_errors = parser_errors.len();
    let mut resolver = Resolver::new();
    resolver.resolve(&krate);
    let mut i: usize = 0;
    while i < resolver.errors.len()
        invariant
            i <= resolver.errors.len(),
            old(session).spec_errors().is_prefix_of(session.spec_errors()),
            after_lexing.is_prefix_of(session.spec_errors()),
            parse_then_resolve_errors(after_lexing, session.spec_errors(), n_parse_errors as int),
            session.spec_source() == old(session).spec_source(),
            session.spec_flags() == old(session).spec_flags(),
        decreases resolver.errors.len() - i,
    {
        proof {
            strings::lemma_prefix_push(
                old(session).spec_errors(),
                session.spec_errors(),
                CompilerError::ResolverError(resolver.errors@[i as int]),
            );
            strings::lemma_prefix_push(
                after_lexing,
                session.spec_errors(),
                CompilerError::ResolverError(resolver.errors@[i as int]),
            );
        }
        session.push_error(CompilerError::ResolverError(resolver.errors[i].clone()));
        i = i + 1;
    }
    if session.has_flag(OutputType::Hir) && ast_lowerer::lowerable::check_crate(&krate, &resolver.defs) {
        let mut lowerer = AstLowerer::new(&resolver.defs, &krate);
        output.hir = Some(lowerer.lower());
    }
    output.def_map = resolver.defs.def_kinds();
    let ghost defs = resolver.defs;
    let (ast_to_def, resolutions) = resolver.defs.into_node_maps();
    output.ast_to_def = ast_to_def;
    output.resolutions = resolutions;
    proof {
        if output.hir is Some {
            assert(defs.ast_to_def_view() == output.ast_to_def@);
            assert(ast_lowerer::lowering::crate_items_lowered(krate.items@, output.hir->0.items@, &defs));
        }
    }
    if session.has_flag(OutputType::Ast) {
        output.ast = Some(krate);
    }
    output
}

} // verus!
