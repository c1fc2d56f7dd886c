use crate::lexer::token_kind::Kw;
use crate::strings::chars_eq;
use vstd::prelude::*;

verus! {

/// The keyword that the characters spell, if any.
pub open spec fn spec_keyword(s: Seq<char>) -> Option<Kw> {
    if s == seq!['l', 'e', 't'] {
        Some(Kw::Let)
    } else if s == seq!['f', 'n'] {
        Some(Kw::Fn)
    } else if s == seq!['r', 'e', 't', 'u', 'r', 'n'] {
        Some(Kw::Return)
    } else if s == seq!['i', 'f'] {
        Some(Kw::If)
    } else if s == seq!['e', 'l', 's', 'e'] {
        Some(Kw::Else)
    } else if s == seq!['w', 'h', 'i', 'l', 'e'] {
        Some(Kw::While)
    } else if s == seq!['l', 'o', 'o', 'p'] {
        Some(Kw::Loop)
    } else if s == seq!['f', 'o', 'r'] {
        Some(Kw::For)
    } else if s == seq!['i', 'n'] {
        Some(Kw::In)
    } else if s == seq!['b', 'r', 'e', 'a', 'k'] {
        Some(Kw::Break)
    } else if s == seq!['c', 'o', 'n', 't', 'i', 'n', 'u', 'e'] {
        Some(Kw::Continue)
    } else if s == seq!['s', 't', 'r', 'u', 'c', 't'] {
        Some(Kw::Struct)
    } else if s == seq!['e', 'n', 'u', 'm'] {
        Some(Kw::Enum)
    } else if s == seq!['t', 'r', 'a', 'i', 't'] {
        Some(Kw::Trait)
    } else if s == seq!['m', 'o', 'd'] {
        Some(Kw::Mod)
    } else if s == seq!['m', 'a', 't', 'c', 'h'] {
        Some(Kw::Match)
    } else if s == seq!['i', 'm', 'p', 'l'] {
        Some(Kw::Impl)
    } else if s == seq!['p', 'u', 'b'] {
        Some(Kw::Pub)
    } else if s == seq!['m', 'u', 't'] {
        Some(Kw::Mut)
    } else if s == seq!['t', 'y', 'p', 'e'] {
        Some(Kw::Type)
    } else if s == seq!['a', 's'] {
        Some(Kw::As)
    } else if s == seq!['t', 'r', 'u', 'e'] {
        Some(Kw::True)
    } else if s == seq!['f', 'a', 'l', 's', 'e'] {
        Some(Kw::False)
    } else if s == seq!['u', 's', 'e'] {
        Some(Kw::Use)
    } else if s == seq!['w', 'h', 'e', 'r', 'e'] {
        Some(Kw::Where)
    } else if s == seq!['e', 'x', 't', 'e', 'r', 'n'] {
        Some(Kw::Extern)
    } else if s == seq!['c', 'o', 'n', 's', 't'] {
        Some(Kw::Const)
    } else if s == seq!['u', 'n', 'i', 't'] {
        Some(Kw::Unit)
    } else {
        None
    }
}

/// Looks the characters up among the keywords.
pub fn keyword(s: &Vec<char>) -> (r: Option<Kw>)
    ensures
        r == spec_keyword(s@),
{
    proof {
        assert(['l', 'e', 't']@ =~= seq!['l', 'e', 't']);
        assert(['f', 'n']@ =~= seq!['f', 'n']);
        assert(['r', 'e', 't', 'u', 'r', 'n']@ =~= seq!['r', 'e', 't', 'u', 'r', 'n']);
        assert(['i', 'f']@ =~= seq!['i', 'f']);
        assert(['e', 'l', 's', 'e']@ =~= seq!['e', 'l', 's', 'e']);
        assert(['w', 'h', 'i', 'l', 'e']@ =~= seq!['w', 'h', 'i', 'l', 'e']);
        assert(['l', 'o', 'o', 'p']@ =~= seq!['l', 'o', 'o', 'p']);
        assert(['f', 'o', 'r']@ =~= seq!['f', 'o', 'r']);
        assert(['i', 'n']@ =~= seq!['i', 'n']);
        assert(['b', 'r', 'e', 'a', 'k']@ =~= seq!['b', 'r', 'e', 'a', 'k']);
        assert(['c', 'o', 'n', 't', 'i', 'n', 'u', 'e']@ =~= seq!['c', 'o', 'n', 't', 'i', 'n', 'u', 'e']);
        assert(['s', 't', 'r', 'u', 'c', 't']@ =~= seq!['s', 't', 'r', 'u', 'c', 't']);
        assert(['e', 'n', 'u', 'm']@ =~= seq!['e', 'n', 'u', 'm']);
        assert(['t', 'r', 'a', 'i', 't']@ =~= seq!['t', 'r', 'a', 'i', 't']);
        assert(['m', 'o', 'd']@ =~= seq!['m', 'o', 'd']);
        assert(['m', 'a', 't', 'c', 'h']@ =~= seq!['m', 'a', 't', 'c', 'h']);
        assert(['i', 'm', 'p', 'l']@ =~= seq!['i', 'm', 'p', 'l']);
        assert(['p', 'u', 'b']@ =~= seq!['p', 'u', 'b']);
        assert(['m', 'u', 't']@ =~= seq!['m', 'u', 't']);
        assert(['t', 'y', 'p', 'e']@ =~= seq!['t', 'y', 'p', 'e']);
        assert(['a', 's']@ =~= seq!['a', 's']);
        assert(['t', 'r', 'u', 'e']@ =~= seq!['t', 'r', 'u', 'e']);
        assert(['f', 'a', 'l', 's', 'e']@ =~= seq!['f', 'a', 'l', 's', 'e']);
        assert(['u', 's', 'e']@ =~= seq!['u', 's', 'e']);
        assert(['w', 'h', 'e', 'r', 'e']@ =~= seq!['w', 'h', 'e', 'r', 'e']);
        assert(['e', 'x', 't', 'e', 'r', 'n']@ =~= seq!['e', 'x', 't', 'e', 'r', 'n']);
        assert(['c', 'o', 'n', 's', 't']@ =~= seq!['c', 'o', 'n', 's', 't']);
        assert(['u', 'n', 'i', 't']@ =~= seq!['u', 'n', 'i', 't']);
    }
    if chars_eq(s, &['l', 'e', 't']) {
        Some(Kw::Let)
    } else if chars_eq(s, &['f', 'n']) {
        Some(Kw::Fn)
    } else if chars_eq(s, &['r', 'e', 't', 'u', 'r', 'n']) {
        Some(Kw::Return)
    } else if chars_eq(s, &['i', 'f']) {
        Some(Kw::If)
    } else if chars_eq(s, &['e', 'l', 's', 'e']) {
        Some(Kw::Else)
    } else if chars_eq(s, &['w', 'h', 'i', 'l', 'e']) {
        Some(Kw::While)
    } else if chars_eq(s, &['l', 'o', 'o', 'p']) {
        Some(Kw::Loop)
    } else if chars_eq(s, &['f', 'o', 'r']) {
        Some(Kw::For)
    } else if chars_eq(s, &['i', 'n']) {
        Some(Kw::In)
    } else if chars_eq(s, &['b', 'r', 'e', 'a', 'k']) {
        Some(Kw::Break)
    } else if chars_eq(s, &['c', 'o', 'n', 't', 'i', 'n', 'u', 'e']) {
        Some(Kw::Continue)
    } else if chars_eq(s, &['s', 't', 'r', 'u', 'c', 't']) {
        Some(Kw::Struct)
    } else if chars_eq(s, &['e', 'n', 'u', 'm']) {
        Some(Kw::Enum)
    } else if chars_eq(s, &['t', 'r', 'a', 'i', 't']) {
        Some(Kw::Trait)
    } else if chars_eq(s, &['m', 'o', 'd']) {
        Some(Kw::Mod)
    } else if chars_eq(s, &['m', 'a', 't', 'c', 'h']) {
        Some(Kw::Match)
    } else if chars_eq(s, &['i', 'm', 'p', 'l']) {
        Some(Kw::Impl)
    } else if chars_eq(s, &['p', 'u', 'b']) {
        Some(Kw::Pub)
    } else if chars_eq(s, &['m', 'u', 't']) {
        Some(Kw::Mut)
    } else if chars_eq(s, &['t', 'y', 'p', 'e']) {
        Some(Kw::Type)
    } else if chars_eq(s, &['a', 's']) {
        Some(Kw::As)
    } else if chars_eq(s, &['t', 'r', 'u', 'e']) {
        Some(Kw::True)
    } else if chars_eq(s, &['f', 'a', 'l', 's', 'e']) {
        Some(Kw::False)
    } else if chars_eq(s, &['u', 's', 'e']) {
        Some(Kw::Use)
    } else if chars_eq(s, &['w', 'h', 'e', 'r', 'e']) {
        Some(Kw::Where)
    } else if chars_eq(s, &['e', 'x', 't', 'e', 'r', 'n']) {
        Some(Kw::Extern)
    } else if chars_eq(s, &['c', 'o', 'n', 's', 't']) {
        Some(Kw::Const)
    } else if chars_eq(s, &['u', 'n', 'i', 't']) {
        Some(Kw::Unit)
    } else {
        None
    }
}

} // verus!
