use crate::lexer::token::{spec_begins_item, Token};
use crate::lexer::token_kind::{spec_is_infix_op, Delimiter, Kw, Literal, Punct, TokenKind};
use crate::parser::ast::{
    ArrayExpr, AssignExpr, AssignOpExpr, AssociatedItem, AstId, AstNode, BinaryExpr, BlockExpr, BreakExpr,
    CallExpr, CastExpr, ConstDecl, Crate, EnumDecl, EnumVariant, Expr, ExternFnDecl, FieldAccessExpr,
    FnDecl, FnSig, ForExpr, GenericArg, GenericParam, GenericParamKind, Ident, IfExpr, ImplDecl,
    IndexExpr, Item, LetExpr, LetStmt, LiteralExpr, LoopExpr, MatchArm, MatchExpr, MethodCallExpr,
    ModDecl, Param, Path, PathExpr, PathSegment, Pattern, PatternStructField, ReturnExpr, Stmt,
    StructDecl, StructExpr, StructExprField, StructFieldDef, TraitDecl, TupleExpr, Ty, TyAliasDecl,
    UnaryExpr, UseItem, VariantData, WhileExpr,
};
use crate::lexer::token::all_digits;
use crate::parser::cursor::{
    clone_kind, kind_matches, same_kind, spec_is_junk_for_delim, tokens_parsable,
};
use crate::parser::ops::{
    assign_op_from, bin_op_from, continues_expr, infix_bp, lemma_assign_precedence, lemma_bin_op_precedence,
    lower_float_literal, lower_int_literal, prec_ok, precedence, spec_assign_op, spec_bin_op, spec_precedence,
    un_op_from,
};
use crate::parser::error::ParserError;
use crate::parser::forms::{
    atom_form, begins_atom, begins_item_kw, begins_pattern, item_form, literal_parsed, pattern_form, stmt_form,
    type_form,
};
use crate::span::Span;
use vstd::prelude::*;

verus! {

/// The parser may forbid struct expressions, in conditions where `{` opens the body.
#[derive(Clone, Copy)]
pub struct Restrictions {
    pub forbid_struct_expr: bool,
}

pub struct Parser {
    pub(crate) tokens: Vec<Token>,
    pub(crate) position: usize,
    pub(crate) restrictions: Restrictions,
    pub(crate) next_ast_id: usize,
    pub(crate) errors: Vec<ParserError>,
}

impl Parser {
    pub closed spec fn wf(&self) -> bool {
        &&& tokens_parsable(self.tokens@)
        &&& self.position < self.tokens.len()
    }

    pub closed spec fn toks(&self) -> Seq<Token> {
        self.tokens@
    }

    pub closed spec fn pos(&self) -> nat {
        self.position as nat
    }

    pub closed spec fn errs(&self) -> Seq<ParserError> {
        self.errors@
    }

    /// The number of tokens not yet consumed.
    pub closed spec fn remaining(&self) -> nat {
        (self.tokens.len() - self.position) as nat
    }

    /// The token at the cursor.
    pub closed spec fn cur(&self) -> TokenKind {
        self.tokens@[self.position as int].kind
    }

    /// The span from the token at the cursor of `self` to the token just
    /// before the cursor of `next`.
    pub closed spec fn span_to(&self, next: &Parser) -> Span {
        self.tokens@[self.position as int].span.joined(next.tokens@[next.position - 1].span)
    }

    pub open spec fn cur_is_eof(&self) -> bool {
        self.cur() is EOF
    }

    /// `next` comes from `self` by parsing: same tokens, cursor not moved
    /// back, errors only added, restrictions as they were.
    pub closed spec fn steps_to(&self, next: &Parser) -> bool {
        &&& next.wf()
        &&& next.tokens@ == self.tokens@
        &&& next.position >= self.position
        &&& self.errors@.len() <= next.errors@.len()
        &&& forall|i: int| 0 <= i < self.errors@.len() ==> next.errors@[i] == #[trigger] self.errors@[i]
        &&& next.restrictions == self.restrictions
    }

    pub proof fn lemma_steps_trans(a: &Parser, b: &Parser, c: &Parser)
        requires
            a.steps_to(b),
            b.steps_to(c),
        ensures
            a.steps_to(c),
            c.pos() >= a.pos(),
            a.remaining() >= c.remaining(),
    {
    }

    pub proof fn lemma_steps_refl(a: &Parser)
        requires
            a.wf(),
        ensures
            a.steps_to(a),
    {
    }

    pub proof fn lemma_steps_facts(a: &Parser, b: &Parser)
        requires
            a.steps_to(b),
        ensures
            b.pos() >= a.pos(),
            a.remaining() >= b.remaining(),
            b.pos() > a.pos() ==> a.remaining() > b.remaining(),
            b.pos() == a.pos() ==> b.cur() == a.cur(),
            b.toks() == a.toks(),
    {
    }

    pub(crate) fn current(&self) -> (t: &Token)
        requires
            self.wf(),
        ensures
            *t == self.tokens@[self.position as int],
            t.kind == self.cur(),
    {
        &self.tokens[self.position]
    }

    pub(crate) fn previous(&self) -> (t: &Token)
        requires
            self.wf(),
            self.position >= 1,
        ensures
            *t == self.tokens@[self.position - 1],
    {
        &self.tokens[self.position - 1]
    }

    pub(crate) fn at_eof(&self) -> (r: bool)
        requires
            self.wf(),
        ensures
            r == self.cur_is_eof(),
    {
        self.current().kind.is_eof()
    }

    pub(crate) fn advance(&mut self)
        requires
            old(self).wf(),
        ensures
            old(self).steps_to(final(self)),
            final(self).errors@ == old(self).errors@,
            final(self).next_ast_id == old(self).next_ast_id,
            old(self).cur_is_eof() ==> final(self).position == old(self).position,
            !old(self).cur_is_eof() ==> final(self).position == old(self).position + 1,
    {
        proof {
            Self::lemma_steps_refl(self);
        }
        if !self.at_eof() {
            self.position = self.position + 1;
        }
    }

    pub(crate) fn current_is(&self, kind: &TokenKind) -> (r: bool)
        requires
            self.wf(),
        ensures
            r == same_kind(self.cur(), *kind),
    {
        kind_matches(&self.current().kind, kind)
    }

    /// Consumes the current token if it is of the given kind.
    pub(crate) fn consume(&mut self, kind: &TokenKind) -> (r: bool)
        requires
            old(self).wf(),
        ensures
            old(self).steps_to(final(self)),
            final(self).errors@ == old(self).errors@,
            final(self).next_ast_id == old(self).next_ast_id,
            r == same_kind(old(self).cur(), *kind),
            !r ==> final(self).position == old(self).position,
            r && !old(self).cur_is_eof() ==> final(self).position == old(self).position + 1,
            r && old(self).cur_is_eof() ==> final(self).position == old(self).position,
    {
        if self.current_is(kind) {
            self.advance();
            true
        } else {
            proof {
                Self::lemma_steps_refl(self);
            }
            false
        }
    }

    pub(crate) fn emit(&mut self, error: ParserError)
        requires
            old(self).wf(),
        ensures
            old(self).steps_to(final(self)),
            final(self).position == old(self).position,
            final(self).next_ast_id == old(self).next_ast_id,
            final(self).errors@ == old(self).errors@.push(error),
    {
        self.errors.push(error);
    }

    /// Wraps a node with its span and a fresh id.
    pub(crate) fn mk<T>(&mut self, node: T, span: Span) -> (n: AstNode<T>)
        requires
            old(self).wf(),
        ensures
            old(self).steps_to(final(self)),
            final(self).position == old(self).position,
            final(self).errors@ == old(self).errors@,
            n.node == node,
            n.span == span,
            n.ast_id == AstId(old(self).next_ast_id),
            old(self).next_ast_id < usize::MAX ==> final(self).next_ast_id == old(self).next_ast_id + 1,
    {
        proof {
            Self::lemma_steps_refl(self);
        }
        let id = self.next_ast_id;
        self.next_ast_id = self.next_ast_id.wrapping_add(1);
        AstNode::with_id(node, span, AstId(id))
    }

    pub(crate) fn is_junk_for_delim(&self, token: &TokenKind) -> (r: bool)
        ensures
            r == spec_is_junk_for_delim(*token),
    {
        match token {
            TokenKind::Keyword(_) => true,
            TokenKind::Punctuation(_) => true,
            _ => false,
        }
    }

    pub(crate) fn recover_to_separator_or_closing(&mut self, close: &TokenKind, separator: &TokenKind)
        requires
            old(self).wf(),
        ensures
            old(self).steps_to(final(self)),
            final(self).errors@ == old(self).errors@,
            final(self).next_ast_id == old(self).next_ast_id,
            final(self).cur_is_eof() || same_kind(final(self).cur(), *close) || same_kind(
                final(self).cur(),
                *separator,
            ),
            (!old(self).cur_is_eof() && !same_kind(old(self).cur(), *close) && !same_kind(
                old(self).cur(),
                *separator,
            )) ==> final(self).position > old(self).position,
    {
        proof {
            Self::lemma_steps_refl(self);
        }
        while !self.at_eof() && !self.current_is(close) && !self.current_is(separator)
            invariant
                old(self).steps_to(self),
                self.errors@ == old(self).errors@,
                self.next_ast_id == old(self).next_ast_id,
                (!old(self).cur_is_eof() && !same_kind(old(self).cur(), *close) && !same_kind(
                    old(self).cur(),
                    *separator,
                )) ==> self.position > old(self).position || self.position == old(self).position,
            decreases self.remaining(),
        {
            let ghost before = *self;
            self.advance();
            proof {
                Self::lemma_steps_trans(old(self), &before, self);
            }
        }
    }

    /// Skips to the next token that begins an item.
    pub(crate) fn recover_item(&mut self)
        requires
            old(self).wf(),
        ensures
            old(self).steps_to(final(self)),
            final(self).errors@ == old(self).errors@,
            final(self).next_ast_id == old(self).next_ast_id,
            (!old(self).cur_is_eof() && !spec_begins_item(old(self).cur()))
                ==> final(self).position > old(self).position,
            final(self).cur_is_eof() || spec_begins_item(final(self).cur()),
    {
        proof {
            Self::lemma_steps_refl(self);
        }
        while !self.at_eof() && !self.current().begins_item()
            invariant
                old(self).steps_to(self),
                self.errors@ == old(self).errors@,
                self.next_ast_id == old(self).next_ast_id,
                (!old(self).cur_is_eof() && !spec_begins_item(old(self).cur())) ==> (
                self.position > old(self).position || (self.position == old(self).position)),
            decreases self.remaining(),
        {
            let ghost before = *self;
            self.advance();
            proof {
                Self::lemma_steps_trans(old(self), &before, self);
            }
        }
    }
}

/// The kinds of list element the list parsers handle.
#[derive(Clone, Copy, PartialEq, Eq, Structural)]
pub enum ElemKind {
    Expr,
    Ty,
    Pattern,
    Param,
    GenericParam,
    GenericArg,
    EnumVariant,
    StructField,
    PatternStructField,
    MatchArm,
    StructExprField,
    Item,
    AssocItem,
}

/// A parsed list element.
pub enum Elem {
    Expr(AstNode<Expr>),
    Ty(AstNode<Ty>),
    Pattern(AstNode<Pattern>),
    Param(AstNode<Param>),
    GenericParam(AstNode<GenericParam>),
    GenericArg(AstNode<GenericArg>),
    EnumVariant(AstNode<EnumVariant>),
    StructField(AstNode<StructFieldDef>),
    PatternStructField(AstNode<PatternStructField>),
    MatchArm(AstNode<MatchArm>),
    StructExprField(AstNode<StructExprField>),
    Item(AstNode<Item>),
    AssocItem(AstNode<AssociatedItem>),
}

pub open spec fn elem_of_kind(e: Elem, k: ElemKind) -> bool {
    match e {
        Elem::Expr(_) => k == ElemKind::Expr,
        Elem::Ty(_) => k == ElemKind::Ty,
        Elem::Pattern(_) => k == ElemKind::Pattern,
        Elem::Param(_) => k == ElemKind::Param,
        Elem::GenericParam(_) => k == ElemKind::GenericParam,
        Elem::GenericArg(_) => k == ElemKind::GenericArg,
        Elem::EnumVariant(_) => k == ElemKind::EnumVariant,
        Elem::StructField(_) => k == ElemKind::StructField,
        Elem::PatternStructField(_) => k == ElemKind::PatternStructField,
        Elem::MatchArm(_) => k == ElemKind::MatchArm,
        Elem::StructExprField(_) => k == ElemKind::StructExprField,
        Elem::Item(_) => k == ElemKind::Item,
        Elem::AssocItem(_) => k == ElemKind::AssocItem,
    }
}

pub open spec fn all_of_kind(v: Seq<Elem>, k: ElemKind) -> bool {
    forall|i: int| 0 <= i < v.len() ==> elem_of_kind(#[trigger] v[i], k)
}

/// The elements in reverse order.
fn reverse_elems(v: Vec<Elem>) -> (r: Vec<Elem>)
    ensures
        r@ == v@.reverse(),
{
    let mut v = v;
    let ghost orig = v@;
    let mut r: Vec<Elem> = Vec::new();
    while v.len() > 0
        invariant
            v.len() <= orig.len(),
            v@ == orig.take(v.len() as int),
            r@ == orig.skip(v.len() as int).reverse(),
        decreases v.len(),
    {
        let ghost k = v.len() - 1;
        let e = v.pop().unwrap();
        assert(e == orig[k]);
        r.push(e);
        assert(v@ =~= orig.take(v.len() as int));
        assert(r@ =~= orig.skip(v.len() as int).reverse());
    }
    assert(orig.skip(0) =~= orig);
    r
}

fn into_exprs(v: Vec<Elem>) -> (r: Vec<AstNode<Expr>>)
    requires
        all_of_kind(v@, ElemKind::Expr),
    ensures
        r.len() == v.len(),
        forall|i: int| 0 <= i < r.len() ==> v@[i] == Elem::Expr(#[trigger] r@[i]),
{
    let n = v.len();
    let ghost vv = v@;
    let mut rev = reverse_elems(v);
    assert forall|i: int| 0 <= i < rev.len() implies elem_of_kind(#[trigger] rev@[i], ElemKind::Expr) by {
        assert(rev@[i] == vv[vv.len() - 1 - i]);
    }
    let mut r: Vec<AstNode<Expr>> = Vec::new();
    while rev.len() > 0
        invariant
            all_of_kind(rev@, ElemKind::Expr),
            r.len() + rev.len() == n,
            n == vv.len(),
            forall|j: int| 0 <= j < rev.len() ==> #[trigger] rev@[j] == vv[n - 1 - j],
            forall|j: int| 0 <= j < r.len() ==> vv[j] == Elem::Expr(#[trigger] r@[j]),
        decreases rev.len(),
    {
        let ghost before = rev@;
        let e = rev.pop().unwrap();
        assert(elem_of_kind(before[before.len() - 1], ElemKind::Expr));
        assert(forall|i: int| 0 <= i < rev.len() ==> rev@[i] == before[i]);
        assert(e == vv[r.len() as int]);
        match e {
            Elem::Expr(x) => r.push(x),
            _ => {},
        }
    }
    r
}

fn into_tys(v: Vec<Elem>) -> (r: Vec<AstNode<Ty>>)
    requires
        all_of_kind(v@, ElemKind::Ty),
    ensures
        r.len() == v.len(),
{
    let n = v.len();
    let ghost vv = v@;
    let mut rev = reverse_elems(v);
    assert forall|i: int| 0 <= i < rev.len() implies elem_of_kind(#[trigger] rev@[i], ElemKind::Ty) by {
        assert(rev@[i] == vv[vv.len() - 1 - i]);
    }
    let mut r: Vec<AstNode<Ty>> = Vec::new();
    while rev.len() > 0
        invariant
            all_of_kind(rev@, ElemKind::Ty),
            r.len() + rev.len() == n,
        decreases rev.len(),
    {
        let ghost before = rev@;
        let e = rev.pop().unwrap();
        assert(elem_of_kind(before[before.len() - 1], ElemKind::Ty));
        assert(forall|i: int| 0 <= i < rev.len() ==> rev@[i] == before[i]);
        match e {
            Elem::Ty(x) => r.push(x),
            _ => {},
        }
    }
    r
}

fn into_patterns(v: Vec<Elem>) -> (r: Vec<AstNode<Pattern>>)
    requires
        all_of_kind(v@, ElemKind::Pattern),
    ensures
        r.len() == v.len(),
{
    let n = v.len();
    let ghost vv = v@;
    let mut rev = reverse_elems(v);
    assert forall|i: int| 0 <= i < rev.len() implies elem_of_kind(#[trigger] rev@[i], ElemKind::Pattern) by {
        assert(rev@[i] == vv[vv.len() - 1 - i]);
    }
    let mut r: Vec<AstNode<Pattern>> = Vec::new();
    while rev.len() > 0
        invariant
            all_of_kind(rev@, ElemKind::Pattern),
            r.len() + rev.len() == n,
        decreases rev.len(),
    {
        let ghost before = rev@;
        let e = rev.pop().unwrap();
        assert(elem_of_kind(before[before.len() - 1], ElemKind::Pattern));
        assert(forall|i: int| 0 <= i < rev.len() ==> rev@[i] == before[i]);
        match e {
            Elem::Pattern(x) => r.push(x),
            _ => {},
        }
    }
    r
}

fn into_params(v: Vec<Elem>) -> (r: Vec<AstNode<Param>>)
    requires
        all_of_kind(v@, ElemKind::Param),
    ensures
        r.len() == v.len(),
{
    let n = v.len();
    let ghost vv = v@;
    let mut rev = reverse_elems(v);
    assert forall|i: int| 0 <= i < rev.len() implies elem_of_kind(#[trigger] rev@[i], ElemKind::Param) by {
        assert(rev@[i] == vv[vv.len() - 1 - i]);
    }
    let mut r: Vec<AstNode<Param>> = Vec::new();
    while rev.len() > 0
        invariant
            all_of_kind(rev@, ElemKind::Param),
            r.len() + rev.len() == n,
        decreases rev.len(),
    {
        let ghost before = rev@;
        let e = rev.pop().unwrap();
        assert(elem_of_kind(before[before.len() - 1], ElemKind::Param));
        assert(forall|i: int| 0 <= i < rev.len() ==> rev@[i] == before[i]);
        match e {
            Elem::Param(x) => r.push(x),
            _ => {},
        }
    }
    r
}

/// How the items of a crate come from its tokens, from position `from` on:
/// an item is tried at each position of `attempts` in turn; the tries at
/// the positions of `starts` gave the items, in order, each of the form its
/// first token calls for and starting at that token; every other try
/// reported an error.
pub open spec fn crate_items_parsed(
    toks: Seq<Token>,
    from: int,
    items: Seq<AstNode<Item>>,
    new_errors: int,
    attempts: Seq<int>,
    starts: Seq<int>,
) -> bool {
    &&& attempts.len() > 0 ==> attempts[0] == from
    &&& forall|k: int| 0 <= k < attempts.len() ==> from <= #[trigger] attempts[k] < toks.len()
    &&& forall|k: int, l: int| 0 <= k < l < attempts.len() ==> attempts[k] < attempts[l]
    &&& starts.len() == items.len()
    &&& forall|i: int| 0 <= i < starts.len() ==> attempts.contains(#[trigger] starts[i])
    &&& forall|i: int, j: int| 0 <= i < j < starts.len() ==> starts[i] < starts[j]
    &&& forall|i: int|
        0 <= i < items.len() ==> item_form(toks[starts[i]].kind, #[trigger] items[i].node) && item_named(toks, starts[i], items[i].node) && items[i].span.offset
            == toks[starts[i]].span.offset
    &&& attempts.len() <= starts.len() + new_errors
}

/// An item that begins at `i` with its keyword and has a name takes it
/// from the token after the keyword (an empty name where that token is no
/// identifier).
pub open spec fn item_named(toks: Seq<Token>, i: int, it: Item) -> bool {
    let name = ident_text(toks[i + 1].kind);
    match it {
        Item::Fn(f) => f.sig.node.ident.node.name@ == name,
        Item::Struct(x) => x.ident.node.name@ == name,
        Item::Enum(x) => x.ident.node.name@ == name,
        Item::Trait(x) => x.ident.node.name@ == name,
        Item::Mod(x) => x.ident.node.name@ == name,
        Item::Const(x) => x.ident.node.name@ == name,
        Item::TyAlias(x) => x.ident.node.name@ == name,
        _ => true,
    }
}

/// The token at `i` is a name that the next token neither continues as a
/// path (`::`, `<`), nor opens a struct expression (`{`) after, nor goes on
/// from as an expression: on its own it is a whole expression.
pub open spec fn lone_name_at(toks: Seq<Token>, i: int) -> bool {
    &&& 0 <= i
    &&& i + 1 < toks.len()
    &&& toks[i].kind is Ident
    &&& !same_kind(toks[i + 1].kind, TokenKind::Punctuation(Punct::Less))
    &&& !same_kind(toks[i + 1].kind, TokenKind::Punctuation(Punct::ColonColon))
    &&& !same_kind(toks[i + 1].kind, TokenKind::OpeningDelimiter(Delimiter::Brace))
    &&& !continues_expr(toks[i + 1].kind)
}

/// The text of an identifier token (empty for another token).
pub open spec fn ident_text(k: TokenKind) -> Seq<char> {
    match k {
        TokenKind::Ident(name) => name@,
        _ => Seq::<char>::empty(),
    }
}

/// The position after `p`.
pub open spec fn next_pos(p: int) -> int {
    p + 1
}

/// Where the `j`-th name of a list that begins at `i` stands.
pub open spec fn list_pos(i: int, j: int) -> int {
    i + 2 * j
}

/// From `i` on, the tokens are `n` lone names, one after each `sep` but the
/// first, then `close`, with one more `sep` before it when `trailing`.
pub open spec fn name_list_at(toks: Seq<Token>, i: int, n: int, sep: TokenKind, close: TokenKind, trailing: bool) -> bool {
    &&& n >= 1
    &&& list_pos(i, n) + (if trailing { 1int } else { 0int }) <= toks.len()
    &&& forall|j: int| 0 <= j < n ==> #[trigger] lone_name_at(toks, list_pos(i, j))
    &&& forall|j: int| 0 <= j < n - 1 ==> same_kind(toks[#[trigger] list_pos(i, j) + 1].kind, sep)
    &&& trailing ==> same_kind(toks[list_pos(i, n) - 1].kind, sep) && same_kind(toks[list_pos(i, n)].kind, close)
    &&& !trailing ==> same_kind(toks[list_pos(i, n) - 1].kind, close)
}

/// The first `k` elements are expressions that are the paths of the names
/// of the list that begins at `i`, in order.
pub open spec fn names_listed(v: Seq<Elem>, toks: Seq<Token>, i: int, k: int) -> bool {
    &&& v.len() >= k
    &&& forall|j: int| 0 <= j < k ==> (#[trigger] v[j] matches Elem::Expr(e) && names_single_path(
        e.node,
        ident_text(toks[list_pos(i, j)].kind),
    ))
}

/// A list of names has one length and one ending.
pub proof fn lemma_name_list_unique(
    toks: Seq<Token>,
    i: int,
    sep: TokenKind,
    close: TokenKind,
    n1: int,
    t1: bool,
    n2: int,
    t2: bool,
)
    requires
        close is ClosingDelimiter,
        !same_kind(close, sep),
        name_list_at(toks, i, n1, sep, close, t1),
        name_list_at(toks, i, n2, sep, close, t2),
    ensures
        n1 == n2 && t1 == t2,
{
    if n1 < n2 {
        assert(lone_name_at(toks, list_pos(i, n1)));
        assert(same_kind(toks[list_pos(i, n1 - 1) + 1].kind, sep));
        assert(list_pos(i, n1 - 1) + 1 == list_pos(i, n1) - 1);
    } else if n2 < n1 {
        assert(lone_name_at(toks, list_pos(i, n2)));
        assert(same_kind(toks[list_pos(i, n2 - 1) + 1].kind, sep));
        assert(list_pos(i, n2 - 1) + 1 == list_pos(i, n2) - 1);
    }
}

/// The first element is an expression that is the path of the one name
/// `name`.
pub open spec fn first_names(v: Seq<Elem>, name: Seq<char>) -> bool {
    &&& v.len() >= 1
    &&& v[0] matches Elem::Expr(e)
    &&& names_single_path(e.node, name)
}

/// The expression is the path of the one name `name`, without generic
/// arguments.
pub open spec fn names_single_path(e: Expr, name: Seq<char>) -> bool {
    &&& e matches Expr::Path(p)
    &&& p.path.node.segments@.len() == 1
    &&& p.path.node.segments@[0].node.ident.node.name@ == name
    &&& p.path.node.segments@[0].node.args@.len() == 0
}

/// The token at `i` is a name that the next token neither continues as a
/// path (`::`, `<`) nor opens a struct expression (`{`) after.
pub open spec fn plain_name_at(toks: Seq<Token>, i: int) -> bool {
    &&& 0 <= i
    &&& i + 1 < toks.len()
    &&& toks[i].kind is Ident
    &&& !same_kind(toks[i + 1].kind, TokenKind::Punctuation(Punct::Less))
    &&& !same_kind(toks[i + 1].kind, TokenKind::Punctuation(Punct::ColonColon))
    &&& !same_kind(toks[i + 1].kind, TokenKind::OpeningDelimiter(Delimiter::Brace))
}

/// From `i` on, the tokens are a name, a binary operator that binds at
/// least as tight as `min_prec`, and a lone name.
pub open spec fn binary_of_names_at(toks: Seq<Token>, i: int, min_prec: u8) -> bool {
    &&& plain_name_at(toks, i)
    &&& spec_bin_op(toks[i + 1].kind) is Some
    &&& spec_precedence(toks[i + 1].kind).0 >= min_prec
    &&& lone_name_at(toks, i + 2)
}

/// The expression applies the binary operator of the token `op` to the
/// paths of the names `left` and `right`.
pub open spec fn binary_of_names(e: Expr, op: TokenKind, left: Seq<char>, right: Seq<char>) -> bool {
    &&& e matches Expr::Binary(b)
    &&& spec_bin_op(op) == Some(b.operator.node)
    &&& names_single_path(b.left.node, left)
    &&& names_single_path(b.right.node, right)
}

/// From `i` on, the tokens are a name and a binary operator that binds
/// looser (to its left) than `min_prec`.
pub open spec fn name_then_looser_at(toks: Seq<Token>, i: int, min_prec: u8) -> bool {
    &&& plain_name_at(toks, i)
    &&& spec_bin_op(toks[i + 1].kind) is Some
    &&& spec_precedence(toks[i + 1].kind).0 < min_prec
}

/// From `i` on, the tokens are a name, a binary operator, a name, a second
/// binary operator and a lone name, both operators binding at least as
/// tight as `min_prec`.
pub open spec fn chain_of_three_at(toks: Seq<Token>, i: int, min_prec: u8) -> bool {
    &&& plain_name_at(toks, i)
    &&& spec_bin_op(toks[i + 1].kind) is Some
    &&& spec_precedence(toks[i + 1].kind).0 >= min_prec
    &&& plain_name_at(toks, i + 2)
    &&& spec_bin_op(toks[i + 3].kind) is Some
    &&& spec_precedence(toks[i + 3].kind).0 >= min_prec
    &&& lone_name_at(toks, i + 4)
}

/// How a chain of three names and two binary operators from `i` on groups:
/// to the right when the second operator binds at least as tight as the
/// first binds to its right, otherwise to the left.
pub open spec fn chain_of_three(e: Expr, toks: Seq<Token>, i: int) -> bool {
    let op1 = toks[i + 1].kind;
    let op2 = toks[i + 3].kind;
    let a = ident_text(toks[i].kind);
    let b = ident_text(toks[i + 2].kind);
    let c = ident_text(toks[i + 4].kind);
    if spec_precedence(op2).0 >= spec_precedence(op1).1 {
        &&& e matches Expr::Binary(x)
        &&& spec_bin_op(op1) == Some(x.operator.node)
        &&& names_single_path(x.left.node, a)
        &&& binary_of_names(x.right.node, op2, b, c)
    } else {
        &&& e matches Expr::Binary(x)
        &&& spec_bin_op(op2) == Some(x.operator.node)
        &&& binary_of_names(x.left.node, op1, a, b)
        &&& names_single_path(x.right.node, c)
    }
}

/// From `i` on, the tokens are a name, `=` and a lone name, where `=` may
/// stand at the level `min_prec`.
pub open spec fn assign_of_names_at(toks: Seq<Token>, i: int, min_prec: u8) -> bool {
    &&& plain_name_at(toks, i)
    &&& toks[i + 1].kind == TokenKind::Punctuation(Punct::Eq)
    &&& min_prec <= 1
    &&& lone_name_at(toks, i + 2)
}

/// From `i` on, the tokens are a name, `=`, a name, `=` and a lone name,
/// where `=` may stand at the level `min_prec`.
pub open spec fn assign_chain_at(toks: Seq<Token>, i: int, min_prec: u8) -> bool {
    &&& plain_name_at(toks, i)
    &&& toks[i + 1].kind == TokenKind::Punctuation(Punct::Eq)
    &&& min_prec <= 1
    &&& assign_of_names_at(toks, i + 2, 0)
}

/// The expression assigns the path of the name `value` to that of `target`.
pub open spec fn assign_of_names(e: Expr, target: Seq<char>, value: Seq<char>) -> bool {
    &&& e matches Expr::Assign(a)
    &&& names_single_path(a.target.node, target)
    &&& names_single_path(a.value.node, value)
}

/// The expression assigns to the path of `a` what assigns the path of `c`
/// to that of `b`: assignment groups to the right.
pub open spec fn assign_chain(e: Expr, a: Seq<char>, b: Seq<char>, c: Seq<char>) -> bool {
    &&& e matches Expr::Assign(x)
    &&& names_single_path(x.target.node, a)
    &&& assign_of_names(x.value.node, b, c)
}

/// A type that begins with this token is a path or a parenthesized list of
/// types: it is neither an array, a pointer nor a function type.
pub open spec fn begins_plain_type(k: TokenKind) -> bool {
    &&& !same_kind(k, TokenKind::OpeningDelimiter(Delimiter::Bracket))
    &&& !same_kind(k, TokenKind::Punctuation(Punct::Star))
    &&& !same_kind(k, TokenKind::Keyword(Kw::Fn))
}

fn into_generic_params(v: Vec<Elem>) -> (r: Vec<AstNode<GenericParam>>)
    requires
        all_of_kind(v@, ElemKind::GenericParam),
    ensures
        r.len() == v.len(),
{
    let n = v.len();
    let ghost vv = v@;
    let mut rev = reverse_elems(v);
    assert forall|i: int| 0 <= i < rev.len() implies elem_of_kind(#[trigger] rev@[i], ElemKind::GenericParam) by {
        assert(rev@[i] == vv[vv.len() - 1 - i]);
    }
    let mut r: Vec<AstNode<GenericParam>> = Vec::new();
    while rev.len() > 0
        invariant
            all_of_kind(rev@, ElemKind::GenericParam),
            r.len() + rev.len() == n,
        decreases rev.len(),
    {
        let ghost before = rev@;
        let e = rev.pop().unwrap();
        assert(elem_of_kind(before[before.len() - 1], ElemKind::GenericParam));
        assert(forall|i: int| 0 <= i < rev.len() ==> rev@[i] == before[i]);
        match e {
            Elem::GenericParam(x) => r.push(x),
            _ => {},
        }
    }
    r
}

fn into_generic_args(v: Vec<Elem>) -> (r: Vec<AstNode<GenericArg>>)
    requires
        all_of_kind(v@, ElemKind::GenericArg),
    ensures
        r.len() == v.len(),
{
    let n = v.len();
    let ghost vv = v@;
    let mut rev = reverse_elems(v);
    assert forall|i: int| 0 <= i < rev.len() implies elem_of_kind(#[trigger] rev@[i], ElemKind::GenericArg) by {
        assert(rev@[i] == vv[vv.len() - 1 - i]);
    }
    let mut r: Vec<AstNode<GenericArg>> = Vec::new();
    while rev.len() > 0
        invariant
            all_of_kind(rev@, ElemKind::GenericArg),
            r.len() + rev.len() == n,
        decreases rev.len(),
    {
        let ghost before = rev@;
        let e = rev.pop().unwrap();
        assert(elem_of_kind(before[before.len() - 1], ElemKind::GenericArg));
        assert(forall|i: int| 0 <= i < rev.len() ==> rev@[i] == before[i]);
        match e {
            Elem::GenericArg(x) => r.push(x),
            _ => {},
        }
    }
    r
}

fn into_enum_variants(v: Vec<Elem>) -> (r: Vec<AstNode<EnumVariant>>)
    requires
        all_of_kind(v@, ElemKind::EnumVariant),
    ensures
        r.len() == v.len(),
{
    let n = v.len();
    let ghost vv = v@;
    let mut rev = reverse_elems(v);
    assert forall|i: int| 0 <= i < rev.len() implies elem_of_kind(#[trigger] rev@[i], ElemKind::EnumVariant) by {
        assert(rev@[i] == vv[vv.len() - 1 - i]);
    }
    let mut r: Vec<AstNode<EnumVariant>> = Vec::new();
    while rev.len() > 0
        invariant
            all_of_kind(rev@, ElemKind::EnumVariant),
            r.len() + rev.len() == n,
        decreases rev.len(),
    {
        let ghost before = rev@;
        let e = rev.pop().unwrap();
        assert(elem_of_kind(before[before.len() - 1], ElemKind::EnumVariant));
        assert(forall|i: int| 0 <= i < rev.len() ==> rev@[i] == before[i]);
        match e {
            Elem::EnumVariant(x) => r.push(x),
            _ => {},
        }
    }
    r
}

fn into_struct_fields(v: Vec<Elem>) -> (r: Vec<AstNode<StructFieldDef>>)
    requires
        all_of_kind(v@, ElemKind::StructField),
    ensures
        r.len() == v.len(),
{
    let n = v.len();
    let ghost vv = v@;
    let mut rev = reverse_elems(v);
    assert forall|i: int| 0 <= i < rev.len() implies elem_of_kind(#[trigger] rev@[i], ElemKind::StructField) by {
        assert(rev@[i] == vv[vv.len() - 1 - i]);
    }
    let mut r: Vec<AstNode<StructFieldDef>> = Vec::new();
    while rev.len() > 0
        invariant
            all_of_kind(rev@, ElemKind::StructField),
            r.len() + rev.len() == n,
        decreases rev.len(),
    {
        let ghost before = rev@;
        let e = rev.pop().unwrap();
        assert(elem_of_kind(before[before.len() - 1], ElemKind::StructField));
        assert(forall|i: int| 0 <= i < rev.len() ==> rev@[i] == before[i]);
        match e {
            Elem::StructField(x) => r.push(x),
            _ => {},
        }
    }
    r
}

fn into_pattern_struct_fields(v: Vec<Elem>) -> (r: Vec<AstNode<PatternStructField>>)
    requires
        all_of_kind(v@, ElemKind::PatternStructField),
    ensures
        r.len() == v.len(),
{
    let n = v.len();
    let ghost vv = v@;
    let mut rev = reverse_elems(v);
    assert forall|i: int| 0 <= i < rev.len() implies elem_of_kind(#[trigger] rev@[i], ElemKind::PatternStructField) by {
        assert(rev@[i] == vv[vv.len() - 1 - i]);
    }
    let mut r: Vec<AstNode<PatternStructField>> = Vec::new();
    while rev.len() > 0
        invariant
            all_of_kind(rev@, ElemKind::PatternStructField),
            r.len() + rev.len() == n,
        decreases rev.len(),
    {
        let ghost before = rev@;
        let e = rev.pop().unwrap();
        assert(elem_of_kind(before[before.len() - 1], ElemKind::PatternStructField));
        assert(forall|i: int| 0 <= i < rev.len() ==> rev@[i] == before[i]);
        match e {
            Elem::PatternStructField(x) => r.push(x),
            _ => {},
        }
    }
    r
}

fn into_match_arms(v: Vec<Elem>) -> (r: Vec<AstNode<MatchArm>>)
    requires
        all_of_kind(v@, ElemKind::MatchArm),
    ensures
        r.len() == v.len(),
{
    let n = v.len();
    let ghost vv = v@;
    let mut rev = reverse_elems(v);
    assert forall|i: int| 0 <= i < rev.len() implies elem_of_kind(#[trigger] rev@[i], ElemKind::MatchArm) by {
        assert(rev@[i] == vv[vv.len() - 1 - i]);
    }
    let mut r: Vec<AstNode<MatchArm>> = Vec::new();
    while rev.len() > 0
        invariant
            all_of_kind(rev@, ElemKind::MatchArm),
            r.len() + rev.len() == n,
        decreases rev.len(),
    {
        let ghost before = rev@;
        let e = rev.pop().unwrap();
        assert(elem_of_kind(before[before.len() - 1], ElemKind::MatchArm));
        assert(forall|i: int| 0 <= i < rev.len() ==> rev@[i] == before[i]);
        match e {
            Elem::MatchArm(x) => r.push(x),
            _ => {},
        }
    }
    r
}

fn into_struct_expr_fields(v: Vec<Elem>) -> (r: Vec<AstNode<StructExprField>>)
    requires
        all_of_kind(v@, ElemKind::StructExprField),
    ensures
        r.len() == v.len(),
{
    let n = v.len();
    let ghost vv = v@;
    let mut rev = reverse_elems(v);
    assert forall|i: int| 0 <= i < rev.len() implies elem_of_kind(#[trigger] rev@[i], ElemKind::StructExprField) by {
        assert(rev@[i] == vv[vv.len() - 1 - i]);
    }
    let mut r: Vec<AstNode<StructExprField>> = Vec::new();
    while rev.len() > 0
        invariant
            all_of_kind(rev@, ElemKind::StructExprField),
            r.len() + rev.len() == n,
        decreases rev.len(),
    {
        let ghost before = rev@;
        let e = rev.pop().unwrap();
        assert(elem_of_kind(before[before.len() - 1], ElemKind::StructExprField));
        assert(forall|i: int| 0 <= i < rev.len() ==> rev@[i] == before[i]);
        match e {
            Elem::StructExprField(x) => r.push(x),
            _ => {},
        }
    }
    r
}

fn into_items(v: Vec<Elem>) -> (r: Vec<AstNode<Item>>)
    requires
        all_of_kind(v@, ElemKind::Item),
    ensures
        r.len() == v.len(),
{
    let n = v.len();
    let ghost vv = v@;
    let mut rev = reverse_elems(v);
    assert forall|i: int| 0 <= i < rev.len() implies elem_of_kind(#[trigger] rev@[i], ElemKind::Item) by {
        assert(rev@[i] == vv[vv.len() - 1 - i]);
    }
    let mut r: Vec<AstNode<Item>> = Vec::new();
    while rev.len() > 0
        invariant
            all_of_kind(rev@, ElemKind::Item),
            r.len() + rev.len() == n,
        decreases rev.len(),
    {
        let ghost before = rev@;
        let e = rev.pop().unwrap();
        assert(elem_of_kind(before[before.len() - 1], ElemKind::Item));
        assert(forall|i: int| 0 <= i < rev.len() ==> rev@[i] == before[i]);
        match e {
            Elem::Item(x) => r.push(x),
            _ => {},
        }
    }
    r
}

fn into_assoc_items(v: Vec<Elem>) -> (r: Vec<AstNode<AssociatedItem>>)
    requires
        all_of_kind(v@, ElemKind::AssocItem),
    ensures
        r.len() == v.len(),
{
    let n = v.len();
    let ghost vv = v@;
    let mut rev = reverse_elems(v);
    assert forall|i: int| 0 <= i < rev.len() implies elem_of_kind(#[trigger] rev@[i], ElemKind::AssocItem) by {
        assert(rev@[i] == vv[vv.len() - 1 - i]);
    }
    let mut r: Vec<AstNode<AssociatedItem>> = Vec::new();
    while rev.len() > 0
        invariant
            all_of_kind(rev@, ElemKind::AssocItem),
            r.len() + rev.len() == n,
        decreases rev.len(),
    {
        let ghost before = rev@;
        let e = rev.pop().unwrap();
        assert(elem_of_kind(before[before.len() - 1], ElemKind::AssocItem));
        assert(forall|i: int| 0 <= i < rev.len() ==> rev@[i] == before[i]);
        match e {
            Elem::AssocItem(x) => r.push(x),
            _ => {},
        }
    }
    r
}

impl Parser {
    pub fn new(tokens: Vec<Token>) -> (p: Parser)
        requires
            tokens_parsable(tokens@),
        ensures
            p.wf(),
            p.toks() == tokens@,
            p.pos() == 0,
            p.cur() == tokens@[0].kind,
            p.errs().len() == 0,
    {
        Parser {
            tokens,
            position: 0,
            restrictions: Restrictions { forbid_struct_expr: false },
            next_ast_id: 0,
            errors: Vec::new(),
        }
    }

    pub fn errors(&self) -> (r: &Vec<ParserError>)
        ensures
            r@ == self.errs(),
    {
        &self.errors
    }

    /// The keyword at the cursor, if it is one.
    fn cur_kw(&self) -> (r: Option<Kw>)
        requires
            self.wf(),
        ensures
            r == match self.cur() {
                TokenKind::Keyword(k) => Some(k),
                _ => None,
            },
    {
        match &self.current().kind {
            TokenKind::Keyword(k) => Some(*k),
            _ => None,
        }
    }

    fn cur_is_ident(&self) -> (r: bool)
        requires
            self.wf(),
        ensures
            r == self.cur() is Ident,
    {
        match &self.current().kind {
            TokenKind::Ident(_) => true,
            _ => false,
        }
    }

    /// The error for an unexpected token at the cursor.
    fn unexpected(&self, expected: TokenKind) -> (e: ParserError)
        requires
            self.wf(),
        ensures
            e == (ParserError::UnexpectedToken {
                span: self.tokens@[self.position as int].span,
                found: self.cur(),
                expected,
            }),
    {
        ParserError::UnexpectedToken {
            span: self.current().span,
            found: clone_kind(&self.current().kind),
            expected,
        }
    }

    /// Parses items up to the end of the tokens, skipping to the next item
    /// after an error.
    pub fn parse_crate(&mut self) -> (krate: Crate)
        requires
            old(self).wf(),
        ensures
            old(self).steps_to(final(self)),
            final(self).cur_is_eof(),
            old(self).cur_is_eof() ==> *final(self) == *old(self) && krate.items@.len() == 0,
            old(self).pos() == 0 && old(self).cur_is_eof() ==> krate.span == old(self).toks()[0].span,
            !(old(self).pos() == 0 && old(self).cur_is_eof()) ==> krate.span == old(self).span_to(final(self)),
            exists|attempts: Seq<int>, starts: Seq<int>|
                #[trigger] crate_items_parsed(
                    old(self).toks(),
                    old(self).pos() as int,
                    krate.items@,
                    final(self).errs().len() - old(self).errs().len(),
                    attempts,
                    starts,
                ) && (!old(self).cur_is_eof() ==> attempts.len() > 0),
            !old(self).cur_is_eof() && !begins_item_kw(old(self).cur()) ==> final(self).errs().len() > old(
                self,
            ).errs().len() && final(self).errs()[old(self).errs().len() as int] == (ParserError::ExpectedItem {
                span: old(self).toks()[old(self).pos() as int].span,
                found: old(self).cur(),
            }),
            !old(self).cur_is_eof() && !begins_item_kw(old(self).cur()) && (forall|i: int|
                old(self).pos() <= i < old(self).toks().len() ==> !spec_begins_item(#[trigger] old(self).toks()[i].kind))
                ==> krate.items@.len() == 0 && final(self).errs() == old(self).errs().push(
                ParserError::ExpectedItem {
                    span: old(self).toks()[old(self).pos() as int].span,
                    found: old(self).cur(),
                },
            ),
    {
        let lo = self.current().span;
        let mut items: Vec<AstNode<Item>> = Vec::new();
        if self.position == 0 && self.at_eof() {
            proof {
                assert(crate_items_parsed(
                    old(self).toks(),
                    old(self).pos() as int,
                    items@,
                    self.errs().len() - old(self).errs().len(),
                    Seq::<int>::empty(),
                    Seq::<int>::empty(),
                ));
            }
            let ghost iv = items@;
            let krate = Crate { items, span: lo };
            assert(krate.items@ == iv);
            return krate;
        }
        let ghost mut attempts: Seq<int> = Seq::empty();
        let ghost mut starts: Seq<int> = Seq::empty();
        proof {
            Self::lemma_steps_refl(self);
        }
        while !self.at_eof()
            invariant
                old(self).steps_to(self),
                self.position >= 1 || self.position == old(self).position,
                old(self).pos() >= 1 || !old(self).cur_is_eof(),
                crate_items_parsed(
                    old(self).toks(),
                    old(self).pos() as int,
                    items@,
                    self.errs().len() - old(self).errs().len(),
                    attempts,
                    starts,
                ),
                forall|k: int| 0 <= k < attempts.len() ==> #[trigger] attempts[k] < self.pos(),
                attempts.len() == 0 <==> self.position == old(self).position,
                attempts.len() == 0 ==> *self == *old(self),
                old(self).cur_is_eof() ==> attempts.len() == 0,
                !old(self).cur_is_eof() && !begins_item_kw(old(self).cur()) && (forall|i: int|
                    old(self).pos() <= i < old(self).toks().len() ==> !spec_begins_item(#[trigger] old(self).toks()[i].kind))
                    && self.position != old(self).position ==> self.cur_is_eof() && items@.len() == 0 && self.errs()
                    == old(self).errs().push(
                    ParserError::ExpectedItem {
                        span: old(self).toks()[old(self).pos() as int].span,
                        found: old(self).cur(),
                    },
                ),
                starts.len() <= attempts.len(),
                !old(self).cur_is_eof() && !begins_item_kw(old(self).cur()) && self.position != old(self).position
                    ==> self.errs().len() > old(self).errs().len() && self.errs()[old(self).errs().len() as int]
                    == (ParserError::ExpectedItem {
                    span: old(self).toks()[old(self).pos() as int].span,
                    found: old(self).cur(),
                }),
            decreases self.remaining(),
        {
            let ghost before = *self;
            let ghost p = self.pos() as int;
            let ghost old_attempts = attempts;
            let ghost old_starts = starts;
            match self.parse_item() {
                Ok(item) => {
                    items.push(item);
                    proof {
                        starts = starts.push(p);
                    }
                },
                Err(err) => {
                    self.emit(err);
                    self.recover_item();
                },
            }
            proof {
                attempts = old_attempts.push(p);
                Self::lemma_steps_trans(old(self), &before, self);
                assert(attempts[old_attempts.len() as int] == p);
                assert(attempts.drop_last() =~= old_attempts);
                assert forall|i: int| 0 <= i < starts.len() implies attempts.contains(#[trigger] starts[i]) by {
                    if i < old_starts.len() {
                        assert(starts[i] == old_starts[i]);
                        assert(old_attempts.contains(old_starts[i]));
                        let j = choose|j: int| 0 <= j < old_attempts.len() && old_attempts[j] == old_starts[i];
                        assert(attempts[j] == starts[i]);
                    } else {
                        assert(attempts[old_attempts.len() as int] == starts[i]);
                    }
                }
            }
        }
        proof {
            assert(crate_items_parsed(
                old(self).toks(),
                old(self).pos() as int,
                items@,
                self.errs().len() - old(self).errs().len(),
                attempts,
                starts,
            ));
        }
        let span = lo.to(self.previous().span);
        let ghost iv = items@;
        let krate = Crate { items, span };
        assert(krate.items@ == iv);
        krate
    }

    fn parse_item(&mut self) -> (r: Result<AstNode<Item>, ParserError>)
        requires
            old(self).wf(),
            old(self).position >= 1 || !old(self).cur_is_eof(),
        ensures
            old(self).steps_to(final(self)),
            final(self).position > old(self).position || (r is Err && !spec_begins_item(
                old(self).cur(),
            ) && final(self).position == old(self).position),
            r matches Ok(i) ==> item_form(old(self).cur(), i.node),
            r matches Ok(i) ==> item_named(old(self).toks(), old(self).pos() as int, i.node),
            !begins_item_kw(old(self).cur()) ==> *final(self) == *old(self) && r == Err::<AstNode<Item>, ParserError>(
                ParserError::ExpectedItem {
                    span: old(self).toks()[old(self).pos() as int].span,
                    found: old(self).cur(),
                },
            ),
            r matches Ok(n) ==> n.span == old(self).span_to(final(self)),
        decreases old(self).remaining(), 44nat,
    {
        match self.cur_kw() {
            Some(Kw::Fn) => self.parse_fn_item(),
            Some(Kw::Struct) => self.parse_struct_item(),
            Some(Kw::Enum) => self.parse_enum_item(),
            Some(Kw::Trait) => self.parse_trait_item(),
            Some(Kw::Mod) => self.parse_mod_item(),
            Some(Kw::Impl) => self.parse_impl_item(),
            Some(Kw::Extern) => self.parse_extern_fn_item(),
            Some(Kw::Const) => self.parse_const_item(),
            Some(Kw::Use) => self.parse_use_item(),
            Some(Kw::Type) => self.parse_type_alias_item(),
            _ => {
                proof {
                    Self::lemma_steps_refl(self);
                }
                Err(
                    ParserError::ExpectedItem {
                        span: self.current().span,
                        found: clone_kind(&self.current().kind),
                    },
                )
            },
        }
    }

    fn parse_type_alias(&mut self) -> (r: Result<AstNode<TyAliasDecl>, ParserError>)
        requires
            old(self).wf(),
            old(self).cur() == TokenKind::Keyword(Kw::Type),
        ensures
            r matches Ok(d) ==> d.node.ident.node.name@ == ident_text(old(self).toks()[old(self).pos() + 1int].kind),
            old(self).steps_to(final(self)),
            final(self).position > old(self).position,
            r matches Ok(n) ==> n.span == old(self).span_to(final(self)),
            old(self).pos() + 2 < old(self).toks().len() && old(self).toks()[old(self).pos() + 1int].kind is Ident && same_kind(
                old(self).toks()[old(self).pos() + 2int].kind,
                TokenKind::Punctuation(Punct::Semicolon),
            ) ==> r is Ok,
        decreases old(self).remaining(), 0nat,
    {
        let lo = self.current().span;
        self.advance();
        let ident = self.parse_ident()?;
        let generics = self.parse_generic_params()?;
        self.consume(&TokenKind::Punctuation(Punct::Eq));
        let ty = if self.current_is(&TokenKind::Punctuation(Punct::Semicolon)) {
            self.advance();
            None
        } else {
            let ty = self.parse_type()?;
            self.consume(&TokenKind::Punctuation(Punct::Semicolon));
            Some(ty)
        };
        let span = lo.to(self.previous().span);
        Ok(self.mk(TyAliasDecl { ident, generics, ty }, span))
    }

    fn parse_extern_fn_item(&mut self) -> (r: Result<AstNode<Item>, ParserError>)
        requires
            old(self).wf(),
            old(self).cur() == TokenKind::Keyword(Kw::Extern),
        ensures
            old(self).steps_to(final(self)),
            final(self).position > old(self).position,
            r matches Ok(i) ==> i.node is ExternFn,
            r matches Ok(n) ==> n.span == old(self).span_to(final(self)),
        decreases old(self).remaining(), 0nat,
    {
        let lo = self.current().span;
        self.advance();
        let sig = self.parse_fn_sig()?;
        self.consume(&TokenKind::Punctuation(Punct::Semicolon));
        let span = lo.to(self.previous().span);
        Ok(self.mk(Item::ExternFn(ExternFnDecl { sig }), span))
    }

    fn parse_const_item(&mut self) -> (r: Result<AstNode<Item>, ParserError>)
        requires
            old(self).wf(),
            old(self).cur() == TokenKind::Keyword(Kw::Const),
        ensures
            r matches Ok(n) ==> item_named(old(self).toks(), old(self).pos() as int, n.node),
            old(self).steps_to(final(self)),
            final(self).position > old(self).position,
            r matches Ok(i) ==> i.node is Const,
            r matches Ok(n) ==> n.span == old(self).span_to(final(self)),
        decreases old(self).remaining(), 0nat,
    {
        let lo = self.current().span;
        self.advance();
        let ident = self.parse_ident()?;
        let generics = self.parse_generic_params()?;
        let type_annotation = if self.consume(&TokenKind::Punctuation(Punct::Colon)) {
            Some(self.parse_type()?)
        } else {
            None
        };
        self.consume(&TokenKind::Punctuation(Punct::Eq));
        let expr = self.parse_expression()?;
        self.consume(&TokenKind::Punctuation(Punct::Semicolon));
        let span = lo.to(self.previous().span);
        Ok(self.mk(Item::Const(ConstDecl { ident, generics, type_annotation, expr }), span))
    }

    fn parse_use_item(&mut self) -> (r: Result<AstNode<Item>, ParserError>)
        requires
            old(self).wf(),
            old(self).cur() == TokenKind::Keyword(Kw::Use),
        ensures
            old(self).steps_to(final(self)),
            final(self).position > old(self).position,
            r matches Ok(i) ==> i.node is Use,
            r matches Ok(n) ==> n.span == old(self).span_to(final(self)),
        decreases old(self).remaining(), 0nat,
    {
        let lo = self.current().span;
        self.advance();
        let path = self.parse_path()?;
        self.consume(&TokenKind::Punctuation(Punct::Semicolon));
        let span = lo.to(self.previous().span);
        Ok(self.mk(Item::Use(UseItem { path }), span))
    }

    fn parse_type_alias_item(&mut self) -> (r: Result<AstNode<Item>, ParserError>)
        requires
            old(self).wf(),
            old(self).cur() == TokenKind::Keyword(Kw::Type),
        ensures
            r matches Ok(n) ==> item_named(old(self).toks(), old(self).pos() as int, n.node),
            old(self).steps_to(final(self)),
            final(self).position > old(self).position,
            r matches Ok(i) ==> i.node is TyAlias,
            r matches Ok(n) ==> n.span == old(self).span_to(final(self)),
        decreases old(self).remaining(), 43nat,
    {
        let ty_alias = self.parse_type_alias()?;
        let span = ty_alias.span.to(self.previous().span);
        Ok(self.mk(Item::TyAlias(ty_alias.node), span))
    }

    fn parse_associated_items(&mut self) -> (r: Result<Vec<AstNode<AssociatedItem>>, ParserError>)
        requires
            old(self).wf(),
            old(self).position >= 1,
        ensures
            old(self).steps_to(final(self)),
        decreases old(self).remaining(), 61nat,
    {
        let items = self.parse_delimited(
            TokenKind::OpeningDelimiter(Delimiter::Brace),
            TokenKind::ClosingDelimiter(Delimiter::Brace),
            ElemKind::AssocItem,
        );
        Ok(into_assoc_items(items))
    }

    fn parse_associated_item(&mut self) -> (r: Result<AstNode<AssociatedItem>, ParserError>)
        requires
            old(self).wf(),
            old(self).position >= 1,
        ensures
            old(self).steps_to(final(self)),
            r is Ok ==> final(self).position > old(self).position,
            r matches Ok(n) ==> n.span == old(self).span_to(final(self)),
            old(self).cur() == TokenKind::Keyword(Kw::Type) && old(self).pos() + 2 < old(self).toks().len() && old(self).toks()[old(self).pos() + 1int].kind is Ident
                && same_kind(old(self).toks()[old(self).pos() + 2int].kind, TokenKind::Punctuation(Punct::Semicolon)) ==> r is Ok,
        decreases old(self).remaining(), 55nat,
    {
        let lo = self.current().span;
        let item = match self.cur_kw() {
            Some(Kw::Fn) => {
                let fn_sig = self.parse_fn_sig()?;
                let body = if self.current_is(&TokenKind::Punctuation(Punct::Semicolon)) {
                    self.advance();
                    None
                } else if self.current_is(&TokenKind::OpeningDelimiter(Delimiter::Brace)) {
                    Some(self.parse_block()?)
                } else {
                    return Err(self.unexpected(TokenKind::OpeningDelimiter(Delimiter::Brace)));
                };
                AssociatedItem::Fn(fn_sig, body)
            },
            Some(Kw::Type) => {
                let ty_alias = self.parse_type_alias()?;
                AssociatedItem::Type(ty_alias)
            },
            _ => {
                proof {
                    Self::lemma_steps_refl(self);
                }
                return Err(
                    ParserError::ExpectedAssociatedItem {
                        span: self.current().span,
                        found: clone_kind(&self.current().kind),
                    },
                );
            },
        };
        let span = lo.to(self.previous().span);
        Ok(self.mk(item, span))
    }

    fn parse_impl_item(&mut self) -> (r: Result<AstNode<Item>, ParserError>)
        requires
            old(self).wf(),
            old(self).cur() == TokenKind::Keyword(Kw::Impl),
        ensures
            old(self).steps_to(final(self)),
            final(self).position > old(self).position,
            r matches Ok(i) ==> i.node is Impl,
            r matches Ok(n) ==> n.span == old(self).span_to(final(self)),
        decreases old(self).remaining(), 0nat,
    {
        let lo = self.current().span;
        self.advance();
        let generics = self.parse_generic_params()?;
        let self_ty = self.parse_type()?;
        let for_trait = if self.consume(&TokenKind::Keyword(Kw::For)) {
            let path = self.parse_path()?;
            Some(path)
        } else {
            None
        };
        let items = self.parse_associated_items()?;
        let span = lo.to(self.previous().span);
        Ok(self.mk(Item::Impl(ImplDecl { generics, self_ty, for_trait, items }), span))
    }

    fn parse_trait_item(&mut self) -> (r: Result<AstNode<Item>, ParserError>)
        requires
            old(self).wf(),
            old(self).cur() == TokenKind::Keyword(Kw::Trait),
        ensures
            r matches Ok(n) ==> item_named(old(self).toks(), old(self).pos() as int, n.node),
            old(self).steps_to(final(self)),
            final(self).position > old(self).position,
            r matches Ok(i) ==> i.node is Trait,
            r matches Ok(n) ==> n.span == old(self).span_to(final(self)),
        decreases old(self).remaining(), 0nat,
    {
        let lo = self.current().span;
        self.advance();
        let ident = self.parse_ident()?;
        let generics = self.parse_generic_params()?;
        let items = self.parse_associated_items()?;
        let span = lo.to(self.previous().span);
        Ok(self.mk(Item::Trait(TraitDecl { ident, generics, items }), span))
    }

    fn parse_mod_item(&mut self) -> (r: Result<AstNode<Item>, ParserError>)
        requires
            old(self).wf(),
            old(self).cur() == TokenKind::Keyword(Kw::Mod),
        ensures
            r matches Ok(n) ==> item_named(old(self).toks(), old(self).pos() as int, n.node),
            old(self).steps_to(final(self)),
            final(self).position > old(self).position,
            r matches Ok(i) ==> i.node is Mod,
            r matches Ok(n) ==> n.span == old(self).span_to(final(self)),
        decreases old(self).remaining(), 0nat,
    {
        let lo = self.current().span;
        self.advance();
        let ident = self.parse_ident()?;
        let items = self.parse_delimited(
            TokenKind::OpeningDelimiter(Delimiter::Brace),
            TokenKind::ClosingDelimiter(Delimiter::Brace),
            ElemKind::Item,
        );
        let items = into_items(items);
        let span = lo.to(self.previous().span);
        Ok(self.mk(Item::Mod(ModDecl { ident, items }), span))
    }

    fn parse_enum_item(&mut self) -> (r: Result<AstNode<Item>, ParserError>)
        requires
            old(self).wf(),
            old(self).cur() == TokenKind::Keyword(Kw::Enum),
        ensures
            r matches Ok(n) ==> item_named(old(self).toks(), old(self).pos() as int, n.node),
            old(self).steps_to(final(self)),
            final(self).position > old(self).position,
            r matches Ok(i) ==> i.node is Enum,
            r matches Ok(n) ==> n.span == old(self).span_to(final(self)),
        decreases old(self).remaining(), 0nat,
    {
        let lo = self.current().span;
        self.advance();
        let ident = self.parse_ident()?;
        let generics = self.parse_generic_params()?;
        let (variants, _) = self.parse_separated_delimited_with_trailing(
            TokenKind::OpeningDelimiter(Delimiter::Brace),
            TokenKind::ClosingDelimiter(Delimiter::Brace),
            TokenKind::Punctuation(Punct::Comma),
            ElemKind::EnumVariant,
        );
        let variants = into_enum_variants(variants);
        let span = lo.to(self.previous().span);
        Ok(self.mk(Item::Enum(EnumDecl { ident, generics, variants }), span))
    }

    fn parse_enum_variant(&mut self) -> (r: Result<AstNode<EnumVariant>, ParserError>)
        requires
            old(self).wf(),
            old(self).position >= 1,
        ensures
            old(self).steps_to(final(self)),
            r matches Ok(n) ==> n.span == old(self).span_to(final(self)),
            r is Ok,
            old(self).cur() matches TokenKind::Ident(name) ==> (r matches Ok(n) && n.node.ident.node.name@ == name@),
        decreases old(self).remaining(), 55nat,
    {
        let lo = self.current().span;
        let ident = self.parse_ident()?;
        let variant = self.parse_variant_data()?;
        let span = lo.to(self.previous().span);
        Ok(self.mk(EnumVariant { ident, data: variant }, span))
    }

    fn parse_variant_data(&mut self) -> (r: Result<AstNode<VariantData>, ParserError>)
        requires
            old(self).wf(),
            old(self).position >= 1,
        ensures
            old(self).steps_to(final(self)),
            r is Ok,
            same_kind(old(self).cur(), TokenKind::OpeningDelimiter(Delimiter::Brace)) ==> (r matches Ok(n) && n.node is Struct),
            same_kind(old(self).cur(), TokenKind::OpeningDelimiter(Delimiter::Paren)) ==> (r matches Ok(n) && n.node is Tuple),
            !same_kind(old(self).cur(), TokenKind::OpeningDelimiter(Delimiter::Brace)) && !same_kind(
                old(self).cur(),
                TokenKind::OpeningDelimiter(Delimiter::Paren),
            ) ==> (r matches Ok(n) && n.node is Unit) && final(self).position == old(self).position,
        decreases old(self).remaining(), 5nat,
    {
        let lo = self.previous().span;
        let variant = if self.current_is(&TokenKind::OpeningDelimiter(Delimiter::Brace)) {
            let (fields, _) = self.parse_separated_delimited_with_trailing(
                TokenKind::OpeningDelimiter(Delimiter::Brace),
                TokenKind::ClosingDelimiter(Delimiter::Brace),
                TokenKind::Punctuation(Punct::Comma),
                ElemKind::StructField,
            );
            VariantData::Struct { fields: into_struct_fields(fields) }
        } else if self.current_is(&TokenKind::OpeningDelimiter(Delimiter::Paren)) {
            let (types, _) = self.parse_separated_delimited_with_trailing(
                TokenKind::OpeningDelimiter(Delimiter::Paren),
                TokenKind::ClosingDelimiter(Delimiter::Paren),
                TokenKind::Punctuation(Punct::Comma),
                ElemKind::Ty,
            );
            VariantData::Tuple { types: into_tys(types) }
        } else {
            proof {
                Self::lemma_steps_refl(self);
            }
            VariantData::Unit
        };
        let span = lo.to(self.previous().span);
        Ok(self.mk(variant, span))
    }

    fn parse_struct_item(&mut self) -> (r: Result<AstNode<Item>, ParserError>)
        requires
            old(self).wf(),
            old(self).cur() == TokenKind::Keyword(Kw::Struct),
        ensures
            r matches Ok(n) ==> item_named(old(self).toks(), old(self).pos() as int, n.node),
            old(self).steps_to(final(self)),
            final(self).position > old(self).position,
            r matches Ok(i) ==> i.node is Struct,
            r matches Ok(n) ==> n.span == old(self).span_to(final(self)),
        decreases old(self).remaining(), 0nat,
    {
        let lo = self.current().span;
        self.advance();
        let ident = self.parse_ident()?;
        let generics = self.parse_generic_params()?;
        let variant = self.parse_variant_data()?;
        let is_struct = match &variant.node {
            VariantData::Struct { .. } => true,
            _ => false,
        };
        if !is_struct {
            self.consume(&TokenKind::Punctuation(Punct::Semicolon));
        }
        let span = lo.to(self.previous().span);
        Ok(self.mk(Item::Struct(StructDecl { ident, generics, data: variant }), span))
    }

    fn parse_struct_item_field(&mut self) -> (r: Result<AstNode<StructFieldDef>, ParserError>)
        requires
            old(self).wf(),
            old(self).position >= 1,
        ensures
            old(self).steps_to(final(self)),
            r matches Ok(n) ==> n.span == old(self).span_to(final(self)),
            old(self).cur() is Ident && old(self).pos() + 2 < old(self).toks().len() && same_kind(
                old(self).toks()[old(self).pos() + 1int].kind,
                TokenKind::Punctuation(Punct::Colon),
            ) && begins_plain_type(old(self).toks()[old(self).pos() + 2int].kind) ==> r is Ok,
        decreases old(self).remaining(), 55nat,
    {
        let lo = self.current().span;
        let ident = self.parse_ident()?;
        self.consume(&TokenKind::Punctuation(Punct::Colon));
        let ty = self.parse_type()?;
        let span = lo.to(self.previous().span);
        Ok(self.mk(StructFieldDef { ident, type_annotation: ty }, span))
    }

    /// fn a(b: i32) -> i32 { b }
    /// starts at 'fn', ends after the block
    fn parse_fn_item(&mut self) -> (r: Result<AstNode<Item>, ParserError>)
        requires
            old(self).wf(),
            old(self).cur() == TokenKind::Keyword(Kw::Fn),
        ensures
            r matches Ok(n) ==> item_named(old(self).toks(), old(self).pos() as int, n.node),
            old(self).steps_to(final(self)),
            final(self).position > old(self).position,
            r matches Ok(i) ==> i.node is Fn,
            r matches Ok(n) ==> n.span == old(self).span_to(final(self)),
        decreases old(self).remaining(), 43nat,
    {
        let fn_decl = self.parse_fn_decl()?;
        let span = fn_decl.span.to(self.previous().span);
        Ok(self.mk(Item::Fn(fn_decl.node), span))
    }

    fn parse_fn_decl(&mut self) -> (r: Result<AstNode<FnDecl>, ParserError>)
        requires
            old(self).wf(),
            old(self).cur() == TokenKind::Keyword(Kw::Fn),
        ensures
            r matches Ok(d) ==> d.node.sig.node.ident.node.name@ == ident_text(old(self).toks()[old(self).pos() + 1int].kind),
            old(self).steps_to(final(self)),
            final(self).position > old(self).position,
            r matches Ok(n) ==> n.span == old(self).span_to(final(self)),
        decreases old(self).remaining(), 42nat,
    {
        let lo = self.current().span;
        let sig = self.parse_fn_sig()?;
        let body = self.parse_block()?;
        let span = lo.to(self.previous().span);
        Ok(self.mk(FnDecl { sig, body }, span))
    }

    /// starts at the `fn` keyword, ends before the block
    fn parse_fn_sig(&mut self) -> (r: Result<AstNode<FnSig>, ParserError>)
        requires
            old(self).wf(),
            old(self).position >= 1 || !old(self).cur_is_eof(),
        ensures
            !old(self).cur_is_eof() ==> (r matches Ok(d) ==> d.node.ident.node.name@ == ident_text(old(self).toks()[old(self).pos() + 1int].kind)),
            old(self).steps_to(final(self)),
            final(self).position >= 1,
            !old(self).cur_is_eof() ==> final(self).position > old(self).position,
            r matches Ok(n) ==> n.span == old(self).span_to(final(self)),
        decreases old(self).remaining(), if old(self).cur_is_eof() {
            65nat
        } else {
            0nat
        },
    {
        let lo = self.current().span;
        self.advance();
        let ident = self.parse_ident()?;
        let generics = self.parse_generic_params()?;
        let params = self.parse_params()?;
        let return_ty = self.parse_return_type()?;
        let span = lo.to(self.previous().span);
        Ok(self.mk(FnSig { ident, generics, params, return_ty }, span))
    }

    /// starts at '->', ends after the type
    fn parse_return_type(&mut self) -> (r: Result<Option<AstNode<Ty>>, ParserError>)
        requires
            old(self).wf(),
            old(self).position >= 1,
        ensures
            old(self).steps_to(final(self)),
        decreases old(self).remaining(), 0nat,
    {
        if self.consume(&TokenKind::Punctuation(Punct::Arrow)) {
            let ty = self.parse_type()?;
            Ok(Some(ty))
        } else {
            Ok(None)
        }
    }

    /// starts at '(', ends after ')'
    fn parse_params(&mut self) -> (r: Result<Vec<AstNode<Param>>, ParserError>)
        requires
            old(self).wf(),
            old(self).position >= 1,
        ensures
            old(self).steps_to(final(self)),
        decreases old(self).remaining(), 61nat,
    {
        let (params, _) = self.parse_separated_delimited_with_trailing(
            TokenKind::OpeningDelimiter(Delimiter::Paren),
            TokenKind::ClosingDelimiter(Delimiter::Paren),
            TokenKind::Punctuation(Punct::Comma),
            ElemKind::Param,
        );
        Ok(into_params(params))
    }

    /// starts at the identifier and ends after the type
    fn parse_param(&mut self) -> (r: Result<AstNode<Param>, ParserError>)
        requires
            old(self).wf(),
            old(self).position >= 1,
        ensures
            old(self).steps_to(final(self)),
            r matches Ok(n) ==> n.span == old(self).span_to(final(self)),
            same_kind(old(self).cur(), TokenKind::Punctuation(Punct::Underscore)) && old(self).pos() + 2 < old(self).toks().len() && same_kind(
                old(self).toks()[old(self).pos() + 1int].kind,
                TokenKind::Punctuation(Punct::Colon),
            ) && begins_plain_type(old(self).toks()[old(self).pos() + 2int].kind) ==> r is Ok,
        decreases old(self).remaining(), 55nat,
    {
        let lo = self.current().span;
        let pattern = self.parse_pattern()?;
        if !self.consume(&TokenKind::Punctuation(Punct::Colon)) {
            let e = self.unexpected(TokenKind::Punctuation(Punct::Colon));
            self.emit(e);
            if !self.cur_is_ident() {
                self.advance();
            }
        }
        let ty = self.parse_type()?;
        let span = lo.to(self.previous().span);
        Ok(self.mk(Param { pattern, type_annotation: ty }, span))
    }

    fn parse_pattern(&mut self) -> (r: Result<AstNode<Pattern>, ParserError>)
        requires
            old(self).wf(),
            old(self).position >= 1,
        ensures
            old(self).steps_to(final(self)),
            r matches Ok(n) ==> n.span == old(self).span_to(final(self)),
            !begins_pattern(old(self).cur()) ==> *final(self) == *old(self) && r == Err::<AstNode<Pattern>, ParserError>(
                ParserError::ExpectedPattern {
                    span: old(self).toks()[old(self).pos() as int].span,
                    found: old(self).cur(),
                },
            ),
            same_kind(old(self).cur(), TokenKind::Punctuation(Punct::Underscore)) && old(self).pos() + 1 < old(self).toks().len() && !same_kind(
                old(self).toks()[old(self).pos() + 1int].kind,
                TokenKind::Punctuation(Punct::Pipe),
            ) ==> (r matches Ok(p) && p.node is Wildcard) && final(self).position == old(self).position + 1,
        decreases old(self).remaining(), 50nat,
    {
        let lo = self.current().span;
        let mut pattern = match self.parse_pattern_no_or() {
            Ok(p) => p,
            Err(e) => {
                return Err(e);
            },
        };
        if self.current_is(&TokenKind::Punctuation(Punct::Pipe)) {
            let mut patterns: Vec<AstNode<Pattern>> = Vec::new();
            patterns.push(pattern);
            while self.consume(&TokenKind::Punctuation(Punct::Pipe))
                invariant
                    old(self).steps_to(self),
                    begins_pattern(old(self).cur()),
                    !(same_kind(old(self).cur(), TokenKind::Punctuation(Punct::Underscore)) && old(self).pos() + 1
                        < old(self).toks().len() && !same_kind(
                        old(self).toks()[old(self).pos() + 1int].kind,
                        TokenKind::Punctuation(Punct::Pipe),
                    )),
                decreases self.remaining(),
            {
                patterns.push(self.parse_pattern_no_or()?);
            }
            let span = lo.to(self.previous().span);
            pattern = self.mk(Pattern::Or(patterns), span);
        }
        Ok(pattern)
    }

    fn parse_pattern_no_or(&mut self) -> (r: Result<AstNode<Pattern>, ParserError>)
        requires
            old(self).wf(),
            old(self).position >= 1,
        ensures
            old(self).steps_to(final(self)),
            r matches Ok(p) ==> pattern_form(old(self).cur(), p.node),
            !begins_pattern(old(self).cur()) ==> *final(self) == *old(self) && r == Err::<AstNode<Pattern>, ParserError>(
                ParserError::ExpectedPattern {
                    span: old(self).toks()[old(self).pos() as int].span,
                    found: old(self).cur(),
                },
            ),
            r matches Ok(n) ==> n.span == old(self).span_to(final(self)),
            same_kind(old(self).cur(), TokenKind::Punctuation(Punct::Underscore)) ==> final(self).position == old(self).position + 1 && (r matches Ok(p)
                && p.node is Wildcard),
        decreases old(self).remaining(), 49nat,
    {
        let lo = self.current().span;
        let pattern = if self.current_is(&TokenKind::Punctuation(Punct::Underscore)) {
            self.advance();
            Pattern::Wildcard
        } else if self.cur_is_ident() {
            let path = self.parse_path()?;
            if self.current_is(&TokenKind::OpeningDelimiter(Delimiter::Brace)) {
                // Struct pattern: Path { field: pattern, ... }
                let (fields, _) = self.parse_separated_delimited_with_trailing(
                    TokenKind::OpeningDelimiter(Delimiter::Brace),
                    TokenKind::ClosingDelimiter(Delimiter::Brace),
                    TokenKind::Punctuation(Punct::Comma),
                    ElemKind::PatternStructField,
                );
                Pattern::Struct(path, into_pattern_struct_fields(fields))
            } else if self.current_is(&TokenKind::OpeningDelimiter(Delimiter::Paren)) {
                // TupleStruct pattern: Path(pattern, ...)
                let (patterns, _) = self.parse_separated_delimited_with_trailing(
                    TokenKind::OpeningDelimiter(Delimiter::Paren),
                    TokenKind::ClosingDelimiter(Delimiter::Paren),
                    TokenKind::Punctuation(Punct::Comma),
                    ElemKind::Pattern,
                );
                Pattern::TupleStruct(path, into_patterns(patterns))
            } else {
                Pattern::Path(path)
            }
        } else if self.current_is(&TokenKind::OpeningDelimiter(Delimiter::Paren)) {
            let (elements, trailing_comma) = self.parse_separated_delimited_with_trailing(
                TokenKind::OpeningDelimiter(Delimiter::Paren),
                TokenKind::ClosingDelimiter(Delimiter::Paren),
                TokenKind::Punctuation(Punct::Comma),
                ElemKind::Pattern,
            );
            let mut elements = into_patterns(elements);
            if elements.len() == 1 && !trailing_comma {
                let inner = elements.pop().unwrap();
                Pattern::Paren(Box::new(inner))
            } else {
                Pattern::Tuple(elements)
            }
        } else if match &self.current().kind {
            TokenKind::Literal(_) => true,
            _ => false,
        } {
            let expr = self.parse_expression()?;
            Pattern::Expr(Box::new(expr))
        } else {
            proof {
                Self::lemma_steps_refl(self);
            }
            return Err(
                ParserError::ExpectedPattern {
                    span: self.current().span,
                    found: clone_kind(&self.current().kind),
                },
            );
        };
        let span = lo.to(self.previous().span);
        Ok(self.mk(pattern, span))
    }

    fn parse_pattern_struct_field(&mut self) -> (r: Result<AstNode<PatternStructField>, ParserError>)
        requires
            old(self).wf(),
            old(self).position >= 1,
        ensures
            old(self).steps_to(final(self)),
            r matches Ok(n) ==> n.span == old(self).span_to(final(self)),
            old(self).cur() is Ident && old(self).pos() + 3 < old(self).toks().len() && same_kind(
                old(self).toks()[old(self).pos() + 1int].kind,
                TokenKind::Punctuation(Punct::Colon),
            ) && same_kind(old(self).toks()[old(self).pos() + 2int].kind, TokenKind::Punctuation(Punct::Underscore)) && !same_kind(
                old(self).toks()[old(self).pos() + 3int].kind,
                TokenKind::Punctuation(Punct::Pipe),
            ) ==> r is Ok,
        decreases old(self).remaining(), 55nat,
    {
        let lo = self.current().span;
        let ident = self.parse_ident()?;
        self.consume(&TokenKind::Punctuation(Punct::Colon));
        let pattern = self.parse_pattern()?;
        let span = lo.to(self.previous().span);
        Ok(self.mk(PatternStructField { ident, pattern }, span))
    }

    fn parse_generic_params(&mut self) -> (r: Result<Vec<AstNode<GenericParam>>, ParserError>)
        requires
            old(self).wf(),
            old(self).position >= 1,
        ensures
            old(self).steps_to(final(self)),
            r is Ok,
            !same_kind(old(self).cur(), TokenKind::Punctuation(Punct::Less)) ==> *final(self) == *old(self) && (r matches Ok(v) && v@.len() == 0),
            same_kind(old(self).cur(), TokenKind::Punctuation(Punct::Less)) ==> final(self).position > old(self).position && (final(self).cur_is_eof()
                || same_kind(final(self).toks()[final(self).pos() - 1].kind, TokenKind::Punctuation(Punct::Greater))),
        decreases old(self).remaining(), 10nat,
    {
        if !self.current_is(&TokenKind::Punctuation(Punct::Less)) {
            proof {
                Self::lemma_steps_refl(self);
            }
            return Ok(Vec::new());
        }
        let (params, _) = self.parse_separated_delimited_with_trailing(
            TokenKind::Punctuation(Punct::Less),
            TokenKind::Punctuation(Punct::Greater),
            TokenKind::Punctuation(Punct::Comma),
            ElemKind::GenericParam,
        );
        Ok(into_generic_params(params))
    }

    fn parse_generic_param(&mut self) -> (r: Result<AstNode<GenericParam>, ParserError>)
        requires
            old(self).wf(),
            old(self).position >= 1,
        ensures
            old(self).steps_to(final(self)),
            r matches Ok(n) ==> n.span == old(self).span_to(final(self)),
            !same_kind(old(self).cur(), TokenKind::Keyword(Kw::Const)) ==> r is Ok,
        decreases old(self).remaining(), 55nat,
    {
        let lo = self.current().span;
        let is_const = self.consume(&TokenKind::Keyword(Kw::Const));
        let ident = self.parse_ident()?;
        let bounds = if !is_const && self.consume(&TokenKind::Punctuation(Punct::Colon)) {
            self.parse_bounds()?
        } else {
            Vec::new()
        };
        let kind = if is_const {
            self.consume(&TokenKind::Punctuation(Punct::Colon));
            let const_ty = self.parse_type()?;
            GenericParamKind::Const(const_ty)
        } else {
            GenericParamKind::Type
        };
        let span = lo.to(self.previous().span);
        Ok(self.mk(GenericParam { ident, bounds, kind }, span))
    }

    fn parse_bounds(&mut self) -> (r: Result<Vec<AstNode<Path>>, ParserError>)
        requires
            old(self).wf(),
            old(self).position >= 1,
        ensures
            old(self).steps_to(final(self)),
            r matches Ok(v) && v@.len() >= 1,
            !same_kind(final(self).cur(), TokenKind::Punctuation(Punct::Plus)),
        decreases old(self).remaining(), 20nat,
    {
        let mut bounds: Vec<AstNode<Path>> = Vec::new();
        proof {
            Self::lemma_steps_refl(self);
        }
        loop
            invariant
                old(self).steps_to(self),
                self.position >= 1,
            ensures
                old(self).steps_to(self),
                bounds@.len() >= 1,
                !same_kind(self.cur(), TokenKind::Punctuation(Punct::Plus)),
            decreases self.remaining(),
        {
            let path = self.parse_path()?;
            bounds.push(path);
            if !self.consume(&TokenKind::Punctuation(Punct::Plus)) {
                break;
            }
        }
        Ok(bounds)
    }

    fn parse_path(&mut self) -> (r: Result<AstNode<Path>, ParserError>)
        requires
            old(self).wf(),
            old(self).position >= 1 || old(self).cur() is Ident,
        ensures
            old(self).steps_to(final(self)),
            final(self).position >= 1,
            old(self).cur() is Ident ==> final(self).position > old(self).position,
            r matches Ok(n) ==> n.span == old(self).span_to(final(self)),
            r is Ok,
            old(self).cur() is Ident && old(self).pos() + 1 < old(self).toks().len() && !same_kind(
                old(self).toks()[old(self).pos() + 1int].kind,
                TokenKind::Punctuation(Punct::Less),
            ) && !same_kind(old(self).toks()[old(self).pos() + 1int].kind, TokenKind::Punctuation(Punct::ColonColon)) ==> final(self).position == old(self).position + 1
                && (r matches Ok(p) && p.node.segments@.len() == 1 && p.node.segments@[0].node.ident.node.name@
                == ident_text(old(self).cur()) && p.node.segments@[0].node.args@.len() == 0),
        decreases old(self).remaining(), 12nat,
    {
        let lo = self.current().span;
        let mut segments: Vec<AstNode<PathSegment>> = Vec::new();
        segments.push(self.parse_path_segment()?);
        let ghost first = segments@[0];
        while self.consume(&TokenKind::Punctuation(Punct::ColonColon))
            invariant
                segments@.len() >= 1,
                segments@[0] == first,
                old(self).cur() is Ident && old(self).pos() + 1 < old(self).toks().len() && !same_kind(
                    old(self).toks()[old(self).pos() + 1int].kind,
                    TokenKind::Punctuation(Punct::Less),
                ) && !same_kind(old(self).toks()[old(self).pos() + 1int].kind, TokenKind::Punctuation(Punct::ColonColon))
                    ==> segments@.len() == 1 && first.node.ident.node.name@ == ident_text(old(self).cur())
                    && first.node.args@.len() == 0,
                old(self).steps_to(self),
                self.position >= 1,
                old(self).cur() is Ident ==> self.position > old(self).position,
                old(self).cur() is Ident && old(self).pos() + 1 < old(self).toks().len() && !same_kind(
                    old(self).toks()[old(self).pos() + 1int].kind,
                    TokenKind::Punctuation(Punct::Less),
                ) && !same_kind(old(self).toks()[old(self).pos() + 1int].kind, TokenKind::Punctuation(Punct::ColonColon))
                    ==> self.position == old(self).position + 1,
            decreases self.remaining(),
        {
            segments.push(self.parse_path_segment()?);
        }
        let span = lo.to(self.previous().span);
        Ok(self.mk(Path { segments }, span))
    }

    fn parse_path_segment(&mut self) -> (r: Result<AstNode<PathSegment>, ParserError>)
        requires
            old(self).wf(),
            old(self).position >= 1 || old(self).cur() is Ident,
        ensures
            old(self).steps_to(final(self)),
            final(self).position >= 1,
            old(self).cur() is Ident ==> final(self).position > old(self).position,
            r matches Ok(n) ==> n.span == old(self).span_to(final(self)),
            r is Ok,
            old(self).cur() is Ident && old(self).pos() + 1 < old(self).toks().len() && !same_kind(
                old(self).toks()[old(self).pos() + 1int].kind,
                TokenKind::Punctuation(Punct::Less),
            ) ==> final(self).position == old(self).position + 1 && (r matches Ok(n) && n.node.ident.node.name@
                == ident_text(old(self).cur()) && n.node.args@.len() == 0),
        decreases old(self).remaining(), 11nat,
    {
        let lo = self.current().span;
        let ident = self.parse_ident()?;
        let args = self.parse_generic_args()?;
        let span = lo.to(self.previous().span);
        Ok(self.mk(PathSegment { ident, args }, span))
    }

    fn parse_generic_args(&mut self) -> (r: Result<Vec<AstNode<GenericArg>>, ParserError>)
        requires
            old(self).wf(),
            old(self).position >= 1,
        ensures
            old(self).steps_to(final(self)),
            r is Ok,
            !same_kind(old(self).cur(), TokenKind::Punctuation(Punct::Less)) ==> *final(self) == *old(self) && (r matches Ok(v) && v@.len() == 0),
            same_kind(old(self).cur(), TokenKind::Punctuation(Punct::Less)) ==> final(self).position > old(self).position && (final(self).cur_is_eof()
                || same_kind(final(self).toks()[final(self).pos() - 1].kind, TokenKind::Punctuation(Punct::Greater))),
        decreases old(self).remaining(), 10nat,
    {
        if !self.current_is(&TokenKind::Punctuation(Punct::Less)) {
            proof {
                Self::lemma_steps_refl(self);
            }
            return Ok(Vec::new());
        }
        let (args, _) = self.parse_separated_delimited_with_trailing(
            TokenKind::Punctuation(Punct::Less),
            TokenKind::Punctuation(Punct::Greater),
            TokenKind::Punctuation(Punct::Comma),
            ElemKind::GenericArg,
        );
        Ok(into_generic_args(args))
    }

    fn parse_generic_arg(&mut self) -> (r: Result<AstNode<GenericArg>, ParserError>)
        requires
            old(self).wf(),
            old(self).position >= 1,
        ensures
            old(self).steps_to(final(self)),
            r matches Ok(n) ==> n.span == old(self).span_to(final(self)),
            !same_kind(old(self).cur(), TokenKind::Keyword(Kw::Const)) && begins_plain_type(old(self).cur()) ==> r is Ok,
        decreases old(self).remaining(), 55nat,
    {
        let lo = self.current().span;
        let generic_arg = if self.consume(&TokenKind::Keyword(Kw::Const)) {
            let expr = self.parse_expression()?;
            GenericArg::Const(Box::new(expr))
        } else {
            let ty = self.parse_type()?;
            GenericArg::Type(ty)
        };
        let span = lo.to(self.previous().span);
        Ok(self.mk(generic_arg, span))
    }

    fn parse_type(&mut self) -> (r: Result<AstNode<Ty>, ParserError>)
        requires
            old(self).wf(),
            old(self).position >= 1,
        ensures
            old(self).steps_to(final(self)),
            r matches Ok(t) ==> type_form(old(self).cur(), t.node),
            r matches Ok(n) ==> n.span == old(self).span_to(final(self)),
            begins_plain_type(old(self).cur()) ==> r is Ok,
        decreases old(self).remaining(), 30nat,
    {
        let lo = self.current().span;
        let ty = if self.current_is(&TokenKind::Keyword(Kw::Fn)) {
            self.advance();
            let (param_types, _) = self.parse_separated_delimited_with_trailing(
                TokenKind::OpeningDelimiter(Delimiter::Paren),
                TokenKind::ClosingDelimiter(Delimiter::Paren),
                TokenKind::Punctuation(Punct::Comma),
                ElemKind::Ty,
            );
            let param_types = into_tys(param_types);
            let return_ty = self.parse_return_type()?;
            Ty::Fn(param_types, Box::new(return_ty))
        } else if self.current_is(&TokenKind::OpeningDelimiter(Delimiter::Bracket)) {
            self.advance();
            let inner_ty = self.parse_type()?;
            if !self.consume(&TokenKind::Punctuation(Punct::Semicolon)) {
                let e = self.unexpected(TokenKind::Punctuation(Punct::Semicolon));
                self.emit(e);
            }
            let len = self.parse_expression()?;
            if !self.consume(&TokenKind::ClosingDelimiter(Delimiter::Bracket)) {
                let e = self.unexpected(TokenKind::ClosingDelimiter(Delimiter::Bracket));
                self.emit(e);
            }
            Ty::Array(Box::new(inner_ty), Box::new(len))
        } else if self.current_is(&TokenKind::Punctuation(Punct::Star)) {
            self.advance();
            let ty = self.parse_type()?;
            Ty::Ptr(Box::new(ty))
        } else if self.current_is(&TokenKind::OpeningDelimiter(Delimiter::Paren)) {
            let (elements, trailing_comma) = self.parse_separated_delimited_with_trailing(
                TokenKind::OpeningDelimiter(Delimiter::Paren),
                TokenKind::ClosingDelimiter(Delimiter::Paren),
                TokenKind::Punctuation(Punct::Comma),
                ElemKind::Ty,
            );
            let mut elements = into_tys(elements);
            if elements.len() == 1 && !trailing_comma {
                let inner = elements.pop().unwrap();
                inner.node
            } else {
                Ty::Tuple(elements)
            }
        } else {
            Ty::Path(self.parse_path()?)
        };
        let span = lo.to(self.previous().span);
        Ok(self.mk(ty, span))
    }

    fn parse_ident(&mut self) -> (r: Result<AstNode<Ident>, ParserError>)
        requires
            old(self).wf(),
        ensures
            old(self).steps_to(final(self)),
            r is Ok,
            old(self).cur() is Ident ==> final(self).position == old(self).position + 1,
            !(old(self).cur() is Ident) ==> final(self).position == old(self).position,
            old(self).cur() matches TokenKind::Ident(name) ==> (r matches Ok(n) && n.span == old(self).span_to(
                final(self),
            ) && n.node.name@ == name@),
            !(old(self).cur() is Ident) ==> (r matches Ok(n) && n.node.name@ == Seq::<char>::empty()),
            !(old(self).cur() is Ident) ==> final(self).errors@ == old(self).errors@.push(
                ParserError::ExpectedIdentifier {
                    found: old(self).cur(),
                    span: old(self).toks()[old(self).pos() as int].span,
                },
            ),
    {
        let lo = self.current().span;
        match &self.current().kind {
            TokenKind::Ident(name) => {
                let name = name.clone();
                self.advance();
                let span = lo.to(self.previous().span);
                Ok(self.mk(Ident::new(name), span))
            },
            _ => {
                let e = ParserError::ExpectedIdentifier {
                    found: clone_kind(&self.current().kind),
                    span: lo,
                };
                self.emit(e);
                Ok(self.mk(Ident::err(), Span::err_span()))
            },
        }
    }

    /// start at '{', end at '}'
    fn parse_block(&mut self) -> (r: Result<AstNode<BlockExpr>, ParserError>)
        requires
            old(self).wf(),
            old(self).position >= 1,
        ensures
            old(self).steps_to(final(self)),
            !old(self).cur_is_eof() ==> final(self).position > old(self).position,
            r matches Ok(n) ==> n.span == old(self).span_to(final(self)),
        decreases old(self).remaining(), 0nat,
    {
        let lo = self.current().span;
        self.advance();
        let mut stmts: Vec<AstNode<Stmt>> = Vec::new();
        loop
            invariant
                old(self).steps_to(self),
                self.position > old(self).position || old(self).cur_is_eof(),
                old(self).cur_is_eof() ==> self.position == old(self).position,
            decreases self.remaining(),
        {
            if self.consume(&TokenKind::ClosingDelimiter(Delimiter::Brace)) {
                break;
            }
            if self.consume(&TokenKind::EOF) {
                break;
            }
            let stmt = self.parse_statement()?;
            stmts.push(stmt);
        }
        let span = lo.to(self.previous().span);
        Ok(self.mk(BlockExpr { stmts }, span))
    }

    fn parse_statement(&mut self) -> (r: Result<AstNode<Stmt>, ParserError>)
        requires
            old(self).wf(),
            old(self).position >= 1,
        ensures
            old(self).steps_to(final(self)),
            r is Ok ==> final(self).position > old(self).position,
            r matches Ok(st) ==> stmt_form(old(self).cur(), st.node),
            r matches Ok(n) ==> n.span == old(self).span_to(final(self)),
            old(self).cur() == TokenKind::Keyword(Kw::Let) && old(self).pos() + 2 < old(self).toks().len() && same_kind(
                old(self).toks()[old(self).pos() + 1int].kind,
                TokenKind::Punctuation(Punct::Underscore),
            ) && same_kind(old(self).toks()[old(self).pos() + 2int].kind, TokenKind::Punctuation(Punct::Semicolon)) ==> r is Ok,
            lone_name_at(old(self).toks(), old(self).pos() as int) ==> r is Ok,
        decreases old(self).remaining(), 45nat,
    {
        let lo = self.current().span;
        if self.cur_kw() == Some(Kw::Let) {
            self.parse_let_stmt()
        } else if self.current().begins_item() {
            let item = self.parse_item()?;
            let span = lo.to(self.previous().span);
            Ok(self.mk(Stmt::Item(item), span))
        } else {
            let expr = self.parse_expression()?;
            if self.consume(&TokenKind::Punctuation(Punct::Semicolon)) {
                let span = lo.to(self.previous().span);
                Ok(self.mk(Stmt::Semi(expr), span))
            } else {
                let span = lo.to(self.previous().span);
                Ok(self.mk(Stmt::Expr(expr), span))
            }
        }
    }

    fn parse_let_stmt(&mut self) -> (r: Result<AstNode<Stmt>, ParserError>)
        requires
            old(self).wf(),
            old(self).cur() == TokenKind::Keyword(Kw::Let),
        ensures
            old(self).steps_to(final(self)),
            final(self).position > old(self).position,
            r matches Ok(st) ==> st.node is Let,
            r matches Ok(n) ==> n.span == old(self).span_to(final(self)),
            old(self).pos() + 2 < old(self).toks().len() && same_kind(old(self).toks()[old(self).pos() + 1int].kind, TokenKind::Punctuation(Punct::Underscore)) && same_kind(
                old(self).toks()[old(self).pos() + 2int].kind,
                TokenKind::Punctuation(Punct::Semicolon),
            ) ==> r is Ok,
        decreases old(self).remaining(), 0nat,
    {
        let lo = self.current().span;
        self.advance();
        let pat = self.parse_pattern()?;
        let type_annotation = if self.consume(&TokenKind::Punctuation(Punct::Colon)) {
            Some(self.parse_type()?)
        } else {
            None
        };
        let expr = if self.consume(&TokenKind::Punctuation(Punct::Eq)) {
            let expr = self.parse_expression()?;
            Some(Box::new(expr))
        } else {
            None
        };
        if !self.consume(&TokenKind::Punctuation(Punct::Semicolon)) {
            let e = self.unexpected(TokenKind::Punctuation(Punct::Semicolon));
            self.emit(e);
        }
        let span = lo.to(self.previous().span);
        Ok(self.mk(Stmt::Let(LetStmt { pat, expr, type_annotation }), span))
    }

    fn parse_expression(&mut self) -> (r: Result<AstNode<Expr>, ParserError>)
        requires
            old(self).wf(),
            old(self).position >= 1,
        ensures
            old(self).steps_to(final(self)),
            r is Ok ==> final(self).position > old(self).position,
            r matches Ok(e) ==> prec_ok(e),
            lone_name_at(old(self).toks(), old(self).pos() as int) ==> r is Ok && final(self).position == old(self).position + 1,
            lone_name_at(old(self).toks(), old(self).pos() as int) ==> (r matches Ok(e) && names_single_path(e.node, ident_text(old(self).cur()))),
            binary_of_names_at(old(self).toks(), old(self).pos() as int, 0) ==> (r matches Ok(e) && binary_of_names(e.node, old(self).toks()[old(self).pos() + 1int].kind, ident_text(old(self).cur()), ident_text(old(self).toks()[old(self).pos() + 2int].kind))
                && final(self).position == old(self).position + 3),
            chain_of_three_at(old(self).toks(), old(self).pos() as int, 0) ==> (r matches Ok(e) && chain_of_three(e.node, old(self).toks(), old(self).pos() as int)
                && final(self).position == old(self).position + 5),
            assign_chain_at(old(self).toks(), old(self).pos() as int, 0) ==> (r matches Ok(e) && assign_chain(e.node, ident_text(old(self).cur()), ident_text(old(self).toks()[old(self).pos() + 2int].kind), ident_text(old(self).toks()[old(self).pos() + 4int].kind))
                && final(self).position == old(self).position + 5),
        decreases old(self).remaining(), 40nat,
    {
        self.parse_expr_with_precedence(0)
    }

    /// Parses an expression whose infix operators at the root bind at least
    /// as tight as `min_prec` (to their left): the operands of every infix
    /// operator hang as precedence says, and the expression stops before a
    /// token that would continue it only with a looser operator.
    fn parse_expr_with_precedence(&mut self, min_prec: u8) -> (r: Result<AstNode<Expr>, ParserError>)
        requires
            old(self).wf(),
            old(self).position >= 1,
        ensures
            old(self).steps_to(final(self)),
            r is Ok ==> final(self).position > old(self).position,
            r matches Ok(e) ==> {
                &&& prec_ok(e)
                &&& (infix_bp(e.node) matches Some(bp) ==> bp.0 >= min_prec)
                &&& (continues_expr(final(self).cur()) ==> spec_precedence(final(self).cur()).0 < min_prec)
            },
            lone_name_at(old(self).toks(), old(self).pos() as int) ==> r is Ok && final(self).position == old(self).position + 1,
            lone_name_at(old(self).toks(), old(self).pos() as int) ==> (r matches Ok(e) && names_single_path(e.node, ident_text(old(self).cur()))),
            binary_of_names_at(old(self).toks(), old(self).pos() as int, min_prec) ==> (r matches Ok(e) && binary_of_names(e.node, old(self).toks()[old(self).pos() + 1int].kind, ident_text(old(self).cur()), ident_text(old(self).toks()[old(self).pos() + 2int].kind))
                && final(self).position == old(self).position + 3),
            name_then_looser_at(old(self).toks(), old(self).pos() as int, min_prec) ==> (r matches Ok(e) && names_single_path(e.node, ident_text(old(self).cur()))
                && final(self).position == old(self).position + 1),
            chain_of_three_at(old(self).toks(), old(self).pos() as int, min_prec) ==> (r matches Ok(e) && chain_of_three(e.node, old(self).toks(), old(self).pos() as int)
                && final(self).position == old(self).position + 5),
            assign_of_names_at(old(self).toks(), old(self).pos() as int, min_prec) ==> (r matches Ok(e) && assign_of_names(e.node, ident_text(old(self).cur()), ident_text(old(self).toks()[old(self).pos() + 2int].kind))
                && final(self).position == old(self).position + 3),
            assign_chain_at(old(self).toks(), old(self).pos() as int, min_prec) ==> (r matches Ok(e) && assign_chain(e.node, ident_text(old(self).cur()), ident_text(old(self).toks()[old(self).pos() + 2int].kind), ident_text(old(self).toks()[old(self).pos() + 4int].kind))
                && final(self).position == old(self).position + 5),
        decreases old(self).remaining(), 39nat,
    {
        let mut lhs = self.parse_prefix()?;
        loop
            invariant
                old(self).steps_to(self),
                self.position > old(self).position,
                self.wf(),
                prec_ok(lhs),
                infix_bp(lhs.node) matches Some(bp) ==> bp.0 >= min_prec,
                infix_bp(lhs.node) matches Some(bp) ==> (continues_expr(self.cur()) ==> spec_precedence(
                    self.cur(),
                ).0 < bp.1),
                lone_name_at(old(self).toks(), old(self).pos() as int) ==> self.position == old(self).position + 1,
                lone_name_at(old(self).toks(), old(self).pos() as int) ==> names_single_path(lhs.node, ident_text(old(self).cur())),
                binary_of_names_at(old(self).toks(), old(self).pos() as int, min_prec) ==> (self.position == old(self).position + 1
                    && names_single_path(lhs.node, ident_text(old(self).cur()))) || (self.position == old(self).position + 3
                    && binary_of_names(lhs.node, old(self).toks()[old(self).pos() + 1int].kind, ident_text(old(self).cur()), ident_text(old(self).toks()[old(self).pos() + 2int].kind))),
                name_then_looser_at(old(self).toks(), old(self).pos() as int, min_prec) ==> self.position == old(self).position + 1
                    && names_single_path(lhs.node, ident_text(old(self).cur())),
                chain_of_three_at(old(self).toks(), old(self).pos() as int, min_prec) ==> {
                    let t = old(self).toks();
                    let i = old(self).pos() as int;
                    ||| (self.position == old(self).position + 1 && names_single_path(lhs.node, ident_text(t[i].kind)))
                    ||| (spec_precedence(t[i + 3].kind).0 < spec_precedence(t[i + 1].kind).1 && self.position == old(self).position + 3
                        && binary_of_names(lhs.node, t[i + 1].kind, ident_text(t[i].kind), ident_text(t[i + 2].kind)))
                    ||| (self.position == old(self).position + 5 && chain_of_three(lhs.node, t, i))
                },
                assign_of_names_at(old(self).toks(), old(self).pos() as int, min_prec) ==> (self.position == old(self).position + 1
                    && names_single_path(lhs.node, ident_text(old(self).cur()))) || (self.position == old(self).position + 3
                    && assign_of_names(lhs.node, ident_text(old(self).cur()), ident_text(old(self).toks()[old(self).pos() + 2int].kind))),
                assign_chain_at(old(self).toks(), old(self).pos() as int, min_prec) ==> (self.position == old(self).position + 1
                    && names_single_path(lhs.node, ident_text(old(self).cur()))) || (self.position == old(self).position + 5
                    && assign_chain(lhs.node, ident_text(old(self).cur()), ident_text(old(self).toks()[old(self).pos() + 2int].kind), ident_text(old(self).toks()[old(self).pos() + 4int].kind))),
            ensures
                assign_of_names_at(old(self).toks(), old(self).pos() as int, min_prec) ==> self.position == old(self).position + 3
                    && assign_of_names(lhs.node, ident_text(old(self).cur()), ident_text(old(self).toks()[old(self).pos() + 2int].kind)),
                assign_chain_at(old(self).toks(), old(self).pos() as int, min_prec) ==> self.position == old(self).position + 5
                    && assign_chain(lhs.node, ident_text(old(self).cur()), ident_text(old(self).toks()[old(self).pos() + 2int].kind), ident_text(old(self).toks()[old(self).pos() + 4int].kind)),
                name_then_looser_at(old(self).toks(), old(self).pos() as int, min_prec) ==> self.position == old(self).position + 1
                    && names_single_path(lhs.node, ident_text(old(self).cur())),
                chain_of_three_at(old(self).toks(), old(self).pos() as int, min_prec) ==> self.position == old(self).position + 5
                    && chain_of_three(lhs.node, old(self).toks(), old(self).pos() as int),
                binary_of_names_at(old(self).toks(), old(self).pos() as int, min_prec) ==> (self.position == old(self).position + 3
                    && binary_of_names(lhs.node, old(self).toks()[old(self).pos() + 1int].kind, ident_text(old(self).cur()), ident_text(old(self).toks()[old(self).pos() + 2int].kind))),
                continues_expr(self.cur()) ==> spec_precedence(self.cur()).0 < min_prec,
            decreases self.remaining(),
        {
            let (left_bp, right_bp) = precedence(&self.current().kind);
            if left_bp < min_prec {
                break;
            }
            if self.current_is(&TokenKind::OpeningDelimiter(Delimiter::Paren)) {
                let (args, _) = self.parse_separated_delimited_with_trailing(
                    TokenKind::OpeningDelimiter(Delimiter::Paren),
                    TokenKind::ClosingDelimiter(Delimiter::Paren),
                    TokenKind::Punctuation(Punct::Comma),
                    ElemKind::Expr,
                );
                let args = into_exprs(args);
                let span = lhs.span.to(self.previous().span);
                lhs = self.mk(Expr::Call(CallExpr { arguments: args, callee: Box::new(lhs) }), span);
            } else if self.current_is(&TokenKind::Punctuation(Punct::Dot)) {
                self.advance();
                let ident = self.parse_ident()?;
                if self.current_is(&TokenKind::OpeningDelimiter(Delimiter::Paren)) {
                    let (args, _) = self.parse_separated_delimited_with_trailing(
                        TokenKind::OpeningDelimiter(Delimiter::Paren),
                        TokenKind::ClosingDelimiter(Delimiter::Paren),
                        TokenKind::Punctuation(Punct::Comma),
                        ElemKind::Expr,
                    );
                    let args = into_exprs(args);
                    let name_span = ident.span.to(self.previous().span);
                    let name = self.mk(PathSegment { ident, args: Vec::new() }, name_span);
                    let span = lhs.span.to(self.previous().span);
                    lhs = self.mk(
                        Expr::MethodCall(
                            MethodCallExpr { name, receiver: Box::new(lhs), arguments: args },
                        ),
                        span,
                    );
                } else {
                    let span = lhs.span.to(self.previous().span);
                    lhs = self.mk(
                        Expr::FieldAccess(FieldAccessExpr { target: Box::new(lhs), field: ident }),
                        span,
                    );
                }
            } else if self.current_is(&TokenKind::OpeningDelimiter(Delimiter::Bracket)) {
                self.advance();
                let index_expr = self.parse_expression()?;
                if !self.consume(&TokenKind::ClosingDelimiter(Delimiter::Bracket)) {
                    let e = self.unexpected(TokenKind::ClosingDelimiter(Delimiter::Bracket));
                    self.emit(e);
                }
                let span = lhs.span.to(self.previous().span);
                lhs = self.mk(
                    Expr::Index(IndexExpr { target: Box::new(lhs), index: Box::new(index_expr) }),
                    span,
                );
            } else if self.current_is(&TokenKind::Keyword(Kw::As)) {
                self.advance();
                let ty = self.parse_type()?;
                let span = lhs.span.to(self.previous().span);
                lhs = self.mk(Expr::Cast(CastExpr { expr: Box::new(lhs), ty }), span);
            } else if self.current().kind.is_infix_op() {
                let op_token = Token { kind: clone_kind(&self.current().kind), span: self.current().span };
                let ghost prev = lhs;
                proof {
                    if spec_bin_op(op_token.kind) is Some {
                        lemma_bin_op_precedence(op_token.kind);
                    }
                    if spec_assign_op(op_token.kind) is Some || op_token.kind == TokenKind::Punctuation(Punct::Eq) {
                        lemma_assign_precedence(op_token.kind);
                    }
                }
                self.advance();
                let rhs = self.parse_expr_with_precedence(right_bp)?;
                lhs = self.make_infix_expr(lhs, op_token, rhs)?;
            } else {
                break;
            }
        }
        Ok(lhs)
    }

    fn make_infix_expr(&mut self, lhs: AstNode<Expr>, op: Token, rhs: AstNode<Expr>) -> (r: Result<
        AstNode<Expr>,
        ParserError,
    >)
        requires
            old(self).wf(),
            spec_is_infix_op(op.kind),
        ensures
            old(self).steps_to(final(self)),
            final(self).position == old(self).position,
            r matches Ok(e) && ({
                match e.node {
                    Expr::Assign(a) => op.kind == TokenKind::Punctuation(Punct::Eq) && *a.target == lhs
                        && *a.value == rhs,
                    Expr::Binary(b) => spec_bin_op(op.kind) == Some(b.operator.node) && *b.left == lhs
                        && *b.right == rhs,
                    Expr::AssignOp(a) => spec_assign_op(op.kind) == Some(a.op.node) && *a.target == lhs
                        && *a.value == rhs,
                    _ => false,
                }
            }),
    {
        let span = lhs.span.to(rhs.span);
        if op.kind.is_right_associative() && match &op.kind {
            TokenKind::Punctuation(Punct::Eq) => true,
            _ => false,
        } {
            return Ok(
                self.mk(Expr::Assign(AssignExpr { target: Box::new(lhs), value: Box::new(rhs) }), span),
            );
        }
        match bin_op_from(&op.kind) {
            Some(bin_op) => {
                let operator = self.mk(bin_op, op.span);
                Ok(
                    self.mk(
                        Expr::Binary(
                            BinaryExpr { operator, left: Box::new(lhs), right: Box::new(rhs) },
                        ),
                        span,
                    ),
                )
            },
            None => match assign_op_from(&op.kind) {
                Some(assign_op) => {
                    let op_node = self.mk(assign_op, op.span);
                    Ok(
                        self.mk(
                            Expr::AssignOp(
                                AssignOpExpr {
                                    target: Box::new(lhs),
                                    op: op_node,
                                    value: Box::new(rhs),
                                },
                            ),
                            span,
                        ),
                    )
                },
                None => {
                    proof {
                        assert(false);
                    }
                    Ok(
                        self.mk(
                            Expr::Assign(AssignExpr { target: Box::new(lhs), value: Box::new(rhs) }),
                            span,
                        ),
                    )
                },
            },
        }
    }

    fn parse_prefix(&mut self) -> (r: Result<AstNode<Expr>, ParserError>)
        requires
            old(self).wf(),
            old(self).position >= 1,
        ensures
            old(self).steps_to(final(self)),
            r is Ok ==> final(self).position > old(self).position,
            r matches Ok(e) ==> infix_bp(e.node) is None,
            r matches Ok(n) ==> n.span == old(self).span_to(final(self)),
            old(self).cur() is Ident ==> r is Ok,
            old(self).cur() matches TokenKind::Literal(l) ==> (r is Ok <==> literal_parsed(l, Ok(r->Ok_0.node->Literal_0))),
            lone_name_at(old(self).toks(), old(self).pos() as int) ==> final(self).position == old(self).position + 1,
            lone_name_at(old(self).toks(), old(self).pos() as int) ==> (r matches Ok(e) && names_single_path(e.node, ident_text(old(self).cur()))),
            plain_name_at(old(self).toks(), old(self).pos() as int) ==> (r matches Ok(e) && names_single_path(e.node, ident_text(old(self).cur()))
                && final(self).position == old(self).position + 1),
        decreases old(self).remaining(), 38nat,
    {
        let lo = self.current().span;
        let op = match un_op_from(&self.current().kind) {
            Some(op) => op,
            None => {
                return self.parse_atom();
            },
        };
        let op_span = self.current().span;
        let op = self.mk(op, op_span);
        self.advance();
        let operand = self.parse_prefix()?;
        let span = lo.to(self.previous().span);
        Ok(self.mk(Expr::Unary(UnaryExpr { operator: op, operand: Box::new(operand) }), span))
    }

    fn parse_literal(&self, lit: &Literal) -> (r: Result<LiteralExpr, ParserError>)
        requires
            self.wf(),
            self.cur() == TokenKind::Literal(*lit),
        ensures
            literal_parsed(*lit, r),
    {
        match lit {
            Literal::Integer { value, suffix } => {
                proof {
                    assert(match self.tokens@[self.position as int].kind {
                        TokenKind::Literal(Literal::Integer { value, .. }) => all_digits(value@),
                        _ => true,
                    });
                }
                lower_int_literal(value, suffix, self.current().span)
            },
            Literal::Float { value, suffix } => lower_float_literal(value, suffix, self.current().span),
            Literal::Str(s) => Ok(LiteralExpr::Str(s.clone())),
        }
    }

    fn parse_atom(&mut self) -> (r: Result<AstNode<Expr>, ParserError>)
        requires
            old(self).wf(),
            old(self).position >= 1,
        ensures
            old(self).steps_to(final(self)),
            r is Ok ==> final(self).position > old(self).position,
            r matches Ok(e) ==> infix_bp(e.node) is None,
            r matches Ok(e) ==> atom_form(old(self).cur(), e.node) && e.span == old(self).toks()[old(self).pos() as int].span.joined(
                final(self).toks()[final(self).pos() - 1].span,
            ),
            !begins_atom(old(self).cur()) ==> *final(self) == *old(self) && r == Err::<AstNode<Expr>, ParserError>(
                ParserError::ExpectedExpression {
                    span: old(self).toks()[old(self).pos() as int].span,
                    found: old(self).cur(),
                },
            ),
            old(self).cur() matches TokenKind::Literal(l) ==> (r is Ok <==> literal_parsed(l, Ok(r->Ok_0.node->Literal_0))),
            r matches Ok(n) ==> n.span == old(self).span_to(final(self)),
            old(self).cur() is Ident ==> r is Ok,
            lone_name_at(old(self).toks(), old(self).pos() as int) ==> final(self).position == old(self).position + 1,
            lone_name_at(old(self).toks(), old(self).pos() as int) ==> (r matches Ok(e) && names_single_path(e.node, ident_text(old(self).cur()))),
            plain_name_at(old(self).toks(), old(self).pos() as int) ==> (r matches Ok(e) && names_single_path(e.node, ident_text(old(self).cur()))
                && final(self).position == old(self).position + 1),
            same_kind(old(self).cur(), TokenKind::OpeningDelimiter(Delimiter::Paren)) && old(self).pos() + 1 < old(self).toks().len() && same_kind(old(self).toks()[old(self).pos() + 1int].kind, TokenKind::ClosingDelimiter(Delimiter::Paren))
                ==> (r matches Ok(e) && e.node matches Expr::Tuple(t) && t.expressions@.len() == 0),
            same_kind(old(self).cur(), TokenKind::OpeningDelimiter(Delimiter::Paren)) && lone_name_at(old(self).toks(), old(self).pos() + 1int) && old(self).pos() + 2
                < old(self).toks().len() && same_kind(old(self).toks()[old(self).pos() + 2int].kind, TokenKind::ClosingDelimiter(Delimiter::Paren)) ==> (r matches Ok(e) && e.node matches Expr::Paren(inner)
                && names_single_path(inner.node, ident_text(old(self).toks()[old(self).pos() + 1int].kind))),
            same_kind(old(self).cur(), TokenKind::OpeningDelimiter(Delimiter::Paren)) && lone_name_at(old(self).toks(), old(self).pos() + 1int) && old(self).pos() + 3
                < old(self).toks().len() && same_kind(old(self).toks()[old(self).pos() + 2int].kind, TokenKind::Punctuation(Punct::Comma)) && same_kind(old(self).toks()[old(self).pos() + 3int].kind, TokenKind::ClosingDelimiter(Delimiter::Paren)) ==> (r matches Ok(e)
                && e.node matches Expr::Tuple(t) && t.expressions@.len() == 1 && names_single_path(
                t.expressions@[0].node,
                ident_text(old(self).toks()[old(self).pos() + 1int].kind),
            )),
            forall|n: int, t: bool|
                #![trigger name_list_at(old(self).toks(), next_pos(old(self).pos() as int), n, TokenKind::Punctuation(Punct::Comma), TokenKind::ClosingDelimiter(Delimiter::Paren), t)]
                same_kind(old(self).cur(), TokenKind::OpeningDelimiter(Delimiter::Paren)) && name_list_at(
                    old(self).toks(),
                    next_pos(old(self).pos() as int),
                    n,
                    TokenKind::Punctuation(Punct::Comma),
                    TokenKind::ClosingDelimiter(Delimiter::Paren),
                    t,
                ) && (n != 1 || t) ==> (r matches Ok(e) && e.node matches Expr::Tuple(tt) && tt.expressions@.len() == n
                    && forall|j: int| 0 <= j < n ==> names_single_path(
                        (#[trigger] tt.expressions@[j]).node,
                        ident_text(old(self).toks()[list_pos(next_pos(old(self).pos() as int), j)].kind),
                    )),
        decreases old(self).remaining(), 37nat,
    {
        let lo = self.current().span;
        let kw = self.cur_kw();
        let atom = if kw == Some(Kw::True) {
            self.advance();
            Expr::Literal(LiteralExpr::Bool(true))
        } else if kw == Some(Kw::False) {
            self.advance();
            Expr::Literal(LiteralExpr::Bool(false))
        } else if kw == Some(Kw::Unit) {
            self.advance();
            Expr::Literal(LiteralExpr::Unit)
        } else if match &self.current().kind {
            TokenKind::Literal(_) => true,
            _ => false,
        } {
            let lit = match &self.current().kind {
                TokenKind::Literal(lit) => self.parse_literal(lit),
                _ => {
                    proof {
                        assert(false);
                    }
                    Ok(LiteralExpr::Unit)
                },
            };
            proof {
                Self::lemma_steps_refl(self);
            }
            let lit = lit?;
            self.advance();
            Expr::Literal(lit)
        } else if self.cur_is_ident() {
            let path = self.parse_path()?;
            if !self.restrictions.forbid_struct_expr && self.current_is(
                &TokenKind::OpeningDelimiter(Delimiter::Brace),
            ) {
                Expr::Struct(self.parse_struct_expr(path)?.node)
            } else {
                Expr::Path(PathExpr { path })
            }
        } else if self.current_is(&TokenKind::OpeningDelimiter(Delimiter::Bracket)) {
            let (elems, _) = self.parse_separated_delimited_with_trailing(
                TokenKind::OpeningDelimiter(Delimiter::Bracket),
                TokenKind::ClosingDelimiter(Delimiter::Bracket),
                TokenKind::Punctuation(Punct::Comma),
                ElemKind::Expr,
            );
            Expr::Array(ArrayExpr { expressions: into_exprs(elems) })
        } else if self.current_is(&TokenKind::OpeningDelimiter(Delimiter::Paren)) {
            let (elems, trailing_comma) = self.parse_separated_delimited_with_trailing(
                TokenKind::OpeningDelimiter(Delimiter::Paren),
                TokenKind::ClosingDelimiter(Delimiter::Paren),
                TokenKind::Punctuation(Punct::Comma),
                ElemKind::Expr,
            );
            let mut elems = into_exprs(elems);
            if elems.len() == 1 && !trailing_comma {
                let inner = elems.pop().unwrap();
                Expr::Paren(Box::new(inner))
            } else {
                Expr::Tuple(TupleExpr { expressions: elems })
            }
        } else if self.current_is(&TokenKind::OpeningDelimiter(Delimiter::Brace)) {
            let block = self.parse_block()?;
            Expr::Block(block.node)
        } else if kw == Some(Kw::If) {
            let if_expr = self.parse_if_expr()?;
            Expr::If(if_expr.node)
        } else if kw == Some(Kw::While) {
            let while_expr = self.parse_while_expr()?;
            Expr::While(while_expr.node)
        } else if kw == Some(Kw::Loop) {
            let loop_expr = self.parse_loop_expr()?;
            Expr::Loop(loop_expr.node)
        } else if kw == Some(Kw::For) {
            let for_expr = self.parse_for_expr()?;
            Expr::For(for_expr.node)
        } else if kw == Some(Kw::Match) {
            let match_expr = self.parse_match_expr()?;
            Expr::Match(match_expr.node)
        } else if kw == Some(Kw::Break) {
            let break_expr = self.parse_break_expr()?;
            Expr::Break(break_expr.node)
        } else if kw == Some(Kw::Continue) {
            self.advance();
            Expr::Continue
        } else if kw == Some(Kw::Let) {
            let let_expr = self.parse_let_expr()?;
            Expr::Let(let_expr.node)
        } else if kw == Some(Kw::Return) {
            self.advance();
            let expr = if self.current().can_begin_expr() {
                Some(Box::new(self.parse_expression()?))
            } else {
                None
            };
            Expr::Return(ReturnExpr { value: expr })
        } else {
            proof {
                Self::lemma_steps_refl(self);
            }
            return Err(
                ParserError::ExpectedExpression {
                    span: self.current().span,
                    found: clone_kind(&self.current().kind),
                },
            );
        };
        let span = lo.to(self.previous().span);
        Ok(self.mk(atom, span))
    }

    /// Parses an expression in which a `{` does not start a struct expression.
    fn parse_restricted_expression(&mut self) -> (r: Result<AstNode<Expr>, ParserError>)
        requires
            old(self).wf(),
            old(self).position >= 1,
        ensures
            old(self).steps_to(final(self)),
        decreases old(self).remaining(), 41nat,
    {
        let saved = self.restrictions;
        self.restrictions = Restrictions { forbid_struct_expr: true };
        let result = self.parse_expression();
        self.restrictions = saved;
        result
    }

    fn parse_if_expr(&mut self) -> (r: Result<AstNode<IfExpr>, ParserError>)
        requires
            old(self).wf(),
            old(self).cur() == TokenKind::Keyword(Kw::If),
        ensures
            old(self).steps_to(final(self)),
            final(self).position > old(self).position,
            r matches Ok(n) ==> n.span == old(self).span_to(final(self)),
        decreases old(self).remaining(), 0nat,
    {
        let lo = self.current().span;
        self.advance();
        let condition = self.parse_restricted_expression()?;
        let then_branch = self.parse_block()?;
        let else_branch = if self.consume(&TokenKind::Keyword(Kw::Else)) {
            Some(Box::new(self.parse_block()?))
        } else {
            None
        };
        let span = lo.to(self.previous().span);
        Ok(
            self.mk(
                IfExpr {
                    condition: Box::new(condition),
                    then_branch: Box::new(then_branch),
                    else_branch,
                },
                span,
            ),
        )
    }

    fn parse_while_expr(&mut self) -> (r: Result<AstNode<WhileExpr>, ParserError>)
        requires
            old(self).wf(),
            old(self).cur() == TokenKind::Keyword(Kw::While),
        ensures
            old(self).steps_to(final(self)),
            final(self).position > old(self).position,
            r matches Ok(n) ==> n.span == old(self).span_to(final(self)),
        decreases old(self).remaining(), 0nat,
    {
        let lo = self.current().span;
        self.advance();
        let condition = self.parse_restricted_expression()?;
        let body = self.parse_block()?;
        let span = lo.to(self.previous().span);
        Ok(self.mk(WhileExpr { condition: Box::new(condition), body: Box::new(body) }, span))
    }

    fn parse_loop_expr(&mut self) -> (r: Result<AstNode<LoopExpr>, ParserError>)
        requires
            old(self).wf(),
            old(self).cur() == TokenKind::Keyword(Kw::Loop),
        ensures
            old(self).steps_to(final(self)),
            final(self).position > old(self).position,
            r matches Ok(n) ==> n.span == old(self).span_to(final(self)),
        decreases old(self).remaining(), 0nat,
    {
        let lo = self.current().span;
        self.advance();
        let body = self.parse_block()?;
        let span = lo.to(self.previous().span);
        Ok(self.mk(LoopExpr { body: Box::new(body) }, span))
    }

    fn parse_for_expr(&mut self) -> (r: Result<AstNode<ForExpr>, ParserError>)
        requires
            old(self).wf(),
            old(self).cur() == TokenKind::Keyword(Kw::For),
        ensures
            old(self).steps_to(final(self)),
            final(self).position > old(self).position,
            r matches Ok(n) ==> n.span == old(self).span_to(final(self)),
        decreases old(self).remaining(), 0nat,
    {
        let lo = self.current().span;
        self.advance();
        let pattern = self.parse_pattern()?;
        self.consume(&TokenKind::Keyword(Kw::In));
        let iterator = self.parse_restricted_expression()?;
        let body = self.parse_block()?;
        let span = lo.to(self.previous().span);
        Ok(
            self.mk(
                ForExpr { pattern, iterator: Box::new(iterator), body: Box::new(body) },
                span,
            ),
        )
    }

    fn parse_match_expr(&mut self) -> (r: Result<AstNode<MatchExpr>, ParserError>)
        requires
            old(self).wf(),
            old(self).cur() == TokenKind::Keyword(Kw::Match),
        ensures
            old(self).steps_to(final(self)),
            final(self).position > old(self).position,
            r matches Ok(n) ==> n.span == old(self).span_to(final(self)),
        decreases old(self).remaining(), 0nat,
    {
        let lo = self.current().span;
        self.advance();
        let expr = self.parse_restricted_expression()?;
        let (arms, _) = self.parse_separated_delimited_with_trailing(
            TokenKind::OpeningDelimiter(Delimiter::Brace),
            TokenKind::ClosingDelimiter(Delimiter::Brace),
            TokenKind::Punctuation(Punct::Comma),
            ElemKind::MatchArm,
        );
        let arms = into_match_arms(arms);
        let span = lo.to(self.previous().span);
        Ok(self.mk(MatchExpr { value: Box::new(expr), arms }, span))
    }

    fn parse_match_arm(&mut self) -> (r: Result<AstNode<MatchArm>, ParserError>)
        requires
            old(self).wf(),
            old(self).position >= 1,
        ensures
            old(self).steps_to(final(self)),
            r matches Ok(n) ==> n.span == old(self).span_to(final(self)),
            same_kind(old(self).cur(), TokenKind::Punctuation(Punct::Underscore)) && old(self).pos() + 1 < old(self).toks().len()
                && same_kind(old(self).toks()[old(self).pos() + 1int].kind, TokenKind::Punctuation(Punct::FatArrow))
                && lone_name_at(old(self).toks(), old(self).pos() + 2int) ==> r is Ok,
        decreases old(self).remaining(), 55nat,
    {
        let lo = self.current().span;
        let pattern = self.parse_pattern()?;
        self.consume(&TokenKind::Punctuation(Punct::FatArrow));
        let expr = self.parse_expression()?;
        let span = lo.to(self.previous().span);
        Ok(self.mk(MatchArm { pattern, body: Box::new(expr) }, span))
    }

    fn parse_break_expr(&mut self) -> (r: Result<AstNode<BreakExpr>, ParserError>)
        requires
            old(self).wf(),
            old(self).cur() == TokenKind::Keyword(Kw::Break),
        ensures
            old(self).steps_to(final(self)),
            final(self).position > old(self).position,
            r matches Ok(n) ==> n.span == old(self).span_to(final(self)),
        decreases old(self).remaining(), 0nat,
    {
        let lo = self.current().span;
        self.advance();
        let expr = if self.current().can_begin_expr() {
            Some(Box::new(self.parse_expression()?))
        } else {
            None
        };
        let span = lo.to(self.previous().span);
        Ok(self.mk(BreakExpr { expr }, span))
    }

    fn parse_let_expr(&mut self) -> (r: Result<AstNode<LetExpr>, ParserError>)
        requires
            old(self).wf(),
            old(self).cur() == TokenKind::Keyword(Kw::Let),
        ensures
            old(self).steps_to(final(self)),
            final(self).position > old(self).position,
            r matches Ok(n) ==> n.span == old(self).span_to(final(self)),
        decreases old(self).remaining(), 0nat,
    {
        let lo = self.current().span;
        self.advance();
        let pattern = self.parse_pattern()?;
        self.consume(&TokenKind::Punctuation(Punct::Eq));
        let expr = self.parse_expression()?;
        let span = lo.to(self.previous().span);
        Ok(self.mk(LetExpr { pattern, value: Box::new(expr) }, span))
    }

    fn parse_struct_expr(&mut self, path: AstNode<Path>) -> (r: Result<AstNode<StructExpr>, ParserError>)
        requires
            old(self).wf(),
            old(self).position >= 1,
            old(self).cur() == TokenKind::OpeningDelimiter(Delimiter::Brace),
        ensures
            old(self).steps_to(final(self)),
            r matches Ok(n) && n.node.name == path && n.span == path.span.joined(final(self).toks()[final(self).pos() - 1].span),
        decreases old(self).remaining(), 5nat,
    {
        let lo = path.span;
        let (fields, _) = self.parse_separated_delimited_with_trailing(
            TokenKind::OpeningDelimiter(Delimiter::Brace),
            TokenKind::ClosingDelimiter(Delimiter::Brace),
            TokenKind::Punctuation(Punct::Comma),
            ElemKind::StructExprField,
        );
        let fields = into_struct_expr_fields(fields);
        let span = lo.to(self.previous().span);
        Ok(self.mk(StructExpr { name: path, fields }, span))
    }

    fn parse_struct_expr_field(&mut self) -> (r: Result<AstNode<StructExprField>, ParserError>)
        requires
            old(self).wf(),
            old(self).position >= 1,
        ensures
            old(self).steps_to(final(self)),
            r matches Ok(n) ==> n.span == old(self).span_to(final(self)),
            old(self).cur() is Ident && old(self).pos() + 1 < old(self).toks().len() && same_kind(
                old(self).toks()[old(self).pos() + 1int].kind,
                TokenKind::Punctuation(Punct::Colon),
            ) && lone_name_at(old(self).toks(), old(self).pos() + 2int) ==> r is Ok,
        decreases old(self).remaining(), 55nat,
    {
        let lo = self.current().span;
        let ident = self.parse_ident()?;
        self.consume(&TokenKind::Punctuation(Punct::Colon));
        let expr = self.parse_expression()?;
        let span = lo.to(self.previous().span);
        Ok(self.mk(StructExprField { ident, expr: Box::new(expr) }, span))
    }

    /// Parses one list element of the given kind.
    fn parse_elem(&mut self, elem: ElemKind) -> (r: Result<Elem, ParserError>)
        requires
            old(self).wf(),
            old(self).position >= 1,
        ensures
            old(self).steps_to(final(self)),
            r matches Ok(e) ==> elem_of_kind(e, elem),
            ((elem == ElemKind::Item || elem == ElemKind::AssocItem) && r is Ok)
                ==> final(self).position > old(self).position,
            elem == ElemKind::EnumVariant ==> r is Ok,
            elem == ElemKind::GenericParam && !same_kind(old(self).cur(), TokenKind::Keyword(Kw::Const)) ==> r is Ok,
            elem == ElemKind::GenericArg && !same_kind(old(self).cur(), TokenKind::Keyword(Kw::Const)) && begins_plain_type(
                old(self).cur(),
            ) ==> r is Ok,
            elem == ElemKind::Ty && begins_plain_type(old(self).cur()) ==> r is Ok,
            elem == ElemKind::Expr && lone_name_at(old(self).toks(), old(self).pos() as int) ==> r is Ok,
            elem == ElemKind::Pattern && same_kind(old(self).cur(), TokenKind::Punctuation(Punct::Underscore))
                && old(self).pos() + 1 < old(self).toks().len() && !same_kind(
                old(self).toks()[old(self).pos() + 1int].kind,
                TokenKind::Punctuation(Punct::Pipe),
            ) ==> r is Ok,
            elem == ElemKind::Expr && lone_name_at(old(self).toks(), old(self).pos() as int) ==> final(self).position == old(self).position + 1,
            elem == ElemKind::Expr && lone_name_at(old(self).toks(), old(self).pos() as int) ==> (r matches Ok(Elem::Expr(e))
                && names_single_path(e.node, ident_text(old(self).cur()))),
        decreases old(self).remaining(), 58nat,
    {
        match elem {
            ElemKind::Expr => Ok(Elem::Expr(self.parse_expression()?)),
            ElemKind::Ty => Ok(Elem::Ty(self.parse_type()?)),
            ElemKind::Pattern => Ok(Elem::Pattern(self.parse_pattern()?)),
            ElemKind::Param => Ok(Elem::Param(self.parse_param()?)),
            ElemKind::GenericParam => Ok(Elem::GenericParam(self.parse_generic_param()?)),
            ElemKind::GenericArg => Ok(Elem::GenericArg(self.parse_generic_arg()?)),
            ElemKind::EnumVariant => Ok(Elem::EnumVariant(self.parse_enum_variant()?)),
            ElemKind::StructField => Ok(Elem::StructField(self.parse_struct_item_field()?)),
            ElemKind::PatternStructField => Ok(
                Elem::PatternStructField(self.parse_pattern_struct_field()?),
            ),
            ElemKind::MatchArm => Ok(Elem::MatchArm(self.parse_match_arm()?)),
            ElemKind::StructExprField => Ok(Elem::StructExprField(self.parse_struct_expr_field()?)),
            ElemKind::Item => Ok(Elem::Item(self.parse_item()?)),
            ElemKind::AssocItem => Ok(Elem::AssocItem(self.parse_associated_item()?)),
        }
    }

    /// Reports a list that does not end with its closing delimiter.
    fn report_unclosed(&mut self, close: TokenKind, open_span: Span)
        requires
            old(self).wf(),
        ensures
            old(self).steps_to(final(self)),
            old(self).cur_is_eof() ==> final(self).position == old(self).position && final(self).errors@
                == old(self).errors@.push(
                ParserError::UnclosedDelimiter {
                    span: old(self).toks()[old(self).pos() as int].span,
                    delimiter: close,
                },
            ),
    {
        if self.at_eof() {
            let e = ParserError::UnclosedDelimiter { span: self.current().span, delimiter: close };
            self.emit(e);
        } else if match &self.current().kind {
            TokenKind::ClosingDelimiter(_) => true,
            _ => false,
        } {
            let e = ParserError::MismatchedDelimiter {
                closing_span: self.current().span,
                opening_span: open_span,
                found: clone_kind(&self.current().kind),
                expected: close,
            };
            let ghost s0 = *self;
            self.emit(e);
            let ghost s1 = *self;
            self.advance();
        } else {
            let e = self.unexpected(close);
            self.emit(e);
        }
    }

    /// Opens a list: consumes the opening delimiter, or reports it missing
    /// (skipping a keyword or punctuation in its place). Returns whether it
    /// was missing.
    fn open_list(&mut self, open: &TokenKind) -> (missing: bool)
        requires
            old(self).wf(),
            !(*open is EOF),
        ensures
            old(self).steps_to(final(self)),
            missing == !same_kind(old(self).cur(), *open),
            !missing ==> final(self).position > old(self).position,
            !missing ==> final(self).position == old(self).position + 1 && final(self).errors@ == old(self).errors@,
    {
        if self.current_is(open) {
            self.advance();
            false
        } else {
            let e = self.unexpected(clone_kind(open));
            self.emit(e);
            if self.is_junk_for_delim(&self.current().kind) {
                self.advance();
            }
            true
        }
    }

    /// Parses `open elem separator elem ... close`, with an optional trailing
    /// separator; returns the elements and whether the separator trailed.
    /// A broken element is reported and skipped up to the next separator.
    fn parse_separated_delimited_with_trailing(
        &mut self,
        open: TokenKind,
        close: TokenKind,
        separator: TokenKind,
        elem: ElemKind,
    ) -> (r: (Vec<Elem>, bool))
        requires
            old(self).wf(),
            old(self).position >= 1,
            !(open is EOF),
            !(separator is EOF),
            !(close is EOF),
        ensures
            old(self).steps_to(final(self)),
            all_of_kind(r.0@, elem),
            same_kind(old(self).cur(), open) ==> final(self).position > old(self).position,
            final(self).cur_is_eof() || same_kind(final(self).toks()[final(self).pos() - 1].kind, close),
            r.1 && !final(self).cur_is_eof() ==> final(self).pos() >= 2 && same_kind(
                final(self).toks()[final(self).pos() - 2].kind,
                separator,
            ),
            (same_kind(old(self).cur(), open) && close is ClosingDelimiter && old(self).pos() + 1 < old(self).toks().len() && same_kind(
                old(self).toks()[old(self).pos() + 1int].kind,
                close,
            )) ==> r.0@.len() == 0 && !r.1 && final(self).position == old(self).position + 2
                && final(self).errs() == old(self).errs(),
            (same_kind(old(self).cur(), open) && close is ClosingDelimiter && elem == ElemKind::Expr && !same_kind(close, separator)
                && lone_name_at(old(self).toks(), old(self).pos() + 1int) && old(self).pos() + 2 < old(self).toks().len()
                && same_kind(old(self).toks()[old(self).pos() + 2int].kind, close)) ==> r.0@.len() == 1 && !r.1 && final(self).position == old(self).position + 3
                && first_names(r.0@, ident_text(old(self).toks()[old(self).pos() + 1int].kind)),
            (same_kind(old(self).cur(), open) && close is ClosingDelimiter && elem == ElemKind::Expr && !same_kind(close, separator)
                && lone_name_at(old(self).toks(), old(self).pos() + 1int) && old(self).pos() + 3 < old(self).toks().len()
                && same_kind(old(self).toks()[old(self).pos() + 2int].kind, separator) && same_kind(old(self).toks()[old(self).pos() + 3int].kind, close)) ==> r.0@.len() == 1 && r.1 && final(self).position == old(self).position + 4
                && first_names(r.0@, ident_text(old(self).toks()[old(self).pos() + 1int].kind)),
            same_kind(old(self).cur(), open) && final(self).cur_is_eof() && !same_kind(
                final(self).toks()[final(self).pos() - 1].kind,
                close,
            ) ==> final(self).errs().len() > 0 && final(self).errs().last() == (ParserError::UnclosedDelimiter {
                span: final(self).toks()[final(self).pos() as int].span,
                delimiter: close,
            }),
            forall|n: int, t: bool|
                #![trigger name_list_at(old(self).toks(), next_pos(old(self).pos() as int), n, separator, close, t)]
                same_kind(old(self).cur(), open) && close is ClosingDelimiter && elem == ElemKind::Expr && !same_kind(close, separator)
                && name_list_at(old(self).toks(), next_pos(old(self).pos() as int), n, separator, close, t) ==> r.0@.len() == n && r.1 == t
                    && final(self).position == old(self).position + 2 * n + 1 + (if t { 1int } else { 0int })
                    && names_listed(r.0@, old(self).toks(), next_pos(old(self).pos() as int), n),
        decreases old(self).remaining(), if same_kind(old(self).cur(), open) {
            0nat
        } else {
            60nat
        },
    {
        let open_span = self.current().span;
        let delimiter_err_emitted = self.open_list(&open);
        let mut elements: Vec<Elem> = Vec::new();
        let mut trailing_comma = false;
        let ghost mut iters: int = 0;
        let ghost (n0, t0) = choose|n: int, t: bool| name_list_at(old(self).toks(), next_pos(old(self).pos() as int), n, separator, close, t);
        loop
            invariant_except_break
                (same_kind(old(self).cur(), open) && close is ClosingDelimiter && elem == ElemKind::Expr && !same_kind(close, separator)
                && name_list_at(old(self).toks(), next_pos(old(self).pos() as int), n0, separator, close, t0)) ==> 0 <= iters <= n0 && elements@.len() == iters
                    && names_listed(elements@, old(self).toks(), next_pos(old(self).pos() as int), iters)
                    && (iters < n0 ==> self.position == list_pos(old(self).position + 1int, iters))
                    && (iters == n0 ==> !t0 && !trailing_comma && self.position == list_pos(old(self).position + 1int, n0) - 1),
                (same_kind(old(self).cur(), open) && close is ClosingDelimiter && old(self).pos() + 1 < old(self).toks().len() && same_kind(
                old(self).toks()[old(self).pos() + 1int].kind,
                close,
            )) ==> iters == 0 && self.position == old(self).position + 1 && elements@.len() == 0 && !trailing_comma
                    && self.errs() == old(self).errs(),
                (same_kind(old(self).cur(), open) && close is ClosingDelimiter && elem == ElemKind::Expr && !same_kind(close, separator)
                && lone_name_at(old(self).toks(), old(self).pos() + 1int) && old(self).pos() + 2 < old(self).toks().len()
                && same_kind(old(self).toks()[old(self).pos() + 2int].kind, close)) ==> (iters == 0 && self.position == old(self).position + 1 && elements@.len() == 0) || (iters == 1
                    && self.position == old(self).position + 2 && elements@.len() == 1 && !trailing_comma
                    && first_names(elements@, ident_text(old(self).toks()[old(self).pos() + 1int].kind))),
                (same_kind(old(self).cur(), open) && close is ClosingDelimiter && elem == ElemKind::Expr && !same_kind(close, separator)
                && lone_name_at(old(self).toks(), old(self).pos() + 1int) && old(self).pos() + 3 < old(self).toks().len()
                && same_kind(old(self).toks()[old(self).pos() + 2int].kind, separator) && same_kind(old(self).toks()[old(self).pos() + 3int].kind, close)) ==> iters == 0 && self.position == old(self).position + 1 && elements@.len() == 0,
            invariant
                old(self).steps_to(self),
                self.position >= 1,
                all_of_kind(elements@, elem),
                !(separator is EOF),
                same_kind(old(self).cur(), open) ==> self.position > old(self).position,
                !delimiter_err_emitted ==> self.position > old(self).position,
                delimiter_err_emitted == !same_kind(old(self).cur(), open),
                trailing_comma ==> self.position >= 2 && same_kind(self.tokens@[self.position - 1].kind, separator),
            ensures
                old(self).steps_to(self),
                self.position >= 1,
                all_of_kind(elements@, elem),
                same_kind(old(self).cur(), open) ==> self.position > old(self).position,
                !delimiter_err_emitted ==> self.position > old(self).position,
                delimiter_err_emitted == !same_kind(old(self).cur(), open),
                same_kind(self.cur(), close) || self.cur_is_eof(),
                trailing_comma ==> self.position >= 2 && same_kind(self.tokens@[self.position - 1].kind, separator),
                trailing_comma && !self.cur_is_eof() ==> same_kind(self.cur(), close),
                (same_kind(old(self).cur(), open) && close is ClosingDelimiter && elem == ElemKind::Expr && !same_kind(close, separator)
                && name_list_at(old(self).toks(), next_pos(old(self).pos() as int), n0, separator, close, t0)) ==> elements@.len() == n0 && trailing_comma == t0
                    && names_listed(elements@, old(self).toks(), next_pos(old(self).pos() as int), n0)
                    && self.position == list_pos(old(self).position + 1int, n0) - 1 + (if t0 { 1int } else { 0int }),
                (same_kind(old(self).cur(), open) && close is ClosingDelimiter && old(self).pos() + 1 < old(self).toks().len() && same_kind(
                old(self).toks()[old(self).pos() + 1int].kind,
                close,
            )) ==> self.position == old(self).position + 1 && elements@.len() == 0 && !trailing_comma
                    && self.errs() == old(self).errs(),
                (same_kind(old(self).cur(), open) && close is ClosingDelimiter && elem == ElemKind::Expr && !same_kind(close, separator)
                && lone_name_at(old(self).toks(), old(self).pos() + 1int) && old(self).pos() + 2 < old(self).toks().len()
                && same_kind(old(self).toks()[old(self).pos() + 2int].kind, close)) ==> self.position == old(self).position + 2 && elements@.len() == 1 && !trailing_comma
                    && first_names(elements@, ident_text(old(self).toks()[old(self).pos() + 1int].kind)),
                (same_kind(old(self).cur(), open) && close is ClosingDelimiter && elem == ElemKind::Expr && !same_kind(close, separator)
                && lone_name_at(old(self).toks(), old(self).pos() + 1int) && old(self).pos() + 3 < old(self).toks().len()
                && same_kind(old(self).toks()[old(self).pos() + 2int].kind, separator) && same_kind(old(self).toks()[old(self).pos() + 3int].kind, close)) ==> self.position == old(self).position + 3 && elements@.len() == 1 && trailing_comma
                    && first_names(elements@, ident_text(old(self).toks()[old(self).pos() + 1int].kind)),
            decreases self.remaining() * 2 + if same_kind(self.cur(), close) {
                0nat
            } else {
                1nat
            },
        {
            proof {
                let i0 = next_pos(old(self).pos() as int);
                if same_kind(old(self).cur(), open) && close is ClosingDelimiter && elem == ElemKind::Expr && !same_kind(close, separator)
                    && name_list_at(old(self).toks(), i0, n0, separator, close, t0) && iters < n0 {
                    assert(lone_name_at(old(self).toks(), list_pos(i0, iters)));
                    assert(list_pos(i0, iters) == list_pos(old(self).position + 1int, iters));
                    if iters + 1 < n0 {
                        assert(lone_name_at(old(self).toks(), list_pos(i0, iters + 1)));
                        assert(same_kind(old(self).toks()[list_pos(i0, iters) + 1].kind, separator));
                    }
                }
            }
            if self.current_is(&close) || self.at_eof() {
                break;
            }
            let ghost start = *self;
            match self.parse_elem(elem) {
                Ok(element) => elements.push(element),
                Err(err) => {
                    self.emit(err);
                    self.recover_to_separator_or_closing(&close, &separator);
                },
            }
            if self.consume(&separator) {
                trailing_comma = true;
                if self.current_is(&close) {
                    break;
                }
            } else if !self.current_is(&close) {
                self.recover_to_separator_or_closing(&close, &separator);
                trailing_comma = false;
            } else {
                trailing_comma = false;
            }
            proof {
                iters = iters + 1;
            }
        }
        let ghost before = *self;
        if self.current_is(&close) {
            self.advance();
            proof {
                if !self.cur_is_eof() {
                    assert(self.position == before.position + 1);
                }
            }
        } else if !delimiter_err_emitted {
            self.report_unclosed(close, open_span);
        }
        proof {
            assert forall|n: int, t: bool|
                #![trigger name_list_at(old(self).toks(), next_pos(old(self).pos() as int), n, separator, close, t)]
                same_kind(old(self).cur(), open) && close is ClosingDelimiter && elem == ElemKind::Expr && !same_kind(close, separator)
                && name_list_at(old(self).toks(), next_pos(old(self).pos() as int), n, separator, close, t) implies elements@.len() == n && trailing_comma == t
                    && self.position == old(self).position + 2 * n + 1 + (if t { 1int } else { 0int })
                    && names_listed(elements@, old(self).toks(), next_pos(old(self).pos() as int), n) by {
                lemma_name_list_unique(old(self).toks(), next_pos(old(self).pos() as int), separator, close, n, t, n0, t0);
            }
        }
        (elements, trailing_comma)
    }

    /// Parses `open elem elem ... close`; after a broken element the rest of
    /// the list is skipped.
    fn parse_delimited(&mut self, open: TokenKind, close: TokenKind, elem: ElemKind) -> (r: Vec<Elem>)
        requires
            old(self).wf(),
            old(self).position >= 1,
            !(open is EOF),
            elem == ElemKind::Item || elem == ElemKind::AssocItem,
        ensures
            old(self).steps_to(final(self)),
            all_of_kind(r@, elem),
            same_kind(old(self).cur(), open) ==> final(self).position > old(self).position,
        decreases old(self).remaining(), if same_kind(old(self).cur(), open) {
            0nat
        } else {
            60nat
        },
    {
        let open_span = self.current().span;
        let delimiter_err_emitted = self.open_list(&open);
        let mut elements: Vec<Elem> = Vec::new();
        loop
            invariant
                old(self).steps_to(self),
                self.position >= 1,
                all_of_kind(elements@, elem),
                elem == ElemKind::Item || elem == ElemKind::AssocItem,
                same_kind(old(self).cur(), open) ==> self.position > old(self).position,
                !delimiter_err_emitted ==> self.position > old(self).position,
                delimiter_err_emitted == !same_kind(old(self).cur(), open),
            decreases self.remaining(),
        {
            if self.current_is(&close) || self.at_eof() {
                break;
            }
            match self.parse_elem(elem) {
                Ok(element) => elements.push(element),
                Err(err) => {
                    self.emit(err);
                    // Recover to closing delimiter
                    while !self.at_eof() && !self.current_is(&close)
                        invariant
                            old(self).steps_to(self),
                            self.position >= 1,
                            same_kind(old(self).cur(), open) ==> self.position > old(self).position,
                            !delimiter_err_emitted ==> self.position > old(self).position,
                        decreases self.remaining(),
                    {
                        self.advance();
                    }
                    break;
                },
            }
        }
        if self.current_is(&close) {
            self.advance();
        } else if !delimiter_err_emitted {
            self.report_unclosed(close, open_span);
        }
        elements
    }
}

} // verus!
