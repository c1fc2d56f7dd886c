use crate::lexer::token_kind::{spec_is_infix_op, Delimiter, Kw, Punct, TokenKind};
use crate::parser::ast::{AssignOp, AstNode, BinOp, Expr, LiteralExpr, UnOp};
use crate::lexer::token::all_digits;
use crate::parser::error::ParserError;
use crate::lexer::display::spec_punct_text;
use crate::span::Span;
use crate::strings::chars_of;
use vstd::prelude::*;

verus! {

/// The binary operator that a token stands for.
pub open spec fn spec_bin_op(kind: TokenKind) -> Option<BinOp> {
    match kind {
        TokenKind::Punctuation(p) => match p {
            Punct::Plus => Some(BinOp::Add),
            Punct::Minus => Some(BinOp::Sub),
            Punct::Star => Some(BinOp::Mul),
            Punct::Slash => Some(BinOp::Div),
            Punct::Percent => Some(BinOp::Rem),
            Punct::And => Some(BinOp::And),
            Punct::Or => Some(BinOp::Or),
            Punct::EqEq => Some(BinOp::EqEq),
            Punct::Less => Some(BinOp::Less),
            Punct::LessEq => Some(BinOp::LessEq),
            Punct::Greater => Some(BinOp::Greater),
            Punct::GreaterEq => Some(BinOp::GreaterEq),
            Punct::NotEq => Some(BinOp::NotEq),
            _ => None,
        },
        _ => None,
    }
}

/// The prefix operator that a token stands for.
pub open spec fn spec_un_op(kind: TokenKind) -> Option<UnOp> {
    match kind {
        TokenKind::Punctuation(p) => match p {
            Punct::Star => Some(UnOp::Deref),
            Punct::Bang => Some(UnOp::Not),
            Punct::Minus => Some(UnOp::Neg),
            _ => None,
        },
        _ => None,
    }
}

/// The compound assignment that a token stands for.
pub open spec fn spec_assign_op(kind: TokenKind) -> Option<AssignOp> {
    match kind {
        TokenKind::Punctuation(p) => match p {
            Punct::PlusEq => Some(AssignOp::AddAssign),
            Punct::MinusEq => Some(AssignOp::SubAssign),
            Punct::StarEq => Some(AssignOp::MulAssign),
            Punct::SlashEq => Some(AssignOp::DivAssign),
            Punct::PercentEq => Some(AssignOp::RemAssign),
            _ => None,
        },
        _ => None,
    }
}

/// Left and right binding power of the token in an expression: postfix
/// forms bind tightest, then `as`, the arithmetic, comparison and logical
/// operators, and assignments last (to the right).
pub open spec fn spec_precedence(kind: TokenKind) -> (u8, u8) {
    match kind {
        TokenKind::OpeningDelimiter(Delimiter::Paren) | TokenKind::OpeningDelimiter(
            Delimiter::Bracket,
        ) | TokenKind::Punctuation(Punct::Dot) => (100, 101),
        TokenKind::Keyword(Kw::As) => (12, 13),
        TokenKind::Punctuation(Punct::Star) | TokenKind::Punctuation(Punct::Slash)
        | TokenKind::Punctuation(Punct::Percent) => (11, 12),
        TokenKind::Punctuation(Punct::Plus) | TokenKind::Punctuation(Punct::Minus) => (10, 11),
        TokenKind::Punctuation(Punct::Less) | TokenKind::Punctuation(Punct::LessEq)
        | TokenKind::Punctuation(Punct::Greater) | TokenKind::Punctuation(Punct::GreaterEq) => (
            5,
            6,
        ),
        TokenKind::Punctuation(Punct::EqEq) | TokenKind::Punctuation(Punct::NotEq) => (4, 5),
        TokenKind::Punctuation(Punct::And) => (3, 4),
        TokenKind::Punctuation(Punct::Or) => (2, 3),
        TokenKind::Punctuation(Punct::Eq) | TokenKind::Punctuation(Punct::PlusEq)
        | TokenKind::Punctuation(Punct::MinusEq) | TokenKind::Punctuation(Punct::StarEq)
        | TokenKind::Punctuation(Punct::SlashEq) | TokenKind::Punctuation(Punct::PercentEq) => (
            1,
            0,
        ),
        _ => (0, 0),
    }
}

/// Tokens after which an expression goes on: a call, a field or method, an
/// index, a cast, or an infix operator.
pub open spec fn continues_expr(t: TokenKind) -> bool {
    ||| t == TokenKind::OpeningDelimiter(Delimiter::Paren)
    ||| t == TokenKind::OpeningDelimiter(Delimiter::Bracket)
    ||| t == TokenKind::Punctuation(Punct::Dot)
    ||| t == TokenKind::Keyword(Kw::As)
    ||| spec_is_infix_op(t)
}

/// The binding powers of a binary operator: those of its token.
pub open spec fn binop_bp(op: BinOp) -> (u8, u8) {
    match op {
        BinOp::Mul | BinOp::Div | BinOp::Rem => (11, 12),
        BinOp::Add | BinOp::Sub => (10, 11),
        BinOp::Less | BinOp::LessEq | BinOp::Greater | BinOp::GreaterEq => (5, 6),
        BinOp::EqEq | BinOp::NotEq => (4, 5),
        BinOp::And => (3, 4),
        BinOp::Or => (2, 3),
    }
}

/// The binding powers of the infix operator at the root of an expression,
/// if there is one there.
pub open spec fn infix_bp(e: Expr) -> Option<(u8, u8)> {
    match e {
        Expr::Binary(b) => Some(binop_bp(b.operator.node)),
        Expr::Assign(_) => Some((1, 0)),
        Expr::AssignOp(_) => Some((1, 0)),
        _ => None,
    }
}

/// Whether the operands of an infix operator with binding powers `bp` hang
/// as precedence says: an infix operator at the root of the left operand
/// binds tighter (to its right) than this one does to its left, and one at
/// the root of the right operand binds at least as tight (to its left) as
/// this one does to its right.
pub open spec fn operands_ok(left: Expr, right: Expr, bp: (u8, u8)) -> bool {
    &&& (infix_bp(left) matches Some(l) ==> l.1 > bp.0)
    &&& (infix_bp(right) matches Some(r) ==> r.0 >= bp.1)
}

/// Whether every infix operator reached from the root through the operands
/// of infix operators has its operands hang as precedence says.
pub open spec fn prec_ok(e: AstNode<Expr>) -> bool
    decreases e,
{
    match e.node {
        Expr::Binary(b) => prec_ok(*b.left) && prec_ok(*b.right) && operands_ok(
            b.left.node,
            b.right.node,
            binop_bp(b.operator.node),
        ),
        Expr::Assign(a) => prec_ok(*a.target) && prec_ok(*a.value) && operands_ok(a.target.node, a.value.node, (1, 0)),
        Expr::AssignOp(a) => prec_ok(*a.target) && prec_ok(*a.value) && operands_ok(
            a.target.node,
            a.value.node,
            (1, 0),
        ),
        _ => true,
    }
}

/// In an expression whose operands hang as precedence says, the left
/// operand of a binary operator has no looser binary operator at its root,
/// and the right operand has only a strictly tighter one there: operators
/// of higher precedence bind tighter, and operators of equal precedence
/// group to the left.
pub proof fn law_binary_operands_by_precedence(e: AstNode<Expr>)
    requires
        prec_ok(e),
        e.node is Binary,
    ensures
        ({
            let b = e.node->Binary_0;
            &&& (b.left.node matches Expr::Binary(l) ==> binop_bp(l.operator.node).0 >= binop_bp(b.operator.node).0)
            &&& (b.right.node matches Expr::Binary(r) ==> binop_bp(r.operator.node).0 > binop_bp(b.operator.node).0)
        }),
{
    let b = e.node->Binary_0;
    assert(binop_bp(b.operator.node).1 == binop_bp(b.operator.node).0 + 1);
    match b.left.node {
        Expr::Binary(l) => {
            assert(binop_bp(l.operator.node).1 == binop_bp(l.operator.node).0 + 1);
        },
        _ => {},
    }
}

/// A binary operator's node binds as its token does.
pub proof fn lemma_bin_op_precedence(t: TokenKind)
    requires
        spec_bin_op(t) is Some,
    ensures
        spec_precedence(t) == binop_bp(spec_bin_op(t)->0),
{
}

/// Assignments bind loosest, to the right.
pub proof fn lemma_assign_precedence(t: TokenKind)
    requires
        spec_assign_op(t) is Some || t == TokenKind::Punctuation(Punct::Eq),
    ensures
        spec_precedence(t) == (1u8, 0u8),
{
}

pub fn bin_op_from(kind: &TokenKind) -> (r: Option<BinOp>)
    ensures
        r == spec_bin_op(*kind),
{
    match kind {
        TokenKind::Punctuation(p) => match p {
            Punct::Plus => Some(BinOp::Add),
            Punct::Minus => Some(BinOp::Sub),
            Punct::Star => Some(BinOp::Mul),
            Punct::Slash => Some(BinOp::Div),
            Punct::Percent => Some(BinOp::Rem),
            Punct::And => Some(BinOp::And),
            Punct::Or => Some(BinOp::Or),
            Punct::EqEq => Some(BinOp::EqEq),
            Punct::Less => Some(BinOp::Less),
            Punct::LessEq => Some(BinOp::LessEq),
            Punct::Greater => Some(BinOp::Greater),
            Punct::GreaterEq => Some(BinOp::GreaterEq),
            Punct::NotEq => Some(BinOp::NotEq),
            _ => None,
        },
        _ => None,
    }
}

pub fn un_op_from(kind: &TokenKind) -> (r: Option<UnOp>)
    ensures
        r == spec_un_op(*kind),
{
    match kind {
        TokenKind::Punctuation(p) => match p {
            Punct::Star => Some(UnOp::Deref),
            Punct::Bang => Some(UnOp::Not),
            Punct::Minus => Some(UnOp::Neg),
            _ => None,
        },
        _ => None,
    }
}

pub fn assign_op_from(kind: &TokenKind) -> (r: Option<AssignOp>)
    ensures
        r == spec_assign_op(*kind),
{
    match kind {
        TokenKind::Punctuation(p) => match p {
            Punct::PlusEq => Some(AssignOp::AddAssign),
            Punct::MinusEq => Some(AssignOp::SubAssign),
            Punct::StarEq => Some(AssignOp::MulAssign),
            Punct::SlashEq => Some(AssignOp::DivAssign),
            Punct::PercentEq => Some(AssignOp::RemAssign),
            _ => None,
        },
        _ => None,
    }
}

pub fn precedence(kind: &TokenKind) -> (r: (u8, u8))
    ensures
        r == spec_precedence(*kind),
{
    match kind {
        TokenKind::OpeningDelimiter(Delimiter::Paren) | TokenKind::OpeningDelimiter(
            Delimiter::Bracket,
        ) | TokenKind::Punctuation(Punct::Dot) => (100, 101),
        TokenKind::Keyword(Kw::As) => (12, 13),
        TokenKind::Punctuation(Punct::Star) | TokenKind::Punctuation(Punct::Slash)
        | TokenKind::Punctuation(Punct::Percent) => (11, 12),
        TokenKind::Punctuation(Punct::Plus) | TokenKind::Punctuation(Punct::Minus) => (10, 11),
        TokenKind::Punctuation(Punct::Less) | TokenKind::Punctuation(Punct::LessEq)
        | TokenKind::Punctuation(Punct::Greater) | TokenKind::Punctuation(Punct::GreaterEq) => (
            5,
            6,
        ),
        TokenKind::Punctuation(Punct::EqEq) | TokenKind::Punctuation(Punct::NotEq) => (4, 5),
        TokenKind::Punctuation(Punct::And) => (3, 4),
        TokenKind::Punctuation(Punct::Or) => (2, 3),
        TokenKind::Punctuation(Punct::Eq) | TokenKind::Punctuation(Punct::PlusEq)
        | TokenKind::Punctuation(Punct::MinusEq) | TokenKind::Punctuation(Punct::StarEq)
        | TokenKind::Punctuation(Punct::SlashEq) | TokenKind::Punctuation(Punct::PercentEq) => (
            1,
            0,
        ),
        _ => (0, 0),
    }
}

/// The number that the decimal digits spell.
pub open spec fn digits_value(s: Seq<char>) -> nat
    decreases s.len(),
{
    if s.len() == 0 {
        0
    } else {
        digits_value(s.drop_last()) * 10 + ((s.last() as u32 - '0' as u32) as nat)
    }
}

/// The integer suffixes that the language knows.
pub enum IntSuffix {
    I32,
    U32,
    Invalid,
}

pub open spec fn spec_int_suffix(suffix: Option<Seq<char>>) -> IntSuffix {
    match suffix {
        None => IntSuffix::I32,
        Some(s) => if s == seq!['i', '3', '2'] {
            IntSuffix::I32
        } else if s == seq!['u', '3', '2'] {
            IntSuffix::U32
        } else {
            IntSuffix::Invalid
        },
    }
}

pub open spec fn opt_view(s: Option<String>) -> Option<Seq<char>> {
    match s {
        Some(s) => Some(s@),
        None => None,
    }
}

/// Whether an integer literal with these digits and suffix is converted
/// without error, and to what: an unsuffixed literal is an `i32`.
pub open spec fn spec_int_literal(digits: Seq<char>, suffix: Option<Seq<char>>) -> Option<LiteralExpr> {
    let v = digits_value(digits);
    match spec_int_suffix(suffix) {
        IntSuffix::I32 => if v <= i32::MAX {
            Some(LiteralExpr::I32(v as i32))
        } else {
            None
        },
        IntSuffix::U32 => if v <= u32::MAX {
            Some(LiteralExpr::U32(v as u32))
        } else {
            None
        },
        IntSuffix::Invalid => None,
    }
}

proof fn lemma_digits_value_step(s: Seq<char>, i: int)
    requires
        0 <= i < s.len(),
    ensures
        digits_value(s.take(i + 1)) == digits_value(s.take(i)) * 10 + ((s[i] as u32 - '0' as u32) as nat),
{
    assert(s.take(i + 1).drop_last() =~= s.take(i));
}

/// Converts an integer literal: `None` or `i32` gives an `i32`, `u32` a `u32`;
/// a value too large for its type and an unknown suffix are errors.
pub fn lower_int_literal(value: &String, suffix: &Option<String>, span: Span) -> (r: Result<
    LiteralExpr,
    ParserError,
>)
    requires
        all_digits(value@),
    ensures
        r is Ok <==> spec_int_literal(value@, opt_view(*suffix)) is Some,
        r matches Ok(l) ==> Some(l) == spec_int_literal(value@, opt_view(*suffix)),
        r matches Err(e) ==> (spec_int_suffix(opt_view(*suffix)) is Invalid <==> e is InvalidLiteralSuffix),
{
    let kind = match suffix {
        None => IntSuffix::I32,
        Some(s) => {
            let cs = chars_of(s);
            proof {
                assert(['i', '3', '2']@ =~= seq!['i', '3', '2']);
                assert(['u', '3', '2']@ =~= seq!['u', '3', '2']);
            }
            if crate::strings::chars_eq(&cs, &['i', '3', '2']) {
                IntSuffix::I32
            } else if crate::strings::chars_eq(&cs, &['u', '3', '2']) {
                IntSuffix::U32
            } else {
                IntSuffix::Invalid
            }
        },
    };
    let digits = chars_of(value);
    let mut acc: u64 = 0;
    let mut big = false;
    let mut i: usize = 0;
    while i < digits.len()
        invariant
            i <= digits.len(),
            digits@ == value@,
            all_digits(value@),
            big ==> digits_value(digits@.take(i as int)) > u32::MAX,
            !big ==> acc == digits_value(digits@.take(i as int)) && acc <= u32::MAX,
        decreases digits.len() - i,
    {
        proof {
            lemma_digits_value_step(digits@, i as int);
            assert('0' <= digits@[i as int] <= '9');
        }
        if !big {
            let d = (digits[i] as u32 - '0' as u32) as u64;
            acc = acc * 10 + d;
            if acc > 0xFFFF_FFFF {
                big = true;
            }
        }
        i = i + 1;
    }
    proof {
        assert(digits@.take(digits.len() as int) =~= digits@);
    }
    match kind {
        IntSuffix::I32 => {
            if !big && acc <= 0x7FFF_FFFF {
                Ok(LiteralExpr::I32(acc as i32))
            } else {
                Err(ParserError::LiteralOverflow {
                    span,
                    message: "the literal does not fit in `i32`".to_string(),
                })
            }
        },
        IntSuffix::U32 => {
            if !big {
                Ok(LiteralExpr::U32(acc as u32))
            } else {
                Err(ParserError::LiteralOverflow {
                    span,
                    message: "the literal does not fit in `u32`".to_string(),
                })
            }
        },
        IntSuffix::Invalid => {
            let sfx = match suffix {
                Some(s) => s.clone(),
                None => String::new(),
            };
            Err(ParserError::InvalidLiteralSuffix {
                span,
                suffix: sfx,
                literal_type: "integer".to_string(),
                valid_suffixes: "i32, u32".to_string(),
            })
        },
    }
}

/// Converts a floating-point literal: it has no suffix or `f64`.
pub fn lower_float_literal(value: &String, suffix: &Option<String>, span: Span) -> (r: Result<
    LiteralExpr,
    ParserError,
>)
    ensures
        r is Ok <==> (opt_view(*suffix) is None || opt_view(*suffix) == Some(seq!['f', '6', '4'])),
        r matches Ok(l) ==> l == LiteralExpr::Float(*value),
        r matches Err(e) ==> e is InvalidLiteralSuffix,
{
    match suffix {
        None => Ok(LiteralExpr::Float(value.clone())),
        Some(s) => {
            let cs = chars_of(s);
            proof {
                assert(['f', '6', '4']@ =~= seq!['f', '6', '4']);
            }
            if crate::strings::chars_eq(&cs, &['f', '6', '4']) {
                Ok(LiteralExpr::Float(value.clone()))
            } else {
                Err(ParserError::InvalidLiteralSuffix {
                    span,
                    suffix: s.clone(),
                    literal_type: "float".to_string(),
                    valid_suffixes: "f64".to_string(),
                })
            }
        },
    }
}


/// How a binary operator is written in the source text.
pub open spec fn bin_op_symbol(op: BinOp) -> Seq<char> {
    match op {
        BinOp::Add => seq!['+'],
        BinOp::Sub => seq!['-'],
        BinOp::Mul => seq!['*'],
        BinOp::Div => seq!['/'],
        BinOp::Rem => seq!['%'],
        BinOp::And => seq!['&', '&'],
        BinOp::Or => seq!['|', '|'],
        BinOp::EqEq => seq!['=', '='],
        BinOp::Less => seq!['<'],
        BinOp::LessEq => seq!['<', '='],
        BinOp::Greater => seq!['>'],
        BinOp::GreaterEq => seq!['>', '='],
        BinOp::NotEq => seq!['!', '='],
    }
}

/// A token stands for the binary operator that is written as the token is
/// spelled, and a punctuation mark spelled as a binary operator stands for
/// that operator: `/` is division, `%` the remainder, and so on.
pub proof fn law_bin_op_is_written_as_its_token(kind: TokenKind, op: BinOp)
    ensures
        spec_bin_op(kind) == Some(op) ==> (kind matches TokenKind::Punctuation(p) && spec_punct_text(p)
            == bin_op_symbol(op)),
        (kind matches TokenKind::Punctuation(p) && spec_punct_text(p) == bin_op_symbol(op)) ==> spec_bin_op(kind)
            == Some(op),
{
    if let TokenKind::Punctuation(p) = kind {
        if spec_punct_text(p) == bin_op_symbol(op) {
            assert(spec_punct_text(p).len() == bin_op_symbol(op).len());
            assert(spec_punct_text(p)[0] == bin_op_symbol(op)[0]);
            if spec_punct_text(p).len() == 2 {
                assert(spec_punct_text(p)[1] == bin_op_symbol(op)[1]);
            }
        }
    }
}


/// How a prefix operator is written in the source text.
pub open spec fn un_op_symbol(op: UnOp) -> Seq<char> {
    match op {
        UnOp::Deref => seq!['*'],
        UnOp::Not => seq!['!'],
        UnOp::Neg => seq!['-'],
    }
}

/// How a compound assignment is written: its operator, then `=`.
pub open spec fn assign_op_symbol(op: AssignOp) -> Seq<char> {
    match op {
        AssignOp::AddAssign => seq!['+', '='],
        AssignOp::SubAssign => seq!['-', '='],
        AssignOp::MulAssign => seq!['*', '='],
        AssignOp::DivAssign => seq!['/', '='],
        AssignOp::RemAssign => seq!['%', '='],
    }
}

/// A token stands for the prefix operator, or the compound assignment,
/// that is written as the token is spelled, and a punctuation mark so
/// spelled stands for it.
pub proof fn law_un_and_assign_ops_are_written_as_their_token(kind: TokenKind, u: UnOp, a: AssignOp)
    ensures
        spec_un_op(kind) == Some(u) ==> (kind matches TokenKind::Punctuation(p) && spec_punct_text(p)
            == un_op_symbol(u)),
        (kind matches TokenKind::Punctuation(p) && spec_punct_text(p) == un_op_symbol(u)) ==> spec_un_op(kind)
            == Some(u),
        spec_assign_op(kind) == Some(a) ==> (kind matches TokenKind::Punctuation(p) && spec_punct_text(p)
            == assign_op_symbol(a)),
        (kind matches TokenKind::Punctuation(p) && spec_punct_text(p) == assign_op_symbol(a)) ==> spec_assign_op(kind)
            == Some(a),
{
    if let TokenKind::Punctuation(p) = kind {
        if spec_punct_text(p) == un_op_symbol(u) {
            assert(spec_punct_text(p).len() == un_op_symbol(u).len());
            assert(spec_punct_text(p)[0] == un_op_symbol(u)[0]);
        }
        if spec_punct_text(p) == assign_op_symbol(a) {
            assert(spec_punct_text(p).len() == assign_op_symbol(a).len());
            assert(spec_punct_text(p)[0] == assign_op_symbol(a)[0]);
            assert(spec_punct_text(p)[1] == assign_op_symbol(a)[1]);
        }
    }
}

} // verus!
