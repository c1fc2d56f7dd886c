use crate::parser::ast;
use crate::public::span::Span;
use crate::span as internal_span;
use crate::strings::{decimal, join_path, push_decimal, push_str, push_string};
use std::collections::HashMap;
use vstd::prelude::*;

verus! {

broadcast use {vstd::std_specs::hash::group_hash_axioms, vstd::std_specs::vec::group_vec_axioms};

/// Identifies a node of the syntax tree, as the compiler hands it out.
#[derive(Clone, Copy, Debug, PartialEq, Eq, Hash, Structural)]
pub struct AstId(pub usize);

impl AstId {
    pub fn from_ast_id(id: ast::AstId) -> (r: AstId)
        ensures
            r.0 == id.0,
    {
        AstId(id.0)
    }
}

/// The syntax tree as a flat table: the ids of the top-level items, and
/// each node by the number inside its id.
#[derive(Debug)]
pub struct AstCrate {
    pub root_items: Vec<AstId>,
    pub nodes: HashMap<usize, AstNode>,
}

/// One node of the flat syntax tree: what kind of node it is, a short text
/// that names it, and the ids of its children, in order.
#[derive(Debug)]
pub struct AstNode {
    pub id: AstId,
    pub span: Span,
    pub kind: String,
    pub label: String,
    pub children: Vec<AstId>,
}

/// What a converted node holds, as mathematical values.
pub struct Entry {
    pub kind: Seq<char>,
    pub label: Seq<char>,
    pub children: Seq<usize>,
}

/// The numbers inside the ids.
pub open spec fn ids_of(v: Seq<AstId>) -> Seq<usize> {
    v.map_values(|a: AstId| a.0)
}

proof fn lemma_ids_push(s: Seq<AstId>, x: AstId)
    ensures
        ids_of(s.push(x)) == ids_of(s).push(x.0),
{
    assert(ids_of(s.push(x)) =~= ids_of(s).push(x.0));
}

/// The numbers inside the ids of the nodes.
pub open spec fn ast_ids<T>(v: Seq<ast::AstNode<T>>) -> Seq<usize> {
    v.map_values(|n: ast::AstNode<T>| n.ast_id.0)
}

/// The number inside the id of the node, if there is one.
pub open spec fn opt_id<T>(o: Option<ast::AstNode<T>>) -> Seq<usize> {
    match o {
        Some(n) => seq![n.ast_id.0],
        None => Seq::empty(),
    }
}

pub open spec fn opt_box_id<T>(o: Option<Box<ast::AstNode<T>>>) -> Seq<usize> {
    match o {
        Some(n) => seq![n.ast_id.0],
        None => Seq::empty(),
    }
}

impl AstNode {
    /// Whether this is the entry of node `id`, at `span`, holding `e`.
    pub open spec fn holds(&self, id: AstId, span: internal_span::Span, e: Entry) -> bool {
        &&& self.id == id
        &&& self.span == Span::spec_from_span(span)
        &&& self.kind@ == e.kind
        &&& self.label@ == e.label
        &&& ids_of(self.children@) == e.children
    }
}

pub(crate) fn literal_string(s: &str) -> (r: String)
    ensures
        r@ == s@,
{
    let mut r = String::new();
    push_str(&mut r, s);
    assert(r@ =~= s@);
    r
}

pub(crate) fn clone_name(name: &String) -> (r: String)
    ensures
        r@ == name@,
{
    name.clone()
}

pub(crate) fn prefixed_name(prefix: &str, name: &String) -> (r: String)
    ensures
        r@ == prefix@ + name@,
{
    let mut r = String::new();
    push_str(&mut r, prefix);
    push_string(&mut r, name);
    assert(r@ =~= prefix@ + name@);
    r
}

/// The label of an impl: whether it implements a trait for a type.
pub open spec fn spec_impl_label(for_trait: bool) -> Seq<char> {
    if for_trait {
        "impl ... for ..."@
    } else {
        "impl"@
    }
}

pub(crate) fn impl_label(for_trait: bool) -> (r: String)
    ensures
        r@ == spec_impl_label(for_trait),
{
    if for_trait {
        literal_string("impl ... for ...")
    } else {
        literal_string("impl")
    }
}

/// The name of a binary operator.
pub open spec fn spec_bin_op_name(op: ast::BinOp) -> Seq<char> {
    match op {
        ast::BinOp::Add => "Add"@,
        ast::BinOp::Sub => "Sub"@,
        ast::BinOp::Mul => "Mul"@,
        ast::BinOp::Div => "Div"@,
        ast::BinOp::Rem => "Rem"@,
        ast::BinOp::And => "And"@,
        ast::BinOp::Or => "Or"@,
        ast::BinOp::EqEq => "EqEq"@,
        ast::BinOp::Less => "Less"@,
        ast::BinOp::LessEq => "LessEq"@,
        ast::BinOp::Greater => "Greater"@,
        ast::BinOp::GreaterEq => "GreaterEq"@,
        ast::BinOp::NotEq => "NotEq"@,
    }
}

fn bin_op_name(op: ast::BinOp) -> (r: String)
    ensures
        r@ == spec_bin_op_name(op),
{
    match op {
        ast::BinOp::Add => literal_string("Add"),
        ast::BinOp::Sub => literal_string("Sub"),
        ast::BinOp::Mul => literal_string("Mul"),
        ast::BinOp::Div => literal_string("Div"),
        ast::BinOp::Rem => literal_string("Rem"),
        ast::BinOp::And => literal_string("And"),
        ast::BinOp::Or => literal_string("Or"),
        ast::BinOp::EqEq => literal_string("EqEq"),
        ast::BinOp::Less => literal_string("Less"),
        ast::BinOp::LessEq => literal_string("LessEq"),
        ast::BinOp::Greater => literal_string("Greater"),
        ast::BinOp::GreaterEq => literal_string("GreaterEq"),
        ast::BinOp::NotEq => literal_string("NotEq"),
    }
}

/// The name of a unary operator.
pub open spec fn spec_un_op_name(op: ast::UnOp) -> Seq<char> {
    match op {
        ast::UnOp::Deref => "Deref"@,
        ast::UnOp::Not => "Not"@,
        ast::UnOp::Neg => "Neg"@,
    }
}

fn un_op_name(op: ast::UnOp) -> (r: String)
    ensures
        r@ == spec_un_op_name(op),
{
    match op {
        ast::UnOp::Deref => literal_string("Deref"),
        ast::UnOp::Not => literal_string("Not"),
        ast::UnOp::Neg => literal_string("Neg"),
    }
}

/// The name of a compound assignment operator.
pub open spec fn spec_assign_op_name(op: ast::AssignOp) -> Seq<char> {
    match op {
        ast::AssignOp::AddAssign => "AddAssign"@,
        ast::AssignOp::SubAssign => "SubAssign"@,
        ast::AssignOp::MulAssign => "MulAssign"@,
        ast::AssignOp::DivAssign => "DivAssign"@,
        ast::AssignOp::RemAssign => "RemAssign"@,
    }
}

fn assign_op_name(op: ast::AssignOp) -> (r: String)
    ensures
        r@ == spec_assign_op_name(op),
{
    match op {
        ast::AssignOp::AddAssign => literal_string("AddAssign"),
        ast::AssignOp::SubAssign => literal_string("SubAssign"),
        ast::AssignOp::MulAssign => literal_string("MulAssign"),
        ast::AssignOp::DivAssign => literal_string("DivAssign"),
        ast::AssignOp::RemAssign => literal_string("RemAssign"),
    }
}

/// How a literal is written: a number in decimal, a string between
/// double quotes, a floating-point literal as it was written.
pub open spec fn spec_literal_label(l: ast::LiteralExpr) -> Seq<char> {
    match l {
        ast::LiteralExpr::Bool(b) => if b {
            "true"@
        } else {
            "false"@
        },
        ast::LiteralExpr::I32(i) => if i < 0 {
            "-"@ + decimal((-i) as nat)
        } else {
            decimal(i as nat)
        },
        ast::LiteralExpr::U32(u) => decimal(u as nat),
        ast::LiteralExpr::Float(s) => s@,
        ast::LiteralExpr::Str(s) => "\""@ + s@ + "\""@,
        ast::LiteralExpr::Unit => "()"@,
    }
}

fn literal_label(l: &ast::LiteralExpr) -> (r: String)
    ensures
        r@ == spec_literal_label(*l),
{
    match l {
        ast::LiteralExpr::Bool(b) => if *b {
            literal_string("true")
        } else {
            literal_string("false")
        },
        ast::LiteralExpr::I32(i) => {
            let mut s = String::new();
            if *i < 0 {
                push_str(&mut s, "-");
                let m: i64 = -(*i as i64);
                push_decimal(&mut s, m as usize);
            } else {
                push_decimal(&mut s, *i as usize);
            }
            assert(s@ =~= spec_literal_label(*l));
            s
        },
        ast::LiteralExpr::U32(u) => {
            let mut s = String::new();
            push_decimal(&mut s, *u as usize);
            assert(s@ =~= spec_literal_label(*l));
            s
        },
        ast::LiteralExpr::Float(f) => clone_name(f),
        ast::LiteralExpr::Str(t) => {
            let mut s = String::new();
            push_str(&mut s, "\"");
            push_string(&mut s, t);
            push_str(&mut s, "\"");
            assert(s@ =~= spec_literal_label(*l));
            s
        },
        ast::LiteralExpr::Unit => literal_string("()"),
    }
}

/// The names of the segments, joined by `::`.
pub open spec fn spec_path_label(segments: Seq<ast::AstNode<ast::PathSegment>>) -> Seq<char> {
    join_path(segments.map_values(|s: ast::AstNode<ast::PathSegment>| s.node.ident.node.name@))
}

fn path_label(segments: &Vec<ast::AstNode<ast::PathSegment>>) -> (r: String)
    ensures
        r@ == spec_path_label(segments@),
{
    let ghost names = segments@.map_values(|s: ast::AstNode<ast::PathSegment>| s.node.ident.node.name@);
    let mut text = String::new();
    let mut i: usize = 0;
    while i < segments.len()
        invariant
            i <= segments.len(),
            names == segments@.map_values(|s: ast::AstNode<ast::PathSegment>| s.node.ident.node.name@),
            text@ == join_path(names.take(i as int)),
        decreases segments.len() - i,
    {
        if i > 0 {
            text.push(':');
            text.push(':');
        }
        push_string(&mut text, &segments[i].node.ident.node.name);
        i = i + 1;
        assert(names.take(i as int).drop_last() =~= names.take(i - 1));
        assert(names.take(i as int).last() == segments@[i - 1].node.ident.node.name@);
        assert(i == 1 ==> names.take(i as int) =~= seq![names[0]]);
    }
    assert(names.take(segments.len() as int) =~= names);
    text
}

fn append_ids(out: &mut Vec<AstId>, v: &Vec<AstId>)
    ensures
        ids_of(final(out)@) == ids_of(old(out)@) + ids_of(v@),
{
    let mut i: usize = 0;
    while i < v.len()
        invariant
            i <= v.len(),
            ids_of(out@) == ids_of(old(out)@) + ids_of(v@.take(i as int)),
        decreases v.len() - i,
    {
        let ghost prev = out@;
        out.push(v[i]);
        proof {
            lemma_ids_push(prev, v@[i as int]);
            assert(ids_of(v@.take(i + 1)) =~= ids_of(v@.take(i as int)).push(v@[i as int].0));
            assert(ids_of(old(out)@) + ids_of(v@.take(i + 1)) =~= (ids_of(old(out)@) + ids_of(v@.take(i as int))).push(v@[i as int].0));
        }
        i = i + 1;
    }
    assert(v@.take(v.len() as int) =~= v@);
}

/// Builds the flat table of a syntax tree.
struct AstConverter {
    nodes: HashMap<usize, AstNode>,
}

impl AstCrate {
    /// The flat table of the crate's syntax tree: each node appears under
    /// its id with its kind, label and children.
    pub fn from_krate(krate: &ast::Crate) -> (r: AstCrate)
        ensures
            ids_of(r.root_items@) == ast_ids(krate.items@),
            forall|i: int| 0 <= i < krate.items@.len() ==> r.nodes@.contains_key(#[trigger] krate.items@[i].ast_id.0),
            table_written(Map::<usize, AstNode>::empty(), r.nodes@, tbl_items(krate.items@)),
    {
        let mut converter = AstConverter { nodes: HashMap::new() };
        let mut root_items: Vec<AstId> = Vec::new();
        converter.convert_item_list(&krate.items, &mut root_items);
        proof {
            assert(ids_of(root_items@) =~= ast_ids(krate.items@));
        }
        AstCrate { root_items, nodes: converter.nodes }
    }
}

impl AstConverter {
    fn insert_node(&mut self, id: AstId, kind: String, label: String, children: Vec<AstId>, span: internal_span::Span)
        ensures
            final(self).nodes@.contains_key(id.0),
            final(self).nodes@[id.0].holds(id, span, Entry { kind: kind@, label: label@, children: ids_of(children@) }),
            forall|key: usize| old(self).nodes@.contains_key(key) ==> #[trigger] final(self).nodes@.contains_key(key),
            table_written(
                old(self).nodes@,
                final(self).nodes@,
                Map::<usize, (internal_span::Span, Entry)>::empty().insert(
                    id.0,
                    (span, Entry { kind: kind@, label: label@, children: ids_of(children@) }),
                ),
            ),
    {
        let node = AstNode { id, span: Span::from_span(span), kind, label, children };
        self.nodes.insert(id.0, node);
    }
}

/// What the converted entry of a `Item` node holds: its kind, its label and the ids of its children.
pub open spec fn item_entry(n: ast::Item) -> Entry {
    match n {
        ast::Item::Fn(f) => Entry { kind: "fn"@, label: "fn "@ + f.sig.node.ident.node.name@, children: seq![(f.sig).ast_id.0] + seq![(f.body).ast_id.0] },
        ast::Item::Struct(s) => Entry { kind: "struct"@, label: "struct "@ + s.ident.node.name@, children: ast_ids(s.generics@) + seq![(s.data).ast_id.0] },
        ast::Item::Enum(e) => Entry { kind: "enum"@, label: "enum "@ + e.ident.node.name@, children: ast_ids(e.generics@) + ast_ids(e.variants@) },
        ast::Item::Trait(t) => Entry { kind: "trait"@, label: "trait "@ + t.ident.node.name@, children: ast_ids(t.generics@) + ast_ids(t.items@) },
        ast::Item::Mod(m) => Entry { kind: "mod"@, label: "mod "@ + m.ident.node.name@, children: ast_ids(m.items@) },
        ast::Item::Impl(i) => Entry { kind: "impl"@, label: spec_impl_label(i.for_trait is Some), children: opt_id(i.for_trait) + seq![(i.self_ty).ast_id.0] + ast_ids(i.items@) },
        ast::Item::ExternFn(f) => Entry { kind: "extern_fn"@, label: "extern fn "@ + f.sig.node.ident.node.name@, children: seq![(f.sig).ast_id.0] },
        ast::Item::Const(c) => Entry { kind: "const"@, label: "const "@ + c.ident.node.name@, children: opt_id(c.type_annotation) + seq![(c.expr).ast_id.0] },
        ast::Item::Use(u) => Entry { kind: "use"@, label: "use"@, children: seq![(u.path).ast_id.0] },
        ast::Item::TyAlias(t) => Entry { kind: "type_alias"@, label: "type "@ + t.ident.node.name@, children: ast_ids(t.generics@) + opt_id(t.ty) },
        ast::Item::Error => Entry { kind: "item_err"@, label: "err"@, children: Seq::empty() },
    }
}

/// What the converted entry of a `FnSig` node holds: its kind, its label and the ids of its children.
pub open spec fn fn_sig_entry(n: ast::FnSig) -> Entry {
    Entry { kind: "fn_sig"@, label: n.ident.node.name@, children: seq![(n.ident).ast_id.0] + ast_ids(n.generics@) + ast_ids(n.params@) + opt_id(n.return_ty) }
}

/// What the converted entry of a `Param` node holds: its kind, its label and the ids of its children.
pub open spec fn param_entry(n: ast::Param) -> Entry {
    Entry { kind: "param"@, label: "param"@, children: seq![(n.pattern).ast_id.0] + seq![(n.type_annotation).ast_id.0] }
}

/// What the converted entry of a `GenericParam` node holds: its kind, its label and the ids of its children.
pub open spec fn generic_param_entry(n: ast::GenericParam) -> Entry {
    match n {
        ast::GenericParam { ident, bounds, kind: ast::GenericParamKind::Const(ty) } => Entry { kind: "generic_param"@, label: ident.node.name@, children: seq![(ident).ast_id.0] + ast_ids(bounds@) + seq![(ty).ast_id.0] },
        ast::GenericParam { ident, bounds, kind: ast::GenericParamKind::Type } => Entry { kind: "generic_param"@, label: ident.node.name@, children: seq![(ident).ast_id.0] + ast_ids(bounds@) },
    }
}

/// What the converted entry of a `VariantData` node holds: its kind, its label and the ids of its children.
pub open spec fn variant_data_entry(n: ast::VariantData) -> Entry {
    match n {
        ast::VariantData::Unit => Entry { kind: "variant_data_unit"@, label: "unit"@, children: Seq::empty() },
        ast::VariantData::Struct { fields } => Entry { kind: "variant_data_struct"@, label: "struct"@, children: ast_ids(fields@) },
        ast::VariantData::Tuple { types } => Entry { kind: "variant_data_tuple"@, label: "tuple"@, children: ast_ids(types@) },
    }
}

/// What the converted entry of a `StructFieldDef` node holds: its kind, its label and the ids of its children.
pub open spec fn field_def_entry(n: ast::StructFieldDef) -> Entry {
    Entry { kind: "field_def"@, label: n.ident.node.name@, children: seq![(n.ident).ast_id.0] + seq![(n.type_annotation).ast_id.0] }
}

/// What the converted entry of a `EnumVariant` node holds: its kind, its label and the ids of its children.
pub open spec fn enum_variant_entry(n: ast::EnumVariant) -> Entry {
    Entry { kind: "enum_variant"@, label: n.ident.node.name@, children: seq![(n.ident).ast_id.0] + seq![(n.data).ast_id.0] }
}

/// What the converted entry of a `AssociatedItem` node holds: its kind, its label and the ids of its children.
pub open spec fn assoc_item_entry(n: ast::AssociatedItem) -> Entry {
    match n {
        ast::AssociatedItem::Fn(sig, body) => Entry { kind: "assoc_fn"@, label: "fn"@, children: seq![(sig).ast_id.0] + opt_id(body) },
        ast::AssociatedItem::Type(alias) => Entry { kind: "assoc_type"@, label: "type"@, children: seq![(alias.node.ident).ast_id.0] + ast_ids(alias.node.generics@) + opt_id(alias.node.ty) },
    }
}

/// What the converted entry of a `Stmt` node holds: its kind, its label and the ids of its children.
pub open spec fn stmt_entry(n: ast::Stmt) -> Entry {
    match n {
        ast::Stmt::Item(item) => Entry { kind: "stmt_item"@, label: "item"@, children: seq![(item).ast_id.0] },
        ast::Stmt::Let(l) => Entry { kind: "let"@, label: "let"@, children: seq![(l.pat).ast_id.0] + opt_id(l.type_annotation) + opt_box_id(l.expr) },
        ast::Stmt::Expr(e) => Entry { kind: "stmt_expr"@, label: "expr"@, children: seq![(e).ast_id.0] },
        ast::Stmt::Semi(e) => Entry { kind: "stmt_semi"@, label: "semi"@, children: seq![(e).ast_id.0] },
        ast::Stmt::Error => Entry { kind: "stmt_err"@, label: "err"@, children: Seq::empty() },
    }
}

/// What the converted entry of a `Expr` node holds: its kind, its label and the ids of its children.
pub open spec fn expr_entry(n: ast::Expr) -> Entry {
    match n {
        ast::Expr::Array(a) => Entry { kind: "array"@, label: "[]"@, children: ast_ids(a.expressions@) },
        ast::Expr::Struct(s) => Entry { kind: "struct_expr"@, label: "struct"@, children: seq![(s.name).ast_id.0] + ast_ids(s.fields@) },
        ast::Expr::Call(c) => Entry { kind: "call"@, label: "call"@, children: seq![(*c.callee).ast_id.0] + ast_ids(c.arguments@) },
        ast::Expr::MethodCall(m) => Entry { kind: "method_call"@, label: "method_call"@, children: seq![(*m.receiver).ast_id.0] + seq![(m.name).ast_id.0] + ast_ids(m.arguments@) },
        ast::Expr::Tuple(t) => Entry { kind: "tuple"@, label: "()"@, children: ast_ids(t.expressions@) },
        ast::Expr::Cast(c) => Entry { kind: "cast"@, label: "as"@, children: seq![(*c.expr).ast_id.0] + seq![(c.ty).ast_id.0] },
        ast::Expr::Return(r) => Entry { kind: "return"@, label: "return"@, children: opt_box_id(r.value) },
        ast::Expr::While(w) => Entry { kind: "while"@, label: "while"@, children: seq![(*w.condition).ast_id.0] + seq![(*w.body).ast_id.0] },
        ast::Expr::Loop(l) => Entry { kind: "loop"@, label: "loop"@, children: seq![(*l.body).ast_id.0] },
        ast::Expr::For(f) => Entry { kind: "for"@, label: "for"@, children: seq![(f.pattern).ast_id.0] + seq![(*f.iterator).ast_id.0] + seq![(*f.body).ast_id.0] },
        ast::Expr::Assign(a) => Entry { kind: "assign"@, label: "="@, children: seq![(*a.target).ast_id.0] + seq![(*a.value).ast_id.0] },
        ast::Expr::AssignOp(a) => Entry { kind: "assign_op"@, label: spec_assign_op_name(a.op.node), children: seq![(*a.target).ast_id.0] + seq![(*a.value).ast_id.0] },
        ast::Expr::FieldAccess(f) => Entry { kind: "field_access"@, label: "."@, children: seq![(*f.target).ast_id.0] + seq![(f.field).ast_id.0] },
        ast::Expr::Index(i) => Entry { kind: "index"@, label: "[]"@, children: seq![(*i.target).ast_id.0] + seq![(*i.index).ast_id.0] },
        ast::Expr::Path(p) => Entry { kind: "path"@, label: "path"@, children: seq![(p.path).ast_id.0] },
        ast::Expr::AddrOf(a) => Entry { kind: "addr_of"@, label: "&"@, children: seq![(*a.expr).ast_id.0] },
        ast::Expr::Break(b) => Entry { kind: "break"@, label: "break"@, children: opt_box_id(b.expr) },
        ast::Expr::Continue => Entry { kind: "continue"@, label: "continue"@, children: Seq::empty() },
        ast::Expr::Literal(l) => Entry { kind: "literal"@, label: spec_literal_label(l), children: Seq::empty() },
        ast::Expr::Binary(b) => Entry { kind: "binary"@, label: spec_bin_op_name(b.operator.node), children: seq![(*b.left).ast_id.0] + seq![(*b.right).ast_id.0] },
        ast::Expr::Unary(u) => Entry { kind: "unary"@, label: spec_un_op_name(u.operator.node), children: seq![(*u.operand).ast_id.0] },
        ast::Expr::If(i) => Entry { kind: "if"@, label: "if"@, children: seq![(*i.condition).ast_id.0] + seq![(*i.then_branch).ast_id.0] + opt_box_id(i.else_branch) },
        ast::Expr::Block(b) => Entry { kind: "block"@, label: "{ }"@, children: ast_ids(b.stmts@) },
        ast::Expr::Match(m) => Entry { kind: "match"@, label: "match"@, children: seq![(*m.value).ast_id.0] + ast_ids(m.arms@) },
        ast::Expr::Let(l) => Entry { kind: "let_expr"@, label: "let"@, children: seq![(l.pattern).ast_id.0] + seq![(*l.value).ast_id.0] },
        ast::Expr::Paren(p) => Entry { kind: "paren"@, label: "( )"@, children: seq![(*p).ast_id.0] },
        ast::Expr::Error => Entry { kind: "expr_err"@, label: "err"@, children: Seq::empty() },
    }
}

/// What the converted entry of a `StructExprField` node holds: its kind, its label and the ids of its children.
pub open spec fn struct_expr_field_entry(n: ast::StructExprField) -> Entry {
    Entry { kind: "struct_expr_field"@, label: n.ident.node.name@, children: seq![(n.ident).ast_id.0] + seq![(*n.expr).ast_id.0] }
}

/// What the converted entry of a `MatchArm` node holds: its kind, its label and the ids of its children.
pub open spec fn match_arm_entry(n: ast::MatchArm) -> Entry {
    Entry { kind: "match_arm"@, label: "=>"@, children: seq![(n.pattern).ast_id.0] + seq![(*n.body).ast_id.0] }
}

/// What the converted entry of a `BlockExpr` node holds: its kind, its label and the ids of its children.
pub open spec fn block_entry(n: ast::BlockExpr) -> Entry {
    Entry { kind: "block"@, label: "{ }"@, children: ast_ids(n.stmts@) }
}

/// What the converted entry of a `Pattern` node holds: its kind, its label and the ids of its children.
pub open spec fn pattern_entry(n: ast::Pattern) -> Entry {
    match n {
        ast::Pattern::Wildcard => Entry { kind: "pat_wildcard"@, label: "_"@, children: Seq::empty() },
        ast::Pattern::Or(ps) => Entry { kind: "pat_or"@, label: "|"@, children: ast_ids(ps@) },
        ast::Pattern::Path(p) => Entry { kind: "pat_path"@, label: "path"@, children: seq![(p).ast_id.0] },
        ast::Pattern::Struct(p, fields) => Entry { kind: "pat_struct"@, label: "struct"@, children: seq![(p).ast_id.0] + ast_ids(fields@) },
        ast::Pattern::TupleStruct(p, ps) => Entry { kind: "pat_tuple_struct"@, label: "tuple_struct"@, children: seq![(p).ast_id.0] + ast_ids(ps@) },
        ast::Pattern::Tuple(ps) => Entry { kind: "pat_tuple"@, label: "()"@, children: ast_ids(ps@) },
        ast::Pattern::Expr(e) => Entry { kind: "pat_expr"@, label: "expr"@, children: seq![(*e).ast_id.0] },
        ast::Pattern::Paren(p) => Entry { kind: "pat_paren"@, label: "( )"@, children: seq![(*p).ast_id.0] },
    }
}

/// What the converted entry of a `PatternStructField` node holds: its kind, its label and the ids of its children.
pub open spec fn pat_struct_field_entry(n: ast::PatternStructField) -> Entry {
    Entry { kind: "pat_struct_field"@, label: n.ident.node.name@, children: seq![(n.ident).ast_id.0] + seq![(n.pattern).ast_id.0] }
}

/// What the converted entry of a `Ty` node holds: its kind, its label and the ids of its children.
pub open spec fn ty_entry(n: ast::Ty) -> Entry {
    match n {
        ast::Ty::Path(p) => Entry { kind: "ty_path"@, label: "path"@, children: seq![(p).ast_id.0] },
        ast::Ty::Array(t, e) => Entry { kind: "ty_array"@, label: "[]"@, children: seq![(*t).ast_id.0] + seq![(*e).ast_id.0] },
        ast::Ty::Ptr(t) => Entry { kind: "ty_ptr"@, label: "*"@, children: seq![(*t).ast_id.0] },
        ast::Ty::Fn(ps, ret) => Entry { kind: "ty_fn"@, label: "fn"@, children: ast_ids(ps@) + opt_id(*ret) },
        ast::Ty::Tuple(ts) => Entry { kind: "ty_tuple"@, label: "()"@, children: ast_ids(ts@) },
    }
}

/// What the converted entry of a `Path` node holds: its kind, its label and the ids of its children.
pub open spec fn path_entry(n: ast::Path) -> Entry {
    Entry { kind: "path"@, label: spec_path_label(n.segments@), children: ast_ids(n.segments@) }
}

/// What the converted entry of a `PathSegment` node holds: its kind, its label and the ids of its children.
pub open spec fn segment_entry(n: ast::PathSegment) -> Entry {
    Entry { kind: "path_segment"@, label: n.ident.node.name@, children: seq![(n.ident).ast_id.0] + ast_ids(n.args@) }
}

/// What the converted entry of a `GenericArg` node holds: its kind, its label and the ids of its children.
pub open spec fn generic_arg_entry(n: ast::GenericArg) -> Entry {
    match n {
        ast::GenericArg::Type(t) => Entry { kind: "generic_arg_type"@, label: ""@, children: seq![(t).ast_id.0] },
        ast::GenericArg::Const(e) => Entry { kind: "generic_arg_const"@, label: ""@, children: seq![(*e).ast_id.0] },
    }
}

/// What the converted entry of a `Ident` node holds: its kind, its label and the ids of its children.
pub open spec fn ident_entry(n: ast::Ident) -> Entry {
    Entry { kind: "ident"@, label: n.name@, children: Seq::empty() }
}

/// The table `after` is `before` with the entries `t` written over it: it
/// has the nodes of both, each node of `t` holds what `t` gives it, and the
/// others are as they were.
pub open spec fn table_written(before: Map<usize, AstNode>, after: Map<usize, AstNode>, t: Map<usize, (internal_span::Span, Entry)>) -> bool {
    &&& forall|k: usize| #[trigger] before.contains_key(k) ==> after.contains_key(k)
    &&& forall|k: usize| #[trigger] after.contains_key(k) ==> before.contains_key(k) || t.contains_key(k)
    &&& forall|k: usize| #[trigger] t.contains_key(k) ==> after.contains_key(k) && after[k].holds(AstId(k), t[k].0, t[k].1)
    &&& forall|k: usize| before.contains_key(k) && !t.contains_key(k) ==> #[trigger] after[k] == before[k]
}

// What converting a node writes into the table: the entry of every node of
// its tree, keyed by the node's id; where two nodes share an id, the one
// converted last (children before their parent, in the order the converter
// takes them) wins.

pub open spec fn tbl_item(n: ast::AstNode<ast::Item>) -> Map<usize, (internal_span::Span, Entry)>
    decreases n,
{
    (match n.node {
        ast::Item::Fn(f) => tbl_fn_sig(f.sig).union_prefer_right(tbl_block(f.body)),
        ast::Item::Struct(s) => tbl_variant_data(s.data).union_prefer_right(tbl_generic_params(s.generics@)),
        ast::Item::Enum(e) => tbl_enum_variants(e.variants@).union_prefer_right(tbl_generic_params(e.generics@)),
        ast::Item::Trait(t) => tbl_assoc_items(t.items@).union_prefer_right(tbl_generic_params(t.generics@)),
        ast::Item::Mod(m) => tbl_items(m.items@),
        ast::Item::Impl(i) => tbl_ty(i.self_ty).union_prefer_right((match i.for_trait { Some(x) => tbl_path(x), None => Map::<usize, (internal_span::Span, Entry)>::empty() })).union_prefer_right(tbl_assoc_items(i.items@)),
        ast::Item::ExternFn(f) => tbl_fn_sig(f.sig),
        ast::Item::Const(c) => (match c.type_annotation { Some(x) => tbl_ty(x), None => Map::<usize, (internal_span::Span, Entry)>::empty() }).union_prefer_right(tbl_expr(c.expr)),
        ast::Item::Use(u) => tbl_path(u.path),
        ast::Item::TyAlias(t) => (match t.ty { Some(x) => tbl_ty(x), None => Map::<usize, (internal_span::Span, Entry)>::empty() }).union_prefer_right(tbl_generic_params(t.generics@)),
        ast::Item::Error => Map::<usize, (internal_span::Span, Entry)>::empty(),
    }).insert(n.ast_id.0, (n.span, item_entry(n.node)))
}

pub open spec fn tbl_fn_sig(n: ast::AstNode<ast::FnSig>) -> Map<usize, (internal_span::Span, Entry)>
    decreases n,
{
    (tbl_ident(n.node.ident).union_prefer_right(tbl_generic_params(n.node.generics@)).union_prefer_right(tbl_params(n.node.params@)).union_prefer_right((match n.node.return_ty { Some(x) => tbl_ty(x), None => Map::<usize, (internal_span::Span, Entry)>::empty() }))).insert(n.ast_id.0, (n.span, fn_sig_entry(n.node)))
}

pub open spec fn tbl_param(n: ast::AstNode<ast::Param>) -> Map<usize, (internal_span::Span, Entry)>
    decreases n,
{
    (tbl_pattern(n.node.pattern).union_prefer_right(tbl_ty(n.node.type_annotation))).insert(n.ast_id.0, (n.span, param_entry(n.node)))
}

pub open spec fn tbl_generic_param(n: ast::AstNode<ast::GenericParam>) -> Map<usize, (internal_span::Span, Entry)>
    decreases n,
{
    (match n.node {
        ast::GenericParam { ident, bounds, kind: ast::GenericParamKind::Const(ty) } => tbl_ident(ident).union_prefer_right(tbl_paths(bounds@)).union_prefer_right(tbl_ty(ty)),
        ast::GenericParam { ident, bounds, kind: ast::GenericParamKind::Type } => tbl_ident(ident).union_prefer_right(tbl_paths(bounds@)),
    }).insert(n.ast_id.0, (n.span, generic_param_entry(n.node)))
}

pub open spec fn tbl_variant_data(n: ast::AstNode<ast::VariantData>) -> Map<usize, (internal_span::Span, Entry)>
    decreases n,
{
    (match n.node {
        ast::VariantData::Unit => Map::<usize, (internal_span::Span, Entry)>::empty(),
        ast::VariantData::Struct { fields } => tbl_field_defs(fields@),
        ast::VariantData::Tuple { types } => tbl_tys(types@),
    }).insert(n.ast_id.0, (n.span, variant_data_entry(n.node)))
}

pub open spec fn tbl_field_def(n: ast::AstNode<ast::StructFieldDef>) -> Map<usize, (internal_span::Span, Entry)>
    decreases n,
{
    (tbl_ident(n.node.ident).union_prefer_right(tbl_ty(n.node.type_annotation))).insert(n.ast_id.0, (n.span, field_def_entry(n.node)))
}

pub open spec fn tbl_enum_variant(n: ast::AstNode<ast::EnumVariant>) -> Map<usize, (internal_span::Span, Entry)>
    decreases n,
{
    (tbl_ident(n.node.ident).union_prefer_right(tbl_variant_data(n.node.data))).insert(n.ast_id.0, (n.span, enum_variant_entry(n.node)))
}

pub open spec fn tbl_assoc_item(n: ast::AstNode<ast::AssociatedItem>) -> Map<usize, (internal_span::Span, Entry)>
    decreases n,
{
    (match n.node {
        ast::AssociatedItem::Fn(sig, body) => tbl_fn_sig(sig).union_prefer_right((match body { Some(x) => tbl_block(x), None => Map::<usize, (internal_span::Span, Entry)>::empty() })),
        ast::AssociatedItem::Type(alias) => tbl_ident(alias.node.ident).union_prefer_right((match alias.node.ty { Some(x) => tbl_ty(x), None => Map::<usize, (internal_span::Span, Entry)>::empty() })).union_prefer_right(tbl_generic_params(alias.node.generics@)),
    }).insert(n.ast_id.0, (n.span, assoc_item_entry(n.node)))
}

pub open spec fn tbl_stmt(n: ast::AstNode<ast::Stmt>) -> Map<usize, (internal_span::Span, Entry)>
    decreases n,
{
    (match n.node {
        ast::Stmt::Item(item) => tbl_item(item),
        ast::Stmt::Let(l) => tbl_pattern(l.pat).union_prefer_right((match l.type_annotation { Some(x) => tbl_ty(x), None => Map::<usize, (internal_span::Span, Entry)>::empty() })).union_prefer_right((match l.expr { Some(x) => tbl_expr(*x), None => Map::<usize, (internal_span::Span, Entry)>::empty() })),
        ast::Stmt::Expr(e) => tbl_expr(e),
        ast::Stmt::Semi(e) => tbl_expr(e),
        ast::Stmt::Error => Map::<usize, (internal_span::Span, Entry)>::empty(),
    }).insert(n.ast_id.0, (n.span, stmt_entry(n.node)))
}

pub open spec fn tbl_expr(n: ast::AstNode<ast::Expr>) -> Map<usize, (internal_span::Span, Entry)>
    decreases n,
{
    (match n.node {
        ast::Expr::Array(a) => tbl_exprs(a.expressions@),
        ast::Expr::Struct(s) => tbl_path(s.name).union_prefer_right(tbl_struct_expr_fields(s.fields@)),
        ast::Expr::Call(c) => tbl_expr(*c.callee).union_prefer_right(tbl_exprs(c.arguments@)),
        ast::Expr::MethodCall(m) => tbl_expr(*m.receiver).union_prefer_right(tbl_segment(m.name)).union_prefer_right(tbl_exprs(m.arguments@)),
        ast::Expr::Tuple(t) => tbl_exprs(t.expressions@),
        ast::Expr::Cast(c) => tbl_expr(*c.expr).union_prefer_right(tbl_ty(c.ty)),
        ast::Expr::Return(r) => (match r.value { Some(x) => tbl_expr(*x), None => Map::<usize, (internal_span::Span, Entry)>::empty() }),
        ast::Expr::While(w) => tbl_expr(*w.condition).union_prefer_right(tbl_block(*w.body)),
        ast::Expr::Loop(l) => tbl_block(*l.body),
        ast::Expr::For(f) => tbl_pattern(f.pattern).union_prefer_right(tbl_expr(*f.iterator)).union_prefer_right(tbl_block(*f.body)),
        ast::Expr::Assign(a) => tbl_expr(*a.target).union_prefer_right(tbl_expr(*a.value)),
        ast::Expr::AssignOp(a) => tbl_expr(*a.target).union_prefer_right(tbl_expr(*a.value)),
        ast::Expr::FieldAccess(f) => tbl_expr(*f.target).union_prefer_right(tbl_ident(f.field)),
        ast::Expr::Index(i) => tbl_expr(*i.target).union_prefer_right(tbl_expr(*i.index)),
        ast::Expr::Path(p) => tbl_path(p.path),
        ast::Expr::AddrOf(a) => tbl_expr(*a.expr),
        ast::Expr::Break(b) => (match b.expr { Some(x) => tbl_expr(*x), None => Map::<usize, (internal_span::Span, Entry)>::empty() }),
        ast::Expr::Continue => Map::<usize, (internal_span::Span, Entry)>::empty(),
        ast::Expr::Literal(l) => Map::<usize, (internal_span::Span, Entry)>::empty(),
        ast::Expr::Binary(b) => tbl_expr(*b.left).union_prefer_right(tbl_expr(*b.right)),
        ast::Expr::Unary(u) => tbl_expr(*u.operand),
        ast::Expr::If(i) => tbl_expr(*i.condition).union_prefer_right(tbl_block(*i.then_branch)).union_prefer_right((match i.else_branch { Some(x) => tbl_block(*x), None => Map::<usize, (internal_span::Span, Entry)>::empty() })),
        ast::Expr::Block(b) => tbl_stmts(b.stmts@),
        ast::Expr::Match(m) => tbl_expr(*m.value).union_prefer_right(tbl_match_arms(m.arms@)),
        ast::Expr::Let(l) => tbl_pattern(l.pattern).union_prefer_right(tbl_expr(*l.value)),
        ast::Expr::Paren(p) => tbl_expr(*p),
        ast::Expr::Error => Map::<usize, (internal_span::Span, Entry)>::empty(),
    }).insert(n.ast_id.0, (n.span, expr_entry(n.node)))
}

pub open spec fn tbl_struct_expr_field(n: ast::AstNode<ast::StructExprField>) -> Map<usize, (internal_span::Span, Entry)>
    decreases n,
{
    (tbl_ident(n.node.ident).union_prefer_right(tbl_expr(*n.node.expr))).insert(n.ast_id.0, (n.span, struct_expr_field_entry(n.node)))
}

pub open spec fn tbl_match_arm(n: ast::AstNode<ast::MatchArm>) -> Map<usize, (internal_span::Span, Entry)>
    decreases n,
{
    (tbl_pattern(n.node.pattern).union_prefer_right(tbl_expr(*n.node.body))).insert(n.ast_id.0, (n.span, match_arm_entry(n.node)))
}

pub open spec fn tbl_block(n: ast::AstNode<ast::BlockExpr>) -> Map<usize, (internal_span::Span, Entry)>
    decreases n,
{
    (tbl_stmts(n.node.stmts@)).insert(n.ast_id.0, (n.span, block_entry(n.node)))
}

pub open spec fn tbl_pattern(n: ast::AstNode<ast::Pattern>) -> Map<usize, (internal_span::Span, Entry)>
    decreases n,
{
    (match n.node {
        ast::Pattern::Wildcard => Map::<usize, (internal_span::Span, Entry)>::empty(),
        ast::Pattern::Or(ps) => tbl_patterns(ps@),
        ast::Pattern::Path(p) => tbl_path(p),
        ast::Pattern::Struct(p, fields) => tbl_path(p).union_prefer_right(tbl_pat_struct_fields(fields@)),
        ast::Pattern::TupleStruct(p, ps) => tbl_path(p).union_prefer_right(tbl_patterns(ps@)),
        ast::Pattern::Tuple(ps) => tbl_patterns(ps@),
        ast::Pattern::Expr(e) => tbl_expr(*e),
        ast::Pattern::Paren(p) => tbl_pattern(*p),
    }).insert(n.ast_id.0, (n.span, pattern_entry(n.node)))
}

pub open spec fn tbl_pat_struct_field(n: ast::AstNode<ast::PatternStructField>) -> Map<usize, (internal_span::Span, Entry)>
    decreases n,
{
    (tbl_ident(n.node.ident).union_prefer_right(tbl_pattern(n.node.pattern))).insert(n.ast_id.0, (n.span, pat_struct_field_entry(n.node)))
}

pub open spec fn tbl_ty(n: ast::AstNode<ast::Ty>) -> Map<usize, (internal_span::Span, Entry)>
    decreases n,
{
    (match n.node {
        ast::Ty::Path(p) => tbl_path(p),
        ast::Ty::Array(t, e) => tbl_ty(*t).union_prefer_right(tbl_expr(*e)),
        ast::Ty::Ptr(t) => tbl_ty(*t),
        ast::Ty::Fn(ps, ret) => tbl_tys(ps@).union_prefer_right((match *ret { Some(x) => tbl_ty(x), None => Map::<usize, (internal_span::Span, Entry)>::empty() })),
        ast::Ty::Tuple(ts) => tbl_tys(ts@),
    }).insert(n.ast_id.0, (n.span, ty_entry(n.node)))
}

pub open spec fn tbl_path(n: ast::AstNode<ast::Path>) -> Map<usize, (internal_span::Span, Entry)>
    decreases n,
{
    (tbl_segments(n.node.segments@)).insert(n.ast_id.0, (n.span, path_entry(n.node)))
}

pub open spec fn tbl_segment(n: ast::AstNode<ast::PathSegment>) -> Map<usize, (internal_span::Span, Entry)>
    decreases n,
{
    (tbl_ident(n.node.ident).union_prefer_right(tbl_generic_args(n.node.args@))).insert(n.ast_id.0, (n.span, segment_entry(n.node)))
}

pub open spec fn tbl_generic_arg(n: ast::AstNode<ast::GenericArg>) -> Map<usize, (internal_span::Span, Entry)>
    decreases n,
{
    (match n.node {
        ast::GenericArg::Type(t) => tbl_ty(t),
        ast::GenericArg::Const(e) => tbl_expr(*e),
    }).insert(n.ast_id.0, (n.span, generic_arg_entry(n.node)))
}

pub open spec fn tbl_ident(n: ast::AstNode<ast::Ident>) -> Map<usize, (internal_span::Span, Entry)>
    decreases n,
{
    (Map::<usize, (internal_span::Span, Entry)>::empty()).insert(n.ast_id.0, (n.span, ident_entry(n.node)))
}

pub open spec fn tbl_assoc_items(s: Seq<ast::AstNode<ast::AssociatedItem>>) -> Map<usize, (internal_span::Span, Entry)>
    decreases s,
{
    if s.len() == 0 {
        Map::<usize, (internal_span::Span, Entry)>::empty()
    } else {
        tbl_assoc_items(s.drop_last()).union_prefer_right(tbl_assoc_item(s.last()))
    }
}

pub open spec fn tbl_enum_variants(s: Seq<ast::AstNode<ast::EnumVariant>>) -> Map<usize, (internal_span::Span, Entry)>
    decreases s,
{
    if s.len() == 0 {
        Map::<usize, (internal_span::Span, Entry)>::empty()
    } else {
        tbl_enum_variants(s.drop_last()).union_prefer_right(tbl_enum_variant(s.last()))
    }
}

pub open spec fn tbl_exprs(s: Seq<ast::AstNode<ast::Expr>>) -> Map<usize, (internal_span::Span, Entry)>
    decreases s,
{
    if s.len() == 0 {
        Map::<usize, (internal_span::Span, Entry)>::empty()
    } else {
        tbl_exprs(s.drop_last()).union_prefer_right(tbl_expr(s.last()))
    }
}

pub open spec fn tbl_field_defs(s: Seq<ast::AstNode<ast::StructFieldDef>>) -> Map<usize, (internal_span::Span, Entry)>
    decreases s,
{
    if s.len() == 0 {
        Map::<usize, (internal_span::Span, Entry)>::empty()
    } else {
        tbl_field_defs(s.drop_last()).union_prefer_right(tbl_field_def(s.last()))
    }
}

pub open spec fn tbl_generic_args(s: Seq<ast::AstNode<ast::GenericArg>>) -> Map<usize, (internal_span::Span, Entry)>
    decreases s,
{
    if s.len() == 0 {
        Map::<usize, (internal_span::Span, Entry)>::empty()
    } else {
        tbl_generic_args(s.drop_last()).union_prefer_right(tbl_generic_arg(s.last()))
    }
}

pub open spec fn tbl_generic_params(s: Seq<ast::AstNode<ast::GenericParam>>) -> Map<usize, (internal_span::Span, Entry)>
    decreases s,
{
    if s.len() == 0 {
        Map::<usize, (internal_span::Span, Entry)>::empty()
    } else {
        tbl_generic_params(s.drop_last()).union_prefer_right(tbl_generic_param(s.last()))
    }
}

pub open spec fn tbl_items(s: Seq<ast::AstNode<ast::Item>>) -> Map<usize, (internal_span::Span, Entry)>
    decreases s,
{
    if s.len() == 0 {
        Map::<usize, (internal_span::Span, Entry)>::empty()
    } else {
        tbl_items(s.drop_last()).union_prefer_right(tbl_item(s.last()))
    }
}

pub open spec fn tbl_match_arms(s: Seq<ast::AstNode<ast::MatchArm>>) -> Map<usize, (internal_span::Span, Entry)>
    decreases s,
{
    if s.len() == 0 {
        Map::<usize, (internal_span::Span, Entry)>::empty()
    } else {
        tbl_match_arms(s.drop_last()).union_prefer_right(tbl_match_arm(s.last()))
    }
}

pub open spec fn tbl_params(s: Seq<ast::AstNode<ast::Param>>) -> Map<usize, (internal_span::Span, Entry)>
    decreases s,
{
    if s.len() == 0 {
        Map::<usize, (internal_span::Span, Entry)>::empty()
    } else {
        tbl_params(s.drop_last()).union_prefer_right(tbl_param(s.last()))
    }
}

pub open spec fn tbl_pat_struct_fields(s: Seq<ast::AstNode<ast::PatternStructField>>) -> Map<usize, (internal_span::Span, Entry)>
    decreases s,
{
    if s.len() == 0 {
        Map::<usize, (internal_span::Span, Entry)>::empty()
    } else {
        tbl_pat_struct_fields(s.drop_last()).union_prefer_right(tbl_pat_struct_field(s.last()))
    }
}

pub open spec fn tbl_paths(s: Seq<ast::AstNode<ast::Path>>) -> Map<usize, (internal_span::Span, Entry)>
    decreases s,
{
    if s.len() == 0 {
        Map::<usize, (internal_span::Span, Entry)>::empty()
    } else {
        tbl_paths(s.drop_last()).union_prefer_right(tbl_path(s.last()))
    }
}

pub open spec fn tbl_patterns(s: Seq<ast::AstNode<ast::Pattern>>) -> Map<usize, (internal_span::Span, Entry)>
    decreases s,
{
    if s.len() == 0 {
        Map::<usize, (internal_span::Span, Entry)>::empty()
    } else {
        tbl_patterns(s.drop_last()).union_prefer_right(tbl_pattern(s.last()))
    }
}

pub open spec fn tbl_segments(s: Seq<ast::AstNode<ast::PathSegment>>) -> Map<usize, (internal_span::Span, Entry)>
    decreases s,
{
    if s.len() == 0 {
        Map::<usize, (internal_span::Span, Entry)>::empty()
    } else {
        tbl_segments(s.drop_last()).union_prefer_right(tbl_segment(s.last()))
    }
}

pub open spec fn tbl_stmts(s: Seq<ast::AstNode<ast::Stmt>>) -> Map<usize, (internal_span::Span, Entry)>
    decreases s,
{
    if s.len() == 0 {
        Map::<usize, (internal_span::Span, Entry)>::empty()
    } else {
        tbl_stmts(s.drop_last()).union_prefer_right(tbl_stmt(s.last()))
    }
}

pub open spec fn tbl_struct_expr_fields(s: Seq<ast::AstNode<ast::StructExprField>>) -> Map<usize, (internal_span::Span, Entry)>
    decreases s,
{
    if s.len() == 0 {
        Map::<usize, (internal_span::Span, Entry)>::empty()
    } else {
        tbl_struct_expr_fields(s.drop_last()).union_prefer_right(tbl_struct_expr_field(s.last()))
    }
}

pub open spec fn tbl_tys(s: Seq<ast::AstNode<ast::Ty>>) -> Map<usize, (internal_span::Span, Entry)>
    decreases s,
{
    if s.len() == 0 {
        Map::<usize, (internal_span::Span, Entry)>::empty()
    } else {
        tbl_tys(s.drop_last()).union_prefer_right(tbl_ty(s.last()))
    }
}


impl AstConverter {
    fn convert_item(&mut self, node: &ast::AstNode<ast::Item>) -> (id: AstId)
        ensures
            id.0 == node.ast_id.0,
            final(self).nodes@.contains_key(id.0),
            final(self).nodes@[id.0].holds(id, node.span, item_entry(node.node)),
            forall|key: usize| old(self).nodes@.contains_key(key) ==> #[trigger] final(self).nodes@.contains_key(key),
            table_written(old(self).nodes@, final(self).nodes@, tbl_item(*node)),
        decreases node,
    {
        let id = AstId::from_ast_id(node.ast_id);
        let mut children: Vec<AstId> = Vec::new();
        let ghost start = self.nodes@;
        match &node.node {
            ast::Item::Fn(f) => {
                let c0 = self.convert_fn_sig(&f.sig);
                let c1 = self.convert_block(&f.body);
                let ghost p0 = children@;
                children.push(c0);
                proof { lemma_ids_push(p0, c0); }
                let ghost p1 = children@;
                children.push(c1);
                proof { lemma_ids_push(p1, c1); }
                let kind = literal_string("fn");
                let label = prefixed_name("fn ", &f.sig.node.ident.node.name);
                proof { assert(ids_of(children@) =~= item_entry(node.node).children); }
                self.insert_node(id, kind, label, children, node.span);
            },
            ast::Item::Struct(s) => {
                let c1 = self.convert_variant_data(&s.data);
                let mut c0: Vec<AstId> = Vec::new();
                self.convert_generic_param_list(&s.generics, &mut c0);
                append_ids(&mut children, &c0);
                let ghost p1 = children@;
                children.push(c1);
                proof { lemma_ids_push(p1, c1); }
                let kind = literal_string("struct");
                let label = prefixed_name("struct ", &s.ident.node.name);
                proof { assert(ids_of(children@) =~= item_entry(node.node).children); }
                self.insert_node(id, kind, label, children, node.span);
            },
            ast::Item::Enum(e) => {
                let mut c1: Vec<AstId> = Vec::new();
                self.convert_enum_variant_list(&e.variants, &mut c1);
                let mut c0: Vec<AstId> = Vec::new();
                self.convert_generic_param_list(&e.generics, &mut c0);
                append_ids(&mut children, &c0);
                append_ids(&mut children, &c1);
                let kind = literal_string("enum");
                let label = prefixed_name("enum ", &e.ident.node.name);
                proof { assert(ids_of(children@) =~= item_entry(node.node).children); }
                self.insert_node(id, kind, label, children, node.span);
            },
            ast::Item::Trait(t) => {
                let mut c1: Vec<AstId> = Vec::new();
                self.convert_assoc_item_list(&t.items, &mut c1);
                let mut c0: Vec<AstId> = Vec::new();
                self.convert_generic_param_list(&t.generics, &mut c0);
                append_ids(&mut children, &c0);
                append_ids(&mut children, &c1);
                let kind = literal_string("trait");
                let label = prefixed_name("trait ", &t.ident.node.name);
                proof { assert(ids_of(children@) =~= item_entry(node.node).children); }
                self.insert_node(id, kind, label, children, node.span);
            },
            ast::Item::Mod(m) => {
                let mut c0: Vec<AstId> = Vec::new();
                self.convert_item_list(&m.items, &mut c0);
                append_ids(&mut children, &c0);
                let kind = literal_string("mod");
                let label = prefixed_name("mod ", &m.ident.node.name);
                proof { assert(ids_of(children@) =~= item_entry(node.node).children); }
                self.insert_node(id, kind, label, children, node.span);
            },
            ast::Item::Impl(i) => {
                let c1 = self.convert_ty(&i.self_ty);
                let mut c0: Vec<AstId> = Vec::new();
                match &i.for_trait { Some(x) => { let i = self.convert_path(x); c0.push(i); }, None => {} }
                proof { assert(ids_of(c0@) =~= opt_id(i.for_trait)); }
                let mut c2: Vec<AstId> = Vec::new();
                self.convert_assoc_item_list(&i.items, &mut c2);
                append_ids(&mut children, &c0);
                let ghost p1 = children@;
                children.push(c1);
                proof { lemma_ids_push(p1, c1); }
                append_ids(&mut children, &c2);
                let kind = literal_string("impl");
                let label = impl_label(i.for_trait.is_some());
                proof { assert(ids_of(children@) =~= item_entry(node.node).children); }
                self.insert_node(id, kind, label, children, node.span);
            },
            ast::Item::ExternFn(f) => {
                let c0 = self.convert_fn_sig(&f.sig);
                let ghost p0 = children@;
                children.push(c0);
                proof { lemma_ids_push(p0, c0); }
                let kind = literal_string("extern_fn");
                let label = prefixed_name("extern fn ", &f.sig.node.ident.node.name);
                proof { assert(ids_of(children@) =~= item_entry(node.node).children); }
                self.insert_node(id, kind, label, children, node.span);
            },
            ast::Item::Const(c) => {
                let mut c0: Vec<AstId> = Vec::new();
                match &c.type_annotation { Some(x) => { let i = self.convert_ty(x); c0.push(i); }, None => {} }
                proof { assert(ids_of(c0@) =~= opt_id(c.type_annotation)); }
                let c1 = self.convert_expr(&c.expr);
                append_ids(&mut children, &c0);
                let ghost p1 = children@;
                children.push(c1);
                proof { lemma_ids_push(p1, c1); }
                let kind = literal_string("const");
                let label = prefixed_name("const ", &c.ident.node.name);
                proof { assert(ids_of(children@) =~= item_entry(node.node).children); }
                self.insert_node(id, kind, label, children, node.span);
            },
            ast::Item::Use(u) => {
                let c0 = self.convert_path(&u.path);
                let ghost p0 = children@;
                children.push(c0);
                proof { lemma_ids_push(p0, c0); }
                let kind = literal_string("use");
                let label = literal_string("use");
                proof { assert(ids_of(children@) =~= item_entry(node.node).children); }
                self.insert_node(id, kind, label, children, node.span);
            },
            ast::Item::TyAlias(t) => {
                let mut c1: Vec<AstId> = Vec::new();
                match &t.ty { Some(x) => { let i = self.convert_ty(x); c1.push(i); }, None => {} }
                proof { assert(ids_of(c1@) =~= opt_id(t.ty)); }
                let mut c0: Vec<AstId> = Vec::new();
                self.convert_generic_param_list(&t.generics, &mut c0);
                append_ids(&mut children, &c0);
                append_ids(&mut children, &c1);
                let kind = literal_string("type_alias");
                let label = prefixed_name("type ", &t.ident.node.name);
                proof { assert(ids_of(children@) =~= item_entry(node.node).children); }
                self.insert_node(id, kind, label, children, node.span);
            },
            ast::Item::Error => {
                let kind = literal_string("item_err");
                let label = literal_string("err");
                proof { assert(ids_of(children@) =~= item_entry(node.node).children); }
                self.insert_node(id, kind, label, children, node.span);
            },
        }
        id
    }

    fn convert_fn_sig(&mut self, node: &ast::AstNode<ast::FnSig>) -> (id: AstId)
        ensures
            id.0 == node.ast_id.0,
            final(self).nodes@.contains_key(id.0),
            final(self).nodes@[id.0].holds(id, node.span, fn_sig_entry(node.node)),
            forall|key: usize| old(self).nodes@.contains_key(key) ==> #[trigger] final(self).nodes@.contains_key(key),
            table_written(old(self).nodes@, final(self).nodes@, tbl_fn_sig(*node)),
        decreases node,
    {
        let id = AstId::from_ast_id(node.ast_id);
        let mut children: Vec<AstId> = Vec::new();
        let ghost start = self.nodes@;
        let n = &node.node;
        let c0 = self.convert_ident(&n.ident);
        let mut c1: Vec<AstId> = Vec::new();
        self.convert_generic_param_list(&n.generics, &mut c1);
        let mut c2: Vec<AstId> = Vec::new();
        self.convert_param_list(&n.params, &mut c2);
        let mut c3: Vec<AstId> = Vec::new();
        match &n.return_ty { Some(x) => { let i = self.convert_ty(x); c3.push(i); }, None => {} }
        proof { assert(ids_of(c3@) =~= opt_id(n.return_ty)); }
        let ghost p0 = children@;
        children.push(c0);
        proof { lemma_ids_push(p0, c0); }
        append_ids(&mut children, &c1);
        append_ids(&mut children, &c2);
        append_ids(&mut children, &c3);
        let kind = literal_string("fn_sig");
        let label = clone_name(&n.ident.node.name);
        proof { assert(ids_of(children@) =~= fn_sig_entry(node.node).children); }
        self.insert_node(id, kind, label, children, node.span);
        id
    }

    fn convert_param(&mut self, node: &ast::AstNode<ast::Param>) -> (id: AstId)
        ensures
            id.0 == node.ast_id.0,
            final(self).nodes@.contains_key(id.0),
            final(self).nodes@[id.0].holds(id, node.span, param_entry(node.node)),
            forall|key: usize| old(self).nodes@.contains_key(key) ==> #[trigger] final(self).nodes@.contains_key(key),
            table_written(old(self).nodes@, final(self).nodes@, tbl_param(*node)),
        decreases node,
    {
        let id = AstId::from_ast_id(node.ast_id);
        let mut children: Vec<AstId> = Vec::new();
        let ghost start = self.nodes@;
        let n = &node.node;
        let c0 = self.convert_pattern(&n.pattern);
        let c1 = self.convert_ty(&n.type_annotation);
        let ghost p0 = children@;
        children.push(c0);
        proof { lemma_ids_push(p0, c0); }
        let ghost p1 = children@;
        children.push(c1);
        proof { lemma_ids_push(p1, c1); }
        let kind = literal_string("param");
        let label = literal_string("param");
        proof { assert(ids_of(children@) =~= param_entry(node.node).children); }
        self.insert_node(id, kind, label, children, node.span);
        id
    }

    fn convert_generic_param(&mut self, node: &ast::AstNode<ast::GenericParam>) -> (id: AstId)
        ensures
            id.0 == node.ast_id.0,
            final(self).nodes@.contains_key(id.0),
            final(self).nodes@[id.0].holds(id, node.span, generic_param_entry(node.node)),
            forall|key: usize| old(self).nodes@.contains_key(key) ==> #[trigger] final(self).nodes@.contains_key(key),
            table_written(old(self).nodes@, final(self).nodes@, tbl_generic_param(*node)),
        decreases node,
    {
        let id = AstId::from_ast_id(node.ast_id);
        let mut children: Vec<AstId> = Vec::new();
        let ghost start = self.nodes@;
        match &node.node {
            ast::GenericParam { ident, bounds, kind: ast::GenericParamKind::Const(ty) } => {
                let c0 = self.convert_ident(ident);
                let mut c1: Vec<AstId> = Vec::new();
                self.convert_path_list(bounds, &mut c1);
                let c2 = self.convert_ty(ty);
                let ghost p0 = children@;
                children.push(c0);
                proof { lemma_ids_push(p0, c0); }
                append_ids(&mut children, &c1);
                let ghost p2 = children@;
                children.push(c2);
                proof { lemma_ids_push(p2, c2); }
                let kind = literal_string("generic_param");
                let label = clone_name(&ident.node.name);
                proof { assert(ids_of(children@) =~= generic_param_entry(node.node).children); }
                self.insert_node(id, kind, label, children, node.span);
            },
            ast::GenericParam { ident, bounds, kind: ast::GenericParamKind::Type } => {
                let c0 = self.convert_ident(ident);
                let mut c1: Vec<AstId> = Vec::new();
                self.convert_path_list(bounds, &mut c1);
                let ghost p0 = children@;
                children.push(c0);
                proof { lemma_ids_push(p0, c0); }
                append_ids(&mut children, &c1);
                let kind = literal_string("generic_param");
                let label = clone_name(&ident.node.name);
                proof { assert(ids_of(children@) =~= generic_param_entry(node.node).children); }
                self.insert_node(id, kind, label, children, node.span);
            },
        }
        id
    }

    fn convert_variant_data(&mut self, node: &ast::AstNode<ast::VariantData>) -> (id: AstId)
        ensures
            id.0 == node.ast_id.0,
            final(self).nodes@.contains_key(id.0),
            final(self).nodes@[id.0].holds(id, node.span, variant_data_entry(node.node)),
            forall|key: usize| old(self).nodes@.contains_key(key) ==> #[trigger] final(self).nodes@.contains_key(key),
            table_written(old(self).nodes@, final(self).nodes@, tbl_variant_data(*node)),
        decreases node,
    {
        let id = AstId::from_ast_id(node.ast_id);
        let mut children: Vec<AstId> = Vec::new();
        let ghost start = self.nodes@;
        match &node.node {
            ast::VariantData::Unit => {
                let kind = literal_string("variant_data_unit");
                let label = literal_string("unit");
                proof { assert(ids_of(children@) =~= variant_data_entry(node.node).children); }
                self.insert_node(id, kind, label, children, node.span);
            },
            ast::VariantData::Struct { fields } => {
                let mut c0: Vec<AstId> = Vec::new();
                self.convert_field_def_list(fields, &mut c0);
                append_ids(&mut children, &c0);
                let kind = literal_string("variant_data_struct");
                let label = literal_string("struct");
                proof { assert(ids_of(children@) =~= variant_data_entry(node.node).children); }
                self.insert_node(id, kind, label, children, node.span);
            },
            ast::VariantData::Tuple { types } => {
                let mut c0: Vec<AstId> = Vec::new();
                self.convert_ty_list(types, &mut c0);
                append_ids(&mut children, &c0);
                let kind = literal_string("variant_data_tuple");
                let label = literal_string("tuple");
                proof { assert(ids_of(children@) =~= variant_data_entry(node.node).children); }
                self.insert_node(id, kind, label, children, node.span);
            },
        }
        id
    }

    fn convert_field_def(&mut self, node: &ast::AstNode<ast::StructFieldDef>) -> (id: AstId)
        ensures
            id.0 == node.ast_id.0,
            final(self).nodes@.contains_key(id.0),
            final(self).nodes@[id.0].holds(id, node.span, field_def_entry(node.node)),
            forall|key: usize| old(self).nodes@.contains_key(key) ==> #[trigger] final(self).nodes@.contains_key(key),
            table_written(old(self).nodes@, final(self).nodes@, tbl_field_def(*node)),
        decreases node,
    {
        let id = AstId::from_ast_id(node.ast_id);
        let mut children: Vec<AstId> = Vec::new();
        let ghost start = self.nodes@;
        let n = &node.node;
        let c0 = self.convert_ident(&n.ident);
        let c1 = self.convert_ty(&n.type_annotation);
        let ghost p0 = children@;
        children.push(c0);
        proof { lemma_ids_push(p0, c0); }
        let ghost p1 = children@;
        children.push(c1);
        proof { lemma_ids_push(p1, c1); }
        let kind = literal_string("field_def");
        let label = clone_name(&n.ident.node.name);
        proof { assert(ids_of(children@) =~= field_def_entry(node.node).children); }
        self.insert_node(id, kind, label, children, node.span);
        id
    }

    fn convert_enum_variant(&mut self, node: &ast::AstNode<ast::EnumVariant>) -> (id: AstId)
        ensures
            id.0 == node.ast_id.0,
            final(self).nodes@.contains_key(id.0),
            final(self).nodes@[id.0].holds(id, node.span, enum_variant_entry(node.node)),
            forall|key: usize| old(self).nodes@.contains_key(key) ==> #[trigger] final(self).nodes@.contains_key(key),
            table_written(old(self).nodes@, final(self).nodes@, tbl_enum_variant(*node)),
        decreases node,
    {
        let id = AstId::from_ast_id(node.ast_id);
        let mut children: Vec<AstId> = Vec::new();
        let ghost start = self.nodes@;
        let n = &node.node;
        let c0 = self.convert_ident(&n.ident);
        let c1 = self.convert_variant_data(&n.data);
        let ghost p0 = children@;
        children.push(c0);
        proof { lemma_ids_push(p0, c0); }
        let ghost p1 = children@;
        children.push(c1);
        proof { lemma_ids_push(p1, c1); }
        let kind = literal_string("enum_variant");
        let label = clone_name(&n.ident.node.name);
        proof { assert(ids_of(children@) =~= enum_variant_entry(node.node).children); }
        self.insert_node(id, kind, label, children, node.span);
        id
    }

    fn convert_assoc_item(&mut self, node: &ast::AstNode<ast::AssociatedItem>) -> (id: AstId)
        ensures
            id.0 == node.ast_id.0,
            final(self).nodes@.contains_key(id.0),
            final(self).nodes@[id.0].holds(id, node.span, assoc_item_entry(node.node)),
            forall|key: usize| old(self).nodes@.contains_key(key) ==> #[trigger] final(self).nodes@.contains_key(key),
            table_written(old(self).nodes@, final(self).nodes@, tbl_assoc_item(*node)),
        decreases node,
    {
        let id = AstId::from_ast_id(node.ast_id);
        let mut children: Vec<AstId> = Vec::new();
        let ghost start = self.nodes@;
        match &node.node {
            ast::AssociatedItem::Fn(sig, body) => {
                let c0 = self.convert_fn_sig(sig);
                let mut c1: Vec<AstId> = Vec::new();
                match body { Some(x) => { let i = self.convert_block(x); c1.push(i); }, None => {} }
                proof { assert(ids_of(c1@) =~= opt_id(*body)); }
                let ghost p0 = children@;
                children.push(c0);
                proof { lemma_ids_push(p0, c0); }
                append_ids(&mut children, &c1);
                let kind = literal_string("assoc_fn");
                let label = literal_string("fn");
                proof { assert(ids_of(children@) =~= assoc_item_entry(node.node).children); }
                self.insert_node(id, kind, label, children, node.span);
            },
            ast::AssociatedItem::Type(alias) => {
                let c0 = self.convert_ident(&alias.node.ident);
                let mut c2: Vec<AstId> = Vec::new();
                match &alias.node.ty { Some(x) => { let i = self.convert_ty(x); c2.push(i); }, None => {} }
                proof { assert(ids_of(c2@) =~= opt_id(alias.node.ty)); }
                let mut c1: Vec<AstId> = Vec::new();
                self.convert_generic_param_list(&alias.node.generics, &mut c1);
                let ghost p0 = children@;
                children.push(c0);
                proof { lemma_ids_push(p0, c0); }
                append_ids(&mut children, &c1);
                append_ids(&mut children, &c2);
                let kind = literal_string("assoc_type");
                let label = literal_string("type");
                proof { assert(ids_of(children@) =~= assoc_item_entry(node.node).children); }
                self.insert_node(id, kind, label, children, node.span);
            },
        }
        id
    }

    fn convert_stmt(&mut self, node: &ast::AstNode<ast::Stmt>) -> (id: AstId)
        ensures
            id.0 == node.ast_id.0,
            final(self).nodes@.contains_key(id.0),
            final(self).nodes@[id.0].holds(id, node.span, stmt_entry(node.node)),
            forall|key: usize| old(self).nodes@.contains_key(key) ==> #[trigger] final(self).nodes@.contains_key(key),
            table_written(old(self).nodes@, final(self).nodes@, tbl_stmt(*node)),
        decreases node,
    {
        let id = AstId::from_ast_id(node.ast_id);
        let mut children: Vec<AstId> = Vec::new();
        let ghost start = self.nodes@;
        match &node.node {
            ast::Stmt::Item(item) => {
                let c0 = self.convert_item(item);
                let ghost p0 = children@;
                children.push(c0);
                proof { lemma_ids_push(p0, c0); }
                let kind = literal_string("stmt_item");
                let label = literal_string("item");
                proof { assert(ids_of(children@) =~= stmt_entry(node.node).children); }
                self.insert_node(id, kind, label, children, node.span);
            },
            ast::Stmt::Let(l) => {
                let c0 = self.convert_pattern(&l.pat);
                let mut c1: Vec<AstId> = Vec::new();
                match &l.type_annotation { Some(x) => { let i = self.convert_ty(x); c1.push(i); }, None => {} }
                proof { assert(ids_of(c1@) =~= opt_id(l.type_annotation)); }
                let mut c2: Vec<AstId> = Vec::new();
                match &l.expr { Some(x) => { let i = self.convert_expr(x); c2.push(i); }, None => {} }
                proof { assert(ids_of(c2@) =~= opt_box_id(l.expr)); }
                let ghost p0 = children@;
                children.push(c0);
                proof { lemma_ids_push(p0, c0); }
                append_ids(&mut children, &c1);
                append_ids(&mut children, &c2);
                let kind = literal_string("let");
                let label = literal_string("let");
                proof { assert(ids_of(children@) =~= stmt_entry(node.node).children); }
                self.insert_node(id, kind, label, children, node.span);
            },
            ast::Stmt::Expr(e) => {
                let c0 = self.convert_expr(e);
                let ghost p0 = children@;
                children.push(c0);
                proof { lemma_ids_push(p0, c0); }
                let kind = literal_string("stmt_expr");
                let label = literal_string("expr");
                proof { assert(ids_of(children@) =~= stmt_entry(node.node).children); }
                self.insert_node(id, kind, label, children, node.span);
            },
            ast::Stmt::Semi(e) => {
                let c0 = self.convert_expr(e);
                let ghost p0 = children@;
                children.push(c0);
                proof { lemma_ids_push(p0, c0); }
                let kind = literal_string("stmt_semi");
                let label = literal_string("semi");
                proof { assert(ids_of(children@) =~= stmt_entry(node.node).children); }
                self.insert_node(id, kind, label, children, node.span);
            },
            ast::Stmt::Error => {
                let kind = literal_string("stmt_err");
                let label = literal_string("err");
                proof { assert(ids_of(children@) =~= stmt_entry(node.node).children); }
                self.insert_node(id, kind, label, children, node.span);
            },
        }
        id
    }

    fn convert_expr(&mut self, node: &ast::AstNode<ast::Expr>) -> (id: AstId)
        ensures
            id.0 == node.ast_id.0,
            final(self).nodes@.contains_key(id.0),
            final(self).nodes@[id.0].holds(id, node.span, expr_entry(node.node)),
            forall|key: usize| old(self).nodes@.contains_key(key) ==> #[trigger] final(self).nodes@.contains_key(key),
            table_written(old(self).nodes@, final(self).nodes@, tbl_expr(*node)),
        decreases node,
    {
        let id = AstId::from_ast_id(node.ast_id);
        let mut children: Vec<AstId> = Vec::new();
        let ghost start = self.nodes@;
        match &node.node {
            ast::Expr::Array(a) => {
                let mut c0: Vec<AstId> = Vec::new();
                self.convert_expr_list(&a.expressions, &mut c0);
                append_ids(&mut children, &c0);
                let kind = literal_string("array");
                let label = literal_string("[]");
                proof { assert(ids_of(children@) =~= expr_entry(node.node).children); }
                self.insert_node(id, kind, label, children, node.span);
            },
            ast::Expr::Struct(s) => {
                let c0 = self.convert_path(&s.name);
                let mut c1: Vec<AstId> = Vec::new();
                self.convert_struct_expr_field_list(&s.fields, &mut c1);
                let ghost p0 = children@;
                children.push(c0);
                proof { lemma_ids_push(p0, c0); }
                append_ids(&mut children, &c1);
                let kind = literal_string("struct_expr");
                let label = literal_string("struct");
                proof { assert(ids_of(children@) =~= expr_entry(node.node).children); }
                self.insert_node(id, kind, label, children, node.span);
            },
            ast::Expr::Call(c) => {
                let c0 = self.convert_expr(&c.callee);
                let mut c1: Vec<AstId> = Vec::new();
                self.convert_expr_list(&c.arguments, &mut c1);
                let ghost p0 = children@;
                children.push(c0);
                proof { lemma_ids_push(p0, c0); }
                append_ids(&mut children, &c1);
                let kind = literal_string("call");
                let label = literal_string("call");
                proof { assert(ids_of(children@) =~= expr_entry(node.node).children); }
                self.insert_node(id, kind, label, children, node.span);
            },
            ast::Expr::MethodCall(m) => {
                let c0 = self.convert_expr(&m.receiver);
                let c1 = self.convert_segment(&m.name);
                let mut c2: Vec<AstId> = Vec::new();
                self.convert_expr_list(&m.arguments, &mut c2);
                let ghost p0 = children@;
                children.push(c0);
                proof { lemma_ids_push(p0, c0); }
                let ghost p1 = children@;
                children.push(c1);
                proof { lemma_ids_push(p1, c1); }
                append_ids(&mut children, &c2);
                let kind = literal_string("method_call");
                let label = literal_string("method_call");
                proof { assert(ids_of(children@) =~= expr_entry(node.node).children); }
                self.insert_node(id, kind, label, children, node.span);
            },
            ast::Expr::Tuple(t) => {
                let mut c0: Vec<AstId> = Vec::new();
                self.convert_expr_list(&t.expressions, &mut c0);
                append_ids(&mut children, &c0);
                let kind = literal_string("tuple");
                let label = literal_string("()");
                proof { assert(ids_of(children@) =~= expr_entry(node.node).children); }
                self.insert_node(id, kind, label, children, node.span);
            },
            ast::Expr::Cast(c) => {
                let c0 = self.convert_expr(&c.expr);
                let c1 = self.convert_ty(&c.ty);
                let ghost p0 = children@;
                children.push(c0);
                proof { lemma_ids_push(p0, c0); }
                let ghost p1 = children@;
                children.push(c1);
                proof { lemma_ids_push(p1, c1); }
                let kind = literal_string("cast");
                let label = literal_string("as");
                proof { assert(ids_of(children@) =~= expr_entry(node.node).children); }
                self.insert_node(id, kind, label, children, node.span);
            },
            ast::Expr::Return(r) => {
                let mut c0: Vec<AstId> = Vec::new();
                match &r.value { Some(x) => { let i = self.convert_expr(x); c0.push(i); }, None => {} }
                proof { assert(ids_of(c0@) =~= opt_box_id(r.value)); }
                append_ids(&mut children, &c0);
                let kind = literal_string("return");
                let label = literal_string("return");
                proof { assert(ids_of(children@) =~= expr_entry(node.node).children); }
                self.insert_node(id, kind, label, children, node.span);
            },
            ast::Expr::While(w) => {
                let c0 = self.convert_expr(&w.condition);
                let c1 = self.convert_block(&w.body);
                let ghost p0 = children@;
                children.push(c0);
                proof { lemma_ids_push(p0, c0); }
                let ghost p1 = children@;
                children.push(c1);
                proof { lemma_ids_push(p1, c1); }
                let kind = literal_string("while");
                let label = literal_string("while");
                proof { assert(ids_of(children@) =~= expr_entry(node.node).children); }
                self.insert_node(id, kind, label, children, node.span);
            },
            ast::Expr::Loop(l) => {
                let c0 = self.convert_block(&l.body);
                let ghost p0 = children@;
                children.push(c0);
                proof { lemma_ids_push(p0, c0); }
                let kind = literal_string("loop");
                let label = literal_string("loop");
                proof { assert(ids_of(children@) =~= expr_entry(node.node).children); }
                self.insert_node(id, kind, label, children, node.span);
            },
            ast::Expr::For(f) => {
                let c0 = self.convert_pattern(&f.pattern);
                let c1 = self.convert_expr(&f.iterator);
                let c2 = self.convert_block(&f.body);
                let ghost p0 = children@;
                children.push(c0);
                proof { lemma_ids_push(p0, c0); }
                let ghost p1 = children@;
                children.push(c1);
                proof { lemma_ids_push(p1, c1); }
                let ghost p2 = children@;
                children.push(c2);
                proof { lemma_ids_push(p2, c2); }
                let kind = literal_string("for");
                let label = literal_string("for");
                proof { assert(ids_of(children@) =~= expr_entry(node.node).children); }
                self.insert_node(id, kind, label, children, node.span);
            },
            ast::Expr::Assign(a) => {
                let c0 = self.convert_expr(&a.target);
                let c1 = self.convert_expr(&a.value);
                let ghost p0 = children@;
                children.push(c0);
                proof { lemma_ids_push(p0, c0); }
                let ghost p1 = children@;
                children.push(c1);
                proof { lemma_ids_push(p1, c1); }
                let kind = literal_string("assign");
                let label = literal_string("=");
                proof { assert(ids_of(children@) =~= expr_entry(node.node).children); }
                self.insert_node(id, kind, label, children, node.span);
            },
            ast::Expr::AssignOp(a) => {
                let c0 = self.convert_expr(&a.target);
                let c1 = self.convert_expr(&a.value);
                let ghost p0 = children@;
                children.push(c0);
                proof { lemma_ids_push(p0, c0); }
                let ghost p1 = children@;
                children.push(c1);
                proof { lemma_ids_push(p1, c1); }
                let kind = literal_string("assign_op");
                let label = assign_op_name(a.op.node);
                proof { assert(ids_of(children@) =~= expr_entry(node.node).children); }
                self.insert_node(id, kind, label, children, node.span);
            },
            ast::Expr::FieldAccess(f) => {
                let c0 = self.convert_expr(&f.target);
                let c1 = self.convert_ident(&f.field);
                let ghost p0 = children@;
                children.push(c0);
                proof { lemma_ids_push(p0, c0); }
                let ghost p1 = children@;
                children.push(c1);
                proof { lemma_ids_push(p1, c1); }
                let kind = literal_string("field_access");
                let label = literal_string(".");
                proof { assert(ids_of(children@) =~= expr_entry(node.node).children); }
                self.insert_node(id, kind, label, children, node.span);
            },
            ast::Expr::Index(i) => {
                let c0 = self.convert_expr(&i.target);
                let c1 = self.convert_expr(&i.index);
                let ghost p0 = children@;
                children.push(c0);
                proof { lemma_ids_push(p0, c0); }
                let ghost p1 = children@;
                children.push(c1);
                proof { lemma_ids_push(p1, c1); }
                let kind = literal_string("index");
                let label = literal_string("[]");
                proof { assert(ids_of(children@) =~= expr_entry(node.node).children); }
                self.insert_node(id, kind, label, children, node.span);
            },
            ast::Expr::Path(p) => {
                let c0 = self.convert_path(&p.path);
                let ghost p0 = children@;
                children.push(c0);
                proof { lemma_ids_push(p0, c0); }
                let kind = literal_string("path");
                let label = literal_string("path");
                proof { assert(ids_of(children@) =~= expr_entry(node.node).children); }
                self.insert_node(id, kind, label, children, node.span);
            },
            ast::Expr::AddrOf(a) => {
                let c0 = self.convert_expr(&a.expr);
                let ghost p0 = children@;
                children.push(c0);
                proof { lemma_ids_push(p0, c0); }
                let kind = literal_string("addr_of");
                let label = literal_string("&");
                proof { assert(ids_of(children@) =~= expr_entry(node.node).children); }
                self.insert_node(id, kind, label, children, node.span);
            },
            ast::Expr::Break(b) => {
                let mut c0: Vec<AstId> = Vec::new();
                match &b.expr { Some(x) => { let i = self.convert_expr(x); c0.push(i); }, None => {} }
                proof { assert(ids_of(c0@) =~= opt_box_id(b.expr)); }
                append_ids(&mut children, &c0);
                let kind = literal_string("break");
                let label = literal_string("break");
                proof { assert(ids_of(children@) =~= expr_entry(node.node).children); }
                self.insert_node(id, kind, label, children, node.span);
            },
            ast::Expr::Continue => {
                let kind = literal_string("continue");
                let label = literal_string("continue");
                proof { assert(ids_of(children@) =~= expr_entry(node.node).children); }
                self.insert_node(id, kind, label, children, node.span);
            },
            ast::Expr::Literal(l) => {
                let kind = literal_string("literal");
                let label = literal_label(l);
                proof { assert(ids_of(children@) =~= expr_entry(node.node).children); }
                self.insert_node(id, kind, label, children, node.span);
            },
            ast::Expr::Binary(b) => {
                let c0 = self.convert_expr(&b.left);
                let c1 = self.convert_expr(&b.right);
                let ghost p0 = children@;
                children.push(c0);
                proof { lemma_ids_push(p0, c0); }
                let ghost p1 = children@;
                children.push(c1);
                proof { lemma_ids_push(p1, c1); }
                let kind = literal_string("binary");
                let label = bin_op_name(b.operator.node);
                proof { assert(ids_of(children@) =~= expr_entry(node.node).children); }
                self.insert_node(id, kind, label, children, node.span);
            },
            ast::Expr::Unary(u) => {
                let c0 = self.convert_expr(&u.operand);
                let ghost p0 = children@;
                children.push(c0);
                proof { lemma_ids_push(p0, c0); }
                let kind = literal_string("unary");
                let label = un_op_name(u.operator.node);
                proof { assert(ids_of(children@) =~= expr_entry(node.node).children); }
                self.insert_node(id, kind, label, children, node.span);
            },
            ast::Expr::If(i) => {
                let c0 = self.convert_expr(&i.condition);
                let c1 = self.convert_block(&i.then_branch);
                let mut c2: Vec<AstId> = Vec::new();
                match &i.else_branch { Some(x) => { let i = self.convert_block(x); c2.push(i); }, None => {} }
                proof { assert(ids_of(c2@) =~= opt_box_id(i.else_branch)); }
                let ghost p0 = children@;
                children.push(c0);
                proof { lemma_ids_push(p0, c0); }
                let ghost p1 = children@;
                children.push(c1);
                proof { lemma_ids_push(p1, c1); }
                append_ids(&mut children, &c2);
                let kind = literal_string("if");
                let label = literal_string("if");
                proof { assert(ids_of(children@) =~= expr_entry(node.node).children); }
                self.insert_node(id, kind, label, children, node.span);
            },
            ast::Expr::Block(b) => {
                let mut c0: Vec<AstId> = Vec::new();
                self.convert_stmt_list(&b.stmts, &mut c0);
                append_ids(&mut children, &c0);
                let kind = literal_string("block");
                let label = literal_string("{ }");
                proof { assert(ids_of(children@) =~= expr_entry(node.node).children); }
                self.insert_node(id, kind, label, children, node.span);
            },
            ast::Expr::Match(m) => {
                let c0 = self.convert_expr(&m.value);
                let mut c1: Vec<AstId> = Vec::new();
                self.convert_match_arm_list(&m.arms, &mut c1);
                let ghost p0 = children@;
                children.push(c0);
                proof { lemma_ids_push(p0, c0); }
                append_ids(&mut children, &c1);
                let kind = literal_string("match");
                let label = literal_string("match");
                proof { assert(ids_of(children@) =~= expr_entry(node.node).children); }
                self.insert_node(id, kind, label, children, node.span);
            },
            ast::Expr::Let(l) => {
                let c0 = self.convert_pattern(&l.pattern);
                let c1 = self.convert_expr(&l.value);
                let ghost p0 = children@;
                children.push(c0);
                proof { lemma_ids_push(p0, c0); }
                let ghost p1 = children@;
                children.push(c1);
                proof { lemma_ids_push(p1, c1); }
                let kind = literal_string("let_expr");
                let label = literal_string("let");
                proof { assert(ids_of(children@) =~= expr_entry(node.node).children); }
                self.insert_node(id, kind, label, children, node.span);
            },
            ast::Expr::Paren(p) => {
                let c0 = self.convert_expr(p);
                let ghost p0 = children@;
                children.push(c0);
                proof { lemma_ids_push(p0, c0); }
                let kind = literal_string("paren");
                let label = literal_string("( )");
                proof { assert(ids_of(children@) =~= expr_entry(node.node).children); }
                self.insert_node(id, kind, label, children, node.span);
            },
            ast::Expr::Error => {
                let kind = literal_string("expr_err");
                let label = literal_string("err");
                proof { assert(ids_of(children@) =~= expr_entry(node.node).children); }
                self.insert_node(id, kind, label, children, node.span);
            },
        }
        id
    }

    fn convert_struct_expr_field(&mut self, node: &ast::AstNode<ast::StructExprField>) -> (id: AstId)
        ensures
            id.0 == node.ast_id.0,
            final(self).nodes@.contains_key(id.0),
            final(self).nodes@[id.0].holds(id, node.span, struct_expr_field_entry(node.node)),
            forall|key: usize| old(self).nodes@.contains_key(key) ==> #[trigger] final(self).nodes@.contains_key(key),
            table_written(old(self).nodes@, final(self).nodes@, tbl_struct_expr_field(*node)),
        decreases node,
    {
        let id = AstId::from_ast_id(node.ast_id);
        let mut children: Vec<AstId> = Vec::new();
        let ghost start = self.nodes@;
        let n = &node.node;
        let c0 = self.convert_ident(&n.ident);
        let c1 = self.convert_expr(&n.expr);
        let ghost p0 = children@;
        children.push(c0);
        proof { lemma_ids_push(p0, c0); }
        let ghost p1 = children@;
        children.push(c1);
        proof { lemma_ids_push(p1, c1); }
        let kind = literal_string("struct_expr_field");
        let label = clone_name(&n.ident.node.name);
        proof { assert(ids_of(children@) =~= struct_expr_field_entry(node.node).children); }
        self.insert_node(id, kind, label, children, node.span);
        id
    }

    fn convert_match_arm(&mut self, node: &ast::AstNode<ast::MatchArm>) -> (id: AstId)
        ensures
            id.0 == node.ast_id.0,
            final(self).nodes@.contains_key(id.0),
            final(self).nodes@[id.0].holds(id, node.span, match_arm_entry(node.node)),
            forall|key: usize| old(self).nodes@.contains_key(key) ==> #[trigger] final(self).nodes@.contains_key(key),
            table_written(old(self).nodes@, final(self).nodes@, tbl_match_arm(*node)),
        decreases node,
    {
        let id = AstId::from_ast_id(node.ast_id);
        let mut children: Vec<AstId> = Vec::new();
        let ghost start = self.nodes@;
        let n = &node.node;
        let c0 = self.convert_pattern(&n.pattern);
        let c1 = self.convert_expr(&n.body);
        let ghost p0 = children@;
        children.push(c0);
        proof { lemma_ids_push(p0, c0); }
        let ghost p1 = children@;
        children.push(c1);
        proof { lemma_ids_push(p1, c1); }
        let kind = literal_string("match_arm");
        let label = literal_string("=>");
        proof { assert(ids_of(children@) =~= match_arm_entry(node.node).children); }
        self.insert_node(id, kind, label, children, node.span);
        id
    }

    fn convert_block(&mut self, node: &ast::AstNode<ast::BlockExpr>) -> (id: AstId)
        ensures
            id.0 == node.ast_id.0,
            final(self).nodes@.contains_key(id.0),
            final(self).nodes@[id.0].holds(id, node.span, block_entry(node.node)),
            forall|key: usize| old(self).nodes@.contains_key(key) ==> #[trigger] final(self).nodes@.contains_key(key),
            table_written(old(self).nodes@, final(self).nodes@, tbl_block(*node)),
        decreases node,
    {
        let id = AstId::from_ast_id(node.ast_id);
        let mut children: Vec<AstId> = Vec::new();
        let ghost start = self.nodes@;
        let n = &node.node;
        let mut c0: Vec<AstId> = Vec::new();
        self.convert_stmt_list(&n.stmts, &mut c0);
        append_ids(&mut children, &c0);
        let kind = literal_string("block");
        let label = literal_string("{ }");
        proof { assert(ids_of(children@) =~= block_entry(node.node).children); }
        self.insert_node(id, kind, label, children, node.span);
        id
    }

    fn convert_pattern(&mut self, node: &ast::AstNode<ast::Pattern>) -> (id: AstId)
        ensures
            id.0 == node.ast_id.0,
            final(self).nodes@.contains_key(id.0),
            final(self).nodes@[id.0].holds(id, node.span, pattern_entry(node.node)),
            forall|key: usize| old(self).nodes@.contains_key(key) ==> #[trigger] final(self).nodes@.contains_key(key),
            table_written(old(self).nodes@, final(self).nodes@, tbl_pattern(*node)),
        decreases node,
    {
        let id = AstId::from_ast_id(node.ast_id);
        let mut children: Vec<AstId> = Vec::new();
        let ghost start = self.nodes@;
        match &node.node {
            ast::Pattern::Wildcard => {
                let kind = literal_string("pat_wildcard");
                let label = literal_string("_");
                proof { assert(ids_of(children@) =~= pattern_entry(node.node).children); }
                self.insert_node(id, kind, label, children, node.span);
            },
            ast::Pattern::Or(ps) => {
                let mut c0: Vec<AstId> = Vec::new();
                self.convert_pattern_list(ps, &mut c0);
                append_ids(&mut children, &c0);
                let kind = literal_string("pat_or");
                let label = literal_string("|");
                proof { assert(ids_of(children@) =~= pattern_entry(node.node).children); }
                self.insert_node(id, kind, label, children, node.span);
            },
            ast::Pattern::Path(p) => {
                let c0 = self.convert_path(p);
                let ghost p0 = children@;
                children.push(c0);
                proof { lemma_ids_push(p0, c0); }
                let kind = literal_string("pat_path");
                let label = literal_string("path");
                proof { assert(ids_of(children@) =~= pattern_entry(node.node).children); }
                self.insert_node(id, kind, label, children, node.span);
            },
            ast::Pattern::Struct(p, fields) => {
                let c0 = self.convert_path(p);
                let mut c1: Vec<AstId> = Vec::new();
                self.convert_pat_struct_field_list(fields, &mut c1);
                let ghost p0 = children@;
                children.push(c0);
                proof { lemma_ids_push(p0, c0); }
                append_ids(&mut children, &c1);
                let kind = literal_string("pat_struct");
                let label = literal_string("struct");
                proof { assert(ids_of(children@) =~= pattern_entry(node.node).children); }
                self.insert_node(id, kind, label, children, node.span);
            },
            ast::Pattern::TupleStruct(p, ps) => {
                let c0 = self.convert_path(p);
                let mut c1: Vec<AstId> = Vec::new();
                self.convert_pattern_list(ps, &mut c1);
                let ghost p0 = children@;
                children.push(c0);
                proof { lemma_ids_push(p0, c0); }
                append_ids(&mut children, &c1);
                let kind = literal_string("pat_tuple_struct");
                let label = literal_string("tuple_struct");
                proof { assert(ids_of(children@) =~= pattern_entry(node.node).children); }
                self.insert_node(id, kind, label, children, node.span);
            },
            ast::Pattern::Tuple(ps) => {
                let mut c0: Vec<AstId> = Vec::new();
                self.convert_pattern_list(ps, &mut c0);
                append_ids(&mut children, &c0);
                let kind = literal_string("pat_tuple");
                let label = literal_string("()");
                proof { assert(ids_of(children@) =~= pattern_entry(node.node).children); }
                self.insert_node(id, kind, label, children, node.span);
            },
            ast::Pattern::Expr(e) => {
                let c0 = self.convert_expr(e);
                let ghost p0 = children@;
                children.push(c0);
                proof { lemma_ids_push(p0, c0); }
                let kind = literal_string("pat_expr");
                let label = literal_string("expr");
                proof { assert(ids_of(children@) =~= pattern_entry(node.node).children); }
                self.insert_node(id, kind, label, children, node.span);
            },
            ast::Pattern::Paren(p) => {
                let c0 = self.convert_pattern(p);
                let ghost p0 = children@;
                children.push(c0);
                proof { lemma_ids_push(p0, c0); }
                let kind = literal_string("pat_paren");
                let label = literal_string("( )");
                proof { assert(ids_of(children@) =~= pattern_entry(node.node).children); }
                self.insert_node(id, kind, label, children, node.span);
            },
        }
        id
    }

    fn convert_pat_struct_field(&mut self, node: &ast::AstNode<ast::PatternStructField>) -> (id: AstId)
        ensures
            id.0 == node.ast_id.0,
            final(self).nodes@.contains_key(id.0),
            final(self).nodes@[id.0].holds(id, node.span, pat_struct_field_entry(node.node)),
            forall|key: usize| old(self).nodes@.contains_key(key) ==> #[trigger] final(self).nodes@.contains_key(key),
            table_written(old(self).nodes@, final(self).nodes@, tbl_pat_struct_field(*node)),
        decreases node,
    {
        let id = AstId::from_ast_id(node.ast_id);
        let mut children: Vec<AstId> = Vec::new();
        let ghost start = self.nodes@;
        let n = &node.node;
        let c0 = self.convert_ident(&n.ident);
        let c1 = self.convert_pattern(&n.pattern);
        let ghost p0 = children@;
        children.push(c0);
        proof { lemma_ids_push(p0, c0); }
        let ghost p1 = children@;
        children.push(c1);
        proof { lemma_ids_push(p1, c1); }
        let kind = literal_string("pat_struct_field");
        let label = clone_name(&n.ident.node.name);
        proof { assert(ids_of(children@) =~= pat_struct_field_entry(node.node).children); }
        self.insert_node(id, kind, label, children, node.span);
        id
    }

    fn convert_ty(&mut self, node: &ast::AstNode<ast::Ty>) -> (id: AstId)
        ensures
            id.0 == node.ast_id.0,
            final(self).nodes@.contains_key(id.0),
            final(self).nodes@[id.0].holds(id, node.span, ty_entry(node.node)),
            forall|key: usize| old(self).nodes@.contains_key(key) ==> #[trigger] final(self).nodes@.contains_key(key),
            table_written(old(self).nodes@, final(self).nodes@, tbl_ty(*node)),
        decreases node,
    {
        let id = AstId::from_ast_id(node.ast_id);
        let mut children: Vec<AstId> = Vec::new();
        let ghost start = self.nodes@;
        match &node.node {
            ast::Ty::Path(p) => {
                let c0 = self.convert_path(p);
                let ghost p0 = children@;
                children.push(c0);
                proof { lemma_ids_push(p0, c0); }
                let kind = literal_string("ty_path");
                let label = literal_string("path");
                proof { assert(ids_of(children@) =~= ty_entry(node.node).children); }
                self.insert_node(id, kind, label, children, node.span);
            },
            ast::Ty::Array(t, e) => {
                let c0 = self.convert_ty(t);
                let c1 = self.convert_expr(e);
                let ghost p0 = children@;
                children.push(c0);
                proof { lemma_ids_push(p0, c0); }
                let ghost p1 = children@;
                children.push(c1);
                proof { lemma_ids_push(p1, c1); }
                let kind = literal_string("ty_array");
                let label = literal_string("[]");
                proof { assert(ids_of(children@) =~= ty_entry(node.node).children); }
                self.insert_node(id, kind, label, children, node.span);
            },
            ast::Ty::Ptr(t) => {
                let c0 = self.convert_ty(t);
                let ghost p0 = children@;
                children.push(c0);
                proof { lemma_ids_push(p0, c0); }
                let kind = literal_string("ty_ptr");
                let label = literal_string("*");
                proof { assert(ids_of(children@) =~= ty_entry(node.node).children); }
                self.insert_node(id, kind, label, children, node.span);
            },
            ast::Ty::Fn(ps, ret) => {
                let mut c0: Vec<AstId> = Vec::new();
                self.convert_ty_list(ps, &mut c0);
                let mut c1: Vec<AstId> = Vec::new();
                match &**ret { Some(x) => { let i = self.convert_ty(x); c1.push(i); }, None => {} }
                proof { assert(ids_of(c1@) =~= opt_id(**ret)); }
                append_ids(&mut children, &c0);
                append_ids(&mut children, &c1);
                let kind = literal_string("ty_fn");
                let label = literal_string("fn");
                proof { assert(ids_of(children@) =~= ty_entry(node.node).children); }
                self.insert_node(id, kind, label, children, node.span);
            },
            ast::Ty::Tuple(ts) => {
                let mut c0: Vec<AstId> = Vec::new();
                self.convert_ty_list(ts, &mut c0);
                append_ids(&mut children, &c0);
                let kind = literal_string("ty_tuple");
                let label = literal_string("()");
                proof { assert(ids_of(children@) =~= ty_entry(node.node).children); }
                self.insert_node(id, kind, label, children, node.span);
            },
        }
        id
    }

    fn convert_path(&mut self, node: &ast::AstNode<ast::Path>) -> (id: AstId)
        ensures
            id.0 == node.ast_id.0,
            final(self).nodes@.contains_key(id.0),
            final(self).nodes@[id.0].holds(id, node.span, path_entry(node.node)),
            forall|key: usize| old(self).nodes@.contains_key(key) ==> #[trigger] final(self).nodes@.contains_key(key),
            table_written(old(self).nodes@, final(self).nodes@, tbl_path(*node)),
        decreases node,
    {
        let id = AstId::from_ast_id(node.ast_id);
        let mut children: Vec<AstId> = Vec::new();
        let ghost start = self.nodes@;
        let n = &node.node;
        let mut c0: Vec<AstId> = Vec::new();
        self.convert_segment_list(&n.segments, &mut c0);
        append_ids(&mut children, &c0);
        let kind = literal_string("path");
        let label = path_label(&n.segments);
        proof { assert(ids_of(children@) =~= path_entry(node.node).children); }
        self.insert_node(id, kind, label, children, node.span);
        id
    }

    fn convert_segment(&mut self, node: &ast::AstNode<ast::PathSegment>) -> (id: AstId)
        ensures
            id.0 == node.ast_id.0,
            final(self).nodes@.contains_key(id.0),
            final(self).nodes@[id.0].holds(id, node.span, segment_entry(node.node)),
            forall|key: usize| old(self).nodes@.contains_key(key) ==> #[trigger] final(self).nodes@.contains_key(key),
            table_written(old(self).nodes@, final(self).nodes@, tbl_segment(*node)),
        decreases node,
    {
        let id = AstId::from_ast_id(node.ast_id);
        let mut children: Vec<AstId> = Vec::new();
        let ghost start = self.nodes@;
        let n = &node.node;
        let c0 = self.convert_ident(&n.ident);
        let mut c1: Vec<AstId> = Vec::new();
        self.convert_generic_arg_list(&n.args, &mut c1);
        let ghost p0 = children@;
        children.push(c0);
        proof { lemma_ids_push(p0, c0); }
        append_ids(&mut children, &c1);
        let kind = literal_string("path_segment");
        let label = clone_name(&n.ident.node.name);
        proof { assert(ids_of(children@) =~= segment_entry(node.node).children); }
        self.insert_node(id, kind, label, children, node.span);
        id
    }

    fn convert_generic_arg(&mut self, node: &ast::AstNode<ast::GenericArg>) -> (id: AstId)
        ensures
            id.0 == node.ast_id.0,
            final(self).nodes@.contains_key(id.0),
            final(self).nodes@[id.0].holds(id, node.span, generic_arg_entry(node.node)),
            forall|key: usize| old(self).nodes@.contains_key(key) ==> #[trigger] final(self).nodes@.contains_key(key),
            table_written(old(self).nodes@, final(self).nodes@, tbl_generic_arg(*node)),
        decreases node,
    {
        let id = AstId::from_ast_id(node.ast_id);
        let mut children: Vec<AstId> = Vec::new();
        let ghost start = self.nodes@;
        match &node.node {
            ast::GenericArg::Type(t) => {
                let c0 = self.convert_ty(t);
                let ghost p0 = children@;
                children.push(c0);
                proof { lemma_ids_push(p0, c0); }
                let kind = literal_string("generic_arg_type");
                let label = literal_string("");
                proof { assert(ids_of(children@) =~= generic_arg_entry(node.node).children); }
                self.insert_node(id, kind, label, children, node.span);
            },
            ast::GenericArg::Const(e) => {
                let c0 = self.convert_expr(e);
                let ghost p0 = children@;
                children.push(c0);
                proof { lemma_ids_push(p0, c0); }
                let kind = literal_string("generic_arg_const");
                let label = literal_string("");
                proof { assert(ids_of(children@) =~= generic_arg_entry(node.node).children); }
                self.insert_node(id, kind, label, children, node.span);
            },
        }
        id
    }

    fn convert_ident(&mut self, node: &ast::AstNode<ast::Ident>) -> (id: AstId)
        ensures
            id.0 == node.ast_id.0,
            final(self).nodes@.contains_key(id.0),
            final(self).nodes@[id.0].holds(id, node.span, ident_entry(node.node)),
            forall|key: usize| old(self).nodes@.contains_key(key) ==> #[trigger] final(self).nodes@.contains_key(key),
            table_written(old(self).nodes@, final(self).nodes@, tbl_ident(*node)),
        decreases node,
    {
        let id = AstId::from_ast_id(node.ast_id);
        let mut children: Vec<AstId> = Vec::new();
        let ghost start = self.nodes@;
        let n = &node.node;
        let kind = literal_string("ident");
        let label = clone_name(&n.name);
        proof { assert(ids_of(children@) =~= ident_entry(node.node).children); }
        self.insert_node(id, kind, label, children, node.span);
        id
    }

    fn convert_assoc_item_list(&mut self, v: &Vec<ast::AstNode<ast::AssociatedItem>>, out: &mut Vec<AstId>)
        ensures
            ids_of(final(out)@) == ids_of(old(out)@) + ast_ids(v@),
            forall|key: usize| old(self).nodes@.contains_key(key) ==> #[trigger] final(self).nodes@.contains_key(key),
            forall|i: int| 0 <= i < v@.len() ==> final(self).nodes@.contains_key(#[trigger] v@[i].ast_id.0),
            table_written(old(self).nodes@, final(self).nodes@, tbl_assoc_items(v@)),
        decreases v,
    {
        let mut i: usize = 0;
        while i < v.len()
            invariant
                i <= v.len(),
                ids_of(out@) == ids_of(old(out)@) + ast_ids(v@.take(i as int)),
                forall|key: usize| old(self).nodes@.contains_key(key) ==> #[trigger] self.nodes@.contains_key(key),
                forall|j: int| 0 <= j < i ==> self.nodes@.contains_key(#[trigger] v@[j].ast_id.0),
                table_written(old(self).nodes@, self.nodes@, tbl_assoc_items(v@.take(i as int))),
            decreases v.len() - i,
        {
            proof {
                assert(decreases_to!(*v => v[i as int]));
            }
            let ghost prev = out@;
            let id = self.convert_assoc_item(&v[i]);
            out.push(id);
            proof {
                lemma_ids_push(prev, id);
                assert(ast_ids(v@.take(i + 1)) =~= ast_ids(v@.take(i as int)).push(v@[i as int].ast_id.0));
                assert(ids_of(old(out)@) + ast_ids(v@.take(i + 1)) =~= (ids_of(old(out)@) + ast_ids(v@.take(i as int))).push(v@[i as int].ast_id.0));
            }
            proof {
                assert(v@.take(i as int + 1).drop_last() =~= v@.take(i as int));
            }
            i = i + 1;
        }
        assert(v@.take(v.len() as int) =~= v@);
    }

    fn convert_enum_variant_list(&mut self, v: &Vec<ast::AstNode<ast::EnumVariant>>, out: &mut Vec<AstId>)
        ensures
            ids_of(final(out)@) == ids_of(old(out)@) + ast_ids(v@),
            forall|key: usize| old(self).nodes@.contains_key(key) ==> #[trigger] final(self).nodes@.contains_key(key),
            forall|i: int| 0 <= i < v@.len() ==> final(self).nodes@.contains_key(#[trigger] v@[i].ast_id.0),
            table_written(old(self).nodes@, final(self).nodes@, tbl_enum_variants(v@)),
        decreases v,
    {
        let mut i: usize = 0;
        while i < v.len()
            invariant
                i <= v.len(),
                ids_of(out@) == ids_of(old(out)@) + ast_ids(v@.take(i as int)),
                forall|key: usize| old(self).nodes@.contains_key(key) ==> #[trigger] self.nodes@.contains_key(key),
                forall|j: int| 0 <= j < i ==> self.nodes@.contains_key(#[trigger] v@[j].ast_id.0),
                table_written(old(self).nodes@, self.nodes@, tbl_enum_variants(v@.take(i as int))),
            decreases v.len() - i,
        {
            proof {
                assert(decreases_to!(*v => v[i as int]));
            }
            let ghost prev = out@;
            let id = self.convert_enum_variant(&v[i]);
            out.push(id);
            proof {
                lemma_ids_push(prev, id);
                assert(ast_ids(v@.take(i + 1)) =~= ast_ids(v@.take(i as int)).push(v@[i as int].ast_id.0));
                assert(ids_of(old(out)@) + ast_ids(v@.take(i + 1)) =~= (ids_of(old(out)@) + ast_ids(v@.take(i as int))).push(v@[i as int].ast_id.0));
            }
            proof {
                assert(v@.take(i as int + 1).drop_last() =~= v@.take(i as int));
            }
            i = i + 1;
        }
        assert(v@.take(v.len() as int) =~= v@);
    }

    fn convert_expr_list(&mut self, v: &Vec<ast::AstNode<ast::Expr>>, out: &mut Vec<AstId>)
        ensures
            ids_of(final(out)@) == ids_of(old(out)@) + ast_ids(v@),
            forall|key: usize| old(self).nodes@.contains_key(key) ==> #[trigger] final(self).nodes@.contains_key(key),
            forall|i: int| 0 <= i < v@.len() ==> final(self).nodes@.contains_key(#[trigger] v@[i].ast_id.0),
            table_written(old(self).nodes@, final(self).nodes@, tbl_exprs(v@)),
        decreases v,
    {
        let mut i: usize = 0;
        while i < v.len()
            invariant
                i <= v.len(),
                ids_of(out@) == ids_of(old(out)@) + ast_ids(v@.take(i as int)),
                forall|key: usize| old(self).nodes@.contains_key(key) ==> #[trigger] self.nodes@.contains_key(key),
                forall|j: int| 0 <= j < i ==> self.nodes@.contains_key(#[trigger] v@[j].ast_id.0),
                table_written(old(self).nodes@, self.nodes@, tbl_exprs(v@.take(i as int))),
            decreases v.len() - i,
        {
            proof {
                assert(decreases_to!(*v => v[i as int]));
            }
            let ghost prev = out@;
            let id = self.convert_expr(&v[i]);
            out.push(id);
            proof {
                lemma_ids_push(prev, id);
                assert(ast_ids(v@.take(i + 1)) =~= ast_ids(v@.take(i as int)).push(v@[i as int].ast_id.0));
                assert(ids_of(old(out)@) + ast_ids(v@.take(i + 1)) =~= (ids_of(old(out)@) + ast_ids(v@.take(i as int))).push(v@[i as int].ast_id.0));
            }
            proof {
                assert(v@.take(i as int + 1).drop_last() =~= v@.take(i as int));
            }
            i = i + 1;
        }
        assert(v@.take(v.len() as int) =~= v@);
    }

    fn convert_field_def_list(&mut self, v: &Vec<ast::AstNode<ast::StructFieldDef>>, out: &mut Vec<AstId>)
        ensures
            ids_of(final(out)@) == ids_of(old(out)@) + ast_ids(v@),
            forall|key: usize| old(self).nodes@.contains_key(key) ==> #[trigger] final(self).nodes@.contains_key(key),
            forall|i: int| 0 <= i < v@.len() ==> final(self).nodes@.contains_key(#[trigger] v@[i].ast_id.0),
            table_written(old(self).nodes@, final(self).nodes@, tbl_field_defs(v@)),
        decreases v,
    {
        let mut i: usize = 0;
        while i < v.len()
            invariant
                i <= v.len(),
                ids_of(out@) == ids_of(old(out)@) + ast_ids(v@.take(i as int)),
                forall|key: usize| old(self).nodes@.contains_key(key) ==> #[trigger] self.nodes@.contains_key(key),
                forall|j: int| 0 <= j < i ==> self.nodes@.contains_key(#[trigger] v@[j].ast_id.0),
                table_written(old(self).nodes@, self.nodes@, tbl_field_defs(v@.take(i as int))),
            decreases v.len() - i,
        {
            proof {
                assert(decreases_to!(*v => v[i as int]));
            }
            let ghost prev = out@;
            let id = self.convert_field_def(&v[i]);
            out.push(id);
            proof {
                lemma_ids_push(prev, id);
                assert(ast_ids(v@.take(i + 1)) =~= ast_ids(v@.take(i as int)).push(v@[i as int].ast_id.0));
                assert(ids_of(old(out)@) + ast_ids(v@.take(i + 1)) =~= (ids_of(old(out)@) + ast_ids(v@.take(i as int))).push(v@[i as int].ast_id.0));
            }
            proof {
                assert(v@.take(i as int + 1).drop_last() =~= v@.take(i as int));
            }
            i = i + 1;
        }
        assert(v@.take(v.len() as int) =~= v@);
    }

    fn convert_generic_arg_list(&mut self, v: &Vec<ast::AstNode<ast::GenericArg>>, out: &mut Vec<AstId>)
        ensures
            ids_of(final(out)@) == ids_of(old(out)@) + ast_ids(v@),
            forall|key: usize| old(self).nodes@.contains_key(key) ==> #[trigger] final(self).nodes@.contains_key(key),
            forall|i: int| 0 <= i < v@.len() ==> final(self).nodes@.contains_key(#[trigger] v@[i].ast_id.0),
            table_written(old(self).nodes@, final(self).nodes@, tbl_generic_args(v@)),
        decreases v,
    {
        let mut i: usize = 0;
        while i < v.len()
            invariant
                i <= v.len(),
                ids_of(out@) == ids_of(old(out)@) + ast_ids(v@.take(i as int)),
                forall|key: usize| old(self).nodes@.contains_key(key) ==> #[trigger] self.nodes@.contains_key(key),
                forall|j: int| 0 <= j < i ==> self.nodes@.contains_key(#[trigger] v@[j].ast_id.0),
                table_written(old(self).nodes@, self.nodes@, tbl_generic_args(v@.take(i as int))),
            decreases v.len() - i,
        {
            proof {
                assert(decreases_to!(*v => v[i as int]));
            }
            let ghost prev = out@;
            let id = self.convert_generic_arg(&v[i]);
            out.push(id);
            proof {
                lemma_ids_push(prev, id);
                assert(ast_ids(v@.take(i + 1)) =~= ast_ids(v@.take(i as int)).push(v@[i as int].ast_id.0));
                assert(ids_of(old(out)@) + ast_ids(v@.take(i + 1)) =~= (ids_of(old(out)@) + ast_ids(v@.take(i as int))).push(v@[i as int].ast_id.0));
            }
            proof {
                assert(v@.take(i as int + 1).drop_last() =~= v@.take(i as int));
            }
            i = i + 1;
        }
        assert(v@.take(v.len() as int) =~= v@);
    }

    fn convert_generic_param_list(&mut self, v: &Vec<ast::AstNode<ast::GenericParam>>, out: &mut Vec<AstId>)
        ensures
            ids_of(final(out)@) == ids_of(old(out)@) + ast_ids(v@),
            forall|key: usize| old(self).nodes@.contains_key(key) ==> #[trigger] final(self).nodes@.contains_key(key),
            forall|i: int| 0 <= i < v@.len() ==> final(self).nodes@.contains_key(#[trigger] v@[i].ast_id.0),
            table_written(old(self).nodes@, final(self).nodes@, tbl_generic_params(v@)),
        decreases v,
    {
        let mut i: usize = 0;
        while i < v.len()
            invariant
                i <= v.len(),
                ids_of(out@) == ids_of(old(out)@) + ast_ids(v@.take(i as int)),
                forall|key: usize| old(self).nodes@.contains_key(key) ==> #[trigger] self.nodes@.contains_key(key),
                forall|j: int| 0 <= j < i ==> self.nodes@.contains_key(#[trigger] v@[j].ast_id.0),
                table_written(old(self).nodes@, self.nodes@, tbl_generic_params(v@.take(i as int))),
            decreases v.len() - i,
        {
            proof {
                assert(decreases_to!(*v => v[i as int]));
            }
            let ghost prev = out@;
            let id = self.convert_generic_param(&v[i]);
            out.push(id);
            proof {
                lemma_ids_push(prev, id);
                assert(ast_ids(v@.take(i + 1)) =~= ast_ids(v@.take(i as int)).push(v@[i as int].ast_id.0));
                assert(ids_of(old(out)@) + ast_ids(v@.take(i + 1)) =~= (ids_of(old(out)@) + ast_ids(v@.take(i as int))).push(v@[i as int].ast_id.0));
            }
            proof {
                assert(v@.take(i as int + 1).drop_last() =~= v@.take(i as int));
            }
            i = i + 1;
        }
        assert(v@.take(v.len() as int) =~= v@);
    }

    fn convert_item_list(&mut self, v: &Vec<ast::AstNode<ast::Item>>, out: &mut Vec<AstId>)
        ensures
            ids_of(final(out)@) == ids_of(old(out)@) + ast_ids(v@),
            forall|key: usize| old(self).nodes@.contains_key(key) ==> #[trigger] final(self).nodes@.contains_key(key),
            forall|i: int| 0 <= i < v@.len() ==> final(self).nodes@.contains_key(#[trigger] v@[i].ast_id.0),
            table_written(old(self).nodes@, final(self).nodes@, tbl_items(v@)),
        decreases v,
    {
        let mut i: usize = 0;
        while i < v.len()
            invariant
                i <= v.len(),
                ids_of(out@) == ids_of(old(out)@) + ast_ids(v@.take(i as int)),
                forall|key: usize| old(self).nodes@.contains_key(key) ==> #[trigger] self.nodes@.contains_key(key),
                forall|j: int| 0 <= j < i ==> self.nodes@.contains_key(#[trigger] v@[j].ast_id.0),
                table_written(old(self).nodes@, self.nodes@, tbl_items(v@.take(i as int))),
            decreases v.len() - i,
        {
            proof {
                assert(decreases_to!(*v => v[i as int]));
            }
            let ghost prev = out@;
            let id = self.convert_item(&v[i]);
            out.push(id);
            proof {
                lemma_ids_push(prev, id);
                assert(ast_ids(v@.take(i + 1)) =~= ast_ids(v@.take(i as int)).push(v@[i as int].ast_id.0));
                assert(ids_of(old(out)@) + ast_ids(v@.take(i + 1)) =~= (ids_of(old(out)@) + ast_ids(v@.take(i as int))).push(v@[i as int].ast_id.0));
            }
            proof {
                assert(v@.take(i as int + 1).drop_last() =~= v@.take(i as int));
            }
            i = i + 1;
        }
        assert(v@.take(v.len() as int) =~= v@);
    }

    fn convert_match_arm_list(&mut self, v: &Vec<ast::AstNode<ast::MatchArm>>, out: &mut Vec<AstId>)
        ensures
            ids_of(final(out)@) == ids_of(old(out)@) + ast_ids(v@),
            forall|key: usize| old(self).nodes@.contains_key(key) ==> #[trigger] final(self).nodes@.contains_key(key),
            forall|i: int| 0 <= i < v@.len() ==> final(self).nodes@.contains_key(#[trigger] v@[i].ast_id.0),
            table_written(old(self).nodes@, final(self).nodes@, tbl_match_arms(v@)),
        decreases v,
    {
        let mut i: usize = 0;
        while i < v.len()
            invariant
                i <= v.len(),
                ids_of(out@) == ids_of(old(out)@) + ast_ids(v@.take(i as int)),
                forall|key: usize| old(self).nodes@.contains_key(key) ==> #[trigger] self.nodes@.contains_key(key),
                forall|j: int| 0 <= j < i ==> self.nodes@.contains_key(#[trigger] v@[j].ast_id.0),
                table_written(old(self).nodes@, self.nodes@, tbl_match_arms(v@.take(i as int))),
            decreases v.len() - i,
        {
            proof {
                assert(decreases_to!(*v => v[i as int]));
            }
            let ghost prev = out@;
            let id = self.convert_match_arm(&v[i]);
            out.push(id);
            proof {
                lemma_ids_push(prev, id);
                assert(ast_ids(v@.take(i + 1)) =~= ast_ids(v@.take(i as int)).push(v@[i as int].ast_id.0));
                assert(ids_of(old(out)@) + ast_ids(v@.take(i + 1)) =~= (ids_of(old(out)@) + ast_ids(v@.take(i as int))).push(v@[i as int].ast_id.0));
            }
            proof {
                assert(v@.take(i as int + 1).drop_last() =~= v@.take(i as int));
            }
            i = i + 1;
        }
        assert(v@.take(v.len() as int) =~= v@);
    }

    fn convert_param_list(&mut self, v: &Vec<ast::AstNode<ast::Param>>, out: &mut Vec<AstId>)
        ensures
            ids_of(final(out)@) == ids_of(old(out)@) + ast_ids(v@),
            forall|key: usize| old(self).nodes@.contains_key(key) ==> #[trigger] final(self).nodes@.contains_key(key),
            forall|i: int| 0 <= i < v@.len() ==> final(self).nodes@.contains_key(#[trigger] v@[i].ast_id.0),
            table_written(old(self).nodes@, final(self).nodes@, tbl_params(v@)),
        decreases v,
    {
        let mut i: usize = 0;
        while i < v.len()
            invariant
                i <= v.len(),
                ids_of(out@) == ids_of(old(out)@) + ast_ids(v@.take(i as int)),
                forall|key: usize| old(self).nodes@.contains_key(key) ==> #[trigger] self.nodes@.contains_key(key),
                forall|j: int| 0 <= j < i ==> self.nodes@.contains_key(#[trigger] v@[j].ast_id.0),
                table_written(old(self).nodes@, self.nodes@, tbl_params(v@.take(i as int))),
            decreases v.len() - i,
        {
            proof {
                assert(decreases_to!(*v => v[i as int]));
            }
            let ghost prev = out@;
            let id = self.convert_param(&v[i]);
            out.push(id);
            proof {
                lemma_ids_push(prev, id);
                assert(ast_ids(v@.take(i + 1)) =~= ast_ids(v@.take(i as int)).push(v@[i as int].ast_id.0));
                assert(ids_of(old(out)@) + ast_ids(v@.take(i + 1)) =~= (ids_of(old(out)@) + ast_ids(v@.take(i as int))).push(v@[i as int].ast_id.0));
            }
            proof {
                assert(v@.take(i as int + 1).drop_last() =~= v@.take(i as int));
            }
            i = i + 1;
        }
        assert(v@.take(v.len() as int) =~= v@);
    }

    fn convert_pat_struct_field_list(&mut self, v: &Vec<ast::AstNode<ast::PatternStructField>>, out: &mut Vec<AstId>)
        ensures
            ids_of(final(out)@) == ids_of(old(out)@) + ast_ids(v@),
            forall|key: usize| old(self).nodes@.contains_key(key) ==> #[trigger] final(self).nodes@.contains_key(key),
            forall|i: int| 0 <= i < v@.len() ==> final(self).nodes@.contains_key(#[trigger] v@[i].ast_id.0),
            table_written(old(self).nodes@, final(self).nodes@, tbl_pat_struct_fields(v@)),
        decreases v,
    {
        let mut i: usize = 0;
        while i < v.len()
            invariant
                i <= v.len(),
                ids_of(out@) == ids_of(old(out)@) + ast_ids(v@.take(i as int)),
                forall|key: usize| old(self).nodes@.contains_key(key) ==> #[trigger] self.nodes@.contains_key(key),
                forall|j: int| 0 <= j < i ==> self.nodes@.contains_key(#[trigger] v@[j].ast_id.0),
                table_written(old(self).nodes@, self.nodes@, tbl_pat_struct_fields(v@.take(i as int))),
            decreases v.len() - i,
        {
            proof {
                assert(decreases_to!(*v => v[i as int]));
            }
            let ghost prev = out@;
            let id = self.convert_pat_struct_field(&v[i]);
            out.push(id);
            proof {
                lemma_ids_push(prev, id);
                assert(ast_ids(v@.take(i + 1)) =~= ast_ids(v@.take(i as int)).push(v@[i as int].ast_id.0));
                assert(ids_of(old(out)@) + ast_ids(v@.take(i + 1)) =~= (ids_of(old(out)@) + ast_ids(v@.take(i as int))).push(v@[i as int].ast_id.0));
            }
            proof {
                assert(v@.take(i as int + 1).drop_last() =~= v@.take(i as int));
            }
            i = i + 1;
        }
        assert(v@.take(v.len() as int) =~= v@);
    }

    fn convert_path_list(&mut self, v: &Vec<ast::AstNode<ast::Path>>, out: &mut Vec<AstId>)
        ensures
            ids_of(final(out)@) == ids_of(old(out)@) + ast_ids(v@),
            forall|key: usize| old(self).nodes@.contains_key(key) ==> #[trigger] final(self).nodes@.contains_key(key),
            forall|i: int| 0 <= i < v@.len() ==> final(self).nodes@.contains_key(#[trigger] v@[i].ast_id.0),
            table_written(old(self).nodes@, final(self).nodes@, tbl_paths(v@)),
        decreases v,
    {
        let mut i: usize = 0;
        while i < v.len()
            invariant
                i <= v.len(),
                ids_of(out@) == ids_of(old(out)@) + ast_ids(v@.take(i as int)),
                forall|key: usize| old(self).nodes@.contains_key(key) ==> #[trigger] self.nodes@.contains_key(key),
                forall|j: int| 0 <= j < i ==> self.nodes@.contains_key(#[trigger] v@[j].ast_id.0),
                table_written(old(self).nodes@, self.nodes@, tbl_paths(v@.take(i as int))),
            decreases v.len() - i,
        {
            proof {
                assert(decreases_to!(*v => v[i as int]));
            }
            let ghost prev = out@;
            let id = self.convert_path(&v[i]);
            out.push(id);
            proof {
                lemma_ids_push(prev, id);
                assert(ast_ids(v@.take(i + 1)) =~= ast_ids(v@.take(i as int)).push(v@[i as int].ast_id.0));
                assert(ids_of(old(out)@) + ast_ids(v@.take(i + 1)) =~= (ids_of(old(out)@) + ast_ids(v@.take(i as int))).push(v@[i as int].ast_id.0));
            }
            proof {
                assert(v@.take(i as int + 1).drop_last() =~= v@.take(i as int));
            }
            i = i + 1;
        }
        assert(v@.take(v.len() as int) =~= v@);
    }

    fn convert_pattern_list(&mut self, v: &Vec<ast::AstNode<ast::Pattern>>, out: &mut Vec<AstId>)
        ensures
            ids_of(final(out)@) == ids_of(old(out)@) + ast_ids(v@),
            forall|key: usize| old(self).nodes@.contains_key(key) ==> #[trigger] final(self).nodes@.contains_key(key),
            forall|i: int| 0 <= i < v@.len() ==> final(self).nodes@.contains_key(#[trigger] v@[i].ast_id.0),
            table_written(old(self).nodes@, final(self).nodes@, tbl_patterns(v@)),
        decreases v,
    {
        let mut i: usize = 0;
        while i < v.len()
            invariant
                i <= v.len(),
                ids_of(out@) == ids_of(old(out)@) + ast_ids(v@.take(i as int)),
                forall|key: usize| old(self).nodes@.contains_key(key) ==> #[trigger] self.nodes@.contains_key(key),
                forall|j: int| 0 <= j < i ==> self.nodes@.contains_key(#[trigger] v@[j].ast_id.0),
                table_written(old(self).nodes@, self.nodes@, tbl_patterns(v@.take(i as int))),
            decreases v.len() - i,
        {
            proof {
                assert(decreases_to!(*v => v[i as int]));
            }
            let ghost prev = out@;
            let id = self.convert_pattern(&v[i]);
            out.push(id);
            proof {
                lemma_ids_push(prev, id);
                assert(ast_ids(v@.take(i + 1)) =~= ast_ids(v@.take(i as int)).push(v@[i as int].ast_id.0));
                assert(ids_of(old(out)@) + ast_ids(v@.take(i + 1)) =~= (ids_of(old(out)@) + ast_ids(v@.take(i as int))).push(v@[i as int].ast_id.0));
            }
            proof {
                assert(v@.take(i as int + 1).drop_last() =~= v@.take(i as int));
            }
            i = i + 1;
        }
        assert(v@.take(v.len() as int) =~= v@);
    }

    fn convert_segment_list(&mut self, v: &Vec<ast::AstNode<ast::PathSegment>>, out: &mut Vec<AstId>)
        ensures
            ids_of(final(out)@) == ids_of(old(out)@) + ast_ids(v@),
            forall|key: usize| old(self).nodes@.contains_key(key) ==> #[trigger] final(self).nodes@.contains_key(key),
            forall|i: int| 0 <= i < v@.len() ==> final(self).nodes@.contains_key(#[trigger] v@[i].ast_id.0),
            table_written(old(self).nodes@, final(self).nodes@, tbl_segments(v@)),
        decreases v,
    {
        let mut i: usize = 0;
        while i < v.len()
            invariant
                i <= v.len(),
                ids_of(out@) == ids_of(old(out)@) + ast_ids(v@.take(i as int)),
                forall|key: usize| old(self).nodes@.contains_key(key) ==> #[trigger] self.nodes@.contains_key(key),
                forall|j: int| 0 <= j < i ==> self.nodes@.contains_key(#[trigger] v@[j].ast_id.0),
                table_written(old(self).nodes@, self.nodes@, tbl_segments(v@.take(i as int))),
            decreases v.len() - i,
        {
            proof {
                assert(decreases_to!(*v => v[i as int]));
            }
            let ghost prev = out@;
            let id = self.convert_segment(&v[i]);
            out.push(id);
            proof {
                lemma_ids_push(prev, id);
                assert(ast_ids(v@.take(i + 1)) =~= ast_ids(v@.take(i as int)).push(v@[i as int].ast_id.0));
                assert(ids_of(old(out)@) + ast_ids(v@.take(i + 1)) =~= (ids_of(old(out)@) + ast_ids(v@.take(i as int))).push(v@[i as int].ast_id.0));
            }
            proof {
                assert(v@.take(i as int + 1).drop_last() =~= v@.take(i as int));
            }
            i = i + 1;
        }
        assert(v@.take(v.len() as int) =~= v@);
    }

    fn convert_stmt_list(&mut self, v: &Vec<ast::AstNode<ast::Stmt>>, out: &mut Vec<AstId>)
        ensures
            ids_of(final(out)@) == ids_of(old(out)@) + ast_ids(v@),
            forall|key: usize| old(self).nodes@.contains_key(key) ==> #[trigger] final(self).nodes@.contains_key(key),
            forall|i: int| 0 <= i < v@.len() ==> final(self).nodes@.contains_key(#[trigger] v@[i].ast_id.0),
            table_written(old(self).nodes@, final(self).nodes@, tbl_stmts(v@)),
        decreases v,
    {
        let mut i: usize = 0;
        while i < v.len()
            invariant
                i <= v.len(),
                ids_of(out@) == ids_of(old(out)@) + ast_ids(v@.take(i as int)),
                forall|key: usize| old(self).nodes@.contains_key(key) ==> #[trigger] self.nodes@.contains_key(key),
                forall|j: int| 0 <= j < i ==> self.nodes@.contains_key(#[trigger] v@[j].ast_id.0),
                table_written(old(self).nodes@, self.nodes@, tbl_stmts(v@.take(i as int))),
            decreases v.len() - i,
        {
            proof {
                assert(decreases_to!(*v => v[i as int]));
            }
            let ghost prev = out@;
            let id = self.convert_stmt(&v[i]);
            out.push(id);
            proof {
                lemma_ids_push(prev, id);
                assert(ast_ids(v@.take(i + 1)) =~= ast_ids(v@.take(i as int)).push(v@[i as int].ast_id.0));
                assert(ids_of(old(out)@) + ast_ids(v@.take(i + 1)) =~= (ids_of(old(out)@) + ast_ids(v@.take(i as int))).push(v@[i as int].ast_id.0));
            }
            proof {
                assert(v@.take(i as int + 1).drop_last() =~= v@.take(i as int));
            }
            i = i + 1;
        }
        assert(v@.take(v.len() as int) =~= v@);
    }

    fn convert_struct_expr_field_list(&mut self, v: &Vec<ast::AstNode<ast::StructExprField>>, out: &mut Vec<AstId>)
        ensures
            ids_of(final(out)@) == ids_of(old(out)@) + ast_ids(v@),
            forall|key: usize| old(self).nodes@.contains_key(key) ==> #[trigger] final(self).nodes@.contains_key(key),
            forall|i: int| 0 <= i < v@.len() ==> final(self).nodes@.contains_key(#[trigger] v@[i].ast_id.0),
            table_written(old(self).nodes@, final(self).nodes@, tbl_struct_expr_fields(v@)),
        decreases v,
    {
        let mut i: usize = 0;
        while i < v.len()
            invariant
                i <= v.len(),
                ids_of(out@) == ids_of(old(out)@) + ast_ids(v@.take(i as int)),
                forall|key: usize| old(self).nodes@.contains_key(key) ==> #[trigger] self.nodes@.contains_key(key),
                forall|j: int| 0 <= j < i ==> self.nodes@.contains_key(#[trigger] v@[j].ast_id.0),
                table_written(old(self).nodes@, self.nodes@, tbl_struct_expr_fields(v@.take(i as int))),
            decreases v.len() - i,
        {
            proof {
                assert(decreases_to!(*v => v[i as int]));
            }
            let ghost prev = out@;
            let id = self.convert_struct_expr_field(&v[i]);
            out.push(id);
            proof {
                lemma_ids_push(prev, id);
                assert(ast_ids(v@.take(i + 1)) =~= ast_ids(v@.take(i as int)).push(v@[i as int].ast_id.0));
                assert(ids_of(old(out)@) + ast_ids(v@.take(i + 1)) =~= (ids_of(old(out)@) + ast_ids(v@.take(i as int))).push(v@[i as int].ast_id.0));
            }
            proof {
                assert(v@.take(i as int + 1).drop_last() =~= v@.take(i as int));
            }
            i = i + 1;
        }
        assert(v@.take(v.len() as int) =~= v@);
    }

    fn convert_ty_list(&mut self, v: &Vec<ast::AstNode<ast::Ty>>, out: &mut Vec<AstId>)
        ensures
            ids_of(final(out)@) == ids_of(old(out)@) + ast_ids(v@),
            forall|key: usize| old(self).nodes@.contains_key(key) ==> #[trigger] final(self).nodes@.contains_key(key),
            forall|i: int| 0 <= i < v@.len() ==> final(self).nodes@.contains_key(#[trigger] v@[i].ast_id.0),
            table_written(old(self).nodes@, final(self).nodes@, tbl_tys(v@)),
        decreases v,
    {
        let mut i: usize = 0;
        while i < v.len()
            invariant
                i <= v.len(),
                ids_of(out@) == ids_of(old(out)@) + ast_ids(v@.take(i as int)),
                forall|key: usize| old(self).nodes@.contains_key(key) ==> #[trigger] self.nodes@.contains_key(key),
                forall|j: int| 0 <= j < i ==> self.nodes@.contains_key(#[trigger] v@[j].ast_id.0),
                table_written(old(self).nodes@, self.nodes@, tbl_tys(v@.take(i as int))),
            decreases v.len() - i,
        {
            proof {
                assert(decreases_to!(*v => v[i as int]));
            }
            let ghost prev = out@;
            let id = self.convert_ty(&v[i]);
            out.push(id);
            proof {
                lemma_ids_push(prev, id);
                assert(ast_ids(v@.take(i + 1)) =~= ast_ids(v@.take(i as int)).push(v@[i as int].ast_id.0));
                assert(ids_of(old(out)@) + ast_ids(v@.take(i + 1)) =~= (ids_of(old(out)@) + ast_ids(v@.take(i as int))).push(v@[i as int].ast_id.0));
            }
            proof {
                assert(v@.take(i as int + 1).drop_last() =~= v@.take(i as int));
            }
            i = i + 1;
        }
        assert(v@.take(v.len() as int) =~= v@);
    }

}

} // verus!
