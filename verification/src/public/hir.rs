use crate::ast_lowerer::hir;
use crate::parser::ast::Ident;
use crate::public::ast::{clone_name, impl_label, literal_string, prefixed_name, spec_impl_label, Entry};
use crate::public::span::Span;
use crate::span as internal_span;
use crate::strings::{decimal, join_path, push_decimal, push_str, push_string};
use std::collections::HashMap;
use vstd::prelude::*;

verus! {

broadcast use {vstd::std_specs::hash::group_hash_axioms, vstd::std_specs::vec::group_vec_axioms};

/// Identifies a node of the lowered tree, as the compiler hands it out.
#[derive(Clone, Copy, Debug, PartialEq, Eq, Hash, Structural)]
pub struct HirId(pub usize);

impl HirId {
    pub fn from_hir_id(id: hir::HirId) -> (r: HirId)
        ensures
            r.0 == id.0,
    {
        HirId(id.0)
    }
}

/// The lowered tree as a flat table: the ids of the top-level items, and
/// each node by the number inside its id.
#[derive(Debug)]
pub struct HirCrate {
    pub root_items: Vec<HirId>,
    pub nodes: HashMap<usize, HirNode>,
}

/// One node of the flat lowered tree: what kind of node it is, a short text
/// that names it, and the ids of its children, in order.
#[derive(Debug)]
pub struct HirNode {
    pub id: HirId,
    pub span: Span,
    pub kind: String,
    pub label: String,
    pub children: Vec<HirId>,
}

/// The numbers inside the ids.
pub open spec fn ids_of(v: Seq<HirId>) -> Seq<usize> {
    v.map_values(|a: HirId| a.0)
}

proof fn lemma_ids_push(s: Seq<HirId>, x: HirId)
    ensures
        ids_of(s.push(x)) == ids_of(s).push(x.0),
{
    assert(ids_of(s.push(x)) =~= ids_of(s).push(x.0));
}

/// The numbers inside the ids of the nodes.
pub open spec fn hir_ids<T>(v: Seq<hir::HirNode<T>>) -> Seq<usize> {
    v.map_values(|n: hir::HirNode<T>| n.hir_id.0)
}

/// The number inside the id of the node, if there is one.
pub open spec fn opt_hir_id<T>(o: Option<hir::HirNode<T>>) -> Seq<usize> {
    match o {
        Some(n) => seq![n.hir_id.0],
        None => Seq::empty(),
    }
}

pub open spec fn opt_box_hir_id<T>(o: Option<Box<hir::HirNode<T>>>) -> Seq<usize> {
    match o {
        Some(n) => seq![n.hir_id.0],
        None => Seq::empty(),
    }
}

impl HirNode {
    /// Whether this is the entry of node `id`, at `span`, holding `e`.
    pub open spec fn holds(&self, id: HirId, span: internal_span::Span, e: Entry) -> bool {
        &&& self.id == id
        &&& self.span == Span::spec_from_span(span)
        &&& self.kind@ == e.kind
        &&& self.label@ == e.label
        &&& ids_of(self.children@) == e.children
    }
}

/// The name of a binary operator.
pub open spec fn spec_bin_op_name(op: hir::BinOp) -> Seq<char> {
    match op {
        hir::BinOp::Add => "Add"@,
        hir::BinOp::Sub => "Sub"@,
        hir::BinOp::Mul => "Mul"@,
        hir::BinOp::Div => "Div"@,
        hir::BinOp::Rem => "Rem"@,
        hir::BinOp::And => "And"@,
        hir::BinOp::Or => "Or"@,
        hir::BinOp::Eq => "Eq"@,
        hir::BinOp::Ne => "Ne"@,
        hir::BinOp::Lt => "Lt"@,
        hir::BinOp::Le => "Le"@,
        hir::BinOp::Gt => "Gt"@,
        hir::BinOp::Ge => "Ge"@,
    }
}

fn bin_op_name(op: hir::BinOp) -> (r: String)
    ensures
        r@ == spec_bin_op_name(op),
{
    match op {
        hir::BinOp::Add => literal_string("Add"),
        hir::BinOp::Sub => literal_string("Sub"),
        hir::BinOp::Mul => literal_string("Mul"),
        hir::BinOp::Div => literal_string("Div"),
        hir::BinOp::Rem => literal_string("Rem"),
        hir::BinOp::And => literal_string("And"),
        hir::BinOp::Or => literal_string("Or"),
        hir::BinOp::Eq => literal_string("Eq"),
        hir::BinOp::Ne => literal_string("Ne"),
        hir::BinOp::Lt => literal_string("Lt"),
        hir::BinOp::Le => literal_string("Le"),
        hir::BinOp::Gt => literal_string("Gt"),
        hir::BinOp::Ge => literal_string("Ge"),
    }
}

/// The name of a unary operator.
pub open spec fn spec_un_op_name(op: hir::UnOp) -> Seq<char> {
    match op {
        hir::UnOp::Deref => "Deref"@,
        hir::UnOp::Not => "Not"@,
        hir::UnOp::Neg => "Neg"@,
    }
}

fn un_op_name(op: hir::UnOp) -> (r: String)
    ensures
        r@ == spec_un_op_name(op),
{
    match op {
        hir::UnOp::Deref => literal_string("Deref"),
        hir::UnOp::Not => literal_string("Not"),
        hir::UnOp::Neg => literal_string("Neg"),
    }
}

/// How a literal is written: a number in decimal, a string between
/// double quotes, a floating-point literal as it was written.
pub open spec fn spec_literal_label(l: hir::Literal) -> Seq<char> {
    match l {
        hir::Literal::Bool(b) => if b {
            "true"@
        } else {
            "false"@
        },
        hir::Literal::I32(i) => if i < 0 {
            "-"@ + decimal((-i) as nat)
        } else {
            decimal(i as nat)
        },
        hir::Literal::U32(u) => decimal(u as nat),
        hir::Literal::Float(s) => s@,
        hir::Literal::Str(s) => "\""@ + s@ + "\""@,
        hir::Literal::Unit => "()"@,
    }
}

fn literal_label(l: &hir::Literal) -> (r: String)
    ensures
        r@ == spec_literal_label(*l),
{
    match l {
        hir::Literal::Bool(b) => if *b {
            literal_string("true")
        } else {
            literal_string("false")
        },
        hir::Literal::I32(i) => {
            let mut s = String::new();
            if *i < 0 {
                push_str(&mut s, "-");
                let m: i64 = -(*i as i64);
                push_decimal(&mut s, m as usize);
            } else {
                push_decimal(&mut s, *i as usize);
            }
            assert(s@ =~= spec_literal_label(*l));
            s
        },
        hir::Literal::U32(u) => {
            let mut s = String::new();
            push_decimal(&mut s, *u as usize);
            assert(s@ =~= spec_literal_label(*l));
            s
        },
        hir::Literal::Float(f) => clone_name(f),
        hir::Literal::Str(t) => {
            let mut s = String::new();
            push_str(&mut s, "\"");
            push_string(&mut s, t);
            push_str(&mut s, "\"");
            assert(s@ =~= spec_literal_label(*l));
            s
        },
        hir::Literal::Unit => literal_string("()"),
    }
}

/// The names of the segments, joined by `::`.
pub open spec fn spec_path_label(segments: Seq<hir::HirNode<hir::PathSegment>>) -> Seq<char> {
    join_path(segments.map_values(|s: hir::HirNode<hir::PathSegment>| s.node.ident.node.name@))
}

/// The names of the segments of `a` and then of `b`, joined by `::`.
fn path_label(a: &Vec<hir::HirNode<hir::PathSegment>>, b: &Vec<hir::HirNode<hir::PathSegment>>) -> (r: String)
    ensures
        r@ == spec_path_label(a@ + b@),
{
    let ghost all = a@ + b@;
    let ghost names = all.map_values(|s: hir::HirNode<hir::PathSegment>| s.node.ident.node.name@);
    let mut text = String::new();
    let mut i: usize = 0;
    while i < a.len()
        invariant
            i <= a@.len(),
            all == a@ + b@,
            names == all.map_values(|s: hir::HirNode<hir::PathSegment>| s.node.ident.node.name@),
            text@ == join_path(names.take(i as int)),
        decreases a@.len() - i,
    {
        if i > 0 {
            text.push(':');
            text.push(':');
        }
        assert(a@[i as int] == all[i as int]);
        push_string(&mut text, &a[i].node.ident.node.name);
        i = i + 1;
        assert(names.take(i as int).drop_last() =~= names.take(i - 1));
        assert(names.take(i as int).last() == all[i - 1].node.ident.node.name@);
        assert(i == 1 ==> names.take(i as int) =~= seq![names[0]]);
    }
    let mut j: usize = 0;
    while j < b.len()
        invariant
            j <= b@.len(),
            all == a@ + b@,
            names == all.map_values(|s: hir::HirNode<hir::PathSegment>| s.node.ident.node.name@),
            text@ == join_path(names.take((a@.len() + j) as int)),
        decreases b@.len() - j,
    {
        let ghost k: int = a@.len() + j;
        if a.len() > 0 || j > 0 {
            text.push(':');
            text.push(':');
        }
        assert(b@[j as int] == all[k]);
        push_string(&mut text, &b[j].node.ident.node.name);
        j = j + 1;
        assert(names.take(k + 1).drop_last() =~= names.take(k));
        assert(names.take(k + 1).last() == all[k].node.ident.node.name@);
        assert(k == 0 ==> names.take(k + 1) =~= seq![names[0]]);
    }
    assert(names.take((a@.len() + b@.len()) as int) =~= names);
    text
}

fn append_ids(out: &mut Vec<HirId>, v: &Vec<HirId>)
    ensures
        ids_of(final(out)@) == ids_of(old(out)@) + ids_of(v@),
{
    let mut i: usize = 0;
    while i < v.len()
        invariant
            i <= v.len(),
            ids_of(out@) == ids_of(old(out)@) + ids_of(v@.take(i as int)),
        decreases v.len() - i,
    {
        let ghost prev = out@;
        out.push(v[i]);
        proof {
            lemma_ids_push(prev, v@[i as int]);
            assert(ids_of(v@.take(i + 1)) =~= ids_of(v@.take(i as int)).push(v@[i as int].0));
            assert(ids_of(old(out)@) + ids_of(v@.take(i + 1)) =~= (ids_of(old(out)@) + ids_of(v@.take(i as int))).push(v@[i as int].0));
        }
        i = i + 1;
    }
    assert(v@.take(v.len() as int) =~= v@);
}

/// Builds the flat table of a lowered tree.
struct HirConverter {
    nodes: HashMap<usize, HirNode>,
}

impl HirCrate {
    /// The flat table of the lowered crate: each node appears under its id
    /// with its kind, label and children.
    pub fn from_krate(krate: &hir::Crate) -> (r: HirCrate)
        ensures
            ids_of(r.root_items@) == hir_ids(krate.items@),
            forall|i: int| 0 <= i < krate.items@.len() ==> r.nodes@.contains_key(#[trigger] krate.items@[i].hir_id.0),
            table_written(Map::<usize, HirNode>::empty(), r.nodes@, tbl_items(krate.items@)),
    {
        let mut converter = HirConverter { nodes: HashMap::new() };
        let mut root_items: Vec<HirId> = Vec::new();
        converter.convert_item_list(&krate.items, &mut root_items);
        proof {
            assert(ids_of(root_items@) =~= hir_ids(krate.items@));
        }
        HirCrate { root_items, nodes: converter.nodes }
    }
}

impl HirConverter {
    fn insert_node(&mut self, id: HirId, kind: String, label: String, children: Vec<HirId>, span: internal_span::Span)
        ensures
            final(self).nodes@.contains_key(id.0),
            final(self).nodes@[id.0].holds(id, span, Entry { kind: kind@, label: label@, children: ids_of(children@) }),
            forall|key: usize| old(self).nodes@.contains_key(key) ==> #[trigger] final(self).nodes@.contains_key(key),
            table_written(
                old(self).nodes@,
                final(self).nodes@,
                Map::<usize, (internal_span::Span, Entry)>::empty().insert(
                    id.0,
                    (span, Entry { kind: kind@, label: label@, children: ids_of(children@) }),
                ),
            ),
    {
        let node = HirNode { id, span: Span::from_span(span), kind, label, children };
        self.nodes.insert(id.0, node);
    }
}

/// What the converted entry of a `Item` node holds: its kind, its label and the ids of its children.
pub open spec fn item_entry(n: hir::Item) -> Entry {
    match n {
        hir::Item::Fn(f) => Entry { kind: "fn"@, label: "fn "@ + f.sig.node.ident.node.name@, children: seq![(f.sig).hir_id.0] + seq![(f.body).hir_id.0] },
        hir::Item::Struct(s) => Entry { kind: "struct"@, label: "struct "@ + s.ident.node.name@, children: hir_ids(s.generics@) + seq![(s.data).hir_id.0] },
        hir::Item::Enum(e) => Entry { kind: "enum"@, label: "enum "@ + e.ident.node.name@, children: hir_ids(e.generics@) + hir_ids(e.variants@) },
        hir::Item::Trait(t) => Entry { kind: "trait"@, label: "trait "@ + t.ident.node.name@, children: hir_ids(t.generics@) + hir_ids(t.items@) },
        hir::Item::Mod(m) => Entry { kind: "mod"@, label: "mod "@ + m.ident.node.name@, children: hir_ids(m.items@) },
        hir::Item::Impl(i) => Entry { kind: "impl"@, label: spec_impl_label(i.of_trait is Some), children: opt_hir_id(i.of_trait) + seq![(i.self_ty).hir_id.0] + hir_ids(i.items@) },
        hir::Item::ExternFn(f) => Entry { kind: "extern_fn"@, label: "extern fn "@ + f.sig.node.ident.node.name@, children: seq![(f.sig).hir_id.0] },
        hir::Item::Const(c) => Entry { kind: "const"@, label: "const "@ + c.ident.node.name@, children: opt_hir_id(c.ty) + seq![(c.expr).hir_id.0] },
        hir::Item::TyAlias(t) => Entry { kind: "type_alias"@, label: "type "@ + t.ident.node.name@, children: hir_ids(t.generics@) + opt_hir_id(t.ty) },
    }
}

/// What the converted entry of a `FnSig` node holds: its kind, its label and the ids of its children.
pub open spec fn fn_sig_entry(n: hir::FnSig) -> Entry {
    Entry { kind: "fn_sig"@, label: n.ident.node.name@, children: seq![(n.ident).hir_id.0] + hir_ids(n.generics@) + hir_ids(n.params@) + opt_hir_id(n.return_ty) }
}

/// What the converted entry of a `Param` node holds: its kind, its label and the ids of its children.
pub open spec fn param_entry(n: hir::Param) -> Entry {
    Entry { kind: "param"@, label: "param"@, children: seq![(n.pattern).hir_id.0] + seq![(n.type_annotation).hir_id.0] }
}

/// What the converted entry of a `GenericParam` node holds: its kind, its label and the ids of its children.
pub open spec fn generic_param_entry(n: hir::GenericParam) -> Entry {
    match n {
        hir::GenericParam { ident, bounds, kind: hir::GenericParamKind::Const(ty), .. } => Entry { kind: "generic_param"@, label: ident.node.name@, children: seq![(ident).hir_id.0] + hir_ids(bounds@) + seq![(ty).hir_id.0] },
        hir::GenericParam { ident, bounds, kind: hir::GenericParamKind::Type, .. } => Entry { kind: "generic_param"@, label: ident.node.name@, children: seq![(ident).hir_id.0] + hir_ids(bounds@) },
    }
}

/// What the converted entry of a `VariantData` node holds: its kind, its label and the ids of its children.
pub open spec fn variant_data_entry(n: hir::VariantData) -> Entry {
    match n {
        hir::VariantData::Unit => Entry { kind: "variant_data_unit"@, label: "unit"@, children: Seq::empty() },
        hir::VariantData::Struct { fields } => Entry { kind: "variant_data_struct"@, label: "struct"@, children: hir_ids(fields@) },
        hir::VariantData::Tuple { types } => Entry { kind: "variant_data_tuple"@, label: "tuple"@, children: hir_ids(types@) },
    }
}

/// What the converted entry of a `StructField` node holds: its kind, its label and the ids of its children.
pub open spec fn field_def_entry(n: hir::StructField) -> Entry {
    Entry { kind: "field_def"@, label: n.ident.node.name@, children: seq![(n.ident).hir_id.0] + seq![(n.ty).hir_id.0] }
}

/// What the converted entry of a `EnumVariant` node holds: its kind, its label and the ids of its children.
pub open spec fn enum_variant_entry(n: hir::EnumVariant) -> Entry {
    Entry { kind: "enum_variant"@, label: n.ident.node.name@, children: seq![(n.ident).hir_id.0] + seq![(n.data).hir_id.0] }
}

/// What the converted entry of a `AssociatedItem` node holds: its kind, its label and the ids of its children.
pub open spec fn assoc_item_entry(n: hir::AssociatedItem) -> Entry {
    match n {
        hir::AssociatedItem::Fn(sig, body) => Entry { kind: "assoc_fn"@, label: "fn"@, children: seq![(sig).hir_id.0] + opt_hir_id(body) },
        hir::AssociatedItem::Type(alias) => Entry { kind: "assoc_type"@, label: "type"@, children: seq![(alias.node.ident).hir_id.0] + hir_ids(alias.node.generics@) + opt_hir_id(alias.node.ty) },
    }
}

/// What the converted entry of a `Stmt` node holds: its kind, its label and the ids of its children.
pub open spec fn stmt_entry(n: hir::Stmt) -> Entry {
    match n {
        hir::Stmt::Let(l) => Entry { kind: "let"@, label: "let"@, children: seq![(l.pattern).hir_id.0] + opt_hir_id(l.ty) + opt_box_hir_id(l.expr) },
        hir::Stmt::Expr(e) => Entry { kind: "stmt_expr"@, label: "expr"@, children: seq![(e).hir_id.0] },
        hir::Stmt::Semi(e) => Entry { kind: "stmt_semi"@, label: "semi"@, children: seq![(e).hir_id.0] },
        hir::Stmt::Item(item) => Entry { kind: "stmt_item"@, label: "item"@, children: seq![(item).hir_id.0] },
    }
}

/// What the converted entry of a `Expr` node holds: its kind, its label and the ids of its children.
pub open spec fn expr_entry(n: hir::Expr) -> Entry {
    match n {
        hir::Expr::Array(a) => Entry { kind: "array"@, label: "[]"@, children: hir_ids(a@) },
        hir::Expr::Struct(s) => Entry { kind: "struct_expr"@, label: "struct"@, children: seq![(s.path).hir_id.0] + hir_ids(s.fields@) },
        hir::Expr::Call(c) => Entry { kind: "call"@, label: "call"@, children: seq![(*c.callee).hir_id.0] + hir_ids(c.args@) },
        hir::Expr::MethodCall(m) => Entry { kind: "method_call"@, label: "method_call"@, children: seq![(*m.receiver).hir_id.0] + seq![(m.method).hir_id.0] + hir_ids(m.args@) },
        hir::Expr::Tuple(t) => Entry { kind: "tuple"@, label: "()"@, children: hir_ids(t@) },
        hir::Expr::Cast(c) => Entry { kind: "cast"@, label: "as"@, children: seq![(*c.expr).hir_id.0] + seq![(c.ty).hir_id.0] },
        hir::Expr::Return(r) => Entry { kind: "return"@, label: "return"@, children: opt_box_hir_id(r) },
        hir::Expr::Loop(l) => Entry { kind: "loop"@, label: "loop"@, children: seq![(l.body).hir_id.0] },
        hir::Expr::Assign(a) => Entry { kind: "assign"@, label: "="@, children: seq![(*a.lhs).hir_id.0] + seq![(*a.rhs).hir_id.0] },
        hir::Expr::Field(f) => Entry { kind: "field"@, label: "."@, children: seq![(*f.base).hir_id.0] + seq![(f.field).hir_id.0] },
        hir::Expr::Index(i) => Entry { kind: "index"@, label: "[]"@, children: seq![(*i.base).hir_id.0] + seq![(*i.index).hir_id.0] },
        hir::Expr::Path(p) => Entry { kind: "path"@, label: "path"@, children: seq![(p).hir_id.0] },
        hir::Expr::AddrOf(a) => Entry { kind: "addr_of"@, label: "&"@, children: seq![(*a).hir_id.0] },
        hir::Expr::Break(b) => Entry { kind: "break"@, label: "break"@, children: opt_box_hir_id(b) },
        hir::Expr::Continue => Entry { kind: "continue"@, label: "continue"@, children: Seq::empty() },
        hir::Expr::Literal(l) => Entry { kind: "literal"@, label: spec_literal_label(l), children: Seq::empty() },
        hir::Expr::Binary(b) => Entry { kind: "binary"@, label: spec_bin_op_name(b.op), children: seq![(*b.lhs).hir_id.0] + seq![(*b.rhs).hir_id.0] },
        hir::Expr::Unary(u) => Entry { kind: "unary"@, label: spec_un_op_name(u.op), children: seq![(*u.operand).hir_id.0] },
        hir::Expr::If(i) => Entry { kind: "if"@, label: "if"@, children: seq![(*i.condition).hir_id.0] + seq![(i.then_branch).hir_id.0] + opt_hir_id(i.else_branch) },
        hir::Expr::Block(b) => Entry { kind: "block"@, label: "block"@, children: seq![(b).hir_id.0] },
        hir::Expr::Match(m) => Entry { kind: "match"@, label: "match"@, children: seq![(*m.scrutinee).hir_id.0] + hir_ids(m.arms@) },
        hir::Expr::Let(l) => Entry { kind: "let_expr"@, label: "let"@, children: seq![(l.pattern).hir_id.0] + seq![(*l.init).hir_id.0] },
        hir::Expr::Error => Entry { kind: "expr_err"@, label: "err"@, children: Seq::empty() },
    }
}

/// What the converted entry of a `StructExprField` node holds: its kind, its label and the ids of its children.
pub open spec fn struct_expr_field_entry(n: hir::StructExprField) -> Entry {
    Entry { kind: "struct_expr_field"@, label: n.ident.node.name@, children: seq![(n.ident).hir_id.0] + seq![(*n.expr).hir_id.0] }
}

/// What the converted entry of a `MatchArm` node holds: its kind, its label and the ids of its children.
pub open spec fn match_arm_entry(n: hir::MatchArm) -> Entry {
    Entry { kind: "match_arm"@, label: "=>"@, children: seq![(n.pattern).hir_id.0] + seq![(*n.body).hir_id.0] }
}

/// What the converted entry of a `BlockExpr` node holds: its kind, its label and the ids of its children.
pub open spec fn block_entry(n: hir::BlockExpr) -> Entry {
    Entry { kind: "block"@, label: "{ }"@, children: hir_ids(n.stmts@) }
}

/// What the converted entry of a `Pattern` node holds: its kind, its label and the ids of its children.
pub open spec fn pattern_entry(n: hir::Pattern) -> Entry {
    match n {
        hir::Pattern::Wildcard => Entry { kind: "pat_wildcard"@, label: "_"@, children: Seq::empty() },
        hir::Pattern::Or(ps) => Entry { kind: "pat_or"@, label: "|"@, children: hir_ids(ps@) },
        hir::Pattern::Path(p) => Entry { kind: "pat_path"@, label: "path"@, children: seq![(p).hir_id.0] },
        hir::Pattern::Struct(p, fields) => Entry { kind: "pat_struct"@, label: "struct"@, children: seq![(p).hir_id.0] + hir_ids(fields@) },
        hir::Pattern::TupleStruct(p, ps) => Entry { kind: "pat_tuple_struct"@, label: "tuple_struct"@, children: seq![(p).hir_id.0] + hir_ids(ps@) },
        hir::Pattern::Tuple(ps) => Entry { kind: "pat_tuple"@, label: "()"@, children: hir_ids(ps@) },
        hir::Pattern::Expr(e) => Entry { kind: "pat_expr"@, label: "expr"@, children: seq![(*e).hir_id.0] },
    }
}

/// What the converted entry of a `PatternStructField` node holds: its kind, its label and the ids of its children.
pub open spec fn pat_struct_field_entry(n: hir::PatternStructField) -> Entry {
    Entry { kind: "pat_struct_field"@, label: n.ident.node.name@, children: seq![(n.ident).hir_id.0] + seq![(n.pattern).hir_id.0] }
}

/// What the converted entry of a `Ty` node holds: its kind, its label and the ids of its children.
pub open spec fn ty_entry(n: hir::Ty) -> Entry {
    match n {
        hir::Ty::Path(p) => Entry { kind: "ty_path"@, label: "path"@, children: seq![(p).hir_id.0] },
        hir::Ty::Array(t, e) => Entry { kind: "ty_array"@, label: "[]"@, children: seq![(*t).hir_id.0] + seq![(*e).hir_id.0] },
        hir::Ty::Ptr(t) => Entry { kind: "ty_ptr"@, label: "*"@, children: seq![(*t).hir_id.0] },
        hir::Ty::Fn(ps, ret) => Entry { kind: "ty_fn"@, label: "fn"@, children: hir_ids(ps@) + opt_box_hir_id(ret) },
        hir::Ty::Tuple(ts) => Entry { kind: "ty_tuple"@, label: "()"@, children: hir_ids(ts@) },
    }
}

/// What the converted entry of a `Path` node holds: its kind, its label and the ids of its children.
pub open spec fn path_entry(n: hir::Path) -> Entry {
    match n {
        hir::Path::Resolved { segments, .. } => Entry { kind: "path"@, label: spec_path_label(segments@), children: hir_ids(segments@) },
        hir::Path::Unresolved { resolved_segments, unresolved_segments, .. } => Entry { kind: "path"@, label: spec_path_label(resolved_segments@ + unresolved_segments@), children: hir_ids(resolved_segments@) + hir_ids(unresolved_segments@) },
    }
}

/// What the converted entry of a `PathSegment` node holds: its kind, its label and the ids of its children.
pub open spec fn segment_entry(n: hir::PathSegment) -> Entry {
    Entry { kind: "path_segment"@, label: n.ident.node.name@, children: seq![(n.ident).hir_id.0] + hir_ids(n.args@) }
}

/// What the converted entry of a `GenericArg` node holds: its kind, its label and the ids of its children.
pub open spec fn generic_arg_entry(n: hir::GenericArg) -> Entry {
    match n {
        hir::GenericArg::Type(t) => Entry { kind: "generic_arg"@, label: ""@, children: seq![(t).hir_id.0] },
        hir::GenericArg::Const(e) => Entry { kind: "generic_arg"@, label: ""@, children: seq![(*e).hir_id.0] },
    }
}

/// What the converted entry of a `Ident` node holds: its kind, its label and the ids of its children.
pub open spec fn ident_entry(n: Ident) -> Entry {
    Entry { kind: "ident"@, label: n.name@, children: Seq::empty() }
}

/// The table `after` is `before` with the entries `t` written over it: it
/// has the nodes of both, each node of `t` holds what `t` gives it, and the
/// others are as they were.
pub open spec fn table_written(before: Map<usize, HirNode>, after: Map<usize, HirNode>, t: Map<usize, (internal_span::Span, Entry)>) -> bool {
    &&& forall|k: usize| #[trigger] before.contains_key(k) ==> after.contains_key(k)
    &&& forall|k: usize| #[trigger] after.contains_key(k) ==> before.contains_key(k) || t.contains_key(k)
    &&& forall|k: usize| #[trigger] t.contains_key(k) ==> after.contains_key(k) && after[k].holds(HirId(k), t[k].0, t[k].1)
    &&& forall|k: usize| before.contains_key(k) && !t.contains_key(k) ==> #[trigger] after[k] == before[k]
}

// What converting a node writes into the table: the entry of every node of
// its tree, keyed by the node's id; where two nodes share an id, the one
// converted last (children before their parent, in the order the converter
// takes them) wins.

pub open spec fn tbl_item(n: hir::HirNode<hir::Item>) -> Map<usize, (internal_span::Span, Entry)>
    decreases n,
{
    (match n.node {
        hir::Item::Fn(f) => tbl_fn_sig(f.sig).union_prefer_right(tbl_block(f.body)),
        hir::Item::Struct(s) => tbl_variant_data(s.data).union_prefer_right(tbl_generic_params(s.generics@)),
        hir::Item::Enum(e) => tbl_enum_variants(e.variants@).union_prefer_right(tbl_generic_params(e.generics@)),
        hir::Item::Trait(t) => tbl_assoc_items(t.items@).union_prefer_right(tbl_generic_params(t.generics@)),
        hir::Item::Mod(m) => tbl_items(m.items@),
        hir::Item::Impl(i) => tbl_ty(i.self_ty).union_prefer_right((match i.of_trait { Some(x) => tbl_path(x), None => Map::<usize, (internal_span::Span, Entry)>::empty() })).union_prefer_right(tbl_assoc_items(i.items@)),
        hir::Item::ExternFn(f) => tbl_fn_sig(f.sig),
        hir::Item::Const(c) => (match c.ty { Some(x) => tbl_ty(x), None => Map::<usize, (internal_span::Span, Entry)>::empty() }).union_prefer_right(tbl_expr(c.expr)),
        hir::Item::TyAlias(t) => (match t.ty { Some(x) => tbl_ty(x), None => Map::<usize, (internal_span::Span, Entry)>::empty() }).union_prefer_right(tbl_generic_params(t.generics@)),
    }).insert(n.hir_id.0, (n.span, item_entry(n.node)))
}

pub open spec fn tbl_fn_sig(n: hir::HirNode<hir::FnSig>) -> Map<usize, (internal_span::Span, Entry)>
    decreases n,
{
    (tbl_ident(n.node.ident).union_prefer_right(tbl_generic_params(n.node.generics@)).union_prefer_right(tbl_params(n.node.params@)).union_prefer_right((match n.node.return_ty { Some(x) => tbl_ty(x), None => Map::<usize, (internal_span::Span, Entry)>::empty() }))).insert(n.hir_id.0, (n.span, fn_sig_entry(n.node)))
}

pub open spec fn tbl_param(n: hir::HirNode<hir::Param>) -> Map<usize, (internal_span::Span, Entry)>
    decreases n,
{
    (tbl_pattern(n.node.pattern).union_prefer_right(tbl_ty(n.node.type_annotation))).insert(n.hir_id.0, (n.span, param_entry(n.node)))
}

pub open spec fn tbl_generic_param(n: hir::HirNode<hir::GenericParam>) -> Map<usize, (internal_span::Span, Entry)>
    decreases n,
{
    (match n.node {
        hir::GenericParam { ident, bounds, kind: hir::GenericParamKind::Const(ty), .. } => tbl_ident(ident).union_prefer_right(tbl_paths(bounds@)).union_prefer_right(tbl_ty(ty)),
        hir::GenericParam { ident, bounds, kind: hir::GenericParamKind::Type, .. } => tbl_ident(ident).union_prefer_right(tbl_paths(bounds@)),
    }).insert(n.hir_id.0, (n.span, generic_param_entry(n.node)))
}

pub open spec fn tbl_variant_data(n: hir::HirNode<hir::VariantData>) -> Map<usize, (internal_span::Span, Entry)>
    decreases n,
{
    (match n.node {
        hir::VariantData::Unit => Map::<usize, (internal_span::Span, Entry)>::empty(),
        hir::VariantData::Struct { fields } => tbl_field_defs(fields@),
        hir::VariantData::Tuple { types } => tbl_tys(types@),
    }).insert(n.hir_id.0, (n.span, variant_data_entry(n.node)))
}

pub open spec fn tbl_field_def(n: hir::HirNode<hir::StructField>) -> Map<usize, (internal_span::Span, Entry)>
    decreases n,
{
    (tbl_ident(n.node.ident).union_prefer_right(tbl_ty(n.node.ty))).insert(n.hir_id.0, (n.span, field_def_entry(n.node)))
}

pub open spec fn tbl_enum_variant(n: hir::HirNode<hir::EnumVariant>) -> Map<usize, (internal_span::Span, Entry)>
    decreases n,
{
    (tbl_ident(n.node.ident).union_prefer_right(tbl_variant_data(n.node.data))).insert(n.hir_id.0, (n.span, enum_variant_entry(n.node)))
}

pub open spec fn tbl_assoc_item(n: hir::HirNode<hir::AssociatedItem>) -> Map<usize, (internal_span::Span, Entry)>
    decreases n,
{
    (match n.node {
        hir::AssociatedItem::Fn(sig, body) => tbl_fn_sig(sig).union_prefer_right((match body { Some(x) => tbl_block(x), None => Map::<usize, (internal_span::Span, Entry)>::empty() })),
        hir::AssociatedItem::Type(alias) => tbl_ident(alias.node.ident).union_prefer_right((match alias.node.ty { Some(x) => tbl_ty(x), None => Map::<usize, (internal_span::Span, Entry)>::empty() })).union_prefer_right(tbl_generic_params(alias.node.generics@)),
    }).insert(n.hir_id.0, (n.span, assoc_item_entry(n.node)))
}

pub open spec fn tbl_stmt(n: hir::HirNode<hir::Stmt>) -> Map<usize, (internal_span::Span, Entry)>
    decreases n,
{
    (match n.node {
        hir::Stmt::Let(l) => tbl_pattern(l.pattern).union_prefer_right((match l.ty { Some(x) => tbl_ty(x), None => Map::<usize, (internal_span::Span, Entry)>::empty() })).union_prefer_right((match l.expr { Some(x) => tbl_expr(*x), None => Map::<usize, (internal_span::Span, Entry)>::empty() })),
        hir::Stmt::Expr(e) => tbl_expr(e),
        hir::Stmt::Semi(e) => tbl_expr(e),
        hir::Stmt::Item(item) => tbl_item(item),
    }).insert(n.hir_id.0, (n.span, stmt_entry(n.node)))
}

pub open spec fn tbl_expr(n: hir::HirNode<hir::Expr>) -> Map<usize, (internal_span::Span, Entry)>
    decreases n,
{
    (match n.node {
        hir::Expr::Array(a) => tbl_exprs(a@),
        hir::Expr::Struct(s) => tbl_path(s.path).union_prefer_right(tbl_struct_expr_fields(s.fields@)),
        hir::Expr::Call(c) => tbl_expr(*c.callee).union_prefer_right(tbl_exprs(c.args@)),
        hir::Expr::MethodCall(m) => tbl_expr(*m.receiver).union_prefer_right(tbl_segment(m.method)).union_prefer_right(tbl_exprs(m.args@)),
        hir::Expr::Tuple(t) => tbl_exprs(t@),
        hir::Expr::Cast(c) => tbl_expr(*c.expr).union_prefer_right(tbl_ty(c.ty)),
        hir::Expr::Return(r) => (match r { Some(x) => tbl_expr(*x), None => Map::<usize, (internal_span::Span, Entry)>::empty() }),
        hir::Expr::Loop(l) => tbl_block(l.body),
        hir::Expr::Assign(a) => tbl_expr(*a.lhs).union_prefer_right(tbl_expr(*a.rhs)),
        hir::Expr::Field(f) => tbl_expr(*f.base).union_prefer_right(tbl_ident(f.field)),
        hir::Expr::Index(i) => tbl_expr(*i.base).union_prefer_right(tbl_expr(*i.index)),
        hir::Expr::Path(p) => tbl_path(p),
        hir::Expr::AddrOf(a) => tbl_expr(*a),
        hir::Expr::Break(b) => (match b { Some(x) => tbl_expr(*x), None => Map::<usize, (internal_span::Span, Entry)>::empty() }),
        hir::Expr::Continue => Map::<usize, (internal_span::Span, Entry)>::empty(),
        hir::Expr::Literal(l) => Map::<usize, (internal_span::Span, Entry)>::empty(),
        hir::Expr::Binary(b) => tbl_expr(*b.lhs).union_prefer_right(tbl_expr(*b.rhs)),
        hir::Expr::Unary(u) => tbl_expr(*u.operand),
        hir::Expr::If(i) => tbl_expr(*i.condition).union_prefer_right(tbl_block(i.then_branch)).union_prefer_right((match i.else_branch { Some(x) => tbl_block(x), None => Map::<usize, (internal_span::Span, Entry)>::empty() })),
        hir::Expr::Block(b) => tbl_block(b),
        hir::Expr::Match(m) => tbl_expr(*m.scrutinee).union_prefer_right(tbl_match_arms(m.arms@)),
        hir::Expr::Let(l) => tbl_pattern(l.pattern).union_prefer_right(tbl_expr(*l.init)),
        hir::Expr::Error => Map::<usize, (internal_span::Span, Entry)>::empty(),
    }).insert(n.hir_id.0, (n.span, expr_entry(n.node)))
}

pub open spec fn tbl_struct_expr_field(n: hir::HirNode<hir::StructExprField>) -> Map<usize, (internal_span::Span, Entry)>
    decreases n,
{
    (tbl_ident(n.node.ident).union_prefer_right(tbl_expr(*n.node.expr))).insert(n.hir_id.0, (n.span, struct_expr_field_entry(n.node)))
}

pub open spec fn tbl_match_arm(n: hir::HirNode<hir::MatchArm>) -> Map<usize, (internal_span::Span, Entry)>
    decreases n,
{
    (tbl_pattern(n.node.pattern).union_prefer_right(tbl_expr(*n.node.body))).insert(n.hir_id.0, (n.span, match_arm_entry(n.node)))
}

pub open spec fn tbl_block(n: hir::HirNode<hir::BlockExpr>) -> Map<usize, (internal_span::Span, Entry)>
    decreases n,
{
    (tbl_stmts(n.node.stmts@)).insert(n.hir_id.0, (n.span, block_entry(n.node)))
}

pub open spec fn tbl_pattern(n: hir::HirNode<hir::Pattern>) -> Map<usize, (internal_span::Span, Entry)>
    decreases n,
{
    (match n.node {
        hir::Pattern::Wildcard => Map::<usize, (internal_span::Span, Entry)>::empty(),
        hir::Pattern::Or(ps) => tbl_patterns(ps@),
        hir::Pattern::Path(p) => tbl_path(p),
        hir::Pattern::Struct(p, fields) => tbl_path(p).union_prefer_right(tbl_pat_struct_fields(fields@)),
        hir::Pattern::TupleStruct(p, ps) => tbl_path(p).union_prefer_right(tbl_patterns(ps@)),
        hir::Pattern::Tuple(ps) => tbl_patterns(ps@),
        hir::Pattern::Expr(e) => tbl_expr(*e),
    }).insert(n.hir_id.0, (n.span, pattern_entry(n.node)))
}

pub open spec fn tbl_pat_struct_field(n: hir::HirNode<hir::PatternStructField>) -> Map<usize, (internal_span::Span, Entry)>
    decreases n,
{
    (tbl_ident(n.node.ident).union_prefer_right(tbl_pattern(n.node.pattern))).insert(n.hir_id.0, (n.span, pat_struct_field_entry(n.node)))
}

pub open spec fn tbl_ty(n: hir::HirNode<hir::Ty>) -> Map<usize, (internal_span::Span, Entry)>
    decreases n,
{
    (match n.node {
        hir::Ty::Path(p) => tbl_path(p),
        hir::Ty::Array(t, e) => tbl_ty(*t).union_prefer_right(tbl_expr(*e)),
        hir::Ty::Ptr(t) => tbl_ty(*t),
        hir::Ty::Fn(ps, ret) => tbl_tys(ps@).union_prefer_right((match ret { Some(x) => tbl_ty(*x), None => Map::<usize, (internal_span::Span, Entry)>::empty() })),
        hir::Ty::Tuple(ts) => tbl_tys(ts@),
    }).insert(n.hir_id.0, (n.span, ty_entry(n.node)))
}

pub open spec fn tbl_path(n: hir::HirNode<hir::Path>) -> Map<usize, (internal_span::Span, Entry)>
    decreases n,
{
    (match n.node {
        hir::Path::Resolved { segments, .. } => tbl_segments(segments@),
        hir::Path::Unresolved { resolved_segments, unresolved_segments, .. } => tbl_segments(resolved_segments@).union_prefer_right(tbl_segments(unresolved_segments@)),
    }).insert(n.hir_id.0, (n.span, path_entry(n.node)))
}

pub open spec fn tbl_segment(n: hir::HirNode<hir::PathSegment>) -> Map<usize, (internal_span::Span, Entry)>
    decreases n,
{
    (tbl_ident(n.node.ident).union_prefer_right(tbl_generic_args(n.node.args@))).insert(n.hir_id.0, (n.span, segment_entry(n.node)))
}

pub open spec fn tbl_generic_arg(n: hir::HirNode<hir::GenericArg>) -> Map<usize, (internal_span::Span, Entry)>
    decreases n,
{
    (match n.node {
        hir::GenericArg::Type(t) => tbl_ty(t),
        hir::GenericArg::Const(e) => tbl_expr(*e),
    }).insert(n.hir_id.0, (n.span, generic_arg_entry(n.node)))
}

pub open spec fn tbl_ident(n: hir::HirNode<Ident>) -> Map<usize, (internal_span::Span, Entry)>
    decreases n,
{
    (Map::<usize, (internal_span::Span, Entry)>::empty()).insert(n.hir_id.0, (n.span, ident_entry(n.node)))
}

pub open spec fn tbl_assoc_items(s: Seq<hir::HirNode<hir::AssociatedItem>>) -> Map<usize, (internal_span::Span, Entry)>
    decreases s,
{
    if s.len() == 0 {
        Map::<usize, (internal_span::Span, Entry)>::empty()
    } else {
        tbl_assoc_items(s.drop_last()).union_prefer_right(tbl_assoc_item(s.last()))
    }
}

pub open spec fn tbl_enum_variants(s: Seq<hir::HirNode<hir::EnumVariant>>) -> Map<usize, (internal_span::Span, Entry)>
    decreases s,
{
    if s.len() == 0 {
        Map::<usize, (internal_span::Span, Entry)>::empty()
    } else {
        tbl_enum_variants(s.drop_last()).union_prefer_right(tbl_enum_variant(s.last()))
    }
}

pub open spec fn tbl_exprs(s: Seq<hir::HirNode<hir::Expr>>) -> Map<usize, (internal_span::Span, Entry)>
    decreases s,
{
    if s.len() == 0 {
        Map::<usize, (internal_span::Span, Entry)>::empty()
    } else {
        tbl_exprs(s.drop_last()).union_prefer_right(tbl_expr(s.last()))
    }
}

pub open spec fn tbl_field_defs(s: Seq<hir::HirNode<hir::StructField>>) -> Map<usize, (internal_span::Span, Entry)>
    decreases s,
{
    if s.len() == 0 {
        Map::<usize, (internal_span::Span, Entry)>::empty()
    } else {
        tbl_field_defs(s.drop_last()).union_prefer_right(tbl_field_def(s.last()))
    }
}

pub open spec fn tbl_generic_args(s: Seq<hir::HirNode<hir::GenericArg>>) -> Map<usize, (internal_span::Span, Entry)>
    decreases s,
{
    if s.len() == 0 {
        Map::<usize, (internal_span::Span, Entry)>::empty()
    } else {
        tbl_generic_args(s.drop_last()).union_prefer_right(tbl_generic_arg(s.last()))
    }
}

pub open spec fn tbl_generic_params(s: Seq<hir::HirNode<hir::GenericParam>>) -> Map<usize, (internal_span::Span, Entry)>
    decreases s,
{
    if s.len() == 0 {
        Map::<usize, (internal_span::Span, Entry)>::empty()
    } else {
        tbl_generic_params(s.drop_last()).union_prefer_right(tbl_generic_param(s.last()))
    }
}

pub open spec fn tbl_items(s: Seq<hir::HirNode<hir::Item>>) -> Map<usize, (internal_span::Span, Entry)>
    decreases s,
{
    if s.len() == 0 {
        Map::<usize, (internal_span::Span, Entry)>::empty()
    } else {
        tbl_items(s.drop_last()).union_prefer_right(tbl_item(s.last()))
    }
}

pub open spec fn tbl_match_arms(s: Seq<hir::HirNode<hir::MatchArm>>) -> Map<usize, (internal_span::Span, Entry)>
    decreases s,
{
    if s.len() == 0 {
        Map::<usize, (internal_span::Span, Entry)>::empty()
    } else {
        tbl_match_arms(s.drop_last()).union_prefer_right(tbl_match_arm(s.last()))
    }
}

pub open spec fn tbl_params(s: Seq<hir::HirNode<hir::Param>>) -> Map<usize, (internal_span::Span, Entry)>
    decreases s,
{
    if s.len() == 0 {
        Map::<usize, (internal_span::Span, Entry)>::empty()
    } else {
        tbl_params(s.drop_last()).union_prefer_right(tbl_param(s.last()))
    }
}

pub open spec fn tbl_pat_struct_fields(s: Seq<hir::HirNode<hir::PatternStructField>>) -> Map<usize, (internal_span::Span, Entry)>
    decreases s,
{
    if s.len() == 0 {
        Map::<usize, (internal_span::Span, Entry)>::empty()
    } else {
        tbl_pat_struct_fields(s.drop_last()).union_prefer_right(tbl_pat_struct_field(s.last()))
    }
}

pub open spec fn tbl_paths(s: Seq<hir::HirNode<hir::Path>>) -> Map<usize, (internal_span::Span, Entry)>
    decreases s,
{
    if s.len() == 0 {
        Map::<usize, (internal_span::Span, Entry)>::empty()
    } else {
        tbl_paths(s.drop_last()).union_prefer_right(tbl_path(s.last()))
    }
}

pub open spec fn tbl_patterns(s: Seq<hir::HirNode<hir::Pattern>>) -> Map<usize, (internal_span::Span, Entry)>
    decreases s,
{
    if s.len() == 0 {
        Map::<usize, (internal_span::Span, Entry)>::empty()
    } else {
        tbl_patterns(s.drop_last()).union_prefer_right(tbl_pattern(s.last()))
    }
}

pub open spec fn tbl_segments(s: Seq<hir::HirNode<hir::PathSegment>>) -> Map<usize, (internal_span::Span, Entry)>
    decreases s,
{
    if s.len() == 0 {
        Map::<usize, (internal_span::Span, Entry)>::empty()
    } else {
        tbl_segments(s.drop_last()).union_prefer_right(tbl_segment(s.last()))
    }
}

pub open spec fn tbl_stmts(s: Seq<hir::HirNode<hir::Stmt>>) -> Map<usize, (internal_span::Span, Entry)>
    decreases s,
{
    if s.len() == 0 {
        Map::<usize, (internal_span::Span, Entry)>::empty()
    } else {
        tbl_stmts(s.drop_last()).union_prefer_right(tbl_stmt(s.last()))
    }
}

pub open spec fn tbl_struct_expr_fields(s: Seq<hir::HirNode<hir::StructExprField>>) -> Map<usize, (internal_span::Span, Entry)>
    decreases s,
{
    if s.len() == 0 {
        Map::<usize, (internal_span::Span, Entry)>::empty()
    } else {
        tbl_struct_expr_fields(s.drop_last()).union_prefer_right(tbl_struct_expr_field(s.last()))
    }
}

pub open spec fn tbl_tys(s: Seq<hir::HirNode<hir::Ty>>) -> Map<usize, (internal_span::Span, Entry)>
    decreases s,
{
    if s.len() == 0 {
        Map::<usize, (internal_span::Span, Entry)>::empty()
    } else {
        tbl_tys(s.drop_last()).union_prefer_right(tbl_ty(s.last()))
    }
}


impl HirConverter {
    fn convert_item(&mut self, node: &hir::HirNode<hir::Item>) -> (id: HirId)
        ensures
            id.0 == node.hir_id.0,
            final(self).nodes@.contains_key(id.0),
            final(self).nodes@[id.0].holds(id, node.span, item_entry(node.node)),
            forall|key: usize| old(self).nodes@.contains_key(key) ==> #[trigger] final(self).nodes@.contains_key(key),
            table_written(old(self).nodes@, final(self).nodes@, tbl_item(*node)),
        decreases node,
    {
        let id = HirId::from_hir_id(node.hir_id);
        let mut children: Vec<HirId> = Vec::new();
        let ghost start = self.nodes@;
        match &node.node {
            hir::Item::Fn(f) => {
                let c0 = self.convert_fn_sig(&f.sig);
                let c1 = self.convert_block(&f.body);
                let ghost p0 = children@;
                children.push(c0);
                proof { lemma_ids_push(p0, c0); }
                let ghost p1 = children@;
                children.push(c1);
                proof { lemma_ids_push(p1, c1); }
                let kind = literal_string("fn");
                let label = prefixed_name("fn ", &f.sig.node.ident.node.name);
                proof { assert(ids_of(children@) =~= item_entry(node.node).children); }
                self.insert_node(id, kind, label, children, node.span);
            },
            hir::Item::Struct(s) => {
                let c1 = self.convert_variant_data(&s.data);
                let mut c0: Vec<HirId> = Vec::new();
                self.convert_generic_param_list(&s.generics, &mut c0);
                append_ids(&mut children, &c0);
                let ghost p1 = children@;
                children.push(c1);
                proof { lemma_ids_push(p1, c1); }
                let kind = literal_string("struct");
                let label = prefixed_name("struct ", &s.ident.node.name);
                proof { assert(ids_of(children@) =~= item_entry(node.node).children); }
                self.insert_node(id, kind, label, children, node.span);
            },
            hir::Item::Enum(e) => {
                let mut c1: Vec<HirId> = Vec::new();
                self.convert_enum_variant_list(&e.variants, &mut c1);
                let mut c0: Vec<HirId> = Vec::new();
                self.convert_generic_param_list(&e.generics, &mut c0);
                append_ids(&mut children, &c0);
                append_ids(&mut children, &c1);
                let kind = literal_string("enum");
                let label = prefixed_name("enum ", &e.ident.node.name);
                proof { assert(ids_of(children@) =~= item_entry(node.node).children); }
                self.insert_node(id, kind, label, children, node.span);
            },
            hir::Item::Trait(t) => {
                let mut c1: Vec<HirId> = Vec::new();
                self.convert_assoc_item_list(&t.items, &mut c1);
                let mut c0: Vec<HirId> = Vec::new();
                self.convert_generic_param_list(&t.generics, &mut c0);
                append_ids(&mut children, &c0);
                append_ids(&mut children, &c1);
                let kind = literal_string("trait");
                let label = prefixed_name("trait ", &t.ident.node.name);
                proof { assert(ids_of(children@) =~= item_entry(node.node).children); }
                self.insert_node(id, kind, label, children, node.span);
            },
            hir::Item::Mod(m) => {
                let mut c0: Vec<HirId> = Vec::new();
                self.convert_item_list(&m.items, &mut c0);
                append_ids(&mut children, &c0);
                let kind = literal_string("mod");
                let label = prefixed_name("mod ", &m.ident.node.name);
                proof { assert(ids_of(children@) =~= item_entry(node.node).children); }
                self.insert_node(id, kind, label, children, node.span);
            },
            hir::Item::Impl(i) => {
                let c1 = self.convert_ty(&i.self_ty);
                let mut c0: Vec<HirId> = Vec::new();
                match &i.of_trait { Some(x) => { let i = self.convert_path(x); c0.push(i); }, None => {} }
                proof { assert(ids_of(c0@) =~= opt_hir_id(i.of_trait)); }
                let mut c2: Vec<HirId> = Vec::new();
                self.convert_assoc_item_list(&i.items, &mut c2);
                append_ids(&mut children, &c0);
                let ghost p1 = children@;
                children.push(c1);
                proof { lemma_ids_push(p1, c1); }
                append_ids(&mut children, &c2);
                let kind = literal_string("impl");
                let label = impl_label(i.of_trait.is_some());
                proof { assert(ids_of(children@) =~= item_entry(node.node).children); }
                self.insert_node(id, kind, label, children, node.span);
            },
            hir::Item::ExternFn(f) => {
                let c0 = self.convert_fn_sig(&f.sig);
                let ghost p0 = children@;
                children.push(c0);
                proof { lemma_ids_push(p0, c0); }
                let kind = literal_string("extern_fn");
                let label = prefixed_name("extern fn ", &f.sig.node.ident.node.name);
                proof { assert(ids_of(children@) =~= item_entry(node.node).children); }
                self.insert_node(id, kind, label, children, node.span);
            },
            hir::Item::Const(c) => {
                let mut c0: Vec<HirId> = Vec::new();
                match &c.ty { Some(x) => { let i = self.convert_ty(x); c0.push(i); }, None => {} }
                proof { assert(ids_of(c0@) =~= opt_hir_id(c.ty)); }
                let c1 = self.convert_expr(&c.expr);
                append_ids(&mut children, &c0);
                let ghost p1 = children@;
                children.push(c1);
                proof { lemma_ids_push(p1, c1); }
                let kind = literal_string("const");
                let label = prefixed_name("const ", &c.ident.node.name);
                proof { assert(ids_of(children@) =~= item_entry(node.node).children); }
                self.insert_node(id, kind, label, children, node.span);
            },
            hir::Item::TyAlias(t) => {
                let mut c1: Vec<HirId> = Vec::new();
                match &t.ty { Some(x) => { let i = self.convert_ty(x); c1.push(i); }, None => {} }
                proof { assert(ids_of(c1@) =~= opt_hir_id(t.ty)); }
                let mut c0: Vec<HirId> = Vec::new();
                self.convert_generic_param_list(&t.generics, &mut c0);
                append_ids(&mut children, &c0);
                append_ids(&mut children, &c1);
                let kind = literal_string("type_alias");
                let label = prefixed_name("type ", &t.ident.node.name);
                proof { assert(ids_of(children@) =~= item_entry(node.node).children); }
                self.insert_node(id, kind, label, children, node.span);
            },
        }
        id
    }

    fn convert_fn_sig(&mut self, node: &hir::HirNode<hir::FnSig>) -> (id: HirId)
        ensures
            id.0 == node.hir_id.0,
            final(self).nodes@.contains_key(id.0),
            final(self).nodes@[id.0].holds(id, node.span, fn_sig_entry(node.node)),
            forall|key: usize| old(self).nodes@.contains_key(key) ==> #[trigger] final(self).nodes@.contains_key(key),
            table_written(old(self).nodes@, final(self).nodes@, tbl_fn_sig(*node)),
        decreases node,
    {
        let id = HirId::from_hir_id(node.hir_id);
        let mut children: Vec<HirId> = Vec::new();
        let ghost start = self.nodes@;
        let n = &node.node;
        let c0 = self.convert_ident(&n.ident);
        let mut c1: Vec<HirId> = Vec::new();
        self.convert_generic_param_list(&n.generics, &mut c1);
        let mut c2: Vec<HirId> = Vec::new();
        self.convert_param_list(&n.params, &mut c2);
        let mut c3: Vec<HirId> = Vec::new();
        match &n.return_ty { Some(x) => { let i = self.convert_ty(x); c3.push(i); }, None => {} }
        proof { assert(ids_of(c3@) =~= opt_hir_id(n.return_ty)); }
        let ghost p0 = children@;
        children.push(c0);
        proof { lemma_ids_push(p0, c0); }
        append_ids(&mut children, &c1);
        append_ids(&mut children, &c2);
        append_ids(&mut children, &c3);
        let kind = literal_string("fn_sig");
        let label = clone_name(&n.ident.node.name);
        proof { assert(ids_of(children@) =~= fn_sig_entry(node.node).children); }
        self.insert_node(id, kind, label, children, node.span);
        id
    }

    fn convert_param(&mut self, node: &hir::HirNode<hir::Param>) -> (id: HirId)
        ensures
            id.0 == node.hir_id.0,
            final(self).nodes@.contains_key(id.0),
            final(self).nodes@[id.0].holds(id, node.span, param_entry(node.node)),
            forall|key: usize| old(self).nodes@.contains_key(key) ==> #[trigger] final(self).nodes@.contains_key(key),
            table_written(old(self).nodes@, final(self).nodes@, tbl_param(*node)),
        decreases node,
    {
        let id = HirId::from_hir_id(node.hir_id);
        let mut children: Vec<HirId> = Vec::new();
        let ghost start = self.nodes@;
        let n = &node.node;
        let c0 = self.convert_pattern(&n.pattern);
        let c1 = self.convert_ty(&n.type_annotation);
        let ghost p0 = children@;
        children.push(c0);
        proof { lemma_ids_push(p0, c0); }
        let ghost p1 = children@;
        children.push(c1);
        proof { lemma_ids_push(p1, c1); }
        let kind = literal_string("param");
        let label = literal_string("param");
        proof { assert(ids_of(children@) =~= param_entry(node.node).children); }
        self.insert_node(id, kind, label, children, node.span);
        id
    }

    fn convert_generic_param(&mut self, node: &hir::HirNode<hir::GenericParam>) -> (id: HirId)
        ensures
            id.0 == node.hir_id.0,
            final(self).nodes@.contains_key(id.0),
            final(self).nodes@[id.0].holds(id, node.span, generic_param_entry(node.node)),
            forall|key: usize| old(self).nodes@.contains_key(key) ==> #[trigger] final(self).nodes@.contains_key(key),
            table_written(old(self).nodes@, final(self).nodes@, tbl_generic_param(*node)),
        decreases node,
    {
        let id = HirId::from_hir_id(node.hir_id);
        let mut children: Vec<HirId> = Vec::new();
        let ghost start = self.nodes@;
        match &node.node {
            hir::GenericParam { ident, bounds, kind: hir::GenericParamKind::Const(ty), .. } => {
                let c0 = self.convert_ident(ident);
                let mut c1: Vec<HirId> = Vec::new();
                self.convert_path_list(bounds, &mut c1);
                let c2 = self.convert_ty(ty);
                let ghost p0 = children@;
                children.push(c0);
                proof { lemma_ids_push(p0, c0); }
                append_ids(&mut children, &c1);
                let ghost p2 = children@;
                children.push(c2);
                proof { lemma_ids_push(p2, c2); }
                let kind = literal_string("generic_param");
                let label = clone_name(&ident.node.name);
                proof { assert(ids_of(children@) =~= generic_param_entry(node.node).children); }
                self.insert_node(id, kind, label, children, node.span);
            },
            hir::GenericParam { ident, bounds, kind: hir::GenericParamKind::Type, .. } => {
                let c0 = self.convert_ident(ident);
                let mut c1: Vec<HirId> = Vec::new();
                self.convert_path_list(bounds, &mut c1);
                let ghost p0 = children@;
                children.push(c0);
                proof { lemma_ids_push(p0, c0); }
                append_ids(&mut children, &c1);
                let kind = literal_string("generic_param");
                let label = clone_name(&ident.node.name);
                proof { assert(ids_of(children@) =~= generic_param_entry(node.node).children); }
                self.insert_node(id, kind, label, children, node.span);
            },
        }
        id
    }

    fn convert_variant_data(&mut self, node: &hir::HirNode<hir::VariantData>) -> (id: HirId)
        ensures
            id.0 == node.hir_id.0,
            final(self).nodes@.contains_key(id.0),
            final(self).nodes@[id.0].holds(id, node.span, variant_data_entry(node.node)),
            forall|key: usize| old(self).nodes@.contains_key(key) ==> #[trigger] final(self).nodes@.contains_key(key),
            table_written(old(self).nodes@, final(self).nodes@, tbl_variant_data(*node)),
        decreases node,
    {
        let id = HirId::from_hir_id(node.hir_id);
        let mut children: Vec<HirId> = Vec::new();
        let ghost start = self.nodes@;
        match &node.node {
            hir::VariantData::Unit => {
                let kind = literal_string("variant_data_unit");
                let label = literal_string("unit");
                proof { assert(ids_of(children@) =~= variant_data_entry(node.node).children); }
                self.insert_node(id, kind, label, children, node.span);
            },
            hir::VariantData::Struct { fields } => {
                let mut c0: Vec<HirId> = Vec::new();
                self.convert_field_def_list(fields, &mut c0);
                append_ids(&mut children, &c0);
                let kind = literal_string("variant_data_struct");
                let label = literal_string("struct");
                proof { assert(ids_of(children@) =~= variant_data_entry(node.node).children); }
                self.insert_node(id, kind, label, children, node.span);
            },
            hir::VariantData::Tuple { types } => {
                let mut c0: Vec<HirId> = Vec::new();
                self.convert_ty_list(types, &mut c0);
                append_ids(&mut children, &c0);
                let kind = literal_string("variant_data_tuple");
                let label = literal_string("tuple");
                proof { assert(ids_of(children@) =~= variant_data_entry(node.node).children); }
                self.insert_node(id, kind, label, children, node.span);
            },
        }
        id
    }

    fn convert_field_def(&mut self, node: &hir::HirNode<hir::StructField>) -> (id: HirId)
        ensures
            id.0 == node.hir_id.0,
            final(self).nodes@.contains_key(id.0),
            final(self).nodes@[id.0].holds(id, node.span, field_def_entry(node.node)),
            forall|key: usize| old(self).nodes@.contains_key(key) ==> #[trigger] final(self).nodes@.contains_key(key),
            table_written(old(self).nodes@, final(self).nodes@, tbl_field_def(*node)),
        decreases node,
    {
        let id = HirId::from_hir_id(node.hir_id);
        let mut children: Vec<HirId> = Vec::new();
        let ghost start = self.nodes@;
        let n = &node.node;
        let c0 = self.convert_ident(&n.ident);
        let c1 = self.convert_ty(&n.ty);
        let ghost p0 = children@;
        children.push(c0);
        proof { lemma_ids_push(p0, c0); }
        let ghost p1 = children@;
        children.push(c1);
        proof { lemma_ids_push(p1, c1); }
        let kind = literal_string("field_def");
        let label = clone_name(&n.ident.node.name);
        proof { assert(ids_of(children@) =~= field_def_entry(node.node).children); }
        self.insert_node(id, kind, label, children, node.span);
        id
    }

    fn convert_enum_variant(&mut self, node: &hir::HirNode<hir::EnumVariant>) -> (id: HirId)
        ensures
            id.0 == node.hir_id.0,
            final(self).nodes@.contains_key(id.0),
            final(self).nodes@[id.0].holds(id, node.span, enum_variant_entry(node.node)),
            forall|key: usize| old(self).nodes@.contains_key(key) ==> #[trigger] final(self).nodes@.contains_key(key),
            table_written(old(self).nodes@, final(self).nodes@, tbl_enum_variant(*node)),
        decreases node,
    {
        let id = HirId::from_hir_id(node.hir_id);
        let mut children: Vec<HirId> = Vec::new();
        let ghost start = self.nodes@;
        let n = &node.node;
        let c0 = self.convert_ident(&n.ident);
        let c1 = self.convert_variant_data(&n.data);
        let ghost p0 = children@;
        children.push(c0);
        proof { lemma_ids_push(p0, c0); }
        let ghost p1 = children@;
        children.push(c1);
        proof { lemma_ids_push(p1, c1); }
        let kind = literal_string("enum_variant");
        let label = clone_name(&n.ident.node.name);
        proof { assert(ids_of(children@) =~= enum_variant_entry(node.node).children); }
        self.insert_node(id, kind, label, children, node.span);
        id
    }

    fn convert_assoc_item(&mut self, node: &hir::HirNode<hir::AssociatedItem>) -> (id: HirId)
        ensures
            id.0 == node.hir_id.0,
            final(self).nodes@.contains_key(id.0),
            final(self).nodes@[id.0].holds(id, node.span, assoc_item_entry(node.node)),
            forall|key: usize| old(self).nodes@.contains_key(key) ==> #[trigger] final(self).nodes@.contains_key(key),
            table_written(old(self).nodes@, final(self).nodes@, tbl_assoc_item(*node)),
        decreases node,
    {
        let id = HirId::from_hir_id(node.hir_id);
        let mut children: Vec<HirId> = Vec::new();
        let ghost start = self.nodes@;
        match &node.node {
            hir::AssociatedItem::Fn(sig, body) => {
                let c0 = self.convert_fn_sig(sig);
                let mut c1: Vec<HirId> = Vec::new();
                match body { Some(x) => { let i = self.convert_block(x); c1.push(i); }, None => {} }
                proof { assert(ids_of(c1@) =~= opt_hir_id(*body)); }
                let ghost p0 = children@;
                children.push(c0);
                proof { lemma_ids_push(p0, c0); }
                append_ids(&mut children, &c1);
                let kind = literal_string("assoc_fn");
                let label = literal_string("fn");
                proof { assert(ids_of(children@) =~= assoc_item_entry(node.node).children); }
                self.insert_node(id, kind, label, children, node.span);
            },
            hir::AssociatedItem::Type(alias) => {
                let c0 = self.convert_ident(&alias.node.ident);
                let mut c2: Vec<HirId> = Vec::new();
                match &alias.node.ty { Some(x) => { let i = self.convert_ty(x); c2.push(i); }, None => {} }
                proof { assert(ids_of(c2@) =~= opt_hir_id(alias.node.ty)); }
                let mut c1: Vec<HirId> = Vec::new();
                self.convert_generic_param_list(&alias.node.generics, &mut c1);
                let ghost p0 = children@;
                children.push(c0);
                proof { lemma_ids_push(p0, c0); }
                append_ids(&mut children, &c1);
                append_ids(&mut children, &c2);
                let kind = literal_string("assoc_type");
                let label = literal_string("type");
                proof { assert(ids_of(children@) =~= assoc_item_entry(node.node).children); }
                self.insert_node(id, kind, label, children, node.span);
            },
        }
        id
    }

    fn convert_stmt(&mut self, node: &hir::HirNode<hir::Stmt>) -> (id: HirId)
        ensures
            id.0 == node.hir_id.0,
            final(self).nodes@.contains_key(id.0),
            final(self).nodes@[id.0].holds(id, node.span, stmt_entry(node.node)),
            forall|key: usize| old(self).nodes@.contains_key(key) ==> #[trigger] final(self).nodes@.contains_key(key),
            table_written(old(self).nodes@, final(self).nodes@, tbl_stmt(*node)),
        decreases node,
    {
        let id = HirId::from_hir_id(node.hir_id);
        let mut children: Vec<HirId> = Vec::new();
        let ghost start = self.nodes@;
        match &node.node {
            hir::Stmt::Let(l) => {
                let c0 = self.convert_pattern(&l.pattern);
                let mut c1: Vec<HirId> = Vec::new();
                match &l.ty { Some(x) => { let i = self.convert_ty(x); c1.push(i); }, None => {} }
                proof { assert(ids_of(c1@) =~= opt_hir_id(l.ty)); }
                let mut c2: Vec<HirId> = Vec::new();
                match &l.expr { Some(x) => { let i = self.convert_expr(x); c2.push(i); }, None => {} }
                proof { assert(ids_of(c2@) =~= opt_box_hir_id(l.expr)); }
                let ghost p0 = children@;
                children.push(c0);
                proof { lemma_ids_push(p0, c0); }
                append_ids(&mut children, &c1);
                append_ids(&mut children, &c2);
                let kind = literal_string("let");
                let label = literal_string("let");
                proof { assert(ids_of(children@) =~= stmt_entry(node.node).children); }
                self.insert_node(id, kind, label, children, node.span);
            },
            hir::Stmt::Expr(e) => {
                let c0 = self.convert_expr(e);
                let ghost p0 = children@;
                children.push(c0);
                proof { lemma_ids_push(p0, c0); }
                let kind = literal_string("stmt_expr");
                let label = literal_string("expr");
                proof { assert(ids_of(children@) =~= stmt_entry(node.node).children); }
                self.insert_node(id, kind, label, children, node.span);
            },
            hir::Stmt::Semi(e) => {
                let c0 = self.convert_expr(e);
                let ghost p0 = children@;
                children.push(c0);
                proof { lemma_ids_push(p0, c0); }
                let kind = literal_string("stmt_semi");
                let label = literal_string("semi");
                proof { assert(ids_of(children@) =~= stmt_entry(node.node).children); }
                self.insert_node(id, kind, label, children, node.span);
            },
            hir::Stmt::Item(item) => {
                let c0 = self.convert_item(item);
                let ghost p0 = children@;
                children.push(c0);
                proof { lemma_ids_push(p0, c0); }
                let kind = literal_string("stmt_item");
                let label = literal_string("item");
                proof { assert(ids_of(children@) =~= stmt_entry(node.node).children); }
                self.insert_node(id, kind, label, children, node.span);
            },
        }
        id
    }

    fn convert_expr(&mut self, node: &hir::HirNode<hir::Expr>) -> (id: HirId)
        ensures
            id.0 == node.hir_id.0,
            final(self).nodes@.contains_key(id.0),
            final(self).nodes@[id.0].holds(id, node.span, expr_entry(node.node)),
            forall|key: usize| old(self).nodes@.contains_key(key) ==> #[trigger] final(self).nodes@.contains_key(key),
            table_written(old(self).nodes@, final(self).nodes@, tbl_expr(*node)),
        decreases node,
    {
        let id = HirId::from_hir_id(node.hir_id);
        let mut children: Vec<HirId> = Vec::new();
        let ghost start = self.nodes@;
        match &node.node {
            hir::Expr::Array(a) => {
                let mut c0: Vec<HirId> = Vec::new();
                self.convert_expr_list(a, &mut c0);
                append_ids(&mut children, &c0);
                let kind = literal_string("array");
                let label = literal_string("[]");
                proof { assert(ids_of(children@) =~= expr_entry(node.node).children); }
                self.insert_node(id, kind, label, children, node.span);
            },
            hir::Expr::Struct(s) => {
                let c0 = self.convert_path(&s.path);
                let mut c1: Vec<HirId> = Vec::new();
                self.convert_struct_expr_field_list(&s.fields, &mut c1);
                let ghost p0 = children@;
                children.push(c0);
                proof { lemma_ids_push(p0, c0); }
                append_ids(&mut children, &c1);
                let kind = literal_string("struct_expr");
                let label = literal_string("struct");
                proof { assert(ids_of(children@) =~= expr_entry(node.node).children); }
                self.insert_node(id, kind, label, children, node.span);
            },
            hir::Expr::Call(c) => {
                let c0 = self.convert_expr(&c.callee);
                let mut c1: Vec<HirId> = Vec::new();
                self.convert_expr_list(&c.args, &mut c1);
                let ghost p0 = children@;
                children.push(c0);
                proof { lemma_ids_push(p0, c0); }
                append_ids(&mut children, &c1);
                let kind = literal_string("call");
                let label = literal_string("call");
                proof { assert(ids_of(children@) =~= expr_entry(node.node).children); }
                self.insert_node(id, kind, label, children, node.span);
            },
            hir::Expr::MethodCall(m) => {
                let c0 = self.convert_expr(&m.receiver);
                let c1 = self.convert_segment(&m.method);
                let mut c2: Vec<HirId> = Vec::new();
                self.convert_expr_list(&m.args, &mut c2);
                let ghost p0 = children@;
                children.push(c0);
                proof { lemma_ids_push(p0, c0); }
                let ghost p1 = children@;
                children.push(c1);
                proof { lemma_ids_push(p1, c1); }
                append_ids(&mut children, &c2);
                let kind = literal_string("method_call");
                let label = literal_string("method_call");
                proof { assert(ids_of(children@) =~= expr_entry(node.node).children); }
                self.insert_node(id, kind, label, children, node.span);
            },
            hir::Expr::Tuple(t) => {
                let mut c0: Vec<HirId> = Vec::new();
                self.convert_expr_list(t, &mut c0);
                append_ids(&mut children, &c0);
                let kind = literal_string("tuple");
                let label = literal_string("()");
                proof { assert(ids_of(children@) =~= expr_entry(node.node).children); }
                self.insert_node(id, kind, label, children, node.span);
            },
            hir::Expr::Cast(c) => {
                let c0 = self.convert_expr(&c.expr);
                let c1 = self.convert_ty(&c.ty);
                let ghost p0 = children@;
                children.push(c0);
                proof { lemma_ids_push(p0, c0); }
                let ghost p1 = children@;
                children.push(c1);
                proof { lemma_ids_push(p1, c1); }
                let kind = literal_string("cast");
                let label = literal_string("as");
                proof { assert(ids_of(children@) =~= expr_entry(node.node).children); }
                self.insert_node(id, kind, label, children, node.span);
            },
            hir::Expr::Return(r) => {
                let mut c0: Vec<HirId> = Vec::new();
                match r { Some(x) => { let i = self.convert_expr(x); c0.push(i); }, None => {} }
                proof { assert(ids_of(c0@) =~= opt_box_hir_id(*r)); }
                append_ids(&mut children, &c0);
                let kind = literal_string("return");
                let label = literal_string("return");
                proof { assert(ids_of(children@) =~= expr_entry(node.node).children); }
                self.insert_node(id, kind, label, children, node.span);
            },
            hir::Expr::Loop(l) => {
                let c0 = self.convert_block(&l.body);
                let ghost p0 = children@;
                children.push(c0);
                proof { lemma_ids_push(p0, c0); }
                let kind = literal_string("loop");
                let label = literal_string("loop");
                proof { assert(ids_of(children@) =~= expr_entry(node.node).children); }
                self.insert_node(id, kind, label, children, node.span);
            },
            hir::Expr::Assign(a) => {
                let c0 = self.convert_expr(&a.lhs);
                let c1 = self.convert_expr(&a.rhs);
                let ghost p0 = children@;
                children.push(c0);
                proof { lemma_ids_push(p0, c0); }
                let ghost p1 = children@;
                children.push(c1);
                proof { lemma_ids_push(p1, c1); }
                let kind = literal_string("assign");
                let label = literal_string("=");
                proof { assert(ids_of(children@) =~= expr_entry(node.node).children); }
                self.insert_node(id, kind, label, children, node.span);
            },
            hir::Expr::Field(f) => {
                let c0 = self.convert_expr(&f.base);
                let c1 = self.convert_ident(&f.field);
                let ghost p0 = children@;
                children.push(c0);
                proof { lemma_ids_push(p0, c0); }
                let ghost p1 = children@;
                children.push(c1);
                proof { lemma_ids_push(p1, c1); }
                let kind = literal_string("field");
                let label = literal_string(".");
                proof { assert(ids_of(children@) =~= expr_entry(node.node).children); }
                self.insert_node(id, kind, label, children, node.span);
            },
            hir::Expr::Index(i) => {
                let c0 = self.convert_expr(&i.base);
                let c1 = self.convert_expr(&i.index);
                let ghost p0 = children@;
                children.push(c0);
                proof { lemma_ids_push(p0, c0); }
                let ghost p1 = children@;
                children.push(c1);
                proof { lemma_ids_push(p1, c1); }
                let kind = literal_string("index");
                let label = literal_string("[]");
                proof { assert(ids_of(children@) =~= expr_entry(node.node).children); }
                self.insert_node(id, kind, label, children, node.span);
            },
            hir::Expr::Path(p) => {
                let c0 = self.convert_path(p);
                let ghost p0 = children@;
                children.push(c0);
                proof { lemma_ids_push(p0, c0); }
                let kind = literal_string("path");
                let label = literal_string("path");
                proof { assert(ids_of(children@) =~= expr_entry(node.node).children); }
                self.insert_node(id, kind, label, children, node.span);
            },
            hir::Expr::AddrOf(a) => {
                let c0 = self.convert_expr(a);
                let ghost p0 = children@;
                children.push(c0);
                proof { lemma_ids_push(p0, c0); }
                let kind = literal_string("addr_of");
                let label = literal_string("&");
                proof { assert(ids_of(children@) =~= expr_entry(node.node).children); }
                self.insert_node(id, kind, label, children, node.span);
            },
            hir::Expr::Break(b) => {
                let mut c0: Vec<HirId> = Vec::new();
                match b { Some(x) => { let i = self.convert_expr(x); c0.push(i); }, None => {} }
                proof { assert(ids_of(c0@) =~= opt_box_hir_id(*b)); }
                append_ids(&mut children, &c0);
                let kind = literal_string("break");
                let label = literal_string("break");
                proof { assert(ids_of(children@) =~= expr_entry(node.node).children); }
                self.insert_node(id, kind, label, children, node.span);
            },
            hir::Expr::Continue => {
                let kind = literal_string("continue");
                let label = literal_string("continue");
                proof { assert(ids_of(children@) =~= expr_entry(node.node).children); }
                self.insert_node(id, kind, label, children, node.span);
            },
            hir::Expr::Literal(l) => {
                let kind = literal_string("literal");
                let label = literal_label(l);
                proof { assert(ids_of(children@) =~= expr_entry(node.node).children); }
                self.insert_node(id, kind, label, children, node.span);
            },
            hir::Expr::Binary(b) => {
                let c0 = self.convert_expr(&b.lhs);
                let c1 = self.convert_expr(&b.rhs);
                let ghost p0 = children@;
                children.push(c0);
                proof { lemma_ids_push(p0, c0); }
                let ghost p1 = children@;
                children.push(c1);
                proof { lemma_ids_push(p1, c1); }
                let kind = literal_string("binary");
                let label = bin_op_name(b.op);
                proof { assert(ids_of(children@) =~= expr_entry(node.node).children); }
                self.insert_node(id, kind, label, children, node.span);
            },
            hir::Expr::Unary(u) => {
                let c0 = self.convert_expr(&u.operand);
                let ghost p0 = children@;
                children.push(c0);
                proof { lemma_ids_push(p0, c0); }
                let kind = literal_string("unary");
                let label = un_op_name(u.op);
                proof { assert(ids_of(children@) =~= expr_entry(node.node).children); }
                self.insert_node(id, kind, label, children, node.span);
            },
            hir::Expr::If(i) => {
                let c0 = self.convert_expr(&i.condition);
                let c1 = self.convert_block(&i.then_branch);
                let mut c2: Vec<HirId> = Vec::new();
                match &i.else_branch { Some(x) => { let i = self.convert_block(x); c2.push(i); }, None => {} }
                proof { assert(ids_of(c2@) =~= opt_hir_id(i.else_branch)); }
                let ghost p0 = children@;
                children.push(c0);
                proof { lemma_ids_push(p0, c0); }
                let ghost p1 = children@;
                children.push(c1);
                proof { lemma_ids_push(p1, c1); }
                append_ids(&mut children, &c2);
                let kind = literal_string("if");
                let label = literal_string("if");
                proof { assert(ids_of(children@) =~= expr_entry(node.node).children); }
                self.insert_node(id, kind, label, children, node.span);
            },
            hir::Expr::Block(b) => {
                let c0 = self.convert_block(b);
                let ghost p0 = children@;
                children.push(c0);
                proof { lemma_ids_push(p0, c0); }
                let kind = literal_string("block");
                let label = literal_string("block");
                proof { assert(ids_of(children@) =~= expr_entry(node.node).children); }
                self.insert_node(id, kind, label, children, node.span);
            },
            hir::Expr::Match(m) => {
                let c0 = self.convert_expr(&m.scrutinee);
                let mut c1: Vec<HirId> = Vec::new();
                self.convert_match_arm_list(&m.arms, &mut c1);
                let ghost p0 = children@;
                children.push(c0);
                proof { lemma_ids_push(p0, c0); }
                append_ids(&mut children, &c1);
                let kind = literal_string("match");
                let label = literal_string("match");
                proof { assert(ids_of(children@) =~= expr_entry(node.node).children); }
                self.insert_node(id, kind, label, children, node.span);
            },
            hir::Expr::Let(l) => {
                let c0 = self.convert_pattern(&l.pattern);
                let c1 = self.convert_expr(&l.init);
                let ghost p0 = children@;
                children.push(c0);
                proof { lemma_ids_push(p0, c0); }
                let ghost p1 = children@;
                children.push(c1);
                proof { lemma_ids_push(p1, c1); }
                let kind = literal_string("let_expr");
                let label = literal_string("let");
                proof { assert(ids_of(children@) =~= expr_entry(node.node).children); }
                self.insert_node(id, kind, label, children, node.span);
            },
            hir::Expr::Error => {
                let kind = literal_string("expr_err");
                let label = literal_string("err");
                proof { assert(ids_of(children@) =~= expr_entry(node.node).children); }
                self.insert_node(id, kind, label, children, node.span);
            },
        }
        id
    }

    fn convert_struct_expr_field(&mut self, node: &hir::HirNode<hir::StructExprField>) -> (id: HirId)
        ensures
            id.0 == node.hir_id.0,
            final(self).nodes@.contains_key(id.0),
            final(self).nodes@[id.0].holds(id, node.span, struct_expr_field_entry(node.node)),
            forall|key: usize| old(self).nodes@.contains_key(key) ==> #[trigger] final(self).nodes@.contains_key(key),
            table_written(old(self).nodes@, final(self).nodes@, tbl_struct_expr_field(*node)),
        decreases node,
    {
        let id = HirId::from_hir_id(node.hir_id);
        let mut children: Vec<HirId> = Vec::new();
        let ghost start = self.nodes@;
        let n = &node.node;
        let c0 = self.convert_ident(&n.ident);
        let c1 = self.convert_expr(&n.expr);
        let ghost p0 = children@;
        children.push(c0);
        proof { lemma_ids_push(p0, c0); }
        let ghost p1 = children@;
        children.push(c1);
        proof { lemma_ids_push(p1, c1); }
        let kind = literal_string("struct_expr_field");
        let label = clone_name(&n.ident.node.name);
        proof { assert(ids_of(children@) =~= struct_expr_field_entry(node.node).children); }
        self.insert_node(id, kind, label, children, node.span);
        id
    }

    fn convert_match_arm(&mut self, node: &hir::HirNode<hir::MatchArm>) -> (id: HirId)
        ensures
            id.0 == node.hir_id.0,
            final(self).nodes@.contains_key(id.0),
            final(self).nodes@[id.0].holds(id, node.span, match_arm_entry(node.node)),
            forall|key: usize| old(self).nodes@.contains_key(key) ==> #[trigger] final(self).nodes@.contains_key(key),
            table_written(old(self).nodes@, final(self).nodes@, tbl_match_arm(*node)),
        decreases node,
    {
        let id = HirId::from_hir_id(node.hir_id);
        let mut children: Vec<HirId> = Vec::new();
        let ghost start = self.nodes@;
        let n = &node.node;
        let c0 = self.convert_pattern(&n.pattern);
        let c1 = self.convert_expr(&n.body);
        let ghost p0 = children@;
        children.push(c0);
        proof { lemma_ids_push(p0, c0); }
        let ghost p1 = children@;
        children.push(c1);
        proof { lemma_ids_push(p1, c1); }
        let kind = literal_string("match_arm");
        let label = literal_string("=>");
        proof { assert(ids_of(children@) =~= match_arm_entry(node.node).children); }
        self.insert_node(id, kind, label, children, node.span);
        id
    }

    fn convert_block(&mut self, node: &hir::HirNode<hir::BlockExpr>) -> (id: HirId)
        ensures
            id.0 == node.hir_id.0,
            final(self).nodes@.contains_key(id.0),
            final(self).nodes@[id.0].holds(id, node.span, block_entry(node.node)),
            forall|key: usize| old(self).nodes@.contains_key(key) ==> #[trigger] final(self).nodes@.contains_key(key),
            table_written(old(self).nodes@, final(self).nodes@, tbl_block(*node)),
        decreases node,
    {
        let id = HirId::from_hir_id(node.hir_id);
        let mut children: Vec<HirId> = Vec::new();
        let ghost start = self.nodes@;
        let n = &node.node;
        let mut c0: Vec<HirId> = Vec::new();
        self.convert_stmt_list(&n.stmts, &mut c0);
        append_ids(&mut children, &c0);
        let kind = literal_string("block");
        let label = literal_string("{ }");
        proof { assert(ids_of(children@) =~= block_entry(node.node).children); }
        self.insert_node(id, kind, label, children, node.span);
        id
    }

    fn convert_pattern(&mut self, node: &hir::HirNode<hir::Pattern>) -> (id: HirId)
        ensures
            id.0 == node.hir_id.0,
            final(self).nodes@.contains_key(id.0),
            final(self).nodes@[id.0].holds(id, node.span, pattern_entry(node.node)),
            forall|key: usize| old(self).nodes@.contains_key(key) ==> #[trigger] final(self).nodes@.contains_key(key),
            table_written(old(self).nodes@, final(self).nodes@, tbl_pattern(*node)),
        decreases node,
    {
        let id = HirId::from_hir_id(node.hir_id);
        let mut children: Vec<HirId> = Vec::new();
        let ghost start = self.nodes@;
        match &node.node {
            hir::Pattern::Wildcard => {
                let kind = literal_string("pat_wildcard");
                let label = literal_string("_");
                proof { assert(ids_of(children@) =~= pattern_entry(node.node).children); }
                self.insert_node(id, kind, label, children, node.span);
            },
            hir::Pattern::Or(ps) => {
                let mut c0: Vec<HirId> = Vec::new();
                self.convert_pattern_list(ps, &mut c0);
                append_ids(&mut children, &c0);
                let kind = literal_string("pat_or");
                let label = literal_string("|");
                proof { assert(ids_of(children@) =~= pattern_entry(node.node).children); }
                self.insert_node(id, kind, label, children, node.span);
            },
            hir::Pattern::Path(p) => {
                let c0 = self.convert_path(p);
                let ghost p0 = children@;
                children.push(c0);
                proof { lemma_ids_push(p0, c0); }
                let kind = literal_string("pat_path");
                let label = literal_string("path");
                proof { assert(ids_of(children@) =~= pattern_entry(node.node).children); }
                self.insert_node(id, kind, label, children, node.span);
            },
            hir::Pattern::Struct(p, fields) => {
                let c0 = self.convert_path(p);
                let mut c1: Vec<HirId> = Vec::new();
                self.convert_pat_struct_field_list(fields, &mut c1);
                let ghost p0 = children@;
                children.push(c0);
                proof { lemma_ids_push(p0, c0); }
                append_ids(&mut children, &c1);
                let kind = literal_string("pat_struct");
                let label = literal_string("struct");
                proof { assert(ids_of(children@) =~= pattern_entry(node.node).children); }
                self.insert_node(id, kind, label, children, node.span);
            },
            hir::Pattern::TupleStruct(p, ps) => {
                let c0 = self.convert_path(p);
                let mut c1: Vec<HirId> = Vec::new();
                self.convert_pattern_list(ps, &mut c1);
                let ghost p0 = children@;
                children.push(c0);
                proof { lemma_ids_push(p0, c0); }
                append_ids(&mut children, &c1);
                let kind = literal_string("pat_tuple_struct");
                let label = literal_string("tuple_struct");
                proof { assert(ids_of(children@) =~= pattern_entry(node.node).children); }
                self.insert_node(id, kind, label, children, node.span);
            },
            hir::Pattern::Tuple(ps) => {
                let mut c0: Vec<HirId> = Vec::new();
                self.convert_pattern_list(ps, &mut c0);
                append_ids(&mut children, &c0);
                let kind = literal_string("pat_tuple");
                let label = literal_string("()");
                proof { assert(ids_of(children@) =~= pattern_entry(node.node).children); }
                self.insert_node(id, kind, label, children, node.span);
            },
            hir::Pattern::Expr(e) => {
                let c0 = self.convert_expr(e);
                let ghost p0 = children@;
                children.push(c0);
                proof { lemma_ids_push(p0, c0); }
                let kind = literal_string("pat_expr");
                let label = literal_string("expr");
                proof { assert(ids_of(children@) =~= pattern_entry(node.node).children); }
                self.insert_node(id, kind, label, children, node.span);
            },
        }
        id
    }

    fn convert_pat_struct_field(&mut self, node: &hir::HirNode<hir::PatternStructField>) -> (id: HirId)
        ensures
            id.0 == node.hir_id.0,
            final(self).nodes@.contains_key(id.0),
            final(self).nodes@[id.0].holds(id, node.span, pat_struct_field_entry(node.node)),
            forall|key: usize| old(self).nodes@.contains_key(key) ==> #[trigger] final(self).nodes@.contains_key(key),
            table_written(old(self).nodes@, final(self).nodes@, tbl_pat_struct_field(*node)),
        decreases node,
    {
        let id = HirId::from_hir_id(node.hir_id);
        let mut children: Vec<HirId> = Vec::new();
        let ghost start = self.nodes@;
        let n = &node.node;
        let c0 = self.convert_ident(&n.ident);
        let c1 = self.convert_pattern(&n.pattern);
        let ghost p0 = children@;
        children.push(c0);
        proof { lemma_ids_push(p0, c0); }
        let ghost p1 = children@;
        children.push(c1);
        proof { lemma_ids_push(p1, c1); }
        let kind = literal_string("pat_struct_field");
        let label = clone_name(&n.ident.node.name);
        proof { assert(ids_of(children@) =~= pat_struct_field_entry(node.node).children); }
        self.insert_node(id, kind, label, children, node.span);
        id
    }

    fn convert_ty(&mut self, node: &hir::HirNode<hir::Ty>) -> (id: HirId)
        ensures
            id.0 == node.hir_id.0,
            final(self).nodes@.contains_key(id.0),
            final(self).nodes@[id.0].holds(id, node.span, ty_entry(node.node)),
            forall|key: usize| old(self).nodes@.contains_key(key) ==> #[trigger] final(self).nodes@.contains_key(key),
            table_written(old(self).nodes@, final(self).nodes@, tbl_ty(*node)),
        decreases node,
    {
        let id = HirId::from_hir_id(node.hir_id);
        let mut children: Vec<HirId> = Vec::new();
        let ghost start = self.nodes@;
        match &node.node {
            hir::Ty::Path(p) => {
                let c0 = self.convert_path(p);
                let ghost p0 = children@;
                children.push(c0);
                proof { lemma_ids_push(p0, c0); }
                let kind = literal_string("ty_path");
                let label = literal_string("path");
                proof { assert(ids_of(children@) =~= ty_entry(node.node).children); }
                self.insert_node(id, kind, label, children, node.span);
            },
            hir::Ty::Array(t, e) => {
                let c0 = self.convert_ty(t);
                let c1 = self.convert_expr(e);
                let ghost p0 = children@;
                children.push(c0);
                proof { lemma_ids_push(p0, c0); }
                let ghost p1 = children@;
                children.push(c1);
                proof { lemma_ids_push(p1, c1); }
                let kind = literal_string("ty_array");
                let label = literal_string("[]");
                proof { assert(ids_of(children@) =~= ty_entry(node.node).children); }
                self.insert_node(id, kind, label, children, node.span);
            },
            hir::Ty::Ptr(t) => {
                let c0 = self.convert_ty(t);
                let ghost p0 = children@;
                children.push(c0);
                proof { lemma_ids_push(p0, c0); }
                let kind = literal_string("ty_ptr");
                let label = literal_string("*");
                proof { assert(ids_of(children@) =~= ty_entry(node.node).children); }
                self.insert_node(id, kind, label, children, node.span);
            },
            hir::Ty::Fn(ps, ret) => {
                let mut c0: Vec<HirId> = Vec::new();
                self.convert_ty_list(ps, &mut c0);
                let mut c1: Vec<HirId> = Vec::new();
                match ret { Some(x) => { let i = self.convert_ty(x); c1.push(i); }, None => {} }
                proof { assert(ids_of(c1@) =~= opt_box_hir_id(*ret)); }
                append_ids(&mut children, &c0);
                append_ids(&mut children, &c1);
                let kind = literal_string("ty_fn");
                let label = literal_string("fn");
                proof { assert(ids_of(children@) =~= ty_entry(node.node).children); }
                self.insert_node(id, kind, label, children, node.span);
            },
            hir::Ty::Tuple(ts) => {
                let mut c0: Vec<HirId> = Vec::new();
                self.convert_ty_list(ts, &mut c0);
                append_ids(&mut children, &c0);
                let kind = literal_string("ty_tuple");
                let label = literal_string("()");
                proof { assert(ids_of(children@) =~= ty_entry(node.node).children); }
                self.insert_node(id, kind, label, children, node.span);
            },
        }
        id
    }

    fn convert_path(&mut self, node: &hir::HirNode<hir::Path>) -> (id: HirId)
        ensures
            id.0 == node.hir_id.0,
            final(self).nodes@.contains_key(id.0),
            final(self).nodes@[id.0].holds(id, node.span, path_entry(node.node)),
            forall|key: usize| old(self).nodes@.contains_key(key) ==> #[trigger] final(self).nodes@.contains_key(key),
            table_written(old(self).nodes@, final(self).nodes@, tbl_path(*node)),
        decreases node,
    {
        let id = HirId::from_hir_id(node.hir_id);
        let mut children: Vec<HirId> = Vec::new();
        let ghost start = self.nodes@;
        match &node.node {
            hir::Path::Resolved { segments, .. } => {
                let mut c0: Vec<HirId> = Vec::new();
                self.convert_segment_list(segments, &mut c0);
                append_ids(&mut children, &c0);
                let kind = literal_string("path");
                let label = path_label(segments, &Vec::new());
                proof { assert(ids_of(children@) =~= path_entry(node.node).children); }
                self.insert_node(id, kind, label, children, node.span);
            },
            hir::Path::Unresolved { resolved_segments, unresolved_segments, .. } => {
                let mut c0: Vec<HirId> = Vec::new();
                self.convert_segment_list(resolved_segments, &mut c0);
                let mut c1: Vec<HirId> = Vec::new();
                self.convert_segment_list(unresolved_segments, &mut c1);
                append_ids(&mut children, &c0);
                append_ids(&mut children, &c1);
                let kind = literal_string("path");
                let label = path_label(resolved_segments, unresolved_segments);
                proof { assert(ids_of(children@) =~= path_entry(node.node).children); }
                self.insert_node(id, kind, label, children, node.span);
            },
        }
        id
    }

    fn convert_segment(&mut self, node: &hir::HirNode<hir::PathSegment>) -> (id: HirId)
        ensures
            id.0 == node.hir_id.0,
            final(self).nodes@.contains_key(id.0),
            final(self).nodes@[id.0].holds(id, node.span, segment_entry(node.node)),
            forall|key: usize| old(self).nodes@.contains_key(key) ==> #[trigger] final(self).nodes@.contains_key(key),
            table_written(old(self).nodes@, final(self).nodes@, tbl_segment(*node)),
        decreases node,
    {
        let id = HirId::from_hir_id(node.hir_id);
        let mut children: Vec<HirId> = Vec::new();
        let ghost start = self.nodes@;
        let n = &node.node;
        let c0 = self.convert_ident(&n.ident);
        let mut c1: Vec<HirId> = Vec::new();
        self.convert_generic_arg_list(&n.args, &mut c1);
        let ghost p0 = children@;
        children.push(c0);
        proof { lemma_ids_push(p0, c0); }
        append_ids(&mut children, &c1);
        let kind = literal_string("path_segment");
        let label = clone_name(&n.ident.node.name);
        proof { assert(ids_of(children@) =~= segment_entry(node.node).children); }
        self.insert_node(id, kind, label, children, node.span);
        id
    }

    fn convert_generic_arg(&mut self, node: &hir::HirNode<hir::GenericArg>) -> (id: HirId)
        ensures
            id.0 == node.hir_id.0,
            final(self).nodes@.contains_key(id.0),
            final(self).nodes@[id.0].holds(id, node.span, generic_arg_entry(node.node)),
            forall|key: usize| old(self).nodes@.contains_key(key) ==> #[trigger] final(self).nodes@.contains_key(key),
            table_written(old(self).nodes@, final(self).nodes@, tbl_generic_arg(*node)),
        decreases node,
    {
        let id = HirId::from_hir_id(node.hir_id);
        let mut children: Vec<HirId> = Vec::new();
        let ghost start = self.nodes@;
        match &node.node {
            hir::GenericArg::Type(t) => {
                let c0 = self.convert_ty(t);
                let ghost p0 = children@;
                children.push(c0);
                proof { lemma_ids_push(p0, c0); }
                let kind = literal_string("generic_arg");
                let label = literal_string("");
                proof { assert(ids_of(children@) =~= generic_arg_entry(node.node).children); }
                self.insert_node(id, kind, label, children, node.span);
            },
            hir::GenericArg::Const(e) => {
                let c0 = self.convert_expr(e);
                let ghost p0 = children@;
                children.push(c0);
                proof { lemma_ids_push(p0, c0); }
                let kind = literal_string("generic_arg");
                let label = literal_string("");
                proof { assert(ids_of(children@) =~= generic_arg_entry(node.node).children); }
                self.insert_node(id, kind, label, children, node.span);
            },
        }
        id
    }

    fn convert_ident(&mut self, node: &hir::HirNode<Ident>) -> (id: HirId)
        ensures
            id.0 == node.hir_id.0,
            final(self).nodes@.contains_key(id.0),
            final(self).nodes@[id.0].holds(id, node.span, ident_entry(node.node)),
            forall|key: usize| old(self).nodes@.contains_key(key) ==> #[trigger] final(self).nodes@.contains_key(key),
            table_written(old(self).nodes@, final(self).nodes@, tbl_ident(*node)),
        decreases node,
    {
        let id = HirId::from_hir_id(node.hir_id);
        let mut children: Vec<HirId> = Vec::new();
        let ghost start = self.nodes@;
        let n = &node.node;
        let kind = literal_string("ident");
        let label = clone_name(&n.name);
        proof { assert(ids_of(children@) =~= ident_entry(node.node).children); }
        self.insert_node(id, kind, label, children, node.span);
        id
    }

    fn convert_assoc_item_list(&mut self, v: &Vec<hir::HirNode<hir::AssociatedItem>>, out: &mut Vec<HirId>)
        ensures
            ids_of(final(out)@) == ids_of(old(out)@) + hir_ids(v@),
            forall|key: usize| old(self).nodes@.contains_key(key) ==> #[trigger] final(self).nodes@.contains_key(key),
            forall|i: int| 0 <= i < v@.len() ==> final(self).nodes@.contains_key(#[trigger] v@[i].hir_id.0),
            table_written(old(self).nodes@, final(self).nodes@, tbl_assoc_items(v@)),
        decreases v,
    {
        let mut i: usize = 0;
        while i < v.len()
            invariant
                i <= v.len(),
                ids_of(out@) == ids_of(old(out)@) + hir_ids(v@.take(i as int)),
                forall|key: usize| old(self).nodes@.contains_key(key) ==> #[trigger] self.nodes@.contains_key(key),
                forall|j: int| 0 <= j < i ==> self.nodes@.contains_key(#[trigger] v@[j].hir_id.0),
                table_written(old(self).nodes@, self.nodes@, tbl_assoc_items(v@.take(i as int))),
            decreases v.len() - i,
        {
            proof {
                assert(decreases_to!(*v => v[i as int]));
            }
            let ghost prev = out@;
            let id = self.convert_assoc_item(&v[i]);
            out.push(id);
            proof {
                lemma_ids_push(prev, id);
                assert(hir_ids(v@.take(i + 1)) =~= hir_ids(v@.take(i as int)).push(v@[i as int].hir_id.0));
                assert(ids_of(old(out)@) + hir_ids(v@.take(i + 1)) =~= (ids_of(old(out)@) + hir_ids(v@.take(i as int))).push(v@[i as int].hir_id.0));
            }
            proof {
                assert(v@.take(i as int + 1).drop_last() =~= v@.take(i as int));
            }
            i = i + 1;
        }
        assert(v@.take(v.len() as int) =~= v@);
    }

    fn convert_enum_variant_list(&mut self, v: &Vec<hir::HirNode<hir::EnumVariant>>, out: &mut Vec<HirId>)
        ensures
            ids_of(final(out)@) == ids_of(old(out)@) + hir_ids(v@),
            forall|key: usize| old(self).nodes@.contains_key(key) ==> #[trigger] final(self).nodes@.contains_key(key),
            forall|i: int| 0 <= i < v@.len() ==> final(self).nodes@.contains_key(#[trigger] v@[i].hir_id.0),
            table_written(old(self).nodes@, final(self).nodes@, tbl_enum_variants(v@)),
        decreases v,
    {
        let mut i: usize = 0;
        while i < v.len()
            invariant
                i <= v.len(),
                ids_of(out@) == ids_of(old(out)@) + hir_ids(v@.take(i as int)),
                forall|key: usize| old(self).nodes@.contains_key(key) ==> #[trigger] self.nodes@.contains_key(key),
                forall|j: int| 0 <= j < i ==> self.nodes@.contains_key(#[trigger] v@[j].hir_id.0),
                table_written(old(self).nodes@, self.nodes@, tbl_enum_variants(v@.take(i as int))),
            decreases v.len() - i,
        {
            proof {
                assert(decreases_to!(*v => v[i as int]));
            }
            let ghost prev = out@;
            let id = self.convert_enum_variant(&v[i]);
            out.push(id);
            proof {
                lemma_ids_push(prev, id);
                assert(hir_ids(v@.take(i + 1)) =~= hir_ids(v@.take(i as int)).push(v@[i as int].hir_id.0));
                assert(ids_of(old(out)@) + hir_ids(v@.take(i + 1)) =~= (ids_of(old(out)@) + hir_ids(v@.take(i as int))).push(v@[i as int].hir_id.0));
            }
            proof {
                assert(v@.take(i as int + 1).drop_last() =~= v@.take(i as int));
            }
            i = i + 1;
        }
        assert(v@.take(v.len() as int) =~= v@);
    }

    fn convert_expr_list(&mut self, v: &Vec<hir::HirNode<hir::Expr>>, out: &mut Vec<HirId>)
        ensures
            ids_of(final(out)@) == ids_of(old(out)@) + hir_ids(v@),
            forall|key: usize| old(self).nodes@.contains_key(key) ==> #[trigger] final(self).nodes@.contains_key(key),
            forall|i: int| 0 <= i < v@.len() ==> final(self).nodes@.contains_key(#[trigger] v@[i].hir_id.0),
            table_written(old(self).nodes@, final(self).nodes@, tbl_exprs(v@)),
        decreases v,
    {
        let mut i: usize = 0;
        while i < v.len()
            invariant
                i <= v.len(),
                ids_of(out@) == ids_of(old(out)@) + hir_ids(v@.take(i as int)),
                forall|key: usize| old(self).nodes@.contains_key(key) ==> #[trigger] self.nodes@.contains_key(key),
                forall|j: int| 0 <= j < i ==> self.nodes@.contains_key(#[trigger] v@[j].hir_id.0),
                table_written(old(self).nodes@, self.nodes@, tbl_exprs(v@.take(i as int))),
            decreases v.len() - i,
        {
            proof {
                assert(decreases_to!(*v => v[i as int]));
            }
            let ghost prev = out@;
            let id = self.convert_expr(&v[i]);
            out.push(id);
            proof {
                lemma_ids_push(prev, id);
                assert(hir_ids(v@.take(i + 1)) =~= hir_ids(v@.take(i as int)).push(v@[i as int].hir_id.0));
                assert(ids_of(old(out)@) + hir_ids(v@.take(i + 1)) =~= (ids_of(old(out)@) + hir_ids(v@.take(i as int))).push(v@[i as int].hir_id.0));
            }
            proof {
                assert(v@.take(i as int + 1).drop_last() =~= v@.take(i as int));
            }
            i = i + 1;
        }
        assert(v@.take(v.len() as int) =~= v@);
    }

    fn convert_field_def_list(&mut self, v: &Vec<hir::HirNode<hir::StructField>>, out: &mut Vec<HirId>)
        ensures
            ids_of(final(out)@) == ids_of(old(out)@) + hir_ids(v@),
            forall|key: usize| old(self).nodes@.contains_key(key) ==> #[trigger] final(self).nodes@.contains_key(key),
            forall|i: int| 0 <= i < v@.len() ==> final(self).nodes@.contains_key(#[trigger] v@[i].hir_id.0),
            table_written(old(self).nodes@, final(self).nodes@, tbl_field_defs(v@)),
        decreases v,
    {
        let mut i: usize = 0;
        while i < v.len()
            invariant
                i <= v.len(),
                ids_of(out@) == ids_of(old(out)@) + hir_ids(v@.take(i as int)),
                forall|key: usize| old(self).nodes@.contains_key(key) ==> #[trigger] self.nodes@.contains_key(key),
                forall|j: int| 0 <= j < i ==> self.nodes@.contains_key(#[trigger] v@[j].hir_id.0),
                table_written(old(self).nodes@, self.nodes@, tbl_field_defs(v@.take(i as int))),
            decreases v.len() - i,
        {
            proof {
                assert(decreases_to!(*v => v[i as int]));
            }
            let ghost prev = out@;
            let id = self.convert_field_def(&v[i]);
            out.push(id);
            proof {
                lemma_ids_push(prev, id);
                assert(hir_ids(v@.take(i + 1)) =~= hir_ids(v@.take(i as int)).push(v@[i as int].hir_id.0));
                assert(ids_of(old(out)@) + hir_ids(v@.take(i + 1)) =~= (ids_of(old(out)@) + hir_ids(v@.take(i as int))).push(v@[i as int].hir_id.0));
            }
            proof {
                assert(v@.take(i as int + 1).drop_last() =~= v@.take(i as int));
            }
            i = i + 1;
        }
        assert(v@.take(v.len() as int) =~= v@);
    }

    fn convert_generic_arg_list(&mut self, v: &Vec<hir::HirNode<hir::GenericArg>>, out: &mut Vec<HirId>)
        ensures
            ids_of(final(out)@) == ids_of(old(out)@) + hir_ids(v@),
            forall|key: usize| old(self).nodes@.contains_key(key) ==> #[trigger] final(self).nodes@.contains_key(key),
            forall|i: int| 0 <= i < v@.len() ==> final(self).nodes@.contains_key(#[trigger] v@[i].hir_id.0),
            table_written(old(self).nodes@, final(self).nodes@, tbl_generic_args(v@)),
        decreases v,
    {
        let mut i: usize = 0;
        while i < v.len()
            invariant
                i <= v.len(),
                ids_of(out@) == ids_of(old(out)@) + hir_ids(v@.take(i as int)),
                forall|key: usize| old(self).nodes@.contains_key(key) ==> #[trigger] self.nodes@.contains_key(key),
                forall|j: int| 0 <= j < i ==> self.nodes@.contains_key(#[trigger] v@[j].hir_id.0),
                table_written(old(self).nodes@, self.nodes@, tbl_generic_args(v@.take(i as int))),
            decreases v.len() - i,
        {
            proof {
                assert(decreases_to!(*v => v[i as int]));
            }
            let ghost prev = out@;
            let id = self.convert_generic_arg(&v[i]);
            out.push(id);
            proof {
                lemma_ids_push(prev, id);
                assert(hir_ids(v@.take(i + 1)) =~= hir_ids(v@.take(i as int)).push(v@[i as int].hir_id.0));
                assert(ids_of(old(out)@) + hir_ids(v@.take(i + 1)) =~= (ids_of(old(out)@) + hir_ids(v@.take(i as int))).push(v@[i as int].hir_id.0));
            }
            proof {
                assert(v@.take(i as int + 1).drop_last() =~= v@.take(i as int));
            }
            i = i + 1;
        }
        assert(v@.take(v.len() as int) =~= v@);
    }

    fn convert_generic_param_list(&mut self, v: &Vec<hir::HirNode<hir::GenericParam>>, out: &mut Vec<HirId>)
        ensures
            ids_of(final(out)@) == ids_of(old(out)@) + hir_ids(v@),
            forall|key: usize| old(self).nodes@.contains_key(key) ==> #[trigger] final(self).nodes@.contains_key(key),
            forall|i: int| 0 <= i < v@.len() ==> final(self).nodes@.contains_key(#[trigger] v@[i].hir_id.0),
            table_written(old(self).nodes@, final(self).nodes@, tbl_generic_params(v@)),
        decreases v,
    {
        let mut i: usize = 0;
        while i < v.len()
            invariant
                i <= v.len(),
                ids_of(out@) == ids_of(old(out)@) + hir_ids(v@.take(i as int)),
                forall|key: usize| old(self).nodes@.contains_key(key) ==> #[trigger] self.nodes@.contains_key(key),
                forall|j: int| 0 <= j < i ==> self.nodes@.contains_key(#[trigger] v@[j].hir_id.0),
                table_written(old(self).nodes@, self.nodes@, tbl_generic_params(v@.take(i as int))),
            decreases v.len() - i,
        {
            proof {
                assert(decreases_to!(*v => v[i as int]));
            }
            let ghost prev = out@;
            let id = self.convert_generic_param(&v[i]);
            out.push(id);
            proof {
                lemma_ids_push(prev, id);
                assert(hir_ids(v@.take(i + 1)) =~= hir_ids(v@.take(i as int)).push(v@[i as int].hir_id.0));
                assert(ids_of(old(out)@) + hir_ids(v@.take(i + 1)) =~= (ids_of(old(out)@) + hir_ids(v@.take(i as int))).push(v@[i as int].hir_id.0));
            }
            proof {
                assert(v@.take(i as int + 1).drop_last() =~= v@.take(i as int));
            }
            i = i + 1;
        }
        assert(v@.take(v.len() as int) =~= v@);
    }

    fn convert_item_list(&mut self, v: &Vec<hir::HirNode<hir::Item>>, out: &mut Vec<HirId>)
        ensures
            ids_of(final(out)@) == ids_of(old(out)@) + hir_ids(v@),
            forall|key: usize| old(self).nodes@.contains_key(key) ==> #[trigger] final(self).nodes@.contains_key(key),
            forall|i: int| 0 <= i < v@.len() ==> final(self).nodes@.contains_key(#[trigger] v@[i].hir_id.0),
            table_written(old(self).nodes@, final(self).nodes@, tbl_items(v@)),
        decreases v,
    {
        let mut i: usize = 0;
        while i < v.len()
            invariant
                i <= v.len(),
                ids_of(out@) == ids_of(old(out)@) + hir_ids(v@.take(i as int)),
                forall|key: usize| old(self).nodes@.contains_key(key) ==> #[trigger] self.nodes@.contains_key(key),
                forall|j: int| 0 <= j < i ==> self.nodes@.contains_key(#[trigger] v@[j].hir_id.0),
                table_written(old(self).nodes@, self.nodes@, tbl_items(v@.take(i as int))),
            decreases v.len() - i,
        {
            proof {
                assert(decreases_to!(*v => v[i as int]));
            }
            let ghost prev = out@;
            let id = self.convert_item(&v[i]);
            out.push(id);
            proof {
                lemma_ids_push(prev, id);
                assert(hir_ids(v@.take(i + 1)) =~= hir_ids(v@.take(i as int)).push(v@[i as int].hir_id.0));
                assert(ids_of(old(out)@) + hir_ids(v@.take(i + 1)) =~= (ids_of(old(out)@) + hir_ids(v@.take(i as int))).push(v@[i as int].hir_id.0));
            }
            proof {
                assert(v@.take(i as int + 1).drop_last() =~= v@.take(i as int));
            }
            i = i + 1;
        }
        assert(v@.take(v.len() as int) =~= v@);
    }

    fn convert_match_arm_list(&mut self, v: &Vec<hir::HirNode<hir::MatchArm>>, out: &mut Vec<HirId>)
        ensures
            ids_of(final(out)@) == ids_of(old(out)@) + hir_ids(v@),
            forall|key: usize| old(self).nodes@.contains_key(key) ==> #[trigger] final(self).nodes@.contains_key(key),
            forall|i: int| 0 <= i < v@.len() ==> final(self).nodes@.contains_key(#[trigger] v@[i].hir_id.0),
            table_written(old(self).nodes@, final(self).nodes@, tbl_match_arms(v@)),
        decreases v,
    {
        let mut i: usize = 0;
        while i < v.len()
            invariant
                i <= v.len(),
                ids_of(out@) == ids_of(old(out)@) + hir_ids(v@.take(i as int)),
                forall|key: usize| old(self).nodes@.contains_key(key) ==> #[trigger] self.nodes@.contains_key(key),
                forall|j: int| 0 <= j < i ==> self.nodes@.contains_key(#[trigger] v@[j].hir_id.0),
                table_written(old(self).nodes@, self.nodes@, tbl_match_arms(v@.take(i as int))),
            decreases v.len() - i,
        {
            proof {
                assert(decreases_to!(*v => v[i as int]));
            }
            let ghost prev = out@;
            let id = self.convert_match_arm(&v[i]);
            out.push(id);
            proof {
                lemma_ids_push(prev, id);
                assert(hir_ids(v@.take(i + 1)) =~= hir_ids(v@.take(i as int)).push(v@[i as int].hir_id.0));
                assert(ids_of(old(out)@) + hir_ids(v@.take(i + 1)) =~= (ids_of(old(out)@) + hir_ids(v@.take(i as int))).push(v@[i as int].hir_id.0));
            }
            proof {
                assert(v@.take(i as int + 1).drop_last() =~= v@.take(i as int));
            }
            i = i + 1;
        }
        assert(v@.take(v.len() as int) =~= v@);
    }

    fn convert_param_list(&mut self, v: &Vec<hir::HirNode<hir::Param>>, out: &mut Vec<HirId>)
        ensures
            ids_of(final(out)@) == ids_of(old(out)@) + hir_ids(v@),
            forall|key: usize| old(self).nodes@.contains_key(key) ==> #[trigger] final(self).nodes@.contains_key(key),
            forall|i: int| 0 <= i < v@.len() ==> final(self).nodes@.contains_key(#[trigger] v@[i].hir_id.0),
            table_written(old(self).nodes@, final(self).nodes@, tbl_params(v@)),
        decreases v,
    {
        let mut i: usize = 0;
        while i < v.len()
            invariant
                i <= v.len(),
                ids_of(out@) == ids_of(old(out)@) + hir_ids(v@.take(i as int)),
                forall|key: usize| old(self).nodes@.contains_key(key) ==> #[trigger] self.nodes@.contains_key(key),
                forall|j: int| 0 <= j < i ==> self.nodes@.contains_key(#[trigger] v@[j].hir_id.0),
                table_written(old(self).nodes@, self.nodes@, tbl_params(v@.take(i as int))),
            decreases v.len() - i,
        {
            proof {
                assert(decreases_to!(*v => v[i as int]));
            }
            let ghost prev = out@;
            let id = self.convert_param(&v[i]);
            out.push(id);
            proof {
                lemma_ids_push(prev, id);
                assert(hir_ids(v@.take(i + 1)) =~= hir_ids(v@.take(i as int)).push(v@[i as int].hir_id.0));
                assert(ids_of(old(out)@) + hir_ids(v@.take(i + 1)) =~= (ids_of(old(out)@) + hir_ids(v@.take(i as int))).push(v@[i as int].hir_id.0));
            }
            proof {
                assert(v@.take(i as int + 1).drop_last() =~= v@.take(i as int));
            }
            i = i + 1;
        }
        assert(v@.take(v.len() as int) =~= v@);
    }

    fn convert_pat_struct_field_list(&mut self, v: &Vec<hir::HirNode<hir::PatternStructField>>, out: &mut Vec<HirId>)
        ensures
            ids_of(final(out)@) == ids_of(old(out)@) + hir_ids(v@),
            forall|key: usize| old(self).nodes@.contains_key(key) ==> #[trigger] final(self).nodes@.contains_key(key),
            forall|i: int| 0 <= i < v@.len() ==> final(self).nodes@.contains_key(#[trigger] v@[i].hir_id.0),
            table_written(old(self).nodes@, final(self).nodes@, tbl_pat_struct_fields(v@)),
        decreases v,
    {
        let mut i: usize = 0;
        while i < v.len()
            invariant
                i <= v.len(),
                ids_of(out@) == ids_of(old(out)@) + hir_ids(v@.take(i as int)),
                forall|key: usize| old(self).nodes@.contains_key(key) ==> #[trigger] self.nodes@.contains_key(key),
                forall|j: int| 0 <= j < i ==> self.nodes@.contains_key(#[trigger] v@[j].hir_id.0),
                table_written(old(self).nodes@, self.nodes@, tbl_pat_struct_fields(v@.take(i as int))),
            decreases v.len() - i,
        {
            proof {
                assert(decreases_to!(*v => v[i as int]));
            }
            let ghost prev = out@;
            let id = self.convert_pat_struct_field(&v[i]);
            out.push(id);
            proof {
                lemma_ids_push(prev, id);
                assert(hir_ids(v@.take(i + 1)) =~= hir_ids(v@.take(i as int)).push(v@[i as int].hir_id.0));
                assert(ids_of(old(out)@) + hir_ids(v@.take(i + 1)) =~= (ids_of(old(out)@) + hir_ids(v@.take(i as int))).push(v@[i as int].hir_id.0));
            }
            proof {
                assert(v@.take(i as int + 1).drop_last() =~= v@.take(i as int));
            }
            i = i + 1;
        }
        assert(v@.take(v.len() as int) =~= v@);
    }

    fn convert_path_list(&mut self, v: &Vec<hir::HirNode<hir::Path>>, out: &mut Vec<HirId>)
        ensures
            ids_of(final(out)@) == ids_of(old(out)@) + hir_ids(v@),
            forall|key: usize| old(self).nodes@.contains_key(key) ==> #[trigger] final(self).nodes@.contains_key(key),
            forall|i: int| 0 <= i < v@.len() ==> final(self).nodes@.contains_key(#[trigger] v@[i].hir_id.0),
            table_written(old(self).nodes@, final(self).nodes@, tbl_paths(v@)),
        decreases v,
    {
        let mut i: usize = 0;
        while i < v.len()
            invariant
                i <= v.len(),
                ids_of(out@) == ids_of(old(out)@) + hir_ids(v@.take(i as int)),
                forall|key: usize| old(self).nodes@.contains_key(key) ==> #[trigger] self.nodes@.contains_key(key),
                forall|j: int| 0 <= j < i ==> self.nodes@.contains_key(#[trigger] v@[j].hir_id.0),
                table_written(old(self).nodes@, self.nodes@, tbl_paths(v@.take(i as int))),
            decreases v.len() - i,
        {
            proof {
                assert(decreases_to!(*v => v[i as int]));
            }
            let ghost prev = out@;
            let id = self.convert_path(&v[i]);
            out.push(id);
            proof {
                lemma_ids_push(prev, id);
                assert(hir_ids(v@.take(i + 1)) =~= hir_ids(v@.take(i as int)).push(v@[i as int].hir_id.0));
                assert(ids_of(old(out)@) + hir_ids(v@.take(i + 1)) =~= (ids_of(old(out)@) + hir_ids(v@.take(i as int))).push(v@[i as int].hir_id.0));
            }
            proof {
                assert(v@.take(i as int + 1).drop_last() =~= v@.take(i as int));
            }
            i = i + 1;
        }
        assert(v@.take(v.len() as int) =~= v@);
    }

    fn convert_pattern_list(&mut self, v: &Vec<hir::HirNode<hir::Pattern>>, out: &mut Vec<HirId>)
        ensures
            ids_of(final(out)@) == ids_of(old(out)@) + hir_ids(v@),
            forall|key: usize| old(self).nodes@.contains_key(key) ==> #[trigger] final(self).nodes@.contains_key(key),
            forall|i: int| 0 <= i < v@.len() ==> final(self).nodes@.contains_key(#[trigger] v@[i].hir_id.0),
            table_written(old(self).nodes@, final(self).nodes@, tbl_patterns(v@)),
        decreases v,
    {
        let mut i: usize = 0;
        while i < v.len()
            invariant
                i <= v.len(),
                ids_of(out@) == ids_of(old(out)@) + hir_ids(v@.take(i as int)),
                forall|key: usize| old(self).nodes@.contains_key(key) ==> #[trigger] self.nodes@.contains_key(key),
                forall|j: int| 0 <= j < i ==> self.nodes@.contains_key(#[trigger] v@[j].hir_id.0),
                table_written(old(self).nodes@, self.nodes@, tbl_patterns(v@.take(i as int))),
            decreases v.len() - i,
        {
            proof {
                assert(decreases_to!(*v => v[i as int]));
            }
            let ghost prev = out@;
            let id = self.convert_pattern(&v[i]);
            out.push(id);
            proof {
                lemma_ids_push(prev, id);
                assert(hir_ids(v@.take(i + 1)) =~= hir_ids(v@.take(i as int)).push(v@[i as int].hir_id.0));
                assert(ids_of(old(out)@) + hir_ids(v@.take(i + 1)) =~= (ids_of(old(out)@) + hir_ids(v@.take(i as int))).push(v@[i as int].hir_id.0));
            }
            proof {
                assert(v@.take(i as int + 1).drop_last() =~= v@.take(i as int));
            }
            i = i + 1;
        }
        assert(v@.take(v.len() as int) =~= v@);
    }

    fn convert_segment_list(&mut self, v: &Vec<hir::HirNode<hir::PathSegment>>, out: &mut Vec<HirId>)
        ensures
            ids_of(final(out)@) == ids_of(old(out)@) + hir_ids(v@),
            forall|key: usize| old(self).nodes@.contains_key(key) ==> #[trigger] final(self).nodes@.contains_key(key),
            forall|i: int| 0 <= i < v@.len() ==> final(self).nodes@.contains_key(#[trigger] v@[i].hir_id.0),
            table_written(old(self).nodes@, final(self).nodes@, tbl_segments(v@)),
        decreases v,
    {
        let mut i: usize = 0;
        while i < v.len()
            invariant
                i <= v.len(),
                ids_of(out@) == ids_of(old(out)@) + hir_ids(v@.take(i as int)),
                forall|key: usize| old(self).nodes@.contains_key(key) ==> #[trigger] self.nodes@.contains_key(key),
                forall|j: int| 0 <= j < i ==> self.nodes@.contains_key(#[trigger] v@[j].hir_id.0),
                table_written(old(self).nodes@, self.nodes@, tbl_segments(v@.take(i as int))),
            decreases v.len() - i,
        {
            proof {
                assert(decreases_to!(*v => v[i as int]));
            }
            let ghost prev = out@;
            let id = self.convert_segment(&v[i]);
            out.push(id);
            proof {
                lemma_ids_push(prev, id);
                assert(hir_ids(v@.take(i + 1)) =~= hir_ids(v@.take(i as int)).push(v@[i as int].hir_id.0));
                assert(ids_of(old(out)@) + hir_ids(v@.take(i + 1)) =~= (ids_of(old(out)@) + hir_ids(v@.take(i as int))).push(v@[i as int].hir_id.0));
            }
            proof {
                assert(v@.take(i as int + 1).drop_last() =~= v@.take(i as int));
            }
            i = i + 1;
        }
        assert(v@.take(v.len() as int) =~= v@);
    }

    fn convert_stmt_list(&mut self, v: &Vec<hir::HirNode<hir::Stmt>>, out: &mut Vec<HirId>)
        ensures
            ids_of(final(out)@) == ids_of(old(out)@) + hir_ids(v@),
            forall|key: usize| old(self).nodes@.contains_key(key) ==> #[trigger] final(self).nodes@.contains_key(key),
            forall|i: int| 0 <= i < v@.len() ==> final(self).nodes@.contains_key(#[trigger] v@[i].hir_id.0),
            table_written(old(self).nodes@, final(self).nodes@, tbl_stmts(v@)),
        decreases v,
    {
        let mut i: usize = 0;
        while i < v.len()
            invariant
                i <= v.len(),
                ids_of(out@) == ids_of(old(out)@) + hir_ids(v@.take(i as int)),
                forall|key: usize| old(self).nodes@.contains_key(key) ==> #[trigger] self.nodes@.contains_key(key),
                forall|j: int| 0 <= j < i ==> self.nodes@.contains_key(#[trigger] v@[j].hir_id.0),
                table_written(old(self).nodes@, self.nodes@, tbl_stmts(v@.take(i as int))),
            decreases v.len() - i,
        {
            proof {
                assert(decreases_to!(*v => v[i as int]));
            }
            let ghost prev = out@;
            let id = self.convert_stmt(&v[i]);
            out.push(id);
            proof {
                lemma_ids_push(prev, id);
                assert(hir_ids(v@.take(i + 1)) =~= hir_ids(v@.take(i as int)).push(v@[i as int].hir_id.0));
                assert(ids_of(old(out)@) + hir_ids(v@.take(i + 1)) =~= (ids_of(old(out)@) + hir_ids(v@.take(i as int))).push(v@[i as int].hir_id.0));
            }
            proof {
                assert(v@.take(i as int + 1).drop_last() =~= v@.take(i as int));
            }
            i = i + 1;
        }
        assert(v@.take(v.len() as int) =~= v@);
    }

    fn convert_struct_expr_field_list(&mut self, v: &Vec<hir::HirNode<hir::StructExprField>>, out: &mut Vec<HirId>)
        ensures
            ids_of(final(out)@) == ids_of(old(out)@) + hir_ids(v@),
            forall|key: usize| old(self).nodes@.contains_key(key) ==> #[trigger] final(self).nodes@.contains_key(key),
            forall|i: int| 0 <= i < v@.len() ==> final(self).nodes@.contains_key(#[trigger] v@[i].hir_id.0),
            table_written(old(self).nodes@, final(self).nodes@, tbl_struct_expr_fields(v@)),
        decreases v,
    {
        let mut i: usize = 0;
        while i < v.len()
            invariant
                i <= v.len(),
                ids_of(out@) == ids_of(old(out)@) + hir_ids(v@.take(i as int)),
                forall|key: usize| old(self).nodes@.contains_key(key) ==> #[trigger] self.nodes@.contains_key(key),
                forall|j: int| 0 <= j < i ==> self.nodes@.contains_key(#[trigger] v@[j].hir_id.0),
                table_written(old(self).nodes@, self.nodes@, tbl_struct_expr_fields(v@.take(i as int))),
            decreases v.len() - i,
        {
            proof {
                assert(decreases_to!(*v => v[i as int]));
            }
            let ghost prev = out@;
            let id = self.convert_struct_expr_field(&v[i]);
            out.push(id);
            proof {
                lemma_ids_push(prev, id);
                assert(hir_ids(v@.take(i + 1)) =~= hir_ids(v@.take(i as int)).push(v@[i as int].hir_id.0));
                assert(ids_of(old(out)@) + hir_ids(v@.take(i + 1)) =~= (ids_of(old(out)@) + hir_ids(v@.take(i as int))).push(v@[i as int].hir_id.0));
            }
            proof {
                assert(v@.take(i as int + 1).drop_last() =~= v@.take(i as int));
            }
            i = i + 1;
        }
        assert(v@.take(v.len() as int) =~= v@);
    }

    fn convert_ty_list(&mut self, v: &Vec<hir::HirNode<hir::Ty>>, out: &mut Vec<HirId>)
        ensures
            ids_of(final(out)@) == ids_of(old(out)@) + hir_ids(v@),
            forall|key: usize| old(self).nodes@.contains_key(key) ==> #[trigger] final(self).nodes@.contains_key(key),
            forall|i: int| 0 <= i < v@.len() ==> final(self).nodes@.contains_key(#[trigger] v@[i].hir_id.0),
            table_written(old(self).nodes@, final(self).nodes@, tbl_tys(v@)),
        decreases v,
    {
        let mut i: usize = 0;
        while i < v.len()
            invariant
                i <= v.len(),
                ids_of(out@) == ids_of(old(out)@) + hir_ids(v@.take(i as int)),
                forall|key: usize| old(self).nodes@.contains_key(key) ==> #[trigger] self.nodes@.contains_key(key),
                forall|j: int| 0 <= j < i ==> self.nodes@.contains_key(#[trigger] v@[j].hir_id.0),
                table_written(old(self).nodes@, self.nodes@, tbl_tys(v@.take(i as int))),
            decreases v.len() - i,
        {
            proof {
                assert(decreases_to!(*v => v[i as int]));
            }
            let ghost prev = out@;
            let id = self.convert_ty(&v[i]);
            out.push(id);
            proof {
                lemma_ids_push(prev, id);
                assert(hir_ids(v@.take(i + 1)) =~= hir_ids(v@.take(i as int)).push(v@[i as int].hir_id.0));
                assert(ids_of(old(out)@) + hir_ids(v@.take(i + 1)) =~= (ids_of(old(out)@) + hir_ids(v@.take(i as int))).push(v@[i as int].hir_id.0));
            }
            proof {
                assert(v@.take(i as int + 1).drop_last() =~= v@.take(i as int));
            }
            i = i + 1;
        }
        assert(v@.take(v.len() as int) =~= v@);
    }

}

} // verus!
