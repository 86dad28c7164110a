//! The label renderers: function signatures, constant and type-alias
//! labels, generic-parameter and where-predicate extraction, and macro
//! labels.
//!
//! Every renderer is a total, pure function of its model node: absent
//! pieces are simply omitted, and partially-formed nodes still render.

use vstd::prelude::*;
use vstd::string::StringExecFns;

use crate::node::{
    Child, ChildView, ConstDef, FnDef, FnDefView, GenericParam, GenericParamView, MacroCall,
    MacroCallView, TypeAliasDef, TypeParamListView, TypeParamsOwner, WhereClauseView,
    children_view, params_view, texts_view,
};
use crate::text::{trim_of, trim_str};

verus! {

/// The visibility fragment of a signature, space-terminated if present.
pub open spec fn vis_text(v: FnDefView) -> Seq<char> {
    match v.visibility {
        Some(t) => t + " "@,
        None => Seq::<char>::empty(),
    }
}

/// The `async ` marker of a signature, if present.
pub open spec fn async_text(v: FnDefView) -> Seq<char> {
    if v.is_async {
        "async "@
    } else {
        Seq::<char>::empty()
    }
}

/// The `const ` marker of a signature, if present.
pub open spec fn const_text(v: FnDefView) -> Seq<char> {
    if v.is_const {
        "const "@
    } else {
        Seq::<char>::empty()
    }
}

/// The `unsafe ` marker of a signature, if present.
pub open spec fn unsafe_text(v: FnDefView) -> Seq<char> {
    if v.is_unsafe {
        "unsafe "@
    } else {
        Seq::<char>::empty()
    }
}

/// The calling-convention fragment, space-terminated if present.  Its
/// text already includes the introducing keyword.
pub open spec fn abi_text(v: FnDefView) -> Seq<char> {
    match v.abi {
        Some(t) => t + " "@,
        None => Seq::<char>::empty(),
    }
}

/// The `fn ` introducer and the declared name, if a name is present.
pub open spec fn name_text(v: FnDefView) -> Seq<char> {
    match v.name {
        Some(n) => "fn "@ + n,
        None => Seq::<char>::empty(),
    }
}

/// The verbatim generic-parameter-list fragment, if present.
pub open spec fn generics_text(v: FnDefView) -> Seq<char> {
    match v.type_param_list {
        Some(l) => l.text,
        None => Seq::<char>::empty(),
    }
}

/// The verbatim parameter-list fragment, if present.
pub open spec fn params_text(v: FnDefView) -> Seq<char> {
    match v.param_list {
        Some(p) => p,
        None => Seq::<char>::empty(),
    }
}

/// The return-type fragment, preceded by one space — but only when the
/// annotation actually carries a type: an empty annotation (a bare `->`
/// in an error-recovered tree) is suppressed.
pub open spec fn ret_text(v: FnDefView) -> Seq<char> {
    match v.ret_type {
        Some(rt) => if rt.has_type {
            " "@ + rt.text
        } else {
            Seq::<char>::empty()
        },
        None => Seq::<char>::empty(),
    }
}

/// The where-clause fragment, preceded by a newline, if present.
pub open spec fn where_text(v: FnDefView) -> Seq<char> {
    match v.where_clause {
        Some(w) => "\n"@ + w.text,
        None => Seq::<char>::empty(),
    }
}

/// The full signature of a function declaration: its fragments in the
/// fixed emission order, each omitted when absent.
pub open spec fn signature_of(v: FnDefView) -> Seq<char> {
    vis_text(v) + async_text(v) + const_text(v) + unsafe_text(v) + abi_text(v) + name_text(v)
        + generics_text(v) + params_text(v) + ret_text(v) + where_text(v)
}

/// The empty sequence is a left identity of concatenation.
proof fn lemma_empty_add(a: Seq<char>)
    ensures
        Seq::<char>::empty() + a == a,
{
    assert(Seq::<char>::empty() + a =~= a);
}

/// The empty sequence is a right identity of concatenation.
proof fn lemma_add_empty(a: Seq<char>)
    ensures
        a + Seq::<char>::empty() == a,
{
    assert(a + Seq::<char>::empty() =~= a);
}

/// Concatenation of character sequences is associative.
proof fn lemma_add_assoc(a: Seq<char>, b: Seq<char>, c: Seq<char>)
    ensures
        (a + b) + c == a + (b + c),
{
    assert((a + b) + c =~= a + (b + c));
}

/// Render a function declaration's signature, independent of its body.
///
/// Total over its input: degenerate or partial nodes still render, with
/// absent fragments omitted.
pub fn function_declaration(node: &FnDef) -> (r: String)
    ensures
        r@ == signature_of(node@),
{
    let ghost v = node@;
    let mut buf = String::new();
    if let Some(vis) = &node.visibility {
        buf.append(vis.as_str());
        buf.append(" ");
        proof {
            lemma_empty_add(vis@);
        }
    }
    assert(buf@ == vis_text(v));
    if node.is_async {
        buf.append("async ");
    } else {
        proof {
            lemma_add_empty(vis_text(v));
        }
    }
    assert(buf@ == vis_text(v) + async_text(v));
    let ghost p2 = vis_text(v) + async_text(v);
    if node.is_const {
        buf.append("const ");
    } else {
        proof {
            lemma_add_empty(p2);
        }
    }
    assert(buf@ == p2 + const_text(v));
    let ghost p3 = p2 + const_text(v);
    if node.is_unsafe {
        buf.append("unsafe ");
    } else {
        proof {
            lemma_add_empty(p3);
        }
    }
    assert(buf@ == p3 + unsafe_text(v));
    let ghost p4 = p3 + unsafe_text(v);
    if let Some(abi) = &node.abi {
        // The introducing keyword is part of the fragment's own text.
        buf.append(abi.as_str());
        buf.append(" ");
        proof {
            lemma_add_assoc(p4, abi@, " "@);
        }
    } else {
        proof {
            lemma_add_empty(p4);
        }
    }
    assert(buf@ == p4 + abi_text(v));
    let ghost p5 = p4 + abi_text(v);
    if let Some(name) = &node.name {
        buf.append("fn ");
        buf.append(name.as_str());
        proof {
            lemma_add_assoc(p5, "fn "@, name@);
        }
    } else {
        proof {
            lemma_add_empty(p5);
        }
    }
    assert(buf@ == p5 + name_text(v));
    let ghost p6 = p5 + name_text(v);
    if let Some(type_params) = &node.type_param_list {
        buf.append(type_params.text.as_str());
    } else {
        proof {
            lemma_add_empty(p6);
        }
    }
    assert(buf@ == p6 + generics_text(v));
    let ghost p7 = p6 + generics_text(v);
    if let Some(param_list) = &node.param_list {
        buf.append(param_list.as_str());
    } else {
        proof {
            lemma_add_empty(p7);
        }
    }
    assert(buf@ == p7 + params_text(v));
    let ghost p8 = p7 + params_text(v);
    match &node.ret_type {
        Some(ret_type) => {
            if ret_type.has_type {
                buf.append(" ");
                buf.append(ret_type.text.as_str());
                proof {
                    lemma_add_assoc(p8, " "@, ret_type.text@);
                }
            } else {
                proof {
                    lemma_add_empty(p8);
                }
            }
        },
        None => {
            proof {
                lemma_add_empty(p8);
            }
        },
    }
    assert(buf@ == p8 + ret_text(v));
    let ghost p9 = p8 + ret_text(v);
    if let Some(where_clause) = &node.where_clause {
        buf.append("\n");
        buf.append(where_clause.text.as_str());
        proof {
            lemma_add_assoc(p9, "\n"@, where_clause.text@);
        }
    } else {
        proof {
            lemma_add_empty(p9);
        }
    }
    assert(buf@ == p9 + where_text(v));
    assert(buf@ == signature_of(v));
    buf
}

/// What one direct child contributes to a reconstructed label: its text
/// when significant, nothing when it is a comment or an attribute.
pub open spec fn child_text(c: ChildView) -> Seq<char> {
    match c {
        ChildView::Comment(_) => Seq::<char>::empty(),
        ChildView::Attribute(_) => Seq::<char>::empty(),
        ChildView::Significant(t) => t,
    }
}

/// The concatenated text of the significant children, in source order.
pub open spec fn significant_text(cs: Seq<ChildView>) -> Seq<char>
    decreases cs.len(),
{
    if cs.len() == 0 {
        Seq::<char>::empty()
    } else {
        significant_text(cs.drop_last()) + child_text(cs.last())
    }
}

/// A reconstructed declaration label: the significant children's text,
/// concatenated in source order and trimmed at both ends.
pub open spec fn label_of(cs: Seq<ChildView>) -> Seq<char> {
    trim_of(significant_text(cs))
}

/// Concatenate the significant children's text and trim the result.
fn significant_label(children: &Vec<Child>) -> (r: String)
    ensures
        r@ == label_of(children_view(children@)),
{
    let ghost cs = children_view(children@);
    let mut buf = String::new();
    let n = children.len();
    for i in 0..n
        invariant
            n == children.len(),
            cs == children_view(children@),
            buf@ == significant_text(cs.take(i as int)),
    {
        match &children[i] {
            Child::Significant(t) => buf.append(t.as_str()),
            Child::Comment(_) => (),
            Child::Attribute(_) => (),
        }
        proof {
            assert(cs.take(i as int + 1).drop_last() =~= cs.take(i as int));
            assert(cs.take(i as int + 1).last() == cs[i as int]);
            assert(buf@ =~= significant_text(cs.take(i as int + 1)));
        }
    }
    proof {
        assert(cs.take(n as int) =~= cs);
    }
    trim_str(buf.as_str())
}

/// Render a constant declaration's label: its declaration text with
/// comments and attributes (direct children only) removed, trimmed.
pub fn const_label(node: &ConstDef) -> (r: String)
    ensures
        r@ == label_of(node@),
{
    significant_label(&node.children)
}

/// Render a type-alias declaration's label: its declaration text with
/// comments and attributes (direct children only) removed, trimmed.
pub fn type_label(node: &TypeAliasDef) -> (r: String)
    ensures
        r@ == label_of(node@),
{
    significant_label(&node.children)
}

/// Pushing a string onto a sequence extends the element-wise views.
proof fn lemma_texts_view_push(ts: Seq<String>, x: String)
    ensures
        texts_view(ts.push(x)) == texts_view(ts).push(x@),
{
    assert(texts_view(ts.push(x)) =~= texts_view(ts).push(x@));
}

/// Pushing onto a concatenation pushes onto its right-hand part.
proof fn lemma_add_push(a: Seq<Seq<char>>, b: Seq<Seq<char>>, x: Seq<char>)
    ensures
        (a + b).push(x) == a + b.push(x),
{
    assert((a + b).push(x) =~= a + b.push(x));
}

/// The lifetime-parameter fragments of `ps`, in source order.
pub open spec fn lifetime_texts(ps: Seq<GenericParamView>) -> Seq<Seq<char>>
    decreases ps.len(),
{
    if ps.len() == 0 {
        Seq::<Seq<char>>::empty()
    } else {
        let rest = lifetime_texts(ps.drop_last());
        match ps.last() {
            GenericParamView::Lifetime(t) => rest.push(t),
            GenericParamView::TypeParam(_) => rest,
        }
    }
}

/// The type-parameter fragments of `ps`, in source order.
pub open spec fn type_param_texts(ps: Seq<GenericParamView>) -> Seq<Seq<char>>
    decreases ps.len(),
{
    if ps.len() == 0 {
        Seq::<Seq<char>>::empty()
    } else {
        let rest = type_param_texts(ps.drop_last());
        match ps.last() {
            GenericParamView::Lifetime(_) => rest,
            GenericParamView::TypeParam(t) => rest.push(t),
        }
    }
}

/// Every generic-parameter fragment of an optional list: all lifetime
/// parameters first, then all type parameters, each group in source
/// order — a fixed policy, independent of how the two kinds interleave
/// in the source.  An absent list yields the empty sequence.
pub open spec fn generic_params_of(l: Option<TypeParamListView>) -> Seq<Seq<char>> {
    match l {
        Some(lv) => lifetime_texts(lv.params) + type_param_texts(lv.params),
        None => Seq::<Seq<char>>::empty(),
    }
}

/// Extract the generic-parameter fragments of a node: lifetimes before
/// types, each group in source order, verbatim bounds and defaults
/// included.  An absent list yields an empty vector.
pub fn generic_parameters<N: TypeParamsOwner>(node: &N) -> (r: Vec<String>)
    ensures
        texts_view(r@) == generic_params_of(node.spec_type_param_list()),
{
    let mut res: Vec<String> = Vec::new();
    match node.type_param_list() {
        Some(list) => {
            let ghost ps = params_view(list.params@);
            let n = list.params.len();
            proof {
                assert(texts_view(res@) =~= lifetime_texts(ps.take(0)));
            }
            for i in 0..n
                invariant
                    n == list.params.len(),
                    ps == params_view(list.params@),
                    texts_view(res@) == lifetime_texts(ps.take(i as int)),
            {
                proof {
                    assert(ps.take(i as int + 1).drop_last() =~= ps.take(i as int));
                    assert(ps.take(i as int + 1).last() == ps[i as int]);
                }
                match &list.params[i] {
                    GenericParam::Lifetime(t) => {
                        proof {
                            lemma_texts_view_push(res@, *t);
                        }
                        res.push(t.clone());
                    },
                    GenericParam::TypeParam(_) => (),
                }
            }
            proof {
                assert(ps.take(n as int) =~= ps);
                assert(texts_view(res@) =~= lifetime_texts(ps) + type_param_texts(ps.take(0)));
            }
            for i in 0..n
                invariant
                    n == list.params.len(),
                    ps == params_view(list.params@),
                    texts_view(res@) == lifetime_texts(ps)
                        + type_param_texts(ps.take(i as int)),
            {
                proof {
                    assert(ps.take(i as int + 1).drop_last() =~= ps.take(i as int));
                    assert(ps.take(i as int + 1).last() == ps[i as int]);
                }
                match &list.params[i] {
                    GenericParam::Lifetime(_) => (),
                    GenericParam::TypeParam(t) => {
                        proof {
                            lemma_texts_view_push(res@, *t);
                            lemma_add_push(
                                lifetime_texts(ps),
                                type_param_texts(ps.take(i as int)),
                                t@,
                            );
                        }
                        res.push(t.clone());
                    },
                }
            }
            proof {
                assert(ps.take(n as int) =~= ps);
            }
        }
        None => {
            proof {
                assert(texts_view(res@) =~= Seq::<Seq<char>>::empty());
            }
        },
    }
    res
}

/// The predicate fragments of an optional where-clause, in source
/// order.  An absent clause yields the empty sequence.
pub open spec fn where_predicates_of(w: Option<WhereClauseView>) -> Seq<Seq<char>> {
    match w {
        Some(wv) => wv.predicates,
        None => Seq::<Seq<char>>::empty(),
    }
}

/// Extract the where-clause predicate fragments of a node, one per
/// predicate, in source order, verbatim.  An absent clause yields an
/// empty vector.
pub fn where_predicates<N: TypeParamsOwner>(node: &N) -> (r: Vec<String>)
    ensures
        texts_view(r@) == where_predicates_of(node.spec_where_clause()),
{
    let mut res: Vec<String> = Vec::new();
    match node.where_clause() {
        Some(clause) => {
            let n = clause.predicates.len();
            proof {
                assert(texts_view(res@) =~= texts_view(clause.predicates@).take(0));
            }
            for i in 0..n
                invariant
                    n == clause.predicates.len(),
                    texts_view(res@) == texts_view(clause.predicates@).take(i as int),
            {
                proof {
                    lemma_texts_view_push(res@, clause.predicates@[i as int]);
                }
                res.push(clause.predicates[i].clone());
                proof {
                    assert(texts_view(res@)
                        =~= texts_view(clause.predicates@).take(i as int + 1));
                }
            }
            proof {
                assert(texts_view(clause.predicates@).take(n as int)
                    =~= texts_view(clause.predicates@));
            }
        }
        None => {
            proof {
                assert(texts_view(res@) =~= Seq::<Seq<char>>::empty());
            }
        },
    }
    res
}

/// A macro declaration's label: `macro_rules! ` and the name (empty if
/// the name is missing), prefixed by the line `#[macro_export]` exactly
/// when the node carries the atom attribute `macro_export`.
pub open spec fn macro_label_of(v: MacroCallView) -> Seq<char> {
    (if v.atom_attrs.contains("macro_export"@) {
        "#[macro_export]\n"@
    } else {
        Seq::<char>::empty()
    }) + "macro_rules! "@ + (match v.name {
        Some(n) => n,
        None => Seq::<char>::empty(),
    })
}

/// Render a macro declaration's label.  A missing name renders as an
/// empty name; the renderer does not fail.
pub fn macro_label(node: &MacroCall) -> (r: String)
    ensures
        r@ == macro_label_of(node@),
{
    let ghost v = node@;
    let mut buf = String::new();
    if node.has_atom_attr("macro_export") {
        buf.append("#[macro_export]\n");
    }
    buf.append("macro_rules! ");
    if let Some(name) = &node.name {
        buf.append(name.as_str());
    }
    assert(buf@ =~= macro_label_of(v));
    buf
}

/// Rendering is a pure function of the node: two signature renderings
/// of the same function-declaration view are the same text.
pub proof fn lemma_function_declaration_deterministic(
    v: FnDefView,
    r1: Seq<char>,
    r2: Seq<char>,
)
    requires
        r1 == signature_of(v),
        r2 == signature_of(v),
    ensures
        r1 == r2,
{
}

/// Rendering is a pure function of the node: two label reconstructions
/// from the same children are the same text.
pub proof fn lemma_label_deterministic(cs: Seq<ChildView>, r1: Seq<char>, r2: Seq<char>)
    requires
        r1 == label_of(cs),
        r2 == label_of(cs),
    ensures
        r1 == r2,
{
}

/// Rendering is a pure function of the node: two macro-label renderings
/// of the same view are the same text.
pub proof fn lemma_macro_label_deterministic(v: MacroCallView, r1: Seq<char>, r2: Seq<char>)
    requires
        r1 == macro_label_of(v),
        r2 == macro_label_of(v),
    ensures
        r1 == r2,
{
}

/// Modifier ordering: with every modifier present, the signature emits
/// them in the fixed order visibility, `async`, `const`, `unsafe`,
/// calling convention, name — followed by the generic parameters,
/// parameter list, return type and where-clause.
pub proof fn lemma_modifier_order(v: FnDefView)
    requires
        v.visibility is Some,
        v.is_async,
        v.is_const,
        v.is_unsafe,
        v.abi is Some,
        v.name is Some,
    ensures
        signature_of(v) == v.visibility->0 + " "@ + "async "@ + "const "@ + "unsafe "@
            + v.abi->0 + " "@ + "fn "@ + v.name->0 + generics_text(v) + params_text(v)
            + ret_text(v) + where_text(v),
{
    assert(signature_of(v) =~= v.visibility->0 + " "@ + "async "@ + "const "@ + "unsafe "@
        + v.abi->0 + " "@ + "fn "@ + v.name->0 + generics_text(v) + params_text(v)
        + ret_text(v) + where_text(v));
}

/// Return-type suppression: an annotation whose type slot is empty
/// contributes nothing — the signature equals that of the same node
/// with no return-type annotation at all.
pub proof fn lemma_empty_ret_type_suppressed(v: FnDefView)
    requires
        v.ret_type matches Some(rt) && !rt.has_type,
    ensures
        signature_of(v) == signature_of(FnDefView { ret_type: None, ..v }),
{
}

/// Missing-name tolerance: a declaration without a name still renders,
/// and its signature carries every other present fragment, with no
/// `fn` introducer.
pub proof fn lemma_missing_name(v: FnDefView)
    requires
        v.name is None,
    ensures
        signature_of(v) == vis_text(v) + async_text(v) + const_text(v) + unsafe_text(v)
            + abi_text(v) + generics_text(v) + params_text(v) + ret_text(v) + where_text(v),
{
    assert(signature_of(v) =~= vis_text(v) + async_text(v) + const_text(v) + unsafe_text(v)
        + abi_text(v) + generics_text(v) + params_text(v) + ret_text(v) + where_text(v));
}

} // verus!
