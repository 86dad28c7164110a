//! Plain-value models of the syntax-tree fragments the renderers read.
//!
//! Each model records the answers to the capability queries the tree
//! collaborator offers (visibility? async marker? name? where-clause?).
//! A model is built once per rendering call from a borrowed tree node
//! and owns plain strings only; it never points back into the tree.

use vstd::prelude::*;

verus! {

/// One direct child of a declaration, classified by the tree's token kind.
#[derive(Clone)]
pub enum Child {
    /// A comment token: trivia, excluded from reconstructed labels.
    Comment(String),
    /// An attribute node: trivia, excluded from reconstructed labels.
    Attribute(String),
    /// Any other token or sub-node; its text contributes to the label.
    Significant(String),
}

/// Spec-level image of a [`Child`].
pub ghost enum ChildView {
    Comment(Seq<char>),
    Attribute(Seq<char>),
    Significant(Seq<char>),
}

impl View for Child {
    type V = ChildView;

    open spec fn view(&self) -> ChildView {
        match self {
            Child::Comment(t) => ChildView::Comment(t@),
            Child::Attribute(t) => ChildView::Attribute(t@),
            Child::Significant(t) => ChildView::Significant(t@),
        }
    }
}

/// The views of a sequence of children, element for element.
pub open spec fn children_view(cs: Seq<Child>) -> Seq<ChildView> {
    cs.map_values(|c: Child| c@)
}

/// The views of a sequence of strings, element for element.
pub open spec fn texts_view(ts: Seq<String>) -> Seq<Seq<char>> {
    ts.map_values(|t: String| t@)
}

/// The view of an optional string.
pub open spec fn opt_text_view(o: Option<String>) -> Option<Seq<char>> {
    match o {
        Some(t) => Some(t@),
        None => None,
    }
}

/// One parameter of a generic-parameter list, in source order.
#[derive(Clone)]
pub enum GenericParam {
    /// A lifetime parameter, e.g. `'a: 'b`.
    Lifetime(String),
    /// A type parameter, e.g. `T: Clone = ()`.
    TypeParam(String),
}

/// Spec-level image of a [`GenericParam`].
pub ghost enum GenericParamView {
    Lifetime(Seq<char>),
    TypeParam(Seq<char>),
}

impl View for GenericParam {
    type V = GenericParamView;

    open spec fn view(&self) -> GenericParamView {
        match self {
            GenericParam::Lifetime(t) => GenericParamView::Lifetime(t@),
            GenericParam::TypeParam(t) => GenericParamView::TypeParam(t@),
        }
    }
}

/// The views of a sequence of generic parameters, element for element.
pub open spec fn params_view(ps: Seq<GenericParam>) -> Seq<GenericParamView> {
    ps.map_values(|p: GenericParam| p@)
}

/// A generic-parameter list: its verbatim text (delimiters included) and
/// its parameters, one fragment each, in source order.
#[derive(Clone)]
pub struct TypeParamList {
    pub text: String,
    pub params: Vec<GenericParam>,
}

/// Spec-level image of a [`TypeParamList`].
pub ghost struct TypeParamListView {
    pub text: Seq<char>,
    pub params: Seq<GenericParamView>,
}

impl View for TypeParamList {
    type V = TypeParamListView;

    open spec fn view(&self) -> TypeParamListView {
        TypeParamListView { text: self.text@, params: params_view(self.params@) }
    }
}

/// A where-clause: its verbatim text and its predicates, one fragment
/// each, in source order.
#[derive(Clone)]
pub struct WhereClause {
    pub text: String,
    pub predicates: Vec<String>,
}

/// Spec-level image of a [`WhereClause`].
pub ghost struct WhereClauseView {
    pub text: Seq<char>,
    pub predicates: Seq<Seq<char>>,
}

impl View for WhereClause {
    type V = WhereClauseView;

    open spec fn view(&self) -> WhereClauseView {
        WhereClauseView { text: self.text@, predicates: texts_view(self.predicates@) }
    }
}

/// A return-type annotation.  The annotation node can exist while its
/// type slot is empty (error-recovered trees); `has_type` records
/// whether a type is actually present.
#[derive(Clone)]
pub struct RetType {
    pub text: String,
    pub has_type: bool,
}

/// Spec-level image of a [`RetType`].
pub ghost struct RetTypeView {
    pub text: Seq<char>,
    pub has_type: bool,
}

impl View for RetType {
    type V = RetTypeView;

    open spec fn view(&self) -> RetTypeView {
        RetTypeView { text: self.text@, has_type: self.has_type }
    }
}

/// A function declaration, as the capability queries answer for it.
/// Every piece is optional: error-recovered trees may miss any of them.
#[derive(Clone)]
pub struct FnDef {
    /// Visibility fragment, e.g. `pub(crate)`.
    pub visibility: Option<String>,
    /// Whether an `async` marker token is present.
    pub is_async: bool,
    /// Whether a `const` marker token is present.
    pub is_const: bool,
    /// Whether an `unsafe` marker token is present.
    pub is_unsafe: bool,
    /// Calling-convention fragment, introducing keyword included,
    /// e.g. `extern "C"`.
    pub abi: Option<String>,
    /// The declared name.
    pub name: Option<String>,
    /// The generic-parameter list.
    pub type_param_list: Option<TypeParamList>,
    /// Verbatim parameter-list fragment, delimiters included.
    pub param_list: Option<String>,
    /// The return-type annotation.
    pub ret_type: Option<RetType>,
    /// The where-clause.
    pub where_clause: Option<WhereClause>,
}

/// Spec-level image of a [`FnDef`].
pub ghost struct FnDefView {
    pub visibility: Option<Seq<char>>,
    pub is_async: bool,
    pub is_const: bool,
    pub is_unsafe: bool,
    pub abi: Option<Seq<char>>,
    pub name: Option<Seq<char>>,
    pub type_param_list: Option<TypeParamListView>,
    pub param_list: Option<Seq<char>>,
    pub ret_type: Option<RetTypeView>,
    pub where_clause: Option<WhereClauseView>,
}

impl View for FnDef {
    type V = FnDefView;

    open spec fn view(&self) -> FnDefView {
        FnDefView {
            visibility: opt_text_view(self.visibility),
            is_async: self.is_async,
            is_const: self.is_const,
            is_unsafe: self.is_unsafe,
            abi: opt_text_view(self.abi),
            name: opt_text_view(self.name),
            type_param_list: match self.type_param_list {
                Some(l) => Some(l@),
                None => None,
            },
            param_list: opt_text_view(self.param_list),
            ret_type: match self.ret_type {
                Some(r) => Some(r@),
                None => None,
            },
            where_clause: match self.where_clause {
                Some(w) => Some(w@),
                None => None,
            },
        }
    }
}

/// A constant declaration: its direct children, in source order.
#[derive(Clone)]
pub struct ConstDef {
    pub children: Vec<Child>,
}

impl View for ConstDef {
    type V = Seq<ChildView>;

    open spec fn view(&self) -> Seq<ChildView> {
        children_view(self.children@)
    }
}

/// A type-alias declaration: its direct children, in source order.
#[derive(Clone)]
pub struct TypeAliasDef {
    pub children: Vec<Child>,
}

impl View for TypeAliasDef {
    type V = Seq<ChildView>;

    open spec fn view(&self) -> Seq<ChildView> {
        children_view(self.children@)
    }
}

/// A macro declaration: its name and the identifiers of the atom
/// attributes it carries (an atom attribute is `#[ident]`, with no
/// arguments).
#[derive(Clone)]
pub struct MacroCall {
    pub name: Option<String>,
    pub atom_attrs: Vec<String>,
}

/// Spec-level image of a [`MacroCall`].
pub ghost struct MacroCallView {
    pub name: Option<Seq<char>>,
    pub atom_attrs: Seq<Seq<char>>,
}

impl View for MacroCall {
    type V = MacroCallView;

    open spec fn view(&self) -> MacroCallView {
        MacroCallView {
            name: opt_text_view(self.name),
            atom_attrs: texts_view(self.atom_attrs@),
        }
    }
}

impl MacroCall {
    /// Whether the node carries the atom attribute named `name`.
    pub fn has_atom_attr(&self, name: &str) -> (r: bool)
        ensures
            r == self@.atom_attrs.contains(name@),
    {
        let needle = name.to_owned();
        let mut i: usize = 0;
        while i < self.atom_attrs.len()
            invariant
                needle@ == name@,
                0 <= i <= self.atom_attrs.len(),
                forall|j: int| 0 <= j < i ==> texts_view(self.atom_attrs@)[j] != name@,
            decreases self.atom_attrs.len() - i,
        {
            if self.atom_attrs[i] == needle {
                assert(self@.atom_attrs[i as int] == name@);
                return true;
            }
            i = i + 1;
        }
        assert(forall|j: int|
            0 <= j < self@.atom_attrs.len() ==> #[trigger] self@.atom_attrs[j] != name@);
        false
    }
}

/// A node that may carry a generic-parameter list and a where-clause.
///
/// The renderers' extractors are generic over this capability, as the
/// declarations that own generics all expose it the same way.
pub trait TypeParamsOwner {
    /// The generic-parameter list the node carries, if any.
    spec fn spec_type_param_list(&self) -> Option<TypeParamListView>;

    /// The where-clause the node carries, if any.
    spec fn spec_where_clause(&self) -> Option<WhereClauseView>;

    fn type_param_list(&self) -> (r: Option<&TypeParamList>)
        ensures
            match (r, self.spec_type_param_list()) {
                (Some(l), Some(lv)) => l@ == lv,
                (None, None) => true,
                _ => false,
            },
    ;

    fn where_clause(&self) -> (r: Option<&WhereClause>)
        ensures
            match (r, self.spec_where_clause()) {
                (Some(w), Some(wv)) => w@ == wv,
                (None, None) => true,
                _ => false,
            },
    ;
}

impl TypeParamsOwner for FnDef {
    open spec fn spec_type_param_list(&self) -> Option<TypeParamListView> {
        self@.type_param_list
    }

    open spec fn spec_where_clause(&self) -> Option<WhereClauseView> {
        self@.where_clause
    }

    fn type_param_list(&self) -> (r: Option<&TypeParamList>) {
        self.type_param_list.as_ref()
    }

    fn where_clause(&self) -> (r: Option<&WhereClause>) {
        self.where_clause.as_ref()
    }
}

} // verus!
