//! A field as the generator sees it: its identity, the outline of its
//! declared type, and its directives.

use crate::directive::directive_views;
use crate::directive::optional_text;
use crate::directive::Directive;
use crate::directive::DirectiveView;
use vstd::prelude::*;

verus! {

/// One level of a type expression.
#[derive(Clone, Debug, PartialEq, Eq)]
pub enum TypeNode {
    /// A path, given by the identifier of its last segment.
    Path(String),
    /// `&T` or `&mut T`.
    Reference,
    /// `[T; n]`.
    Array,
    /// A tuple, given by the number of its elements: `()` has none.
    Tuple(usize),
    /// Anything else.
    Other,
}

/// The outline of a declared type: the type itself, then its first type
/// argument, then the first type argument of that, and so on for as long as
/// there is one. `Option<Vec<String>>` has the head `Option` and the
/// arguments `Vec`, `String`.
#[derive(Clone, Debug, PartialEq, Eq)]
pub struct TypeExpr {
    pub head: TypeNode,
    pub args: Vec<TypeNode>,
}

/// A member of a structure.
#[derive(Clone, Debug, PartialEq, Eq)]
pub struct Field {
    /// The name of a named field; `None` for a positional one.
    pub ident: Option<String>,
    pub ty: TypeExpr,
    /// The directives of the field's configuration, in the order written.
    pub directives: Vec<Directive>,
}

pub enum TypeNodeView {
    Path(Seq<char>),
    Reference,
    Array,
    Tuple(nat),
    Other,
}

pub struct TypeExprView {
    pub head: TypeNodeView,
    pub args: Seq<TypeNodeView>,
}

pub struct FieldView {
    pub ident: Option<Seq<char>>,
    pub ty: TypeExprView,
    pub directives: Seq<DirectiveView>,
}

impl View for TypeNode {
    type V = TypeNodeView;

    open spec fn view(&self) -> TypeNodeView {
        match self {
            TypeNode::Path(name) => TypeNodeView::Path(name@),
            TypeNode::Reference => TypeNodeView::Reference,
            TypeNode::Array => TypeNodeView::Array,
            TypeNode::Tuple(n) => TypeNodeView::Tuple(*n as nat),
            TypeNode::Other => TypeNodeView::Other,
        }
    }
}

impl View for TypeExpr {
    type V = TypeExprView;

    open spec fn view(&self) -> TypeExprView {
        TypeExprView { head: self.head@, args: self.args@.map_values(|n: TypeNode| n@) }
    }
}

impl View for Field {
    type V = FieldView;

    open spec fn view(&self) -> FieldView {
        FieldView {
            ident: optional_text(self.ident),
            ty: self.ty@,
            directives: directive_views(self.directives@),
        }
    }
}

/// The fields of a structure, each by its view.
pub open spec fn field_views(fields: Seq<Field>) -> Seq<FieldView> {
    fields.map_values(|f: Field| f@)
}

} // verus!
