//! The shape of a field's declared type, on which the operations of the
//! field depend.

use crate::field::TypeExpr;
use crate::field::TypeExprView;
use crate::field::TypeNode;
use crate::field::TypeNodeView;
use crate::text::same_text;
use vstd::prelude::*;

verus! {

/// What an optional holds, as far as its getter cares.
#[derive(Clone, Copy, Debug, PartialEq, Eq, Structural)]
pub enum Element {
    /// A scalar: handed out by copy.
    Primitive,
    /// A reference: handed out by copy.
    Reference,
    /// Anything else: handed out by reference.
    Opaque,
}

/// The shape of a declared type.
#[derive(Clone, Copy, Debug, PartialEq, Eq, Structural)]
pub enum Shape {
    /// A number, a boolean, a character or the unit.
    Scalar,
    /// `String`.
    OwnedString,
    /// `Vec<T>` for any `T` but `String`.
    Array,
    /// `Vec<String>`.
    ArrayOfOwnedString,
    /// `Option<T>` for a `T` that has no shape of its own among the optionals.
    Optional(Element),
    /// `Option<Option<T>>`.
    OptionalOfOptional,
    /// `Option<String>`.
    OptionalOwnedString,
    /// `Option<Vec<T>>` for any `T` but `String`.
    OptionalArray,
    /// `Option<Vec<String>>`.
    OptionalArrayOfOwnedString,
    /// `&T` or `&mut T`.
    ReferenceType,
    /// `[T; n]` or a tuple with elements.
    FixedArrayOrTuple,
    /// Any other type.
    Fallback,
}

/// Whether a type name is that of a scalar.
pub open spec fn is_primitive(name: Seq<char>) -> bool {
    name == "i8"@ || name == "i16"@ || name == "i32"@ || name == "i64"@ || name == "i128"@ || name
        == "isize"@ || name == "u8"@ || name == "u16"@ || name == "u32"@ || name == "u64"@ || name
        == "u128"@ || name == "usize"@ || name == "bool"@ || name == "char"@ || name == "unit"@
        || name == "f32"@ || name == "f64"@ || name == "f16"@ || name == "bf16"@ || name
        == "half::f16"@ || name == "half::bf16"@
}

/// The shape of an optional, by what stands between its angle brackets.
pub open spec fn optional_shape(args: Seq<TypeNodeView>) -> Shape
    recommends
        args.len() > 0,
{
    match args[0] {
        TypeNodeView::Path(inner) => if inner == "Vec"@ {
            if args.len() < 2 {
                Shape::Optional(Element::Opaque)
            } else if args[1] == TypeNodeView::Path("String"@) {
                Shape::OptionalArrayOfOwnedString
            } else {
                Shape::OptionalArray
            }
        } else if inner == "String"@ {
            Shape::OptionalOwnedString
        } else if inner == "Option"@ {
            Shape::OptionalOfOptional
        } else if is_primitive(inner) {
            Shape::Optional(Element::Primitive)
        } else {
            Shape::Optional(Element::Opaque)
        },
        TypeNodeView::Reference => Shape::Optional(Element::Reference),
        TypeNodeView::Tuple(n) => if n == 0 {
            Shape::Optional(Element::Primitive)
        } else {
            Shape::Optional(Element::Opaque)
        },
        _ => Shape::Optional(Element::Opaque),
    }
}

/// The shape of a declared type. Every type has one: a `Vec` or an `Option`
/// without a type argument, like any type that is not known, falls back.
pub open spec fn shape_of(ty: TypeExprView) -> Shape {
    match ty.head {
        TypeNodeView::Path(name) => if name == "String"@ {
            Shape::OwnedString
        } else if name == "Vec"@ {
            if ty.args.len() == 0 {
                Shape::Fallback
            } else if ty.args[0] == TypeNodeView::Path("String"@) {
                Shape::ArrayOfOwnedString
            } else {
                Shape::Array
            }
        } else if name == "Option"@ {
            if ty.args.len() == 0 {
                Shape::Fallback
            } else {
                optional_shape(ty.args)
            }
        } else if is_primitive(name) {
            Shape::Scalar
        } else {
            Shape::Fallback
        },
        TypeNodeView::Reference => Shape::ReferenceType,
        TypeNodeView::Array => Shape::FixedArrayOrTuple,
        TypeNodeView::Tuple(n) => if n == 0 {
            Shape::Scalar
        } else {
            Shape::FixedArrayOrTuple
        },
        TypeNodeView::Other => Shape::Fallback,
    }
}

/// Whether a type name is that of a scalar.
pub fn primitive(name: &str) -> (found: bool)
    ensures
        found == is_primitive(name@),
{
    same_text(name, "i8") || same_text(name, "i16") || same_text(name, "i32") || same_text(
        name,
        "i64",
    ) || same_text(name, "i128") || same_text(name, "isize") || same_text(name, "u8")
        || same_text(name, "u16") || same_text(name, "u32") || same_text(name, "u64") || same_text(
        name,
        "u128",
    ) || same_text(name, "usize") || same_text(name, "bool") || same_text(name, "char")
        || same_text(name, "unit") || same_text(name, "f32") || same_text(name, "f64")
        || same_text(name, "f16") || same_text(name, "bf16") || same_text(name, "half::f16")
        || same_text(name, "half::bf16")
}

fn is_path(node: &TypeNode, name: &str) -> (found: bool)
    ensures
        found == (node@ == TypeNodeView::Path(name@)),
{
    match node {
        TypeNode::Path(n) => same_text(n.as_str(), name),
        _ => false,
    }
}

fn classify_optional(args: &Vec<TypeNode>) -> (shape: Shape)
    requires
        args@.len() > 0,
    ensures
        shape == optional_shape(args@.map_values(|n: TypeNode| n@)),
{
    match &args[0] {
        TypeNode::Path(inner) => {
            let inner = inner.as_str();
            if same_text(inner, "Vec") {
                if args.len() < 2 {
                    Shape::Optional(Element::Opaque)
                } else if is_path(&args[1], "String") {
                    Shape::OptionalArrayOfOwnedString
                } else {
                    Shape::OptionalArray
                }
            } else if same_text(inner, "String") {
                Shape::OptionalOwnedString
            } else if same_text(inner, "Option") {
                Shape::OptionalOfOptional
            } else if primitive(inner) {
                Shape::Optional(Element::Primitive)
            } else {
                Shape::Optional(Element::Opaque)
            }
        },
        TypeNode::Reference => Shape::Optional(Element::Reference),
        TypeNode::Tuple(n) => {
            if *n == 0 {
                Shape::Optional(Element::Primitive)
            } else {
                Shape::Optional(Element::Opaque)
            }
        },
        _ => Shape::Optional(Element::Opaque),
    }
}

/// Classifies a declared type.
pub fn classify(ty: &TypeExpr) -> (shape: Shape)
    ensures
        shape == shape_of(ty@),
{
    match &ty.head {
        TypeNode::Path(name) => {
            let name = name.as_str();
            if same_text(name, "String") {
                Shape::OwnedString
            } else if same_text(name, "Vec") {
                if ty.args.len() == 0 {
                    Shape::Fallback
                } else if is_path(&ty.args[0], "String") {
                    Shape::ArrayOfOwnedString
                } else {
                    Shape::Array
                }
            } else if same_text(name, "Option") {
                if ty.args.len() == 0 {
                    Shape::Fallback
                } else {
                    classify_optional(&ty.args)
                }
            } else if primitive(name) {
                Shape::Scalar
            } else {
                Shape::Fallback
            }
        },
        TypeNode::Reference => Shape::ReferenceType,
        TypeNode::Array => Shape::FixedArrayOrTuple,
        TypeNode::Tuple(n) => {
            if *n == 0 {
                Shape::Scalar
            } else {
                Shape::FixedArrayOrTuple
            }
        },
        TypeNode::Other => Shape::Fallback,
    }
}

} // verus!
