//! The operations that can be generated for a field: their forms, their
//! signatures, and what their bodies do.

use crate::rules::InlineMode;
use crate::visibility::VisibilityToken;
use crate::visibility::VisibilityTokenView;
use vstd::prelude::*;

verus! {

/// What an operation deals in, by the shape of the field.
#[derive(Clone, Copy, Debug, PartialEq, Eq, Structural)]
pub enum Tys {
    /// The declared type, by value.
    Basic,
    /// The declared type, by reference.
    Ref,
    /// An owned string, seen as a string slice.
    Text,
    /// An array, seen as a slice.
    List,
    /// An array that is appended to.
    ListExtend,
    /// An array of owned strings, given as string slices.
    TextList,
    /// An array of owned strings, given as owned strings.
    TextListOwned,
    /// An array of owned strings that is appended to, given string slices.
    TextListExtend,
    /// An array of owned strings that is appended to, given owned strings.
    TextListExtendOwned,
    /// An optional, given or handed out by its content.
    Optional,
    /// An optional of an optional, given as a whole.
    Nested,
    /// An optional, handed out as a reference to its content.
    OptionalRef,
    /// An optional array, seen as a slice.
    OptionalList,
    /// An optional owned string, seen as a string slice.
    OptionalText,
    /// An optional array of owned strings, given as string slices.
    OptionalTextList,
    /// An optional array of owned strings, given as owned strings.
    OptionalTextListOwned,
}

/// The form of an operation.
#[derive(Clone, Copy, Debug, PartialEq, Eq, Structural)]
pub enum Fns {
    Setter(Tys),
    Getter(Tys),
    /// Consumes the structure and yields the field.
    Into,
    /// Yields the field and leaves it reset.
    Take,
}

/// A type that the generator does not look into, by its place in the
/// declared type.
#[derive(Clone, Copy, Debug, PartialEq, Eq, Structural)]
pub enum TypeRef {
    /// The declared type itself.
    Declared,
    /// Its first type argument.
    Argument,
    /// The first type argument of its first type argument.
    InnerArgument,
}

/// The type of a parameter or of a result.
#[derive(Clone, Copy, Debug, PartialEq, Eq, Structural)]
pub enum TypeForm {
    /// `T`.
    Plain(TypeRef),
    /// `&T`.
    Borrowed(TypeRef),
    /// `&str`.
    Str,
    /// `&[T]`.
    Slice(TypeRef),
    /// `&[&str]`.
    StrSlice,
    /// `&[String]`.
    StringSlice,
    /// `Option<T>`.
    Optional(TypeRef),
    /// `Option<&T>`.
    OptionalBorrowed(TypeRef),
    /// `Option<&str>`.
    OptionalStr,
    /// `Option<&[T]>`.
    OptionalSlice(TypeRef),
    /// `Self`.
    Own,
}

/// How an operation takes the structure.
#[derive(Clone, Copy, Debug, PartialEq, Eq, Structural)]
pub enum Receiver {
    /// `self`: the structure is consumed.
    Owned,
    /// `&self`.
    Shared,
    /// `&mut self`.
    Exclusive,
}

/// The signature of an operation.
#[derive(Clone, Copy, Debug, PartialEq, Eq, Structural)]
pub struct Signature {
    pub receiver: Receiver,
    pub parameter: Option<TypeForm>,
    pub result: TypeForm,
}

/// On what input the body of an operation acts.
#[derive(Clone, Copy, Debug, PartialEq, Eq, Structural)]
pub enum Guard {
    /// On every input.
    Always,
    /// On a slice that is not empty.
    NonEmpty,
    /// On an optional that is present.
    Present,
}

/// What the body of an operation does where it acts.
#[derive(Clone, Copy, Debug, PartialEq, Eq, Structural)]
pub enum Action {
    /// The field becomes the input.
    Assign,
    /// The field becomes the present optional of the input.
    Wrap,
    /// The input is appended to the field.
    Append,
    /// The field is handed out and stays.
    Read,
    /// The field is handed out and the structure is gone.
    MoveOut,
    /// The field is handed out and reset to its default.
    Reset,
}

/// The body of an operation. Where the guard does not hold the body leaves
/// the field as it was.
#[derive(Clone, Copy, Debug, PartialEq, Eq, Structural)]
pub struct Body {
    pub guard: Guard,
    pub action: Action,
}

/// One generated operation.
#[derive(Clone, Debug, PartialEq, Eq)]
pub struct Operation {
    /// The place of the field in the structure.
    pub field: usize,
    pub form: Fns,
    pub name: String,
    pub visibility: VisibilityToken,
    pub inline: InlineMode,
}

pub struct OperationView {
    pub field: nat,
    pub form: Fns,
    pub name: Seq<char>,
    pub visibility: VisibilityTokenView,
    pub inline: InlineMode,
}

impl View for Operation {
    type V = OperationView;

    open spec fn view(&self) -> OperationView {
        OperationView {
            field: self.field as nat,
            form: self.form,
            name: self.name@,
            visibility: self.visibility@,
            inline: self.inline,
        }
    }
}

/// Operations, each by its view.
pub open spec fn operation_views(operations: Seq<Operation>) -> Seq<OperationView> {
    operations.map_values(|o: Operation| o@)
}

/// The parameter of a setter.
pub open spec fn setter_parameter(ty: Tys) -> Option<TypeForm> {
    match ty {
        Tys::Basic => Some(TypeForm::Plain(TypeRef::Declared)),
        Tys::Text => Some(TypeForm::Str),
        Tys::List => Some(TypeForm::Slice(TypeRef::Argument)),
        Tys::ListExtend => Some(TypeForm::Slice(TypeRef::Argument)),
        Tys::TextList => Some(TypeForm::StrSlice),
        Tys::TextListOwned => Some(TypeForm::StringSlice),
        Tys::TextListExtend => Some(TypeForm::StrSlice),
        Tys::TextListExtendOwned => Some(TypeForm::StringSlice),
        Tys::Optional => Some(TypeForm::Plain(TypeRef::Argument)),
        Tys::Nested => Some(TypeForm::Plain(TypeRef::Declared)),
        Tys::OptionalList => Some(TypeForm::Slice(TypeRef::InnerArgument)),
        Tys::OptionalText => Some(TypeForm::Str),
        Tys::OptionalTextList => Some(TypeForm::StrSlice),
        Tys::OptionalTextListOwned => Some(TypeForm::StringSlice),
        Tys::Ref => None,
        Tys::OptionalRef => None,
    }
}

/// The body of a setter. An array is replaced or appended to only by a
/// slice that is not empty; an optional of an optional only by a present
/// one; an optional takes its content and is present from then on.
pub open spec fn setter_body(ty: Tys) -> Option<Body> {
    match ty {
        Tys::Basic => Some(Body { guard: Guard::Always, action: Action::Assign }),
        Tys::Text => Some(Body { guard: Guard::Always, action: Action::Assign }),
        Tys::List => Some(Body { guard: Guard::NonEmpty, action: Action::Assign }),
        Tys::ListExtend => Some(Body { guard: Guard::NonEmpty, action: Action::Append }),
        Tys::TextList => Some(Body { guard: Guard::NonEmpty, action: Action::Assign }),
        Tys::TextListOwned => Some(Body { guard: Guard::NonEmpty, action: Action::Assign }),
        Tys::TextListExtend => Some(Body { guard: Guard::NonEmpty, action: Action::Append }),
        Tys::TextListExtendOwned => Some(Body { guard: Guard::NonEmpty, action: Action::Append }),
        Tys::Optional => Some(Body { guard: Guard::Always, action: Action::Wrap }),
        Tys::Nested => Some(Body { guard: Guard::Present, action: Action::Assign }),
        Tys::OptionalList => Some(Body { guard: Guard::NonEmpty, action: Action::Wrap }),
        Tys::OptionalText => Some(Body { guard: Guard::Always, action: Action::Wrap }),
        Tys::OptionalTextList => Some(Body { guard: Guard::NonEmpty, action: Action::Wrap }),
        Tys::OptionalTextListOwned => Some(Body { guard: Guard::NonEmpty, action: Action::Wrap }),
        Tys::Ref => None,
        Tys::OptionalRef => None,
    }
}

/// What a getter hands out.
pub open spec fn getter_result(ty: Tys) -> Option<TypeForm> {
    match ty {
        Tys::Basic => Some(TypeForm::Plain(TypeRef::Declared)),
        Tys::Ref => Some(TypeForm::Borrowed(TypeRef::Declared)),
        Tys::Text => Some(TypeForm::Str),
        Tys::List => Some(TypeForm::Slice(TypeRef::Argument)),
        Tys::Optional => Some(TypeForm::Optional(TypeRef::Argument)),
        Tys::OptionalRef => Some(TypeForm::OptionalBorrowed(TypeRef::Argument)),
        Tys::OptionalText => Some(TypeForm::OptionalStr),
        Tys::OptionalList => Some(TypeForm::OptionalSlice(TypeRef::InnerArgument)),
        _ => None,
    }
}

/// Whether a setter appends.
pub open spec fn is_extend(ty: Tys) -> bool {
    ty == Tys::ListExtend || ty == Tys::TextListExtend || ty == Tys::TextListExtendOwned
}

/// Whether a setter takes owned strings where its twin takes string slices.
pub open spec fn is_owned(ty: Tys) -> bool {
    ty == Tys::TextListOwned || ty == Tys::TextListExtendOwned || ty
        == Tys::OptionalTextListOwned
}

impl Fns {
    /// The signature of an operation of this form, if there is such an
    /// operation. Every setter consumes the structure and returns it.
    pub open spec fn spec_signature(self) -> Option<Signature> {
        match self {
            Fns::Setter(ty) => match setter_parameter(ty) {
                Some(parameter) => Some(
                    Signature {
                        receiver: Receiver::Owned,
                        parameter: Some(parameter),
                        result: TypeForm::Own,
                    },
                ),
                None => None,
            },
            Fns::Getter(ty) => match getter_result(ty) {
                Some(result) => Some(
                    Signature { receiver: Receiver::Shared, parameter: None, result },
                ),
                None => None,
            },
            Fns::Into => Some(
                Signature {
                    receiver: Receiver::Owned,
                    parameter: None,
                    result: TypeForm::Plain(TypeRef::Declared),
                },
            ),
            Fns::Take => Some(
                Signature {
                    receiver: Receiver::Exclusive,
                    parameter: None,
                    result: TypeForm::Plain(TypeRef::Declared),
                },
            ),
        }
    }

    /// The body of an operation of this form, if there is such an operation.
    pub open spec fn spec_body(self) -> Option<Body> {
        match self {
            Fns::Setter(ty) => setter_body(ty),
            Fns::Getter(ty) => match getter_result(ty) {
                Some(_) => Some(Body { guard: Guard::Always, action: Action::Read }),
                None => None,
            },
            Fns::Into => Some(Body { guard: Guard::Always, action: Action::MoveOut }),
            Fns::Take => Some(Body { guard: Guard::Always, action: Action::Reset }),
        }
    }

    /// Whether there is an operation of this form.
    pub open spec fn spec_defined(self) -> bool {
        self.spec_signature() is Some
    }

    fn parameter(ty: Tys) -> (parameter: Option<TypeForm>)
        ensures
            parameter == setter_parameter(ty),
    {
        match ty {
            Tys::Basic => Some(TypeForm::Plain(TypeRef::Declared)),
            Tys::Text => Some(TypeForm::Str),
            Tys::List => Some(TypeForm::Slice(TypeRef::Argument)),
            Tys::ListExtend => Some(TypeForm::Slice(TypeRef::Argument)),
            Tys::TextList => Some(TypeForm::StrSlice),
            Tys::TextListOwned => Some(TypeForm::StringSlice),
            Tys::TextListExtend => Some(TypeForm::StrSlice),
            Tys::TextListExtendOwned => Some(TypeForm::StringSlice),
            Tys::Optional => Some(TypeForm::Plain(TypeRef::Argument)),
            Tys::Nested => Some(TypeForm::Plain(TypeRef::Declared)),
            Tys::OptionalList => Some(TypeForm::Slice(TypeRef::InnerArgument)),
            Tys::OptionalText => Some(TypeForm::Str),
            Tys::OptionalTextList => Some(TypeForm::StrSlice),
            Tys::OptionalTextListOwned => Some(TypeForm::StringSlice),
            Tys::Ref => None,
            Tys::OptionalRef => None,
        }
    }

    fn handed_out(ty: Tys) -> (result: Option<TypeForm>)
        ensures
            result == getter_result(ty),
    {
        match ty {
            Tys::Basic => Some(TypeForm::Plain(TypeRef::Declared)),
            Tys::Ref => Some(TypeForm::Borrowed(TypeRef::Declared)),
            Tys::Text => Some(TypeForm::Str),
            Tys::List => Some(TypeForm::Slice(TypeRef::Argument)),
            Tys::Optional => Some(TypeForm::Optional(TypeRef::Argument)),
            Tys::OptionalRef => Some(TypeForm::OptionalBorrowed(TypeRef::Argument)),
            Tys::OptionalText => Some(TypeForm::OptionalStr),
            Tys::OptionalList => Some(TypeForm::OptionalSlice(TypeRef::InnerArgument)),
            _ => None,
        }
    }

    fn written(ty: Tys) -> (body: Option<Body>)
        ensures
            body == setter_body(ty),
    {
        match ty {
            Tys::Basic | Tys::Text => Some(Body { guard: Guard::Always, action: Action::Assign }),
            Tys::List | Tys::TextList | Tys::TextListOwned => Some(
                Body { guard: Guard::NonEmpty, action: Action::Assign },
            ),
            Tys::ListExtend | Tys::TextListExtend | Tys::TextListExtendOwned => Some(
                Body { guard: Guard::NonEmpty, action: Action::Append },
            ),
            Tys::Optional | Tys::OptionalText => Some(
                Body { guard: Guard::Always, action: Action::Wrap },
            ),
            Tys::Nested => Some(Body { guard: Guard::Present, action: Action::Assign }),
            Tys::OptionalList | Tys::OptionalTextList | Tys::OptionalTextListOwned => Some(
                Body { guard: Guard::NonEmpty, action: Action::Wrap },
            ),
            Tys::Ref | Tys::OptionalRef => None,
        }
    }

    /// The signature of an operation of this form, if there is such an
    /// operation.
    pub fn signature(self) -> (signature: Option<Signature>)
        ensures
            signature == self.spec_signature(),
    {
        match self {
            Fns::Setter(ty) => match Fns::parameter(ty) {
                Some(parameter) => Some(
                    Signature {
                        receiver: Receiver::Owned,
                        parameter: Some(parameter),
                        result: TypeForm::Own,
                    },
                ),
                None => None,
            },
            Fns::Getter(ty) => match Fns::handed_out(ty) {
                Some(result) => Some(
                    Signature { receiver: Receiver::Shared, parameter: None, result },
                ),
                None => None,
            },
            Fns::Into => Some(
                Signature {
                    receiver: Receiver::Owned,
                    parameter: None,
                    result: TypeForm::Plain(TypeRef::Declared),
                },
            ),
            Fns::Take => Some(
                Signature {
                    receiver: Receiver::Exclusive,
                    parameter: None,
                    result: TypeForm::Plain(TypeRef::Declared),
                },
            ),
        }
    }

    /// The body of an operation of this form, if there is such an operation.
    pub fn body(self) -> (body: Option<Body>)
        ensures
            body == self.spec_body(),
    {
        match self {
            Fns::Setter(ty) => Fns::written(ty),
            Fns::Getter(ty) => match Fns::handed_out(ty) {
                Some(_) => Some(Body { guard: Guard::Always, action: Action::Read }),
                None => None,
            },
            Fns::Into => Some(Body { guard: Guard::Always, action: Action::MoveOut }),
            Fns::Take => Some(Body { guard: Guard::Always, action: Action::Reset }),
        }
    }
}

} // verus!
