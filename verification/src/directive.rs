//! The configuration directives of a field as they are written, before
//! anything is decided about them.

use crate::text::same_text;
use vstd::prelude::*;

verus! {

/// The name of the attribute that holds a field's directives.
pub const ARGS: &'static str = "args";

pub const ALLOW: &'static str = "allow";

pub const EXCEPT: &'static str = "except";

pub const ALIAS: &'static str = "alias";

/// The earlier spelling of `alias`.
pub const ALIAS_DEPRECATED: &'static str = "aka";

pub const GETTER: &'static str = "getter";

pub const SETTER: &'static str = "setter";

pub const SKIP: &'static str = "skip";

pub const EXTEND: &'static str = "extend";

/// The earlier spelling of `extend`.
pub const EXTEND_DEPRECATED: &'static str = "inc";

/// The word that marks a setter which takes owned strings.
pub const OWNED: &'static str = "owned";

pub const INTO: &'static str = "into";

pub const TAKE: &'static str = "take";

pub const SETTER_PREFIX: &'static str = "setter_prefix";

pub const GETTER_PREFIX: &'static str = "getter_prefix";

pub const INTO_PREFIX: &'static str = "into_prefix";

pub const VISIBILITY: &'static str = "visibility";

pub const GETTER_VISIBILITY: &'static str = "getter_visibility";

pub const SETTER_VISIBILITY: &'static str = "setter_visibility";

pub const INLINE: &'static str = "inline";

pub const GETTER_INLINE: &'static str = "getter_inline";

pub const SETTER_INLINE: &'static str = "setter_inline";

pub const SETTER_PREFIX_DEFAULT: &'static str = "with";

pub const GETTER_PREFIX_DEFAULT: &'static str = "nth";

pub const INTO_PREFIX_DEFAULT: &'static str = "into";

/// What stands behind a directive's key.
#[derive(Clone, Debug, PartialEq, Eq)]
pub enum DirectiveValue {
    /// Nothing: the key stands alone.
    Missing,
    /// `= true` or `= false`.
    Bool(bool),
    /// `=` and a string literal, given by its content.
    Str(String),
    /// `=` and an expression that is neither a boolean nor a string literal.
    Other,
    /// `=` and something that is no expression.
    Unparsable,
    /// A parenthesised list of nested keys: the identifier of each, or `None`
    /// where the nested key is a longer path.
    Group(Vec<Option<String>>),
}

/// One directive of a field: a key and what stands behind it.
#[derive(Clone, Debug, PartialEq, Eq)]
pub struct Directive {
    /// The key's identifier; `None` where the key is a longer path.
    pub key: Option<String>,
    pub value: DirectiveValue,
}

pub enum DirectiveValueView {
    Missing,
    Bool(bool),
    Str(Seq<char>),
    Other,
    Unparsable,
    Group(Seq<Option<Seq<char>>>),
}

pub struct DirectiveView {
    pub key: Option<Seq<char>>,
    pub value: DirectiveValueView,
}

/// The characters of an optional string.
pub open spec fn optional_text(text: Option<String>) -> Option<Seq<char>> {
    match text {
        Some(t) => Some(t@),
        None => None,
    }
}

impl View for DirectiveValue {
    type V = DirectiveValueView;

    open spec fn view(&self) -> DirectiveValueView {
        match self {
            DirectiveValue::Missing => DirectiveValueView::Missing,
            DirectiveValue::Bool(b) => DirectiveValueView::Bool(*b),
            DirectiveValue::Str(s) => DirectiveValueView::Str(s@),
            DirectiveValue::Other => DirectiveValueView::Other,
            DirectiveValue::Unparsable => DirectiveValueView::Unparsable,
            DirectiveValue::Group(items) => DirectiveValueView::Group(
                items@.map_values(|item: Option<String>| optional_text(item)),
            ),
        }
    }
}

impl View for Directive {
    type V = DirectiveView;

    open spec fn view(&self) -> DirectiveView {
        DirectiveView { key: optional_text(self.key), value: self.value@ }
    }
}

/// The directives of a group, each by its view.
pub open spec fn directive_views(directives: Seq<Directive>) -> Seq<DirectiveView> {
    directives.map_values(|d: Directive| d@)
}

/// Where among the attributes of a field its directives stand: in the first
/// attribute, if that is `args`; nowhere else. Each attribute is given by
/// the identifier of its path, or `None` where its path is longer.
pub open spec fn group_position(attrs: Seq<Option<Seq<char>>>) -> Option<usize> {
    if attrs.len() > 0 && attrs[0] == Some(ARGS@) {
        Some(0usize)
    } else {
        None
    }
}

/// Finds the attribute that holds the directives of a field.
pub fn directive_group(attrs: &Vec<Option<String>>) -> (position: Option<usize>)
    ensures
        position == group_position(attrs@.map_values(|a: Option<String>| optional_text(a))),
{
    if attrs.len() == 0 {
        return None;
    }
    match &attrs[0] {
        Some(name) => {
            if same_text(name.as_str(), ARGS) {
                Some(0)
            } else {
                None
            }
        },
        None => None,
    }
}

} // verus!
