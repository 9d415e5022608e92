//! What can be wrong with the configuration of a field.

use vstd::prelude::*;

verus! {

/// A directive whose value must be a string literal.
#[derive(Clone, Copy, Debug, PartialEq, Eq, Structural)]
pub enum TextKey {
    Alias,
    SetterPrefix,
    GetterPrefix,
    IntoPrefix,
    GetterVisibility,
    SetterVisibility,
    Visibility,
}

/// A directive that switches something on or off.
#[derive(Clone, Copy, Debug, PartialEq, Eq, Structural)]
pub enum FlagKey {
    Getter,
    Setter,
    Skip,
    Extend,
}

/// Why a field's configuration is refused.
#[derive(Clone, Copy, Debug, PartialEq, Eq, Structural)]
pub enum Reason {
    /// The key is not one of the directives.
    UnsupportedArgument,
    /// The directive wants a string literal and got something else.
    ExpectedString(TextKey),
    /// The switch wants a boolean or a string, or nothing at all, and got
    /// something else.
    ExpectedFlag(FlagKey),
    /// An inlining directive got a string that is none of its words.
    InlineWord,
    /// An inlining directive got a value that is neither a boolean nor a string.
    InlineKind,
    /// An `allow` group names something that cannot be allowed.
    UnsupportedAllow,
    /// An `except` group names something that cannot be excepted.
    UnsupportedExcept,
    /// A group stands where a value is wanted, or a value where a group is wanted.
    Malformed,
    /// The path of a `pub(in ...)` visibility is not a path.
    VisibilityPath,
}

/// A refused directive: its place in the field's directive group, and why.
#[derive(Clone, Copy, Debug, PartialEq, Eq, Structural)]
pub struct RuleError {
    pub position: usize,
    pub reason: Reason,
}

/// A refused field: its place in the structure, the directive at fault where
/// one is, and why.
#[derive(Clone, Copy, Debug, PartialEq, Eq, Structural)]
pub struct FieldError {
    pub field: usize,
    pub directive: Option<usize>,
    pub reason: Reason,
}

/// Why nothing is generated for an input.
#[derive(Clone, Copy, Debug, PartialEq, Eq, Structural)]
pub enum BuildError {
    /// The input is an enumeration or a union: only a structure has fields.
    NotAStruct,
    /// A field of the structure is refused.
    Field(FieldError),
}

impl TextKey {
    /// The directive's name as it is written in a field's configuration.
    pub open spec fn spec_name(self) -> Seq<char> {
        match self {
            TextKey::Alias => "alias"@,
            TextKey::SetterPrefix => "setter_prefix"@,
            TextKey::GetterPrefix => "getter_prefix"@,
            TextKey::IntoPrefix => "into_prefix"@,
            TextKey::GetterVisibility => "getter_visibility"@,
            TextKey::SetterVisibility => "setter_visibility"@,
            TextKey::Visibility => "visibility"@,
        }
    }

    /// The directive's name as it is written in a field's configuration.
    pub fn name(self) -> (name: &'static str)
        ensures
            name@ == self.spec_name(),
    {
        match self {
            TextKey::Alias => "alias",
            TextKey::SetterPrefix => "setter_prefix",
            TextKey::GetterPrefix => "getter_prefix",
            TextKey::IntoPrefix => "into_prefix",
            TextKey::GetterVisibility => "getter_visibility",
            TextKey::SetterVisibility => "setter_visibility",
            TextKey::Visibility => "visibility",
        }
    }
}

impl FlagKey {
    /// The switch's name as it is written in a field's configuration.
    pub open spec fn spec_name(self) -> Seq<char> {
        match self {
            FlagKey::Getter => "getter"@,
            FlagKey::Setter => "setter"@,
            FlagKey::Skip => "skip"@,
            FlagKey::Extend => "extend"@,
        }
    }

    /// The switch's name as it is written in a field's configuration.
    pub fn name(self) -> (name: &'static str)
        ensures
            name@ == self.spec_name(),
    {
        match self {
            FlagKey::Getter => "getter",
            FlagKey::Setter => "setter",
            FlagKey::Skip => "skip",
            FlagKey::Extend => "extend",
        }
    }
}

impl Reason {
    /// The sentence that reports the reason.
    pub open spec fn spec_message(self) -> Seq<char> {
        match self {
            Reason::UnsupportedArgument => "Unsupported argument"@,
            Reason::ExpectedString(key) => "Expected a string literal for "@ + key.spec_name(),
            Reason::ExpectedFlag(key) => "Expected a boolean or string for "@ + key.spec_name(),
            Reason::InlineWord => "Expected 'always', 'true', 'false', or no value for inline"@,
            Reason::InlineKind => "Expected a boolean or string for inline"@,
            Reason::UnsupportedAllow => "Unsupported allow argument"@,
            Reason::UnsupportedExcept => "Unsupported except argument"@,
            Reason::Malformed => "Malformed argument"@,
            Reason::VisibilityPath => "Invalid visibility path"@,
        }
    }

    /// The sentence that reports the reason.
    pub fn message(self) -> (message: String)
        ensures
            message@ == self.spec_message(),
    {
        match self {
            Reason::UnsupportedArgument => String::from_str("Unsupported argument"),
            Reason::ExpectedString(key) => {
                let mut message = String::from_str("Expected a string literal for ");
                message.append(key.name());
                message
            },
            Reason::ExpectedFlag(key) => {
                let mut message = String::from_str("Expected a boolean or string for ");
                message.append(key.name());
                message
            },
            Reason::InlineWord => String::from_str(
                "Expected 'always', 'true', 'false', or no value for inline",
            ),
            Reason::InlineKind => String::from_str("Expected a boolean or string for inline"),
            Reason::UnsupportedAllow => String::from_str("Unsupported allow argument"),
            Reason::UnsupportedExcept => String::from_str("Unsupported except argument"),
            Reason::Malformed => String::from_str("Malformed argument"),
            Reason::VisibilityPath => String::from_str("Invalid visibility path"),
        }
    }
}

} // verus!
