//! The rule record of a field: what is generated for it, under what names,
//! with what visibility and inlining.

use crate::directive::optional_text;
use crate::directive::DirectiveValue;
use crate::directive::DirectiveValueView;
use crate::directive::SETTER_PREFIX_DEFAULT;
use crate::error::Reason;
use crate::text::lowercase_of;
use crate::text::same_text;
use crate::text::to_lowercase;
use vstd::prelude::*;

verus! {

/// The inlining hint of a generated operation.
#[derive(Clone, Copy, Debug, PartialEq, Eq, Structural)]
pub enum InlineMode {
    /// No hint.
    Absent,
    /// `#[inline]`.
    Default,
    /// `#[inline(always)]`.
    Always,
}

/// The rule record of one field.
#[derive(Clone, Debug, PartialEq, Eq)]
pub struct Rules {
    /// Stands for the field's own name or index in every generated name.
    pub alias: Option<String>,
    /// Whether the appending setters of an array are generated.
    pub inc_for_vec: bool,
    pub prefix_setter: String,
    /// Empty: the getter has the bare name (`nth` and the index for a
    /// positional field without alias).
    pub prefix_getter: String,
    pub gen_getter: bool,
    pub gen_setter: bool,
    /// Whether the operations that move the field out are generated.
    pub gen_into: bool,
    /// `None`: `into`.
    pub into_prefix: Option<String>,
    /// `None`: public.
    pub getter_visibility: Option<String>,
    /// `None`: public.
    pub setter_visibility: Option<String>,
    pub getter_inline: Option<InlineMode>,
    pub setter_inline: Option<InlineMode>,
}

pub struct RulesView {
    pub alias: Option<Seq<char>>,
    pub inc_for_vec: bool,
    pub prefix_setter: Seq<char>,
    pub prefix_getter: Seq<char>,
    pub gen_getter: bool,
    pub gen_setter: bool,
    pub gen_into: bool,
    pub into_prefix: Option<Seq<char>>,
    pub getter_visibility: Option<Seq<char>>,
    pub setter_visibility: Option<Seq<char>>,
    pub getter_inline: Option<InlineMode>,
    pub setter_inline: Option<InlineMode>,
}

impl View for Rules {
    type V = RulesView;

    open spec fn view(&self) -> RulesView {
        RulesView {
            alias: optional_text(self.alias),
            inc_for_vec: self.inc_for_vec,
            prefix_setter: self.prefix_setter@,
            prefix_getter: self.prefix_getter@,
            gen_getter: self.gen_getter,
            gen_setter: self.gen_setter,
            gen_into: self.gen_into,
            into_prefix: optional_text(self.into_prefix),
            getter_visibility: optional_text(self.getter_visibility),
            setter_visibility: optional_text(self.setter_visibility),
            getter_inline: self.getter_inline,
            setter_inline: self.setter_inline,
        }
    }
}

/// The rule record of a field without directives: getter, setter and
/// move-out operations, all public; no alias, no appending setters; setters
/// begin with `with`, getters have the bare name; getters are always
/// inlined, setters carry the plain hint.
pub open spec fn default_rules() -> RulesView {
    RulesView {
        alias: None,
        inc_for_vec: false,
        prefix_setter: SETTER_PREFIX_DEFAULT@,
        prefix_getter: Seq::empty(),
        gen_getter: true,
        gen_setter: true,
        gen_into: true,
        into_prefix: None,
        getter_visibility: None,
        setter_visibility: None,
        getter_inline: Some(InlineMode::Always),
        setter_inline: Some(InlineMode::Default),
    }
}

impl Default for Rules {
    fn default() -> (rules: Rules)
        ensures
            rules@ == default_rules(),
    {
        Rules {
            alias: None,
            inc_for_vec: false,
            prefix_setter: String::from_str(SETTER_PREFIX_DEFAULT),
            prefix_getter: String::new(),
            gen_getter: true,
            gen_setter: true,
            gen_into: true,
            into_prefix: None,
            getter_visibility: None,
            setter_visibility: None,
            getter_inline: Some(InlineMode::Always),
            setter_inline: Some(InlineMode::Default),
        }
    }
}

/// Whether a lowercase word says yes.
pub open spec fn is_yes_word(lowered: Seq<char>) -> bool {
    lowered == "yes"@ || lowered == "true"@ || lowered == "t"@ || lowered == "y"@
}

/// The boolean that a directive's value stands for: the literal itself, or
/// whether a string says yes in any letter case. A value that is neither a
/// boolean nor a string stands for none.
pub open spec fn truth_of(value: DirectiveValueView) -> Option<bool> {
    match value {
        DirectiveValueView::Bool(b) => Some(b),
        DirectiveValueView::Str(s) => Some(is_yes_word(lowercase_of(s))),
        _ => None,
    }
}

/// The visibility that a word stands for, given the word in lowercase: the
/// short words are spelled out, `private` is the empty text, and anything
/// else is kept as it was written.
pub open spec fn visibility_text(vis: Seq<char>, lowered: Seq<char>) -> Seq<char> {
    if lowered == "pub"@ || lowered == "public"@ {
        "pub"@
    } else if lowered == "private"@ {
        Seq::empty()
    } else if lowered == "crate"@ {
        "pub(crate)"@
    } else if lowered == "self"@ {
        "pub(self)"@
    } else if lowered == "super"@ {
        "pub(super)"@
    } else {
        vis
    }
}

/// The inlining that a lowercase word asks for, if it is one of the words.
pub open spec fn inline_word(lowered: Seq<char>) -> Option<InlineMode> {
    if lowered == "always"@ {
        Some(InlineMode::Always)
    } else if lowered == "true"@ || lowered == "yes"@ || lowered == "default"@ {
        Some(InlineMode::Default)
    } else if lowered == "false"@ || lowered == "no"@ || lowered == "none"@ {
        Some(InlineMode::Absent)
    } else {
        None
    }
}

/// The inlining that the value of an inlining directive asks for. A bare
/// key and `true` give the plain hint, `false` none; a string is read as a
/// word in any letter case.
pub open spec fn inline_of(value: DirectiveValueView) -> Result<InlineMode, Reason> {
    match value {
        DirectiveValueView::Missing => Ok(InlineMode::Default),
        DirectiveValueView::Bool(b) => Ok(
            if b {
                InlineMode::Default
            } else {
                InlineMode::Absent
            },
        ),
        DirectiveValueView::Str(s) => match inline_word(lowercase_of(s)) {
            Some(mode) => Ok(mode),
            None => Err(Reason::InlineWord),
        },
        DirectiveValueView::Other => Err(Reason::InlineKind),
        DirectiveValueView::Unparsable => Err(Reason::InlineKind),
        DirectiveValueView::Group(_) => Err(Reason::Malformed),
    }
}

impl Rules {
    /// Whether a word that is already in lowercase says yes.
    pub fn yes_word(lowered: &str) -> (yes: bool)
        ensures
            yes == is_yes_word(lowered@),
    {
        same_text(lowered, "yes") || same_text(lowered, "true") || same_text(lowered, "t")
            || same_text(lowered, "y")
    }

    /// Reads a directive's value as a boolean; a value that is neither a
    /// boolean nor a string is none.
    pub fn parse_bool_or_str(value: &DirectiveValue) -> (truth: Option<bool>)
        ensures
            truth == truth_of(value@),
    {
        match value {
            DirectiveValue::Bool(x) => Some(*x),
            DirectiveValue::Str(x) => {
                let lowered = to_lowercase(x.as_str());
                Some(Rules::yes_word(lowered.as_str()))
            },
            _ => None,
        }
    }

    /// The visibility that `vis` stands for, given `vis` in lowercase.
    pub fn visibility_from(vis: &str, lowered: &str) -> (text: String)
        ensures
            text@ == visibility_text(vis@, lowered@),
    {
        if same_text(lowered, "pub") || same_text(lowered, "public") {
            String::from_str("pub")
        } else if same_text(lowered, "private") {
            String::new()
        } else if same_text(lowered, "crate") {
            String::from_str("pub(crate)")
        } else if same_text(lowered, "self") {
            String::from_str("pub(self)")
        } else if same_text(lowered, "super") {
            String::from_str("pub(super)")
        } else {
            String::from_str(vis)
        }
    }

    /// Spells out a visibility word, whatever its letter case.
    pub fn parse_visibility(vis: &str) -> (text: String)
        ensures
            text@ == visibility_text(vis@, lowercase_of(vis@)),
    {
        let lowered = to_lowercase(vis);
        Rules::visibility_from(vis, lowered.as_str())
    }

    /// The inlining that a word that is already in lowercase asks for.
    pub fn inline_from_word(lowered: &str) -> (mode: Option<InlineMode>)
        ensures
            mode == inline_word(lowered@),
    {
        if same_text(lowered, "always") {
            Some(InlineMode::Always)
        } else if same_text(lowered, "true") || same_text(lowered, "yes") || same_text(
            lowered,
            "default",
        ) {
            Some(InlineMode::Default)
        } else if same_text(lowered, "false") || same_text(lowered, "no") || same_text(
            lowered,
            "none",
        ) {
            Some(InlineMode::Absent)
        } else {
            None
        }
    }

    /// Reads the value of an inlining directive.
    pub fn parse_inline_value(value: &DirectiveValue) -> (mode: Result<InlineMode, Reason>)
        ensures
            mode == inline_of(value@),
    {
        match value {
            DirectiveValue::Missing => Ok(InlineMode::Default),
            DirectiveValue::Bool(b) => {
                if *b {
                    Ok(InlineMode::Default)
                } else {
                    Ok(InlineMode::Absent)
                }
            },
            DirectiveValue::Str(s) => {
                let lowered = to_lowercase(s.as_str());
                match Rules::inline_from_word(lowered.as_str()) {
                    Some(mode) => Ok(mode),
                    None => Err(Reason::InlineWord),
                }
            },
            DirectiveValue::Other => Err(Reason::InlineKind),
            DirectiveValue::Unparsable => Err(Reason::InlineKind),
            DirectiveValue::Group(_) => Err(Reason::Malformed),
        }
    }
}

} // verus!
