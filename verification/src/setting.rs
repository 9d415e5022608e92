//! From directives as written to settings that are known to be valid, and
//! from settings to the rule record.

use crate::directive::Directive;
use crate::directive::DirectiveValue;
use crate::directive::DirectiveValueView;
use crate::directive::DirectiveView;
use crate::directive::optional_text;
use crate::directive::ALIAS;
use crate::directive::ALIAS_DEPRECATED;
use crate::directive::ALLOW;
use crate::directive::EXCEPT;
use crate::directive::EXTEND;
use crate::directive::EXTEND_DEPRECATED;
use crate::directive::GETTER;
use crate::directive::GETTER_INLINE;
use crate::directive::GETTER_PREFIX;
use crate::directive::GETTER_VISIBILITY;
use crate::directive::INLINE;
use crate::directive::INTO;
use crate::directive::INTO_PREFIX;
use crate::directive::SETTER;
use crate::directive::SETTER_INLINE;
use crate::directive::SETTER_PREFIX;
use crate::directive::SETTER_VISIBILITY;
use crate::directive::SKIP;
use crate::directive::VISIBILITY;
use crate::error::FlagKey;
use crate::error::Reason;
use crate::error::TextKey;
use crate::rules::inline_of;
use crate::rules::truth_of;
use crate::rules::visibility_text;
use crate::rules::InlineMode;
use crate::rules::Rules;
use crate::text::lowercase_of;
use crate::text::same_text;
use vstd::prelude::*;

verus! {

/// What an `allow` group can name.
#[derive(Clone, Copy, Debug, PartialEq, Eq, Structural)]
pub enum Allowed {
    Getter,
    Setter,
    Skip,
    Extend,
}

/// What an `except` group can name.
#[derive(Clone, Copy, Debug, PartialEq, Eq, Structural)]
pub enum Excepted {
    Getter,
    Setter,
    Skip,
    Extend,
    Into,
}

/// A directive that was found valid, with its value read.
#[derive(Clone, Debug, PartialEq, Eq)]
pub enum Setting {
    Getter(bool),
    Setter(bool),
    Skip(bool),
    Extend(bool),
    Alias(String),
    SetterPrefix(String),
    GetterPrefix(String),
    IntoPrefix(String),
    /// The visibility of the getter, spelled out.
    GetterVisibility(String),
    /// The visibility of the setter, spelled out.
    SetterVisibility(String),
    /// The visibility of both, spelled out.
    Visibility(String),
    Inline(InlineMode),
    GetterInline(InlineMode),
    SetterInline(InlineMode),
    Allow(Vec<Allowed>),
    Except(Vec<Excepted>),
}

pub enum SettingView {
    Getter(bool),
    Setter(bool),
    Skip(bool),
    Extend(bool),
    Alias(Seq<char>),
    SetterPrefix(Seq<char>),
    GetterPrefix(Seq<char>),
    IntoPrefix(Seq<char>),
    GetterVisibility(Seq<char>),
    SetterVisibility(Seq<char>),
    Visibility(Seq<char>),
    Inline(InlineMode),
    GetterInline(InlineMode),
    SetterInline(InlineMode),
    Allow(Seq<Allowed>),
    Except(Seq<Excepted>),
}

impl View for Setting {
    type V = SettingView;

    open spec fn view(&self) -> SettingView {
        match self {
            Setting::Getter(b) => SettingView::Getter(*b),
            Setting::Setter(b) => SettingView::Setter(*b),
            Setting::Skip(b) => SettingView::Skip(*b),
            Setting::Extend(b) => SettingView::Extend(*b),
            Setting::Alias(s) => SettingView::Alias(s@),
            Setting::SetterPrefix(s) => SettingView::SetterPrefix(s@),
            Setting::GetterPrefix(s) => SettingView::GetterPrefix(s@),
            Setting::IntoPrefix(s) => SettingView::IntoPrefix(s@),
            Setting::GetterVisibility(s) => SettingView::GetterVisibility(s@),
            Setting::SetterVisibility(s) => SettingView::SetterVisibility(s@),
            Setting::Visibility(s) => SettingView::Visibility(s@),
            Setting::Inline(m) => SettingView::Inline(*m),
            Setting::GetterInline(m) => SettingView::GetterInline(*m),
            Setting::SetterInline(m) => SettingView::SetterInline(*m),
            Setting::Allow(items) => SettingView::Allow(items@),
            Setting::Except(items) => SettingView::Except(items@),
        }
    }
}

/// Settings, each by its view.
pub open spec fn setting_views(settings: Seq<Setting>) -> Seq<SettingView> {
    settings.map_values(|s: Setting| s@)
}

/// Whether a setting is a shorthand: one that speaks of several rules at
/// once, or of rules that have a directive of their own each.
pub open spec fn is_shorthand(s: SettingView) -> bool {
    s is Skip || s is Visibility || s is Inline || s is Allow || s is Except
}

/// The boolean of a switch: on where the key stands alone, else what a
/// boolean or a string says. Any other value is refused as of the wrong
/// kind, and so is an `=` that no expression follows; a group is refused
/// as malformed.
pub open spec fn flag_of(value: DirectiveValueView, key: FlagKey) -> Result<bool, Reason> {
    match value {
        DirectiveValueView::Missing => Ok(true),
        DirectiveValueView::Group(_) => Err(Reason::Malformed),
        _ => match truth_of(value) {
            Some(b) => Ok(b),
            None => Err(Reason::ExpectedFlag(key)),
        },
    }
}

/// The text of a directive that wants a string literal.
pub open spec fn string_of(value: DirectiveValueView, key: TextKey) -> Result<Seq<char>, Reason> {
    match value {
        DirectiveValueView::Str(s) => Ok(s),
        _ => Err(Reason::ExpectedString(key)),
    }
}

/// What a name inside an `allow` group stands for.
pub open spec fn allowed_word(name: Seq<char>) -> Option<Allowed> {
    if name == GETTER@ {
        Some(Allowed::Getter)
    } else if name == SETTER@ {
        Some(Allowed::Setter)
    } else if name == SKIP@ {
        Some(Allowed::Skip)
    } else if name == EXTEND@ || name == EXTEND_DEPRECATED@ {
        Some(Allowed::Extend)
    } else {
        None
    }
}

/// What a name inside an `except` group stands for.
pub open spec fn excepted_word(name: Seq<char>) -> Option<Excepted> {
    if name == GETTER@ {
        Some(Excepted::Getter)
    } else if name == SETTER@ {
        Some(Excepted::Setter)
    } else if name == SKIP@ {
        Some(Excepted::Skip)
    } else if name == EXTEND@ || name == EXTEND_DEPRECATED@ {
        Some(Excepted::Extend)
    } else if name == INTO@ {
        Some(Excepted::Into)
    } else {
        None
    }
}

/// The items of an `allow` group in order. A nested key that is a longer
/// path is passed over; an identifier that is not known is refused.
pub open spec fn allowed_items(items: Seq<Option<Seq<char>>>) -> Result<Seq<Allowed>, Reason>
    decreases items.len(),
{
    if items.len() == 0 {
        Ok(Seq::empty())
    } else {
        match allowed_items(items.drop_last()) {
            Err(e) => Err(e),
            Ok(found) => match items.last() {
                None => Ok(found),
                Some(name) => match allowed_word(name) {
                    Some(item) => Ok(found.push(item)),
                    None => Err(Reason::UnsupportedAllow),
                },
            },
        }
    }
}

/// The items of an `except` group in order. A nested key that is a longer
/// path is passed over; an identifier that is not known is refused.
pub open spec fn excepted_items(items: Seq<Option<Seq<char>>>) -> Result<Seq<Excepted>, Reason>
    decreases items.len(),
{
    if items.len() == 0 {
        Ok(Seq::empty())
    } else {
        match excepted_items(items.drop_last()) {
            Err(e) => Err(e),
            Ok(found) => match items.last() {
                None => Ok(found),
                Some(name) => match excepted_word(name) {
                    Some(item) => Ok(found.push(item)),
                    None => Err(Reason::UnsupportedExcept),
                },
            },
        }
    }
}

/// A visibility word spelled out, whatever its letter case.
pub open spec fn visibility_of(value: DirectiveValueView, key: TextKey) -> Result<
    Seq<char>,
    Reason,
> {
    match string_of(value, key) {
        Ok(s) => Ok(visibility_text(s, lowercase_of(s))),
        Err(e) => Err(e),
    }
}

/// The setting that a directive stands for, or why it is refused. The keys
/// are a closed vocabulary; a key that is a longer path is never known.
pub open spec fn setting_of(d: DirectiveView) -> Result<SettingView, Reason> {
    match d.key {
        None => Err(Reason::UnsupportedArgument),
        Some(key) => if key == GETTER@ {
            match flag_of(d.value, FlagKey::Getter) {
                Ok(b) => Ok(SettingView::Getter(b)),
                Err(e) => Err(e),
            }
        } else if key == SETTER@ {
            match flag_of(d.value, FlagKey::Setter) {
                Ok(b) => Ok(SettingView::Setter(b)),
                Err(e) => Err(e),
            }
        } else if key == SKIP@ {
            match flag_of(d.value, FlagKey::Skip) {
                Ok(b) => Ok(SettingView::Skip(b)),
                Err(e) => Err(e),
            }
        } else if key == EXTEND@ || key == EXTEND_DEPRECATED@ {
            match flag_of(d.value, FlagKey::Extend) {
                Ok(b) => Ok(SettingView::Extend(b)),
                Err(e) => Err(e),
            }
        } else if key == ALIAS@ || key == ALIAS_DEPRECATED@ {
            match string_of(d.value, TextKey::Alias) {
                Ok(s) => Ok(SettingView::Alias(s)),
                Err(e) => Err(e),
            }
        } else if key == SETTER_PREFIX@ {
            match string_of(d.value, TextKey::SetterPrefix) {
                Ok(s) => Ok(SettingView::SetterPrefix(s)),
                Err(e) => Err(e),
            }
        } else if key == GETTER_PREFIX@ {
            match string_of(d.value, TextKey::GetterPrefix) {
                Ok(s) => Ok(SettingView::GetterPrefix(s)),
                Err(e) => Err(e),
            }
        } else if key == INTO_PREFIX@ {
            match string_of(d.value, TextKey::IntoPrefix) {
                Ok(s) => Ok(SettingView::IntoPrefix(s)),
                Err(e) => Err(e),
            }
        } else if key == GETTER_VISIBILITY@ {
            match visibility_of(d.value, TextKey::GetterVisibility) {
                Ok(s) => Ok(SettingView::GetterVisibility(s)),
                Err(e) => Err(e),
            }
        } else if key == SETTER_VISIBILITY@ {
            match visibility_of(d.value, TextKey::SetterVisibility) {
                Ok(s) => Ok(SettingView::SetterVisibility(s)),
                Err(e) => Err(e),
            }
        } else if key == VISIBILITY@ {
            match visibility_of(d.value, TextKey::Visibility) {
                Ok(s) => Ok(SettingView::Visibility(s)),
                Err(e) => Err(e),
            }
        } else if key == INLINE@ {
            match inline_of(d.value) {
                Ok(m) => Ok(SettingView::Inline(m)),
                Err(e) => Err(e),
            }
        } else if key == GETTER_INLINE@ {
            match inline_of(d.value) {
                Ok(m) => Ok(SettingView::GetterInline(m)),
                Err(e) => Err(e),
            }
        } else if key == SETTER_INLINE@ {
            match inline_of(d.value) {
                Ok(m) => Ok(SettingView::SetterInline(m)),
                Err(e) => Err(e),
            }
        } else if key == ALLOW@ {
            match d.value {
                DirectiveValueView::Group(items) => match allowed_items(items) {
                    Ok(found) => Ok(SettingView::Allow(found)),
                    Err(e) => Err(e),
                },
                _ => Err(Reason::Malformed),
            }
        } else if key == EXCEPT@ {
            match d.value {
                DirectiveValueView::Group(items) => match excepted_items(items) {
                    Ok(found) => Ok(SettingView::Except(found)),
                    Err(e) => Err(e),
                },
                _ => Err(Reason::Malformed),
            }
        } else {
            Err(Reason::UnsupportedArgument)
        },
    }
}

/// The view of a setting that was read, or the reason that none was.
pub open spec fn setting_result_view(result: Result<Setting, Reason>) -> Result<
    SettingView,
    Reason,
> {
    match result {
        Ok(setting) => Ok(setting@),
        Err(reason) => Err(reason),
    }
}

fn read_flag(value: &DirectiveValue, key: FlagKey) -> (flag: Result<bool, Reason>)
    ensures
        flag == flag_of(value@, key),
{
    match value {
        DirectiveValue::Missing => Ok(true),
        DirectiveValue::Group(_) => Err(Reason::Malformed),
        _ => match Rules::parse_bool_or_str(value) {
            Some(b) => Ok(b),
            None => Err(Reason::ExpectedFlag(key)),
        },
    }
}

fn read_string(value: &DirectiveValue, key: TextKey) -> (text: Result<String, Reason>)
    ensures
        match text {
            Ok(s) => string_of(value@, key) == Ok::<Seq<char>, Reason>(s@),
            Err(e) => string_of(value@, key) == Err::<Seq<char>, Reason>(e),
        },
{
    match value {
        DirectiveValue::Str(s) => Ok(s.clone()),
        _ => Err(Reason::ExpectedString(key)),
    }
}

fn read_visibility(value: &DirectiveValue, key: TextKey) -> (text: Result<String, Reason>)
    ensures
        match text {
            Ok(s) => visibility_of(value@, key) == Ok::<Seq<char>, Reason>(s@),
            Err(e) => visibility_of(value@, key) == Err::<Seq<char>, Reason>(e),
        },
{
    match value {
        DirectiveValue::Str(s) => Ok(Rules::parse_visibility(s.as_str())),
        _ => Err(Reason::ExpectedString(key)),
    }
}

fn read_allowed_word(name: &str) -> (item: Option<Allowed>)
    ensures
        item == allowed_word(name@),
{
    if same_text(name, GETTER) {
        Some(Allowed::Getter)
    } else if same_text(name, SETTER) {
        Some(Allowed::Setter)
    } else if same_text(name, SKIP) {
        Some(Allowed::Skip)
    } else if same_text(name, EXTEND) || same_text(name, EXTEND_DEPRECATED) {
        Some(Allowed::Extend)
    } else {
        None
    }
}

fn read_excepted_word(name: &str) -> (item: Option<Excepted>)
    ensures
        item == excepted_word(name@),
{
    if same_text(name, GETTER) {
        Some(Excepted::Getter)
    } else if same_text(name, SETTER) {
        Some(Excepted::Setter)
    } else if same_text(name, SKIP) {
        Some(Excepted::Skip)
    } else if same_text(name, EXTEND) || same_text(name, EXTEND_DEPRECATED) {
        Some(Excepted::Extend)
    } else if same_text(name, INTO) {
        Some(Excepted::Into)
    } else {
        None
    }
}

/// The names of a group, each by its characters.
pub open spec fn group_view(items: Seq<Option<String>>) -> Seq<Option<Seq<char>>> {
    items.map_values(|item: Option<String>| optional_text(item))
}

fn read_allowed(items: &Vec<Option<String>>) -> (found: Result<Vec<Allowed>, Reason>)
    ensures
        match found {
            Ok(v) => allowed_items(group_view(items@)) == Ok::<Seq<Allowed>, Reason>(v@),
            Err(e) => allowed_items(group_view(items@)) == Err::<Seq<Allowed>, Reason>(e),
        },
{
    let ghost names = group_view(items@);
    let mut found: Vec<Allowed> = Vec::new();
    let mut i: usize = 0;
    while i < items.len()
        invariant
            i <= items.len(),
            names == group_view(items@),
            allowed_items(names.take(i as int)) == Ok::<Seq<Allowed>, Reason>(found@),
        decreases items.len() - i,
    {
        proof {
            assert(names.take(i + 1).drop_last() =~= names.take(i as int));
            assert(names.take(i + 1).last() == optional_text(items@[i as int]));
        }
        match &items[i] {
            None => {},
            Some(name) => match read_allowed_word(name.as_str()) {
                Some(item) => {
                    found.push(item);
                },
                None => {
                    proof {
                        lemma_allowed_refused(names, i + 1);
                    }
                    return Err(Reason::UnsupportedAllow);
                },
            },
        }
        i += 1;
    }
    proof {
        assert(names.take(i as int) =~= names);
    }
    Ok(found)
}

fn read_excepted(items: &Vec<Option<String>>) -> (found: Result<Vec<Excepted>, Reason>)
    ensures
        match found {
            Ok(v) => excepted_items(group_view(items@)) == Ok::<Seq<Excepted>, Reason>(v@),
            Err(e) => excepted_items(group_view(items@)) == Err::<Seq<Excepted>, Reason>(e),
        },
{
    let ghost names = group_view(items@);
    let mut found: Vec<Excepted> = Vec::new();
    let mut i: usize = 0;
    while i < items.len()
        invariant
            i <= items.len(),
            names == group_view(items@),
            excepted_items(names.take(i as int)) == Ok::<Seq<Excepted>, Reason>(found@),
        decreases items.len() - i,
    {
        proof {
            assert(names.take(i + 1).drop_last() =~= names.take(i as int));
            assert(names.take(i + 1).last() == optional_text(items@[i as int]));
        }
        match &items[i] {
            None => {},
            Some(name) => match read_excepted_word(name.as_str()) {
                Some(item) => {
                    found.push(item);
                },
                None => {
                    proof {
                        lemma_excepted_refused(names, i + 1);
                    }
                    return Err(Reason::UnsupportedExcept);
                },
            },
        }
        i += 1;
    }
    proof {
        assert(names.take(i as int) =~= names);
    }
    Ok(found)
}

/// Once the first `n` names of an `allow` group are refused, the group is.
proof fn lemma_allowed_refused(names: Seq<Option<Seq<char>>>, n: int)
    requires
        0 <= n <= names.len(),
        allowed_items(names.take(n)) is Err,
    ensures
        allowed_items(names) == Err::<Seq<Allowed>, Reason>(Reason::UnsupportedAllow),
    decreases names.len() - n,
{
    lemma_allowed_error(names.take(n));
    if n < names.len() {
        assert(names.take(n + 1).drop_last() =~= names.take(n));
        lemma_allowed_refused(names, n + 1);
    } else {
        assert(names.take(n) =~= names);
    }
}

/// An `allow` group is refused for one reason only.
proof fn lemma_allowed_error(names: Seq<Option<Seq<char>>>)
    ensures
        allowed_items(names) is Err ==> allowed_items(names) == Err::<Seq<Allowed>, Reason>(
            Reason::UnsupportedAllow,
        ),
    decreases names.len(),
{
    if names.len() > 0 {
        lemma_allowed_error(names.drop_last());
    }
}

/// Once the first `n` names of an `except` group are refused, the group is.
proof fn lemma_excepted_refused(names: Seq<Option<Seq<char>>>, n: int)
    requires
        0 <= n <= names.len(),
        excepted_items(names.take(n)) is Err,
    ensures
        excepted_items(names) == Err::<Seq<Excepted>, Reason>(Reason::UnsupportedExcept),
    decreases names.len() - n,
{
    lemma_excepted_error(names.take(n));
    if n < names.len() {
        assert(names.take(n + 1).drop_last() =~= names.take(n));
        lemma_excepted_refused(names, n + 1);
    } else {
        assert(names.take(n) =~= names);
    }
}

/// An `except` group is refused for one reason only.
proof fn lemma_excepted_error(names: Seq<Option<Seq<char>>>)
    ensures
        excepted_items(names) is Err ==> excepted_items(names) == Err::<Seq<Excepted>, Reason>(
            Reason::UnsupportedExcept,
        ),
    decreases names.len(),
{
    if names.len() > 0 {
        lemma_excepted_error(names.drop_last());
    }
}

impl Setting {
    /// Whether the setting is a shorthand.
    pub fn is_shorthand(&self) -> (shorthand: bool)
        ensures
            shorthand == is_shorthand(self@),
    {
        match self {
            Setting::Skip(_) => true,
            Setting::Visibility(_) => true,
            Setting::Inline(_) => true,
            Setting::Allow(_) => true,
            Setting::Except(_) => true,
            _ => false,
        }
    }

    /// Reads one directive: recognises its key and checks its value.
    pub fn parse(d: &Directive) -> (setting: Result<Setting, Reason>)
        ensures
            setting_result_view(setting) == setting_of(d@),
    {
        let key = match &d.key {
            None => {
                return Err(Reason::UnsupportedArgument);
            },
            Some(key) => key.as_str(),
        };
        if same_text(key, GETTER) {
            match read_flag(&d.value, FlagKey::Getter) {
                Ok(b) => Ok(Setting::Getter(b)),
                Err(e) => Err(e),
            }
        } else if same_text(key, SETTER) {
            match read_flag(&d.value, FlagKey::Setter) {
                Ok(b) => Ok(Setting::Setter(b)),
                Err(e) => Err(e),
            }
        } else if same_text(key, SKIP) {
            match read_flag(&d.value, FlagKey::Skip) {
                Ok(b) => Ok(Setting::Skip(b)),
                Err(e) => Err(e),
            }
        } else if same_text(key, EXTEND) || same_text(key, EXTEND_DEPRECATED) {
            match read_flag(&d.value, FlagKey::Extend) {
                Ok(b) => Ok(Setting::Extend(b)),
                Err(e) => Err(e),
            }
        } else if same_text(key, ALIAS) || same_text(key, ALIAS_DEPRECATED) {
            match read_string(&d.value, TextKey::Alias) {
                Ok(s) => Ok(Setting::Alias(s)),
                Err(e) => Err(e),
            }
        } else if same_text(key, SETTER_PREFIX) {
            match read_string(&d.value, TextKey::SetterPrefix) {
                Ok(s) => Ok(Setting::SetterPrefix(s)),
                Err(e) => Err(e),
            }
        } else if same_text(key, GETTER_PREFIX) {
            match read_string(&d.value, TextKey::GetterPrefix) {
                Ok(s) => Ok(Setting::GetterPrefix(s)),
                Err(e) => Err(e),
            }
        } else if same_text(key, INTO_PREFIX) {
            match read_string(&d.value, TextKey::IntoPrefix) {
                Ok(s) => Ok(Setting::IntoPrefix(s)),
                Err(e) => Err(e),
            }
        } else if same_text(key, GETTER_VISIBILITY) {
            match read_visibility(&d.value, TextKey::GetterVisibility) {
                Ok(s) => Ok(Setting::GetterVisibility(s)),
                Err(e) => Err(e),
            }
        } else if same_text(key, SETTER_VISIBILITY) {
            match read_visibility(&d.value, TextKey::SetterVisibility) {
                Ok(s) => Ok(Setting::SetterVisibility(s)),
                Err(e) => Err(e),
            }
        } else if same_text(key, VISIBILITY) {
            match read_visibility(&d.value, TextKey::Visibility) {
                Ok(s) => Ok(Setting::Visibility(s)),
                Err(e) => Err(e),
            }
        } else if same_text(key, INLINE) {
            match Rules::parse_inline_value(&d.value) {
                Ok(m) => Ok(Setting::Inline(m)),
                Err(e) => Err(e),
            }
        } else if same_text(key, GETTER_INLINE) {
            match Rules::parse_inline_value(&d.value) {
                Ok(m) => Ok(Setting::GetterInline(m)),
                Err(e) => Err(e),
            }
        } else if same_text(key, SETTER_INLINE) {
            match Rules::parse_inline_value(&d.value) {
                Ok(m) => Ok(Setting::SetterInline(m)),
                Err(e) => Err(e),
            }
        } else if same_text(key, ALLOW) {
            match &d.value {
                DirectiveValue::Group(items) => match read_allowed(items) {
                    Ok(found) => Ok(Setting::Allow(found)),
                    Err(e) => Err(e),
                },
                _ => Err(Reason::Malformed),
            }
        } else if same_text(key, EXCEPT) {
            match &d.value {
                DirectiveValue::Group(items) => match read_excepted(items) {
                    Ok(found) => Ok(Setting::Except(found)),
                    Err(e) => Err(e),
                },
                _ => Err(Reason::Malformed),
            }
        } else {
            Err(Reason::UnsupportedArgument)
        }
    }
}

} // verus!
