//! Resolution of a field's directives into its rule record.
//!
//! A rule is decided by the last directive of its own that is written
//! (`getter`, `setter`, `extend`, `getter_visibility`, `setter_visibility`,
//! `getter_inline`, `setter_inline`, the alias and the prefixes). Where
//! there is none, it is decided by the last shorthand that speaks of it
//! (`skip`, `visibility`, `inline`, an item of `allow` or `except`), and
//! where there is none either, by the default. So a directive of its own
//! beats a shorthand wherever the two stand, and of two directives on the
//! same level the later one wins.

use crate::directive::directive_views;
use crate::directive::Directive;
use crate::directive::DirectiveView;
use crate::directive::SETTER_PREFIX_DEFAULT;
use crate::error::RuleError;
use crate::field::Field;
use crate::laws::law_setter_prefix_never_empty;
use crate::laws::law_switches;
use crate::laws::law_inlining;
use crate::laws::law_visibilities;
use crate::laws::inlining_decided;
use crate::laws::switches_decided;
use crate::laws::visibilities_decided;
use crate::rules::default_rules;
use crate::rules::Rules;
use crate::rules::RulesView;
use crate::setting::is_shorthand;
use crate::setting::setting_of;
use crate::setting::setting_views;
use crate::setting::Allowed;
use crate::setting::Excepted;
use crate::setting::Setting;
use crate::setting::SettingView;
use vstd::prelude::*;

verus! {

/// The rule record after one item of an `allow` group. To allow the skip is
/// to switch getter and setter off.
pub open spec fn allow_one(r: RulesView, item: Allowed) -> RulesView {
    match item {
        Allowed::Getter => RulesView { gen_getter: true, ..r },
        Allowed::Setter => RulesView { gen_setter: true, ..r },
        Allowed::Skip => RulesView { gen_getter: false, gen_setter: false, ..r },
        Allowed::Extend => RulesView { inc_for_vec: true, ..r },
    }
}

/// The rule record after one item of an `except` group. To except the skip
/// is to switch getter and setter on.
pub open spec fn except_one(r: RulesView, item: Excepted) -> RulesView {
    match item {
        Excepted::Getter => RulesView { gen_getter: false, ..r },
        Excepted::Setter => RulesView { gen_setter: false, ..r },
        Excepted::Skip => RulesView { gen_getter: true, gen_setter: true, ..r },
        Excepted::Extend => RulesView { inc_for_vec: false, ..r },
        Excepted::Into => RulesView { gen_into: false, ..r },
    }
}

/// The rule record after the items of an `allow` group, in order.
pub open spec fn allowed(r: RulesView, items: Seq<Allowed>) -> RulesView
    decreases items.len(),
{
    if items.len() == 0 {
        r
    } else {
        allow_one(allowed(r, items.drop_last()), items.last())
    }
}

/// The rule record after the items of an `except` group, in order.
pub open spec fn excepted(r: RulesView, items: Seq<Excepted>) -> RulesView
    decreases items.len(),
{
    if items.len() == 0 {
        r
    } else {
        except_one(excepted(r, items.drop_last()), items.last())
    }
}

/// The rule record after one setting. A setting writes the rules it is
/// about and leaves the others as they were. An empty setter prefix stands
/// for the default one; the other prefixes may be empty.
pub open spec fn applied(r: RulesView, s: SettingView) -> RulesView {
    match s {
        SettingView::Getter(b) => RulesView { gen_getter: b, ..r },
        SettingView::Setter(b) => RulesView { gen_setter: b, ..r },
        SettingView::Skip(b) => RulesView { gen_getter: !b, gen_setter: !b, ..r },
        SettingView::Extend(b) => RulesView { inc_for_vec: b, ..r },
        SettingView::Alias(name) => RulesView { alias: Some(name), ..r },
        SettingView::SetterPrefix(p) => RulesView {
            prefix_setter: if p.len() == 0 {
                SETTER_PREFIX_DEFAULT@
            } else {
                p
            },
            ..r
        },
        SettingView::GetterPrefix(p) => RulesView { prefix_getter: p, ..r },
        SettingView::IntoPrefix(p) => RulesView { into_prefix: Some(p), ..r },
        SettingView::GetterVisibility(v) => RulesView { getter_visibility: Some(v), ..r },
        SettingView::SetterVisibility(v) => RulesView { setter_visibility: Some(v), ..r },
        SettingView::Visibility(v) => RulesView {
            getter_visibility: Some(v),
            setter_visibility: Some(v),
            ..r
        },
        SettingView::Inline(m) => RulesView {
            getter_inline: Some(m),
            setter_inline: Some(m),
            ..r
        },
        SettingView::GetterInline(m) => RulesView { getter_inline: Some(m), ..r },
        SettingView::SetterInline(m) => RulesView { setter_inline: Some(m), ..r },
        SettingView::Allow(items) => allowed(r, items),
        SettingView::Except(items) => excepted(r, items),
    }
}

/// The settings of a directive group, in the order written; or the first
/// directive that is refused, with the reason.
pub open spec fn settings_of(directives: Seq<DirectiveView>) -> Result<Seq<SettingView>, RuleError>
    decreases directives.len(),
{
    if directives.len() == 0 {
        Ok(Seq::empty())
    } else {
        match settings_of(directives.drop_last()) {
            Err(e) => Err(e),
            Ok(found) => match setting_of(directives.last()) {
                Err(reason) => Err(
                    RuleError { position: (directives.len() - 1) as usize, reason },
                ),
                Ok(s) => Ok(found.push(s)),
            },
        }
    }
}

/// The rule record after those of the settings that are shorthands, or
/// those that are not, were applied in the order written.
pub open spec fn applied_level(r: RulesView, settings: Seq<SettingView>, shorthand: bool)
    -> RulesView
    decreases settings.len(),
{
    if settings.len() == 0 {
        r
    } else {
        let earlier = applied_level(r, settings.drop_last(), shorthand);
        if is_shorthand(settings.last()) == shorthand {
            applied(earlier, settings.last())
        } else {
            earlier
        }
    }
}

/// The rule record of a list of settings: the defaults, then the
/// shorthands in the order written, then the other settings in the order
/// written.
pub open spec fn settled(settings: Seq<SettingView>) -> RulesView {
    applied_level(applied_level(default_rules(), settings, true), settings, false)
}

/// The rule record of a directive group; or the first directive that is
/// refused, with the reason.
pub open spec fn resolved(directives: Seq<DirectiveView>) -> Result<RulesView, RuleError> {
    match settings_of(directives) {
        Ok(settings) => Ok(settled(settings)),
        Err(e) => Err(e),
    }
}

/// The view of a rule record that was resolved, or the error that it met.
pub open spec fn rules_result_view(result: Result<Rules, RuleError>) -> Result<
    RulesView,
    RuleError,
> {
    match result {
        Ok(rules) => Ok(rules@),
        Err(e) => Err(e),
    }
}

/// The views of the settings that were read, or the error.
pub open spec fn settings_result_view(result: Result<Vec<Setting>, RuleError>) -> Result<
    Seq<SettingView>,
    RuleError,
> {
    match result {
        Ok(settings) => Ok(setting_views(settings@)),
        Err(e) => Err(e),
    }
}

/// A directive group that is refused after its first `n` directives is
/// refused as a whole, with the same error.
pub proof fn lemma_settings_error(directives: Seq<DirectiveView>, n: int)
    requires
        0 <= n <= directives.len(),
        settings_of(directives.take(n)) is Err,
    ensures
        settings_of(directives) == settings_of(directives.take(n)),
    decreases directives.len() - n,
{
    if n < directives.len() {
        assert(directives.take(n + 1).drop_last() =~= directives.take(n));
        lemma_settings_error(directives, n + 1);
    } else {
        assert(directives.take(n) =~= directives);
    }
}

/// Reads the directives of a group in the order written. Fails on the
/// first directive whose key is unknown or whose value is of the wrong
/// kind, and names it.
pub fn parse_settings(directives: &Vec<Directive>) -> (settings: Result<Vec<Setting>, RuleError>)
    ensures
        settings_result_view(settings) == settings_of(directive_views(directives@)),
{
    let ghost views = directive_views(directives@);
    let mut settings: Vec<Setting> = Vec::new();
    let mut i: usize = 0;
    assert(setting_views(settings@) =~= Seq::empty());
    while i < directives.len()
        invariant
            i <= directives.len(),
            views == directive_views(directives@),
            settings_of(views.take(i as int)) == Ok::<Seq<SettingView>, RuleError>(
                setting_views(settings@),
            ),
        decreases directives.len() - i,
    {
        proof {
            assert(views.take(i + 1).drop_last() =~= views.take(i as int));
            assert(views.take(i + 1).last() == directives@[i as int]@);
        }
        let ghost before = setting_views(settings@);
        match Setting::parse(&directives[i]) {
            Ok(setting) => {
                settings.push(setting);
                assert(setting_views(settings@) =~= before.push(setting@));
            },
            Err(reason) => {
                proof {
                    lemma_settings_error(views, i + 1);
                }
                return Err(RuleError { position: i, reason });
            },
        }
        i += 1;
    }
    proof {
        assert(views.take(i as int) =~= views);
    }
    Ok(settings)
}

impl Rules {
    fn allow(self, items: &Vec<Allowed>) -> (rules: Rules)
        ensures
            rules@ == allowed(self@, items@),
    {
        let ghost start = self@;
        let mut rules = self;
        let mut i: usize = 0;
        while i < items.len()
            invariant
                i <= items.len(),
                rules@ == allowed(start, items@.take(i as int)),
            decreases items.len() - i,
        {
            proof {
                assert(items@.take(i + 1).drop_last() =~= items@.take(i as int));
            }
            match items[i] {
                Allowed::Getter => {
                    rules.gen_getter = true;
                },
                Allowed::Setter => {
                    rules.gen_setter = true;
                },
                Allowed::Skip => {
                    rules.gen_getter = false;
                    rules.gen_setter = false;
                },
                Allowed::Extend => {
                    rules.inc_for_vec = true;
                },
            }
            i += 1;
        }
        proof {
            assert(items@.take(i as int) =~= items@);
        }
        rules
    }

    fn except(self, items: &Vec<Excepted>) -> (rules: Rules)
        ensures
            rules@ == excepted(self@, items@),
    {
        let ghost start = self@;
        let mut rules = self;
        let mut i: usize = 0;
        while i < items.len()
            invariant
                i <= items.len(),
                rules@ == excepted(start, items@.take(i as int)),
            decreases items.len() - i,
        {
            proof {
                assert(items@.take(i + 1).drop_last() =~= items@.take(i as int));
            }
            match items[i] {
                Excepted::Getter => {
                    rules.gen_getter = false;
                },
                Excepted::Setter => {
                    rules.gen_setter = false;
                },
                Excepted::Skip => {
                    rules.gen_getter = true;
                    rules.gen_setter = true;
                },
                Excepted::Extend => {
                    rules.inc_for_vec = false;
                },
                Excepted::Into => {
                    rules.gen_into = false;
                },
            }
            i += 1;
        }
        proof {
            assert(items@.take(i as int) =~= items@);
        }
        rules
    }

    /// Applies one setting to the rule record.
    pub fn apply(self, setting: &Setting) -> (rules: Rules)
        ensures
            rules@ == applied(self@, setting@),
    {
        let mut rules = self;
        match setting {
            Setting::Getter(b) => {
                rules.gen_getter = *b;
            },
            Setting::Setter(b) => {
                rules.gen_setter = *b;
            },
            Setting::Skip(b) => {
                rules.gen_getter = !*b;
                rules.gen_setter = !*b;
            },
            Setting::Extend(b) => {
                rules.inc_for_vec = *b;
            },
            Setting::Alias(name) => {
                rules.alias = Some(name.clone());
            },
            Setting::SetterPrefix(p) => {
                if p.as_str().is_empty() {
                    rules.prefix_setter = String::from_str(SETTER_PREFIX_DEFAULT);
                } else {
                    rules.prefix_setter = p.clone();
                }
            },
            Setting::GetterPrefix(p) => {
                rules.prefix_getter = p.clone();
            },
            Setting::IntoPrefix(p) => {
                rules.into_prefix = Some(p.clone());
            },
            Setting::GetterVisibility(v) => {
                rules.getter_visibility = Some(v.clone());
            },
            Setting::SetterVisibility(v) => {
                rules.setter_visibility = Some(v.clone());
            },
            Setting::Visibility(v) => {
                rules.getter_visibility = Some(v.clone());
                rules.setter_visibility = Some(v.clone());
            },
            Setting::Inline(m) => {
                rules.getter_inline = Some(*m);
                rules.setter_inline = Some(*m);
            },
            Setting::GetterInline(m) => {
                rules.getter_inline = Some(*m);
            },
            Setting::SetterInline(m) => {
                rules.setter_inline = Some(*m);
            },
            Setting::Allow(items) => {
                rules = rules.allow(items);
            },
            Setting::Except(items) => {
                rules = rules.except(items);
            },
        }
        rules
    }

    fn apply_level(self, settings: &Vec<Setting>, shorthand: bool) -> (rules: Rules)
        ensures
            rules@ == applied_level(self@, setting_views(settings@), shorthand),
    {
        let ghost start = self@;
        let ghost views = setting_views(settings@);
        let mut rules = self;
        let mut i: usize = 0;
        while i < settings.len()
            invariant
                i <= settings.len(),
                views == setting_views(settings@),
                rules@ == applied_level(start, views.take(i as int), shorthand),
            decreases settings.len() - i,
        {
            proof {
                assert(views.take(i + 1).drop_last() =~= views.take(i as int));
                assert(views.take(i + 1).last() == settings@[i as int]@);
            }
            if settings[i].is_shorthand() == shorthand {
                rules = rules.apply(&settings[i]);
            }
            i += 1;
        }
        proof {
            assert(views.take(i as int) =~= views);
        }
        rules
    }

    /// The rule record of a list of settings. Each switch, each visibility
    /// and each inlining is that of the last directive of its own, else
    /// that of the last shorthand that speaks of it, else the default.
    pub fn settle(settings: &Vec<Setting>) -> (rules: Rules)
        ensures
            rules@ == settled(setting_views(settings@)),
            switches_decided(setting_views(settings@), rules@),
            visibilities_decided(setting_views(settings@), rules@),
            inlining_decided(setting_views(settings@), rules@),
    {
        let rules = Rules::default().apply_level(settings, true).apply_level(settings, false);
        proof {
            law_switches(setting_views(settings@));
            law_visibilities(setting_views(settings@));
            law_inlining(setting_views(settings@));
        }
        rules
    }

    /// Resolves the directives of a field into its rule record. Fails on
    /// the first directive whose key is unknown or whose value is of the
    /// wrong kind, and names it. Each switch, each visibility and each
    /// inlining of the record is that of the last directive of its own,
    /// else that of the last shorthand that speaks of it, else the default.
    pub fn from(field: &Field) -> (rules: Result<Rules, RuleError>)
        ensures
            rules_result_view(rules) == resolved(field@.directives),
            rules matches Ok(r) ==> r@.prefix_setter.len() > 0,
            rules matches Ok(r) ==> settings_of(field@.directives) matches Ok(settings)
                && switches_decided(settings, r@) && visibilities_decided(settings, r@)
                && inlining_decided(settings, r@),
    {
        match parse_settings(&field.directives) {
            Ok(settings) => {
                proof {
                    law_setter_prefix_never_empty(field@.directives);
                }
                Ok(Rules::settle(&settings))
            },
            Err(e) => Err(e),
        }
    }
}

} // verus!
