//! What holds of the generated operations and of the rule record, whatever
//! the field.

use crate::directive::DirectiveView;
use crate::emit::field_generated;
use crate::emit::forms_of;
use crate::emit::getter_of;
use crate::emit::is_movable;
use crate::emit::operation_of;
use crate::emit::setters_of;
use crate::emit::struct_generated;
use crate::field::FieldView;
use crate::model::default_of;
use crate::model::effect;
use crate::model::ItemView;
use crate::model::OutcomeView;
use crate::model::ValueView;
use crate::operation::is_extend;
use crate::operation::Fns;
use crate::resolve::allowed;
use crate::resolve::applied_level;
use crate::resolve::applied;
use crate::resolve::excepted;
use crate::resolve::resolved;
use crate::resolve::settings_of;
use crate::resolve::settled;
use crate::rules::default_rules;
use crate::rules::InlineMode;
use crate::rules::RulesView;
use crate::setting::is_shorthand;
use crate::setting::Allowed;
use crate::setting::Excepted;
use crate::setting::SettingView;
use crate::shape::Shape;
use crate::visibility::is_scoped;
use crate::visibility::inline_token_of;
use crate::visibility::VisibilityTokenView;
use vstd::prelude::*;

verus! {

/// The field after a setter of this form was called with `input`; `None`
/// where there is no such setter or it cannot be called so.
pub open spec fn after_set(form: Fns, field: ValueView, input: ValueView) -> Option<ValueView> {
    match form {
        Fns::Setter(_) => match form.spec_body() {
            Some(body) => match effect(body, field, Some(input)) {
                Some(outcome) => outcome.field,
                None => None,
            },
            None => None,
        },
        _ => None,
    }
}

/// What a getter of this form reads from a field; `None` where there is no
/// such getter.
pub open spec fn read_by(form: Fns, field: ValueView) -> Option<ValueView> {
    match form {
        Fns::Getter(_) => match form.spec_body() {
            Some(body) => match effect(body, field, None) {
                Some(outcome) => outcome.output,
                None => None,
            },
            None => None,
        },
        _ => None,
    }
}

/// Whether a shape is that of an array, plain or optional.
pub open spec fn is_array_shape(shape: Shape) -> bool {
    shape == Shape::Array || shape == Shape::ArrayOfOwnedString || shape == Shape::OptionalArray
        || shape == Shape::OptionalArrayOfOwnedString
}

/// Whether two settings are about the same rules: both the same switch,
/// the same name, the same visibility or the same inlining.
pub open spec fn same_kind(a: SettingView, b: SettingView) -> bool {
    match (a, b) {
        (SettingView::Getter(_), SettingView::Getter(_)) => true,
        (SettingView::Setter(_), SettingView::Setter(_)) => true,
        (SettingView::Skip(_), SettingView::Skip(_)) => true,
        (SettingView::Extend(_), SettingView::Extend(_)) => true,
        (SettingView::Alias(_), SettingView::Alias(_)) => true,
        (SettingView::SetterPrefix(_), SettingView::SetterPrefix(_)) => true,
        (SettingView::GetterPrefix(_), SettingView::GetterPrefix(_)) => true,
        (SettingView::IntoPrefix(_), SettingView::IntoPrefix(_)) => true,
        (SettingView::GetterVisibility(_), SettingView::GetterVisibility(_)) => true,
        (SettingView::SetterVisibility(_), SettingView::SetterVisibility(_)) => true,
        (SettingView::Visibility(_), SettingView::Visibility(_)) => true,
        (SettingView::Inline(_), SettingView::Inline(_)) => true,
        (SettingView::GetterInline(_), SettingView::GetterInline(_)) => true,
        (SettingView::SetterInline(_), SettingView::SetterInline(_)) => true,
        _ => false,
    }
}

/// A scalar field has one setter and a getter, and the getter reads what
/// the setter was given, whatever the field held before.
pub proof fn law_scalar_round_trip(before: ValueView, v: ValueView)
    ensures
        setters_of(Shape::Scalar).len() == 1,
        after_set(setters_of(Shape::Scalar)[0], before, v) == Some(v),
        read_by(getter_of(Shape::Scalar), v) == Some(v),
{
}

/// An appending setter of an array puts the given items behind those that
/// the field holds, in order: on an empty field the field becomes the given
/// items. The getter reads the field as it is.
pub proof fn law_append_concatenates(shape: Shape, k: int, held: Seq<ItemView>, given: Seq<ItemView>)
    requires
        shape == Shape::Array || shape == Shape::ArrayOfOwnedString,
        0 <= k < setters_of(shape).len(),
        setters_of(shape)[k] matches Fns::Setter(ty) && is_extend(ty),
    ensures
        after_set(setters_of(shape)[k], ValueView::Many(held), ValueView::Many(given)) == Some(
            ValueView::Many(held + given),
        ),
        held.len() == 0 ==> after_set(
            setters_of(shape)[k],
            ValueView::Many(held),
            ValueView::Many(given),
        ) == Some(ValueView::Many(given)),
        read_by(getter_of(shape), ValueView::Many(held + given)) == Some(
            ValueView::Many(held + given),
        ),
{
    if given.len() == 0 {
        assert(held + given =~= held);
    }
    if held.len() == 0 {
        assert(held + given =~= given);
    }
}

/// Every setter of an array, plain or optional, replacing or appending,
/// leaves the field as it was when it is given no items.
pub proof fn law_empty_input_keeps_field(shape: Shape, k: int, field: ValueView)
    requires
        is_array_shape(shape),
        0 <= k < setters_of(shape).len(),
    ensures
        after_set(setters_of(shape)[k], field, ValueView::Many(Seq::empty())) == Some(field),
{
}

/// The setter of an optional of an optional leaves the field as it was when
/// it is given the absent optional, and makes it what it is given when that
/// is present: given the present optional of an absent one, the field is
/// that, whatever it held before.
pub proof fn law_nested_optional(field: ValueView, inner: Option<ItemView>)
    ensures
        setters_of(Shape::OptionalOfOptional).len() == 1,
        after_set(setters_of(Shape::OptionalOfOptional)[0], field, ValueView::MaybeMaybe(None))
            == Some(field),
        after_set(
            setters_of(Shape::OptionalOfOptional)[0],
            field,
            ValueView::MaybeMaybe(Some(inner)),
        ) == Some(ValueView::MaybeMaybe(Some(inner))),
{
}

/// A field of any shape but a scalar or a reference has the two operations
/// that move it out. The consuming one yields what the field held and
/// leaves no structure; the other yields what the field held and leaves
/// the field at the default of its kind: the empty string, the empty array,
/// the absent optional.
pub proof fn law_move_out(shape: Shape, field: ValueView)
    requires
        is_movable(shape),
    ensures
        forms_of(shape).contains(Fns::Into),
        forms_of(shape).contains(Fns::Take),
        Fns::Into.spec_body() is Some,
        Fns::Take.spec_body() is Some,
        effect(Fns::Into.spec_body()->0, field, None) == Some(
            OutcomeView { field: None, output: Some(field) },
        ),
        effect(Fns::Take.spec_body()->0, field, None) == Some(
            OutcomeView { field: Some(default_of(field)), output: Some(field) },
        ),
        field is One && field->One_0 is Text ==> default_of(field) == ValueView::One(
            ItemView::Text(Seq::empty()),
        ),
        field is Many ==> default_of(field) == ValueView::Many(Seq::empty()),
        field is Maybe ==> default_of(field) == ValueView::Maybe(None),
        field is MaybeMany ==> default_of(field) == ValueView::MaybeMany(None),
        field is MaybeMaybe ==> default_of(field) == ValueView::MaybeMaybe(None),
{
    let forms = forms_of(shape);
    let n = forms.len() as int;
    assert(forms[n - 2] == Fns::Into);
    assert(forms[n - 1] == Fns::Take);
}

/// Every shape has at least one setter and has a getter, so that no field
/// is left without operations: each setter takes an input and hands
/// nothing out, and the getter reads the field as it is.
pub proof fn law_every_shape_has_accessors(shape: Shape, field: ValueView)
    ensures
        setters_of(shape).len() >= 1,
        forall|k: int|
            0 <= k < setters_of(shape).len() ==> (#[trigger] setters_of(shape)[k]) is Setter
                && setters_of(shape)[k].spec_defined(),
        getter_of(shape) is Getter,
        getter_of(shape).spec_defined(),
        read_by(getter_of(shape), field) == Some(field),
{
}

/// A scalar and a reference are copied, never moved out.
pub proof fn law_copies_stay(shape: Shape)
    requires
        shape == Shape::Scalar || shape == Shape::ReferenceType,
    ensures
        !forms_of(shape).contains(Fns::Into),
        !forms_of(shape).contains(Fns::Take),
{
    let forms = forms_of(shape);
    assert forall|k: int| 0 <= k < forms.len() implies forms[k] != Fns::Into && forms[k]
        != Fns::Take by {}
}

/// The visibility and the inlining of an operation depend on nothing but
/// whether it is a setter: not on its name, not on the field, not on the
/// shape. A setter has the setter's, any other operation the getter's.
pub proof fn law_tokens_attach(
    form: Fns,
    r: RulesView,
    ident: Option<Seq<char>>,
    idx: nat,
    setter_visibility: VisibilityTokenView,
    getter_visibility: VisibilityTokenView,
)
    requires
        operation_of(form, r, ident, idx, setter_visibility, getter_visibility) is Some,
    ensures
        ({
            let op = operation_of(form, r, ident, idx, setter_visibility, getter_visibility)->0;
            &&& op.form == form
            &&& op.field == idx
            &&& form is Setter ==> op.visibility == setter_visibility && op.inline
                == inline_token_of(r.setter_inline)
            &&& !(form is Setter) ==> op.visibility == getter_visibility && op.inline
                == inline_token_of(r.getter_inline)
        }),
{
}

/// Of two settings about the same rules the later one decides.
pub proof fn law_last_write_wins(r: RulesView, first: SettingView, second: SettingView)
    requires
        same_kind(first, second),
    ensures
        applied(applied(r, first), second) == applied(r, second),
{
}

/// The setter prefix of a resolved rule record is never empty.
pub proof fn law_setter_prefix_never_empty(directives: Seq<DirectiveView>)
    ensures
        resolved(directives) matches Ok(r) ==> r.prefix_setter.len() > 0,
{
    reveal_strlit("with");
    match settings_of(directives) {
        Ok(settings) => {
            lemma_level_keeps_prefix(default_rules(), settings, true);
            lemma_level_keeps_prefix(
                applied_level(default_rules(), settings, true),
                settings,
                false,
            );
        },
        Err(_) => {},
    }
}

proof fn lemma_level_keeps_prefix(r: RulesView, settings: Seq<SettingView>, shorthand: bool)
    requires
        r.prefix_setter.len() > 0,
    ensures
        applied_level(r, settings, shorthand).prefix_setter.len() > 0,
    decreases settings.len(),
{
    if settings.len() > 0 {
        lemma_level_keeps_prefix(r, settings.drop_last(), shorthand);
        lemma_applied_keeps_prefix(
            applied_level(r, settings.drop_last(), shorthand),
            settings.last(),
        );
    }
}

proof fn lemma_applied_keeps_prefix(r: RulesView, s: SettingView)
    requires
        r.prefix_setter.len() > 0,
    ensures
        applied(r, s).prefix_setter.len() > 0,
{
    reveal_strlit("with");
    match s {
        SettingView::Allow(items) => {
            lemma_allowed_keeps_prefix(r, items);
        },
        SettingView::Except(items) => {
            lemma_excepted_keeps_prefix(r, items);
        },
        _ => {},
    }
}

/// A switch that a group can speak of.
pub enum Switch {
    Getter,
    Setter,
    Extend,
}

/// The state of a switch in a rule record.
pub open spec fn switch_of(r: RulesView, which: Switch) -> bool {
    match which {
        Switch::Getter => r.gen_getter,
        Switch::Setter => r.gen_setter,
        Switch::Extend => r.inc_for_vec,
    }
}

/// The state of a switch where nothing is written: getter and setter on,
/// the appending setters off.
pub open spec fn switch_default(which: Switch) -> bool {
    match which {
        Switch::Getter => true,
        Switch::Setter => true,
        Switch::Extend => false,
    }
}

/// What one item of an `allow` group says of a switch, if anything.
pub open spec fn allow_item_says(item: Allowed, which: Switch) -> Option<bool> {
    match (item, which) {
        (Allowed::Getter, Switch::Getter) => Some(true),
        (Allowed::Setter, Switch::Setter) => Some(true),
        (Allowed::Extend, Switch::Extend) => Some(true),
        (Allowed::Skip, Switch::Getter) => Some(false),
        (Allowed::Skip, Switch::Setter) => Some(false),
        _ => None,
    }
}

/// What one item of an `except` group says of a switch, if anything.
pub open spec fn except_item_says(item: Excepted, which: Switch) -> Option<bool> {
    match (item, which) {
        (Excepted::Getter, Switch::Getter) => Some(false),
        (Excepted::Setter, Switch::Setter) => Some(false),
        (Excepted::Extend, Switch::Extend) => Some(false),
        (Excepted::Skip, Switch::Getter) => Some(true),
        (Excepted::Skip, Switch::Setter) => Some(true),
        _ => None,
    }
}

/// What an `allow` group says of a switch: what its last item on the
/// switch says.
pub open spec fn allow_says(items: Seq<Allowed>, which: Switch) -> Option<bool>
    decreases items.len(),
{
    if items.len() == 0 {
        None
    } else {
        match allow_item_says(items.last(), which) {
            Some(b) => Some(b),
            None => allow_says(items.drop_last(), which),
        }
    }
}

/// What an `except` group says of a switch: what its last item on the
/// switch says.
pub open spec fn except_says(items: Seq<Excepted>, which: Switch) -> Option<bool>
    decreases items.len(),
{
    if items.len() == 0 {
        None
    } else {
        match except_item_says(items.last(), which) {
            Some(b) => Some(b),
            None => except_says(items.drop_last(), which),
        }
    }
}

/// What a directive of its own says of a switch, if the setting is one.
pub open spec fn own_switch(s: SettingView, which: Switch) -> Option<bool> {
    match (s, which) {
        (SettingView::Getter(b), Switch::Getter) => Some(b),
        (SettingView::Setter(b), Switch::Setter) => Some(b),
        (SettingView::Extend(b), Switch::Extend) => Some(b),
        _ => None,
    }
}

/// What a shorthand says of a switch, if the setting is one that speaks of
/// it. A skip switches getter and setter off, or on where it is `false`.
pub open spec fn short_switch(s: SettingView, which: Switch) -> Option<bool> {
    match s {
        SettingView::Skip(b) => match which {
            Switch::Getter => Some(!b),
            Switch::Setter => Some(!b),
            Switch::Extend => None,
        },
        SettingView::Allow(items) => allow_says(items, which),
        SettingView::Except(items) => except_says(items, which),
        _ => None,
    }
}

/// The visibility that a directive of its own gives the getter (or the
/// setter), if the setting is one.
pub open spec fn own_visibility(s: SettingView, getter: bool) -> Option<Option<Seq<char>>> {
    match s {
        SettingView::GetterVisibility(v) => if getter {
            Some(Some(v))
        } else {
            None
        },
        SettingView::SetterVisibility(v) => if getter {
            None
        } else {
            Some(Some(v))
        },
        _ => None,
    }
}

/// The visibility that the shorthand gives both, if the setting is it.
pub open spec fn short_visibility(s: SettingView) -> Option<Option<Seq<char>>> {
    match s {
        SettingView::Visibility(v) => Some(Some(v)),
        _ => None,
    }
}

/// The inlining that a directive of its own gives the getter (or the
/// setter), if the setting is one.
pub open spec fn own_inline(s: SettingView, getter: bool) -> Option<Option<InlineMode>> {
    match s {
        SettingView::GetterInline(m) => if getter {
            Some(Some(m))
        } else {
            None
        },
        SettingView::SetterInline(m) => if getter {
            None
        } else {
            Some(Some(m))
        },
        _ => None,
    }
}

/// The inlining that the shorthand gives both, if the setting is it.
pub open spec fn short_inline(s: SettingView) -> Option<Option<InlineMode>> {
    match s {
        SettingView::Inline(m) => Some(Some(m)),
        _ => None,
    }
}

/// `own_switch` for one switch, as a function of the setting.
pub open spec fn own_switch_pick(which: Switch) -> spec_fn(SettingView) -> Option<bool> {
    |s: SettingView| own_switch(s, which)
}

/// `short_switch` for one switch, as a function of the setting.
pub open spec fn short_switch_pick(which: Switch) -> spec_fn(SettingView) -> Option<bool> {
    |s: SettingView| short_switch(s, which)
}

/// `own_visibility` for the getter or the setter, as a function of the
/// setting.
pub open spec fn own_visibility_pick(getter: bool) -> spec_fn(SettingView) -> Option<
    Option<Seq<char>>,
> {
    |s: SettingView| own_visibility(s, getter)
}

/// `short_visibility` as a function of the setting.
pub open spec fn short_visibility_pick() -> spec_fn(SettingView) -> Option<Option<Seq<char>>> {
    |s: SettingView| short_visibility(s)
}

/// `own_inline` for the getter or the setter, as a function of the setting.
pub open spec fn own_inline_pick(getter: bool) -> spec_fn(SettingView) -> Option<
    Option<InlineMode>,
> {
    |s: SettingView| own_inline(s, getter)
}

/// `short_inline` as a function of the setting.
pub open spec fn short_inline_pick() -> spec_fn(SettingView) -> Option<Option<InlineMode>> {
    |s: SettingView| short_inline(s)
}

/// What the last of the settings says from which `pick` takes anything.
pub open spec fn last_of<T>(settings: Seq<SettingView>, pick: spec_fn(SettingView) -> Option<T>)
    -> Option<T>
    decreases settings.len(),
{
    if settings.len() == 0 {
        None
    } else {
        match pick(settings.last()) {
            Some(x) => Some(x),
            None => last_of(settings.drop_last(), pick),
        }
    }
}

/// What decides a rule: the directive of its own, else the shorthand, else
/// the default.
pub open spec fn decided<T>(own: Option<T>, shorthand: Option<T>, default: T) -> T {
    match own {
        Some(x) => x,
        None => match shorthand {
            Some(x) => x,
            None => default,
        },
    }
}

/// Whether a switch of `r` is what the settings decide: what the last
/// directive of its own says, else what the last shorthand on it says,
/// else its default.
pub open spec fn switch_decided(settings: Seq<SettingView>, r: RulesView, which: Switch) -> bool {
    switch_of(r, which) == decided(
        last_of(settings, own_switch_pick(which)),
        last_of(settings, short_switch_pick(which)),
        switch_default(which),
    )
}

/// Whether the three switches of `r` are what the settings decide.
pub open spec fn switches_decided(settings: Seq<SettingView>, r: RulesView) -> bool {
    &&& switch_decided(settings, r, Switch::Getter)
    &&& switch_decided(settings, r, Switch::Setter)
    &&& switch_decided(settings, r, Switch::Extend)
}

/// Whether the two visibilities of `r` are what the settings decide: that
/// of the last `getter_visibility` (or `setter_visibility`), else that of
/// the last `visibility`, else none.
pub open spec fn visibilities_decided(settings: Seq<SettingView>, r: RulesView) -> bool {
    &&& r.getter_visibility == decided(
        last_of(settings, own_visibility_pick(true)),
        last_of(settings, short_visibility_pick()),
        None,
    )
    &&& r.setter_visibility == decided(
        last_of(settings, own_visibility_pick(false)),
        last_of(settings, short_visibility_pick()),
        None,
    )
}

/// Whether the two inlinings of `r` are what the settings decide: that of
/// the last `getter_inline` (or `setter_inline`), else that of the last
/// `inline`, else the default.
pub open spec fn inlining_decided(settings: Seq<SettingView>, r: RulesView) -> bool {
    &&& r.getter_inline == decided(
        last_of(settings, own_inline_pick(true)),
        last_of(settings, short_inline_pick()),
        default_rules().getter_inline,
    )
    &&& r.setter_inline == decided(
        last_of(settings, own_inline_pick(false)),
        last_of(settings, short_inline_pick()),
        default_rules().setter_inline,
    )
}

/// An `allow` group writes the three switches and nothing else.
proof fn lemma_allowed_frame(r: RulesView, items: Seq<Allowed>)
    ensures
        allowed(r, items) == (RulesView {
            gen_getter: allowed(r, items).gen_getter,
            gen_setter: allowed(r, items).gen_setter,
            inc_for_vec: allowed(r, items).inc_for_vec,
            ..r
        }),
    decreases items.len(),
{
    if items.len() > 0 {
        lemma_allowed_frame(r, items.drop_last());
    }
}

/// An `allow` group writes a switch as its last item on it says.
proof fn lemma_allowed_switch(r: RulesView, items: Seq<Allowed>, which: Switch)
    ensures
        switch_of(allowed(r, items), which) == (match allow_says(items, which) {
            Some(b) => b,
            None => switch_of(r, which),
        }),
    decreases items.len(),
{
    if items.len() > 0 {
        lemma_allowed_switch(r, items.drop_last(), which);
    }
}

/// An `except` group writes the three switches and the move-out and
/// nothing else.
proof fn lemma_excepted_frame(r: RulesView, items: Seq<Excepted>)
    ensures
        excepted(r, items) == (RulesView {
            gen_getter: excepted(r, items).gen_getter,
            gen_setter: excepted(r, items).gen_setter,
            inc_for_vec: excepted(r, items).inc_for_vec,
            gen_into: excepted(r, items).gen_into,
            ..r
        }),
    decreases items.len(),
{
    if items.len() > 0 {
        lemma_excepted_frame(r, items.drop_last());
    }
}

/// An `except` group writes a switch as its last item on it says.
proof fn lemma_excepted_switch(r: RulesView, items: Seq<Excepted>, which: Switch)
    ensures
        switch_of(excepted(r, items), which) == (match except_says(items, which) {
            Some(b) => b,
            None => switch_of(r, which),
        }),
    decreases items.len(),
{
    if items.len() > 0 {
        lemma_excepted_switch(r, items.drop_last(), which);
    }
}

proof fn lemma_allowed_keeps_prefix(r: RulesView, items: Seq<Allowed>)
    ensures
        allowed(r, items).prefix_setter == r.prefix_setter,
{
    lemma_allowed_frame(r, items);
}

proof fn lemma_excepted_keeps_prefix(r: RulesView, items: Seq<Excepted>)
    ensures
        excepted(r, items).prefix_setter == r.prefix_setter,
{
    lemma_excepted_frame(r, items);
}

/// Where every setting of one level writes a rule as `pick` says or
/// leaves it, the rule after the level is what the last such setting says,
/// or what it was.
proof fn lemma_level<F>(
    r: RulesView,
    settings: Seq<SettingView>,
    shorthand: bool,
    pick: spec_fn(SettingView) -> Option<F>,
    get: spec_fn(RulesView) -> F,
)
    requires
        forall|q: RulesView, s: SettingView|
            is_shorthand(s) == shorthand ==> get(#[trigger] applied(q, s)) == (match pick(s) {
                Some(x) => x,
                None => get(q),
            }),
        forall|s: SettingView| is_shorthand(s) != shorthand ==> (#[trigger] pick(s)) is None,
    ensures
        get(applied_level(r, settings, shorthand)) == (match last_of(settings, pick) {
            Some(x) => x,
            None => get(r),
        }),
    decreases settings.len(),
{
    if settings.len() > 0 {
        lemma_level(r, settings.drop_last(), shorthand, pick, get);
    }
}

/// Each switch of a settled rule record is what the last directive of its
/// own says; where there is none, what the last shorthand on it says
/// (`skip`, or an item of `allow` or `except`); where there is none
/// either, its default. A directive of its own beats a shorthand wherever
/// the two stand.
pub proof fn law_switches(settings: Seq<SettingView>)
    ensures
        switches_decided(settings, settled(settings)),
{
    lemma_switch(settings, Switch::Getter);
    lemma_switch(settings, Switch::Setter);
    lemma_switch(settings, Switch::Extend);
}

proof fn lemma_switch(settings: Seq<SettingView>, which: Switch)
    ensures
        switch_decided(settings, settled(settings), which),
{
    let get = |q: RulesView| switch_of(q, which);
    let own = own_switch_pick(which);
    let short = short_switch_pick(which);
    assert forall|q: RulesView, s: SettingView| is_shorthand(s) implies get(
        #[trigger] applied(q, s),
    ) == (match short(s) {
        Some(x) => x,
        None => get(q),
    }) by {
        match s {
            SettingView::Allow(items) => {
                lemma_allowed_switch(q, items, which);
            },
            SettingView::Except(items) => {
                lemma_excepted_switch(q, items, which);
            },
            _ => {},
        }
    }
    let first = applied_level(default_rules(), settings, true);
    lemma_level(default_rules(), settings, true, short, get);
    lemma_level(first, settings, false, own, get);
}

/// Each visibility of a settled rule record is that of the last
/// `getter_visibility` (or `setter_visibility`) directive; where there is
/// none, that of the last `visibility` directive; where there is none
/// either, none. The directive of its own beats the shorthand wherever the
/// two stand.
pub proof fn law_visibilities(settings: Seq<SettingView>)
    ensures
        visibilities_decided(settings, settled(settings)),
{
    lemma_visibility(settings, true);
    lemma_visibility(settings, false);
}

proof fn lemma_visibility(settings: Seq<SettingView>, getter: bool)
    ensures
        (if getter {
            settled(settings).getter_visibility
        } else {
            settled(settings).setter_visibility
        }) == decided(
            last_of(settings, own_visibility_pick(getter)),
            last_of(settings, short_visibility_pick()),
            None,
        ),
{
    let get = |q: RulesView|
        if getter {
            q.getter_visibility
        } else {
            q.setter_visibility
        };
    let own = own_visibility_pick(getter);
    let short = short_visibility_pick();
    assert forall|q: RulesView, s: SettingView| is_shorthand(s) implies get(
        #[trigger] applied(q, s),
    ) == (match short(s) {
        Some(x) => x,
        None => get(q),
    }) by {
        match s {
            SettingView::Allow(items) => {
                lemma_allowed_frame(q, items);
            },
            SettingView::Except(items) => {
                lemma_excepted_frame(q, items);
            },
            _ => {},
        }
    }
    let first = applied_level(default_rules(), settings, true);
    lemma_level(default_rules(), settings, true, short, get);
    lemma_level(first, settings, false, own, get);
}

/// Each inlining of a settled rule record is that of the last
/// `getter_inline` (or `setter_inline`) directive; where there is none,
/// that of the last `inline` directive; where there is none either, the
/// default. The directive of its own beats the shorthand wherever the two
/// stand.
pub proof fn law_inlining(settings: Seq<SettingView>)
    ensures
        inlining_decided(settings, settled(settings)),
{
    lemma_inline(settings, true);
    lemma_inline(settings, false);
}

proof fn lemma_inline(settings: Seq<SettingView>, getter: bool)
    ensures
        (if getter {
            settled(settings).getter_inline
        } else {
            settled(settings).setter_inline
        }) == decided(
            last_of(settings, own_inline_pick(getter)),
            last_of(settings, short_inline_pick()),
            if getter {
                default_rules().getter_inline
            } else {
                default_rules().setter_inline
            },
        ),
{
    let get = |q: RulesView|
        if getter {
            q.getter_inline
        } else {
            q.setter_inline
        };
    let own = own_inline_pick(getter);
    let short = short_inline_pick();
    assert forall|q: RulesView, s: SettingView| is_shorthand(s) implies get(
        #[trigger] applied(q, s),
    ) == (match short(s) {
        Some(x) => x,
        None => get(q),
    }) by {
        match s {
            SettingView::Allow(items) => {
                lemma_allowed_frame(q, items);
            },
            SettingView::Except(items) => {
                lemma_excepted_frame(q, items);
            },
            _ => {},
        }
    }
    let first = applied_level(default_rules(), settings, true);
    lemma_level(default_rules(), settings, true, short, get);
    lemma_level(first, settings, false, own, get);
}

/// The move-out of a settled rule record is on unless an `except` group
/// names it.
pub proof fn law_move_out_switch(settings: Seq<SettingView>)
    ensures
        settled(settings).gen_into == (forall|i: int|
            0 <= i < settings.len() ==> !excepts_into(#[trigger] settings[i])),
{
    lemma_into_level(default_rules(), settings, true);
    lemma_into_level(applied_level(default_rules(), settings, true), settings, false);
    let first = applied_level(default_rules(), settings, true);
    if first.gen_into {
        assert forall|i: int| 0 <= i < settings.len() implies !excepts_into(
            #[trigger] settings[i],
        ) by {}
    }
}

/// Whether a setting is an `except` group that names the move-out.
pub open spec fn excepts_into(s: SettingView) -> bool {
    s matches SettingView::Except(items) && items.contains(Excepted::Into)
}

proof fn lemma_into_level(r: RulesView, settings: Seq<SettingView>, shorthand: bool)
    ensures
        applied_level(r, settings, shorthand).gen_into == (r.gen_into && (shorthand
            ==> forall|i: int| 0 <= i < settings.len() ==> !excepts_into(#[trigger] settings[i]))),
    decreases settings.len(),
{
    if settings.len() > 0 {
        let earlier = settings.drop_last();
        lemma_into_level(r, earlier, shorthand);
        let q = applied_level(r, earlier, shorthand);
        match settings.last() {
            SettingView::Except(items) => {
                lemma_excepted_into(q, items);
            },
            SettingView::Allow(items) => {
                lemma_allowed_frame(q, items);
            },
            _ => {},
        }
        assert forall|i: int| 0 <= i < earlier.len() implies earlier[i] == settings[i] by {}
        if shorthand && r.gen_into {
            if forall|i: int| 0 <= i < settings.len() ==> !excepts_into(#[trigger] settings[i]) {
                assert forall|i: int| 0 <= i < earlier.len() implies !excepts_into(
                    #[trigger] earlier[i],
                ) by {
                    assert(earlier[i] == settings[i]);
                }
            } else {
                let i = choose|i: int| 0 <= i < settings.len() && excepts_into(settings[i]);
                if i < earlier.len() {
                    assert(excepts_into(earlier[i]));
                } else {
                    assert(excepts_into(settings.last()));
                }
            }
        }
    }
}

proof fn lemma_excepted_into(r: RulesView, items: Seq<Excepted>)
    ensures
        excepted(r, items).gen_into == (r.gen_into && !items.contains(Excepted::Into)),
    decreases items.len(),
{
    if items.len() > 0 {
        let earlier = items.drop_last();
        lemma_excepted_into(r, earlier);
        if earlier.contains(Excepted::Into) {
            let i = choose|i: int| 0 <= i < earlier.len() && earlier[i] == Excepted::Into;
            assert(items[i] == Excepted::Into);
        }
        if items.contains(Excepted::Into) && !earlier.contains(Excepted::Into) {
            let i = choose|i: int| 0 <= i < items.len() && items[i] == Excepted::Into;
            if i < earlier.len() {
                assert(earlier[i] == Excepted::Into);
            }
        }
        if items.last() == Excepted::Into {
            assert(items[items.len() - 1] == Excepted::Into);
        }
    }
}

/// Whether neither visibility of a field's rule record is scoped to a path.
pub open spec fn is_path_free(f: FieldView) -> bool {
    match resolved(f.directives) {
        Ok(r) => (r.setter_visibility matches Some(v) ==> !is_scoped(v)) && (
        r.getter_visibility matches Some(v) ==> !is_scoped(v)),
        Err(_) => true,
    }
}

/// What is generated for a field without a scoped visibility does not
/// depend on any path.
pub proof fn law_path_free_field(f: FieldView, idx: nat, a: bool, b: bool, c: bool, d: bool)
    requires
        is_path_free(f),
    ensures
        field_generated(f, idx, a, b) == field_generated(f, idx, c, d),
{
}

/// Whether no field of a structure has a visibility scoped to a path.
pub open spec fn is_path_free_struct(fields: Seq<FieldView>) -> bool {
    forall|i: int| 0 <= i < fields.len() ==> is_path_free(#[trigger] fields[i])
}

/// What is generated for a structure without a scoped visibility does not
/// depend on any path.
pub proof fn law_path_free_struct(
    fields: Seq<FieldView>,
    one: Seq<(bool, bool)>,
    other: Seq<(bool, bool)>,
)
    requires
        is_path_free_struct(fields),
    ensures
        struct_generated(fields, one) == struct_generated(fields, other),
    decreases fields.len(),
{
    if fields.len() > 0 {
        let last = fields.len() - 1;
        law_path_free_struct(fields.drop_last(), one.drop_last(), other.drop_last());
        law_path_free_field(
            fields[last],
            last as nat,
            one[last].0,
            one[last].1,
            other[last].0,
            other[last].1,
        );
    }
}

} // verus!
