//! From a field and its rule record to the operations generated for it.

use crate::directive::EXTEND;
use crate::directive::OWNED;
use crate::error::BuildError;
use crate::error::FieldError;
use crate::field::field_views;
use crate::field::Field;
use crate::field::FieldView;
use crate::laws::is_path_free;
use crate::laws::is_path_free_struct;
use crate::laws::law_path_free_struct;
use crate::names::getter_name;
use crate::names::into_name;
use crate::names::setter_name;
use crate::names::suffixed;
use crate::names::take_name;
use crate::operation::is_extend;
use crate::operation::is_owned;
use crate::operation::operation_views;
use crate::operation::Fns;
use crate::operation::Operation;
use crate::operation::OperationView;
use crate::operation::Tys;
use crate::resolve::resolved;
use crate::rules::Rules;
use crate::rules::RulesView;
use crate::shape::classify;
use crate::shape::shape_of;
use crate::shape::Element;
use crate::shape::Shape;
use crate::text::join;
use crate::visibility::inline_token_of;
use crate::visibility::token_result_view;
use crate::visibility::visibility_token_of;
use crate::visibility::VisibilityToken;
use crate::visibility::VisibilityTokenView;
use vstd::prelude::*;

verus! {

/// The setters of a shape, in the order in which they are generated. The
/// appending ones are listed whether or not the rule record asks for them.
pub open spec fn setters_of(shape: Shape) -> Seq<Fns> {
    match shape {
        Shape::Scalar => seq![Fns::Setter(Tys::Basic)],
        Shape::OwnedString => seq![Fns::Setter(Tys::Text)],
        Shape::Array => seq![Fns::Setter(Tys::List), Fns::Setter(Tys::ListExtend)],
        Shape::ArrayOfOwnedString => seq![
            Fns::Setter(Tys::TextList),
            Fns::Setter(Tys::TextListOwned),
            Fns::Setter(Tys::TextListExtend),
            Fns::Setter(Tys::TextListExtendOwned),
        ],
        Shape::Optional(_) => seq![Fns::Setter(Tys::Optional)],
        Shape::OptionalOfOptional => seq![Fns::Setter(Tys::Nested)],
        Shape::OptionalOwnedString => seq![Fns::Setter(Tys::OptionalText)],
        Shape::OptionalArray => seq![Fns::Setter(Tys::OptionalList)],
        Shape::OptionalArrayOfOwnedString => seq![
            Fns::Setter(Tys::OptionalTextList),
            Fns::Setter(Tys::OptionalTextListOwned),
        ],
        Shape::ReferenceType => seq![Fns::Setter(Tys::Basic)],
        Shape::FixedArrayOrTuple => seq![Fns::Setter(Tys::Basic)],
        Shape::Fallback => seq![Fns::Setter(Tys::Basic)],
    }
}

/// The getter of a shape. Scalars and references are handed out by copy,
/// and so is the content of an optional that holds one of them; strings and
/// arrays are handed out as slices; anything else by reference.
pub open spec fn getter_of(shape: Shape) -> Fns {
    match shape {
        Shape::Scalar => Fns::Getter(Tys::Basic),
        Shape::OwnedString => Fns::Getter(Tys::Text),
        Shape::Array => Fns::Getter(Tys::List),
        Shape::ArrayOfOwnedString => Fns::Getter(Tys::List),
        Shape::Optional(Element::Primitive) => Fns::Getter(Tys::Optional),
        Shape::Optional(Element::Reference) => Fns::Getter(Tys::Optional),
        Shape::Optional(Element::Opaque) => Fns::Getter(Tys::OptionalRef),
        Shape::OptionalOfOptional => Fns::Getter(Tys::OptionalRef),
        Shape::OptionalOwnedString => Fns::Getter(Tys::OptionalText),
        Shape::OptionalArray => Fns::Getter(Tys::OptionalList),
        Shape::OptionalArrayOfOwnedString => Fns::Getter(Tys::OptionalList),
        Shape::ReferenceType => Fns::Getter(Tys::Basic),
        Shape::FixedArrayOrTuple => Fns::Getter(Tys::Ref),
        Shape::Fallback => Fns::Getter(Tys::Ref),
    }
}

/// Whether a field of this shape can be moved out: every shape but the
/// scalars and the references, which are copied.
pub open spec fn is_movable(shape: Shape) -> bool {
    shape != Shape::Scalar && shape != Shape::ReferenceType
}

/// The forms of a shape, in the order in which they are generated: the
/// setters, the getter, and for a shape that can be moved out the two
/// operations that do so.
pub open spec fn forms_of(shape: Shape) -> Seq<Fns> {
    let accessors = setters_of(shape).push(getter_of(shape));
    if is_movable(shape) {
        accessors.push(Fns::Into).push(Fns::Take)
    } else {
        accessors
    }
}

/// Whether the rule record lets an operation of this form be generated. A
/// setter needs the setters on, and an appending one the appending too; a
/// getter needs the getter on; moving out needs the move-out on.
pub open spec fn is_wanted(fn_type: Fns, r: RulesView) -> bool {
    match fn_type {
        Fns::Setter(ty) => r.gen_setter && (is_extend(ty) ==> r.inc_for_vec),
        Fns::Getter(_) => r.gen_getter,
        Fns::Into => r.gen_into,
        Fns::Take => r.gen_into,
    }
}

/// The name of a setter: the setter's name, then `extend` where it appends,
/// then `owned` where it takes owned strings.
pub open spec fn setter_form_name(ty: Tys, base: Seq<char>) -> Seq<char> {
    let appended = if is_extend(ty) {
        suffixed(base, EXTEND@)
    } else {
        base
    };
    if is_owned(ty) {
        suffixed(appended, OWNED@)
    } else {
        appended
    }
}

/// The name of an operation.
pub open spec fn operation_name(fn_type: Fns, r: RulesView, ident: Option<Seq<char>>, idx: nat)
    -> Seq<char> {
    match fn_type {
        Fns::Setter(ty) => setter_form_name(ty, setter_name(r, ident, idx)),
        Fns::Getter(_) => getter_name(r, ident, idx),
        Fns::Into => into_name(r, ident, idx),
        Fns::Take => take_name(r, ident, idx),
    }
}

/// The operation generated for one form, if any: none where the rule
/// record does not want it or no operation has this form. A setter carries
/// the setter's visibility and inlining; a getter and the operations that
/// move the field out carry the getter's.
pub open spec fn operation_of(
    fn_type: Fns,
    r: RulesView,
    ident: Option<Seq<char>>,
    idx: nat,
    setter_visibility: VisibilityTokenView,
    getter_visibility: VisibilityTokenView,
) -> Option<OperationView> {
    if is_wanted(fn_type, r) && fn_type.spec_defined() {
        Some(
            OperationView {
                field: idx,
                form: fn_type,
                name: operation_name(fn_type, r, ident, idx),
                visibility: if fn_type is Setter {
                    setter_visibility
                } else {
                    getter_visibility
                },
                inline: if fn_type is Setter {
                    inline_token_of(r.setter_inline)
                } else {
                    inline_token_of(r.getter_inline)
                },
            },
        )
    } else {
        None
    }
}

/// The operations generated for a list of forms, in order.
pub open spec fn operations_of(
    forms: Seq<Fns>,
    r: RulesView,
    ident: Option<Seq<char>>,
    idx: nat,
    setter_visibility: VisibilityTokenView,
    getter_visibility: VisibilityTokenView,
) -> Seq<OperationView>
    decreases forms.len(),
{
    if forms.len() == 0 {
        Seq::empty()
    } else {
        let earlier = operations_of(
            forms.drop_last(),
            r,
            ident,
            idx,
            setter_visibility,
            getter_visibility,
        );
        match operation_of(forms.last(), r, ident, idx, setter_visibility, getter_visibility) {
            Some(operation) => earlier.push(operation),
            None => earlier,
        }
    }
}

/// The operations of a field under a rule record: those of the forms of
/// its shape.
pub open spec fn field_operations(
    f: FieldView,
    idx: nat,
    r: RulesView,
    setter_visibility: VisibilityTokenView,
    getter_visibility: VisibilityTokenView,
) -> Seq<OperationView> {
    operations_of(
        forms_of(shape_of(f.ty)),
        r,
        f.ident,
        idx,
        setter_visibility,
        getter_visibility,
    )
}

/// What is generated for a field: its directives are resolved, the two
/// visibilities are made into tokens, the setter's first, and the
/// operations of its shape follow. `setter_path_ok` and `getter_path_ok`
/// say whether the path of a scoped visibility is a path.
pub open spec fn field_generated(
    f: FieldView,
    idx: nat,
    setter_path_ok: bool,
    getter_path_ok: bool,
) -> Result<Seq<OperationView>, FieldError> {
    match resolved(f.directives) {
        Err(e) => Err(
            FieldError { field: idx as usize, directive: Some(e.position), reason: e.reason },
        ),
        Ok(r) => match visibility_token_of(r.setter_visibility, setter_path_ok) {
            Err(reason) => Err(FieldError { field: idx as usize, directive: None, reason }),
            Ok(setter_visibility) => match visibility_token_of(
                r.getter_visibility,
                getter_path_ok,
            ) {
                Err(reason) => Err(FieldError { field: idx as usize, directive: None, reason }),
                Ok(getter_visibility) => Ok(
                    field_operations(f, idx, r, setter_visibility, getter_visibility),
                ),
            },
        },
    }
}

/// What is generated for the fields of a structure: the operations of each
/// field in the order of the fields, or the error of the first field that
/// is refused. `paths_ok` holds for each field what `field_generated` asks.
pub open spec fn struct_generated(fields: Seq<FieldView>, paths_ok: Seq<(bool, bool)>) -> Result<
    Seq<OperationView>,
    FieldError,
>
    recommends
        paths_ok.len() == fields.len(),
    decreases fields.len(),
{
    if fields.len() == 0 {
        Ok(Seq::empty())
    } else {
        let last = fields.len() - 1;
        match struct_generated(fields.drop_last(), paths_ok.drop_last()) {
            Err(e) => Err(e),
            Ok(earlier) => match field_generated(
                fields[last],
                last as nat,
                paths_ok[last].0,
                paths_ok[last].1,
            ) {
                Err(e) => Err(e),
                Ok(operations) => Ok(earlier + operations),
            },
        }
    }
}

/// What to hand to `struct_generated` for a structure of `n` fields of
/// which none has a visibility scoped to a path.
pub open spec fn no_paths(n: nat) -> Seq<(bool, bool)> {
    Seq::new(n, |i: int| (true, true))
}

/// The views of the operations that were generated, or the error.
pub open spec fn generated_view(result: Result<Vec<Operation>, FieldError>) -> Result<
    Seq<OperationView>,
    FieldError,
> {
    match result {
        Ok(operations) => Ok(operation_views(operations@)),
        Err(e) => Err(e),
    }
}

fn extends(ty: Tys) -> (found: bool)
    ensures
        found == is_extend(ty),
{
    match ty {
        Tys::ListExtend | Tys::TextListExtend | Tys::TextListExtendOwned => true,
        _ => false,
    }
}

fn owns(ty: Tys) -> (found: bool)
    ensures
        found == is_owned(ty),
{
    match ty {
        Tys::TextListOwned | Tys::TextListExtendOwned | Tys::OptionalTextListOwned => true,
        _ => false,
    }
}

fn setter_forms(shape: Shape) -> (forms: Vec<Fns>)
    ensures
        forms@ == setters_of(shape),
{
    let mut forms: Vec<Fns> = Vec::new();
    match shape {
        Shape::Scalar | Shape::ReferenceType | Shape::FixedArrayOrTuple | Shape::Fallback => {
            forms.push(Fns::Setter(Tys::Basic));
        },
        Shape::OwnedString => {
            forms.push(Fns::Setter(Tys::Text));
        },
        Shape::Array => {
            forms.push(Fns::Setter(Tys::List));
            forms.push(Fns::Setter(Tys::ListExtend));
        },
        Shape::ArrayOfOwnedString => {
            forms.push(Fns::Setter(Tys::TextList));
            forms.push(Fns::Setter(Tys::TextListOwned));
            forms.push(Fns::Setter(Tys::TextListExtend));
            forms.push(Fns::Setter(Tys::TextListExtendOwned));
        },
        Shape::Optional(_) => {
            forms.push(Fns::Setter(Tys::Optional));
        },
        Shape::OptionalOfOptional => {
            forms.push(Fns::Setter(Tys::Nested));
        },
        Shape::OptionalOwnedString => {
            forms.push(Fns::Setter(Tys::OptionalText));
        },
        Shape::OptionalArray => {
            forms.push(Fns::Setter(Tys::OptionalList));
        },
        Shape::OptionalArrayOfOwnedString => {
            forms.push(Fns::Setter(Tys::OptionalTextList));
            forms.push(Fns::Setter(Tys::OptionalTextListOwned));
        },
    }
    assert(forms@ =~= setters_of(shape));
    forms
}

fn getter_form(shape: Shape) -> (form: Fns)
    ensures
        form == getter_of(shape),
{
    match shape {
        Shape::Scalar | Shape::ReferenceType => Fns::Getter(Tys::Basic),
        Shape::OwnedString => Fns::Getter(Tys::Text),
        Shape::Array | Shape::ArrayOfOwnedString => Fns::Getter(Tys::List),
        Shape::Optional(element) => match element {
            Element::Opaque => Fns::Getter(Tys::OptionalRef),
            _ => Fns::Getter(Tys::Optional),
        },
        Shape::OptionalOfOptional => Fns::Getter(Tys::OptionalRef),
        Shape::OptionalOwnedString => Fns::Getter(Tys::OptionalText),
        Shape::OptionalArray | Shape::OptionalArrayOfOwnedString => Fns::Getter(
            Tys::OptionalList,
        ),
        Shape::FixedArrayOrTuple | Shape::Fallback => Fns::Getter(Tys::Ref),
    }
}

/// The forms of a shape, in the order in which they are generated.
pub fn forms(shape: Shape) -> (forms: Vec<Fns>)
    ensures
        forms@ == forms_of(shape),
{
    let mut forms = setter_forms(shape);
    forms.push(getter_form(shape));
    match shape {
        Shape::Scalar | Shape::ReferenceType => {},
        _ => {
            forms.push(Fns::Into);
            forms.push(Fns::Take);
        },
    }
    forms
}

/// Generates the operation of one form for a field, where the rule record
/// wants it and there is one, and adds it to `codes`.
pub fn generate(
    field: &Field,
    rules: &Rules,
    idx: usize,
    setter_visibility: &VisibilityToken,
    getter_visibility: &VisibilityToken,
    codes: &mut Vec<Operation>,
    fn_type: Fns,
)
    ensures
        operation_views(final(codes)@) == match operation_of(
            fn_type,
            rules@,
            field@.ident,
            idx as nat,
            setter_visibility@,
            getter_visibility@,
        ) {
            Some(operation) => operation_views(old(codes)@).push(operation),
            None => operation_views(old(codes)@),
        },
{
    if fn_type.signature().is_none() {
        return ;
    }
    let operation = match fn_type {
        Fns::Setter(ty) => {
            if !rules.gen_setter || (extends(ty) && !rules.inc_for_vec) {
                return ;
            }
            let (setter_name, _) = rules.generate_setter_getter_names(field, idx);
            let appended = if extends(ty) {
                join(setter_name.as_str(), EXTEND)
            } else {
                setter_name
            };
            let name = if owns(ty) {
                join(appended.as_str(), OWNED)
            } else {
                appended
            };
            Operation {
                field: idx,
                form: fn_type,
                name,
                visibility: setter_visibility.copy(),
                inline: rules.setter_inline_token(),
            }
        },
        Fns::Getter(_) => {
            if !rules.gen_getter {
                return ;
            }
            let (_, getter_name) = rules.generate_setter_getter_names(field, idx);
            Operation {
                field: idx,
                form: fn_type,
                name: getter_name,
                visibility: getter_visibility.copy(),
                inline: rules.getter_inline_token(),
            }
        },
        Fns::Into => {
            if !rules.gen_into {
                return ;
            }
            let (into_name, _) = rules.generate_into_take_names(field, idx);
            Operation {
                field: idx,
                form: fn_type,
                name: into_name,
                visibility: getter_visibility.copy(),
                inline: rules.getter_inline_token(),
            }
        },
        Fns::Take => {
            if !rules.gen_into {
                return ;
            }
            let (_, take_name) = rules.generate_into_take_names(field, idx);
            Operation {
                field: idx,
                form: fn_type,
                name: take_name,
                visibility: getter_visibility.copy(),
                inline: rules.getter_inline_token(),
            }
        },
    };
    codes.push(operation);
    assert(operation_views(codes@) =~= operation_views(old(codes)@).push(operation@));
}

/// Generates the operations of a field under a rule record that is already
/// resolved, with the tokens of its two visibilities, and adds them to
/// `codes`.
pub fn emit_field(
    field: &Field,
    rules: &Rules,
    idx: usize,
    setter_visibility: &VisibilityToken,
    getter_visibility: &VisibilityToken,
    codes: &mut Vec<Operation>,
)
    ensures
        operation_views(final(codes)@) == operation_views(old(codes)@) + field_operations(
            field@,
            idx as nat,
            rules@,
            setter_visibility@,
            getter_visibility@,
        ),
{
    let forms = forms(classify(&field.ty));
    let ghost start = operation_views(codes@);
    let mut i: usize = 0;
    while i < forms.len()
        invariant
            i <= forms.len(),
            forms@ == forms_of(shape_of(field@.ty)),
            operation_views(codes@) == start + operations_of(
                forms@.take(i as int),
                rules@,
                field@.ident,
                idx as nat,
                setter_visibility@,
                getter_visibility@,
            ),
        decreases forms.len() - i,
    {
        proof {
            assert(forms@.take(i + 1).drop_last() =~= forms@.take(i as int));
        }
        let ghost before = operations_of(
            forms@.take(i as int),
            rules@,
            field@.ident,
            idx as nat,
            setter_visibility@,
            getter_visibility@,
        );
        generate(field, rules, idx, setter_visibility, getter_visibility, codes, forms[i]);
        proof {
            match operation_of(
                forms@[i as int],
                rules@,
                field@.ident,
                idx as nat,
                setter_visibility@,
                getter_visibility@,
            ) {
                Some(operation) => {
                    assert((start + before).push(operation) =~= start + before.push(operation));
                },
                None => {},
            }
        }
        i += 1;
    }
    proof {
        assert(forms@.take(i as int) =~= forms@);
    }
}

/// What the driver hands over: the fields of a structure, or the news that
/// the input is something else.
#[derive(Clone, Debug, PartialEq, Eq)]
pub enum Data {
    Struct(Vec<Field>),
    Enum,
    Union,
}

/// Whether a call for one field ended as `expected` says: with the expected
/// operations added to those that were there, or with the expected error
/// and nothing added.
pub open spec fn field_outcome(
    result: Result<(), FieldError>,
    before: Seq<OperationView>,
    after: Seq<OperationView>,
    expected: Result<Seq<OperationView>, FieldError>,
) -> bool {
    match expected {
        Ok(operations) => result is Ok && after == before + operations,
        Err(e) => result == Err::<(), FieldError>(e) && after == before,
    }
}

/// What is generated for an input: the operations of a structure, or the
/// refusal of anything else.
pub open spec fn build_generated(
    data: Data,
    paths_ok: Seq<(bool, bool)>,
) -> Result<Seq<OperationView>, BuildError> {
    match data {
        Data::Struct(fields) => match struct_generated(field_views(fields@), paths_ok) {
            Ok(operations) => Ok(operations),
            Err(e) => Err(BuildError::Field(e)),
        },
        Data::Enum => Err(BuildError::NotAStruct),
        Data::Union => Err(BuildError::NotAStruct),
    }
}

/// The number of fields of an input: none for what is no structure.
pub open spec fn field_count(data: Data) -> nat {
    match data {
        Data::Struct(fields) => fields@.len(),
        Data::Enum => 0,
        Data::Union => 0,
    }
}

/// The views of the operations that were built, or the error.
pub open spec fn built_view(result: Result<Vec<Operation>, BuildError>) -> Result<
    Seq<OperationView>,
    BuildError,
> {
    match result {
        Ok(operations) => Ok(operation_views(operations@)),
        Err(e) => Err(e),
    }
}

/// Fields that are refused after the first `n` of them are refused as a
/// whole, with the same error.
pub proof fn lemma_struct_error(fields: Seq<FieldView>, paths_ok: Seq<(bool, bool)>, n: int)
    requires
        0 <= n <= fields.len(),
        paths_ok.len() == fields.len(),
        struct_generated(fields.take(n), paths_ok.take(n)) is Err,
    ensures
        struct_generated(fields, paths_ok) == struct_generated(fields.take(n), paths_ok.take(n)),
    decreases fields.len() - n,
{
    if n < fields.len() {
        assert(fields.take(n + 1).drop_last() =~= fields.take(n));
        assert(paths_ok.take(n + 1).drop_last() =~= paths_ok.take(n));
        lemma_struct_error(fields, paths_ok, n + 1);
    } else {
        assert(fields.take(n) =~= fields);
        assert(paths_ok.take(n) =~= paths_ok);
    }
}

/// Resolves the directives of a field and generates its operations into
/// `codes`. Whether the path of a scoped visibility is a path is for the
/// parser of paths to say: the outcome is that of `field_generated` for
/// what the parser said, and exact where no visibility is scoped.
pub fn generate_from_field(field: &Field, idx: usize, codes: &mut Vec<Operation>) -> (result:
    Result<(), FieldError>)
    ensures
        exists|setter_path_ok: bool, getter_path_ok: bool|
            field_outcome(
                result,
                operation_views(old(codes)@),
                operation_views(final(codes)@),
                #[trigger] field_generated(field@, idx as nat, setter_path_ok, getter_path_ok),
            ),
        is_path_free(field@) ==> field_outcome(
            result,
            operation_views(old(codes)@),
            operation_views(final(codes)@),
            field_generated(field@, idx as nat, true, true),
        ),
{
    let rules = match Rules::from(field) {
        Ok(rules) => rules,
        Err(e) => {
            let error = FieldError { field: idx, directive: Some(e.position), reason: e.reason };
            assert(field_outcome(
                Err(error),
                operation_views(codes@),
                operation_views(codes@),
                field_generated(field@, idx as nat, true, true),
            ));
            return Err(error);
        },
    };
    let setter_token = rules.setter_visibility_token();
    let ghost setter_path_ok = token_result_view(setter_token)
        == visibility_token_of(rules@.setter_visibility, true);
    let setter_visibility = match setter_token {
        Ok(token) => token,
        Err(reason) => {
            let error = FieldError { field: idx, directive: None, reason };
            assert(field_outcome(
                Err(error),
                operation_views(codes@),
                operation_views(codes@),
                field_generated(field@, idx as nat, setter_path_ok, true),
            ));
            return Err(error);
        },
    };
    let getter_token = rules.getter_visibility_token();
    let ghost getter_path_ok = token_result_view(getter_token)
        == visibility_token_of(rules@.getter_visibility, true);
    let getter_visibility = match getter_token {
        Ok(token) => token,
        Err(reason) => {
            let error = FieldError { field: idx, directive: None, reason };
            assert(field_outcome(
                Err(error),
                operation_views(codes@),
                operation_views(codes@),
                field_generated(field@, idx as nat, setter_path_ok, getter_path_ok),
            ));
            return Err(error);
        },
    };
    emit_field(field, &rules, idx, &setter_visibility, &getter_visibility, codes);
    assert(field_outcome(
        Ok(()),
        operation_views(old(codes)@),
        operation_views(codes@),
        field_generated(field@, idx as nat, setter_path_ok, getter_path_ok),
    ));
    Ok(())
}

/// Generates the operations of a structure: those of each field, in the
/// order of the fields. The first field that is refused ends the
/// generation, and nothing is generated then.
pub fn generate_from_struct(fields: &Vec<Field>) -> (result: Result<Vec<Operation>, FieldError>)
    ensures
        exists|paths_ok: Seq<(bool, bool)>|
            paths_ok.len() == fields@.len() && generated_view(result) == #[trigger] struct_generated(
                field_views(fields@),
                paths_ok,
            ),
        is_path_free_struct(field_views(fields@)) ==> generated_view(result) == struct_generated(
            field_views(fields@),
            no_paths(fields@.len()),
        ),
{
    let ghost views = field_views(fields@);
    let ghost mut paths_ok: Seq<(bool, bool)> = Seq::empty();
    let mut codes: Vec<Operation> = Vec::new();
    let mut idx: usize = 0;
    assert(operation_views(codes@) =~= Seq::empty());
    while idx < fields.len()
        invariant
            idx <= fields.len(),
            views == field_views(fields@),
            paths_ok.len() == idx,
            struct_generated(views.take(idx as int), paths_ok) == Ok::<
                Seq<OperationView>,
                FieldError,
            >(operation_views(codes@)),
        decreases fields.len() - idx,
    {
        let ghost before = operation_views(codes@);
        let outcome = generate_from_field(&fields[idx], idx, &mut codes);
        let ghost (setter_path_ok, getter_path_ok) = choose|s: bool, g: bool|
            field_outcome(
                outcome,
                before,
                operation_views(codes@),
                #[trigger] field_generated(fields@[idx as int]@, idx as nat, s, g),
            );
        let ghost extended = paths_ok.push((setter_path_ok, getter_path_ok));
        proof {
            assert(views.take(idx + 1).drop_last() =~= views.take(idx as int));
            assert(extended.drop_last() =~= paths_ok);
            assert(views.take(idx + 1)[idx as int] == fields@[idx as int]@);
        }
        match outcome {
            Ok(()) => {},
            Err(e) => {
                proof {
                    let rest = Seq::new((fields@.len() - idx - 1) as nat, |k: int| (true, true));
                    let all = extended + rest;
                    assert(all.take(idx + 1) =~= extended);
                    lemma_struct_error(views, all, idx + 1);
                    if is_path_free_struct(views) {
                        law_path_free_struct(views, all, no_paths(fields@.len()));
                    }
                }
                return Err(e);
            },
        }
        proof {
            paths_ok = extended;
        }
        idx += 1;
    }
    proof {
        assert(views.take(idx as int) =~= views);
        if is_path_free_struct(views) {
            law_path_free_struct(views, paths_ok, no_paths(fields@.len()));
        }
    }
    Ok(codes)
}

/// Generates the operations for what the driver found: only a structure
/// has any.
pub fn build_expanded(data: &Data) -> (result: Result<Vec<Operation>, BuildError>)
    ensures
        exists|paths_ok: Seq<(bool, bool)>|
            paths_ok.len() == field_count(*data) && built_view(result)
                == #[trigger] build_generated(*data, paths_ok),
        match *data {
            Data::Struct(fields) => is_path_free_struct(field_views(fields@)) ==> built_view(
                result,
            ) == build_generated(*data, no_paths(fields@.len())),
            _ => result == Err::<Vec<Operation>, BuildError>(BuildError::NotAStruct),
        },
{
    match data {
        Data::Struct(fields) => match generate_from_struct(fields) {
            Ok(operations) => {
                let ghost paths_ok = choose|paths_ok: Seq<(bool, bool)>|
                    paths_ok.len() == fields@.len() && generated_view(Ok(operations))
                        == #[trigger] struct_generated(field_views(fields@), paths_ok);
                assert(paths_ok.len() == field_count(*data) && built_view(Ok(operations))
                    == build_generated(*data, paths_ok));
                Ok(operations)
            },
            Err(e) => {
                let ghost paths_ok = choose|paths_ok: Seq<(bool, bool)>|
                    paths_ok.len() == fields@.len() && generated_view(Err(e))
                        == #[trigger] struct_generated(field_views(fields@), paths_ok);
                assert(paths_ok.len() == field_count(*data) && built_view(
                    Err(BuildError::Field(e)),
                ) == build_generated(*data, paths_ok));
                Err(BuildError::Field(e))
            },
        },
        Data::Enum => {
            assert(Seq::<(bool, bool)>::empty().len() == field_count(*data) && built_view(
                Err(BuildError::NotAStruct),
            ) == build_generated(*data, Seq::empty()));
            Err(BuildError::NotAStruct)
        },
        Data::Union => {
            assert(Seq::<(bool, bool)>::empty().len() == field_count(*data) && built_view(
                Err(BuildError::NotAStruct),
            ) == build_generated(*data, Seq::empty()));
            Err(BuildError::NotAStruct)
        },
    }
}

} // verus!
