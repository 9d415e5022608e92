//! What the generated operations do, on a model of the values of a field.

use crate::operation::Action;
use crate::operation::Body;
use crate::operation::Guard;
use vstd::prelude::*;

verus! {

/// A value that the operations do not look into: a number stands for a
/// scalar, a text for a string.
#[derive(Clone, Debug, PartialEq, Eq)]
pub enum Item {
    Number(i64),
    Text(String),
}

/// The value of a field, of a parameter or of a result.
#[derive(Clone, Debug, PartialEq, Eq)]
pub enum Value {
    /// A plain value.
    One(Item),
    /// An array or a slice.
    Many(Vec<Item>),
    /// An optional.
    Maybe(Option<Item>),
    /// An optional array or slice.
    MaybeMany(Option<Vec<Item>>),
    /// An optional of an optional.
    MaybeMaybe(Option<Option<Item>>),
}

/// How a call of an operation ends.
#[derive(Clone, Debug, PartialEq, Eq)]
pub struct Outcome {
    /// The field after the call; `None` once the structure is consumed.
    pub field: Option<Value>,
    /// What the call hands out; `None` for a setter, which returns the
    /// structure.
    pub output: Option<Value>,
}

pub enum ItemView {
    Number(i64),
    Text(Seq<char>),
}

pub enum ValueView {
    One(ItemView),
    Many(Seq<ItemView>),
    Maybe(Option<ItemView>),
    MaybeMany(Option<Seq<ItemView>>),
    MaybeMaybe(Option<Option<ItemView>>),
}

pub struct OutcomeView {
    pub field: Option<ValueView>,
    pub output: Option<ValueView>,
}

impl View for Item {
    type V = ItemView;

    open spec fn view(&self) -> ItemView {
        match self {
            Item::Number(n) => ItemView::Number(*n),
            Item::Text(t) => ItemView::Text(t@),
        }
    }
}

/// Items, each by its view.
pub open spec fn item_views(items: Seq<Item>) -> Seq<ItemView> {
    items.map_values(|i: Item| i@)
}

impl View for Value {
    type V = ValueView;

    open spec fn view(&self) -> ValueView {
        match self {
            Value::One(item) => ValueView::One(item@),
            Value::Many(items) => ValueView::Many(item_views(items@)),
            Value::Maybe(item) => ValueView::Maybe(
                match item {
                    Some(i) => Some(i@),
                    None => None,
                },
            ),
            Value::MaybeMany(items) => ValueView::MaybeMany(
                match items {
                    Some(v) => Some(item_views(v@)),
                    None => None,
                },
            ),
            Value::MaybeMaybe(item) => ValueView::MaybeMaybe(
                match item {
                    Some(Some(i)) => Some(Some(i@)),
                    Some(None) => Some(None),
                    None => None,
                },
            ),
        }
    }
}

/// The view of a value that may be missing.
pub open spec fn optional_value(value: Option<Value>) -> Option<ValueView> {
    match value {
        Some(v) => Some(v@),
        None => None,
    }
}

impl View for Outcome {
    type V = OutcomeView;

    open spec fn view(&self) -> OutcomeView {
        OutcomeView { field: optional_value(self.field), output: optional_value(self.output) }
    }
}

/// The view of an outcome that may be missing.
pub open spec fn optional_outcome(outcome: Option<Outcome>) -> Option<OutcomeView> {
    match outcome {
        Some(o) => Some(o@),
        None => None,
    }
}

/// Whether a guard holds of an input; `None` where the guard cannot be
/// asked of such an input.
pub open spec fn guard_holds(guard: Guard, input: Option<ValueView>) -> Option<bool> {
    match guard {
        Guard::Always => Some(true),
        Guard::NonEmpty => match input {
            Some(ValueView::Many(items)) => Some(items.len() > 0),
            _ => None,
        },
        Guard::Present => match input {
            Some(ValueView::Maybe(item)) => Some(item is Some),
            Some(ValueView::MaybeMany(items)) => Some(items is Some),
            Some(ValueView::MaybeMaybe(item)) => Some(item is Some),
            _ => None,
        },
    }
}

/// The present optional of a value; `None` for a value that is an optional
/// of an optional already, or an optional array.
pub open spec fn wrapped(value: ValueView) -> Option<ValueView> {
    match value {
        ValueView::One(item) => Some(ValueView::Maybe(Some(item))),
        ValueView::Many(items) => Some(ValueView::MaybeMany(Some(items))),
        ValueView::Maybe(item) => Some(ValueView::MaybeMaybe(Some(item))),
        _ => None,
    }
}

/// The default of a value's kind: zero, the empty string, the empty array,
/// the absent optional.
pub open spec fn default_of(value: ValueView) -> ValueView {
    match value {
        ValueView::One(ItemView::Number(_)) => ValueView::One(ItemView::Number(0)),
        ValueView::One(ItemView::Text(_)) => ValueView::One(ItemView::Text(Seq::empty())),
        ValueView::Many(_) => ValueView::Many(Seq::empty()),
        ValueView::Maybe(_) => ValueView::Maybe(None),
        ValueView::MaybeMany(_) => ValueView::MaybeMany(None),
        ValueView::MaybeMaybe(_) => ValueView::MaybeMaybe(None),
    }
}

/// What an action does to a field; `None` where the action cannot be done
/// with such a field and input. The actions of a setter want an input, the
/// others none.
pub open spec fn acted(action: Action, field: ValueView, input: Option<ValueView>) -> Option<
    OutcomeView,
> {
    match action {
        Action::Assign => match input {
            Some(x) => Some(OutcomeView { field: Some(x), output: None }),
            None => None,
        },
        Action::Wrap => match input {
            Some(x) => match wrapped(x) {
                Some(w) => Some(OutcomeView { field: Some(w), output: None }),
                None => None,
            },
            None => None,
        },
        Action::Append => match (field, input) {
            (ValueView::Many(a), Some(ValueView::Many(b))) => Some(
                OutcomeView { field: Some(ValueView::Many(a + b)), output: None },
            ),
            _ => None,
        },
        Action::Read => match input {
            None => Some(OutcomeView { field: Some(field), output: Some(field) }),
            Some(_) => None,
        },
        Action::MoveOut => match input {
            None => Some(OutcomeView { field: None, output: Some(field) }),
            Some(_) => None,
        },
        Action::Reset => match input {
            None => Some(OutcomeView { field: Some(default_of(field)), output: Some(field) }),
            Some(_) => None,
        },
    }
}

/// What a body does to a field: its action where the guard holds, nothing
/// where it does not; `None` where the body cannot be run on such a field
/// and input.
pub open spec fn effect(body: Body, field: ValueView, input: Option<ValueView>) -> Option<
    OutcomeView,
> {
    match guard_holds(body.guard, input) {
        None => None,
        Some(false) => Some(OutcomeView { field: Some(field), output: None }),
        Some(true) => acted(body.action, field, input),
    }
}

impl Item {
    /// A copy of the item.
    pub fn copy(&self) -> (item: Item)
        ensures
            item@ == self@,
    {
        match self {
            Item::Number(n) => Item::Number(*n),
            Item::Text(t) => Item::Text(t.clone()),
        }
    }
}

/// A copy of a list of items.
pub fn copy_items(items: &Vec<Item>) -> (copy: Vec<Item>)
    ensures
        item_views(copy@) == item_views(items@),
{
    let mut copy: Vec<Item> = Vec::new();
    let mut i: usize = 0;
    while i < items.len()
        invariant
            i <= items.len(),
            copy@.len() == i,
            forall|k: int| 0 <= k < i ==> copy@[k]@ == items@[k]@,
        decreases items.len() - i,
    {
        copy.push(items[i].copy());
        i += 1;
    }
    assert(item_views(copy@) =~= item_views(items@));
    copy
}

impl Value {
    /// A copy of the value.
    pub fn copy(&self) -> (value: Value)
        ensures
            value@ == self@,
    {
        match self {
            Value::One(item) => Value::One(item.copy()),
            Value::Many(items) => Value::Many(copy_items(items)),
            Value::Maybe(item) => Value::Maybe(
                match item {
                    Some(i) => Some(i.copy()),
                    None => None,
                },
            ),
            Value::MaybeMany(items) => Value::MaybeMany(
                match items {
                    Some(v) => Some(copy_items(v)),
                    None => None,
                },
            ),
            Value::MaybeMaybe(item) => Value::MaybeMaybe(
                match item {
                    Some(Some(i)) => Some(Some(i.copy())),
                    Some(None) => Some(None),
                    None => None,
                },
            ),
        }
    }

    /// The default of the value's kind.
    pub fn reset(&self) -> (value: Value)
        ensures
            value@ == default_of(self@),
    {
        match self {
            Value::One(Item::Number(_)) => Value::One(Item::Number(0)),
            Value::One(Item::Text(_)) => Value::One(Item::Text(String::new())),
            Value::Many(_) => {
                let empty: Vec<Item> = Vec::new();
                assert(item_views(empty@) =~= Seq::empty());
                Value::Many(empty)
            },
            Value::Maybe(_) => Value::Maybe(None),
            Value::MaybeMany(_) => Value::MaybeMany(None),
            Value::MaybeMaybe(_) => Value::MaybeMaybe(None),
        }
    }

    fn wrap(self) -> (value: Option<Value>)
        ensures
            optional_value(value) == wrapped(self@),
    {
        match self {
            Value::One(item) => Some(Value::Maybe(Some(item))),
            Value::Many(items) => Some(Value::MaybeMany(Some(items))),
            Value::Maybe(item) => Some(Value::MaybeMaybe(Some(item))),
            _ => None,
        }
    }
}

impl Guard {
    /// Whether the guard holds of an input; `None` where the guard cannot
    /// be asked of such an input.
    pub fn holds(self, input: &Option<Value>) -> (holds: Option<bool>)
        ensures
            holds == guard_holds(self, optional_value(*input)),
    {
        match self {
            Guard::Always => Some(true),
            Guard::NonEmpty => match input {
                Some(Value::Many(items)) => Some(items.len() > 0),
                _ => None,
            },
            Guard::Present => match input {
                Some(Value::Maybe(item)) => Some(item.is_some()),
                Some(Value::MaybeMany(items)) => Some(items.is_some()),
                Some(Value::MaybeMaybe(item)) => Some(item.is_some()),
                _ => None,
            },
        }
    }
}

impl Action {
    /// Does the action on a field; `None` where it cannot be done with such
    /// a field and input.
    pub fn act(self, field: Value, input: Option<Value>) -> (outcome: Option<Outcome>)
        ensures
            optional_outcome(outcome) == acted(self, field@, optional_value(input)),
    {
        match self {
            Action::Assign => match input {
                Some(x) => Some(Outcome { field: Some(x), output: None }),
                None => None,
            },
            Action::Wrap => match input {
                Some(x) => match x.wrap() {
                    Some(w) => Some(Outcome { field: Some(w), output: None }),
                    None => None,
                },
                None => None,
            },
            Action::Append => match (field, input) {
                (Value::Many(mut a), Some(Value::Many(mut b))) => {
                    let ghost before = item_views(a@);
                    let ghost added = item_views(b@);
                    a.append(&mut b);
                    assert(item_views(a@) =~= before + added);
                    Some(Outcome { field: Some(Value::Many(a)), output: None })
                },
                _ => None,
            },
            Action::Read => match input {
                None => {
                    let output = field.copy();
                    Some(Outcome { field: Some(field), output: Some(output) })
                },
                Some(_) => None,
            },
            Action::MoveOut => match input {
                None => Some(Outcome { field: None, output: Some(field) }),
                Some(_) => None,
            },
            Action::Reset => match input {
                None => {
                    let fresh = field.reset();
                    Some(Outcome { field: Some(fresh), output: Some(field) })
                },
                Some(_) => None,
            },
        }
    }
}

impl Body {
    /// Runs the body on a field: a setter with its input, any other
    /// operation without. `None` where the body cannot be run on such a
    /// field and input.
    pub fn run(self, field: Value, input: Option<Value>) -> (outcome: Option<Outcome>)
        ensures
            optional_outcome(outcome) == effect(self, field@, optional_value(input)),
    {
        match self.guard.holds(&input) {
            None => None,
            Some(false) => Some(Outcome { field: Some(field), output: None }),
            Some(true) => self.action.act(field, input),
        }
    }
}

} // verus!
