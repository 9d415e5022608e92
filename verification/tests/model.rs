use aksr::emit::forms;
use aksr::model::copy_items;
use aksr::model::Item;
use aksr::model::Outcome;
use aksr::model::Value;
use aksr::operation::Action;
use aksr::operation::Body;
use aksr::operation::Fns;
use aksr::operation::Guard;
use aksr::shape::Element;
use aksr::shape::Shape;

fn n(value: i64) -> Value {
    Value::One(Item::Number(value))
}

fn s(value: &str) -> Value {
    Value::One(Item::Text(value.to_string()))
}

fn ns(values: &[i64]) -> Value {
    Value::Many(values.iter().map(|v| Item::Number(*v)).collect())
}

fn ss(values: &[&str]) -> Value {
    Value::Many(values.iter().map(|v| Item::Text(v.to_string())).collect())
}

fn nested(value: Option<Option<i64>>) -> Value {
    Value::MaybeMaybe(value.map(|inner| inner.map(Item::Number)))
}

fn setters(shape: Shape) -> Vec<Fns> {
    forms(shape).into_iter().filter(|f| matches!(f, Fns::Setter(_))).collect()
}

fn getter(shape: Shape) -> Fns {
    forms(shape).into_iter().find(|f| matches!(f, Fns::Getter(_))).unwrap()
}

fn set(form: Fns, field: Value, input: Value) -> Value {
    let outcome = form.body().unwrap().run(field, Some(input)).unwrap();
    assert_eq!(outcome.output, None);
    outcome.field.unwrap()
}

fn get(form: Fns, field: Value) -> Value {
    let outcome = form.body().unwrap().run(field.clone(), None).unwrap();
    assert_eq!(outcome.field, Some(field));
    outcome.output.unwrap()
}

#[test]
fn a_scalar_reads_what_was_set() {
    let setter = setters(Shape::Scalar)[0];
    for before in [n(0), n(-3), n(i64::MAX)] {
        for v in [0, 1, -1, 42, i64::MIN, i64::MAX] {
            let after = set(setter, before.clone(), n(v));
            assert_eq!(get(getter(Shape::Scalar), after), n(v));
        }
    }
}

#[test]
fn appending_puts_the_items_behind() {
    for shape in [Shape::Array, Shape::ArrayOfOwnedString] {
        let appending: Vec<Fns> = setters(shape)
            .into_iter()
            .filter(|f| f.body().unwrap().action == Action::Append)
            .collect();
        assert!(!appending.is_empty());
        for form in appending {
            let after = set(form, ss(&[]), ss(&["a", "b"]));
            assert_eq!(get(getter(shape), after.clone()), ss(&["a", "b"]));
            let after = set(form, after, ss(&["c"]));
            assert_eq!(get(getter(shape), after.clone()), ss(&["a", "b", "c"]));
            let after = set(form, after, ss(&["a", "d"]));
            assert_eq!(get(getter(shape), after), ss(&["a", "b", "c", "a", "d"]));
            assert_eq!(set(form, ns(&[3, 1]), ns(&[2])), ns(&[3, 1, 2]));
        }
    }
}

#[test]
fn no_items_leave_an_array_as_it_was() {
    for shape in [
        Shape::Array,
        Shape::ArrayOfOwnedString,
        Shape::OptionalArray,
        Shape::OptionalArrayOfOwnedString,
    ] {
        let plain = shape == Shape::Array || shape == Shape::ArrayOfOwnedString;
        let states = if plain {
            vec![ss(&[]), ss(&["kept"]), ns(&[1, 2, 3])]
        } else {
            vec![Value::MaybeMany(None), Value::MaybeMany(Some(vec![Item::Number(1)]))]
        };
        for form in setters(shape) {
            for state in &states {
                assert_eq!(set(form, state.clone(), ss(&[])), *state, "{:?}", form);
                assert_eq!(set(form, state.clone(), ns(&[])), *state, "{:?}", form);
            }
        }
    }
    let replace = setters(Shape::OptionalArray)[0];
    assert_eq!(
        set(replace, Value::MaybeMany(None), ns(&[4])),
        Value::MaybeMany(Some(vec![Item::Number(4)]))
    );
    assert_eq!(set(setters(Shape::Array)[0], ns(&[1, 2]), ns(&[4])), ns(&[4]));
}

#[test]
fn an_absent_nested_optional_changes_nothing() {
    let setter = setters(Shape::OptionalOfOptional)[0];
    for state in [nested(None), nested(Some(None)), nested(Some(Some(7)))] {
        assert_eq!(set(setter, state.clone(), nested(None)), state);
        assert_eq!(set(setter, state.clone(), nested(Some(None))), nested(Some(None)));
        assert_eq!(set(setter, state.clone(), nested(Some(Some(1)))), nested(Some(Some(1))));
    }
}

#[test]
fn moving_out_yields_the_field() {
    let movable = [
        Shape::OwnedString,
        Shape::Array,
        Shape::ArrayOfOwnedString,
        Shape::Optional(Element::Primitive),
        Shape::Optional(Element::Reference),
        Shape::Optional(Element::Opaque),
        Shape::OptionalOfOptional,
        Shape::OptionalOwnedString,
        Shape::OptionalArray,
        Shape::OptionalArrayOfOwnedString,
        Shape::FixedArrayOrTuple,
        Shape::Fallback,
    ];
    for shape in movable {
        assert!(forms(shape).contains(&Fns::Into), "{:?}", shape);
        assert!(forms(shape).contains(&Fns::Take), "{:?}", shape);
    }
    for shape in [Shape::Scalar, Shape::ReferenceType] {
        assert!(!forms(shape).contains(&Fns::Into));
        assert!(!forms(shape).contains(&Fns::Take));
    }
    let into = Fns::Into.body().unwrap();
    let take = Fns::Take.body().unwrap();
    let cases = [
        (s("hello"), s("")),
        (s(""), s("")),
        (n(5), n(0)),
        (ss(&["a", "b"]), ss(&[])),
        (ns(&[]), ns(&[])),
        (Value::Maybe(Some(Item::Text("z".to_string()))), Value::Maybe(None)),
        (Value::Maybe(None), Value::Maybe(None)),
        (Value::MaybeMany(Some(vec![Item::Number(1)])), Value::MaybeMany(None)),
        (nested(Some(Some(2))), nested(None)),
        (nested(Some(None)), nested(None)),
    ];
    for (held, fresh) in cases {
        assert_eq!(
            into.run(held.clone(), None),
            Some(Outcome { field: None, output: Some(held.clone()) })
        );
        assert_eq!(
            take.run(held.clone(), None),
            Some(Outcome { field: Some(fresh.clone()), output: Some(held.clone()) })
        );
        assert_eq!(held.reset(), fresh);
        assert_eq!(held.copy(), held);
    }
}

#[test]
fn an_optional_takes_its_content() {
    let wrap = Body { guard: Guard::Always, action: Action::Wrap };
    let field = |outcome: Option<Outcome>| outcome.unwrap().field.unwrap();
    assert_eq!(
        field(wrap.run(Value::Maybe(None), Some(n(3)))),
        Value::Maybe(Some(Item::Number(3)))
    );
    assert_eq!(
        field(wrap.run(Value::Maybe(None), Some(s("")))),
        Value::Maybe(Some(Item::Text(String::new())))
    );
    assert_eq!(
        field(wrap.run(Value::MaybeMany(None), Some(ns(&[])))),
        Value::MaybeMany(Some(vec![]))
    );
    assert_eq!(
        field(wrap.run(nested(None), Some(Value::Maybe(None)))),
        nested(Some(None))
    );
    assert_eq!(wrap.run(nested(None), Some(nested(None))), None);
    assert_eq!(wrap.run(nested(None), Some(Value::MaybeMany(None))), None);
    assert_eq!(wrap.run(nested(None), None), None);
}

#[test]
fn what_cannot_be_run_is_refused() {
    let body = |guard, action| Body { guard, action };
    assert_eq!(body(Guard::Always, Action::Assign).run(n(1), None), None);
    assert_eq!(body(Guard::NonEmpty, Action::Assign).run(ns(&[1]), Some(n(1))), None);
    assert_eq!(body(Guard::NonEmpty, Action::Assign).run(ns(&[1]), None), None);
    assert_eq!(body(Guard::Present, Action::Assign).run(n(1), Some(n(1))), None);
    assert_eq!(body(Guard::Present, Action::Assign).run(n(1), Some(ns(&[1]))), None);
    assert_eq!(body(Guard::Always, Action::Append).run(n(1), Some(ns(&[1]))), None);
    assert_eq!(body(Guard::Always, Action::Append).run(ns(&[1]), Some(n(1))), None);
    assert_eq!(body(Guard::Always, Action::Read).run(n(1), Some(n(1))), None);
    assert_eq!(body(Guard::Always, Action::MoveOut).run(n(1), Some(n(1))), None);
    assert_eq!(body(Guard::Always, Action::Reset).run(n(1), Some(n(1))), None);
    assert_eq!(Guard::Always.holds(&None), Some(true));
    assert_eq!(Guard::NonEmpty.holds(&Some(ns(&[]))), Some(false));
    assert_eq!(Guard::NonEmpty.holds(&Some(ns(&[0]))), Some(true));
    assert_eq!(Guard::Present.holds(&Some(Value::Maybe(None))), Some(false));
    assert_eq!(Guard::Present.holds(&Some(Value::MaybeMany(Some(vec![])))), Some(true));
    assert_eq!(Guard::Present.holds(&Some(nested(Some(None)))), Some(true));
    assert_eq!(
        Action::Append.act(ss(&["a"]), Some(ss(&["b"]))),
        Some(Outcome { field: Some(ss(&["a", "b"])), output: None })
    );
    let items = vec![Item::Number(1), Item::Text("x".to_string())];
    assert_eq!(copy_items(&items), items);
    assert_eq!(Item::Text("x".to_string()).copy(), Item::Text("x".to_string()));
}
