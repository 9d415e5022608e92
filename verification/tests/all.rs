use aksr::directive::Directive;
use aksr::directive::DirectiveValue;
use aksr::emit::generate_from_struct;
use aksr::field::Field;
use aksr::field::TypeExpr;
use aksr::field::TypeNode;
use aksr::model::Item;
use aksr::model::Value;
use aksr::operation::Fns;
use aksr::operation::Operation;
use aksr::operation::Receiver;
use aksr::operation::Tys;
use aksr::rules::InlineMode;
use aksr::visibility::VisibilityToken;

// What follows up to the first test builds the description of a structure
// and calls its generated operations on a model of its fields.

fn split_top(list: &str) -> Vec<String> {
    let mut parts = Vec::new();
    let mut depth = 0;
    let mut part = String::new();
    for c in list.chars() {
        match c {
            '<' | '(' | '[' => depth += 1,
            '>' | ')' | ']' => depth -= 1,
            _ => {}
        }
        if c == ',' && depth == 0 {
            parts.push(part.trim().to_string());
            part = String::new();
        } else {
            part.push(c);
        }
    }
    if !part.trim().is_empty() {
        parts.push(part.trim().to_string());
    }
    parts
}

fn spine(ty: &str) -> Vec<TypeNode> {
    let ty = ty.trim();
    if ty.starts_with('&') {
        return vec![TypeNode::Reference];
    }
    if ty.starts_with('[') {
        return vec![TypeNode::Array];
    }
    if ty.starts_with('(') {
        return vec![TypeNode::Tuple(split_top(&ty[1..ty.len() - 1]).len())];
    }
    let (path, list) = match ty.find('<') {
        Some(at) => (&ty[..at], Some(&ty[at + 1..ty.len() - 1])),
        None => (ty, None),
    };
    let name = path.rsplit("::").next().unwrap().trim().to_string();
    let mut nodes = vec![TypeNode::Path(name)];
    if let Some(list) = list {
        if let Some(first) = split_top(list).first() {
            if !first.starts_with('\'') {
                nodes.extend(spine(first));
            }
        }
    }
    nodes
}

fn outline(ty: &str) -> TypeExpr {
    let mut nodes = spine(ty);
    let head = nodes.remove(0);
    TypeExpr { head, args: nodes }
}

fn flag(key: &str, value: bool) -> Directive {
    Directive { key: Some(key.to_string()), value: DirectiveValue::Bool(value) }
}

fn n(value: i64) -> Value {
    Value::One(Item::Number(value))
}

fn s(value: &str) -> Value {
    Value::One(Item::Text(value.to_string()))
}

fn ns(values: &[i64]) -> Value {
    Value::Many(values.iter().map(|v| Item::Number(*v)).collect())
}

fn ss(values: &[&str]) -> Value {
    Value::Many(values.iter().map(|v| Item::Text(v.to_string())).collect())
}

fn maybe_n(value: Option<i64>) -> Value {
    Value::Maybe(value.map(Item::Number))
}

fn maybe_s(value: Option<&str>) -> Value {
    Value::Maybe(value.map(|v| Item::Text(v.to_string())))
}

fn maybe_ss(values: Option<&[&str]>) -> Value {
    Value::MaybeMany(values.map(|v| v.iter().map(|x| Item::Text(x.to_string())).collect()))
}

fn nested(value: Option<Option<i64>>) -> Value {
    Value::MaybeMaybe(value.map(|inner| inner.map(Item::Number)))
}

struct Member {
    name: &'static str,
    ty: &'static str,
    directives: Vec<Directive>,
    default: Value,
}

fn member(name: &'static str, ty: &'static str, default: Value) -> Member {
    Member { name, ty, directives: vec![], default }
}

fn args(name: &'static str, ty: &'static str, directives: Vec<Directive>, default: Value) -> Member {
    Member { name, ty, directives, default }
}

struct Built {
    names: Vec<&'static str>,
    operations: Vec<Operation>,
    values: Vec<Value>,
}

fn build(members: Vec<Member>) -> Built {
    let fields: Vec<Field> = members
        .iter()
        .map(|m| Field {
            ident: Some(m.name.to_string()),
            ty: outline(m.ty),
            directives: m.directives.clone(),
        })
        .collect();
    Built {
        names: members.iter().map(|m| m.name).collect(),
        operations: generate_from_struct(&fields).unwrap(),
        values: members.into_iter().map(|m| m.default).collect(),
    }
}

impl Built {
    fn find(&self, name: &str) -> &Operation {
        let found: Vec<&Operation> = self.operations.iter().filter(|o| o.name == name).collect();
        assert_eq!(found.len(), 1, "operations named {}", name);
        found[0]
    }

    fn has(&self, name: &str) -> bool {
        self.operations.iter().any(|o| o.name == name)
    }

    fn with(mut self, name: &str, input: Value) -> Built {
        let operation = self.find(name).clone();
        assert!(matches!(operation.form, Fns::Setter(_)), "{} is no setter", name);
        assert_eq!(operation.form.signature().unwrap().receiver, Receiver::Owned);
        let body = operation.form.body().unwrap();
        let outcome = body.run(self.values[operation.field].clone(), Some(input)).unwrap();
        assert_eq!(outcome.output, None);
        self.values[operation.field] = outcome.field.unwrap();
        self
    }

    fn get(&self, name: &str) -> Value {
        let operation = self.find(name);
        assert!(matches!(operation.form, Fns::Getter(_)), "{} is no getter", name);
        assert_eq!(operation.form.signature().unwrap().receiver, Receiver::Shared);
        let body = operation.form.body().unwrap();
        let outcome = body.run(self.values[operation.field].clone(), None).unwrap();
        assert_eq!(outcome.field.as_ref(), Some(&self.values[operation.field]));
        outcome.output.unwrap()
    }

    fn field(&self, name: &str) -> Value {
        let at = self.names.iter().position(|f| *f == name).unwrap();
        self.values[at].clone()
    }

}

fn entity() -> Built {
    build(vec![
        member("unit", "()", n(0)),
        member("char", "char", n(0)),
        member("bool", "bool", n(0)),
        member("f64", "f64", n(0)),
        member("f32", "f32", n(0)),
        member("i8", "i8", n(0)),
        member("i16", "i16", n(0)),
        member("i32", "i32", n(0)),
        member("i64", "i64", n(0)),
        member("i128", "i128", n(0)),
        member("isize", "isize", n(0)),
        member("u8", "u8", n(0)),
        member("u16", "u16", n(0)),
        member("u32", "u32", n(0)),
        member("u64", "u64", n(0)),
        member("u128", "u128", n(0)),
        member("usize", "usize", n(0)),
        member("str", "&'a str", s("")),
        member("str_static", "&'static str", s("")),
        member("string", "String", s("")),
        member("tuple", "(u8, i8)", ns(&[0, 0])),
        member("array", "[u8; 4]", ns(&[0, 0, 0, 0])),
        member("vec_i8", "Vec<i8>", ns(&[])),
        member("vec_str", "Vec<&'a str>", ss(&[])),
        args("vec_string", "Vec<String>", vec![flag("inc", true)], ss(&[])),
        member("vec_vec_string", "Vec<Vec<String>>", ss(&[])),
        member("hashmap", "HashMap<&'a str, usize>", n(0)),
        member("hashset", "HashSet<u8>", n(0)),
        member("btreemap", "BTreeMap<String, i32>", n(0)),
        member("btreeset", "BTreeSet<u32>", n(0)),
        member("vec_deque", "VecDeque<String>", n(0)),
        member("binary_heap", "BinaryHeap<u8>", n(0)),
        member("slice_str", "&'a [&'a str]", ss(&[])),
        member("slice_usize", "&'a [usize]", ns(&[])),
        member("slice_f32", "&'a [f32]", ns(&[])),
        member("x", "X", n(0)),
        member("y", "Y", n(0)),
        member("box_u8", "Box<u8>", n(0)),
        member("rc_string", "Rc<String>", s("")),
        member("weak_rc_string", "Weak<String>", s("")),
        member("arc_string", "Arc<String>", s("")),
        member("refcell_u8", "RefCell<u8>", n(0)),
        member("arc_mutex_u8", "Arc<Mutex<u8>>", n(0)),
        member("arc_rwlock_string", "Arc<RwLock<String>>", s("")),
        member("cow_str", "Cow<'a, str>", s("")),
        member("a", "A", n(0)),
        member("b", "B", s("")),
        member("opt_u8", "Option<u8>", maybe_n(None)),
        member("opt_tuple", "Option<(u8, i8)>", maybe_s(None)),
        member("opt_array", "Option<[u8; 1]>", maybe_s(None)),
        member("opt_box_u8", "Option<Box<u8>>", maybe_n(None)),
        member("opt_str", "Option<&'a str>", maybe_s(None)),
        member("opt_string", "Option<String>", maybe_s(None)),
        member("opt_vec_str", "Option<Vec<&'a str>>", maybe_ss(None)),
        member("opt_vec_string", "Option<Vec<String>>", maybe_ss(None)),
        member("opt_opt_usize", "Option<Option<usize>>", nested(None)),
        member("result", "Result<u8, String>", n(0)),
        member("_marker", "PhantomData<&'a ()>", n(0)),
    ])
}


#[test]
fn setters_and_getters() {
    let entity = entity()
        .with("with_unit", n(0))
        .with("with_char", n('c' as i64))
        .with("with_bool", n(1))
        .with("with_f64", n(64))
        .with("with_f32", n(32))
        .with("with_i8", n(8))
        .with("with_i16", n(16))
        .with("with_i32", n(32))
        .with("with_i64", n(64))
        .with("with_i128", n(128))
        .with("with_isize", n(-1))
        .with("with_u8", n(8))
        .with("with_u16", n(16))
        .with("with_u32", n(32))
        .with("with_u64", n(64))
        .with("with_u128", n(128))
        .with("with_usize", n(0))
        .with("with_str", s("str"))
        .with("with_str_static", s("static_str"))
        .with("with_string", s("string"))
        .with("with_tuple", ns(&[1, -1]))
        .with("with_array", ns(&[1, 2, 3, 4]))
        .with("with_vec_i8", ns(&[1, 2, 3]))
        .with("with_vec_str", ss(&["str1", "str2"]))
        .with("with_vec_string", ss(&["str1", "str2"]))
        .with("with_vec_string_extend", ss(&["str3", "str4"]))
        .with("with_vec_vec_string", ss(&["inner1 inner2"]))
        .with("with_hashmap", s("k 1"))
        .with("with_hashset", s("1 2 3"))
        .with("with_btreemap", s("k 1"))
        .with("with_btreeset", s("1 2 3"))
        .with("with_vec_deque", s("element"))
        .with("with_binary_heap", s("1 2 3 4 6"))
        .with("with_slice_str", ss(&["slice1", "slice2"]))
        .with("with_slice_usize", ns(&[1, 2, 3]))
        .with("with_slice_f32", ns(&[1, 2, 3]))
        .with("with_x", ns(&[5, 5]))
        .with("with_y", ns(&[7, 7]))
        .with("with_box_u8", n(1))
        .with("with_rc_string", s("Rc_String"))
        .with("with_weak_rc_string", s(""))
        .with("with_arc_string", s("Arc_String"))
        .with("with_refcell_u8", n(1))
        .with("with_arc_mutex_u8", n(1))
        .with("with_arc_rwlock_string", s("RwLock_String"))
        .with("with_cow_str", s("borrowed_cow"))
        .with("with_a", n(89))
        .with("with_b", s("B"))
        .with("with_opt_u8", n(1))
        .with("with_opt_tuple", s("1 -1"))
        .with("with_opt_array", s("1"))
        .with("with_opt_box_u8", n(1))
        .with("with_opt_str", s("optional_str"))
        .with("with_opt_vec_str", ss(&["opt_str1", "opt_str2"]))
        .with("with_opt_string", s("optional_string"))
        .with("with_opt_vec_string", ss(&["optional"]))
        .with("with_opt_opt_usize", nested(Some(Some(2))))
        .with("with_result", n(1))
        .with("with__marker", n(0));

    let same = |field: &str, expected: Value| {
        assert_eq!(entity.field(field), expected, "{}", field);
        assert_eq!(entity.get(field), expected, "{}", field);
    };
    same("char", n('c' as i64));
    same("bool", n(1));
    same("f64", n(64));
    same("f32", n(32));
    same("i8", n(8));
    same("i16", n(16));
    same("i32", n(32));
    same("i64", n(64));
    same("i128", n(128));
    same("isize", n(-1));
    same("u8", n(8));
    same("u16", n(16));
    same("u32", n(32));
    same("u64", n(64));
    same("u128", n(128));
    same("usize", n(0));
    same("str", s("str"));
    same("str_static", s("static_str"));
    same("string", s("string"));
    same("tuple", ns(&[1, -1]));
    same("array", ns(&[1, 2, 3, 4]));
    same("vec_i8", ns(&[1, 2, 3]));
    same("vec_str", ss(&["str1", "str2"]));
    same("vec_string", ss(&["str1", "str2", "str3", "str4"]));
    same("vec_vec_string", ss(&["inner1 inner2"]));
    same("hashmap", s("k 1"));
    same("hashset", s("1 2 3"));
    same("btreemap", s("k 1"));
    same("btreeset", s("1 2 3"));
    same("vec_deque", s("element"));
    same("binary_heap", s("1 2 3 4 6"));
    same("slice_str", ss(&["slice1", "slice2"]));
    same("slice_usize", ns(&[1, 2, 3]));
    same("slice_f32", ns(&[1, 2, 3]));
    same("x", ns(&[5, 5]));
    same("y", ns(&[7, 7]));
    same("box_u8", n(1));
    same("rc_string", s("Rc_String"));
    same("weak_rc_string", s(""));
    same("arc_string", s("Arc_String"));
    same("refcell_u8", n(1));
    same("arc_mutex_u8", n(1));
    same("arc_rwlock_string", s("RwLock_String"));
    same("cow_str", s("borrowed_cow"));
    same("a", n(89));
    same("b", s("B"));
    same("opt_u8", maybe_n(Some(1)));
    same("opt_tuple", maybe_s(Some("1 -1")));
    same("opt_array", maybe_s(Some("1")));
    same("opt_box_u8", maybe_n(Some(1)));
    same("opt_str", maybe_s(Some("optional_str")));
    same("opt_string", maybe_s(Some("optional_string")));
    same("opt_vec_str", maybe_ss(Some(&["opt_str1", "opt_str2"])));
    same("opt_vec_string", maybe_ss(Some(&["optional"])));
    same("opt_opt_usize", nested(Some(Some(2))));
    same("result", n(1));
}

#[test]
fn every_operation_is_public_and_hinted_by_default() {
    let entity = entity();
    for operation in &entity.operations {
        assert_eq!(operation.visibility, VisibilityToken::Public, "{}", operation.name);
        match operation.form {
            Fns::Setter(_) => assert_eq!(operation.inline, InlineMode::Default),
            _ => assert_eq!(operation.inline, InlineMode::Always),
        }
        let signature = operation.form.signature().unwrap();
        match operation.form {
            Fns::Setter(_) => assert_eq!(signature.receiver, Receiver::Owned),
            Fns::Getter(_) => assert_eq!(signature.receiver, Receiver::Shared),
            Fns::Into => assert_eq!(signature.receiver, Receiver::Owned),
            Fns::Take => assert_eq!(signature.receiver, Receiver::Exclusive),
        }
    }
    assert_eq!(entity.find("unit").form, Fns::Getter(Tys::Basic));
    assert_eq!(entity.find("str").form, Fns::Getter(Tys::Basic));
    assert_eq!(entity.find("tuple").form, Fns::Getter(Tys::Ref));
    assert_eq!(entity.find("hashmap").form, Fns::Getter(Tys::Ref));
    assert_eq!(entity.find("cow_str").form, Fns::Getter(Tys::Ref));
    assert_eq!(entity.find("opt_u8").form, Fns::Getter(Tys::Optional));
    assert_eq!(entity.find("opt_str").form, Fns::Getter(Tys::Optional));
    assert_eq!(entity.find("opt_tuple").form, Fns::Getter(Tys::OptionalRef));
    assert_eq!(entity.find("opt_box_u8").form, Fns::Getter(Tys::OptionalRef));
    assert_eq!(entity.find("opt_opt_usize").form, Fns::Getter(Tys::OptionalRef));
    assert!(entity.has("with_vec_string_extend_owned"));
    assert!(!entity.has("with_vec_string_inc"));
    assert!(!entity.has("with_vec_i8_extend"));
}
