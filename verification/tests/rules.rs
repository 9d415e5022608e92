use aksr::directive::directive_group;
use aksr::directive::Directive;
use aksr::directive::DirectiveValue;
use aksr::error::FlagKey;
use aksr::error::Reason;
use aksr::error::RuleError;
use aksr::error::TextKey;
use aksr::field::Field;
use aksr::field::TypeExpr;
use aksr::field::TypeNode;
use aksr::rules::InlineMode;
use aksr::resolve::parse_settings;
use aksr::rules::Rules;
use aksr::setting::Allowed;
use aksr::setting::Excepted;
use aksr::setting::Setting;
use aksr::visibility::VisibilityToken;

fn bare(key: &str) -> Directive {
    Directive { key: Some(key.to_string()), value: DirectiveValue::Missing }
}

fn flag(key: &str, value: bool) -> Directive {
    Directive { key: Some(key.to_string()), value: DirectiveValue::Bool(value) }
}

fn text(key: &str, value: &str) -> Directive {
    Directive { key: Some(key.to_string()), value: DirectiveValue::Str(value.to_string()) }
}

fn group(key: &str, names: &[&str]) -> Directive {
    Directive {
        key: Some(key.to_string()),
        value: DirectiveValue::Group(names.iter().map(|n| Some(n.to_string())).collect()),
    }
}

fn named(name: &str, directives: Vec<Directive>) -> Field {
    Field {
        ident: Some(name.to_string()),
        ty: TypeExpr { head: TypeNode::Path("u8".to_string()), args: vec![] },
        directives,
    }
}

fn positional(directives: Vec<Directive>) -> Field {
    Field {
        ident: None,
        ty: TypeExpr { head: TypeNode::Path("u8".to_string()), args: vec![] },
        directives,
    }
}

fn resolve(directives: Vec<Directive>) -> Rules {
    Rules::from(&named("field", directives)).unwrap()
}

fn refuse(directives: Vec<Directive>) -> RuleError {
    Rules::from(&named("field", directives)).unwrap_err()
}

fn names(rules: &Rules, field: &Field, idx: usize) -> (String, String) {
    rules.generate_setter_getter_names(field, idx)
}

#[test]
fn default_rules_are_the_documented_ones() {
    let rules = Rules::default();
    assert_eq!(rules.alias, None);
    assert!(!rules.inc_for_vec);
    assert_eq!(rules.prefix_setter, "with");
    assert_eq!(rules.prefix_getter, "");
    assert!(rules.gen_getter);
    assert!(rules.gen_setter);
    assert!(rules.gen_into);
    assert_eq!(rules.into_prefix, None);
    assert_eq!(rules.getter_visibility, None);
    assert_eq!(rules.setter_visibility, None);
    assert_eq!(rules.getter_inline, Some(InlineMode::Always));
    assert_eq!(rules.setter_inline, Some(InlineMode::Default));
    assert_eq!(resolve(vec![]), rules);
}

#[test]
fn parse_bool_or_str_reads_literals_and_words() {
    assert_eq!(Rules::parse_bool_or_str(&DirectiveValue::Bool(true)), Some(true));
    assert_eq!(Rules::parse_bool_or_str(&DirectiveValue::Bool(false)), Some(false));
    for word in ["yes", "true", "t", "y", "YES", "True", "T", "Y"] {
        assert_eq!(
            Rules::parse_bool_or_str(&DirectiveValue::Str(word.to_string())),
            Some(true),
            "{}",
            word
        );
    }
    for word in ["no", "false", "f", "n", "", "1", "on", "yess"] {
        assert_eq!(
            Rules::parse_bool_or_str(&DirectiveValue::Str(word.to_string())),
            Some(false),
            "{}",
            word
        );
    }
    assert_eq!(Rules::parse_bool_or_str(&DirectiveValue::Other), None);
    assert_eq!(Rules::parse_bool_or_str(&DirectiveValue::Missing), None);
    assert_eq!(Rules::parse_bool_or_str(&DirectiveValue::Unparsable), None);
    assert_eq!(Rules::parse_bool_or_str(&DirectiveValue::Group(vec![])), None);
}

#[test]
fn yes_word_takes_lowercase_only() {
    assert!(Rules::yes_word("yes"));
    assert!(Rules::yes_word("y"));
    assert!(!Rules::yes_word("YES"));
    assert!(!Rules::yes_word(""));
}

#[test]
fn parse_visibility_spells_out_the_short_words() {
    assert_eq!(Rules::parse_visibility("pub"), "pub");
    assert_eq!(Rules::parse_visibility("public"), "pub");
    assert_eq!(Rules::parse_visibility("PUBLIC"), "pub");
    assert_eq!(Rules::parse_visibility("private"), "");
    assert_eq!(Rules::parse_visibility("Private"), "");
    assert_eq!(Rules::parse_visibility("crate"), "pub(crate)");
    assert_eq!(Rules::parse_visibility("self"), "pub(self)");
    assert_eq!(Rules::parse_visibility("super"), "pub(super)");
    assert_eq!(Rules::parse_visibility("SUPER"), "pub(super)");
    assert_eq!(Rules::parse_visibility("pub(crate)"), "pub(crate)");
    assert_eq!(Rules::parse_visibility("PUB(CRATE)"), "PUB(CRATE)");
    assert_eq!(Rules::parse_visibility("pub(in crate::a)"), "pub(in crate::a)");
    assert_eq!(Rules::parse_visibility("anything"), "anything");
}

#[test]
fn visibility_from_goes_by_the_lowercase_word() {
    assert_eq!(Rules::visibility_from("Crate", "crate"), "pub(crate)");
    assert_eq!(Rules::visibility_from("Crate", "Crate"), "Crate");
    assert_eq!(Rules::visibility_from("x", "private"), "");
}

#[test]
fn visibility_tokens() {
    let token = |vis: Option<&str>| {
        Rules::visibility_token_from(&vis.map(|v| v.to_string()), true)
    };
    assert_eq!(token(None), Ok(VisibilityToken::Public));
    assert_eq!(token(Some("")), Ok(VisibilityToken::Private));
    assert_eq!(token(Some("pub")), Ok(VisibilityToken::Public));
    assert_eq!(token(Some("pub(crate)")), Ok(VisibilityToken::Crate));
    assert_eq!(token(Some("pub(self)")), Ok(VisibilityToken::Module));
    assert_eq!(token(Some("pub(super)")), Ok(VisibilityToken::Parent));
    assert_eq!(
        token(Some("pub(in crate::a)")),
        Ok(VisibilityToken::Path("crate::a".to_string()))
    );
    assert_eq!(
        token(Some("pub(in crate::a")),
        Ok(VisibilityToken::Path("crate::a".to_string()))
    );
    assert_eq!(token(Some("PUB(CRATE)")), Ok(VisibilityToken::Public));
    assert_eq!(token(Some("anything")), Ok(VisibilityToken::Public));
    assert_eq!(
        Rules::visibility_token_from(&Some("pub(in crate::a)".to_string()), false),
        Err(Reason::VisibilityPath)
    );
    assert_eq!(
        Rules::visibility_token_from(&Some("pub(crate)".to_string()), false),
        Ok(VisibilityToken::Crate)
    );
}

#[test]
fn scoped_visibility_asks_the_path_parser() {
    let mut rules = Rules::default();
    rules.getter_visibility = Some("pub(in crate::inner)".to_string());
    rules.setter_visibility = Some("pub(in 1 + 2)".to_string());
    assert_eq!(
        rules.getter_visibility_token(),
        Ok(VisibilityToken::Path("crate::inner".to_string()))
    );
    assert_eq!(rules.setter_visibility_token(), Err(Reason::VisibilityPath));
    rules.setter_visibility = Some("pub(in )".to_string());
    assert_eq!(rules.setter_visibility_token(), Err(Reason::VisibilityPath));
    rules.setter_visibility = Some("pub(in super::super)".to_string());
    assert_eq!(
        rules.setter_visibility_token(),
        Ok(VisibilityToken::Path("super::super".to_string()))
    );
}

#[test]
fn inline_values() {
    let parse = Rules::parse_inline_value;
    assert_eq!(parse(&DirectiveValue::Missing), Ok(InlineMode::Default));
    assert_eq!(parse(&DirectiveValue::Bool(true)), Ok(InlineMode::Default));
    assert_eq!(parse(&DirectiveValue::Bool(false)), Ok(InlineMode::Absent));
    for (word, mode) in [
        ("always", InlineMode::Always),
        ("ALWAYS", InlineMode::Always),
        ("true", InlineMode::Default),
        ("yes", InlineMode::Default),
        ("default", InlineMode::Default),
        ("Default", InlineMode::Default),
        ("false", InlineMode::Absent),
        ("no", InlineMode::Absent),
        ("none", InlineMode::Absent),
        ("NONE", InlineMode::Absent),
    ] {
        assert_eq!(parse(&DirectiveValue::Str(word.to_string())), Ok(mode), "{}", word);
    }
    assert_eq!(parse(&DirectiveValue::Str("never".to_string())), Err(Reason::InlineWord));
    assert_eq!(parse(&DirectiveValue::Str("".to_string())), Err(Reason::InlineWord));
    assert_eq!(parse(&DirectiveValue::Other), Err(Reason::InlineKind));
    assert_eq!(parse(&DirectiveValue::Unparsable), Err(Reason::InlineKind));
    assert_eq!(parse(&DirectiveValue::Group(vec![])), Err(Reason::Malformed));
    assert_eq!(Rules::inline_from_word("always"), Some(InlineMode::Always));
    assert_eq!(Rules::inline_from_word("ALWAYS"), None);
}

#[test]
fn inline_tokens() {
    let mut rules = Rules::default();
    assert_eq!(rules.getter_inline_token(), InlineMode::Always);
    assert_eq!(rules.setter_inline_token(), InlineMode::Default);
    rules.getter_inline = None;
    rules.setter_inline = Some(InlineMode::Absent);
    assert_eq!(rules.getter_inline_token(), InlineMode::Absent);
    assert_eq!(rules.setter_inline_token(), InlineMode::Absent);
}

#[test]
fn switches() {
    let rules = resolve(vec![flag("getter", false)]);
    assert!(!rules.gen_getter);
    assert!(rules.gen_setter);
    let rules = resolve(vec![text("setter", "no")]);
    assert!(rules.gen_getter);
    assert!(!rules.gen_setter);
    let rules = resolve(vec![text("setter", "anything else")]);
    assert!(!rules.gen_setter);
    let rules = resolve(vec![bare("skip")]);
    assert!(!rules.gen_getter);
    assert!(!rules.gen_setter);
    let rules = resolve(vec![flag("skip", false)]);
    assert!(rules.gen_getter);
    assert!(rules.gen_setter);
    let rules = resolve(vec![bare("extend")]);
    assert!(rules.inc_for_vec);
    let rules = resolve(vec![flag("inc", true)]);
    assert!(rules.inc_for_vec);
    let rules = resolve(vec![text("extend", "Y")]);
    assert!(rules.inc_for_vec);
    let rules = resolve(vec![bare("getter"), bare("setter")]);
    assert!(rules.gen_getter);
    assert!(rules.gen_setter);
}

#[test]
fn a_switch_refuses_a_value_of_the_wrong_kind() {
    for (key, which) in [
        ("getter", FlagKey::Getter),
        ("setter", FlagKey::Setter),
        ("skip", FlagKey::Skip),
        ("extend", FlagKey::Extend),
        ("inc", FlagKey::Extend),
    ] {
        for value in [DirectiveValue::Other, DirectiveValue::Unparsable] {
            let wrong = Directive { key: Some(key.to_string()), value };
            assert_eq!(
                refuse(vec![flag("getter", false), wrong]),
                RuleError { position: 1, reason: Reason::ExpectedFlag(which) },
                "{}",
                key
            );
        }
    }
    assert_eq!(
        Setting::parse(&Directive { key: Some("getter".to_string()), value: DirectiveValue::Other }),
        Err(Reason::ExpectedFlag(FlagKey::Getter))
    );
}

#[test]
fn later_directives_of_the_same_level_win() {
    let rules = resolve(vec![flag("getter", false), flag("getter", true)]);
    assert!(rules.gen_getter);
    let rules = resolve(vec![flag("getter", true), flag("getter", false)]);
    assert!(!rules.gen_getter);
    let rules = resolve(vec![text("alias", "a"), text("aka", "b")]);
    assert_eq!(rules.alias, Some("b".to_string()));
    let rules = resolve(vec![text("visibility", "crate"), text("visibility", "private")]);
    assert_eq!(rules.getter_visibility, Some("".to_string()));
    assert_eq!(rules.setter_visibility, Some("".to_string()));
    let rules = resolve(vec![text("getter_visibility", "crate"), text("getter_visibility", "super")]);
    assert_eq!(rules.getter_visibility, Some("pub(super)".to_string()));
    let rules = resolve(vec![text("inline", "always"), flag("inline", false)]);
    assert_eq!(rules.getter_inline, Some(InlineMode::Absent));
    assert_eq!(rules.setter_inline, Some(InlineMode::Absent));
    let rules = resolve(vec![bare("skip"), group("allow", &["getter"])]);
    assert!(rules.gen_getter);
    assert!(!rules.gen_setter);
    let rules = resolve(vec![group("allow", &["getter"]), bare("skip")]);
    assert!(!rules.gen_getter);
    let rules = resolve(vec![group("except", &["getter"]), group("allow", &["getter"])]);
    assert!(rules.gen_getter);
    let rules = resolve(vec![group("allow", &["getter"]), group("except", &["getter"])]);
    assert!(!rules.gen_getter);
}

#[test]
fn a_directive_of_its_own_beats_a_shorthand() {
    for directives in [
        vec![text("getter_visibility", "private"), text("visibility", "pub")],
        vec![text("visibility", "pub"), text("getter_visibility", "private")],
    ] {
        let rules = resolve(directives);
        assert_eq!(rules.getter_visibility, Some("".to_string()));
        assert_eq!(rules.setter_visibility, Some("pub".to_string()));
    }
    for directives in [
        vec![text("setter_visibility", "crate"), text("visibility", "private")],
        vec![text("visibility", "private"), text("setter_visibility", "crate")],
    ] {
        let rules = resolve(directives);
        assert_eq!(rules.getter_visibility, Some("".to_string()));
        assert_eq!(rules.setter_visibility, Some("pub(crate)".to_string()));
    }
    for directives in [
        vec![text("getter_inline", "always"), flag("inline", false)],
        vec![flag("inline", false), text("getter_inline", "always")],
    ] {
        let rules = resolve(directives);
        assert_eq!(rules.getter_inline, Some(InlineMode::Always));
        assert_eq!(rules.setter_inline, Some(InlineMode::Absent));
    }
    for directives in [
        vec![text("setter_inline", "none"), text("inline", "always")],
        vec![text("inline", "always"), text("setter_inline", "none")],
    ] {
        let rules = resolve(directives);
        assert_eq!(rules.getter_inline, Some(InlineMode::Always));
        assert_eq!(rules.setter_inline, Some(InlineMode::Absent));
    }
    for directives in [
        vec![flag("getter", false), group("allow", &["getter"])],
        vec![group("allow", &["getter"]), flag("getter", false)],
        vec![flag("getter", false), flag("skip", false)],
        vec![group("except", &["skip"]), flag("getter", false)],
    ] {
        let rules = resolve(directives);
        assert!(!rules.gen_getter);
        assert!(rules.gen_setter);
    }
    for directives in [
        vec![bare("skip"), flag("setter", true)],
        vec![flag("setter", true), bare("skip")],
        vec![flag("setter", true), group("except", &["setter", "getter"])],
        vec![group("allow", &["skip"]), flag("setter", true)],
    ] {
        let rules = resolve(directives);
        assert!(!rules.gen_getter);
        assert!(rules.gen_setter);
    }
    for directives in [
        vec![bare("extend"), group("except", &["inc"])],
        vec![group("except", &["extend"]), bare("extend")],
    ] {
        assert!(resolve(directives).inc_for_vec);
    }
    for directives in [
        vec![flag("extend", false), group("allow", &["extend"])],
        vec![group("allow", &["inc"]), flag("inc", false)],
    ] {
        assert!(!resolve(directives).inc_for_vec);
    }
}

#[test]
fn groups() {
    let rules = resolve(vec![group("allow", &["getter"]), group("except", &["setter"])]);
    assert!(rules.gen_getter);
    assert!(!rules.gen_setter);
    let rules = resolve(vec![group("allow", &["skip"])]);
    assert!(!rules.gen_getter);
    assert!(!rules.gen_setter);
    let rules = resolve(vec![bare("skip"), group("except", &["skip"])]);
    assert!(rules.gen_getter);
    assert!(rules.gen_setter);
    let rules = resolve(vec![group("allow", &["extend", "setter", "getter"])]);
    assert!(rules.inc_for_vec);
    let rules = resolve(vec![group("allow", &["extend"]), group("except", &["inc"])]);
    assert!(!rules.inc_for_vec);
    let rules = resolve(vec![group("except", &["into"])]);
    assert!(!rules.gen_into);
    let rules = resolve(vec![group("except", &["into"]), group("allow", &["getter"])]);
    assert!(!rules.gen_into);
    let rules = resolve(vec![group("except", &["getter", "skip"])]);
    assert!(rules.gen_getter);
    let rules = resolve(vec![group("except", &["skip", "getter"])]);
    assert!(!rules.gen_getter);
    assert!(rules.gen_setter);
    let rules = resolve(vec![group("allow", &[])]);
    assert_eq!(rules, Rules::default());
    let rules = resolve(vec![Directive {
        key: Some("allow".to_string()),
        value: DirectiveValue::Group(vec![None, Some("extend".to_string())]),
    }]);
    assert!(rules.inc_for_vec);
}

#[test]
fn names_and_prefixes() {
    let rules = resolve(vec![text("setter_prefix", "set"), text("getter_prefix", "get")]);
    assert_eq!(rules.prefix_setter, "set");
    assert_eq!(rules.prefix_getter, "get");
    let rules = resolve(vec![text("setter_prefix", "")]);
    assert_eq!(rules.prefix_setter, "with");
    let rules = resolve(vec![text("setter_prefix", "set"), text("setter_prefix", "")]);
    assert_eq!(rules.prefix_setter, "with");
    let rules = resolve(vec![text("getter_prefix", "get"), text("getter_prefix", "")]);
    assert_eq!(rules.prefix_getter, "");
    let rules = resolve(vec![text("into_prefix", "extract")]);
    assert_eq!(rules.into_prefix, Some("extract".to_string()));
    let rules = resolve(vec![text("into_prefix", "")]);
    assert_eq!(rules.into_prefix, Some("".to_string()));
}

#[test]
fn every_error_has_an_input() {
    assert_eq!(
        refuse(vec![bare("gettr")]),
        RuleError { position: 0, reason: Reason::UnsupportedArgument }
    );
    assert_eq!(
        refuse(vec![bare("getter"), Directive { key: None, value: DirectiveValue::Missing }]),
        RuleError { position: 1, reason: Reason::UnsupportedArgument }
    );
    assert_eq!(
        refuse(vec![flag("alias", true)]),
        RuleError { position: 0, reason: Reason::ExpectedString(TextKey::Alias) }
    );
    assert_eq!(
        refuse(vec![bare("aka")]),
        RuleError { position: 0, reason: Reason::ExpectedString(TextKey::Alias) }
    );
    for (key, which) in [
        ("setter_prefix", TextKey::SetterPrefix),
        ("getter_prefix", TextKey::GetterPrefix),
        ("into_prefix", TextKey::IntoPrefix),
        ("getter_visibility", TextKey::GetterVisibility),
        ("setter_visibility", TextKey::SetterVisibility),
        ("visibility", TextKey::Visibility),
    ] {
        let other = Directive { key: Some(key.to_string()), value: DirectiveValue::Other };
        assert_eq!(
            refuse(vec![flag("getter", true), flag("setter", true), other]),
            RuleError { position: 2, reason: Reason::ExpectedString(which) }
        );
    }
    assert_eq!(
        refuse(vec![text("inline", "sometimes")]),
        RuleError { position: 0, reason: Reason::InlineWord }
    );
    assert_eq!(
        refuse(vec![Directive {
            key: Some("getter_inline".to_string()),
            value: DirectiveValue::Other,
        }]),
        RuleError { position: 0, reason: Reason::InlineKind }
    );
    assert_eq!(
        refuse(vec![group("allow", &["getter", "into"])]),
        RuleError { position: 0, reason: Reason::UnsupportedAllow }
    );
    assert_eq!(
        refuse(vec![group("except", &["take"])]),
        RuleError { position: 0, reason: Reason::UnsupportedExcept }
    );
    assert_eq!(
        refuse(vec![bare("allow")]),
        RuleError { position: 0, reason: Reason::Malformed }
    );
    assert_eq!(
        refuse(vec![flag("except", true)]),
        RuleError { position: 0, reason: Reason::Malformed }
    );
    assert_eq!(
        refuse(vec![group("getter", &["x"])]),
        RuleError { position: 0, reason: Reason::Malformed }
    );
    assert_eq!(
        refuse(vec![group("setter_inline", &[])]),
        RuleError { position: 0, reason: Reason::Malformed }
    );
    assert_eq!(
        refuse(vec![bare("gettr"), flag("alias", true)]),
        RuleError { position: 0, reason: Reason::UnsupportedArgument }
    );
}

#[test]
fn messages() {
    assert_eq!(Reason::UnsupportedArgument.message(), "Unsupported argument");
    assert_eq!(
        Reason::ExpectedString(TextKey::Alias).message(),
        "Expected a string literal for alias"
    );
    assert_eq!(
        Reason::ExpectedString(TextKey::SetterPrefix).message(),
        "Expected a string literal for setter_prefix"
    );
    assert_eq!(
        Reason::ExpectedString(TextKey::GetterVisibility).message(),
        "Expected a string literal for getter_visibility"
    );
    assert_eq!(
        Reason::InlineWord.message(),
        "Expected 'always', 'true', 'false', or no value for inline"
    );
    assert_eq!(Reason::InlineKind.message(), "Expected a boolean or string for inline");
    assert_eq!(
        Reason::ExpectedFlag(FlagKey::Getter).message(),
        "Expected a boolean or string for getter"
    );
    assert_eq!(
        Reason::ExpectedFlag(FlagKey::Extend).message(),
        "Expected a boolean or string for extend"
    );
    assert_eq!(FlagKey::Skip.name(), "skip");
    assert_eq!(FlagKey::Setter.name(), "setter");
    assert_eq!(Reason::UnsupportedAllow.message(), "Unsupported allow argument");
    assert_eq!(Reason::UnsupportedExcept.message(), "Unsupported except argument");
    assert_eq!(Reason::Malformed.message(), "Malformed argument");
    assert_eq!(Reason::VisibilityPath.message(), "Invalid visibility path");
    assert_eq!(TextKey::IntoPrefix.name(), "into_prefix");
}

#[test]
fn settings_are_read_one_by_one() {
    assert_eq!(Setting::parse(&bare("getter")), Ok(Setting::Getter(true)));
    assert_eq!(Setting::parse(&text("skip", "yes")), Ok(Setting::Skip(true)));
    assert_eq!(Setting::parse(&text("aka", "w")), Ok(Setting::Alias("w".to_string())));
    assert_eq!(
        Setting::parse(&text("visibility", "Crate")),
        Ok(Setting::Visibility("pub(crate)".to_string()))
    );
    assert_eq!(Setting::parse(&bare("inline")), Ok(Setting::Inline(InlineMode::Default)));
    assert_eq!(
        Setting::parse(&group("allow", &["inc", "skip"])),
        Ok(Setting::Allow(vec![Allowed::Extend, Allowed::Skip]))
    );
    assert_eq!(
        Setting::parse(&group("except", &["into", "getter"])),
        Ok(Setting::Except(vec![Excepted::Into, Excepted::Getter]))
    );
    let rules = Rules::default().apply(&Setting::Except(vec![Excepted::Into, Excepted::Getter]));
    assert!(!rules.gen_into);
    assert!(!rules.gen_getter);
    assert!(rules.gen_setter);
    assert!(Setting::Skip(true).is_shorthand());
    assert!(Setting::Visibility(String::new()).is_shorthand());
    assert!(Setting::Inline(InlineMode::Always).is_shorthand());
    assert!(Setting::Allow(vec![]).is_shorthand());
    assert!(Setting::Except(vec![]).is_shorthand());
    assert!(!Setting::Getter(true).is_shorthand());
    assert!(!Setting::GetterVisibility(String::new()).is_shorthand());
    assert!(!Setting::SetterInline(InlineMode::Always).is_shorthand());
    assert!(!Setting::Alias(String::new()).is_shorthand());
    let settings = parse_settings(&vec![bare("skip"), text("alias", "a"), flag("getter", true)]);
    assert_eq!(
        settings,
        Ok(vec![Setting::Skip(true), Setting::Alias("a".to_string()), Setting::Getter(true)])
    );
    let rules = Rules::settle(&settings.unwrap());
    assert!(rules.gen_getter);
    assert!(!rules.gen_setter);
    assert_eq!(rules.alias, Some("a".to_string()));
    assert_eq!(Rules::settle(&vec![]), Rules::default());
    assert_eq!(
        parse_settings(&vec![bare("skip"), bare("alias"), bare("nope")]),
        Err(RuleError { position: 1, reason: Reason::ExpectedString(TextKey::Alias) })
    );
}

#[test]
fn naming_of_named_fields() {
    let width = named("width", vec![]);
    let rules = Rules::from(&width).unwrap();
    assert_eq!(names(&rules, &width, 0), ("with_width".to_string(), "width".to_string()));
    let w = named("w", vec![text("alias", "width")]);
    let rules = Rules::from(&w).unwrap();
    assert_eq!(names(&rules, &w, 7), ("with_width".to_string(), "width".to_string()));
    let h = named("h", vec![text("alias", "height"), text("setter_prefix", "set")]);
    let rules = Rules::from(&h).unwrap();
    assert_eq!(names(&rules, &h, 0), ("set_height".to_string(), "height".to_string()));
    let g = named("custom_getter", vec![text("getter_prefix", "get")]);
    let rules = Rules::from(&g).unwrap();
    assert_eq!(
        names(&rules, &g, 0),
        ("with_custom_getter".to_string(), "get_custom_getter".to_string())
    );
}

#[test]
fn naming_of_positional_fields() {
    let plain = positional(vec![]);
    let rules = Rules::from(&plain).unwrap();
    assert_eq!(names(&rules, &plain, 3), ("with_3".to_string(), "nth_3".to_string()));
    assert_eq!(names(&rules, &plain, 0), ("with_0".to_string(), "nth_0".to_string()));
    assert_eq!(names(&rules, &plain, 10), ("with_10".to_string(), "nth_10".to_string()));
    assert_eq!(
        names(&rules, &plain, 1234567890),
        ("with_1234567890".to_string(), "nth_1234567890".to_string())
    );
    assert_eq!(
        names(&rules, &plain, usize::MAX),
        (format!("with_{}", usize::MAX), format!("nth_{}", usize::MAX))
    );
    let alias = positional(vec![text("alias", "alpha")]);
    let rules = Rules::from(&alias).unwrap();
    assert_eq!(names(&rules, &alias, 3), ("with_alpha".to_string(), "alpha".to_string()));
    let both = positional(vec![text("getter_prefix", "get"), text("setter_prefix", "set")]);
    let rules = Rules::from(&both).unwrap();
    assert_eq!(names(&rules, &both, 4), ("set_4".to_string(), "get_4".to_string()));
    let data = positional(vec![text("alias", "data"), text("getter_prefix", "get")]);
    let rules = Rules::from(&data).unwrap();
    assert_eq!(names(&rules, &data, 9), ("with_data".to_string(), "get_data".to_string()));
}

#[test]
fn naming_of_move_out() {
    let field = named("string", vec![]);
    let rules = Rules::from(&field).unwrap();
    assert_eq!(
        rules.generate_into_take_names(&field, 0),
        ("into_string".to_string(), "take_string".to_string())
    );
    let field = named("custom_prefix", vec![text("into_prefix", "extract")]);
    let rules = Rules::from(&field).unwrap();
    assert_eq!(
        rules.generate_into_take_names(&field, 0),
        ("extract_custom_prefix".to_string(), "take_custom_prefix".to_string())
    );
    let field = named("w", vec![text("alias", "width"), text("into_prefix", "")]);
    let rules = Rules::from(&field).unwrap();
    assert_eq!(
        rules.generate_into_take_names(&field, 0),
        ("width".to_string(), "take_width".to_string())
    );
    let field = positional(vec![]);
    let rules = Rules::from(&field).unwrap();
    assert_eq!(
        rules.generate_into_take_names(&field, 5),
        ("into_nth_5".to_string(), "take_nth_5".to_string())
    );
    assert_eq!(Rules::extend_name("with_tags"), "with_tags_extend");
}

#[test]
fn directives_stand_in_the_first_attribute() {
    let attrs = |names: &[Option<&str>]| -> Vec<Option<String>> {
        names.iter().map(|n| n.map(|s| s.to_string())).collect()
    };
    assert_eq!(directive_group(&attrs(&[])), None);
    assert_eq!(directive_group(&attrs(&[Some("args")])), Some(0));
    assert_eq!(directive_group(&attrs(&[Some("args"), Some("doc")])), Some(0));
    assert_eq!(directive_group(&attrs(&[Some("doc"), Some("args")])), None);
    assert_eq!(directive_group(&attrs(&[None, Some("args")])), None);
    assert_eq!(directive_group(&attrs(&[Some("Args")])), None);
}
