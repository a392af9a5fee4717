use type_kernel::depswalk::{
    add_dependencies, alias_dependencies, assignment_dependencies, augmented_assignment_methods,
    for_loop_methods, AssignedTarget, AssignmentFacts, AssignmentKind, ConstructorCall,
    import_dependencies, is_global_ref, isinstance_dependency, with_methods, class_def_dependencies, constructor_dependencies, decorator_dependencies,
    global_ref_dependencies, lvalue_dependencies, member_expr_dependencies,
    named_tuple_dependencies, node_kind, operator_method_dependencies, signature_dependencies,
    type_info_dependencies, unimported_fullname, AnyChainLink, BaseNames,
    ChildField, DeferError, DependencyMap, Lvalue, MemberAccess, MemberAssignment, NodeKind,
    OperatorType, Scope, Target, Trigger, TypeInfoFacts, Visit,
};

fn s(x: &str) -> String {
    x.to_string()
}

fn names(xs: &[&str]) -> Vec<String> {
    xs.iter().map(|x| x.to_string()).collect()
}

/// A readable rendering of a dependency.
fn show(d: &(Trigger, Target)) -> String {
    let t = match &d.0 {
        Trigger::Name(n) => format!("<{n}>"),
        Trigger::Wildcard(m) => format!("<{m}[wildcard]>"),
        Trigger::Made(t) => t.clone(),
    };
    let g = match &d.1 {
        Target::Current => "*".to_string(),
        Target::TriggerOf(n) => format!("<{n}>"),
        Target::Plain(p) => p.clone(),
    };
    format!("{t} -> {g}")
}

fn shown(ds: &[(Trigger, Target)]) -> Vec<String> {
    ds.iter().map(show).collect()
}

fn inst(name: &str) -> OperatorType {
    OperatorType::Instance { fullname: s(name) }
}

#[test]
fn operator_methods_follow_the_type() {
    assert_eq!(operator_method_dependencies(&inst("m.A"), "__add__"), names(&["m.A.__add__"]));
    let union = OperatorType::Union {
        items: vec![inst("m.A"), OperatorType::Other, inst("m.B")],
    };
    assert_eq!(
        operator_method_dependencies(&union, "__lt__"),
        names(&["m.A.__lt__", "m.B.__lt__"])
    );
    let tv = OperatorType::TypeVar {
        upper_bound: Some(Box::new(OperatorType::Tuple {
            fallback: Box::new(inst("builtins.tuple")),
        })),
    };
    assert_eq!(
        operator_method_dependencies(&tv, "__getitem__"),
        names(&["builtins.tuple.__getitem__"])
    );
    let nested_tv = OperatorType::TypeVar {
        upper_bound: Some(Box::new(OperatorType::TypeVar {
            upper_bound: Some(Box::new(inst("m.A"))),
        })),
    };
    assert!(operator_method_dependencies(&nested_tv, "__add__").is_empty());
    let meta = OperatorType::TypeOfInstance {
        metaclass: Some(Box::new(inst("m.Meta"))),
    };
    assert_eq!(operator_method_dependencies(&meta, "__or__"), names(&["m.Meta.__or__"]));
    let ctor = OperatorType::TypeObject {
        fallback: Box::new(inst("builtins.type")),
    };
    assert_eq!(
        operator_method_dependencies(&ctor, "__or__"),
        names(&["builtins.type.__or__"])
    );
    let no_bound = OperatorType::TypeVar { upper_bound: None };
    assert!(operator_method_dependencies(&no_bound, "__add__").is_empty());
}

#[test]
fn class_definition_dependencies() {
    let facts = TypeInfoFacts {
        target: s("m.C"),
        fullname: s("m.C"),
        base_type_triggers: names(&["<m.B>"]),
        special_type_triggers: names(&["<m.Meta>"]),
        protocol_mro: Some(names(&["m.C", "m.P", "builtins.object"])),
        alias_deps: names(&["m.Alias"]),
        members: vec![(s("x"), Some(true)), (s("f"), None), (s("y"), Some(false))],
        has_user_bases: true,
        bases: vec![BaseNames {
            fullname: s("m.B"),
            names: names(&["x"]),
        }],
    };
    let deps = type_info_dependencies(&facts, false);
    assert_eq!(
        shown(&deps),
        vec![
            "<m.B> -> m.C",
            "<m.Meta> -> <m.C>",
            "<m.C[wildcard]> -> <m.C>",
            "<m.P[wildcard]> -> <m.C>",
            "<m.Alias> -> *",
            "<m.C.x> -> *",
            "<m.B.x> -> <m.C.x>",
            "<m.B.y> -> <m.C.y>",
            "<m.B.x> -> <m.C.x>",
            "<m.B.__init__> -> <m.C.__init__>",
            "<m.B.__new__> -> <m.C.__new__>",
            "<m.B.(abstract)> -> <m.C.__init__>",
            "<m.B.(abstract)> -> *",
        ]
    );
}

#[test]
fn assignment_targets() {
    let mut out = Vec::new();
    let full_target = Some(s("m"));
    let lv = Lvalue::Tuple {
        items: vec![
            Lvalue::Name {
                name: s("x"),
                global_or_member: true,
                triggers: Some(names(&["<m.A>"])),
            },
            Lvalue::Star {
                expr: Box::new(Lvalue::Index {
                    base: Some(inst("m.L")),
                }),
            },
            Lvalue::Name {
                name: s("local"),
                global_or_member: false,
                triggers: None,
            },
            Lvalue::Member {
                name: s("attr"),
                new_self_attribute: Some(s("m.C")),
                unresolved: Some(MemberAssignment {
                    type_triggers: Some(names(&["<m.T>", "<m.U>"])),
                    attr_triggers: names(&["<m.C.attr>"]),
                }),
            },
            Lvalue::Other,
        ],
    };
    assert_eq!(lvalue_dependencies(&mut out, &lv, &full_target), Ok(()));
    assert_eq!(
        shown(&out),
        vec![
            "<m.A> -> <m.x>",
            "<m.L.__setitem__> -> *",
            "<m.C.attr> -> *",
            "<m.T> -> <m.C.attr>",
            "<m.U> -> <m.C.attr>",
        ]
    );
    let deferring = Lvalue::Name {
        name: s("x"),
        global_or_member: true,
        triggers: None,
    };
    assert_eq!(
        lvalue_dependencies(&mut Vec::new(), &deferring, &full_target),
        Err(DeferError)
    );
    let outside = Lvalue::Name {
        name: s("x"),
        global_or_member: true,
        triggers: Some(vec![]),
    };
    assert_eq!(lvalue_dependencies(&mut Vec::new(), &outside, &None), Err(DeferError));
}

#[test]
fn named_tuples() {
    let deps = named_tuple_dependencies(
        "m.P",
        &[
            (s("x"), Some(names(&["<builtins.int>"]))),
            (s("_hidden"), Some(names(&["<m.H>"]))),
            (s("f"), None),
        ],
    );
    assert_eq!(
        shown(&deps),
        vec![
            "<builtins.int> -> *",
            "<builtins.int> -> <m.P>",
            "<builtins.int> -> <m.P.x>",
        ]
    );
}

#[test]
fn constructor_calls() {
    let deps = constructor_dependencies(
        &s("m.C.__init__"),
        &[(s("m.a"), false), (s("m.b"), false), (s("m.f.c"), true), (s("m.d"), false)],
    );
    assert_eq!(
        shown(&deps),
        vec!["<m.C.__init__> -> <m.a>", "<m.C.__init__> -> <m.b>"]
    );
}

#[test]
fn definitions_and_references() {
    assert_eq!(
        shown(&signature_dependencies(&names(&["<m.A>"]), &s("m.f"))),
        vec!["<m.A> -> *", "<m.A> -> <m.f>"]
    );
    assert_eq!(
        shown(&class_def_dependencies(&s("m.C"), &names(&["m.T"]))),
        vec!["<m.C> -> m.C", "<m.T> -> m.C"]
    );
    assert_eq!(
        shown(&decorator_dependencies(&s("m.f"), false, false, &[], false)),
        vec!["<m.f> -> *"]
    );
    assert!(decorator_dependencies(&s("m.f"), true, false, &[], false).is_empty());
    assert!(decorator_dependencies(&s("m.f"), false, true, &[], false).is_empty());
    assert_eq!(
        shown(&decorator_dependencies(
            &s("m.f"),
            false,
            false,
            &[Some(s("m.deco")), None],
            true
        )),
        vec!["<m.deco> -> <m.f>"]
    );
    assert_eq!(
        shown(&global_ref_dependencies(&Some(s("m.C")), &Some(s("m.C")))),
        vec!["<m.C> -> *", "<m.C.__init__> -> *", "<m.C.__new__> -> *"]
    );
    assert!(global_ref_dependencies(&Some(s("")), &None).is_empty());
}

#[test]
fn attribute_accesses() {
    const FROM_ANOTHER_ANY: i64 = 4;
    const FROM_UNIMPORTED: i64 = 3;
    let links = vec![
        AnyChainLink {
            name: s("b"),
            object_any_kind: Some(FROM_ANOTHER_ANY),
            missing_import_name: None,
            object_is_member: true,
        },
        AnyChainLink {
            name: s("a"),
            object_any_kind: Some(FROM_UNIMPORTED),
            missing_import_name: Some(s("pkg")),
            object_is_member: false,
        },
    ];
    assert_eq!(
        unimported_fullname(&links, FROM_ANOTHER_ANY, FROM_UNIMPORTED),
        Some(s("pkg.a.b"))
    );
    assert_eq!(unimported_fullname(&links[1..], FROM_ANOTHER_ANY, FROM_UNIMPORTED), Some(s("pkg.a")));
    assert_eq!(unimported_fullname(&[], FROM_ANOTHER_ANY, FROM_UNIMPORTED), None);
    let access = MemberAccess::Attribute {
        attr_triggers: names(&["<m.C.x>"]),
        any_chain: Some(links),
    };
    assert_eq!(
        shown(&member_expr_dependencies(&None, &s("b"), &access, FROM_ANOTHER_ANY, FROM_UNIMPORTED)),
        vec!["<m.C.x> -> *", "<pkg.a.b> -> *"]
    );
    let module = MemberAccess::ModuleAttribute { module: s("os") };
    assert_eq!(
        shown(&member_expr_dependencies(&Some(s("m.C")), &s("path"), &module, 4, 3)),
        vec!["<m.C> -> *", "<os.path> -> *"]
    );
    assert!(member_expr_dependencies(&None, &s("x"), &MemberAccess::Untyped, 4, 3).is_empty());
}

#[test]
fn recording_in_order() {
    let mut scope = Scope::new();
    scope.enter_module(s("m"));
    let mut deps = DependencyMap::new();
    let items = vec![(s("<a.X>"), None), (s("<typing.Any>"), None), (s("<a.Y>"), Some(s("t")))];
    assert_eq!(add_dependencies(&mut deps, &scope, items), Ok(()));
    let mut e = deps.entries();
    e.sort();
    assert_eq!(e, vec![(s("<a.X>"), s("m")), (s("<a.Y>"), s("t"))]);
    let outside = Scope::new();
    assert_eq!(
        add_dependencies(&mut deps, &outside, vec![(s("<a.Z>"), None)]),
        Err(DeferError)
    );
}

#[test]
fn dispatch_table() {
    assert_eq!(node_kind("MypyFile"), NodeKind::Visit(Visit::MypyFile));
    assert_eq!(node_kind("AwaitExpr"), NodeKind::Visit(Visit::AwaitExpr));
    assert_eq!(node_kind("ExpressionStmt"), NodeKind::SingleChild(ChildField::Expr));
    assert_eq!(
        node_kind("TypeAliasStmt"),
        NodeKind::TwoChildren(ChildField::Name, ChildField::Value)
    );
    assert_eq!(node_kind("SetExpr"), NodeKind::ListField(ChildField::Items));
    assert_eq!(node_kind("LambdaExpr"), NodeKind::Function);
    assert_eq!(node_kind("PassStmt"), NodeKind::Leaf);
    assert_eq!(node_kind("Unknown"), NodeKind::Unsupported);
    assert_eq!(node_kind("mypyfile"), NodeKind::Unsupported);
}

#[test]
fn recording_order_does_not_matter() {
    let mut scope = Scope::new();
    scope.enter_module(s("m"));
    let items = vec![
        (s("<a.X>"), None),
        (s("<a.Y>"), Some(s("t"))),
        (s("<builtins.int>"), Some(s("t"))),
        (s("<a.X>"), None),
    ];
    let mut forward = DependencyMap::new();
    add_dependencies(&mut forward, &scope, items.clone()).unwrap();
    let mut backward = DependencyMap::new();
    add_dependencies(&mut backward, &scope, items.into_iter().rev().collect()).unwrap();
    let (mut a, mut b) = (forward.entries(), backward.entries());
    a.sort();
    b.sort();
    assert_eq!(a, b);
    assert_eq!(a, vec![(s("<a.X>"), s("m")), (s("<a.Y>"), s("t"))]);
}

#[test]
fn alias_dependencies_under_current_target() {
    assert_eq!(
        shown(&alias_dependencies(&names(&["m.A", "m.B"]))),
        vec!["<m.A> -> *", "<m.B> -> *"]
    );
}

#[test]
fn statement_rules() {
    assert_eq!(
        shown(&import_dependencies(&names(&["os", "a.b"]), &s("m"))),
        vec!["<os> -> m", "<a.b> -> m"]
    );
    assert_eq!(
        augmented_assignment_methods(&Some(s("__add__")), true),
        Ok(names(&["__add__", "__iadd__"]))
    );
    assert_eq!(
        augmented_assignment_methods(&Some(s("__matmul__")), false),
        Ok(names(&["__matmul__"]))
    );
    assert_eq!(augmented_assignment_methods(&None, true), Err(DeferError));
    assert_eq!(augmented_assignment_methods(&Some(s("x")), true), Err(DeferError));
    assert_eq!(for_loop_methods(false), (names(&["__iter__", "__getitem__"]), s("__next__")));
    assert_eq!(for_loop_methods(true), (names(&["__aiter__"]), s("__anext__")));
    assert_eq!(with_methods(false), names(&["__enter__", "__exit__"]));
    assert_eq!(with_methods(true), names(&["__aenter__", "__aexit__"]));
    assert!(is_global_ref(Some(1), 0, 2));
    assert!(!is_global_ref(Some(0), 0, 2));
    assert!(!is_global_ref(Some(2), 0, 2));
    assert!(is_global_ref(None, 0, 2));
    assert_eq!(isinstance_dependency(2, &Some(s("m.C"))), Some(s("m.C")));
    assert_eq!(isinstance_dependency(2, &Some(s(""))), None);
    assert_eq!(isinstance_dependency(3, &Some(s("m.C"))), None);
    assert_eq!(isinstance_dependency(2, &None), None);
}

#[test]
fn deferring_target_keeps_earlier_targets() {
    let mut out = Vec::new();
    let lv = Lvalue::Tuple {
        items: vec![
            Lvalue::Name {
                name: s("x"),
                global_or_member: true,
                triggers: Some(names(&["<m.A>"])),
            },
            Lvalue::Name {
                name: s("y"),
                global_or_member: true,
                triggers: None,
            },
            Lvalue::Index {
                base: Some(inst("m.L")),
            },
        ],
    };
    assert_eq!(lvalue_dependencies(&mut out, &lv, &Some(s("m"))), Err(DeferError));
    assert_eq!(shown(&out), vec!["<m.A> -> <m.x>"]);
}

#[test]
fn deferring_dependency_keeps_earlier_ones() {
    let outside = Scope::new();
    let mut deps = DependencyMap::new();
    let items = vec![
        (s("<a.X>"), Some(s("t"))),
        (s("<a.Y>"), None),
        (s("<a.Z>"), Some(s("u"))),
    ];
    assert_eq!(add_dependencies(&mut deps, &outside, items), Err(DeferError));
    assert_eq!(deps.entries(), vec![(s("<a.X>"), s("t"))]);
}

fn module_scope() -> Scope {
    let mut scope = Scope::new();
    scope.enter_module(s("m"));
    scope
}

fn plain(kind: AssignmentKind) -> AssignmentFacts {
    AssignmentFacts { kind, call: None }
}

#[test]
fn assignment_special_forms() {
    let scope = module_scope();
    let type_var = plain(AssignmentKind::TypeVar {
        fullname: s("m.T"),
        bound_triggers: names(&["<m.B>"]),
        value_triggers: vec![names(&["<m.V>"]), names(&["<m.W>", "<m.X>"])],
    });
    assert_eq!(
        shown(&assignment_dependencies(&type_var, &scope, false).unwrap()),
        vec!["<m.B> -> <m.T>", "<m.V> -> <m.T>", "<m.W> -> <m.T>", "<m.X> -> <m.T>"]
    );
    let named_tuple = plain(AssignmentKind::NamedTuple {
        name: s("P"),
        members: vec![(s("x"), Some(names(&["<m.I>"]))), (s("_y"), Some(names(&["<m.J>"])))],
    });
    assert_eq!(
        shown(&assignment_dependencies(&named_tuple, &scope, false).unwrap()),
        vec!["<m.I> -> *", "<m.I> -> <m.P>", "<m.I> -> <m.P.x>"]
    );
    assert!(assignment_dependencies(&named_tuple, &Scope::new(), false).is_err());
    let typed_dict = plain(AssignmentKind::TypedDict {
        name: s("D"),
        typeddict_triggers: Some(names(&["<m.K>"])),
    });
    assert_eq!(
        shown(&assignment_dependencies(&typed_dict, &scope, false).unwrap()),
        vec!["<m.K> -> <m.D>"]
    );
    let unknown_dict = plain(AssignmentKind::TypedDict { name: s("D"), typeddict_triggers: None });
    assert!(assignment_dependencies(&unknown_dict, &scope, false).is_err());
    let enum_call = plain(AssignmentKind::Enum {
        members: vec![Some(names(&["<m.E>"])), None, Some(names(&["<m.F>"]))],
    });
    assert_eq!(
        shown(&assignment_dependencies(&enum_call, &scope, false).unwrap()),
        vec!["<m.E> -> *", "<m.F> -> *"]
    );
}

#[test]
fn assignment_type_aliases() {
    let scope = module_scope();
    let alias = plain(AssignmentKind::Alias {
        lvalue_is_name: vec![true],
        type_object: Some(s("m.C")),
        alias_target_triggers: None,
        proper_triggers: Some(names(&["<m.C>"])),
    });
    assert_eq!(
        shown(&assignment_dependencies(&alias, &scope, false).unwrap()),
        vec!["<m.C.__init__> -> *", "<m.C.__new__> -> *", "<m.C> -> *"]
    );
    let explicit = plain(AssignmentKind::Alias {
        lvalue_is_name: vec![true],
        type_object: None,
        alias_target_triggers: Some(names(&["<m.U>"])),
        proper_triggers: Some(names(&["<m.C>"])),
    });
    assert_eq!(
        shown(&assignment_dependencies(&explicit, &scope, false).unwrap()),
        vec!["<m.U> -> *"]
    );
    let two_targets = plain(AssignmentKind::Alias {
        lvalue_is_name: vec![true, true],
        type_object: None,
        alias_target_triggers: None,
        proper_triggers: None,
    });
    assert!(assignment_dependencies(&two_targets, &scope, false).is_err());
    let not_a_name = plain(AssignmentKind::Alias {
        lvalue_is_name: vec![false],
        type_object: None,
        alias_target_triggers: None,
        proper_triggers: None,
    });
    assert!(assignment_dependencies(&not_a_name, &scope, false).is_err());
}

#[test]
fn assignment_plain_targets() {
    let scope = module_scope();
    let facts = AssignmentFacts {
        kind: AssignmentKind::Plain {
            targets: vec![
                AssignedTarget {
                    lvalue: Lvalue::Tuple {
                        items: vec![Lvalue::Name {
                            name: s("a"),
                            global_or_member: true,
                            triggers: Some(names(&["<m.A>"])),
                        }],
                    },
                    next_iter_triggers: names(&["<m.S.__iter__>"]),
                },
                AssignedTarget {
                    lvalue: Lvalue::Name {
                        name: s("b"),
                        global_or_member: true,
                        triggers: Some(names(&["<m.B>"])),
                    },
                    next_iter_triggers: names(&["<m.R.__iter__>"]),
                },
            ],
            declared_type_triggers: Some(names(&["<m.D>"])),
        },
        call: Some(ConstructorCall {
            constructor: Some(s("m.C.__init__")),
            new_definitions: vec![(s("m.a"), false), (s("m.b"), false)],
        }),
    };
    assert_eq!(
        shown(&assignment_dependencies(&facts, &scope, false).unwrap()),
        vec!["<m.A> -> <m.a>", "<m.B> -> <m.b>", "<m.S.__iter__> -> *", "<m.D> -> *"]
    );
    assert_eq!(
        shown(&assignment_dependencies(&facts, &scope, true).unwrap()),
        vec![
            "<m.A> -> <m.a>",
            "<m.B> -> <m.b>",
            "<m.S.__iter__> -> *",
            "<m.D> -> *",
            "<m.C.__init__> -> <m.a>",
            "<m.C.__init__> -> <m.b>",
        ]
    );
    let deferring = plain(AssignmentKind::Plain {
        targets: vec![AssignedTarget {
            lvalue: Lvalue::Name { name: s("z"), global_or_member: true, triggers: None },
            next_iter_triggers: vec![],
        }],
        declared_type_triggers: None,
    });
    assert!(assignment_dependencies(&deferring, &scope, true).is_err());
    let unnamed = AssignmentFacts {
        kind: AssignmentKind::Plain { targets: vec![], declared_type_triggers: None },
        call: Some(ConstructorCall { constructor: Some(s("")), new_definitions: vec![(s("m.a"), false)] }),
    };
    assert!(assignment_dependencies(&unnamed, &scope, true).unwrap().is_empty());
}
