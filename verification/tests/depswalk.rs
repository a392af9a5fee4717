use type_kernel::depswalk::{
    add_dependency, base_dependencies, binary_op_dependencies, has_user_bases,
    import_from_dependencies, inplace_method_name, is_ignored_trigger, method_base_dependencies,
    non_trivial_bases, str_eq, str_starts_with, super_dependencies, BaseNames, DeferError,
    DependencyMap, FunctionScope, Operand, Scope,
};

fn s(x: &str) -> String {
    x.to_string()
}

fn names(xs: &[&str]) -> Vec<String> {
    xs.iter().map(|x| x.to_string()).collect()
}

fn func(fullname: Option<&str>, name: &str) -> FunctionScope {
    FunctionScope {
        fullname: fullname.map(|f| f.to_string()),
        name: name.to_string(),
    }
}

fn sorted(map: &DependencyMap) -> Vec<(String, String)> {
    let mut e = map.entries();
    e.sort();
    e
}

#[test]
fn targets_follow_the_scope() {
    let mut scope = Scope::new();
    assert_eq!(scope.current_target(), None);
    assert_eq!(scope.current_full_target(), None);
    scope.enter_module(s("pkg.mod"));
    assert_eq!(scope.current_module_id(), Some(s("pkg.mod")));
    assert_eq!(scope.current_target(), Some(s("pkg.mod")));
    scope.enter_class_scope(s("pkg.mod.C"));
    assert_eq!(scope.current_target(), Some(s("pkg.mod")));
    assert_eq!(scope.current_full_target(), Some(s("pkg.mod.C")));
    scope.enter_function_scope(func(Some("pkg.mod.C.f"), "f"));
    assert_eq!(scope.current_target(), Some(s("pkg.mod.C.f")));
    assert_eq!(scope.current_function_name(), Some(s("f")));
    // A nested function and class do not change the target.
    scope.enter_function_scope(func(Some("pkg.mod.C.f.g"), "g"));
    scope.enter_class_scope(s("pkg.mod.C.f.D"));
    assert_eq!(scope.current_target(), Some(s("pkg.mod.C.f")));
    assert_eq!(scope.ignored, 2);
    scope.leave_class_scope();
    scope.leave_function_scope();
    assert_eq!(scope.current_full_target(), Some(s("pkg.mod.C.f")));
    scope.leave_function_scope();
    assert_eq!(scope.current_function_name(), None);
    assert_eq!(scope.current_full_target(), Some(s("pkg.mod.C")));
    scope.leave_class_scope();
    assert_eq!(scope.current_full_target(), Some(s("pkg.mod")));
    assert!(scope.classes.is_empty() && scope.functions.is_empty());
    scope.leave_module();
    assert_eq!(scope.current_target(), None);
}

#[test]
fn function_without_fullname() {
    let mut scope = Scope::new();
    scope.enter_module(s("m"));
    scope.enter_function_scope(func(None, "lambda"));
    assert_eq!(scope.current_target(), Some(s("")));
    assert_eq!(scope.current_full_target(), Some(s("None")));
}

#[test]
fn entering_a_module_resets_the_scope() {
    let mut scope = Scope::new();
    scope.enter_module(s("a"));
    scope.enter_class_scope(s("a.C"));
    scope.enter_function_scope(func(Some("a.C.f"), "f"));
    scope.enter_module(s("b"));
    assert_eq!(scope.current_full_target(), Some(s("b")));
    assert_eq!(scope.ignored, 0);
    assert!(scope.function.is_none());
}

#[test]
fn builtin_triggers_are_dropped() {
    assert!(is_ignored_trigger("<builtins.int>"));
    assert!(is_ignored_trigger("<typing.List>"));
    assert!(is_ignored_trigger("<mypy_extensions.i64>"));
    assert!(is_ignored_trigger("<typing_extensions.Self>"));
    assert!(!is_ignored_trigger("<builtinsx.int>"));
    assert!(!is_ignored_trigger("<mod.typing.X>"));
    let mut scope = Scope::new();
    scope.enter_module(s("m"));
    let mut deps = DependencyMap::new();
    assert_eq!(add_dependency(&mut deps, &scope, s("<builtins.int>"), None), Ok(()));
    assert!(deps.entries().is_empty());
}

#[test]
fn dependencies_are_recorded_once() {
    let mut scope = Scope::new();
    scope.enter_module(s("m"));
    let mut deps = DependencyMap::new();
    add_dependency(&mut deps, &scope, s("<a.X>"), None).unwrap();
    add_dependency(&mut deps, &scope, s("<a.X>"), None).unwrap();
    add_dependency(&mut deps, &scope, s("<a.X>"), Some(s("<m.f>"))).unwrap();
    assert!(deps.contains(&s("<a.X>"), &s("m")));
    assert!(!deps.contains(&s("<a.X>"), &s("n")));
    assert_eq!(
        sorted(&deps),
        vec![(s("<a.X>"), s("<m.f>")), (s("<a.X>"), s("m"))]
    );
}

#[test]
fn no_target_outside_a_module_defers() {
    let scope = Scope::new();
    let mut deps = DependencyMap::new();
    assert_eq!(add_dependency(&mut deps, &scope, s("<a.X>"), None), Err(DeferError));
    assert_eq!(
        add_dependency(&mut deps, &scope, s("<a.X>"), Some(s("t"))),
        Ok(())
    );
    assert_eq!(sorted(&deps), vec![(s("<a.X>"), s("t"))]);
}

#[test]
fn class_bases() {
    let mro = names(&["m.C", "m.B", "builtins.object"]);
    assert_eq!(non_trivial_bases(&mro), vec![1]);
    assert_eq!(non_trivial_bases(&names(&["m.C"])), Vec::<usize>::new());
    assert_eq!(non_trivial_bases(&[]), Vec::<usize>::new());
    assert!(has_user_bases(&names(&["m", "lib", "builtins"])));
    assert!(!has_user_bases(&names(&["m", "typing", "enum", "builtins"])));
    assert!(!has_user_bases(&names(&["m"])));
}

#[test]
fn base_member_dependencies() {
    let bases = vec![BaseNames {
        fullname: s("m.B"),
        names: names(&["x", "__init__"]),
    }];
    let deps = base_dependencies("m.C", &names(&["x"]), &bases, false);
    assert_eq!(
        deps,
        vec![
            (s("m.B.x"), Some(s("m.C.x"))),
            (s("m.B.__init__"), Some(s("m.C.__init__"))),
            (s("m.B.__init__"), Some(s("m.C.__init__"))),
            (s("m.B.__new__"), Some(s("m.C.__new__"))),
            (s("m.B.(abstract)"), Some(s("m.C.__init__"))),
            (s("m.B.(abstract)"), None),
        ]
    );
    let logical = base_dependencies("m.C", &names(&["x", "__init__"]), &bases, true);
    assert_eq!(logical, vec![(s("m.B.x"), Some(s("m.C.x")))]);
}

#[test]
fn method_and_super_dependencies() {
    let bases = names(&["m.A", "m.B"]);
    assert_eq!(
        method_base_dependencies(&s("f"), &bases, true),
        names(&["m.A.f", "m.B.f"])
    );
    assert_eq!(
        method_base_dependencies(&s("__init__"), &bases, true),
        Vec::<String>::new()
    );
    assert_eq!(
        method_base_dependencies(&s("__init__"), &bases, false),
        names(&["m.A.__init__", "m.B.__init__"])
    );
    let sup = vec![(s("m.A"), false), (s("m.B"), true), (s("m.Z"), true)];
    assert_eq!(super_dependencies(&s("f"), &sup), names(&["m.A.f", "m.B.f"]));
    assert_eq!(
        super_dependencies(&s("f"), &[(s("m.A"), false)]),
        names(&["m.A.f"])
    );
}

#[test]
fn import_from_names() {
    assert_eq!(
        import_from_dependencies(&s("pkg.mod"), &names(&["a", "b"])),
        names(&["pkg.mod", "pkg.mod.a", "pkg.mod.b"])
    );
}

#[test]
fn operator_methods() {
    assert_eq!(
        binary_op_dependencies("+", Some(s("__add__")), Some(s("__radd__"))),
        vec![(Operand::Left, s("__add__")), (Operand::Right, s("__radd__"))]
    );
    assert_eq!(
        binary_op_dependencies("in", Some(s("__contains__")), None),
        vec![(Operand::Right, s("__contains__"))]
    );
    assert_eq!(
        binary_op_dependencies("==", Some(s("__eq__")), None),
        vec![(Operand::Left, s("__eq__"))]
    );
    assert_eq!(binary_op_dependencies("is", None, None), vec![]);
    assert_eq!(inplace_method_name("__add__"), Some(s("__iadd__")));
    assert_eq!(inplace_method_name("ab"), Some(s("__i")));
    assert_eq!(inplace_method_name("a"), None);
    assert_eq!(inplace_method_name("é"), Some(s("__i")));
    assert_eq!(inplace_method_name("aé"), None);
}

#[test]
fn string_helpers() {
    assert!(str_starts_with("abc", "ab"));
    assert!(str_starts_with("abc", ""));
    assert!(!str_starts_with("ab", "abc"));
    assert!(str_eq("in", "in"));
    assert!(!str_eq("in", "is"));
    assert!(!str_eq("in", "int"));
}
