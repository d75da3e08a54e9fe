use lib::inject::{
    approx_eq_epsilon, ident_site, macro_item_site, macro_name_site, math_consts, script_macros, slice_ext_methods,
    slice_filter_methods, str_ext_methods, truthy_impls, val_from_impls, val_variants,
    vec_ext_methods, ListOp, Site, StrOp, TruthTest, ValConversion, ValFormat,
};

#[test]
fn standard_names_resolve_at_the_call() {
    for name in ["println", "print", "format", "assert", "assert_eq", "std", "any", "String", "into"] {
        assert_eq!(ident_site(name), Site::Call, "{name}");
    }
    assert_eq!(ident_site("slice_eq"), Site::Call);
    assert_eq!(ident_site("is_truthy"), Site::Call);
    assert_eq!(ident_site("exit"), Site::Call);
    assert_eq!(ident_site("type_name_of_val"), Site::Call);
}

#[test]
fn macro_internals_resolve_at_the_definition() {
    for name in ["__s", "e", "expr", "tt", "left", "right", "put", "let", "if", "Println", ""] {
        assert_eq!(ident_site(name), Site::Def, "{name}");
    }
}

#[test]
fn script_macro_names_in_order() {
    let names: Vec<&str> = script_macros().iter().map(|m| m.name).collect();
    assert_eq!(names, vec!["put", "printf", "eq", "eqs", "seq", "s", "typeid", "exit", "__if", "__stmt"]);
    let printf = script_macros()[1];
    assert_eq!(printf.rules, "($($arg:tt)*) => { println!($($arg)*) };");
}

#[test]
fn string_methods_and_their_operations() {
    let ms = str_ext_methods();
    assert_eq!(ms.len(), 25);
    assert_eq!(ms[0].name, "first");
    assert_eq!(ms[0].op, StrOp::First);
    assert_eq!(ms[12].name, "toUpper");
    assert_eq!(ms[12].op, StrOp::Upper);
    assert_eq!(ms[24].name, "swap");
    assert_eq!(ms[24].op, StrOp::Replace);
    let finds: Vec<&str> = ms.iter().filter(|m| m.op == StrOp::Find).map(|m| m.name).collect();
    assert_eq!(finds, vec!["search", "locate"]);
}

#[test]
fn truthy_impls_cover_the_script_types() {
    let ts = truthy_impls();
    assert_eq!(ts.len(), 19);
    assert_eq!(ts[0].ty, "bool");
    assert_eq!(ts[0].test, TruthTest::Itself);
    assert_eq!(ts[13].ty, "f32");
    assert_eq!(ts[13].test, TruthTest::NonZeroFloat);
    assert_eq!(ts[18].ty, "Option");
    assert!(ts[18].generic);
    assert_eq!(ts[18].test, TruthTest::IsSome);
}

#[test]
fn list_methods_and_their_operations() {
    let ss = slice_ext_methods();
    assert_eq!(ss.len(), 12);
    assert_eq!(ss[0].name, "mapped");
    assert_eq!(ss[0].op, ListOp::MapEach);
    assert_eq!(ss[11].name, "pairs");
    assert_eq!(ss[11].op, ListOp::Pairs);
    let fs = slice_filter_methods();
    assert_eq!(fs.len(), 1);
    assert_eq!(fs[0].name, "filter");
    assert_eq!(fs[0].op, ListOp::Filter);
    let vs = vec_ext_methods();
    assert_eq!(vs.len(), 2);
    assert_eq!(vs[0].op, ListOp::Shift);
    assert_eq!(vs[1].name, "sortDesc");
    assert_eq!(vs[1].op, ListOp::SortDesc);
}

#[test]
fn val_variants_and_conversions() {
    let vs = val_variants();
    let names: Vec<&str> = vs.iter().map(|v| v.name).collect();
    assert_eq!(names, vec!["Str", "Int", "Float", "Bool", "List", "Nil"]);
    assert!(vs[0].eq_char);
    assert_eq!(vs[4].format, ValFormat::Debug);
    assert_eq!(vs[5].payload, "");
    assert_eq!(vs[5].truth, TruthTest::Never);
    let fs = val_from_impls();
    assert_eq!(fs.len(), 8);
    assert_eq!(fs[3].source, "i32");
    assert_eq!(fs[3].conversion, ValConversion::Widen);
    assert_eq!(fs[7].source, "char");
    assert_eq!(fs[7].variant, "Str");
    assert_eq!(fs[3].target, "i64");
    assert_eq!(fs[5].target, "f64");
}

#[test]
fn math_constants_and_tolerance() {
    let cs = math_consts();
    let pairs: Vec<(&str, &str)> = cs.iter().map(|c| (c.name, c.std_name)).collect();
    assert_eq!(pairs, vec![("tau", "TAU"), ("pi", "PI"), ("τ", "TAU"), ("π", "PI")]);
    assert_eq!(approx_eq_epsilon(), "1e-9");
    let eps: f64 = approx_eq_epsilon().parse().unwrap();
    assert_eq!(eps, 1e-9);
}

#[test]
fn macro_names_resolve_at_the_call() {
    assert_eq!(macro_name_site(), Site::Call);
    assert_eq!(macro_item_site(), Site::Def);
}
