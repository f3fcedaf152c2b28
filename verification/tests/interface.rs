use rbus::interface::{
    is_stream, method_name, object_id, plan, return_inner_type, sender_inner_type, ArgDecl, Attr,
    AttrArg, InterfaceError, MacroArg, MethodDecl, ReturnDecl, TypeDecl,
};

fn path(last: &str, args: &[&str]) -> TypeDecl {
    TypeDecl::Path {
        last: Some(last.to_string()),
        args: Some(args.iter().map(|s| s.to_string()).collect()),
    }
}

fn typed(name: &str, ty: TypeDecl) -> ArgDecl {
    ArgDecl::Typed { name: Some(name.to_string()), ty }
}

fn call(ident: &str, attrs: Vec<Attr>, is_async: bool, params: &[&str], ret: TypeDecl) -> MethodDecl {
    let mut inputs = vec![ArgDecl::Receiver];
    for p in params {
        inputs.push(typed(p, path("f64", &[])));
    }
    MethodDecl { ident: ident.to_string(), attrs, is_async, inputs, output: ReturnDecl::Type(ret) }
}

fn stream(ident: &str, item: &str) -> MethodDecl {
    MethodDecl {
        ident: ident.to_string(),
        attrs: vec![Attr { name: "stream".into(), arg: AttrArg::NotList }],
        is_async: true,
        inputs: vec![ArgDecl::Receiver, typed("rec", path("Sender", &[item]))],
        output: ReturnDecl::Unit,
    }
}

fn rename(to: &str) -> Attr {
    Attr { name: "rename".into(), arg: AttrArg::FirstString(to.to_string()) }
}

fn calculator() -> Vec<MethodDecl> {
    vec![
        call("add", vec![], false, &["a", "b"], path("Result", &["(f64, f64)"])),
        call("divide", vec![rename("Divide")], false, &["a", "b"], path("Result", &["f64"])),
        call("multiply", vec![], false, &["a", "b"], path("Result", &["f64"])),
        call("get_data", vec![], true, &[], path("Result", &["Data"])),
        stream("date", "u32"),
        stream("names", "String"),
    ]
}

fn named_args() -> Vec<MacroArg> {
    vec![
        MacroArg::NameValue { key: "name".into(), value: "calculator".into() },
        MacroArg::NameValue { key: "version".into(), value: "1.0".into() },
    ]
}

#[test]
fn calculator_trait_plan() {
    let p = plan("Calculator", &named_args(), &calculator()).unwrap();
    assert_eq!(p.id.to_string(), "calculator@1.0");
    let names: Vec<&str> = p.calls.iter().map(|c| c.wire_name.as_str()).collect();
    assert_eq!(names, vec!["add", "Divide", "multiply", "get_data"]);
    assert_eq!(p.calls[1].ident, "divide");
    assert_eq!(p.calls[1].arg_names, vec!["a".to_string(), "b".to_string()]);
    assert_eq!(p.calls[0].result, vec!["(f64, f64)".to_string()]);
    assert!(p.calls[3].is_async);
    assert!(p.calls[3].arg_names.is_empty());
    let streams: Vec<&str> = p.streams.iter().map(|s| s.wire_name.as_str()).collect();
    assert_eq!(streams, vec!["date", "names"]);
    assert_eq!(p.streams[1].item, vec!["String".to_string()]);
    assert_eq!(p.dispatch_target(&"Divide".to_string()), Some(1));
    assert_eq!(p.dispatch_target(&"divide".to_string()), None);
    assert!(p.needs_clone());
}

#[test]
fn identity_defaults_to_trait_name_and_one_dot_zero() {
    assert_eq!(object_id("Calculator", &vec![]).to_string(), "Calculator@1.0");
    let args = vec![
        MacroArg::Other,
        MacroArg::NameValue { key: "version".into(), value: "2.0".into() },
        MacroArg::NameValue { key: "version".into(), value: "3.0".into() },
    ];
    assert_eq!(object_id("Calc", &args).to_string(), "Calc@3.0");
}

#[test]
fn methods_without_receiver_are_left_out() {
    let mut methods = calculator();
    methods.push(MethodDecl {
        ident: "build".into(),
        attrs: vec![],
        is_async: false,
        inputs: vec![],
        output: ReturnDecl::Type(TypeDecl::Other),
    });
    let p = plan("Calculator", &vec![], &methods).unwrap();
    assert_eq!(p.calls.len(), 4);
    assert_eq!(p.streams.len(), 2);
}

#[test]
fn refused_signatures() {
    let mut m = stream("date", "u32");
    m.is_async = false;
    assert!(matches!(is_stream(&m), Err(InterfaceError::StreamNotAsync)));
    let mut m = stream("date", "u32");
    m.output = ReturnDecl::Type(path("u32", &[]));
    assert!(matches!(is_stream(&m), Err(InterfaceError::StreamReturns)));
    let mut m = stream("date", "u32");
    m.inputs.pop();
    assert!(matches!(is_stream(&m), Err(InterfaceError::StreamArity)));
    let mut m = stream("date", "u32");
    m.inputs[1] = typed("rec", path("Receiver", &["u32"]));
    assert!(matches!(is_stream(&m), Err(InterfaceError::StreamArgument)));
    assert!(matches!(is_stream(&calculator()[0]), Ok(false)));
    assert!(matches!(is_stream(&calculator()[4]), Ok(true)));

    let bad_ret = call("add", vec![], false, &["a"], path("Option", &["f64"]));
    assert!(matches!(
        plan("C", &vec![], &vec![bad_ret]),
        Err(InterfaceError::NotResult)
    ));
    let mut unnamed = call("add", vec![], false, &["a"], path("Result", &["f64"]));
    unnamed.inputs.push(ArgDecl::Typed { name: None, ty: TypeDecl::Other });
    assert!(matches!(plan("C", &vec![], &vec![unnamed]), Err(InterfaceError::UnnamedArgument)));
    let mut reference = stream("date", "u32");
    reference.inputs[1] = typed("rec", TypeDecl::Other);
    assert!(matches!(is_stream(&reference), Ok(true)));
    assert!(matches!(plan("C", &vec![], &vec![reference]), Err(InterfaceError::NotSender)));
}

#[test]
fn refusal_follows_the_expansion_order() {
    let bad_ret = call("add", vec![], false, &["a"], path("Option", &["f64"]));
    let mut not_async = stream("date", "u32");
    not_async.is_async = false;
    // stream rules are checked on every method before any call is looked at
    assert!(matches!(
        plan("C", &vec![], &vec![bad_ret, not_async]),
        Err(InterfaceError::StreamNotAsync)
    ));

    // of one call, the return type is looked at before the parameter names
    let mut both = call("add", vec![], false, &["a"], path("u32", &[]));
    both.inputs.push(ArgDecl::Typed { name: None, ty: TypeDecl::Other });
    assert!(matches!(plan("C", &vec![], &vec![both]), Err(InterfaceError::NotResult)));

    // a refused rename stops the expansion before any return type is read
    let bad_ret = call("add", vec![], false, &["a"], path("Option", &["f64"]));
    let empty = Attr { name: "rename".into(), arg: AttrArg::EmptyList };
    let renamed = call("mul", vec![empty], false, &["a"], path("Result", &["f64"]));
    assert!(matches!(
        plan("C", &vec![], &vec![bad_ret, renamed]),
        Err(InterfaceError::RenameNotLiteral)
    ));

    // calls are written before streams
    let mut reference = stream("date", "u32");
    reference.inputs[1] = typed("rec", TypeDecl::Other);
    let mut unnamed = call("add", vec![], false, &["a"], path("Result", &["f64"]));
    unnamed.inputs.push(ArgDecl::Typed { name: None, ty: TypeDecl::Other });
    assert!(matches!(
        plan("C", &vec![], &vec![reference, unnamed]),
        Err(InterfaceError::UnnamedArgument)
    ));
}

#[test]
fn renaming() {
    let m = call("divide", vec![rename("Divide")], false, &[], path("Result", &["f64"]));
    assert_eq!(method_name(&m).unwrap(), "Divide");
    let skip_then_name = call(
        "divide",
        vec![
            Attr { name: "rename".into(), arg: AttrArg::NotList },
            Attr { name: "rename".into(), arg: AttrArg::FirstOther },
            Attr { name: "doc".into(), arg: AttrArg::Unparsable },
            rename("Div"),
            rename("Later"),
        ],
        false,
        &[],
        path("Result", &["f64"]),
    );
    assert_eq!(method_name(&skip_then_name).unwrap(), "Div");
    let empty = call(
        "divide",
        vec![Attr { name: "rename".into(), arg: AttrArg::EmptyList }],
        false,
        &[],
        path("Result", &["f64"]),
    );
    assert!(matches!(method_name(&empty), Err(InterfaceError::RenameNotLiteral)));
    let plain = call("multiply", vec![], false, &[], path("Result", &["f64"]));
    assert_eq!(method_name(&plain).unwrap(), "multiply");
}

#[test]
fn inner_types() {
    let r = ReturnDecl::Type(path("Result", &["f64", "Error"]));
    assert_eq!(return_inner_type(&r).unwrap(), &vec!["f64".to_string(), "Error".to_string()]);
    assert!(matches!(return_inner_type(&ReturnDecl::Unit), Err(InterfaceError::NotResult)));
    let s = typed("rec", path("Sender", &["u32"]));
    assert_eq!(sender_inner_type(&s).unwrap(), &vec!["u32".to_string()]);
    assert!(matches!(sender_inner_type(&ArgDecl::Receiver), Err(InterfaceError::NotSender)));
}
