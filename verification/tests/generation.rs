use theus::abi::AbiType;
use theus::abi::ArgExpr;
use theus::abi::Pointee;
use theus::abi::RetExpr;
use theus::abi::SelfExpr;
use theus::diag::DestroyReceiverFound;
use theus::diag::DiagnosticKind;
use theus::diag::ErrorCategory;
use theus::diag::LifecycleName;
use theus::generate::c_compatible;
use theus::model::ElemType;
use theus::model::FnInput;
use theus::model::ImplementationBlock;
use theus::model::MethodDeclaration;
use theus::model::Parameter;
use theus::model::ReceiverForm;
use theus::model::ScalarKind;
use theus::model::TypeDescriptor;
use theus::names::lower_string;
use theus::names::scalar_for_name;
use theus::names::scalar_name_of;
use theus::names::symbol_for;

fn method(name: &str, inputs: Vec<FnInput>, ret: Option<TypeDescriptor>) -> MethodDeclaration {
    MethodDeclaration { name: name.to_string(), inputs, ret, docs: Vec::new() }
}

fn scalar_param(name: &str, kind: ScalarKind) -> FnInput {
    FnInput::Typed(Parameter { name: name.to_string(), ty: TypeDescriptor::Scalar(kind) })
}

fn param(name: &str, ty: TypeDescriptor) -> FnInput {
    FnInput::Typed(Parameter { name: name.to_string(), ty })
}

fn named(subject: &str) -> ElemType {
    ElemType::Named(subject.to_string())
}

fn lifecycle_pair() -> Vec<MethodDeclaration> {
    vec![
        method("create", vec![], Some(TypeDescriptor::Named("Self".to_string()))),
        method("destroy", vec![FnInput::Receiver(ReceiverForm::Owned)], None),
    ]
}

#[test]
fn widget_inherent_block() {
    let block = ImplementationBlock {
        subject: "Widget".to_string(),
        capability: None,
        methods: vec![
            method("create", vec![], Some(TypeDescriptor::Named("Self".to_string()))),
            method(
                "get",
                vec![FnInput::Receiver(ReceiverForm::Shared)],
                Some(TypeDescriptor::Scalar(ScalarKind::I32)),
            ),
            method(
                "set",
                vec![
                    FnInput::Receiver(ReceiverForm::Exclusive),
                    scalar_param("v", ScalarKind::I32),
                ],
                None,
            ),
            method("destroy", vec![FnInput::Receiver(ReceiverForm::Owned)], None),
        ],
    };
    let decls = c_compatible(&block).expect("the full lifecycle block generates");
    assert_eq!(decls.len(), 4);

    let create = &decls[0];
    assert_eq!(create.name, "widget_create");
    assert!(create.params.is_empty());
    assert_eq!(create.ret, Some(AbiType::MutPtr(Pointee::Elem(named("Widget")))));
    assert_eq!(create.ret_expr, RetExpr::HeapAllocate);
    assert_eq!(create.call.self_expr, SelfExpr::Absent);
    assert!(create.is_unsafe);

    let get = &decls[1];
    assert_eq!(get.name, "widget_get");
    assert_eq!(get.params.len(), 1);
    assert_eq!(get.params[0].name, "ptr");
    assert_eq!(get.params[0].ty, AbiType::ConstPtr(Pointee::Elem(named("Widget"))));
    assert_eq!(get.ret, Some(AbiType::Scalar(ScalarKind::I32)));
    assert_eq!(get.ret_expr, RetExpr::PassThrough);
    assert_eq!(get.call.self_expr, SelfExpr::DerefShared);
    assert!(!get.is_unsafe);

    let set = &decls[2];
    assert_eq!(set.name, "widget_set");
    assert_eq!(set.params.len(), 2);
    assert_eq!(set.params[0].name, "ptr");
    assert_eq!(set.params[0].ty, AbiType::MutPtr(Pointee::Elem(named("Widget"))));
    assert_eq!(set.params[1].name, "v");
    assert_eq!(set.params[1].ty, AbiType::Scalar(ScalarKind::I32));
    assert_eq!(set.ret, None);
    assert_eq!(set.call.args, vec![ArgExpr::Plain("v".to_string())]);

    let destroy = &decls[3];
    assert_eq!(destroy.name, "widget_destroy");
    assert_eq!(destroy.params.len(), 1);
    assert_eq!(destroy.params[0].ty, AbiType::MutPtr(Pointee::Elem(named("Widget"))));
    assert_eq!(destroy.call.self_expr, SelfExpr::TakeOwnership);
}

#[test]
fn widget_capability_block() {
    let block = ImplementationBlock {
        subject: "Widget".to_string(),
        capability: Some("Greet".to_string()),
        methods: vec![
            method(
                "hello",
                vec![FnInput::Receiver(ReceiverForm::Exclusive)],
                Some(TypeDescriptor::Scalar(ScalarKind::I32)),
            ),
        ],
    };
    let decls = c_compatible(&block).expect("no lifecycle pair is required of a capability block");
    assert_eq!(decls.len(), 1);
    assert_eq!(decls[0].name, "widget_greet_hello");
    assert_eq!(decls[0].call.self_expr, SelfExpr::DerefExclusive);
}

#[test]
fn missing_destroy_rejected() {
    let block = ImplementationBlock {
        subject: "Widget".to_string(),
        capability: None,
        methods: vec![method("create", vec![], Some(TypeDescriptor::Named("Self".to_string())))],
    };
    let diags = c_compatible(&block).expect_err("an inherent block must pair create and destroy");
    assert_eq!(diags.len(), 1);
    assert_eq!(diags[0].method, None);
    assert_eq!(
        diags[0].kind,
        DiagnosticKind::MissingLifecycle { missing: LifecycleName::Destroy },
    );
    assert_eq!(diags[0].category(), ErrorCategory::StructuralError);
    assert_eq!(
        diags[0].message(),
        "Struct must have both 'create' and 'destroy' functions. Missing: destroy",
    );
}

#[test]
fn missing_create_rejected() {
    let block = ImplementationBlock {
        subject: "Widget".to_string(),
        capability: None,
        methods: vec![method("destroy", vec![FnInput::Receiver(ReceiverForm::Owned)], None)],
    };
    let diags = c_compatible(&block).expect_err("an inherent block must pair create and destroy");
    assert_eq!(diags.len(), 1);
    assert_eq!(
        diags[0].kind,
        DiagnosticKind::MissingLifecycle { missing: LifecycleName::Create },
    );
    assert_eq!(
        diags[0].message(),
        "Struct must have both 'create' and 'destroy' functions. Missing: create",
    );
}

#[test]
fn destroy_receiver_forms_distinguished() {
    let cases = vec![
        (
            vec![],
            DestroyReceiverFound::Absent,
            "Destroy function must receive owned self argument. Found no receiver",
        ),
        (
            vec![FnInput::Receiver(ReceiverForm::Shared)],
            DestroyReceiverFound::Shared,
            "Destroy function must receive owned self argument. &self found instead",
        ),
        (
            vec![FnInput::Receiver(ReceiverForm::Exclusive)],
            DestroyReceiverFound::Exclusive,
            "Destroy function must receive owned self argument. &mut self found instead",
        ),
    ];
    for (inputs, found, message) in cases {
        let block = ImplementationBlock {
            subject: "Widget".to_string(),
            capability: None,
            methods: vec![
                method("create", vec![], Some(TypeDescriptor::Named("Self".to_string()))),
                method("destroy", inputs, None),
            ],
        };
        let diags = c_compatible(&block).expect_err("a destroy must consume its receiver");
        assert_eq!(diags.len(), 1);
        assert_eq!(diags[0].method, Some("destroy".to_string()));
        assert_eq!(diags[0].kind, DiagnosticKind::DestroyNotOwning { found });
        assert_eq!(diags[0].message(), message);
        assert_eq!(diags[0].category(), ErrorCategory::StructuralError);
    }
}

#[test]
fn create_with_receiver_rejected() {
    let block = ImplementationBlock {
        subject: "Widget".to_string(),
        capability: None,
        methods: vec![
            method(
                "create",
                vec![FnInput::Receiver(ReceiverForm::Shared)],
                Some(TypeDescriptor::Named("Self".to_string())),
            ),
            method("destroy", vec![FnInput::Receiver(ReceiverForm::Owned)], None),
        ],
    };
    let diags = c_compatible(&block).expect_err("an allocator must not receive self");
    assert_eq!(diags.len(), 1);
    assert_eq!(diags[0].method, Some("create".to_string()));
    assert_eq!(diags[0].kind, DiagnosticKind::CreateWithReceiver);
    assert_eq!(diags[0].message(), "Create function cannot receive self as argument");
}

#[test]
fn receiver_not_first_rejected() {
    let mut methods = lifecycle_pair();
    methods.push(method(
        "tail",
        vec![
            scalar_param("x", ScalarKind::U8),
            FnInput::Receiver(ReceiverForm::Shared),
        ],
        None,
    ));
    let block = ImplementationBlock {
        subject: "Widget".to_string(),
        capability: None,
        methods,
    };
    let diags = c_compatible(&block).expect_err("a receiver must stand first");
    assert_eq!(diags.len(), 1);
    assert_eq!(diags[0].method, Some("tail".to_string()));
    assert_eq!(diags[0].kind, DiagnosticKind::ReceiverNotFirst);
    assert_eq!(diags[0].message(), "Self parameter must be the first parameter");
}

#[test]
fn bare_named_param_rejected() {
    let mut methods = lifecycle_pair();
    methods.push(method(
        "take",
        vec![
            FnInput::Receiver(ReceiverForm::Exclusive),
            param("w", TypeDescriptor::Named("Widget".to_string())),
        ],
        None,
    ));
    let block = ImplementationBlock {
        subject: "Widget".to_string(),
        capability: None,
        methods,
    };
    let diags = c_compatible(&block)
        .expect_err("a named value passed bare fails even when all else would generate");
    assert_eq!(diags.len(), 1);
    assert_eq!(diags[0].method, Some("take".to_string()));
    assert_eq!(diags[0].kind, DiagnosticKind::NonScalarByValue);
    assert_eq!(diags[0].category(), ErrorCategory::TypeSafetyError);
    assert_eq!(
        diags[0].message(),
        "Only scalar types can be passed directly to functions without being behind refs or pointers",
    );
}

#[test]
fn slice_param_decomposition() {
    let mut methods = lifecycle_pair();
    methods.push(method(
        "fill",
        vec![
            FnInput::Receiver(ReceiverForm::Exclusive),
            param(
                "x",
                TypeDescriptor::SliceReference {
                    mutable: false,
                    elem: ElemType::Scalar(ScalarKind::U8),
                },
            ),
            param(
                "y",
                TypeDescriptor::SliceReference {
                    mutable: true,
                    elem: ElemType::Scalar(ScalarKind::U8),
                },
            ),
        ],
        None,
    ));
    let block = ImplementationBlock {
        subject: "Widget".to_string(),
        capability: None,
        methods,
    };
    let decls = c_compatible(&block).expect("slice parameters generate");
    let fill = &decls[2];
    assert_eq!(fill.params.len(), 5);
    assert_eq!(fill.params[1].name, "x_ptr");
    assert_eq!(fill.params[1].ty, AbiType::ConstPtr(Pointee::Elem(ElemType::Scalar(ScalarKind::U8))));
    assert_eq!(fill.params[2].name, "x_len");
    assert_eq!(fill.params[2].ty, AbiType::Scalar(ScalarKind::Usize));
    assert_eq!(fill.params[3].name, "y_ptr");
    assert_eq!(fill.params[3].ty, AbiType::MutPtr(Pointee::Elem(ElemType::Scalar(ScalarKind::U8))));
    assert_eq!(fill.params[4].name, "y_len");
    assert_eq!(
        fill.call.args,
        vec![
            ArgExpr::SliceShared("x".to_string()),
            ArgExpr::SliceExclusive("y".to_string()),
        ],
    );
}

#[test]
fn reference_params_and_returns() {
    let mut methods = lifecycle_pair();
    methods.push(method(
        "peek",
        vec![
            FnInput::Receiver(ReceiverForm::Shared),
            param(
                "other",
                TypeDescriptor::Reference { mutable: false, inner: named("Widget") },
            ),
        ],
        Some(TypeDescriptor::Reference {
            mutable: false,
            inner: ElemType::Scalar(ScalarKind::I32),
        }),
    ));
    methods.push(method(
        "poke",
        vec![FnInput::Receiver(ReceiverForm::Exclusive)],
        Some(TypeDescriptor::Reference {
            mutable: true,
            inner: ElemType::Scalar(ScalarKind::I32),
        }),
    ));
    let block = ImplementationBlock {
        subject: "Widget".to_string(),
        capability: None,
        methods,
    };
    let decls = c_compatible(&block).expect("reference signatures generate");

    let peek = &decls[2];
    assert_eq!(peek.params[1].name, "other");
    assert_eq!(peek.params[1].ty, AbiType::ConstPtr(Pointee::Elem(named("Widget"))));
    assert_eq!(peek.ret, Some(AbiType::ConstPtr(Pointee::Elem(ElemType::Scalar(ScalarKind::I32)))));
    assert_eq!(peek.ret_expr, RetExpr::PointerCast);
    assert_eq!(peek.call.args, vec![ArgExpr::DerefShared("other".to_string())]);

    let poke = &decls[3];
    assert_eq!(poke.ret, Some(AbiType::MutPtr(Pointee::Elem(ElemType::Scalar(ScalarKind::I32)))));
    assert_eq!(poke.ret_expr, RetExpr::PointerCast);
}

#[test]
fn raw_pointer_passthrough() {
    let mut methods = lifecycle_pair();
    methods.push(method(
        "raw",
        vec![
            FnInput::Receiver(ReceiverForm::Exclusive),
            param(
                "p",
                TypeDescriptor::RawPointer { mutable: true, inner: ElemType::Scalar(ScalarKind::I8) },
            ),
        ],
        Some(TypeDescriptor::RawPointer {
            mutable: false,
            inner: ElemType::Scalar(ScalarKind::I8),
        }),
    ));
    let block = ImplementationBlock {
        subject: "Widget".to_string(),
        capability: None,
        methods,
    };
    let decls = c_compatible(&block).expect("raw pointers pass through");
    let raw = &decls[2];
    assert_eq!(raw.params[1].ty, AbiType::MutPtr(Pointee::Elem(ElemType::Scalar(ScalarKind::I8))));
    assert_eq!(raw.ret, Some(AbiType::ConstPtr(Pointee::Elem(ElemType::Scalar(ScalarKind::I8)))));
    assert_eq!(raw.ret_expr, RetExpr::PassThrough);
    assert_eq!(raw.call.args, vec![ArgExpr::Plain("p".to_string())]);
}

#[test]
fn named_return_types_heap_allocate() {
    let mut methods = lifecycle_pair();
    methods.push(method(
        "tokens",
        vec![FnInput::Receiver(ReceiverForm::Shared)],
        Some(TypeDescriptor::Named("Token".to_string())),
    ));
    let block = ImplementationBlock {
        subject: "Widget".to_string(),
        capability: None,
        methods,
    };
    let decls = c_compatible(&block).expect("named returns generate");
    let create = &decls[0];
    assert_eq!(create.ret, Some(AbiType::MutPtr(Pointee::Elem(named("Widget")))));
    assert_eq!(create.ret_expr, RetExpr::HeapAllocate);
    let tokens = &decls[2];
    assert_eq!(tokens.ret, Some(AbiType::MutPtr(Pointee::Elem(named("Token")))));
    assert_eq!(tokens.ret_expr, RetExpr::HeapAllocate);
}

#[test]
fn all_errors_collected_together() {
    let block = ImplementationBlock {
        subject: "Widget".to_string(),
        capability: None,
        methods: vec![
            method(
                "destroy",
                vec![FnInput::Receiver(ReceiverForm::Shared)],
                None,
            ),
            method(
                "feed",
                vec![
                    FnInput::Receiver(ReceiverForm::Exclusive),
                    param("a", TypeDescriptor::Named("Food".to_string())),
                    param("b", TypeDescriptor::Named("Water".to_string())),
                ],
                None,
            ),
        ],
    };
    let diags = c_compatible(&block).expect_err("every violation is reported at once");
    assert_eq!(diags.len(), 4);
    assert_eq!(
        diags[0].kind,
        DiagnosticKind::DestroyNotOwning { found: DestroyReceiverFound::Shared },
    );
    assert_eq!(diags[1].kind, DiagnosticKind::NonScalarByValue);
    assert_eq!(diags[2].kind, DiagnosticKind::NonScalarByValue);
    assert_eq!(
        diags[3].kind,
        DiagnosticKind::MissingLifecycle { missing: LifecycleName::Create },
    );
}

#[test]
fn capability_block_still_checks_destroy_shape() {
    let block = ImplementationBlock {
        subject: "Widget".to_string(),
        capability: Some("Drop".to_string()),
        methods: vec![method(
            "destroy",
            vec![FnInput::Receiver(ReceiverForm::Shared)],
            None,
        )],
    };
    let diags = c_compatible(&block)
        .expect_err("a capability block that names destroy still validates its receiver");
    assert_eq!(diags.len(), 1);
    assert_eq!(
        diags[0].kind,
        DiagnosticKind::DestroyNotOwning { found: DestroyReceiverFound::Shared },
    );
}

#[test]
fn docs_copied_verbatim() {
    let block = ImplementationBlock {
        subject: "Widget".to_string(),
        capability: None,
        methods: vec![
            MethodDeclaration {
                name: "create".to_string(),
                inputs: vec![],
                ret: Some(TypeDescriptor::Named("Self".to_string())),
                docs: vec![" Builds a widget.".to_string(), " Call destroy when done.".to_string()],
            },
            method("destroy", vec![FnInput::Receiver(ReceiverForm::Owned)], None),
        ],
    };
    let decls = c_compatible(&block).expect("docs carry over");
    assert_eq!(
        decls[0].docs,
        vec![" Builds a widget.".to_string(), " Call destroy when done.".to_string()],
    );
    assert!(decls[1].docs.is_empty());
}

#[test]
fn empty_blocks() {
    let inherent = ImplementationBlock {
        subject: "Widget".to_string(),
        capability: None,
        methods: vec![],
    };
    let diags =
        c_compatible(&inherent).expect_err("an empty inherent block lacks its lifecycle pair");
    assert_eq!(diags.len(), 1);
    assert_eq!(
        diags[0].kind,
        DiagnosticKind::MissingLifecycle { missing: LifecycleName::Create },
    );

    let capability = ImplementationBlock {
        subject: "Widget".to_string(),
        capability: Some("Greet".to_string()),
        methods: vec![],
    };
    let decls = c_compatible(&capability).expect("an empty capability block generates nothing");
    assert!(decls.is_empty());
}

#[test]
fn scalar_name_table() {
    assert_eq!(scalar_for_name(&"i32".to_string()), Some(ScalarKind::I32));
    assert_eq!(scalar_for_name(&"usize".to_string()), Some(ScalarKind::Usize));
    assert_eq!(scalar_for_name(&"f64".to_string()), Some(ScalarKind::F64));
    assert_eq!(scalar_for_name(&"bool".to_string()), Some(ScalarKind::Bool));
    assert_eq!(scalar_for_name(&"Widget".to_string()), None);
    assert_eq!(scalar_for_name(&"I32".to_string()), None);
    assert_eq!(scalar_name_of(ScalarKind::U128), "u128");
    assert_eq!(scalar_name_of(ScalarKind::Char), "char");
}

#[test]
fn naming_scheme() {
    assert_eq!(lower_string(&"TestStruct".to_string()), "teststruct");
    assert_eq!(lower_string(&"ABC_def9".to_string()), "abc_def9");
    assert_eq!(
        symbol_for(&"Widget".to_string(), &None, &"getValue".to_string()),
        "widget_getValue",
    );
    assert_eq!(
        symbol_for(
            &"Widget".to_string(),
            &Some("Greet".to_string()),
            &"hello".to_string(),
        ),
        "widget_greet_hello",
    );
}
