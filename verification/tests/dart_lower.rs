use boltffi_bindgen::abi::{
    AbiCall, AbiCallbackInvocation, AbiCallbackMethod, AbiContract, AbiParam, AbiStream, AbiType, AsyncCall, CallId,
    CallMode, ErrorTransport, ParamContract, ParamPassingStrategy, ParamRole, ParamValueStrategy, ReturnShape,
    ScalarOrigin, SpanContent, StreamItemTransport, Transport,
};
use boltffi_bindgen::dart::api_type::DartType;
use boltffi_bindgen::dart::function::{
    DartConstructorKind, DartFFIReturnsPassing, DartFFIValuePassing, DartFunctionMode, DartFunctionType,
    DartMethodReceiver,
};
use boltffi_bindgen::dart::lower::DartLowerer;
use boltffi_bindgen::dart::record::{DartCustomType, DartEnum, DartEnumKind};
use boltffi_bindgen::dart::types::{DartFFIIntType, DartFFIType};
use boltffi_bindgen::ir::{
    CallbackKind, CallbackMethodDef, CallbackTraitDef, ClassDef, ConstructorDef, ExecutionKind, FfiContract,
    FunctionDef, MethodDef, PackageInfo, ParamDef, ParamPassing, PrimitiveType, ReadOp, ReadSeq, Receiver, ReturnDef,
    SizeExpr, StreamDef, StreamMode, TypeCatalog, TypeExpr,
};

fn empty_contract() -> FfiContract {
    FfiContract {
        package: PackageInfo { name: "test".to_string(), version: None },
        functions: vec![],
        catalog: TypeCatalog { callbacks: vec![], classes: vec![] },
    }
}

fn empty_abi() -> AbiContract {
    AbiContract { calls: vec![], callbacks: vec![], streams: vec![] }
}

fn no_return() -> ReturnShape {
    ReturnShape { transport: None, decode_ops: None, encode_ops: None }
}

fn scalar(p: PrimitiveType) -> Transport {
    Transport::Scalar(ScalarOrigin { primitive: p })
}

fn input(name: &str, abi_type: AbiType, transport: Transport, value: ParamValueStrategy) -> AbiParam {
    AbiParam {
        name: name.to_string(),
        abi_type,
        role: ParamRole::Input {
            transport,
            contract: ParamContract { value, passing: ParamPassingStrategy::ByValue },
            encode_ops: None,
            decode_ops: None,
        },
    }
}

fn param(name: &str, type_expr: TypeExpr) -> ParamDef {
    ParamDef { name: name.to_string(), type_expr, passing: ParamPassing::Value, doc: None }
}

fn handle_param() -> AbiParam {
    AbiParam {
        name: "handle".to_string(),
        abi_type: AbiType::U64,
        role: ParamRole::CallbackContext { for_param: "self".to_string() },
    }
}

#[test]
fn native_function_closure_in() {
    let mut ffi = empty_contract();
    ffi.catalog.callbacks.push(CallbackTraitDef {
        id: "ClosureCb".to_string(),
        methods: vec![CallbackMethodDef {
            params: vec![],
            id: "call".to_string(),
            returns: ReturnDef::Void,
            execution_kind: ExecutionKind::Sync,
            doc: None,
        }],
        kind: CallbackKind::Closure,
        doc: None,
    });
    ffi.functions.insert(
        0,
        FunctionDef {
            id: "function_with_callback".to_string(),
            params: vec![ParamDef {
                name: "cb".to_string(),
                type_expr: TypeExpr::Callback("ClosureCb".to_string()),
                passing: ParamPassing::ImplTrait,
                doc: None,
            }],
            returns: ReturnDef::Void,
            doc: None,
        },
    );
    let mut abi = empty_abi();
    abi.calls.push(AbiCall {
        id: CallId::Function("function_with_callback".to_string()),
        symbol: "boltffi_function_with_callback".to_string(),
        mode: CallMode::Sync,
        params: vec![input(
            "cb",
            AbiType::InlineCallbackFn { params: vec![], return_type: Box::new(AbiType::Void) },
            Transport::Callback { callback_id: "ClosureCb".to_string(), nullable: false },
            ParamValueStrategy::CallbackHandle { nullable: false },
        )],
        returns: no_return(),
        error: ErrorTransport::NoError,
    });
    abi.callbacks.push(AbiCallbackInvocation {
        callback_id: "ClosureCb".to_string(),
        vtable_type: "closure_cb_vtable".to_string(),
        methods: vec![AbiCallbackMethod {
            id: "call".to_string(),
            params: vec![handle_param()],
            returns: no_return(),
            error: ErrorTransport::NoError,
            execution_kind: ExecutionKind::Sync,
        }],
    });
    let library = DartLowerer::new(&ffi, &abi, "test").library(vec![], vec![], vec![]);

    assert!(library.functions[0].ffi_def.sig.args[0].ty.native_type().contains("$$ffi.Pointer<$$ffi.NativeFunction<"));
    assert!(!library.functions[0].ffi_def.is_leaf);
    match &library.functions[0].params[0].passing {
        DartFFIValuePassing::Closure(closure) => {
            assert_eq!(closure.sig.args.len(), 1);
            assert_eq!(closure.sig.args[0].name, "_p$ud");
            assert!(closure.params.is_empty());
            assert_eq!(closure.returns.passing, DartFFIReturnsPassing::Void);
        }
        other => panic!("expected a closure, got {other:?}"),
    }
    assert_eq!(library.functions[0].params[0].ty.dart_type(), "void Function()");
}

#[test]
fn native_function_async() {
    let mut ffi = empty_contract();
    ffi.functions.push(FunctionDef {
        id: "async_add".to_string(),
        params: vec![param("a", TypeExpr::Primitive(PrimitiveType::I32)), param("b", TypeExpr::Primitive(PrimitiveType::I32))],
        returns: ReturnDef::Value(TypeExpr::Primitive(PrimitiveType::I32)),
        doc: None,
    });
    let mut abi = empty_abi();
    abi.calls.push(AbiCall {
        id: CallId::Function("async_add".to_string()),
        symbol: "boltffi_async_add".to_string(),
        mode: CallMode::Async(Box::new(AsyncCall {
            poll: "boltffi_async_add_poll".to_string(),
            complete: "boltffi_async_add_complete".to_string(),
            cancel: "boltffi_async_add_cancel".to_string(),
            free: "boltffi_async_add_free".to_string(),
            result: ReturnShape { transport: Some(scalar(PrimitiveType::I32)), decode_ops: None, encode_ops: None },
            error: ErrorTransport::NoError,
        })),
        params: vec![
            input("a", AbiType::I32, scalar(PrimitiveType::I32), ParamValueStrategy::Scalar),
            input("b", AbiType::I32, scalar(PrimitiveType::I32), ParamValueStrategy::Scalar),
        ],
        returns: no_return(),
        error: ErrorTransport::NoError,
    });

    let library = DartLowerer::new(&ffi, &abi, "test").library(vec![], vec![], vec![]);

    let func = &library.functions[0];
    match &func.mode {
        DartFunctionMode::Sync => panic!("CallMode should be async"),
        DartFunctionMode::Async(async_def) => {
            assert_eq!(&async_def.poll_symbol, "boltffi_async_add_poll");
            assert_eq!(&async_def.complete_symbol, "boltffi_async_add_complete");
            assert!(matches!(&async_def.complete_ty, DartFFIType::Int(DartFFIIntType::Int32)));
            assert_eq!(&async_def.complete_symbol, "boltffi_async_add_complete");
            assert_eq!(&async_def.cancel_symbol, "boltffi_async_add_cancel");
            assert_eq!(&async_def.free_symbol, "boltffi_async_add_free");
        }
    };
    assert_eq!(func.ffi_def.sig.ret, DartFFIType::Pointer(Box::new(DartFFIType::Void)));
    assert_eq!(func.ffi_def.symbol, "boltffi_async_add");
    assert!(func.is_async());
    assert_eq!(func.get_ffi_params(), vec!["a", "b"]);
}

#[test]
fn native_function_primitive_in() {
    let cases = [
        (PrimitiveType::U8, DartFFIType::Int(DartFFIIntType::Uint8), "int"),
        (PrimitiveType::I16, DartFFIType::Int(DartFFIIntType::Int16), "int"),
        (PrimitiveType::U64, DartFFIType::Int(DartFFIIntType::Uint64), "int"),
        (PrimitiveType::ISize, DartFFIType::Int(DartFFIIntType::IntPtr), "int"),
        (PrimitiveType::F64, DartFFIType::Float(boltffi_bindgen::dart::types::DartFFIFloatType::Float64), "double"),
    ];
    for (p, ty, sub) in cases {
        let abi_ty = match p {
            PrimitiveType::U8 => AbiType::U8,
            PrimitiveType::I16 => AbiType::I16,
            PrimitiveType::U64 => AbiType::U64,
            PrimitiveType::ISize => AbiType::ISize,
            _ => AbiType::F64,
        };
        let mut ffi = empty_contract();
        ffi.functions.push(FunctionDef {
            id: "echo_u64".to_string(),
            params: vec![param("v", TypeExpr::Primitive(p))],
            returns: ReturnDef::Value(TypeExpr::Primitive(p)),
            doc: None,
        });
        let mut abi = empty_abi();
        abi.calls.push(AbiCall {
            id: CallId::Function("echo_u64".to_string()),
            symbol: "boltffi_echo_u64".to_string(),
            mode: CallMode::Sync,
            params: vec![input("v", abi_ty, scalar(p), ParamValueStrategy::Scalar)],
            returns: ReturnShape { transport: Some(scalar(p)), decode_ops: None, encode_ops: None },
            error: ErrorTransport::NoError,
        });
        let library = DartLowerer::new(&ffi, &abi, "test").library(vec![], vec![], vec![]);
        assert_eq!(library.functions[0].ffi_def.sig.args[0].ty, ty);
        assert_eq!(library.functions[0].ffi_def.sig.ret, ty);
        assert_eq!(library.functions[0].ffi_def.sig.args[0].ty.sub_type(), sub);
        assert_eq!(library.functions[0].ffi_def.sig.ret.sub_type(), sub);
        assert_eq!(library.functions[0].ty, DartFunctionType::TopLevel { name: "echoU64".to_string() });
    }
}

#[test]
fn classes_lower_constructors_methods_and_streams() {
    let mut ffi = empty_contract();
    ffi.catalog.classes.push(ClassDef {
        id: "Person".to_string(),
        constructors: vec![
            ConstructorDef::Default { params: vec![param("name", TypeExpr::String)], is_fallible: false, is_optional: false, doc: None },
            ConstructorDef::NamedFactory {
                name: "new_with_default_age".to_string(),
                params: vec![],
                is_fallible: true,
                is_optional: false,
                doc: Some("A person aged zero".to_string()),
            },
        ],
        methods: vec![MethodDef {
            id: "get_name".to_string(),
            receiver: Receiver::RefSelf,
            params: vec![],
            returns: ReturnDef::Value(TypeExpr::String),
            doc: None,
        }],
        streams: vec![StreamDef {
            id: "status_events".to_string(),
            item_type: TypeExpr::Primitive(PrimitiveType::I32),
            mode: StreamMode::Batch,
            doc: None,
        }],
        doc: Some("A person".to_string()),
    });
    let handle = |nullable: bool| Transport::Handle { class_id: "Person".to_string(), nullable };
    let wire_string = ReturnShape {
        transport: Some(Transport::Span(SpanContent::Encoded)),
        decode_ops: Some(ReadSeq { size: SizeExpr::Runtime, ops: vec![ReadOp::String] }),
        encode_ops: None,
    };
    let mut abi = empty_abi();
    abi.calls.push(AbiCall {
        id: CallId::Constructor { class_id: "Person".to_string(), index: 0 },
        symbol: "boltffi_person_new".to_string(),
        mode: CallMode::Sync,
        params: vec![input("name", AbiType::Pointer(PrimitiveType::U8), Transport::Span(SpanContent::Utf8), ParamValueStrategy::Utf8String)],
        returns: ReturnShape { transport: Some(handle(false)), decode_ops: None, encode_ops: None },
        error: ErrorTransport::NoError,
    });
    abi.calls.push(AbiCall {
        id: CallId::Constructor { class_id: "Person".to_string(), index: 1 },
        symbol: "boltffi_person_new_with_default_age".to_string(),
        mode: CallMode::Sync,
        params: vec![],
        returns: ReturnShape { transport: Some(handle(true)), decode_ops: None, encode_ops: None },
        error: ErrorTransport::NoError,
    });
    abi.calls.push(AbiCall {
        id: CallId::Method { class_id: "Person".to_string(), method_id: "get_name".to_string() },
        symbol: "boltffi_person_get_name".to_string(),
        mode: CallMode::Sync,
        params: vec![input("self", AbiType::Handle("Person".to_string()), handle(false), ParamValueStrategy::ObjectHandle { nullable: false })],
        returns: wire_string,
        error: ErrorTransport::NoError,
    });
    abi.streams.push(AbiStream {
        class_id: "Person".to_string(),
        stream_id: "status_events".to_string(),
        item: StreamItemTransport::WireEncoded { decode_ops: ReadSeq { size: SizeExpr::Fixed(4), ops: vec![ReadOp::Primitive { primitive: PrimitiveType::I32 }] } },
        item_transport: scalar(PrimitiveType::I32),
        item_size: Some(4),
        subscribe: "sub".to_string(),
        poll: "poll".to_string(),
        pop_batch: "pop".to_string(),
        wait: "wait".to_string(),
        unsubscribe: "unsub".to_string(),
        free: "free".to_string(),
    });
    let library = DartLowerer::new(&ffi, &abi, "test").library(vec![], vec![], vec![]);
    let class = &library.classes[0];
    assert_eq!(class.name, "Person");
    assert_eq!(class.create_symbol, "boltffi_person_new");
    assert_eq!(class.free_symbol, "boltffi_person_free");
    assert_eq!(class.doc.as_deref(), Some("A person"));
    assert!(matches!(class.constructors[0].ty, DartFunctionType::Constructor { kind: DartConstructorKind::Default, is_fallible: false, .. }));
    match &class.constructors[1].ty {
        DartFunctionType::Constructor { kind: DartConstructorKind::Named { name }, is_fallible, .. } => {
            assert_eq!(name, "newWithDefaultAge");
            assert!(*is_fallible);
        }
        other => panic!("unexpected {other:?}"),
    }
    assert_eq!(class.constructors[1].doc.as_deref(), Some("A person aged zero"));
    assert_eq!(class.constructors[0].ffi_def.sig.args[0].name, "namePtr");
    assert_eq!(class.constructors[0].params[0].passing, DartFFIValuePassing::utf8_bytes());
    assert_eq!(class.constructors[0].returns.ty.dart_type(), "Person");
    let method = &class.methods[0];
    match &method.ty {
        DartFunctionType::Method { name, receiver, .. } => {
            assert_eq!(name, "getName");
            assert_eq!(
                *receiver,
                DartMethodReceiver::ReceiverPassing(DartFFIValuePassing::ClassHandle { class: "Person".to_string(), nullable: false })
            );
        }
        other => panic!("unexpected {other:?}"),
    }
    assert_eq!(method.returns.passing, DartFFIReturnsPassing::Passing(DartFFIValuePassing::WireEncoded));
    assert_eq!(method.returns.wire_decode_expr(), "_l$resWire.readString()");
    assert_eq!(method.get_ffi_params(), vec!["_handle"]);
    let stream = &class.streams[0];
    assert_eq!(stream.name, "statusEvents");
    assert_eq!(stream.item_ty, DartType::Int(DartFFIIntType::Int32));
    assert_eq!(stream.pop_batch_fn.symbol, "pop");
    let pop_names: Vec<&str> = stream.pop_batch_fn.sig.args.iter().map(|a| a.name.as_str()).collect();
    assert_eq!(pop_names, vec!["handle", "output_ptr", "output_capacity"]);
    assert_eq!(stream.pop_batch_fn.sig.ret, DartFFIType::Int(DartFFIIntType::UintPtr));
    assert_eq!(stream.poll_fn.sig.args[2].ty.native_type(), "$$ffi.Pointer<$$ffi.NativeFunction<$$ffi.Void Function($$ffi.Uint64, $$ffi.Int8)>>");
    assert_eq!(stream.wait_fn.sig.ret, DartFFIType::Int(DartFFIIntType::Int32));
    assert_eq!(stream.item_array_read_expr("r", "n"), "r.readInt32List(n, 0)");
}

#[test]
fn trait_callbacks_lower_to_callback_classes() {
    let mut ffi = empty_contract();
    ffi.catalog.callbacks.push(CallbackTraitDef {
        id: "event_listener".to_string(),
        methods: vec![
            CallbackMethodDef {
                id: "on_event".to_string(),
                params: vec![param("code", TypeExpr::Primitive(PrimitiveType::I32))],
                returns: ReturnDef::Void,
                execution_kind: ExecutionKind::Sync,
                doc: None,
            },
            CallbackMethodDef {
                id: "fetch".to_string(),
                params: vec![],
                returns: ReturnDef::Value(TypeExpr::Primitive(PrimitiveType::U32)),
                execution_kind: ExecutionKind::Async,
                doc: None,
            },
        ],
        kind: CallbackKind::Trait,
        doc: None,
    });
    ffi.catalog.callbacks.push(CallbackTraitDef { id: "Ignored".to_string(), methods: vec![], kind: CallbackKind::Closure, doc: None });
    let mut abi = empty_abi();
    abi.callbacks.push(AbiCallbackInvocation {
        callback_id: "event_listener".to_string(),
        vtable_type: "event_listener_vtable".to_string(),
        methods: vec![
            AbiCallbackMethod {
                id: "on_event".to_string(),
                params: vec![handle_param(), input("code", AbiType::I32, scalar(PrimitiveType::I32), ParamValueStrategy::Scalar)],
                returns: no_return(),
                error: ErrorTransport::NoError,
                execution_kind: ExecutionKind::Sync,
            },
            AbiCallbackMethod {
                id: "fetch".to_string(),
                params: vec![handle_param()],
                returns: ReturnShape { transport: Some(scalar(PrimitiveType::U32)), decode_ops: None, encode_ops: None },
                error: ErrorTransport::NoError,
                execution_kind: ExecutionKind::Async,
            },
        ],
    });
    let library = DartLowerer::new(&ffi, &abi, "test").library(vec![], vec![], vec![]);
    assert_eq!(library.callbacks.len(), 1);
    let cb = &library.callbacks[0];
    assert_eq!(cb.class_name, "EventListener");
    assert_eq!(cb.impl_class_name, "_I$EventListener");
    assert_eq!(cb.vtable_struct_name, "_I$EventListenerVtable");
    let on_event = &cb.methods[0];
    assert_eq!(on_event.name, "onEvent");
    assert!(!on_event.is_async());
    let names: Vec<&str> = on_event.ffi_sig.args.iter().map(|a| a.name.as_str()).collect();
    assert_eq!(names, vec!["_p$handle", "code", "_p$outStatus"]);
    assert_eq!(on_event.ffi_sig.args[2].ty.native_type(), "$$ffi.Pointer<_$$BoltFFIStatus>");
    assert_eq!(on_event.get_proxy_ffi_params(), vec!["code"]);
    let fetch = &cb.methods[1];
    assert!(fetch.is_async());
    let names: Vec<&str> = fetch.ffi_sig.args.iter().map(|a| a.name.as_str()).collect();
    assert_eq!(names, vec!["_p$handle", "_p$callback", "_p$asyncCtx"]);
    assert_eq!(
        fetch.ffi_sig.args[1].ty.native_type(),
        "$$ffi.Pointer<$$ffi.NativeFunction<$$ffi.Void Function($$ffi.Uint64, $$ffi.Uint32, $$ffi.Int32)>>"
    );
    assert_eq!(
        fetch.returns.passing,
        DartFFIReturnsPassing::Passing(DartFFIValuePassing::primitive_value(PrimitiveType::U32))
    );
}

#[test]
fn library_carries_the_given_enums_records_and_custom_types() {
    let ffi = empty_contract();
    let abi = empty_abi();
    let custom = DartCustomType { name: "Email".to_string(), ty: DartType::String, doc: None };
    let enums = vec![
        DartEnum { name: "Color".to_string(), kind: DartEnumKind::Enhanced },
        DartEnum { name: "Shape".to_string(), kind: DartEnumKind::SealedClass },
    ];
    let library = DartLowerer::new(&ffi, &abi, "test").library(vec![custom], vec![], enums);
    assert_eq!(library.enums.len(), 2);
    assert_eq!(library.enums[0].name, "Color");
    assert_eq!(library.enums[0].kind, DartEnumKind::Enhanced);
    assert_eq!(library.enums[1].kind, DartEnumKind::SealedClass);
    assert_eq!(library.custom_types[0].name, "Email");
    assert!(library.records.is_empty());
    assert!(library.callbacks.is_empty() && library.classes.is_empty() && library.functions.is_empty());
}
