use boltffi_bindgen::abi::{
    AbiParam, AbiType, CompositeLayout, ErrorTransport, ParamContract, ParamPassingStrategy, ParamRole,
    ParamValueStrategy, ReturnShape, ScalarOrigin, SpanContent, Transport,
};
use boltffi_bindgen::dart::api_type::{DartFunctionSig, DartReturnType, DartType};
use boltffi_bindgen::dart::naming::NamingConvention;
use boltffi_bindgen::dart::types::{
    DartFFIFloatType, DartFFIFunctionParamSig, DartFFIIntType, DartFFIPrimitiveType, DartFFIType,
};
use boltffi_bindgen::ir::{
    CallbackKind, CallbackMethodDef, CallbackTraitDef, ExecutionKind, ParamDef, ParamPassing, PrimitiveType,
    ReturnDef, TypeCatalog, TypeExpr,
};

fn catalog(callbacks: Vec<CallbackTraitDef>) -> TypeCatalog {
    TypeCatalog { callbacks, classes: Vec::new() }
}

fn param(name: &str, type_expr: TypeExpr) -> ParamDef {
    ParamDef { name: name.to_string(), type_expr, passing: ParamPassing::Value, doc: None }
}

#[test]
fn primitive_native_and_value_types() {
    let cases = [
        (PrimitiveType::Bool, "$$ffi.Bool", "bool"),
        (PrimitiveType::I8, "$$ffi.Int8", "int"),
        (PrimitiveType::U16, "$$ffi.Uint16", "int"),
        (PrimitiveType::I32, "$$ffi.Int32", "int"),
        (PrimitiveType::U64, "$$ffi.Uint64", "int"),
        (PrimitiveType::ISize, "$$ffi.IntPtr", "int"),
        (PrimitiveType::USize, "$$ffi.UintPtr", "int"),
        (PrimitiveType::F32, "$$ffi.Float", "double"),
        (PrimitiveType::F64, "$$ffi.Double", "double"),
    ];
    for (p, native, value) in cases {
        let scalar = DartFFIPrimitiveType::from_primitive(p);
        assert_eq!(scalar.native_type(), native);
        assert_eq!(scalar.sub_type(), value);
        let boundary = DartFFIType::from_primitive(p);
        assert_eq!(boundary.native_type(), native);
        assert_eq!(boundary.sub_type(), value);
        assert_eq!(boltffi_bindgen::dart::emit::primitive_native_type(p), native);
        assert_eq!(boltffi_bindgen::dart::emit::primitive_dart_type(p), value);
    }
}

#[test]
fn struct_field_annotations_only_for_scalars() {
    assert_eq!(DartFFIType::Int(DartFFIIntType::Uint8).struct_field_annotation(), "@$$ffi.Uint8()");
    assert_eq!(DartFFIType::Float(DartFFIFloatType::Float64).struct_field_annotation(), "@$$ffi.Double()");
    assert_eq!(DartFFIType::Bool.struct_field_annotation(), "@$$ffi.Bool()");
    assert_eq!(DartFFIType::Buf.struct_field_annotation(), "");
    assert_eq!(DartFFIType::Struct("_$$PointStruct".to_string()).struct_field_annotation(), "");
}

#[test]
fn inline_callback_becomes_native_function() {
    let t = DartFFIType::from_abi_type(&AbiType::InlineCallbackFn {
        params: vec![AbiType::I32, AbiType::Pointer(PrimitiveType::U8)],
        return_type: Box::new(AbiType::Bool),
    });
    assert_eq!(
        t.native_type(),
        "$$ffi.Pointer<$$ffi.NativeFunction<$$ffi.Bool Function($$ffi.Pointer<$$ffi.Void>, $$ffi.Int32, $$ffi.Pointer<$$ffi.Uint8>)>>"
    );
    match t {
        DartFFIType::NativeFunction { sig } => {
            let names: Vec<&str> = sig.args.iter().map(|a| a.name.as_str()).collect();
            assert_eq!(names, vec!["_p$ud", "_p$arg0", "_p$arg1"]);
        }
        other => panic!("unexpected {other:?}"),
    }
    assert_eq!(
        DartFFIType::from_abi_type(&AbiType::Struct("point_2d".to_string())),
        DartFFIType::Struct("_$$Point2dStruct".to_string())
    );
    assert_eq!(DartFFIType::from_abi_type(&AbiType::Handle("Person".to_string())).native_type(), "$$ffi.Pointer<$$ffi.Void>");
}

fn input(name: &str, abi_type: AbiType, transport: Transport, value: ParamValueStrategy) -> AbiParam {
    AbiParam {
        name: name.to_string(),
        abi_type,
        role: ParamRole::Input {
            transport,
            contract: ParamContract { value, passing: ParamPassingStrategy::ByValue },
            encode_ops: None,
            decode_ops: None,
        },
    }
}

#[test]
fn abi_param_names_and_types() {
    let bytes = input(
        "payload_bytes",
        AbiType::Pointer(PrimitiveType::U8),
        Transport::Span(SpanContent::Utf8),
        ParamValueStrategy::Utf8String,
    );
    let sig = DartFFIFunctionParamSig::from_abi_param(&bytes);
    assert_eq!(sig.name, "payloadBytesPtr");
    assert_eq!(sig.ty, DartFFIType::Pointer(Box::new(DartFFIType::Int(DartFFIIntType::Uint8))));

    let cb = input(
        "on_event",
        AbiType::CallbackHandle,
        Transport::Callback { callback_id: "Listener".to_string(), nullable: true },
        ParamValueStrategy::CallbackHandle { nullable: true },
    );
    assert_eq!(DartFFIFunctionParamSig::from_abi_param(&cb).ty, DartFFIType::CallbackHandle(true));

    let out_len = AbiParam {
        name: "len".to_string(),
        abi_type: AbiType::USize,
        role: ParamRole::OutLen { for_param: "data".to_string() },
    };
    let sig = DartFFIFunctionParamSig::from_abi_param(&out_len);
    assert_eq!(sig.name, "_p$outLen");
    assert_eq!(sig.ty.native_type(), "$$ffi.Pointer<$$ffi.UintPtr>");

    let status = AbiParam { name: "status".to_string(), abi_type: AbiType::Void, role: ParamRole::StatusOut };
    assert_eq!(DartFFIType::from_abi_param(&status).native_type(), "$$ffi.Pointer<_$$BoltFFIStatus>");
}

#[test]
fn return_types_of_calls() {
    let none = ReturnShape { transport: None, decode_ops: None, encode_ops: None };
    assert_eq!(DartFFIType::from_return_shape_and_error_transport(&none, &ErrorTransport::NoError), DartFFIType::Void);
    assert_eq!(DartFFIType::from_return_shape_and_error_transport(&none, &ErrorTransport::StatusCode), DartFFIType::Status);
    assert_eq!(DartFFIType::from_return_shape_and_error_transport(&none, &ErrorTransport::Encoded), DartFFIType::Buf);
    let scalar = ReturnShape {
        transport: Some(Transport::Scalar(ScalarOrigin { primitive: PrimitiveType::I32 })),
        decode_ops: None,
        encode_ops: None,
    };
    assert_eq!(
        DartFFIType::from_return_shape_and_error_transport(&scalar, &ErrorTransport::NoError),
        DartFFIType::Int(DartFFIIntType::Int32)
    );
    let record = ReturnShape {
        transport: Some(Transport::Composite(CompositeLayout { record_id: "point".to_string() })),
        decode_ops: None,
        encode_ops: None,
    };
    assert_eq!(
        DartFFIType::from_return_shape_and_error_transport(&record, &ErrorTransport::NoError),
        DartFFIType::Struct("_$$PointStruct".to_string())
    );
    assert_eq!(
        DartFFIType::from_transport(&Transport::Span(SpanContent::Composite(CompositeLayout { record_id: "point".to_string() }))),
        DartFFIType::Struct("point".to_string())
    );
}

#[test]
fn dart_types_of_rust_types() {
    let cat = catalog(Vec::new());
    let bytes = DartType::from_type_expr(&TypeExpr::Vec(Box::new(TypeExpr::Primitive(PrimitiveType::U8))), &cat);
    assert_eq!(bytes, DartType::Bytes);
    assert_eq!(bytes.dart_type(), "$$typed_data.Uint8List");
    let ints = DartType::from_type_expr(&TypeExpr::Vec(Box::new(TypeExpr::Primitive(PrimitiveType::I64))), &cat);
    assert_eq!(ints.dart_type(), "$$typed_data.Int64List");
    let names = DartType::from_type_expr(&TypeExpr::Vec(Box::new(TypeExpr::String)), &cat);
    assert_eq!(names.dart_type(), "List<String>");
    let maybe = DartType::from_type_expr(&TypeExpr::Option(Box::new(TypeExpr::Record("point".to_string()))), &cat);
    assert_eq!(maybe.dart_type(), "point?");
    let result = DartType::from_type_expr(
        &TypeExpr::Result { ok: Box::new(TypeExpr::Primitive(PrimitiveType::U32)), err: Box::new(TypeExpr::String) },
        &cat,
    );
    assert_eq!(result.dart_type(), "$$BoltResult<int, $$BoltException>");
    let when = DartType::from_type_expr(&TypeExpr::Builtin("SystemTime".to_string()), &cat);
    assert_eq!(when.dart_type(), "DateTime");
    let id = DartType::from_type_expr(&TypeExpr::Builtin("Uuid".to_string()), &cat);
    assert_eq!(id.dart_type(), "$$BoltUUIDValue");
}

#[test]
fn closure_callbacks_become_function_types() {
    let cat = catalog(vec![
        CallbackTraitDef {
            id: "OnProgress".to_string(),
            methods: vec![CallbackMethodDef {
                id: "call".to_string(),
                params: vec![param("done", TypeExpr::Primitive(PrimitiveType::U32)), param("label", TypeExpr::String)],
                returns: ReturnDef::Result { ok: TypeExpr::Primitive(PrimitiveType::Bool), err: TypeExpr::String },
                execution_kind: ExecutionKind::Sync,
                doc: None,
            }],
            kind: CallbackKind::Closure,
            doc: None,
        },
        CallbackTraitDef { id: "Listener".to_string(), methods: Vec::new(), kind: CallbackKind::Trait, doc: None },
    ]);
    let closure = DartType::from_type_expr(&TypeExpr::Callback("OnProgress".to_string()), &cat);
    assert_eq!(closure.dart_type(), "bool Function(int, String)");
    let listener = DartType::from_type_expr(&TypeExpr::Callback("Listener".to_string()), &cat);
    assert_eq!(listener, DartType::Callback("Listener".to_string()));
}

#[test]
fn return_types_show_the_ok_type() {
    let cat = catalog(Vec::new());
    let r = DartReturnType::from_return_def(
        &ReturnDef::Result { ok: TypeExpr::String, err: TypeExpr::Enum("io_error".to_string()) },
        &cat,
    );
    assert_eq!(r.dart_type(), "String");
    assert_eq!(r.inner.dart_type(), "$$BoltResult<String, io_error>");
    assert!(DartReturnType::from_return_def(&ReturnDef::Void, &cat).dart_type() == "void");
}

#[test]
fn function_signatures_use_dart_names() {
    let cat = catalog(Vec::new());
    let sig = DartFunctionSig::from_params_return_def(
        &[param("first_name", TypeExpr::String), param("age_in_years", TypeExpr::Primitive(PrimitiveType::U8))],
        &ReturnDef::Value(TypeExpr::Option(Box::new(TypeExpr::Primitive(PrimitiveType::F64)))),
        &cat,
    );
    let names: Vec<&str> = sig.args.iter().map(|a| a.name.as_str()).collect();
    assert_eq!(names, vec!["firstName", "ageInYears"]);
    assert_eq!(sig.args[1].ty, DartType::Int(DartFFIIntType::Uint8));
    assert_eq!(sig.ret.dart_type(), "double?");
}

#[test]
fn hash_expressions() {
    let list = DartType::List(Box::new(DartType::Option(Box::new(DartType::String))));
    assert_eq!(
        list.hash_expr("items"),
        "_$$BoltUtil.listHash(items, (_p$item) => (_p$item == null ? null.hashCode : _p$item!.hashCode))"
    );
    assert_eq!(
        DartType::Bytes.hash_expr("data"),
        "_$$BoltUtil.listHash(data, (_p$item) => _p$item.hashCode)"
    );
    let result = DartType::Result { ok: Box::new(DartType::Bool), err: Box::new(DartType::Record("E".to_string())) };
    assert_eq!(
        result.hash_expr("r"),
        "switch (r) { $$BoltResult$Ok(value: final _l$value) => _l$value.hashCode, $$BoltResult$Err(value: final _l$value) => _l$value.hashCode }"
    );
    assert!(DartType::Option(Box::new(DartType::Void)).is_inner_void());
    assert!(!DartType::Option(Box::new(DartType::Bool)).is_inner_void());
    assert!(!DartType::Void.is_inner_void());
}

#[test]
fn naming_rules() {
    assert_eq!(NamingConvention::class_name("user_profile"), "UserProfile");
    assert_eq!(NamingConvention::class_name("HTTPClient"), "HTTPClient");
    assert_eq!(NamingConvention::param_name("max_count"), "maxCount");
    assert_eq!(NamingConvention::function_name("get_name"), "getName");
    assert_eq!(NamingConvention::property_name("Active"), "active");
    assert_eq!(NamingConvention::record_struct_name("point"), "_$$PointStruct");
}

fn closure(id: &str, params: Vec<ParamDef>, returns: ReturnDef) -> CallbackTraitDef {
    CallbackTraitDef {
        id: id.to_string(),
        methods: vec![CallbackMethodDef {
            id: "call".to_string(),
            params,
            returns,
            execution_kind: ExecutionKind::Sync,
            doc: None,
        }],
        kind: CallbackKind::Closure,
        doc: None,
    }
}

#[test]
fn checked_lowering_says_when_a_type_has_no_dart_type() {
    let cat = catalog(vec![
        closure("on_value", vec![param("value", TypeExpr::Primitive(PrimitiveType::I32))], ReturnDef::Void),
        closure("looping", vec![param("again", TypeExpr::Callback("looping".to_string()))], ReturnDef::Void),
        closure("outer", vec![param("inner", TypeExpr::Callback("looping".to_string()))], ReturnDef::Void),
    ]);
    let ok = TypeExpr::Option(Box::new(TypeExpr::Callback("on_value".to_string())));
    let lowered = DartType::try_from_type_expr(&ok, &cat).expect("has a Dart type");
    assert_eq!(lowered, DartType::from_type_expr(&ok, &cat));
    assert_eq!(lowered.dart_type(), "void Function(int)?");
    assert!(DartType::try_from_type_expr(&TypeExpr::Callback("looping".to_string()), &cat).is_none());
    assert!(DartType::try_from_type_expr(&TypeExpr::Callback("outer".to_string()), &cat).is_none());
    assert!(DartType::try_from_type_expr(&TypeExpr::Callback("missing".to_string()), &cat).is_none());
    assert!(DartType::try_from_type_expr(&TypeExpr::Builtin("Decimal".to_string()), &cat).is_none());
    assert_eq!(
        DartType::try_from_type_expr(&TypeExpr::Builtin("SystemTime".to_string()), &cat),
        Some(DartType::Builtin("DateTime".to_string()))
    );
    assert_eq!(
        DartType::try_from_return_def(&ReturnDef::Result { ok: TypeExpr::String, err: TypeExpr::String }, &cat),
        Some(DartType::Result {
            ok: Box::new(DartType::String),
            err: Box::new(DartType::Record("$$BoltException".to_string())),
        })
    );
    let params = vec![param("first_name", TypeExpr::String)];
    let sig = DartFunctionSig::try_from_params_return_def(&params, &ReturnDef::Void, &cat).expect("signature");
    assert_eq!(sig.args[0].name, "firstName");
    let bad = vec![param("cb", TypeExpr::Callback("looping".to_string()))];
    assert!(DartFunctionSig::try_from_params_return_def(&bad, &ReturnDef::Void, &cat).is_none());
}
