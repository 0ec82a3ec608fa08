use boltffi_bindgen::dart::api_type::DartType;
use boltffi_bindgen::dart::emit::{
    emit_cmp_expr, emit_read_blittable_value, emit_reader_read, emit_size_expr, emit_write_blittable_value,
    emit_writer_write, num_as_primitive, primitive_as_num, primitive_blittable_read_method,
    primitive_blittable_write_method, primitive_read_method, primitive_write_method, remap_size_expr_value_expr,
    remap_write_seq, render_value, return_def_dart_type, type_expr_dart_type, DartEmitter, DartSections,
};
use boltffi_bindgen::dart::to_dart_doc;
use boltffi_bindgen::dart::types::DartFFIIntType;
use boltffi_bindgen::ir::{
    EnumLayout, PrimitiveType, ReadOp, ReadSeq, ReturnDef, SizeExpr, TypeExpr, ValueExpr, VecLayout, WireSizeOwner,
    WriteOp, WriteSeq,
};

fn write(ops: Vec<WriteOp>) -> WriteSeq {
    WriteSeq { size: SizeExpr::Runtime, ops }
}

fn read(ops: Vec<ReadOp>) -> ReadSeq {
    ReadSeq { size: SizeExpr::Runtime, ops }
}

fn named(n: &str) -> ValueExpr {
    ValueExpr::Named(n.to_string())
}

#[test]
fn values_and_types() {
    let v = ValueExpr::Field(Box::new(ValueExpr::Field(Box::new(ValueExpr::Instance), "a".to_string())), "b".to_string());
    assert_eq!(render_value(&v), "a.b");
    assert_eq!(render_value(&ValueExpr::Instance), "");
    assert_eq!(type_expr_dart_type(&TypeExpr::Vec(Box::new(TypeExpr::Primitive(PrimitiveType::Bool)))), "$$BoltFFIBoolList");
    assert_eq!(
        type_expr_dart_type(&TypeExpr::Result { ok: Box::new(TypeExpr::Record("user_id".to_string())), err: Box::new(TypeExpr::String) }),
        "$$BoltResult<UserId, $$BoltException>"
    );
    assert_eq!(type_expr_dart_type(&TypeExpr::Builtin("SystemTime".to_string())), "Datetime");
    assert_eq!(type_expr_dart_type(&TypeExpr::Builtin("Other".to_string())), "String");
    assert_eq!(type_expr_dart_type(&TypeExpr::Option(Box::new(TypeExpr::Handle("person".to_string())))), "Person?");
    assert_eq!(type_expr_dart_type(&TypeExpr::Vec(Box::new(TypeExpr::Vec(Box::new(TypeExpr::Str))))), "List<List<String>>");
    assert_eq!(return_def_dart_type(&ReturnDef::Result { ok: TypeExpr::String, err: TypeExpr::String }), "$$BoltResult<String, String>");
    assert_eq!(return_def_dart_type(&ReturnDef::Void), "void");
}

#[test]
fn scalar_method_tables() {
    assert_eq!(primitive_write_method(PrimitiveType::ISize), "writeI64");
    assert_eq!(primitive_read_method(PrimitiveType::USize), "readU64");
    assert_eq!(primitive_blittable_write_method(PrimitiveType::Bool), "setUint8");
    assert_eq!(primitive_blittable_read_method(PrimitiveType::F32), "getFloat32");
    assert_eq!(primitive_as_num(PrimitiveType::Bool, "x"), "(x ? 1 : 0)");
    assert_eq!(primitive_as_num(PrimitiveType::U8, "x"), "x");
    assert_eq!(num_as_primitive(PrimitiveType::Bool, "x"), "(x == 1)");
    assert_eq!(num_as_primitive(PrimitiveType::I64, "x"), "x");
}

#[test]
fn blittable_accesses() {
    assert_eq!(
        emit_write_blittable_value("_k$x", PrimitiveType::I32, "x", "bytes"),
        "bytes.setInt32(_k$x, x, $$typed_data.Endian.little)"
    );
    assert_eq!(emit_write_blittable_value("_k$f", PrimitiveType::Bool, "f", "bytes"), "bytes.setUint8(_k$f, (f ? 1 : 0))");
    assert_eq!(emit_read_blittable_value("_k$f", PrimitiveType::Bool, "b"), "(b.getUint8(_k$f) == 1)");
    assert_eq!(emit_read_blittable_value("_k$x", PrimitiveType::F64, "b"), "b.getFloat64(_k$x, $$typed_data.Endian.little)");
    assert_eq!(emit_read_blittable_value("_k$y", PrimitiveType::I8, "b"), "b.getInt8(_k$y)");
}

#[test]
fn writers() {
    let seq = write(vec![WriteOp::Primitive { primitive: PrimitiveType::U32, value: ValueExpr::Instance }]);
    assert_eq!(emit_writer_write(&seq, "w", "x"), "w.writeU32(x);");
    assert_eq!(emit_writer_write(&write(vec![]), "w", "x"), "");
    let opt = write(vec![WriteOp::Option {
        value: ValueExpr::Instance,
        some: write(vec![WriteOp::String { value: ValueExpr::Instance }]),
    }]);
    assert_eq!(
        emit_writer_write(&opt, "w", "x"),
        "if (x case final x?) { w.writeU8(1); w.writeString(x); } else { w.writeU8(0); }"
    );
    let res = write(vec![WriteOp::Result {
        value: ValueExpr::Instance,
        ok: write(vec![WriteOp::Primitive { primitive: PrimitiveType::I32, value: ValueExpr::Instance }]),
        err: write(vec![WriteOp::String { value: ValueExpr::Instance }]),
    }]);
    assert_eq!(
        emit_writer_write(&res, "w", "x"),
        "switch (x) { case $$BoltResult$Ok(:final value): { w.writeU8(0); w.writeI32(value); } case $$BoltResult$Err(:final value): { w.writeU8(1); value._m$wireEncode(w); } }"
    );
    let bools = write(vec![WriteOp::Vec {
        value: ValueExpr::Instance,
        element_type: TypeExpr::Primitive(PrimitiveType::Bool),
        element: write(vec![]),
        layout: VecLayout::Blittable { element_size: 1 },
    }]);
    assert_eq!(emit_writer_write(&bools, "w", "x"), "w.writeBytes(x._bytes);");
    let records = write(vec![WriteOp::Vec {
        value: ValueExpr::Instance,
        element_type: TypeExpr::Record("p".to_string()),
        element: write(vec![WriteOp::Record { id: "p".to_string(), value: ValueExpr::Instance }]),
        layout: VecLayout::Encoded,
    }]);
    assert_eq!(emit_writer_write(&records, "w", "x"), "w.writeList(x, (_p$item, w) { _p$item._m$wireEncode(w); });");
    let when = write(vec![WriteOp::Builtin { id: "Duration".to_string(), value: ValueExpr::Instance }]);
    assert_eq!(emit_writer_write(&when, "w", "d"), "w.writeDuration(d);");
}

#[test]
fn readers() {
    assert_eq!(emit_reader_read(&read(vec![ReadOp::Primitive { primitive: PrimitiveType::U64 }]), "r", false), "r.readU64()");
    assert_eq!(emit_reader_read(&read(vec![ReadOp::Record { id: "user_profile".to_string() }]), "r", false), "UserProfile._m$wireDecode(r)");
    assert_eq!(
        emit_reader_read(
            &read(vec![ReadOp::Enum { id: "status".to_string(), layout: EnumLayout::CStyle { tag_type: PrimitiveType::I32, is_error: false } }]),
            "r",
            false
        ),
        "Status._m$wireDecode(r)"
    );
    assert_eq!(
        emit_reader_read(&read(vec![ReadOp::Option { some: read(vec![ReadOp::String]) }]), "r", false),
        "switch (r.readU8()) { 0 => null, 1 => r.readString(), (int _l$tag) => throw $$BoltException(\"Invalid Optional tag: ${_l$tag}\") }"
    );
    let res = read(vec![ReadOp::Result { ok: read(vec![ReadOp::Primitive { primitive: PrimitiveType::Bool }]), err: read(vec![ReadOp::String]) }]);
    assert_eq!(
        emit_reader_read(&res, "r", false),
        "(switch (r.readU8()) { 0 => $$BoltResult.ok(r.readBool()), 1 => $$BoltResult.err($$BoltException._m$wireDecode(r)), (int _l$tag) => throw $$BoltException(\"Invalid Result tag: ${_l$tag}\") })"
    );
    assert_eq!(
        emit_reader_read(&res, "r", true),
        "(switch (r.readU8()) { 0 => $$BoltResult.ok(null), 1 => $$BoltResult.err($$BoltException._m$wireDecode(r)), (int _l$tag) => throw $$BoltException(\"Invalid Result tag: ${_l$tag}\") })"
    );
    let shorts = read(vec![ReadOp::Vec { element_type: TypeExpr::Primitive(PrimitiveType::I16), element: read(vec![]), layout: VecLayout::Encoded }]);
    assert_eq!(emit_reader_read(&shorts, "r", false), "r.readInt16List()");
    let strings = read(vec![ReadOp::Vec { element_type: TypeExpr::String, element: read(vec![ReadOp::String]), layout: VecLayout::Encoded }]);
    assert_eq!(emit_reader_read(&strings, "r", false), "r.readList((r) => r.readString())");
    assert_eq!(emit_reader_read(&read(vec![ReadOp::Builtin { id: "Url".to_string() }]), "r", false), "r.readUri()");
    assert_eq!(
        emit_reader_read(&read(vec![ReadOp::Custom { id: "email".to_string(), underlying: read(vec![ReadOp::String]) }]), "r", false),
        "r.readString()"
    );
}

#[test]
fn sizes() {
    assert_eq!(emit_size_expr(&SizeExpr::Fixed(4)), "4");
    assert_eq!(emit_size_expr(&SizeExpr::Runtime), "0");
    assert_eq!(emit_size_expr(&SizeExpr::Sum(vec![SizeExpr::Fixed(4), SizeExpr::StringLen(named("name"))])), "(4 + (name.length * 3))");
    assert_eq!(emit_size_expr(&SizeExpr::Sum(vec![])), "(0)");
    assert_eq!(
        emit_size_expr(&SizeExpr::OptionSize { value: named("v"), inner: Box::new(SizeExpr::StringLen(ValueExpr::Instance)) }),
        "(switch (v == null) { true => 1, false => 1 + (v!.length * 3) })"
    );
    assert_eq!(
        emit_size_expr(&SizeExpr::VecSize { value: named("xs"), inner: Box::new(SizeExpr::Fixed(8)), layout: VecLayout::Blittable { element_size: 8 } }),
        "(4 + (xs.length * 8))"
    );
    assert_eq!(
        emit_size_expr(&SizeExpr::VecSize {
            value: named("xs"),
            inner: Box::new(SizeExpr::WireSize { value: ValueExpr::Instance, owner: None }),
            layout: VecLayout::Encoded
        }),
        "xs.fold<int>(4, (_p$sum, _p$item) => _p$sum + _p$item._m$wireEncodedSize())"
    );
    assert_eq!(
        emit_size_expr(&SizeExpr::ResultSize {
            value: named("r"),
            ok: Box::new(SizeExpr::Fixed(4)),
            err: Box::new(SizeExpr::StringLen(ValueExpr::Instance))
        }),
        "1 + (switch (r) { $$BoltResult$Ok(:final value) => 4, $$BoltResult$Err(:final value) => (value.length * 3) })"
    );
    assert_eq!(emit_size_expr(&SizeExpr::BuiltinSize { id: "Url".to_string(), value: named("u") }), "u.toString().length * 3");
    assert_eq!(emit_size_expr(&SizeExpr::BuiltinSize { id: "Duration".to_string(), value: named("d") }), "d._m$wireEncodedSize()");
    assert_eq!(emit_size_expr(&SizeExpr::BytesLen(named("b"))), "b.length");
}

#[test]
fn remapping_sizes() {
    let e = SizeExpr::Sum(vec![SizeExpr::StringLen(ValueExpr::Instance), SizeExpr::Fixed(1)]);
    let r = remap_size_expr_value_expr(&e, named("n"));
    assert_eq!(r, SizeExpr::Sum(vec![SizeExpr::StringLen(named("n")), SizeExpr::Fixed(1)]));
    assert_eq!(emit_size_expr(&r), "((n.length * 3) + 1)");
    let twice = remap_size_expr_value_expr(&r, named("m"));
    assert_eq!(emit_size_expr(&twice), "((m.length * 3) + 1)");
    assert_eq!(twice, remap_size_expr_value_expr(&e, named("m")));
    let opt = SizeExpr::OptionSize { value: ValueExpr::Instance, inner: Box::new(SizeExpr::StringLen(ValueExpr::Instance)) };
    assert_eq!(
        emit_size_expr(&remap_size_expr_value_expr(&opt, named("o"))),
        "(switch (o == null) { true => 1, false => 1 + (o!.length * 3) })"
    );
}

#[test]
fn string_errors_are_measured_as_exceptions() {
    let seq = WriteSeq {
        size: SizeExpr::ResultSize {
            value: ValueExpr::Instance,
            ok: Box::new(SizeExpr::Fixed(4)),
            err: Box::new(SizeExpr::StringLen(ValueExpr::Instance)),
        },
        ops: vec![WriteOp::Result {
            value: ValueExpr::Instance,
            ok: WriteSeq { size: SizeExpr::Fixed(4), ops: vec![WriteOp::Primitive { primitive: PrimitiveType::I32, value: ValueExpr::Instance }] },
            err: WriteSeq { size: SizeExpr::StringLen(ValueExpr::Instance), ops: vec![WriteOp::String { value: ValueExpr::Var("e".to_string()) }] },
        }],
    };
    let remapped = remap_write_seq(seq);
    let wire = SizeExpr::WireSize {
        value: ValueExpr::Var("e".to_string()),
        owner: Some(WireSizeOwner::Record("_$$BoltException".to_string())),
    };
    match &remapped.size {
        SizeExpr::ResultSize { err, ok, .. } => {
            assert_eq!(**err, wire);
            assert_eq!(**ok, SizeExpr::Fixed(4));
        }
        other => panic!("unexpected {other:?}"),
    }
    match &remapped.ops[0] {
        WriteOp::Result { err, .. } => assert_eq!(err.size, wire),
        other => panic!("unexpected {other:?}"),
    }
    let plain = write(vec![WriteOp::String { value: ValueExpr::Instance }]);
    let same = remap_write_seq(write(vec![WriteOp::String { value: ValueExpr::Instance }]));
    assert_eq!(same, plain);
}

#[test]
fn comparisons() {
    assert_eq!(
        emit_cmp_expr("a", "b", &DartType::List(Box::new(DartType::Int(DartFFIIntType::Int32)))),
        "_$$BoltUtil.listCompare(a, b, (_l$a, _l$b) => _l$a == _l$b)"
    );
    assert_eq!(
        emit_cmp_expr("a", "b", &DartType::Option(Box::new(DartType::String))),
        "_$$BoltUtil.nullableCompare(a, b, (_l$a, _l$b) => _l$a == _l$b)"
    );
    assert_eq!(
        emit_cmp_expr("a", "b", &DartType::Result { ok: Box::new(DartType::Bool), err: Box::new(DartType::Enum("E".to_string())) }),
        "_$$BoltUtil.fallibleCompare(a, b, (_l$okA, _l$okB) => _l$okA == _l$okB, (_l$errA, _l$errB) => _l$errA == _l$errB)"
    );
    assert_eq!(emit_cmp_expr("a", "b", &DartType::Bytes), "_$$BoltUtil.listCompare(a, b, (_l$a, _l$b) => _l$a == _l$b)");
    assert_eq!(emit_cmp_expr("x", "other.x", &DartType::Double(boltffi_bindgen::dart::types::DartFFIFloatType::Float64)), "x == other.x");
}

#[test]
fn package_and_docs() {
    let s = |t: &str| t.to_string();
    let sections = DartSections {
        prelude: s("prelude"),
        custom_types: s("custom"),
        records: vec![s("record A"), s("record B")],
        enums: vec![s("enum E")],
        callbacks: vec![s("callback C")],
        classes: vec![s("class K")],
        functions: vec![(s("extern f"), s("callable f")), (s("extern g"), s("callable g"))],
    };
    let package = DartEmitter::emit(&sections, s("pubspec"), s("hook"));
    assert_eq!(
        package.lib,
        "prelude\ncustom\nrecord A\nrecord B\nenum E\ncallback C\nclass K\nextern f\ncallable f\nextern g\ncallable g"
    );
    assert_eq!(package.pubspec, "pubspec");
    assert_eq!(package.build, "hook");
    let bare = DartSections {
        prelude: s("p"),
        custom_types: String::new(),
        records: vec![],
        enums: vec![],
        callbacks: vec![],
        classes: vec![],
        functions: vec![],
    };
    assert_eq!(DartEmitter::emit(&bare, String::new(), String::new()).lib, "p\n");
    assert_eq!(to_dart_doc("First line\r\nsecond\n"), "/// First line\n/// second");
    assert_eq!(to_dart_doc("one"), "/// one");
    assert_eq!(to_dart_doc(""), "");
    assert_eq!(to_dart_doc("a\n\nb"), "/// a\n/// \n/// b");
}
