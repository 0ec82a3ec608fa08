use boltffi_bindgen::dart::api_type::DartType;
use boltffi_bindgen::dart::function::{DartFFIFunctionDef, DartFFIParamValue, DartFFIValuePassing};
use boltffi_bindgen::dart::record::{DartBlittableField, DartRecord, DartRecordField, DartRecordInterface, DartStream};
use boltffi_bindgen::dart::types::{DartFFIFloatType, DartFFIFunctionSig, DartFFIIntType, DartFFIPrimitiveType, DartFFIType};
use boltffi_bindgen::ir::{DefaultValue, PrimitiveType, ReadOp, ReadSeq, SizeExpr, StreamMode, ValueExpr, WriteOp, WriteSeq};

fn field(name: &str, ty: DartType, default_value: Option<DefaultValue>) -> DartRecordField {
    DartRecordField {
        name: name.to_string(),
        offset: 0,
        ty,
        default_value,
        read_seq: ReadSeq { size: SizeExpr::Fixed(1), ops: vec![ReadOp::Primitive { primitive: PrimitiveType::U8 }] },
        write_seq: WriteSeq { size: SizeExpr::StringLen(ValueExpr::Instance), ops: vec![WriteOp::Primitive { primitive: PrimitiveType::U8, value: ValueExpr::Instance }] },
        doc: None,
    }
}

#[test]
fn default_values() {
    let d = |v: DefaultValue| field("f", DartType::Bool, Some(v)).dart_default_value();
    assert_eq!(d(DefaultValue::Bool(true)), "true");
    assert_eq!(d(DefaultValue::Bool(false)), "false");
    assert_eq!(d(DefaultValue::Integer(-42)), "-42");
    assert_eq!(d(DefaultValue::Integer(i64::MIN)), "-9223372036854775808");
    assert_eq!(d(DefaultValue::Float("1.5".to_string())), "1.5");
    assert_eq!(d(DefaultValue::String("hi \"there\"".to_string())), "\"hi \\\"there\\\"\"");
    assert_eq!(
        d(DefaultValue::EnumVariant { enum_name: "log_level".to_string(), variant_name: "Info".to_string() }),
        "LogLevel.info"
    );
    assert_eq!(d(DefaultValue::Null), "null");
}

#[test]
fn field_codecs() {
    let f = field("count", DartType::Int(DartFFIIntType::Uint8), None);
    assert_eq!(f.wire_decode_expr("r"), "r.readU8()");
    assert_eq!(f.wire_encode_expr("w"), "w.writeU8(count);");
    assert_eq!(f.wire_encoded_size_expr(), "(count.length * 3)");
    assert_eq!(f.field_cmp_expr("other"), "count == other.count");
    let g = field("tags", DartType::List(Box::new(DartType::String)), None);
    assert_eq!(g.field_cmp_expr("o"), "_$$BoltUtil.listCompare(tags, o.tags, (_l$a, _l$b) => _l$a == _l$b)");
}

#[test]
fn blittable_fields() {
    let f = DartBlittableField {
        name: "x".to_string(),
        primitive: PrimitiveType::F32,
        native_type: DartFFIType::Float(DartFFIFloatType::Float32),
        offset_const_name: "_k$xOffset".to_string(),
        offset: 4,
    };
    assert_eq!(f.primitive_write_method(), "writeF32");
    assert_eq!(f.primitive_read_method(), "readF32");
    assert_eq!(f.blittable_read_expr("bytes"), "bytes.getFloat32(_k$xOffset, $$typed_data.Endian.little)");
    assert_eq!(f.blittable_write_expr("bytes"), "bytes.setFloat32(_k$xOffset, x, $$typed_data.Endian.little)");
}

#[test]
fn fields_split_by_default() {
    let record = DartRecord {
        name: "Vector".to_string(),
        interfaces: vec![DartRecordInterface::Exception],
        fields: vec![
            field("x", DartType::Double(DartFFIFloatType::Float64), None),
            field("y", DartType::Double(DartFFIFloatType::Float64), Some(DefaultValue::Integer(0))),
            field("z", DartType::Double(DartFFIFloatType::Float64), None),
            field("w", DartType::Double(DartFFIFloatType::Float64), Some(DefaultValue::Null)),
        ],
        blittable_layout: None,
        constructors: vec![],
        methods: vec![],
        doc: None,
    };
    let with: Vec<&str> = record.fields_with_defaults().iter().map(|f| f.name.as_str()).collect();
    let without: Vec<&str> = record.fields_without_defaults().iter().map(|f| f.name.as_str()).collect();
    assert_eq!(with, vec!["y", "w"]);
    assert_eq!(without, vec!["x", "z"]);
    assert_eq!(record.interfaces[0].name(), "Exception");
}

fn ffi_fn() -> DartFFIFunctionDef {
    DartFFIFunctionDef { sig: DartFFIFunctionSig { args: vec![], ret: DartFFIType::Void }, symbol: "s".to_string(), is_leaf: true }
}

fn stream(item_ty: DartType, value: DartFFIParamValue) -> DartStream {
    DartStream {
        name: "events".to_string(),
        item_ty,
        item_read_seq: ReadSeq { size: SizeExpr::Runtime, ops: vec![ReadOp::String] },
        item_passing: DartFFIValuePassing::Value(value),
        ffi_item_ty: DartFFIType::Void,
        ffi_item_size: Some(4),
        subscribe_fn: ffi_fn(),
        poll_fn: ffi_fn(),
        pop_batch_fn: ffi_fn(),
        wait_fn: ffi_fn(),
        unsubscribe_fn: ffi_fn(),
        free_fn: ffi_fn(),
        mode: StreamMode::Batch,
        doc: None,
    }
}

#[test]
fn stream_items() {
    let i32s = DartFFIParamValue::Primitive(DartFFIPrimitiveType::Int(DartFFIIntType::Int32));
    assert_eq!(
        stream(DartType::Enum("Status".to_string()), i32s.clone()).item_array_read_expr("r", "n"),
        "r.readInt32List(n, 0).map(Status._m$fromDiscriminant)"
    );
    assert_eq!(stream(DartType::Int(DartFFIIntType::Int32), i32s).item_array_read_expr("r", "n"), "r.readInt32List(n, 0)");
    assert_eq!(
        stream(DartType::Bool, DartFFIParamValue::Primitive(DartFFIPrimitiveType::Bool)).item_array_read_expr("r", "n"),
        "$$BoltBoolList._m$fromUint8List(r.readUint8List(n, 0))"
    );
    assert_eq!(
        stream(DartType::Double(DartFFIFloatType::Float32), DartFFIParamValue::Primitive(DartFFIPrimitiveType::Float(DartFFIFloatType::Float32)))
            .item_array_read_expr("r", "n"),
        "r.readFloat32List(n, 0)"
    );
    let recs = stream(DartType::Record("P".to_string()), DartFFIParamValue::Record("P".to_string()));
    assert_eq!(recs.item_array_read_expr("r", "n"), "P._m$blittableReadList(n, r)");
    assert_eq!(recs.item_wire_decode_expr("wire"), "wire.readString()");
}
