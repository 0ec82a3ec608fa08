use boltffi_bindgen::dart::api_type::{DartFunctionSig, DartReturnType, DartType};
use boltffi_bindgen::dart::function::{
    DartFFIClosureDef, DartFFIFunctionDef, DartFFIParamBytes, DartFFIParamValue, DartFFIReturnsPassing,
    DartFFIValuePassing, DartFunction, DartFunctionCallOwner, DartFunctionMode, DartFunctionParam,
    DartFunctionParamWriteBack, DartFunctionReturns, DartFunctionType, DartMethodReceiver,
};
use boltffi_bindgen::dart::types::{DartFFIFloatType, DartFFIFunctionSig, DartFFIIntType, DartFFIPrimitiveType, DartFFIType};
use boltffi_bindgen::ir::{PrimitiveType, ReadOp, ReadSeq, SizeExpr, ValueExpr, WriteOp, WriteSeq};

fn param(name: &str, ty: DartType, passing: DartFFIValuePassing) -> DartFunctionParam {
    DartFunctionParam { name: name.to_string(), ty, passing, write_seq: None, read_seq: None, writeback: None }
}

fn int_ty(i: DartFFIIntType) -> DartFFIPrimitiveType {
    DartFFIPrimitiveType::Int(i)
}

fn make_returns(ty: DartType, passing: DartFFIReturnsPassing) -> DartFunctionReturns {
    DartFunctionReturns { ty: DartReturnType { inner: ty }, passing, read_seq: None, write_seq: None }
}

#[test]
fn passing_constructors() {
    assert_eq!(
        DartFFIValuePassing::primitive_value(PrimitiveType::U16),
        DartFFIValuePassing::Value(DartFFIParamValue::Primitive(int_ty(DartFFIIntType::Uint16)))
    );
    assert_eq!(
        DartFFIValuePassing::primitive_bytes(PrimitiveType::F32),
        DartFFIValuePassing::Bytes(DartFFIParamBytes::Array(DartFFIParamValue::Primitive(DartFFIPrimitiveType::Float(DartFFIFloatType::Float32))))
    );
    assert_eq!(
        DartFFIValuePassing::record_bytes("P".to_string()),
        DartFFIValuePassing::Bytes(DartFFIParamBytes::Array(DartFFIParamValue::Record("P".to_string())))
    );
    assert_eq!(DartFFIValuePassing::utf8_bytes(), DartFFIValuePassing::Bytes(DartFFIParamBytes::UTF8));
    assert_eq!(DartFFIValuePassing::record_value("P".to_string()), DartFFIValuePassing::Value(DartFFIParamValue::Record("P".to_string())));
    assert_eq!(DartFFIValuePassing::record_value_list("P".to_string()), DartFFIValuePassing::List(DartFFIParamValue::Record("P".to_string())));
    assert_eq!(DartFFIParamValue::from_primitive(PrimitiveType::Bool), DartFFIParamValue::Primitive(DartFFIPrimitiveType::Bool));
}

#[test]
fn parameter_locals() {
    let p = param("items", DartType::Bytes, DartFFIValuePassing::WireEncoded);
    assert_eq!(p.buf_name(), "l$itemsBuf");
    assert_eq!(p.wire_name(), "l$itemsWire");
    assert_eq!(p.reader_name(), "l$itemsReader");
    assert_eq!(p.writer_name(), "l$itemsWriter");
    assert_eq!(p.storage_name(), "l$itemsStorage");
    assert_eq!(p.bytes_name(), "l$itemsBytes");
    assert_eq!(p.ffi_param_ptr_name(), "itemsPtr");
    assert_eq!(p.ffi_param_len_name(), "itemsLen");
    assert_eq!(p.callable_name(), "l$itemsCallable");
}

#[test]
fn borrowed_spans_of_parameters() {
    let arr = |p: DartFFIPrimitiveType| param("items", DartType::Bytes, DartFFIValuePassing::Bytes(DartFFIParamBytes::Array(DartFFIParamValue::Primitive(p))));
    assert_eq!(arr(int_ty(DartFFIIntType::Int16)).bytes_read_expr(), "itemsPtr.asTypedList(itemsLen).sublist(0).buffer.asInt16List()");
    assert_eq!(arr(int_ty(DartFFIIntType::UintPtr)).bytes_read_expr(), "itemsPtr.asTypedList(itemsLen).sublist(0).buffer.asUint64List()");
    assert_eq!(
        arr(DartFFIPrimitiveType::Bool).bytes_read_expr(),
        "_$$BoltBoolList._m$fromUint8List(itemsPtr.asTypedList(itemsLen).sublist(0).buffer.asUint8List())"
    );
    let records = param("items", DartType::Bytes, DartFFIValuePassing::record_bytes("Point".to_string()));
    assert_eq!(records.bytes_read_expr(), "Point._m$blittableReadList(itemsLen, _$$BoltBufReader.fromSpan(itemsPtr, itemsLen))");
    assert_eq!(records.bytes_write_expr(), "Point._m$blittableWriteList(items, l$itemsWriter);");
    assert_eq!(records.bytes_create_expr(), None);
    assert_eq!(records.bytes_len_expr(), "items.length * Point._k$structSize");
    let record = param("items", DartType::Bytes, DartFFIValuePassing::Bytes(DartFFIParamBytes::Record("Point".to_string())));
    assert_eq!(record.bytes_read_expr(), "Point._m$blittableRead(_$$BoltBufReader.fromSpan(itemsPtr, itemsLen))");
    assert_eq!(record.bytes_write_expr(), "Point._m$blittableWrite(items, l$itemsWriter);");
    let text = param("items", DartType::String, DartFFIValuePassing::utf8_bytes());
    assert_eq!(text.bytes_read_expr(), "$$convert.utf8.decode(itemsPtr.asTypedList(itemsLen))");
    assert_eq!(text.bytes_write_expr(), "l$itemsWriter.writeBytes(l$itemsBytes, 0);");
    assert_eq!(text.bytes_create_expr(), Some("$$convert.utf8.encode(items)".to_string()));
    assert_eq!(text.bytes_len_expr(), "l$itemsBytes.lengthInBytes");
    assert_eq!(arr(DartFFIPrimitiveType::Bool).bytes_write_expr(), "l$itemsWriter.writeBytes(items._bytes, 0);");
    assert_eq!(arr(int_ty(DartFFIIntType::Int8)).bytes_write_expr(), "l$itemsWriter.writeBytes(items, 0);");
    assert_eq!(arr(int_ty(DartFFIIntType::Int8)).bytes_len_expr(), "items.lengthInBytes");
}

#[test]
fn owned_lists_and_writeback() {
    let floats = param("items", DartType::Bytes, DartFFIValuePassing::List(DartFFIParamValue::Primitive(DartFFIPrimitiveType::Float(DartFFIFloatType::Float32))));
    assert_eq!(floats.list_bytes_write_expr(), "l$itemsWriter.writeBytes(items, 0);");
    assert_eq!(floats.list_bytes_len_expr(), "items.lengthInBytes");
    let records = param("items", DartType::Bytes, DartFFIValuePassing::record_value_list("P".to_string()));
    assert_eq!(records.list_bytes_write_expr(), "P._m$blittableWriteList(items, l$itemsWriter);");
    assert_eq!(records.list_bytes_len_expr(), "items.length * P._k$structSize");
    let mut xs = param("xs", DartType::Bytes, DartFFIValuePassing::primitive_bytes(PrimitiveType::I32));
    assert_eq!(xs.writeback_expr(), None);
    xs.writeback = Some(DartFunctionParamWriteBack::PrimitiveBytes(int_ty(DartFFIIntType::Int32)));
    assert_eq!(
        xs.writeback_expr(),
        Some("xs.setRange(0, xs.length, l$xsStorage.ptr.cast<$$ffi.Int32>().asTypedList(xs.length));".to_string())
    );
    xs.writeback = Some(DartFunctionParamWriteBack::PrimitiveBytes(DartFFIPrimitiveType::Bool));
    assert_eq!(
        xs.writeback_expr(),
        Some("xs._bytes.setRange(0, xs.length, l$xsStorage.ptr.cast<$$ffi.Bool>().asTypedList(xs.length));".to_string())
    );
}

#[test]
fn native_arguments_of_parameters() {
    let scalar = param("x", DartType::Int(DartFFIIntType::Int32), DartFFIValuePassing::primitive_value(PrimitiveType::I32));
    assert_eq!(scalar.get_ffi_param(), vec!["x"]);
    let tag = param("x", DartType::Enum("Status".to_string()), DartFFIValuePassing::primitive_value(PrimitiveType::I32));
    assert_eq!(tag.get_ffi_param(), vec!["x.value"]);
    let rec = param("x", DartType::Record("P".to_string()), DartFFIValuePassing::record_value("P".to_string()));
    assert_eq!(rec.get_ffi_param(), vec!["x._m$toStruct()"]);
    let wire = param("x", DartType::String, DartFFIValuePassing::WireEncoded);
    assert_eq!(wire.get_ffi_param(), vec!["l$xStorage.ptr", "l$xWire.len"]);
    let list = param("x", DartType::Bytes, DartFFIValuePassing::List(DartFFIParamValue::Primitive(int_ty(DartFFIIntType::Uint8))));
    assert_eq!(list.get_ffi_param(), vec!["l$xStorage.ptr.cast<$$ffi.Uint8>()", "x.length"]);
    let recs = param("x", DartType::Bytes, DartFFIValuePassing::record_value_list("P".to_string()));
    assert_eq!(recs.get_ffi_param(), vec!["l$xStorage.ptr", "l$xWriter.len"]);
    let span = param("x", DartType::Bytes, DartFFIValuePassing::Bytes(DartFFIParamBytes::Record("P".to_string())));
    assert_eq!(span.get_ffi_param(), vec!["l$xStorage.ptr.cast()", "P._k$structSize"]);
    let text = param("x", DartType::String, DartFFIValuePassing::utf8_bytes());
    assert_eq!(text.get_ffi_param(), vec!["l$xStorage.ptr", "l$xBytes.lengthInBytes"]);
    let handle = param("x", DartType::Class("C".to_string()), DartFFIValuePassing::ClassHandle { class: "C".to_string(), nullable: false });
    assert_eq!(handle.get_ffi_param(), vec!["x._handle"]);
    let cb = param("x", DartType::Callback("Listener".to_string()), DartFFIValuePassing::CallbackHandle { class: "Listener".to_string(), nullable: true });
    assert_eq!(cb.get_ffi_param(), vec!["(x == null) ? _k$BoltCallbackHandleNull : _I$Listener.createCallbackHandle(x)"]);
    let cb = param("x", DartType::Callback("Listener".to_string()), DartFFIValuePassing::CallbackHandle { class: "Listener".to_string(), nullable: false });
    assert_eq!(cb.get_ffi_param(), vec!["_I$Listener.createCallbackHandle(x)"]);
}

#[test]
fn wire_encoded_parameters() {
    let mut s = param("s", DartType::String, DartFFIValuePassing::WireEncoded);
    s.read_seq = Some(ReadSeq { size: SizeExpr::Runtime, ops: vec![ReadOp::String] });
    s.write_seq = Some(WriteSeq { size: SizeExpr::StringLen(ValueExpr::Instance), ops: vec![WriteOp::String { value: ValueExpr::Instance }] });
    assert_eq!(s.wire_read_expr(), "l$sWire.readString()");
    assert_eq!(s.wire_write_expr(), "l$sWire.writeString(s);");
    assert_eq!(s.wire_size_expr(), "(s.length * 3)");
}

#[test]
fn returned_spans() {
    let span = |b: DartFFIParamBytes| make_returns(DartType::Bytes, DartFFIReturnsPassing::Passing(DartFFIValuePassing::Bytes(b)));
    let shorts = span(DartFFIParamBytes::Array(DartFFIParamValue::Primitive(int_ty(DartFFIIntType::Uint16))));
    assert_eq!(shorts.bytes_read_expr(), "_l$resReader.readUint16List(_l$resBuf.len, 0)");
    assert_eq!(shorts.bytes_create_expr(), Some("$$typed_data.Uint16List.fromList(_l$res)".to_string()));
    assert_eq!(shorts.bytes_write_expr(), "_l$resWriter.writeBytes(_l$res, 0)");
    assert_eq!(shorts.bytes_len_expr(), "_l$res.lengthInBytes");
    let bools = span(DartFFIParamBytes::Array(DartFFIParamValue::Primitive(DartFFIPrimitiveType::Bool)));
    assert_eq!(bools.bytes_read_expr(), "$$BoltBoolList._m$fromUint8List(_l$resReader.readUint8List(_l$resBuf.len, 0))");
    assert_eq!(bools.bytes_create_expr(), Some("$$BoltBoolList.fromList(_l$res)".to_string()));
    assert_eq!(bools.bytes_write_expr(), "_l$resWriter.writeBytes(_l$res._bytes, 0)");
    let doubles = span(DartFFIParamBytes::Array(DartFFIParamValue::Primitive(DartFFIPrimitiveType::Float(DartFFIFloatType::Float64))));
    assert_eq!(doubles.bytes_create_expr(), Some("$$typed_data.Float64List.fromList(_l$res)".to_string()));
    assert_eq!(doubles.bytes_read_expr(), "_l$resReader.readFloat64List(_l$resBuf.len, 0)");
    let recs = span(DartFFIParamBytes::Array(DartFFIParamValue::Record("P".to_string())));
    assert_eq!(recs.bytes_read_expr(), "P._m$blittableReadList(_l$resBuf.len, _l$resReader)");
    assert_eq!(recs.bytes_create_expr(), None);
    assert_eq!(recs.bytes_write_expr(), "P._m$blittableWriteList(_l$res, _l$resWriter)");
    assert_eq!(recs.bytes_len_expr(), "_l$res.length * P._k$structSize");
    let rec = span(DartFFIParamBytes::Record("P".to_string()));
    assert_eq!(rec.bytes_read_expr(), "P._m$blittableRead(_l$resReader)");
    let text = span(DartFFIParamBytes::UTF8);
    assert_eq!(text.bytes_read_expr(), "$$convert.utf8.decode(_l$resReader.readBytes(_l$resBuf.len, 0))");
    assert_eq!(text.bytes_create_expr(), Some("$$convert.utf8.encode(_l$res)".to_string()));
    assert_eq!(text.bytes_write_expr(), "_l$resWriter.writeBytes(_l$resBytes, 0)");
    assert_eq!(text.bytes_len_expr(), "_l$resBytes.lengthInBytes");
}

#[test]
fn returned_values() {
    let r = make_returns(DartType::Record("P".to_string()), DartFFIReturnsPassing::Passing(DartFFIValuePassing::record_value("P".to_string())));
    assert_eq!(r.value_write_expr(), "_l$res._m$toStruct()");
    assert_eq!(r.value_read_expr(), "P._m$fromStruct(_l$resReader)");
    assert_eq!(r.res_name(), "_l$res");
    assert_eq!(r.storage_name(), "_l$resStorage");
    assert_eq!(r.buf_name(), "_l$resBuf");
    assert_eq!(r.bytes_name(), "_l$resBytes");
    assert_eq!(r.reader_name(), "_l$resReader");
    assert_eq!(r.writer_name(), "_l$resWriter");
    assert_eq!(r.wire_name(), "_l$resWire");
    assert!(!r.is_fallible());
    let mut w = make_returns(DartType::Int(DartFFIIntType::Int32), DartFFIReturnsPassing::Passing(DartFFIValuePassing::WireEncoded));
    w.write_seq = Some(WriteSeq { size: SizeExpr::Fixed(8), ops: vec![WriteOp::Primitive { primitive: PrimitiveType::I32, value: ValueExpr::Instance }] });
    w.read_seq = Some(ReadSeq { size: SizeExpr::Fixed(8), ops: vec![ReadOp::String] });
    assert_eq!(w.wire_size_expr(), "8");
    assert_eq!(w.wire_encode_expr(), "_l$resWire.writeI32(_l$res);");
    assert_eq!(w.wire_decode_expr(), "_l$resWire.readString()");
    assert!(!w.is_fallible());
    w.read_seq = Some(ReadSeq {
        size: SizeExpr::Runtime,
        ops: vec![ReadOp::Result { ok: ReadSeq { size: SizeExpr::Runtime, ops: vec![] }, err: ReadSeq { size: SizeExpr::Runtime, ops: vec![ReadOp::String] } }],
    });
    assert!(w.is_fallible());
    let h = make_returns(DartType::Class("C".to_string()), DartFFIReturnsPassing::Passing(DartFFIValuePassing::ClassHandle { class: "C".to_string(), nullable: true }));
    assert!(h.is_fallible());
}

fn closure(ty: DartType, passing: DartFFIReturnsPassing) -> DartFFIClosureDef {
    DartFFIClosureDef {
        sig: DartFFIFunctionSig { args: vec![], ret: DartFFIType::Void },
        params: vec![],
        returns: make_returns(ty, passing),
    }
}

#[test]
fn exceptional_returns_of_closures() {
    assert_eq!(closure(DartType::Bool, DartFFIReturnsPassing::Void).exceptional_return(), Some("false"));
    assert_eq!(closure(DartType::Int(DartFFIIntType::Int8), DartFFIReturnsPassing::Void).exceptional_return(), Some("0"));
    assert_eq!(closure(DartType::Double(DartFFIFloatType::Float32), DartFFIReturnsPassing::Void).exceptional_return(), Some("0.0"));
    assert_eq!(
        closure(DartType::Enum("E".to_string()), DartFFIReturnsPassing::Passing(DartFFIValuePassing::primitive_value(PrimitiveType::I32))).exceptional_return(),
        Some("0")
    );
    assert_eq!(closure(DartType::Enum("E".to_string()), DartFFIReturnsPassing::Passing(DartFFIValuePassing::WireEncoded)).exceptional_return(), None);
    assert_eq!(closure(DartType::String, DartFFIReturnsPassing::Void).exceptional_return(), None);
}

fn function(ty: DartFunctionType, params: Vec<DartFunctionParam>, ret: DartType) -> DartFunction {
    DartFunction {
        mode: DartFunctionMode::Sync,
        ty,
        ffi_def: DartFFIFunctionDef { sig: DartFFIFunctionSig { args: vec![], ret: DartFFIType::Void }, symbol: "sym".to_string(), is_leaf: false },
        sig: DartFunctionSig { args: vec![], ret: DartReturnType { inner: DartType::Void } },
        params,
        returns: make_returns(ret, DartFFIReturnsPassing::Void),
        doc: None,
    }
}

#[test]
fn functions_and_receivers() {
    let method = function(
        DartFunctionType::Method {
            name: "area".to_string(),
            receiver: DartMethodReceiver::ReceiverPassing(DartFFIValuePassing::WireEncoded),
            owner: DartFunctionCallOwner::Record("Shape".to_string()),
        },
        vec![param("scale", DartType::Double(DartFFIFloatType::Float64), DartFFIValuePassing::primitive_value(PrimitiveType::F64))],
        DartType::Result { ok: Box::new(DartType::Void), err: Box::new(DartType::String) },
    );
    assert_eq!(method.get_ffi_params(), vec!["l$$selfStorage.ptr", "l$$selfWire.len", "scale"]);
    assert_eq!(method.self_wire_size(), Some("_m$wireEncodedSize()".to_string()));
    assert_eq!(method.self_wire_encode_expr(), Some("_m$wireEncode(l$$selfWire);".to_string()));
    assert_eq!(method.self_storage_name(), "l$$selfStorage");
    assert_eq!(method.self_wire_name(), "l$$selfWire");
    assert!(method.is_fallible());
    assert!(!method.is_async());

    let class_method = function(
        DartFunctionType::Method {
            name: "get".to_string(),
            receiver: DartMethodReceiver::ReceiverPassing(DartFFIValuePassing::ClassHandle { class: "C".to_string(), nullable: false }),
            owner: DartFunctionCallOwner::Class("C".to_string()),
        },
        vec![],
        DartType::Void,
    );
    assert_eq!(class_method.get_ffi_params(), vec!["_handle"]);
    assert_eq!(class_method.self_wire_size(), None);
    assert_eq!(class_method.self_wire_encode_expr(), None);
    assert!(!class_method.is_fallible());

    let enum_method = function(
        DartFunctionType::Method {
            name: "next".to_string(),
            receiver: DartMethodReceiver::ReceiverPassing(DartFFIValuePassing::primitive_value(PrimitiveType::I32)),
            owner: DartFunctionCallOwner::Enum("E".to_string()),
        },
        vec![],
        DartType::Void,
    );
    assert_eq!(enum_method.get_ffi_params(), vec!["this.value"]);

    let ctor = function(
        DartFunctionType::Constructor {
            kind: boltffi_bindgen::dart::function::DartConstructorKind::Default,
            owner: DartFunctionCallOwner::Class("C".to_string()),
            is_fallible: true,
            is_optional: false,
        },
        vec![],
        DartType::Class("C".to_string()),
    );
    assert!(ctor.is_fallible());
    assert_eq!(ctor.get_ffi_params(), Vec::<String>::new());
    assert_eq!(DartFunctionCallOwner::Enum("Status".to_string()).name(), "Status");
}
