use boltffi_bindgen::ir::PrimitiveType;
use boltffi_bindgen::python::primitives::{PythonEnumType, PythonRecordType};
use boltffi_bindgen::python::type_shape::{PythonSequenceType, PythonType};

fn color() -> PythonEnumType {
    PythonEnumType { class_name: "Color".to_string(), tag_type: PrimitiveType::U8 }
}

fn point() -> PythonRecordType {
    PythonRecordType { class_name: "Point".to_string(), c_type_name: "point_t".to_string() }
}

#[test]
fn sequence_annotations() {
    let bytes_like = PythonSequenceType::PrimitiveVec(PrimitiveType::U8);
    assert_eq!(bytes_like.parameter_annotation(), "bytes | Sequence[int]");
    assert_eq!(bytes_like.return_annotation(), "bytes");
    assert!(bytes_like.is_byte_like());
    assert!(!bytes_like.is_bytes());
    let floats = PythonSequenceType::PrimitiveVec(PrimitiveType::F64);
    assert_eq!(floats.parameter_annotation(), "Sequence[float]");
    assert_eq!(floats.return_annotation(), "list[float]");
    assert_eq!(floats.primitive_element(), Some(PrimitiveType::F64));
    assert!(floats.is_primitive_vector());
    let colors = PythonSequenceType::CStyleEnumVec(color());
    assert_eq!(colors.parameter_annotation(), "Sequence[Color]");
    assert_eq!(colors.return_annotation(), "list[Color]");
    assert_eq!(colors.enum_element(), Some(&color()));
    assert!(colors.is_c_style_enum_vector());
    assert!(colors.uses_buffer_input());
    assert_eq!(PythonSequenceType::Bytes.parameter_annotation(), "bytes");
    assert_eq!(PythonSequenceType::Bytes.primitive_element(), None);
}

#[test]
fn type_annotations_and_shapes() {
    let result = PythonType::Result { ok: Box::new(PythonType::Primitive(PrimitiveType::I32)), err: Box::new(PythonType::String) };
    assert_eq!(result.parameter_annotation(), "int");
    assert_eq!(result.return_annotation(), "int");
    assert!(result.is_owned_buffer());
    assert!(result.is_result());
    assert_eq!(result.result_ok(), Some(&PythonType::Primitive(PrimitiveType::I32)));
    assert_eq!(result.result_err(), Some(&PythonType::String));
    assert_eq!(result.native_primitive(), None);
    assert!(!result.is_supported_result_payload());
    assert_eq!(PythonType::Void.return_annotation(), "None");
    assert_eq!(PythonType::Record(point()).parameter_annotation(), "Point");
    assert_eq!(PythonType::CStyleEnum(color()).native_primitive(), Some(PrimitiveType::U8));
    assert_eq!(PythonType::CStyleEnum(color()).c_style_enum(), Some(&color()));
    assert_eq!(PythonType::Record(point()).record(), Some(&point()));
    assert_eq!(PythonType::Sequence(PythonSequenceType::CStyleEnumVec(color())).sequence_c_style_enum(), Some(&color()));
    assert!(PythonType::Sequence(PythonSequenceType::Bytes).is_bytes());
    assert!(PythonType::Sequence(PythonSequenceType::Bytes).uses_buffer_input());
    assert!(!PythonType::String.uses_buffer_input());
    assert!(PythonType::String.is_string());
    assert!(PythonType::Void.is_void());
    assert!(PythonType::Record(point()).is_record());
    assert!(PythonType::CStyleEnum(color()).is_c_style_enum());
}

#[test]
fn contained_primitives_flatten_results() {
    let nested = PythonType::Result {
        ok: Box::new(PythonType::Sequence(PythonSequenceType::PrimitiveVec(PrimitiveType::U16))),
        err: Box::new(PythonType::CStyleEnum(color())),
    };
    assert_eq!(nested.contained_primitives(), vec![PrimitiveType::U16, PrimitiveType::U8]);
    assert_eq!(PythonType::String.contained_primitives(), Vec::<PrimitiveType>::new());
    assert_eq!(PythonType::Primitive(PrimitiveType::Bool).contained_primitives(), vec![PrimitiveType::Bool]);
}

#[test]
fn result_payload_readers() {
    assert!(PythonType::Void.is_supported_result_payload());
    assert!(PythonType::Sequence(PythonSequenceType::PrimitiveVec(PrimitiveType::U8)).is_supported_result_payload());
    assert!(!PythonType::Sequence(PythonSequenceType::PrimitiveVec(PrimitiveType::U32)).is_supported_result_payload());
    assert!(!PythonType::CStyleEnum(color()).is_supported_result_payload());
    assert_eq!(PythonType::Primitive(PrimitiveType::U16).result_payload_reader_name(), "boltffi_python_read_payload_u16");
    assert_eq!(PythonType::Record(point()).result_payload_reader_name(), "boltffi_python_read_payload_point_t");
    assert_eq!(PythonType::String.result_payload_reader_name(), "boltffi_python_read_payload_string");
    assert_eq!(PythonType::Void.result_payload_reader_name(), "boltffi_python_read_payload_void");
    assert_eq!(
        PythonType::Sequence(PythonSequenceType::Bytes).result_payload_reader_name(),
        "boltffi_python_read_payload_bytes"
    );
}
