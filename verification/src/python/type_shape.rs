//! The shape of a type on the Python side: how it is annotated, whether it
//! crosses the boundary as a buffer, and which scalars it carries.
use vstd::prelude::*;
use crate::ir::PrimitiveType;
use crate::python::primitives::{python_annotation, python_annotation_of, rust_name, rust_name_of, PythonEnumType, PythonRecordType};

verus! {

/// A sequence type of the Python side.
#[derive(Debug, Clone, PartialEq, Eq)]
pub enum PythonSequenceType {
    Bytes,
    PrimitiveVec(PrimitiveType),
    CStyleEnumVec(PythonEnumType),
}

/// The annotation of a sequence in parameter position.
pub open spec fn seq_parameter_annotation(s: PythonSequenceType) -> Seq<char> {
    match s {
        PythonSequenceType::Bytes => "bytes"@,
        PythonSequenceType::PrimitiveVec(PrimitiveType::U8) => "bytes | Sequence[int]"@,
        PythonSequenceType::PrimitiveVec(p) => "Sequence["@ + python_annotation_of(p) + "]"@,
        PythonSequenceType::CStyleEnumVec(e) => "Sequence["@ + e.class_name@ + "]"@,
    }
}

/// The annotation of a sequence in return position.
pub open spec fn seq_return_annotation(s: PythonSequenceType) -> Seq<char> {
    match s {
        PythonSequenceType::Bytes | PythonSequenceType::PrimitiveVec(PrimitiveType::U8) => "bytes"@,
        PythonSequenceType::PrimitiveVec(p) => "list["@ + python_annotation_of(p) + "]"@,
        PythonSequenceType::CStyleEnumVec(e) => "list["@ + e.class_name@ + "]"@,
    }
}

/// Whether a sequence is bytes or a vector of `u8`.
pub open spec fn seq_byte_like(s: PythonSequenceType) -> bool {
    s is Bytes || s == PythonSequenceType::PrimitiveVec(PrimitiveType::U8)
}

impl PythonSequenceType {
    /// The annotation of the sequence as a parameter.
    pub fn parameter_annotation(&self) -> (res: String)
        ensures
            res@ == seq_parameter_annotation(*self),
    {
        match self {
            Self::Bytes => String::from_str("bytes"),
            Self::PrimitiveVec(PrimitiveType::U8) => String::from_str("bytes | Sequence[int]"),
            Self::PrimitiveVec(primitive) => {
                let a = python_annotation(*primitive);
                crate::text::cat3("Sequence[", a.as_str(), "]")
            },
            Self::CStyleEnumVec(enum_type) => {
                let a = enum_type.type_literal();
                crate::text::cat3("Sequence[", a.as_str(), "]")
            },
        }
    }

    /// The annotation of the sequence as a return value.
    pub fn return_annotation(&self) -> (res: String)
        ensures
            res@ == seq_return_annotation(*self),
    {
        match self {
            Self::Bytes | Self::PrimitiveVec(PrimitiveType::U8) => String::from_str("bytes"),
            Self::PrimitiveVec(primitive) => {
                let a = python_annotation(*primitive);
                crate::text::cat3("list[", a.as_str(), "]")
            },
            Self::CStyleEnumVec(enum_type) => {
                let a = enum_type.type_literal();
                crate::text::cat3("list[", a.as_str(), "]")
            },
        }
    }

    /// The scalar element of a primitive vector.
    pub fn primitive_element(&self) -> (res: Option<PrimitiveType>)
        ensures
            res == (match *self {
                PythonSequenceType::PrimitiveVec(p) => Some(p),
                _ => None,
            }),
    {
        match self {
            Self::Bytes => None,
            Self::PrimitiveVec(primitive) => Some(*primitive),
            Self::CStyleEnumVec(_) => None,
        }
    }

    /// The enum element of a vector of C-style enums.
    pub fn enum_element(&self) -> (res: Option<&PythonEnumType>)
        ensures
            res is Some <==> self is CStyleEnumVec,
            res matches Some(e) ==> *e == self->CStyleEnumVec_0,
    {
        match self {
            Self::CStyleEnumVec(enum_type) => Some(enum_type),
            _ => None,
        }
    }

    /// Whether the sequence is `bytes`.
    pub fn is_bytes(&self) -> (res: bool)
        ensures
            res == self is Bytes,
    {
        matches!(self, Self::Bytes)
    }

    /// Whether the sequence is `bytes` or a vector of `u8`.
    pub fn is_byte_like(&self) -> (res: bool)
        ensures
            res == seq_byte_like(*self),
    {
        matches!(self, Self::Bytes | Self::PrimitiveVec(PrimitiveType::U8))
    }

    /// Whether the sequence is a vector of scalars.
    pub fn is_primitive_vector(&self) -> (res: bool)
        ensures
            res == self is PrimitiveVec,
    {
        matches!(self, Self::PrimitiveVec(_))
    }

    /// Whether the sequence is a vector of C-style enums.
    pub fn is_c_style_enum_vector(&self) -> (res: bool)
        ensures
            res == self is CStyleEnumVec,
    {
        matches!(self, Self::CStyleEnumVec(_))
    }

    /// Whether the sequence is passed in through a buffer: every sequence is.
    pub fn uses_buffer_input(&self) -> (res: bool)
        ensures
            res,
    {
        matches!(self, Self::Bytes | Self::PrimitiveVec(_) | Self::CStyleEnumVec(_))
    }
}

/// A type of the Python side. A `Result` stands only in return position:
/// its `ok` payload is returned and its `err` payload raised.
#[derive(Debug, PartialEq, Eq)]
pub enum PythonType {
    Void,
    Primitive(PrimitiveType),
    Record(PythonRecordType),
    CStyleEnum(PythonEnumType),
    String,
    Sequence(PythonSequenceType),
    Result { ok: Box<PythonType>, err: Box<PythonType> },
}

/// The annotation of a type in parameter position; a `Result` is
/// annotated as its `ok` type.
pub open spec fn parameter_annotation_of(t: PythonType) -> Seq<char>
    decreases t,
{
    match t {
        PythonType::Void => "None"@,
        PythonType::Primitive(p) => python_annotation_of(p),
        PythonType::Record(r) => r.class_name@,
        PythonType::CStyleEnum(e) => e.class_name@,
        PythonType::String => "str"@,
        PythonType::Sequence(s) => seq_parameter_annotation(s),
        PythonType::Result { ok, .. } => parameter_annotation_of(*ok),
    }
}

/// The annotation of a type in return position; a fallible call returns
/// its `ok` type.
pub open spec fn return_annotation_of(t: PythonType) -> Seq<char>
    decreases t,
{
    match t {
        PythonType::Void => "None"@,
        PythonType::Primitive(p) => python_annotation_of(p),
        PythonType::Record(r) => r.class_name@,
        PythonType::CStyleEnum(e) => e.class_name@,
        PythonType::String => "str"@,
        PythonType::Sequence(s) => seq_return_annotation(s),
        PythonType::Result { ok, .. } => return_annotation_of(*ok),
    }
}

/// The scalar that carries a value of the type across the boundary: the
/// primitive itself, an enum's tag, or a primitive vector's element.
pub open spec fn native_primitive_of(t: PythonType) -> Option<PrimitiveType> {
    match t {
        PythonType::Primitive(p) => Some(p),
        PythonType::CStyleEnum(e) => Some(e.tag_type),
        PythonType::Sequence(PythonSequenceType::PrimitiveVec(p)) => Some(p),
        _ => None,
    }
}

/// The scalars reachable through a type, a `Result` flattened into its
/// `ok` payload's and then its `err` payload's.
pub open spec fn contained_primitives_of(t: PythonType) -> Seq<PrimitiveType>
    decreases t,
{
    match t {
        PythonType::Result { ok, err } => contained_primitives_of(*ok) + contained_primitives_of(*err),
        _ => match native_primitive_of(t) {
            Some(p) => seq![p],
            None => Seq::empty(),
        },
    }
}

/// Whether a value of the type can be decoded as a `Result` payload.
pub open spec fn supported_payload(t: PythonType) -> bool {
    match t {
        PythonType::Void | PythonType::Primitive(_) | PythonType::String | PythonType::Record(_) => true,
        PythonType::Sequence(s) => seq_byte_like(s),
        _ => false,
    }
}

/// The name of the C reader of a `Result` payload of the type.
pub open spec fn payload_reader_of(t: PythonType) -> Seq<char> {
    match t {
        PythonType::Void => "boltffi_python_read_payload_void"@,
        PythonType::Primitive(p) => "boltffi_python_read_payload_"@ + rust_name_of(p),
        PythonType::String => "boltffi_python_read_payload_string"@,
        PythonType::Sequence(_) => "boltffi_python_read_payload_bytes"@,
        PythonType::Record(r) => "boltffi_python_read_payload_"@ + r.c_type_name@,
        _ => Seq::empty(),
    }
}

impl PythonType {
    /// The annotation of the type as a parameter.
    pub fn parameter_annotation(&self) -> (res: String)
        ensures
            res@ == parameter_annotation_of(*self),
        decreases self,
    {
        match self {
            Self::Void => String::from_str("None"),
            Self::Primitive(primitive) => python_annotation(*primitive),
            Self::Record(record_type) => record_type.type_literal(),
            Self::CStyleEnum(enum_type) => enum_type.type_literal(),
            Self::String => String::from_str("str"),
            Self::Sequence(sequence) => sequence.parameter_annotation(),
            Self::Result { ok, .. } => ok.parameter_annotation(),
        }
    }

    /// The annotation of the type as a return value.
    pub fn return_annotation(&self) -> (res: String)
        ensures
            res@ == return_annotation_of(*self),
        decreases self,
    {
        match self {
            Self::Void => String::from_str("None"),
            Self::Primitive(primitive) => python_annotation(*primitive),
            Self::Record(record_type) => record_type.type_literal(),
            Self::CStyleEnum(enum_type) => enum_type.type_literal(),
            Self::String => String::from_str("str"),
            Self::Sequence(sequence) => sequence.return_annotation(),
            Self::Result { ok, .. } => ok.return_annotation(),
        }
    }

    /// The scalar that carries the value across the boundary, if one does.
    pub fn native_primitive(&self) -> (res: Option<PrimitiveType>)
        ensures
            res == native_primitive_of(*self),
    {
        match self {
            Self::Void => None,
            Self::Primitive(primitive) => Some(*primitive),
            Self::Record(_) => None,
            Self::CStyleEnum(enum_type) => Some(enum_type.tag_type),
            Self::String => None,
            Self::Sequence(sequence) => sequence.primitive_element(),
            Self::Result { .. } => None,
        }
    }

    /// The record, for a record type.
    pub fn record(&self) -> (res: Option<&PythonRecordType>)
        ensures
            res is Some <==> self is Record,
            res matches Some(r) ==> *r == self->Record_0,
    {
        match self {
            Self::Record(record_type) => Some(record_type),
            _ => None,
        }
    }

    /// The enum, for a C-style enum type.
    pub fn c_style_enum(&self) -> (res: Option<&PythonEnumType>)
        ensures
            res is Some <==> self is CStyleEnum,
            res matches Some(e) ==> *e == self->CStyleEnum_0,
    {
        match self {
            Self::CStyleEnum(enum_type) => Some(enum_type),
            _ => None,
        }
    }

    /// The element enum, for a vector of C-style enums.
    pub fn sequence_c_style_enum(&self) -> (res: Option<&PythonEnumType>)
        ensures
            res is Some <==> (*self matches PythonType::Sequence(s) && s is CStyleEnumVec),
            res matches Some(e) ==> *e == self->Sequence_0->CStyleEnumVec_0,
    {
        match self {
            Self::Sequence(sequence) => sequence.enum_element(),
            _ => None,
        }
    }

    /// Whether the type is `None`.
    pub fn is_void(&self) -> (res: bool)
        ensures
            res == self is Void,
    {
        matches!(self, Self::Void)
    }

    /// Whether the type is `str`.
    pub fn is_string(&self) -> (res: bool)
        ensures
            res == self is String,
    {
        matches!(self, Self::String)
    }

    /// Whether the type is a record.
    pub fn is_record(&self) -> (res: bool)
        ensures
            res == self is Record,
    {
        matches!(self, Self::Record(_))
    }

    /// Whether the type is a C-style enum.
    pub fn is_c_style_enum(&self) -> (res: bool)
        ensures
            res == self is CStyleEnum,
    {
        matches!(self, Self::CStyleEnum(_))
    }

    /// Whether the type is `bytes`.
    pub fn is_bytes(&self) -> (res: bool)
        ensures
            res == (*self matches PythonType::Sequence(s) && s is Bytes),
    {
        matches!(self, Self::Sequence(PythonSequenceType::Bytes))
    }

    /// Whether the type is `bytes` or a vector of `u8`.
    pub fn is_byte_like(&self) -> (res: bool)
        ensures
            res == (*self matches PythonType::Sequence(s) && seq_byte_like(s)),
    {
        match self {
            Self::Sequence(sequence) => sequence.is_byte_like(),
            _ => false,
        }
    }

    /// Whether the type is a vector of scalars.
    pub fn is_primitive_vector(&self) -> (res: bool)
        ensures
            res == (*self matches PythonType::Sequence(s) && s is PrimitiveVec),
    {
        matches!(self, Self::Sequence(PythonSequenceType::PrimitiveVec(_)))
    }

    /// Whether the type is a vector of C-style enums.
    pub fn is_c_style_enum_vector(&self) -> (res: bool)
        ensures
            res == (*self matches PythonType::Sequence(s) && s is CStyleEnumVec),
    {
        matches!(self, Self::Sequence(PythonSequenceType::CStyleEnumVec(_)))
    }

    /// Whether the type is passed in through a buffer: every sequence is.
    pub fn uses_buffer_input(&self) -> (res: bool)
        ensures
            res == self is Sequence,
    {
        match self {
            Self::Sequence(sequence) => sequence.uses_buffer_input(),
            _ => false,
        }
    }

    /// Whether a value of the type comes back as an owned buffer: strings,
    /// sequences and results do.
    pub fn is_owned_buffer(&self) -> (res: bool)
        ensures
            res == (self is String || self is Sequence || self is Result),
    {
        matches!(self, Self::String | Self::Sequence(_) | Self::Result { .. })
    }

    /// Whether the type is a `Result`.
    pub fn is_result(&self) -> (res: bool)
        ensures
            res == self is Result,
    {
        matches!(self, Self::Result { .. })
    }

    /// The `ok` payload type, for a `Result`.
    pub fn result_ok(&self) -> (res: Option<&PythonType>)
        ensures
            res is Some <==> self is Result,
            res matches Some(t) ==> *t == *self->Result_ok,
    {
        match self {
            Self::Result { ok, .. } => Some(&**ok),
            _ => None,
        }
    }

    /// The `err` payload type, for a `Result`.
    pub fn result_err(&self) -> (res: Option<&PythonType>)
        ensures
            res is Some <==> self is Result,
            res matches Some(t) ==> *t == *self->Result_err,
    {
        match self {
            Self::Result { err, .. } => Some(&**err),
            _ => None,
        }
    }

    /// The scalars reachable through the type, a `Result` flattened into
    /// its payloads.
    pub fn contained_primitives(&self) -> (res: Vec<PrimitiveType>)
        ensures
            res@ == contained_primitives_of(*self),
        decreases self,
    {
        match self {
            Self::Result { ok, err } => {
                let mut primitives = ok.contained_primitives();
                let mut rest = err.contained_primitives();
                primitives.append(&mut rest);
                primitives
            },
            _ => {
                let mut out: Vec<PrimitiveType> = Vec::new();
                if let Some(p) = self.native_primitive() {
                    out.push(p);
                }
                proof {
                    if native_primitive_of(*self) is None {
                        assert(out@ =~= Seq::<PrimitiveType>::empty());
                    } else {
                        assert(out@ =~= seq![native_primitive_of(*self)->0]);
                    }
                }
                out
            },
        }
    }

    /// Whether a value of the type can be decoded as a `Result` payload:
    /// void, scalars, strings, records and byte-like sequences can.
    pub fn is_supported_result_payload(&self) -> (res: bool)
        ensures
            res == supported_payload(*self),
    {
        match self {
            Self::Void | Self::Primitive(_) | Self::String | Self::Record(_) => true,
            Self::Sequence(sequence) => sequence.is_byte_like(),
            Self::CStyleEnum(_) | Self::Result { .. } => false,
        }
    }

    /// The name of the C reader that decodes a `Result` payload of the
    /// type. C-style enums and nested results have no reader.
    pub fn result_payload_reader_name(&self) -> (res: String)
        requires
            !(self is CStyleEnum || self is Result),
        ensures
            res@ == payload_reader_of(*self),
    {
        match self {
            Self::Void => String::from_str("boltffi_python_read_payload_void"),
            Self::Primitive(primitive) => {
                let n = rust_name(*primitive);
                crate::text::cat2("boltffi_python_read_payload_", n.as_str())
            },
            Self::String => String::from_str("boltffi_python_read_payload_string"),
            Self::Sequence(_) => String::from_str("boltffi_python_read_payload_bytes"),
            Self::Record(record_type) => {
                crate::text::cat2("boltffi_python_read_payload_", record_type.c_type_name.as_str())
            },
            Self::CStyleEnum(_) | Self::Result { .. } => String::new(),
        }
    }
}


/// A byte-like type is passed in through a buffer, and so is owned when it
/// comes back.
pub proof fn law_byte_like_uses_buffer(t: PythonType)
    ensures
        (t matches PythonType::Sequence(s) && seq_byte_like(s)) ==> t is Sequence,
        t is Sequence ==> (t is String || t is Sequence || t is Result),
{
}

/// Outside a `Result`, the scalars a type contains are the one that carries
/// it, if any; a `Result` contains its `ok` payload's scalars, then its
/// `err` payload's.
pub proof fn law_contained_primitives(t: PythonType)
    ensures
        !(t is Result) ==> contained_primitives_of(t) == (match native_primitive_of(t) {
            Some(p) => seq![p],
            None => Seq::<PrimitiveType>::empty(),
        }),
        t matches PythonType::Result { ok, err } ==> contained_primitives_of(t)
            == contained_primitives_of(*ok) + contained_primitives_of(*err),
        t is Result ==> native_primitive_of(t) is None,
{
}

/// Every supported `Result` payload has a reader, and it is named after
/// what it reads.
pub proof fn law_supported_payloads_have_readers(t: PythonType)
    ensures
        supported_payload(t) ==> !(t is CStyleEnum || t is Result),
        supported_payload(t) ==> payload_reader_of(t).len() > 0,
{
    reveal_strlit("boltffi_python_read_payload_void");
    reveal_strlit("boltffi_python_read_payload_");
    reveal_strlit("boltffi_python_read_payload_string");
    reveal_strlit("boltffi_python_read_payload_bytes");
}

} // verus!
