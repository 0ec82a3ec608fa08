//! How Rust scalars are named on the Python side, and the Python-side
//! handles of records and C-style enums.
use vstd::prelude::*;
use crate::ir::PrimitiveType;

verus! {

/// The Python annotation of a scalar: `bool`, `int` or `float`.
pub open spec fn python_annotation_of(p: PrimitiveType) -> Seq<char> {
    match p {
        PrimitiveType::Bool => "bool"@,
        PrimitiveType::F32 | PrimitiveType::F64 => "float"@,
        _ => "int"@,
    }
}

/// The Rust spelling of a scalar type, such as `u8` or `isize`.
pub open spec fn rust_name_of(p: PrimitiveType) -> Seq<char> {
    match p {
        PrimitiveType::Bool => "bool"@,
        PrimitiveType::I8 => "i8"@,
        PrimitiveType::U8 => "u8"@,
        PrimitiveType::I16 => "i16"@,
        PrimitiveType::U16 => "u16"@,
        PrimitiveType::I32 => "i32"@,
        PrimitiveType::U32 => "u32"@,
        PrimitiveType::I64 => "i64"@,
        PrimitiveType::U64 => "u64"@,
        PrimitiveType::ISize => "isize"@,
        PrimitiveType::USize => "usize"@,
        PrimitiveType::F32 => "f32"@,
        PrimitiveType::F64 => "f64"@,
    }
}

/// The Python annotation of a scalar.
pub fn python_annotation(p: PrimitiveType) -> (res: String)
    ensures
        res@ == python_annotation_of(p),
{
    match p {
        PrimitiveType::Bool => String::from_str("bool"),
        PrimitiveType::F32 | PrimitiveType::F64 => String::from_str("float"),
        _ => String::from_str("int"),
    }
}

/// The Rust spelling of a scalar type.
pub fn rust_name(p: PrimitiveType) -> (res: String)
    ensures
        res@ == rust_name_of(p),
{
    match p {
        PrimitiveType::Bool => String::from_str("bool"),
        PrimitiveType::I8 => String::from_str("i8"),
        PrimitiveType::U8 => String::from_str("u8"),
        PrimitiveType::I16 => String::from_str("i16"),
        PrimitiveType::U16 => String::from_str("u16"),
        PrimitiveType::I32 => String::from_str("i32"),
        PrimitiveType::U32 => String::from_str("u32"),
        PrimitiveType::I64 => String::from_str("i64"),
        PrimitiveType::U64 => String::from_str("u64"),
        PrimitiveType::ISize => String::from_str("isize"),
        PrimitiveType::USize => String::from_str("usize"),
        PrimitiveType::F32 => String::from_str("f32"),
        PrimitiveType::F64 => String::from_str("f64"),
    }
}

/// A C-style enum as the Python side sees it: its class and the scalar
/// that carries its tag.
#[derive(Debug, Clone, PartialEq, Eq)]
pub struct PythonEnumType {
    pub class_name: String,
    pub tag_type: PrimitiveType,
}

impl PythonEnumType {
    /// The annotation that names the enum: its class name.
    pub fn type_literal(&self) -> (res: String)
        ensures
            res@ == self.class_name@,
    {
        self.class_name.clone()
    }
}

/// A record as the Python side sees it: its class and the C struct that
/// carries it.
#[derive(Debug, Clone, PartialEq, Eq)]
pub struct PythonRecordType {
    pub class_name: String,
    pub c_type_name: String,
}

impl PythonRecordType {
    /// The annotation that names the record: its class name.
    pub fn type_literal(&self) -> (res: String)
        ensures
            res@ == self.class_name@,
    {
        self.class_name.clone()
    }
}

} // verus!
