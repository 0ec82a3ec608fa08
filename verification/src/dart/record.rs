//! The plan of a generated Dart record, its fields and its `dart:ffi`
//! struct layout; the plan of a stream and of a custom type.
use vstd::prelude::*;
use crate::ir::{DefaultValue, PrimitiveType, ReadSeq, StreamMode, WriteSeq};
use crate::dart::api_type::{hashable, inner_void, DartType};
use crate::dart::emit::{
    as_num_text, blittable_read_of, blittable_write_of, cmp_text, emit_cmp_expr, emit_read_blittable_value,
    emit_reader_read, emit_size_at, emit_write_blittable_value, emit_writer_write, endian_suffix,
    num_as_text, read_method_of, read_text, readable, size_text, writable, write_method_of, write_text,
};
use crate::dart::function::{typed_kind, DartFFIFunctionDef, DartFFIParamValue, DartFFIValuePassing, DartFunction};
use crate::dart::naming::{lower_camel, upper_camel, NamingConvention};
use crate::dart::types::{DartFFIPrimitiveType, DartFFIType};
use crate::text::{debug_quoted, signed_decimal};

verus! {

/// A field of a generated record.
#[derive(Debug, PartialEq, Eq)]
pub struct DartRecordField {
    pub name: String,
    pub offset: usize,
    pub ty: DartType,
    pub default_value: Option<DefaultValue>,
    pub read_seq: ReadSeq,
    pub write_seq: WriteSeq,
    pub doc: Option<String>,
}

/// The Dart text of a field's default value: booleans and `null` as
/// keywords, integers in decimal, a float as its text, a string as Rust's
/// debug rendering of it, and an enum case as `Enum.case`.
pub open spec fn default_text(d: DefaultValue) -> Seq<char> {
    match d {
        DefaultValue::Bool(b) => if b { "true"@ } else { "false"@ },
        DefaultValue::Integer(i) => signed_decimal(i as int),
        DefaultValue::Float(f) => f@,
        DefaultValue::String(s) => debug_quoted(s@),
        DefaultValue::EnumVariant { enum_name, variant_name } => upper_camel(enum_name@) + "."@ + lower_camel(variant_name@),
        DefaultValue::Null => "null"@,
    }
}

impl DartRecordField {
    /// The expression that decodes the field with `reader_name`.
    pub fn wire_decode_expr(&self, reader_name: &str) -> (res: String)
        requires
            readable(self.read_seq, inner_void(self.ty)),
        ensures
            res@ == read_text(self.read_seq, reader_name@, inner_void(self.ty)),
    {
        emit_reader_read(&self.read_seq, reader_name, self.ty.is_inner_void())
    }

    /// The statements that encode the field with `writer_name`.
    pub fn wire_encode_expr(&self, writer_name: &str) -> (res: String)
        requires
            writable(self.write_seq),
        ensures
            res@ == write_text(self.write_seq, writer_name@, self.name@),
    {
        emit_writer_write(&self.write_seq, writer_name, self.name.as_str())
    }

    /// The encoded size of the field, written over its name.
    pub fn wire_encoded_size_expr(&self) -> (res: String)
        ensures
            res@ == size_text(self.write_seq.size, Some(self.name@)),
    {
        emit_size_at(&self.write_seq.size, Some(self.name.as_str()))
    }

    /// The test that the field equals the same field of `other`.
    pub fn field_cmp_expr(&self, other: &str) -> (res: String)
        requires
            hashable(self.ty),
        ensures
            res@ == cmp_text(self.ty, self.name@, other@ + "."@ + self.name@),
    {
        let theirs = crate::text::cat3(other, ".", self.name.as_str());
        emit_cmp_expr(self.name.as_str(), theirs.as_str(), &self.ty)
    }

    /// The Dart text of the field's default value.
    pub fn dart_default_value(&self) -> (res: String)
        requires
            self.default_value is Some,
        ensures
            res@ == default_text(self.default_value->0),
    {
        match &self.default_value {
            Some(DefaultValue::Bool(b)) => {
                if *b {
                    String::from_str("true")
                } else {
                    String::from_str("false")
                }
            },
            Some(DefaultValue::Integer(i)) => crate::text::i64_to_string(*i),
            Some(DefaultValue::Float(f)) => f.clone(),
            Some(DefaultValue::String(s)) => crate::text::debug_string(s.as_str()),
            Some(DefaultValue::EnumVariant { enum_name, variant_name }) => {
                let e = NamingConvention::class_name(enum_name.as_str());
                let v = NamingConvention::property_name(variant_name.as_str());
                crate::text::cat3(e.as_str(), ".", v.as_str())
            },
            Some(DefaultValue::Null) => String::from_str("null"),
            None => String::new(),
        }
    }
}

/// The `dart:ffi` struct that mirrors a record made only of scalars.
#[derive(Debug, PartialEq, Eq)]
pub struct DartBlittableLayout {
    pub struct_name: String,
    pub struct_size: usize,
    pub fields: Vec<DartBlittableField>,
}

/// A scalar field of a `dart:ffi` struct and where it lies.
#[derive(Debug, PartialEq, Eq)]
pub struct DartBlittableField {
    pub name: String,
    pub primitive: PrimitiveType,
    pub native_type: DartFFIType,
    pub offset_const_name: String,
    pub offset: usize,
}

impl DartBlittableField {
    /// The writer method of the field's scalar.
    pub fn primitive_write_method(&self) -> (res: &'static str)
        ensures
            res@ == write_method_of(self.primitive),
    {
        crate::dart::emit::primitive_write_method(self.primitive)
    }

    /// The reader method of the field's scalar.
    pub fn primitive_read_method(&self) -> (res: &'static str)
        ensures
            res@ == read_method_of(self.primitive),
    {
        crate::dart::emit::primitive_read_method(self.primitive)
    }

    /// The expression that loads the field from `bytes_name` at its offset.
    pub fn blittable_read_expr(&self, bytes_name: &str) -> (res: String)
        ensures
            res@ == num_as_text(self.primitive, bytes_name@ + "."@ + blittable_read_of(self.primitive) + "("@
                + self.offset_const_name@ + endian_suffix(self.primitive) + ")"@),
    {
        emit_read_blittable_value(self.offset_const_name.as_str(), self.primitive, bytes_name)
    }

    /// The statement that stores the field into `bytes_name` at its offset.
    pub fn blittable_write_expr(&self, bytes_name: &str) -> (res: String)
        ensures
            res@ == bytes_name@ + "."@ + blittable_write_of(self.primitive) + "("@ + self.offset_const_name@ + ", "@
                + as_num_text(self.primitive, self.name@) + endian_suffix(self.primitive) + ")"@,
    {
        emit_write_blittable_value(self.offset_const_name.as_str(), self.primitive, self.name.as_str(), bytes_name)
    }
}

/// An interface that a generated record implements.
#[derive(Debug, Clone, Copy, PartialEq, Eq)]
pub enum DartRecordInterface {
    Exception,
}

impl DartRecordInterface {
    /// The interface's Dart name.
    pub fn name(&self) -> (res: String)
        ensures
            res@ == "Exception"@,
    {
        match self {
            DartRecordInterface::Exception => String::from_str("Exception"),
        }
    }
}

/// A generated record.
#[derive(Debug, PartialEq, Eq)]
pub struct DartRecord {
    pub name: String,
    pub interfaces: Vec<DartRecordInterface>,
    pub fields: Vec<DartRecordField>,
    pub blittable_layout: Option<DartBlittableLayout>,
    pub constructors: Vec<DartFunction>,
    pub methods: Vec<DartFunction>,
    pub doc: Option<String>,
}

/// The fields of `fields` that have (`with`) or lack a default value, in order.
pub open spec fn fields_by_default(fields: Seq<DartRecordField>, with: bool) -> Seq<DartRecordField> {
    fields.filter(|f: DartRecordField| (f.default_value is Some) == with)
}

impl DartRecord {
    fn fields_where(&self, with: bool) -> (res: Vec<&DartRecordField>)
        ensures
            res@.map_values(|f: &DartRecordField| *f) == fields_by_default(self.fields@, with),
    {
        let mut out: Vec<&DartRecordField> = Vec::new();
        proof {
            reveal(Seq::filter);
            assert(out@.map_values(|f: &DartRecordField| *f) =~= fields_by_default(self.fields@.take(0), with));
        }
        let mut i: usize = 0;
        while i < self.fields.len()
            invariant
                i <= self.fields@.len(),
                out@.map_values(|f: &DartRecordField| *f) == fields_by_default(self.fields@.take(i as int), with),
            decreases self.fields.len() - i,
        {
            let f = &self.fields[i];
            let ghost before = out@;
            if f.default_value.is_some() == with {
                out.push(f);
            }
            proof {
                reveal(Seq::filter);
                let taken = self.fields@.take(i + 1);
                assert(taken.drop_last() =~= self.fields@.take(i as int));
                assert(taken.last() == self.fields@[i as int]);
                if (self.fields@[i as int].default_value is Some) == with {
                    assert(out@ == before.push(f));
                    assert(out@.map_values(|f: &DartRecordField| *f) =~= before.map_values(|f: &DartRecordField| *f).push(*f));
                }
                assert(out@.map_values(|f: &DartRecordField| *f) =~= fields_by_default(taken, with));
            }
            i += 1;
        }
        proof {
            assert(self.fields@.take(self.fields@.len() as int) =~= self.fields@);
        }
        out
    }

    /// The fields that have a default value, in order.
    pub fn fields_with_defaults(&self) -> (res: Vec<&DartRecordField>)
        ensures
            res@.map_values(|f: &DartRecordField| *f) == fields_by_default(self.fields@, true),
    {
        self.fields_where(true)
    }

    /// The fields that have no default value, in order.
    pub fn fields_without_defaults(&self) -> (res: Vec<&DartRecordField>)
        ensures
            res@.map_values(|f: &DartRecordField| *f) == fields_by_default(self.fields@, false),
    {
        self.fields_where(false)
    }
}

/// A generated stream.
#[derive(Debug, PartialEq, Eq)]
pub struct DartStream {
    pub name: String,
    pub item_ty: DartType,
    pub item_read_seq: ReadSeq,
    pub item_passing: DartFFIValuePassing,
    pub ffi_item_ty: DartFFIType,
    pub ffi_item_size: Option<usize>,
    pub subscribe_fn: DartFFIFunctionDef,
    pub poll_fn: DartFFIFunctionDef,
    pub pop_batch_fn: DartFFIFunctionDef,
    pub wait_fn: DartFFIFunctionDef,
    pub unsubscribe_fn: DartFFIFunctionDef,
    pub free_fn: DartFFIFunctionDef,
    pub mode: StreamMode,
    pub doc: Option<String>,
}

/// The expression that reads `len` items of a stream, passed as `value`
/// and typed `item_ty`, from `reader`. Enum items are mapped from their
/// discriminants.
pub open spec fn item_array_text(reader: Seq<char>, len: Seq<char>, value: DartFFIParamValue, item_ty: DartType) -> Seq<char> {
    match value {
        DartFFIParamValue::Primitive(DartFFIPrimitiveType::Bool) => {
            "$$BoltBoolList._m$fromUint8List("@ + reader + ".readUint8List("@ + len + ", 0))"@
        },
        DartFFIParamValue::Primitive(DartFFIPrimitiveType::Int(i)) => {
            reader + ".read"@ + typed_kind(DartFFIPrimitiveType::Int(i)) + "List("@ + len + ", 0)"@
                + (if item_ty is Enum { ".map("@ + item_ty->Enum_0@ + "._m$fromDiscriminant)"@ } else { Seq::empty() })
        },
        DartFFIParamValue::Primitive(p) => reader + ".read"@ + typed_kind(p) + "List("@ + len + ", 0)"@,
        DartFFIParamValue::Record(r) => r@ + "._m$blittableReadList("@ + len + ", "@ + reader + ")"@,
    }
}

impl DartStream {
    /// The expression that decodes one item from `wire_name`.
    pub fn item_wire_decode_expr(&self, wire_name: &str) -> (res: String)
        requires
            readable(self.item_read_seq, inner_void(self.item_ty)),
        ensures
            res@ == read_text(self.item_read_seq, wire_name@, inner_void(self.item_ty)),
    {
        emit_reader_read(&self.item_read_seq, wire_name, self.item_ty.is_inner_void())
    }

    /// The expression that reads `bytes_len` directly passed items.
    pub fn item_array_read_expr(&self, reader_name: &str, bytes_len: &str) -> (res: String)
        requires
            self.item_passing is Value,
        ensures
            res@ == item_array_text(reader_name@, bytes_len@, self.item_passing->Value_0, self.item_ty),
    {
        match &self.item_passing {
            DartFFIValuePassing::Value(value) => match value {
                DartFFIParamValue::Primitive(DartFFIPrimitiveType::Bool) => {
                    crate::text::cat5("$$BoltBoolList._m$fromUint8List(", reader_name, ".readUint8List(", bytes_len, ", 0))")
                },
                DartFFIParamValue::Primitive(DartFFIPrimitiveType::Int(width)) => {
                    let kind = crate::dart::function::typed_kind_str(DartFFIPrimitiveType::Int(*width));
                    let mut s = crate::text::cat6(reader_name, ".read", kind, "List(", bytes_len, ", 0)");
                    if let DartType::Enum(class) = &self.item_ty {
                        let map = crate::text::cat3(".map(", class.as_str(), "._m$fromDiscriminant)");
                        s.append(map.as_str());
                    }
                    s
                },
                DartFFIParamValue::Primitive(p) => {
                    let kind = crate::dart::function::typed_kind_str(*p);
                    crate::text::cat6(reader_name, ".read", kind, "List(", bytes_len, ", 0)")
                },
                DartFFIParamValue::Record(record) => {
                    crate::text::cat6(record.as_str(), "._m$blittableReadList(", bytes_len, ", ", reader_name, ")")
                },
            },
            _ => String::new(),
        }
    }
}

/// A generated wrapper of a custom type.
#[derive(Debug, PartialEq, Eq)]
pub struct DartCustomType {
    pub name: String,
    pub ty: DartType,
    pub doc: Option<String>,
}

/// How a Rust enum is generated in Dart: a C-style enum becomes an
/// enhanced `enum`, an enum with data a sealed class hierarchy.
#[derive(Debug, Clone, Copy, PartialEq, Eq)]
pub enum DartEnumKind {
    Enhanced,
    SealedClass,
}

/// A generated enum, as the library carries it: its Dart name and the kind
/// of declaration that renders it.
#[derive(Debug, PartialEq, Eq)]
pub struct DartEnum {
    pub name: String,
    pub kind: DartEnumKind,
}

} // verus!
