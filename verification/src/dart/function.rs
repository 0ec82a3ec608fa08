//! The plan of a generated Dart function: how each parameter and the
//! return value cross the boundary, and the Dart text that moves them.
use vstd::prelude::*;
use crate::ir::{ClassId, EnumId, PrimitiveType, ReadOp, ReadSeq, RecordId, WriteSeq};
use crate::dart::api_type::{inner_void, DartReturnType, DartType};
use crate::dart::emit::{emit_reader_read, emit_size_at, emit_writer_write, ov_view, read_text, readable, size_text, writable, write_text};
use crate::dart::types::{ffi_primitive_of, primitive_native, DartFFIFloatType, DartFFIFunctionSig, DartFFIIntType, DartFFIPrimitiveType, DartFFIType};
use crate::text::{cat2, cat3, cat4, cat5, views};

verus! {

/// A value passed directly: a scalar or a record's struct.
#[derive(Debug, Clone, PartialEq, Eq)]
pub enum DartFFIParamValue {
    Primitive(DartFFIPrimitiveType),
    Record(String),
}

impl DartFFIParamValue {
    /// The direct value of a Rust scalar.
    pub fn from_primitive(primitive: PrimitiveType) -> (res: Self)
        ensures
            res == DartFFIParamValue::Primitive(ffi_primitive_of(primitive)),
    {
        Self::Primitive(DartFFIPrimitiveType::from_primitive(primitive))
    }
}

/// What a borrowed byte span holds.
#[derive(Debug, Clone, PartialEq, Eq)]
pub enum DartFFIParamBytes {
    Array(DartFFIParamValue),
    Record(String),
    UTF8,
}

/// A native callable that stands for a Dart closure.
#[derive(Debug, PartialEq, Eq)]
pub struct DartFFIClosureDef {
    pub sig: DartFFIFunctionSig,
    pub params: Vec<DartFunctionParam>,
    pub returns: DartFunctionReturns,
}

/// What a native callable returns when its Dart body throws: a zero of
/// its scalar type, or nothing for other types.
pub open spec fn exceptional_of(c: DartFFIClosureDef) -> Option<Seq<char>> {
    match c.returns.ty.inner {
        DartType::Bool => Some("false"@),
        DartType::Int(..) => Some("0"@),
        DartType::Double(..) => Some("0.0"@),
        DartType::Enum(_) => {
            if c.returns.passing matches DartFFIReturnsPassing::Passing(DartFFIValuePassing::Value(DartFFIParamValue::Primitive(..))) {
                Some("0"@)
            } else {
                None
            }
        },
        _ => None,
    }
}

impl DartFFIClosureDef {
    /// The value the native callable returns when its Dart body throws.
    pub fn exceptional_return(&self) -> (res: Option<&'static str>)
        ensures
            match res {
                Some(s) => exceptional_of(*self) == Some(s@),
                None => exceptional_of(*self) is None,
            },
    {
        match self.returns.ty.inner {
            DartType::Bool => Some("false"),
            DartType::Int(..) => Some("0"),
            DartType::Double(..) => Some("0.0"),
            DartType::Enum(_) => {
                if let DartFFIReturnsPassing::Passing(DartFFIValuePassing::Value(DartFFIParamValue::Primitive(..))) = &self.returns.passing {
                    Some("0")
                } else {
                    None
                }
            },
            _ => None,
        }
    }
}

/// How a value crosses the boundary.
#[derive(Debug, PartialEq, Eq)]
pub enum DartFFIValuePassing {
    /// Scalars, records and enums passed directly.
    Value(DartFFIParamValue),
    /// Enums, records, strings and lists in the wire encoding.
    WireEncoded,
    /// An owned list of scalars or records.
    List(DartFFIParamValue),
    /// A borrowed span of scalars or records, a string or a record.
    Bytes(DartFFIParamBytes),
    /// A closure.
    Closure(Box<DartFFIClosureDef>),
    /// A class handle.
    ClassHandle { class: String, nullable: bool },
    /// A callback handle.
    CallbackHandle { class: String, nullable: bool },
}

impl DartFFIValuePassing {
    /// A scalar passed directly.
    pub fn primitive_value(primitive: PrimitiveType) -> (res: Self)
        ensures
            res == DartFFIValuePassing::Value(DartFFIParamValue::Primitive(ffi_primitive_of(primitive))),
    {
        DartFFIValuePassing::Value(DartFFIParamValue::from_primitive(primitive))
    }

    /// A record passed directly as its struct.
    pub fn record_value(record: String) -> (res: Self)
        ensures
            res == DartFFIValuePassing::Value(DartFFIParamValue::Record(record)),
    {
        DartFFIValuePassing::Value(DartFFIParamValue::Record(record))
    }

    /// A borrowed span of scalars.
    pub fn primitive_bytes(primitive: PrimitiveType) -> (res: Self)
        ensures
            res == DartFFIValuePassing::Bytes(DartFFIParamBytes::Array(DartFFIParamValue::Primitive(ffi_primitive_of(primitive)))),
    {
        DartFFIValuePassing::Bytes(DartFFIParamBytes::Array(DartFFIParamValue::from_primitive(primitive)))
    }

    /// A borrowed span of records.
    pub fn record_bytes(record: String) -> (res: Self)
        ensures
            res == DartFFIValuePassing::Bytes(DartFFIParamBytes::Array(DartFFIParamValue::Record(record))),
    {
        DartFFIValuePassing::Bytes(DartFFIParamBytes::Array(DartFFIParamValue::Record(record)))
    }

    /// A borrowed UTF-8 string.
    pub fn utf8_bytes() -> (res: Self)
        ensures
            res == DartFFIValuePassing::Bytes(DartFFIParamBytes::UTF8),
    {
        DartFFIValuePassing::Bytes(DartFFIParamBytes::UTF8)
    }

    /// An owned list of records.
    pub fn record_value_list(record: String) -> (res: Self)
        ensures
            res == DartFFIValuePassing::List(DartFFIParamValue::Record(record)),
    {
        DartFFIValuePassing::List(DartFFIParamValue::Record(record))
    }
}

/// How a native callable's result is received.
#[derive(Debug, Clone, Copy, PartialEq, Eq)]
pub enum DartFFIReturnsRecv {
    /// Scalars, records, closures and the like, by value.
    Value,
}

/// The result of a native callable: its Dart type and how it arrives.
#[derive(Debug, PartialEq, Eq)]
pub struct DartFFIFunctionReturns {
    pub ty: DartType,
    pub passing: DartFFIReturnsRecv,
}

/// What is copied back into a Dart list after a call that may change it.
#[derive(Debug, Clone, Copy, PartialEq, Eq)]
pub enum DartFunctionParamWriteBack {
    PrimitiveBytes(DartFFIPrimitiveType),
}

/// A parameter of a generated Dart function.
#[derive(Debug, PartialEq, Eq)]
pub struct DartFunctionParam {
    pub name: String,
    pub ty: DartType,
    pub passing: DartFFIValuePassing,
    pub write_seq: Option<WriteSeq>,
    pub read_seq: Option<ReadSeq>,
    pub writeback: Option<DartFunctionParamWriteBack>,
}

/// The typed-data kind of a scalar: `Uint8` to `Int64`, `Float32` or
/// `Float64`; pointer-sized integers are 64-bit.
pub open spec fn typed_kind(p: DartFFIPrimitiveType) -> Seq<char> {
    match p {
        DartFFIPrimitiveType::Bool => "Uint8"@,
        DartFFIPrimitiveType::Int(i) => match i {
            DartFFIIntType::Uint8 => "Uint8"@,
            DartFFIIntType::Int8 => "Int8"@,
            DartFFIIntType::Uint16 => "Uint16"@,
            DartFFIIntType::Int16 => "Int16"@,
            DartFFIIntType::Uint32 => "Uint32"@,
            DartFFIIntType::Int32 => "Int32"@,
            DartFFIIntType::Uint64 | DartFFIIntType::UintPtr => "Uint64"@,
            DartFFIIntType::Int64 | DartFFIIntType::IntPtr => "Int64"@,
        },
        DartFFIPrimitiveType::Float(f) => match f {
            DartFFIFloatType::Float32 => "Float32"@,
            DartFFIFloatType::Float64 => "Float64"@,
        },
    }
}

pub(crate) fn typed_kind_str(p: DartFFIPrimitiveType) -> (res: &'static str)
    ensures
        res@ == typed_kind(p),
{
    match p {
        DartFFIPrimitiveType::Bool => "Uint8",
        DartFFIPrimitiveType::Int(i) => match i {
            DartFFIIntType::Uint8 => "Uint8",
            DartFFIIntType::Int8 => "Int8",
            DartFFIIntType::Uint16 => "Uint16",
            DartFFIIntType::Int16 => "Int16",
            DartFFIIntType::Uint32 => "Uint32",
            DartFFIIntType::Int32 => "Int32",
            DartFFIIntType::Uint64 | DartFFIIntType::UintPtr => "Uint64",
            DartFFIIntType::Int64 | DartFFIIntType::IntPtr => "Int64",
        },
        DartFFIPrimitiveType::Float(f) => match f {
            DartFFIFloatType::Float32 => "Float32",
            DartFFIFloatType::Float64 => "Float64",
        },
    }
}

/// The expression that copies a borrowed span `ptr`/`len` into a Dart value.
pub open spec fn param_bytes_read(ptr: Seq<char>, len: Seq<char>, bytes: DartFFIParamBytes) -> Seq<char> {
    match bytes {
        DartFFIParamBytes::Array(DartFFIParamValue::Primitive(DartFFIPrimitiveType::Bool)) => {
            "_$$BoltBoolList._m$fromUint8List("@ + ptr + ".asTypedList("@ + len + ").sublist(0).buffer.asUint8List())"@
        },
        DartFFIParamBytes::Array(DartFFIParamValue::Primitive(p)) => {
            ptr + ".asTypedList("@ + len + ").sublist(0).buffer.as"@ + typed_kind(p) + "List()"@
        },
        DartFFIParamBytes::Array(DartFFIParamValue::Record(r)) => {
            r@ + "._m$blittableReadList("@ + len + ", _$$BoltBufReader.fromSpan("@ + ptr + ", "@ + len + "))"@
        },
        DartFFIParamBytes::Record(r) => r@ + "._m$blittableRead(_$$BoltBufReader.fromSpan("@ + ptr + ", "@ + len + "))"@,
        DartFFIParamBytes::UTF8 => "$$convert.utf8.decode("@ + ptr + ".asTypedList("@ + len + "))"@,
    }
}

/// The two arguments of the call that copies Dart value `v` into a span:
/// the value's bytes and the start, or the value and the writer.
pub open spec fn write_args(v: Seq<char>, writer: Seq<char>, bytes_name: Seq<char>, bytes: DartFFIParamBytes) -> Seq<char> {
    match bytes {
        DartFFIParamBytes::Array(DartFFIParamValue::Primitive(DartFFIPrimitiveType::Bool)) => v + "._bytes, 0"@,
        DartFFIParamBytes::Array(DartFFIParamValue::Primitive(_)) => v + ", 0"@,
        DartFFIParamBytes::Array(DartFFIParamValue::Record(_)) | DartFFIParamBytes::Record(_) => v + ", "@ + writer,
        DartFFIParamBytes::UTF8 => bytes_name + ", 0"@,
    }
}

/// The callee that copies a Dart value into a span.
pub open spec fn write_callee(writer: Seq<char>, bytes: DartFFIParamBytes) -> Seq<char> {
    match bytes {
        DartFFIParamBytes::Array(DartFFIParamValue::Record(r)) => r@ + "._m$blittableWriteList"@,
        DartFFIParamBytes::Record(r) => r@ + "._m$blittableWrite"@,
        _ => writer + ".writeBytes"@,
    }
}

/// The byte length of the span that holds Dart value `v`.
pub open spec fn bytes_len(v: Seq<char>, bytes_name: Seq<char>, bytes: DartFFIParamBytes) -> Seq<char> {
    match bytes {
        DartFFIParamBytes::Array(DartFFIParamValue::Primitive(_)) => v + ".lengthInBytes"@,
        DartFFIParamBytes::Array(DartFFIParamValue::Record(r)) | DartFFIParamBytes::Record(r) => {
            v + ".length * "@ + r@ + "._k$structSize"@
        },
        DartFFIParamBytes::UTF8 => bytes_name + ".lengthInBytes"@,
    }
}

fn emit_write_args(v: &str, writer: &str, bytes_name: &str, bytes: &DartFFIParamBytes) -> (res: String)
    ensures
        res@ == write_args(v@, writer@, bytes_name@, *bytes),
{
    match bytes {
        DartFFIParamBytes::Array(DartFFIParamValue::Primitive(DartFFIPrimitiveType::Bool)) => cat2(v, "._bytes, 0"),
        DartFFIParamBytes::Array(DartFFIParamValue::Primitive(_)) => cat2(v, ", 0"),
        DartFFIParamBytes::Array(DartFFIParamValue::Record(_)) | DartFFIParamBytes::Record(_) => cat3(v, ", ", writer),
        DartFFIParamBytes::UTF8 => cat2(bytes_name, ", 0"),
    }
}

fn emit_write_callee(writer: &str, bytes: &DartFFIParamBytes) -> (res: String)
    ensures
        res@ == write_callee(writer@, *bytes),
{
    match bytes {
        DartFFIParamBytes::Array(DartFFIParamValue::Record(r)) => cat2(r.as_str(), "._m$blittableWriteList"),
        DartFFIParamBytes::Record(r) => cat2(r.as_str(), "._m$blittableWrite"),
        _ => cat2(writer, ".writeBytes"),
    }
}

fn emit_bytes_len(v: &str, bytes_name: &str, bytes: &DartFFIParamBytes) -> (res: String)
    ensures
        res@ == bytes_len(v@, bytes_name@, *bytes),
{
    match bytes {
        DartFFIParamBytes::Array(DartFFIParamValue::Primitive(_)) => cat2(v, ".lengthInBytes"),
        DartFFIParamBytes::Array(DartFFIParamValue::Record(r)) | DartFFIParamBytes::Record(r) => {
            cat4(v, ".length * ", r.as_str(), "._k$structSize")
        },
        DartFFIParamBytes::UTF8 => cat2(bytes_name, ".lengthInBytes"),
    }
}

/// A local of parameter `name`: `l$`, the name, then `suffix`.
pub open spec fn local_of(name: Seq<char>, suffix: Seq<char>) -> Seq<char> {
    "l$"@ + name + suffix
}

/// Whether the arguments of a parameter can be written: a scalar passed
/// directly is a Dart `bool`, `int`, `double` or enum.
pub open spec fn ffi_param_ready(p: DartFunctionParam) -> bool {
    p.passing matches DartFFIValuePassing::Value(DartFFIParamValue::Primitive(_)) ==> {
        p.ty is Bool || p.ty is Int || p.ty is Double || p.ty is Enum
    }
}

/// The native arguments that pass parameter `p`.
pub open spec fn ffi_param_texts(p: DartFunctionParam) -> Seq<Seq<char>> {
    let n = p.name@;
    let storage = local_of(n, "Storage"@);
    match p.passing {
        DartFFIValuePassing::Value(DartFFIParamValue::Primitive(_)) => {
            if p.ty is Enum { seq![n + ".value"@] } else { seq![n] }
        },
        DartFFIValuePassing::Value(DartFFIParamValue::Record(_)) => seq![n + "._m$toStruct()"@],
        DartFFIValuePassing::WireEncoded => seq![storage + ".ptr"@, local_of(n, "Wire"@) + ".len"@],
        DartFFIValuePassing::List(DartFFIParamValue::Primitive(prim)) => {
            seq![storage + ".ptr.cast<"@ + primitive_native(prim) + ">()"@, n + ".length"@]
        },
        DartFFIValuePassing::List(DartFFIParamValue::Record(_)) => seq![storage + ".ptr"@, local_of(n, "Writer"@) + ".len"@],
        DartFFIValuePassing::Bytes(DartFFIParamBytes::Array(DartFFIParamValue::Primitive(prim))) => {
            seq![storage + ".ptr.cast<"@ + primitive_native(prim) + ">()"@, n + ".length"@]
        },
        DartFFIValuePassing::Bytes(DartFFIParamBytes::Array(DartFFIParamValue::Record(_))) => seq![storage + ".ptr"@, n + ".length"@],
        DartFFIValuePassing::Bytes(DartFFIParamBytes::Record(r)) => seq![storage + ".ptr.cast()"@, r@ + "._k$structSize"@],
        DartFFIValuePassing::Bytes(DartFFIParamBytes::UTF8) => seq![storage + ".ptr"@, local_of(n, "Bytes"@) + ".lengthInBytes"@],
        DartFFIValuePassing::Closure(_) => seq![local_of(n, "Callable"@) + ".nativeFunction"@, "$$ffi.nullptr"@],
        DartFFIValuePassing::ClassHandle { .. } => seq![n + "._handle"@],
        DartFFIValuePassing::CallbackHandle { class, nullable } => {
            if nullable {
                seq!["("@ + n + " == null) ? _k$BoltCallbackHandleNull : _I$"@ + class@ + ".createCallbackHandle("@ + n + ")"@]
            } else {
                seq!["_I$"@ + class@ + ".createCallbackHandle("@ + n + ")"@]
            }
        },
    }
}

fn one(a: String) -> (res: Vec<String>)
    ensures
        views(res@) == seq![a@],
{
    let mut v: Vec<String> = Vec::new();
    v.push(a);
    proof { assert(views(v@) =~= seq![a@]); }
    v
}

fn two(a: String, b: String) -> (res: Vec<String>)
    ensures
        views(res@) == seq![a@, b@],
{
    let mut v: Vec<String> = Vec::new();
    v.push(a);
    v.push(b);
    proof { assert(views(v@) =~= seq![a@, b@]); }
    v
}

impl DartFunctionParam {
    /// The local that holds the parameter's buffer.
    pub fn buf_name(&self) -> (res: String)
        ensures
            res@ == local_of(self.name@, "Buf"@),
    {
        cat3("l$", self.name.as_str(), "Buf")
    }

    /// The local that holds the parameter's wire encoding.
    pub fn wire_name(&self) -> (res: String)
        ensures
            res@ == local_of(self.name@, "Wire"@),
    {
        cat3("l$", self.name.as_str(), "Wire")
    }

    /// The local that reads the parameter.
    pub fn reader_name(&self) -> (res: String)
        ensures
            res@ == local_of(self.name@, "Reader"@),
    {
        cat3("l$", self.name.as_str(), "Reader")
    }

    /// The local that writes the parameter.
    pub fn writer_name(&self) -> (res: String)
        ensures
            res@ == local_of(self.name@, "Writer"@),
    {
        cat3("l$", self.name.as_str(), "Writer")
    }

    /// The local that holds the parameter's native storage.
    pub fn storage_name(&self) -> (res: String)
        ensures
            res@ == local_of(self.name@, "Storage"@),
    {
        cat3("l$", self.name.as_str(), "Storage")
    }

    /// The local that holds the parameter's bytes.
    pub fn bytes_name(&self) -> (res: String)
        ensures
            res@ == local_of(self.name@, "Bytes"@),
    {
        cat3("l$", self.name.as_str(), "Bytes")
    }

    /// The native pointer argument of the parameter.
    pub fn ffi_param_ptr_name(&self) -> (res: String)
        ensures
            res@ == self.name@ + "Ptr"@,
    {
        cat2(self.name.as_str(), "Ptr")
    }

    /// The native length argument of the parameter.
    pub fn ffi_param_len_name(&self) -> (res: String)
        ensures
            res@ == self.name@ + "Len"@,
    {
        cat2(self.name.as_str(), "Len")
    }

    /// The local that holds the parameter's native callable.
    pub fn callable_name(&self) -> (res: String)
        ensures
            res@ == local_of(self.name@, "Callable"@),
    {
        cat3("l$", self.name.as_str(), "Callable")
    }

    /// The expression that decodes the parameter from its wire local.
    pub fn wire_read_expr(&self) -> (res: String)
        requires
            self.read_seq is Some,
            readable(self.read_seq->0, inner_void(self.ty)),
        ensures
            res@ == read_text(self.read_seq->0, local_of(self.name@, "Wire"@), inner_void(self.ty)),
    {
        let wire = self.wire_name();
        match &self.read_seq {
            Some(seq) => emit_reader_read(seq, wire.as_str(), self.ty.is_inner_void()),
            None => String::new(),
        }
    }

    /// The statements that encode the parameter into its wire local.
    pub fn wire_write_expr(&self) -> (res: String)
        requires
            self.write_seq is Some,
            writable(self.write_seq->0),
        ensures
            res@ == write_text(self.write_seq->0, local_of(self.name@, "Wire"@), self.name@),
    {
        let wire = self.wire_name();
        match &self.write_seq {
            Some(seq) => emit_writer_write(seq, wire.as_str(), self.name.as_str()),
            None => String::new(),
        }
    }

    /// The encoded size of the parameter, written over its name.
    pub fn wire_size_expr(&self) -> (res: String)
        requires
            self.write_seq is Some,
        ensures
            res@ == size_text(self.write_seq->0.size, Some(self.name@)),
    {
        match &self.write_seq {
            Some(w) => emit_size_at(&w.size, Some(self.name.as_str())),
            None => String::new(),
        }
    }

    /// The expression that copies the parameter's borrowed span into a
    /// Dart value.
    pub fn bytes_read_expr(&self) -> (res: String)
        requires
            self.passing is Bytes,
        ensures
            res@ == param_bytes_read(self.name@ + "Ptr"@, self.name@ + "Len"@, self.passing->Bytes_0),
    {
        let ptr = self.ffi_param_ptr_name();
        let len = self.ffi_param_len_name();
        let ptr = ptr.as_str();
        let len = len.as_str();
        match &self.passing {
            DartFFIValuePassing::Bytes(bytes) => match bytes {
                DartFFIParamBytes::Array(DartFFIParamValue::Primitive(DartFFIPrimitiveType::Bool)) => {
                    cat5("_$$BoltBoolList._m$fromUint8List(", ptr, ".asTypedList(", len, ").sublist(0).buffer.asUint8List())")
                },
                DartFFIParamBytes::Array(DartFFIParamValue::Primitive(p)) => {
                    let head = cat4(ptr, ".asTypedList(", len, ").sublist(0).buffer.as");
                    cat3(head.as_str(), typed_kind_str(*p), "List()")
                },
                DartFFIParamBytes::Array(DartFFIParamValue::Record(record)) => {
                    let head = cat4(record.as_str(), "._m$blittableReadList(", len, ", _$$BoltBufReader.fromSpan(");
                    cat5(head.as_str(), ptr, ", ", len, "))")
                },
                DartFFIParamBytes::Record(record) => {
                    cat5(record.as_str(), "._m$blittableRead(_$$BoltBufReader.fromSpan(", ptr, ", ", cat2(len, "))").as_str())
                },
                DartFFIParamBytes::UTF8 => cat5("$$convert.utf8.decode(", ptr, ".asTypedList(", len, "))"),
            },
            _ => String::new(),
        }
    }

    /// The statement that copies the parameter into its native span.
    pub fn bytes_write_expr(&self) -> (res: String)
        requires
            self.passing is Bytes,
        ensures
            res@ == write_callee(local_of(self.name@, "Writer"@), self.passing->Bytes_0) + "("@
                + write_args(self.name@, local_of(self.name@, "Writer"@), local_of(self.name@, "Bytes"@), self.passing->Bytes_0)
                + ");"@,
    {
        let writer = self.writer_name();
        let bytes_name = self.bytes_name();
        match &self.passing {
            DartFFIValuePassing::Bytes(bytes) => {
                let write = emit_write_callee(writer.as_str(), bytes);
                let args = emit_write_args(self.name.as_str(), writer.as_str(), bytes_name.as_str(), bytes);
                cat4(write.as_str(), "(", args.as_str(), ");")
            },
            _ => String::new(),
        }
    }

    /// The expression that makes the parameter's bytes, for a string.
    pub fn bytes_create_expr(&self) -> (res: Option<String>)
        requires
            self.passing is Bytes,
        ensures
            match res {
                Some(s) => self.passing->Bytes_0 is UTF8 && s@ == "$$convert.utf8.encode("@ + self.name@ + ")"@,
                None => !(self.passing->Bytes_0 is UTF8),
            },
    {
        match &self.passing {
            DartFFIValuePassing::Bytes(DartFFIParamBytes::UTF8) => {
                Some(cat3("$$convert.utf8.encode(", self.name.as_str(), ")"))
            },
            _ => None,
        }
    }

    /// The byte length of the parameter's span.
    pub fn bytes_len_expr(&self) -> (res: String)
        requires
            self.passing is Bytes,
        ensures
            res@ == bytes_len(self.name@, local_of(self.name@, "Bytes"@), self.passing->Bytes_0),
    {
        let bytes_name = self.bytes_name();
        match &self.passing {
            DartFFIValuePassing::Bytes(bytes) => emit_bytes_len(self.name.as_str(), bytes_name.as_str(), bytes),
            _ => String::new(),
        }
    }

    /// The statement that copies an owned list parameter into its storage.
    pub fn list_bytes_write_expr(&self) -> (res: String)
        requires
            self.passing is List,
        ensures
            res@ == write_callee(local_of(self.name@, "Writer"@), DartFFIParamBytes::Array(self.passing->List_0)) + "("@
                + write_args(self.name@, local_of(self.name@, "Writer"@), Seq::empty(), DartFFIParamBytes::Array(self.passing->List_0))
                + ");"@,
    {
        let writer = self.writer_name();
        let w = writer.as_str();
        let n = self.name.as_str();
        match &self.passing {
            DartFFIValuePassing::List(value) => {
                let (callee, args) = match value {
                    DartFFIParamValue::Primitive(DartFFIPrimitiveType::Bool) => (cat2(w, ".writeBytes"), cat2(n, "._bytes, 0")),
                    DartFFIParamValue::Primitive(_) => (cat2(w, ".writeBytes"), cat2(n, ", 0")),
                    DartFFIParamValue::Record(record) => (cat2(record.as_str(), "._m$blittableWriteList"), cat3(n, ", ", w)),
                };
                cat4(callee.as_str(), "(", args.as_str(), ");")
            },
            _ => String::new(),
        }
    }

    /// The byte length of an owned list parameter.
    pub fn list_bytes_len_expr(&self) -> (res: String)
        requires
            self.passing is List,
        ensures
            res@ == bytes_len(self.name@, Seq::empty(), DartFFIParamBytes::Array(self.passing->List_0)),
    {
        let n = self.name.as_str();
        match &self.passing {
            DartFFIValuePassing::List(value) => match value {
                DartFFIParamValue::Primitive(_) => cat2(n, ".lengthInBytes"),
                DartFFIParamValue::Record(record) => cat4(n, ".length * ", record.as_str(), "._k$structSize"),
            },
            _ => String::new(),
        }
    }

    /// The statement that copies a changed scalar list back from its native
    /// storage, for a parameter that has one.
    pub fn writeback_expr(&self) -> (res: Option<String>)
        ensures
            match self.writeback {
                None => res is None,
                Some(DartFunctionParamWriteBack::PrimitiveBytes(p)) => {
                    &&& res is Some
                    &&& res->0@ == (if p is Bool { self.name@ + "._bytes"@ } else { self.name@ })
                        + ".setRange(0, "@ + self.name@ + ".length, "@ + local_of(self.name@, "Storage"@)
                        + ".ptr.cast<"@ + primitive_native(p) + ">().asTypedList("@ + self.name@ + ".length));"@
                },
            },
    {
        match &self.writeback {
            None => None,
            Some(DartFunctionParamWriteBack::PrimitiveBytes(primitive)) => {
                let value_bytes = match primitive {
                    DartFFIPrimitiveType::Bool => cat2(self.name.as_str(), "._bytes"),
                    _ => self.name.clone(),
                };
                let storage = self.storage_name();
                let native = primitive.native_type();
                let head = cat4(value_bytes.as_str(), ".setRange(0, ", self.name.as_str(), ".length, ");
                let mid = cat4(head.as_str(), storage.as_str(), ".ptr.cast<", native.as_str());
                Some(cat4(mid.as_str(), ">().asTypedList(", self.name.as_str(), ".length));"))
            },
        }
    }

    /// The native arguments that pass the parameter.
    pub fn get_ffi_param(&self) -> (res: Vec<String>)
        requires
            ffi_param_ready(*self),
        ensures
            views(res@) == ffi_param_texts(*self),
    {
        let n = self.name.as_str();
        match &self.passing {
            DartFFIValuePassing::Value(DartFFIParamValue::Primitive(..)) => {
                if let DartType::Enum(_) = &self.ty {
                    one(cat2(n, ".value"))
                } else {
                    one(self.name.clone())
                }
            },
            DartFFIValuePassing::Value(DartFFIParamValue::Record(..)) => one(cat2(n, "._m$toStruct()")),
            DartFFIValuePassing::WireEncoded => {
                let storage = self.storage_name();
                let wire = self.wire_name();
                two(cat2(storage.as_str(), ".ptr"), cat2(wire.as_str(), ".len"))
            },
            DartFFIValuePassing::List(DartFFIParamValue::Primitive(primitive))
            | DartFFIValuePassing::Bytes(DartFFIParamBytes::Array(DartFFIParamValue::Primitive(primitive))) => {
                let storage = self.storage_name();
                let native = primitive.native_type();
                two(cat4(storage.as_str(), ".ptr.cast<", native.as_str(), ">()"), cat2(n, ".length"))
            },
            DartFFIValuePassing::List(DartFFIParamValue::Record(..)) => {
                let storage = self.storage_name();
                let writer = self.writer_name();
                two(cat2(storage.as_str(), ".ptr"), cat2(writer.as_str(), ".len"))
            },
            DartFFIValuePassing::Bytes(DartFFIParamBytes::Array(DartFFIParamValue::Record(_))) => {
                let storage = self.storage_name();
                two(cat2(storage.as_str(), ".ptr"), cat2(n, ".length"))
            },
            DartFFIValuePassing::Bytes(DartFFIParamBytes::Record(record)) => {
                let storage = self.storage_name();
                two(cat2(storage.as_str(), ".ptr.cast()"), cat2(record.as_str(), "._k$structSize"))
            },
            DartFFIValuePassing::Bytes(DartFFIParamBytes::UTF8) => {
                let storage = self.storage_name();
                let bytes_name = self.bytes_name();
                two(cat2(storage.as_str(), ".ptr"), cat2(bytes_name.as_str(), ".lengthInBytes"))
            },
            DartFFIValuePassing::Closure(..) => {
                let callable = self.callable_name();
                two(cat2(callable.as_str(), ".nativeFunction"), String::from_str("$$ffi.nullptr"))
            },
            DartFFIValuePassing::ClassHandle { .. } => one(cat2(n, "._handle")),
            DartFFIValuePassing::CallbackHandle { class, nullable } => {
                if *nullable {
                    let head = cat4("(", n, " == null) ? _k$BoltCallbackHandleNull : _I$", class.as_str());
                    one(cat4(head.as_str(), ".createCallbackHandle(", n, ")"))
                } else {
                    one(cat5("_I$", class.as_str(), ".createCallbackHandle(", n, ")"))
                }
            },
        }
    }
}


/// The native entry points of an async function: poll, complete, cancel
/// and free, and what complete returns.
#[derive(Debug, PartialEq, Eq)]
pub struct DartFFIAsyncFunctionDef {
    pub poll_symbol: String,
    pub complete_symbol: String,
    pub complete_ty: DartFFIType,
    pub cancel_symbol: String,
    pub free_symbol: String,
}

/// Whether a function completes at once or through its async entry points.
#[derive(Debug, PartialEq, Eq)]
pub enum DartFunctionMode {
    Sync,
    Async(Box<DartFFIAsyncFunctionDef>),
}

/// How a function's result crosses the boundary, if it has one.
#[derive(Debug, PartialEq, Eq)]
pub enum DartFFIReturnsPassing {
    Void,
    Passing(DartFFIValuePassing),
}

/// What a generated Dart function returns and how it arrives.
#[derive(Debug, PartialEq, Eq)]
pub struct DartFunctionReturns {
    pub ty: DartReturnType,
    pub passing: DartFFIReturnsPassing,
    pub read_seq: Option<ReadSeq>,
    pub write_seq: Option<WriteSeq>,
}

/// The expression that copies a returned span, read through `reader`
/// from buffer `buf`, into a Dart value.
pub open spec fn return_bytes_read(reader: Seq<char>, buf: Seq<char>, bytes: DartFFIParamBytes) -> Seq<char> {
    match bytes {
        DartFFIParamBytes::Array(DartFFIParamValue::Primitive(DartFFIPrimitiveType::Bool)) => {
            "$$BoltBoolList._m$fromUint8List("@ + reader + ".readUint8List("@ + buf + ".len, 0))"@
        },
        DartFFIParamBytes::Array(DartFFIParamValue::Primitive(p)) => {
            reader + ".read"@ + typed_kind(p) + "List("@ + buf + ".len, 0)"@
        },
        DartFFIParamBytes::Array(DartFFIParamValue::Record(r)) => {
            r@ + "._m$blittableReadList("@ + buf + ".len, "@ + reader + ")"@
        },
        DartFFIParamBytes::Record(r) => r@ + "._m$blittableRead("@ + reader + ")"@,
        DartFFIParamBytes::UTF8 => "$$convert.utf8.decode("@ + reader + ".readBytes("@ + buf + ".len, 0))"@,
    }
}

/// The expression that makes the bytes of returned value `v`: a typed
/// list of scalars or the UTF-8 of a string; records need none.
pub open spec fn return_bytes_create(v: Seq<char>, bytes: DartFFIParamBytes) -> Option<Seq<char>> {
    match bytes {
        DartFFIParamBytes::Array(DartFFIParamValue::Primitive(DartFFIPrimitiveType::Bool)) => {
            Some("$$BoltBoolList.fromList("@ + v + ")"@)
        },
        DartFFIParamBytes::Array(DartFFIParamValue::Primitive(p)) => {
            Some("$$typed_data."@ + typed_kind(p) + "List.fromList("@ + v + ")"@)
        },
        DartFFIParamBytes::UTF8 => Some("$$convert.utf8.encode("@ + v + ")"@),
        _ => None,
    }
}

/// Whether the first step of decoder `seq` is a `Result`.
pub open spec fn reads_result(seq: ReadSeq) -> bool {
    seq.ops@[0] is Result
}

impl DartFunctionReturns {
    /// The local that holds the result.
    pub fn res_name(&self) -> (res: &'static str)
        ensures
            res@ == "_l$res"@,
    {
        "_l$res"
    }

    /// The local that holds the result's native storage.
    pub fn storage_name(&self) -> (res: &'static str)
        ensures
            res@ == "_l$resStorage"@,
    {
        "_l$resStorage"
    }

    /// The local that holds the result's buffer.
    pub fn buf_name(&self) -> (res: &'static str)
        ensures
            res@ == "_l$resBuf"@,
    {
        "_l$resBuf"
    }

    /// The local that holds the result's bytes.
    pub fn bytes_name(&self) -> (res: &'static str)
        ensures
            res@ == "_l$resBytes"@,
    {
        "_l$resBytes"
    }

    /// The local that reads the result.
    pub fn reader_name(&self) -> (res: &'static str)
        ensures
            res@ == "_l$resReader"@,
    {
        "_l$resReader"
    }

    /// The local that writes the result.
    pub fn writer_name(&self) -> (res: &'static str)
        ensures
            res@ == "_l$resWriter"@,
    {
        "_l$resWriter"
    }

    /// The local that holds the result's wire encoding.
    pub fn wire_name(&self) -> (res: &'static str)
        ensures
            res@ == "_l$resWire"@,
    {
        "_l$resWire"
    }

    /// The encoded size of the result, written over its local.
    pub fn wire_size_expr(&self) -> (res: String)
        requires
            self.write_seq is Some,
        ensures
            res@ == size_text(self.write_seq->0.size, Some("_l$res"@)),
    {
        match &self.write_seq {
            Some(w) => emit_size_at(&w.size, Some(self.res_name())),
            None => String::new(),
        }
    }

    /// The statements that encode the result into its wire local.
    pub fn wire_encode_expr(&self) -> (res: String)
        requires
            self.write_seq is Some,
            writable(self.write_seq->0),
        ensures
            res@ == write_text(self.write_seq->0, "_l$resWire"@, "_l$res"@),
    {
        match &self.write_seq {
            Some(seq) => emit_writer_write(seq, self.wire_name(), self.res_name()),
            None => String::new(),
        }
    }

    /// The expression that decodes the result from its wire local.
    pub fn wire_decode_expr(&self) -> (res: String)
        requires
            self.read_seq is Some,
            readable(self.read_seq->0, inner_void(self.ty.inner)),
        ensures
            res@ == read_text(self.read_seq->0, "_l$resWire"@, inner_void(self.ty.inner)),
    {
        match &self.read_seq {
            Some(seq) => emit_reader_read(seq, self.wire_name(), self.ty.inner.is_inner_void()),
            None => String::new(),
        }
    }

    /// The expression that copies a returned span into a Dart value.
    pub fn bytes_read_expr(&self) -> (res: String)
        requires
            self.passing matches DartFFIReturnsPassing::Passing(DartFFIValuePassing::Bytes(_)),
        ensures
            res@ == return_bytes_read("_l$resReader"@, "_l$resBuf"@, self.passing->Passing_0->Bytes_0),
    {
        let reader = self.reader_name();
        let buf = self.buf_name();
        match &self.passing {
            DartFFIReturnsPassing::Passing(DartFFIValuePassing::Bytes(bytes)) => match bytes {
                DartFFIParamBytes::Array(DartFFIParamValue::Primitive(DartFFIPrimitiveType::Bool)) => {
                    cat5("$$BoltBoolList._m$fromUint8List(", reader, ".readUint8List(", buf, ".len, 0))")
                },
                DartFFIParamBytes::Array(DartFFIParamValue::Primitive(p)) => {
                    let head = cat4(reader, ".read", typed_kind_str(*p), "List(");
                    cat3(head.as_str(), buf, ".len, 0)")
                },
                DartFFIParamBytes::Array(DartFFIParamValue::Record(record)) => {
                    cat5(record.as_str(), "._m$blittableReadList(", buf, ".len, ", cat2(reader, ")").as_str())
                },
                DartFFIParamBytes::Record(record) => cat4(record.as_str(), "._m$blittableRead(", reader, ")"),
                DartFFIParamBytes::UTF8 => cat5("$$convert.utf8.decode(", reader, ".readBytes(", buf, ".len, 0))"),
            },
            _ => String::new(),
        }
    }

    /// The expression that makes the bytes of the result, where it needs one.
    pub fn bytes_create_expr(&self) -> (res: Option<String>)
        requires
            self.passing matches DartFFIReturnsPassing::Passing(DartFFIValuePassing::Bytes(_)),
        ensures
            match res {
                Some(s) => return_bytes_create("_l$res"@, self.passing->Passing_0->Bytes_0) == Some(s@),
                None => return_bytes_create("_l$res"@, self.passing->Passing_0->Bytes_0) is None,
            },
    {
        let v = self.res_name();
        match &self.passing {
            DartFFIReturnsPassing::Passing(DartFFIValuePassing::Bytes(bytes)) => match bytes {
                DartFFIParamBytes::Array(DartFFIParamValue::Primitive(DartFFIPrimitiveType::Bool)) => {
                    Some(cat3("$$BoltBoolList.fromList(", v, ")"))
                },
                DartFFIParamBytes::Array(DartFFIParamValue::Primitive(p)) => {
                    Some(cat5("$$typed_data.", typed_kind_str(*p), "List.fromList(", v, ")"))
                },
                DartFFIParamBytes::UTF8 => Some(cat3("$$convert.utf8.encode(", v, ")")),
                _ => None,
            },
            _ => None,
        }
    }

    /// The call that copies the result into its native span.
    pub fn bytes_write_expr(&self) -> (res: String)
        requires
            self.passing matches DartFFIReturnsPassing::Passing(DartFFIValuePassing::Bytes(_)),
        ensures
            res@ == write_callee("_l$resWriter"@, self.passing->Passing_0->Bytes_0) + "("@
                + write_args("_l$res"@, "_l$resWriter"@, "_l$resBytes"@, self.passing->Passing_0->Bytes_0) + ")"@,
    {
        match &self.passing {
            DartFFIReturnsPassing::Passing(DartFFIValuePassing::Bytes(bytes)) => {
                let write = emit_write_callee(self.writer_name(), bytes);
                let args = emit_write_args(self.res_name(), self.writer_name(), self.bytes_name(), bytes);
                cat4(write.as_str(), "(", args.as_str(), ")")
            },
            _ => String::new(),
        }
    }

    /// The byte length of the result's span.
    pub fn bytes_len_expr(&self) -> (res: String)
        requires
            self.passing matches DartFFIReturnsPassing::Passing(DartFFIValuePassing::Bytes(_)),
        ensures
            res@ == bytes_len("_l$res"@, "_l$resBytes"@, self.passing->Passing_0->Bytes_0),
    {
        match &self.passing {
            DartFFIReturnsPassing::Passing(DartFFIValuePassing::Bytes(bytes)) => {
                emit_bytes_len(self.res_name(), self.bytes_name(), bytes)
            },
            _ => String::new(),
        }
    }

    /// The struct of a record result.
    pub fn value_write_expr(&self) -> (res: String)
        requires
            self.passing matches DartFFIReturnsPassing::Passing(DartFFIValuePassing::Value(DartFFIParamValue::Record(_))),
        ensures
            res@ == "_l$res._m$toStruct()"@,
    {
        proof {
            reveal_strlit("_l$res._m$toStruct()");
            reveal_strlit("_l$res");
            reveal_strlit("._m$toStruct()");
        }
        cat2(self.res_name(), "._m$toStruct()")
    }

    /// The record read back from its struct.
    pub fn value_read_expr(&self) -> (res: String)
        requires
            self.passing matches DartFFIReturnsPassing::Passing(DartFFIValuePassing::Value(DartFFIParamValue::Record(_))),
        ensures
            res@ == self.passing->Passing_0->Value_0->Record_0@ + "._m$fromStruct(_l$resReader)"@,
    {
        proof {
            reveal_strlit("._m$fromStruct(_l$resReader)");
            reveal_strlit("._m$fromStruct(");
            reveal_strlit("_l$resReader");
            reveal_strlit(")");
        }
        match &self.passing {
            DartFFIReturnsPassing::Passing(DartFFIValuePassing::Value(DartFFIParamValue::Record(record))) => {
                cat4(record.as_str(), "._m$fromStruct(", self.reader_name(), ")")
            },
            _ => String::new(),
        }
    }

    /// Whether the call can fail: its decoder reads a `Result` first, or,
    /// without a decoder, it returns a nullable class handle.
    pub fn is_fallible(&self) -> (res: bool)
        requires
            self.read_seq matches Some(seq) ==> seq.ops@.len() > 0,
        ensures
            res == match self.read_seq {
                Some(seq) => reads_result(seq),
                None => self.passing matches DartFFIReturnsPassing::Passing(DartFFIValuePassing::ClassHandle { nullable: true, .. }),
            },
    {
        if let Some(seq) = &self.read_seq {
            let read_op = &seq.ops[0];
            matches!(read_op, ReadOp::Result { .. })
        } else {
            matches!(self.passing, DartFFIReturnsPassing::Passing(DartFFIValuePassing::ClassHandle { nullable: true, .. }))
        }
    }
}

/// Who a method or constructor belongs to.
#[derive(Debug, Clone, PartialEq, Eq)]
pub enum DartFunctionCallOwner {
    Class(ClassId),
    Record(RecordId),
    Enum(EnumId),
}

/// The name of an owner.
pub open spec fn owner_name(o: DartFunctionCallOwner) -> Seq<char> {
    match o {
        DartFunctionCallOwner::Class(s) | DartFunctionCallOwner::Record(s) | DartFunctionCallOwner::Enum(s) => s@,
    }
}

impl DartFunctionCallOwner {
    /// The owner's name.
    pub fn name(&self) -> (res: &str)
        ensures
            res@ == owner_name(*self),
    {
        match self {
            DartFunctionCallOwner::Class(s) => s.as_str(),
            DartFunctionCallOwner::Record(s) => s.as_str(),
            DartFunctionCallOwner::Enum(s) => s.as_str(),
        }
    }
}

/// A default or a named constructor.
#[derive(Debug, Clone, PartialEq, Eq)]
pub enum DartConstructorKind {
    Default,
    Named { name: String },
}

/// What kind of Dart function is generated.
#[derive(Debug, PartialEq, Eq)]
pub enum DartFunctionType {
    TopLevel { name: String },
    Method { name: String, receiver: DartMethodReceiver, owner: DartFunctionCallOwner },
    Constructor { kind: DartConstructorKind, owner: DartFunctionCallOwner, is_fallible: bool, is_optional: bool },
}

/// Whether a method is static or how its receiver crosses the boundary.
#[derive(Debug, PartialEq, Eq)]
pub enum DartMethodReceiver {
    Static,
    ReceiverPassing(DartFFIValuePassing),
}

/// The native function behind a Dart function.
#[derive(Debug, PartialEq, Eq)]
pub struct DartFFIFunctionDef {
    pub sig: DartFFIFunctionSig,
    pub symbol: String,
    pub is_leaf: bool,
}

/// A generated Dart function, method or constructor.
#[derive(Debug, PartialEq, Eq)]
pub struct DartFunction {
    pub mode: DartFunctionMode,
    pub ty: DartFunctionType,
    pub ffi_def: DartFFIFunctionDef,
    pub sig: crate::dart::api_type::DartFunctionSig,
    pub params: Vec<DartFunctionParam>,
    pub returns: DartFunctionReturns,
    pub doc: Option<String>,
}

/// Whether a function is a method whose receiver is wire-encoded and that
/// belongs to a record or an enum.
pub open spec fn encodes_self(f: DartFunction) -> bool {
    &&& f.ty matches DartFunctionType::Method { receiver, owner, .. }
    &&& receiver matches DartMethodReceiver::ReceiverPassing(DartFFIValuePassing::WireEncoded)
    &&& !(owner is Class)
}

/// Whether the receiver of a function can be passed natively: a scalar
/// receiver belongs to an enum, and no receiver is a list, span, closure
/// or callback.
pub open spec fn receiver_ready(f: DartFunction) -> bool {
    f.ty matches DartFunctionType::Method { receiver: DartMethodReceiver::ReceiverPassing(p), owner, .. } ==> {
        &&& (p matches DartFFIValuePassing::Value(DartFFIParamValue::Primitive(_)) ==> owner is Enum)
        &&& !(p is List || p is Bytes || p is Closure || p is CallbackHandle)
    }
}

/// The native arguments that pass the receiver of a function.
pub open spec fn receiver_texts(f: DartFunction) -> Seq<Seq<char>> {
    match f.ty {
        DartFunctionType::Method { receiver: DartMethodReceiver::ReceiverPassing(p), .. } => match p {
            DartFFIValuePassing::Value(DartFFIParamValue::Primitive(_)) => seq!["this.value"@],
            DartFFIValuePassing::Value(DartFFIParamValue::Record(_)) => seq!["_m$toStruct()"@],
            DartFFIValuePassing::WireEncoded => seq!["l$$selfStorage.ptr"@, "l$$selfWire.len"@],
            DartFFIValuePassing::ClassHandle { .. } => seq!["_handle"@],
            _ => Seq::empty(),
        },
        _ => Seq::empty(),
    }
}

/// The native arguments of parameters `ps`, in order.
pub open spec fn params_texts(ps: Seq<DartFunctionParam>) -> Seq<Seq<char>>
    decreases ps.len(),
{
    if ps.len() == 0 {
        Seq::empty()
    } else {
        params_texts(ps.drop_last()) + ffi_param_texts(ps.last())
    }
}

impl DartFunction {
    /// Whether the function is async.
    pub fn is_async(&self) -> (res: bool)
        ensures
            res == self.mode is Async,
    {
        matches!(self.mode, DartFunctionMode::Async { .. })
    }

    /// Whether the function can fail: a constructor says so itself; other
    /// functions can when they return a `Result`.
    pub fn is_fallible(&self) -> (res: bool)
        ensures
            res == match self.ty {
                DartFunctionType::Constructor { is_fallible, .. } => is_fallible,
                _ => self.returns.ty.inner is Result,
            },
    {
        match &self.ty {
            DartFunctionType::TopLevel { .. } | DartFunctionType::Method { .. } => {
                matches!(self.returns.ty.inner, DartType::Result { .. })
            },
            DartFunctionType::Constructor { is_fallible, .. } => *is_fallible,
        }
    }

    /// The local that holds the receiver's native storage.
    pub fn self_storage_name(&self) -> (res: String)
        ensures
            res@ == "l$$selfStorage"@,
    {
        String::from_str("l$$selfStorage")
    }

    /// The local that holds the receiver's wire encoding.
    pub fn self_wire_name(&self) -> (res: String)
        ensures
            res@ == "l$$selfWire"@,
    {
        String::from_str("l$$selfWire")
    }

    /// The receiver's encoded size, for a method that wire-encodes a
    /// record or enum receiver.
    pub fn self_wire_size(&self) -> (res: Option<String>)
        ensures
            match res {
                Some(s) => encodes_self(*self) && s@ == "_m$wireEncodedSize()"@,
                None => !encodes_self(*self),
            },
    {
        match &self.ty {
            DartFunctionType::Method { receiver: DartMethodReceiver::ReceiverPassing(DartFFIValuePassing::WireEncoded), owner, .. } => {
                match owner {
                    DartFunctionCallOwner::Class(..) => None,
                    _ => Some(String::from_str("_m$wireEncodedSize()")),
                }
            },
            _ => None,
        }
    }

    /// The statement that encodes the receiver, for a method that
    /// wire-encodes a record or enum receiver.
    pub fn self_wire_encode_expr(&self) -> (res: Option<String>)
        ensures
            match res {
                Some(s) => encodes_self(*self) && s@ == "_m$wireEncode(l$$selfWire);"@,
                None => !encodes_self(*self),
            },
    {
        match &self.ty {
            DartFunctionType::Method { receiver: DartMethodReceiver::ReceiverPassing(DartFFIValuePassing::WireEncoded), owner, .. } => {
                match owner {
                    DartFunctionCallOwner::Class(..) => None,
                    _ => {
                        let wire = self.self_wire_name();
                        proof {
                            reveal_strlit("_m$wireEncode(l$$selfWire);");
                            reveal_strlit("_m$wireEncode(");
                            reveal_strlit("l$$selfWire");
                            reveal_strlit(");");
                        }
                        Some(cat3("_m$wireEncode(", wire.as_str(), ");"))
                    },
                }
            },
            _ => None,
        }
    }

    /// The native arguments of a call: the receiver's, then each
    /// parameter's in order.
    pub fn get_ffi_params(&self) -> (res: Vec<String>)
        requires
            receiver_ready(*self),
            forall|i: int| 0 <= i < self.params@.len() ==> ffi_param_ready(#[trigger] self.params@[i]),
        ensures
            views(res@) == receiver_texts(*self) + params_texts(self.params@),
    {
        let mut out: Vec<String> = match &self.ty {
            DartFunctionType::Method { receiver: DartMethodReceiver::ReceiverPassing(recv_passing), .. } => match recv_passing {
                DartFFIValuePassing::Value(DartFFIParamValue::Primitive(..)) => one(String::from_str("this.value")),
                DartFFIValuePassing::Value(DartFFIParamValue::Record(..)) => one(String::from_str("_m$toStruct()")),
                DartFFIValuePassing::WireEncoded => {
                    two(String::from_str("l$$selfStorage.ptr"), String::from_str("l$$selfWire.len"))
                },
                DartFFIValuePassing::ClassHandle { .. } => one(String::from_str("_handle")),
                _ => Vec::new(),
            },
            _ => Vec::new(),
        };
        proof {
            assert(views(out@) =~= receiver_texts(*self));
        }
        let ghost head = views(out@);
        let mut i: usize = 0;
        while i < self.params.len()
            invariant
                i <= self.params@.len(),
                forall|j: int| 0 <= j < self.params@.len() ==> ffi_param_ready(#[trigger] self.params@[j]),
                views(out@) == head + params_texts(self.params@.take(i as int)),
            decreases self.params.len() - i,
        {
            let mut more = self.params[i].get_ffi_param();
            let ghost before = views(out@);
            let ghost out_before = out@;
            let ghost more_before = more@;
            out.append(&mut more);
            proof {
                assert(out@ =~= out_before + more_before);
                assert(views(out@) =~= views(out_before) + views(more_before));
                let taken = self.params@.take(i + 1);
                assert(taken.drop_last() =~= self.params@.take(i as int));
                assert(taken.last() == self.params@[i as int]);
                assert(views(out@) =~= before + ffi_param_texts(self.params@[i as int]));
                assert(views(out@) =~= head + params_texts(taken));
            }
            i += 1;
        }
        proof {
            assert(self.params@.take(self.params@.len() as int) =~= self.params@);
        }
        out
    }
}


/// The native arguments of the parameters are each parameter's native
/// arguments, concatenated in order; so `get_ffi_params` gives the
/// receiver's arguments followed by this concatenation.
pub proof fn law_ffi_params_concatenate(ps: Seq<DartFunctionParam>)
    ensures
        params_texts(ps) == ps.map_values(|p: DartFunctionParam| ffi_param_texts(p)).flatten(),
    decreases ps.len(),
{
    let m = ps.map_values(|p: DartFunctionParam| ffi_param_texts(p));
    m.lemma_flatten_and_flatten_alt_are_equivalent();
    if ps.len() > 0 {
        law_ffi_params_concatenate(ps.drop_last());
        let m2 = ps.drop_last().map_values(|p: DartFunctionParam| ffi_param_texts(p));
        m2.lemma_flatten_and_flatten_alt_are_equivalent();
        assert(m.drop_last() =~= m2);
        assert(m.last() == ffi_param_texts(ps.last()));
    }
}

/// The locals that a generated function keeps for one parameter are
/// distinct: buffer, wire encoding, reader, writer, storage, bytes and
/// callable never share a name.
pub proof fn law_param_locals_distinct(name: Seq<char>)
    ensures
        ({
            let names = seq![
                local_of(name, "Buf"@),
                local_of(name, "Wire"@),
                local_of(name, "Reader"@),
                local_of(name, "Writer"@),
                local_of(name, "Storage"@),
                local_of(name, "Bytes"@),
                local_of(name, "Callable"@)
            ];
            forall|i: int, j: int| 0 <= i < j < 7 ==> names[i] != names[j]
        }),
{
    reveal_strlit("l$");
    reveal_strlit("Buf");
    reveal_strlit("Wire");
    reveal_strlit("Reader");
    reveal_strlit("Writer");
    reveal_strlit("Storage");
    reveal_strlit("Bytes");
    reveal_strlit("Callable");
    let n = name.len() + 2;
    let names = seq![
        local_of(name, "Buf"@),
        local_of(name, "Wire"@),
        local_of(name, "Reader"@),
        local_of(name, "Writer"@),
        local_of(name, "Storage"@),
        local_of(name, "Bytes"@),
        local_of(name, "Callable"@)
    ];
    assert(names[2][n as int] == 'R');
    assert(names[3][n as int] == 'W');
    assert forall|i: int, j: int| 0 <= i < j < 7 implies names[i] != names[j] by {
        if i == 2 && j == 3 {
            assert(names[i][n as int] != names[j][n as int]);
        } else {
            assert(names[i].len() != names[j].len());
        }
    }
}

} // verus!
