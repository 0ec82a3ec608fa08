//! Dart source text for values, types, wire codecs and sizes.
use vstd::prelude::*;
use crate::ir::{copy_size, copy_type, copy_value, same_size, BuiltinId, EnumLayout, PrimitiveType, ReadOp, ReadSeq, ReturnDef, SizeExpr, TypeExpr, ValueExpr, VecLayout, WireSizeOwner, WriteOp, WriteSeq};
use crate::text::decimal;
use crate::dart::api_type::{dart_name, dart_of_primitive, hashable, DartType};
use crate::dart::types::{ffi_native, ffi_primitive_of, ffi_sub, ffi_type_of, primitive_native, primitive_sub};
use crate::dart::naming::{upper_camel, NamingConvention};
use crate::text::{join, str_eq, views};

verus! {

/// The files of a generated Dart package.
pub struct DartPackage {
    pub pubspec: String,
    pub lib: String,
    pub build: String,
}

/// Assembles a Dart package from its rendered parts.
pub struct DartEmitter {}

/// The rendered declarations of a Dart library, by kind: the prelude, the
/// custom types, each record, enum, callback and class, and for each
/// function its native binding and its callable wrapper.
pub struct DartSections {
    pub prelude: String,
    pub custom_types: String,
    pub records: Vec<String>,
    pub enums: Vec<String>,
    pub callbacks: Vec<String>,
    pub classes: Vec<String>,
    pub functions: Vec<(String, String)>,
}

/// The sections of the functions, each function's binding before its
/// wrapper.
pub open spec fn function_sections(fs: Seq<(String, String)>) -> Seq<Seq<char>>
    decreases fs.len(),
{
    if fs.len() == 0 {
        Seq::empty()
    } else {
        function_sections(fs.drop_last()) + seq![fs.last().0@, fs.last().1@]
    }
}

/// The sections of a library in the order of the generated file: prelude,
/// custom types, records, enums, callbacks, classes, functions.
pub open spec fn library_sections(s: DartSections) -> Seq<Seq<char>> {
    seq![s.prelude@, s.custom_types@] + views(s.records@) + views(s.enums@) + views(s.callbacks@) + views(
        s.classes@,
    ) + function_sections(s.functions@)
}

fn push_all(all: &mut Vec<String>, items: &Vec<String>)
    ensures
        views(final(all)@) == views(old(all)@) + views(items@),
{
    let mut i: usize = 0;
    while i < items.len()
        invariant
            i <= items@.len(),
            views(all@) == views(old(all)@) + views(items@.take(i as int)),
        decreases items.len() - i,
    {
        let ghost prev = all@;
        all.push(items[i].clone());
        proof {
            assert(views(all@) =~= views(prev).push(items@[i as int]@));
            assert(views(items@.take(i + 1)) =~= views(items@.take(i as int)).push(items@[i as int]@));
        }
        i += 1;
        assert(views(all@) =~= views(old(all)@) + views(items@.take(i as int)));
    }
    assert(items@.take(items@.len() as int) =~= items@);
}

impl DartEmitter {
    /// The package whose library is the rendered `sections` in file order,
    /// separated by a newline, with the given pubspec and build hook.
    pub fn emit(sections: &DartSections, pubspec: String, build: String) -> (res: DartPackage)
        ensures
            res.lib@ == join(library_sections(*sections), "\n"@),
            res.pubspec@ == pubspec@,
            res.build@ == build@,
    {
        let mut all: Vec<String> = Vec::new();
        all.push(sections.prelude.clone());
        all.push(sections.custom_types.clone());
        assert(views(all@) =~= seq![sections.prelude@, sections.custom_types@]);
        push_all(&mut all, &sections.records);
        push_all(&mut all, &sections.enums);
        push_all(&mut all, &sections.callbacks);
        push_all(&mut all, &sections.classes);
        let ghost head = views(all@);
        let mut i: usize = 0;
        while i < sections.functions.len()
            invariant
                i <= sections.functions@.len(),
                views(all@) == head + function_sections(sections.functions@.take(i as int)),
            decreases sections.functions.len() - i,
        {
            let (binding, callable) = &sections.functions[i];
            let ghost prev = all@;
            all.push(binding.clone());
            all.push(callable.clone());
            proof {
                assert(views(all@) =~= views(prev) + seq![binding@, callable@]);
                let t = sections.functions@.take(i + 1);
                assert(t.drop_last() =~= sections.functions@.take(i as int));
                assert(t.last() == sections.functions@[i as int]);
            }
            i += 1;
            assert(views(all@) =~= head + function_sections(sections.functions@.take(i as int)));
        }
        assert(sections.functions@.take(sections.functions@.len() as int) =~= sections.functions@);
        assert(views(all@) =~= library_sections(*sections));
        let lib = crate::text::join_strings(&all, "\n");
        DartPackage { pubspec, lib, build }
    }
}

/// The Dart value type of a Rust scalar.
pub open spec fn primitive_dart_of(p: PrimitiveType) -> Seq<char> {
    match p {
        PrimitiveType::Bool => "bool"@,
        PrimitiveType::F32 | PrimitiveType::F64 => "double"@,
        _ => "int"@,
    }
}

/// The `dart:ffi` native type of a Rust scalar.
pub open spec fn primitive_native_of(p: PrimitiveType) -> Seq<char> {
    match p {
        PrimitiveType::Bool => "$$ffi.Bool"@,
        PrimitiveType::I8 => "$$ffi.Int8"@,
        PrimitiveType::I16 => "$$ffi.Int16"@,
        PrimitiveType::I32 => "$$ffi.Int32"@,
        PrimitiveType::I64 => "$$ffi.Int64"@,
        PrimitiveType::U8 => "$$ffi.Uint8"@,
        PrimitiveType::U16 => "$$ffi.Uint16"@,
        PrimitiveType::U32 => "$$ffi.Uint32"@,
        PrimitiveType::U64 => "$$ffi.Uint64"@,
        PrimitiveType::ISize => "$$ffi.IntPtr"@,
        PrimitiveType::USize => "$$ffi.UintPtr"@,
        PrimitiveType::F32 => "$$ffi.Float"@,
        PrimitiveType::F64 => "$$ffi.Double"@,
    }
}

/// The Dart value type of a Rust scalar.
pub fn primitive_dart_type(primitive: PrimitiveType) -> (res: String)
    ensures
        res@ == primitive_dart_of(primitive),
{
    match primitive {
        PrimitiveType::Bool => String::from_str("bool"),
        PrimitiveType::F32 | PrimitiveType::F64 => String::from_str("double"),
        _ => String::from_str("int"),
    }
}

/// The `dart:ffi` native type of a Rust scalar.
pub fn primitive_native_type(primitive: PrimitiveType) -> (res: &'static str)
    ensures
        res@ == primitive_native_of(primitive),
{
    match primitive {
        PrimitiveType::Bool => "$$ffi.Bool",
        PrimitiveType::I8 => "$$ffi.Int8",
        PrimitiveType::I16 => "$$ffi.Int16",
        PrimitiveType::I32 => "$$ffi.Int32",
        PrimitiveType::I64 => "$$ffi.Int64",
        PrimitiveType::U8 => "$$ffi.Uint8",
        PrimitiveType::U16 => "$$ffi.Uint16",
        PrimitiveType::U32 => "$$ffi.Uint32",
        PrimitiveType::U64 => "$$ffi.Uint64",
        PrimitiveType::ISize => "$$ffi.IntPtr",
        PrimitiveType::USize => "$$ffi.UintPtr",
        PrimitiveType::F32 => "$$ffi.Float",
        PrimitiveType::F64 => "$$ffi.Double",
    }
}

/// The Dart name of a named type of the Rust API.
fn render_type_name(name: &str) -> (res: String)
    ensures
        res@ == upper_camel(name@),
{
    NamingConvention::class_name(name)
}

/// The Dart text of a value expression: nothing for the instance itself,
/// and `parent.field` for a field of a value that has text.
pub open spec fn value_text(v: ValueExpr) -> Seq<char>
    decreases v,
{
    match v {
        ValueExpr::Instance => Seq::empty(),
        ValueExpr::Var(n) | ValueExpr::Named(n) => n@,
        ValueExpr::Field(parent, field) => {
            if value_text(*parent).len() == 0 {
                field@
            } else {
                value_text(*parent) + "."@ + field@
            }
        },
    }
}

/// The Dart text of a value expression.
pub fn render_value(expr: &ValueExpr) -> (res: String)
    ensures
        res@ == value_text(*expr),
    decreases expr,
{
    match expr {
        ValueExpr::Instance => String::new(),
        ValueExpr::Var(name) => name.clone(),
        ValueExpr::Named(name) => name.clone(),
        ValueExpr::Field(parent, field) => {
            let parent_str = render_value(parent);
            if parent_str.as_str().is_empty() {
                field.clone()
            } else {
                crate::text::cat3(parent_str.as_str(), ".", field.as_str())
            }
        },
    }
}

/// The typed-data list that holds a vector of a Rust scalar.
pub open spec fn primitive_list_of(p: PrimitiveType) -> Seq<char> {
    match p {
        PrimitiveType::I32 => "$$typed_data.Int32List"@,
        PrimitiveType::U32 => "$$typed_data.Uint32List"@,
        PrimitiveType::I16 => "$$typed_data.Int16List"@,
        PrimitiveType::U16 => "$$typed_data.Uint16List"@,
        PrimitiveType::I64 | PrimitiveType::ISize => "$$typed_data.Int64List"@,
        PrimitiveType::U64 | PrimitiveType::USize => "$$typed_data.Uint64List"@,
        PrimitiveType::F32 => "$$typed_data.Float32List"@,
        PrimitiveType::F64 => "$$typed_data.Float64List"@,
        PrimitiveType::U8 => "$$typed_data.Uint8List"@,
        PrimitiveType::I8 => "$$typed_data.Int8List"@,
        PrimitiveType::Bool => "$$BoltFFIBoolList"@,
    }
}

/// The Dart type that a builtin Rust type is written as; an unknown
/// builtin is written as a string.
pub open spec fn builtin_text(id: Seq<char>) -> Seq<char> {
    if id == "Duration"@ {
        "Duration"@
    } else if id == "SystemTime"@ {
        "Datetime"@
    } else if id == "Url"@ {
        "Uri"@
    } else {
        "String"@
    }
}

/// The Dart type that the Rust type `t` is written as. A `String` error
/// of a `Result` is written as `$$BoltException`.
pub open spec fn type_text(t: TypeExpr) -> Seq<char>
    decreases t,
{
    match t {
        TypeExpr::Primitive(p) => primitive_dart_of(p),
        TypeExpr::String | TypeExpr::Str => "String"@,
        TypeExpr::Vec(inner) => match *inner {
            TypeExpr::Primitive(p) => primitive_list_of(p),
            _ => "List<"@ + type_text(*inner) + ">"@,
        },
        TypeExpr::Option(inner) => type_text(*inner) + "?"@,
        TypeExpr::Result { ok, err } => {
            "$$BoltResult<"@ + type_text(*ok) + ", "@
                + (if *err is String { "$$BoltException"@ } else { type_text(*err) }) + ">"@
        },
        TypeExpr::Record(id) | TypeExpr::Enum(id) | TypeExpr::Custom(id) | TypeExpr::Handle(id)
        | TypeExpr::Callback(id) => upper_camel(id@),
        TypeExpr::Builtin(id) => builtin_text(id@),
        TypeExpr::Void => "void"@,
    }
}

fn primitive_list(p: PrimitiveType) -> (res: String)
    ensures
        res@ == primitive_list_of(p),
{
    match p {
        PrimitiveType::I32 => String::from_str("$$typed_data.Int32List"),
        PrimitiveType::U32 => String::from_str("$$typed_data.Uint32List"),
        PrimitiveType::I16 => String::from_str("$$typed_data.Int16List"),
        PrimitiveType::U16 => String::from_str("$$typed_data.Uint16List"),
        PrimitiveType::I64 | PrimitiveType::ISize => String::from_str("$$typed_data.Int64List"),
        PrimitiveType::U64 | PrimitiveType::USize => String::from_str("$$typed_data.Uint64List"),
        PrimitiveType::F32 => String::from_str("$$typed_data.Float32List"),
        PrimitiveType::F64 => String::from_str("$$typed_data.Float64List"),
        PrimitiveType::U8 => String::from_str("$$typed_data.Uint8List"),
        PrimitiveType::I8 => String::from_str("$$typed_data.Int8List"),
        PrimitiveType::Bool => String::from_str("$$BoltFFIBoolList"),
    }
}

fn builtin_type(id: &str) -> (res: String)
    ensures
        res@ == builtin_text(id@),
{
    proof {
        reveal_strlit("Duration");
        reveal_strlit("SystemTime");
        reveal_strlit("Url");
    }
    if str_eq(id, "Duration") {
        String::from_str("Duration")
    } else if str_eq(id, "SystemTime") {
        String::from_str("Datetime")
    } else if str_eq(id, "Url") {
        String::from_str("Uri")
    } else {
        String::from_str("String")
    }
}

/// The Dart type that a Rust type is written as.
pub fn type_expr_dart_type(ty: &TypeExpr) -> (res: String)
    ensures
        res@ == type_text(*ty),
    decreases ty,
{
    match ty {
        TypeExpr::Primitive(p) => primitive_dart_type(*p),
        TypeExpr::String | TypeExpr::Str => String::from_str("String"),
        TypeExpr::Vec(inner) => match &**inner {
            TypeExpr::Primitive(primitive) => primitive_list(*primitive),
            _ => {
                let i = type_expr_dart_type(inner);
                crate::text::cat3("List<", i.as_str(), ">")
            },
        },
        TypeExpr::Option(inner) => {
            let i = type_expr_dart_type(inner);
            crate::text::cat2(i.as_str(), "?")
        },
        TypeExpr::Result { ok, err } => {
            let o = type_expr_dart_type(ok);
            let e = match &**err {
                TypeExpr::String => String::from_str("$$BoltException"),
                _ => type_expr_dart_type(err),
            };
            crate::text::cat5("$$BoltResult<", o.as_str(), ", ", e.as_str(), ">")
        },
        TypeExpr::Record(id) => render_type_name(id.as_str()),
        TypeExpr::Enum(id) => render_type_name(id.as_str()),
        TypeExpr::Custom(id) => render_type_name(id.as_str()),
        TypeExpr::Builtin(id) => builtin_type(id.as_str()),
        TypeExpr::Handle(class_id) => render_type_name(class_id.as_str()),
        TypeExpr::Callback(callback_id) => render_type_name(callback_id.as_str()),
        TypeExpr::Void => String::from_str("void"),
    }
}

/// The Dart type of what a callable returns. Unlike a `Result` type
/// written elsewhere, the error type is written as it is.
pub open spec fn return_text(r: ReturnDef) -> Seq<char> {
    match r {
        ReturnDef::Void => "void"@,
        ReturnDef::Value(t) => type_text(t),
        ReturnDef::Result { ok, err } => "$$BoltResult<"@ + type_text(ok) + ", "@ + type_text(err) + ">"@,
    }
}

/// The Dart type of what a callable returns.
pub fn return_def_dart_type(return_def: &ReturnDef) -> (res: String)
    ensures
        res@ == return_text(*return_def),
{
    match return_def {
        ReturnDef::Void => String::from_str("void"),
        ReturnDef::Value(type_expr) => type_expr_dart_type(type_expr),
        ReturnDef::Result { ok, err } => {
            let o = type_expr_dart_type(ok);
            let e = type_expr_dart_type(err);
            crate::text::cat5("$$BoltResult<", o.as_str(), ", ", e.as_str(), ">")
        },
    }
}

/// A scalar value as a number: a `bool` becomes `1` or `0`.
pub open spec fn as_num_text(p: PrimitiveType, value: Seq<char>) -> Seq<char> {
    if p is Bool {
        "("@ + value + " ? 1 : 0)"@
    } else {
        value
    }
}

/// A number as a scalar value: a `bool` is whether it is `1`.
pub open spec fn num_as_text(p: PrimitiveType, value: Seq<char>) -> Seq<char> {
    if p is Bool {
        "("@ + value + " == 1)"@
    } else {
        value
    }
}

/// A scalar value as a number.
pub fn primitive_as_num(primitive: PrimitiveType, value: &str) -> (res: String)
    ensures
        res@ == as_num_text(primitive, value@),
{
    match primitive {
        PrimitiveType::Bool => crate::text::cat3("(", value, " ? 1 : 0)"),
        _ => crate::text::owned(value),
    }
}

/// A number as a scalar value.
pub fn num_as_primitive(primitive: PrimitiveType, value: &str) -> (res: String)
    ensures
        res@ == num_as_text(primitive, value@),
{
    match primitive {
        PrimitiveType::Bool => crate::text::cat3("(", value, " == 1)"),
        _ => crate::text::owned(value),
    }
}

/// The `ByteData` setter of a scalar.
pub open spec fn blittable_write_of(p: PrimitiveType) -> Seq<char> {
    match p {
        PrimitiveType::I8 => "setInt8"@,
        PrimitiveType::Bool | PrimitiveType::U8 => "setUint8"@,
        PrimitiveType::I16 => "setInt16"@,
        PrimitiveType::U16 => "setUint16"@,
        PrimitiveType::I32 => "setInt32"@,
        PrimitiveType::U32 => "setUint32"@,
        PrimitiveType::I64 | PrimitiveType::ISize => "setInt64"@,
        PrimitiveType::U64 | PrimitiveType::USize => "setUint64"@,
        PrimitiveType::F32 => "setFloat32"@,
        PrimitiveType::F64 => "setFloat64"@,
    }
}

/// The `ByteData` getter of a scalar.
pub open spec fn blittable_read_of(p: PrimitiveType) -> Seq<char> {
    match p {
        PrimitiveType::I8 => "getInt8"@,
        PrimitiveType::Bool | PrimitiveType::U8 => "getUint8"@,
        PrimitiveType::I16 => "getInt16"@,
        PrimitiveType::U16 => "getUint16"@,
        PrimitiveType::I32 => "getInt32"@,
        PrimitiveType::U32 => "getUint32"@,
        PrimitiveType::I64 | PrimitiveType::ISize => "getInt64"@,
        PrimitiveType::U64 | PrimitiveType::USize => "getUint64"@,
        PrimitiveType::F32 => "getFloat32"@,
        PrimitiveType::F64 => "getFloat64"@,
    }
}

/// The byte-order argument of a scalar access: none for one-byte scalars.
pub open spec fn endian_suffix(p: PrimitiveType) -> Seq<char> {
    if p is U8 || p is I8 || p is Bool {
        Seq::empty()
    } else {
        ", $$typed_data.Endian.little"@
    }
}

/// The `ByteData` setter of a scalar.
pub fn primitive_blittable_write_method(primitive: PrimitiveType) -> (res: &'static str)
    ensures
        res@ == blittable_write_of(primitive),
{
    match primitive {
        PrimitiveType::I8 => "setInt8",
        PrimitiveType::Bool | PrimitiveType::U8 => "setUint8",
        PrimitiveType::I16 => "setInt16",
        PrimitiveType::U16 => "setUint16",
        PrimitiveType::I32 => "setInt32",
        PrimitiveType::U32 => "setUint32",
        PrimitiveType::I64 | PrimitiveType::ISize => "setInt64",
        PrimitiveType::U64 | PrimitiveType::USize => "setUint64",
        PrimitiveType::F32 => "setFloat32",
        PrimitiveType::F64 => "setFloat64",
    }
}

/// The `ByteData` getter of a scalar.
pub fn primitive_blittable_read_method(primitive: PrimitiveType) -> (res: &'static str)
    ensures
        res@ == blittable_read_of(primitive),
{
    match primitive {
        PrimitiveType::I8 => "getInt8",
        PrimitiveType::Bool | PrimitiveType::U8 => "getUint8",
        PrimitiveType::I16 => "getInt16",
        PrimitiveType::U16 => "getUint16",
        PrimitiveType::I32 => "getInt32",
        PrimitiveType::U32 => "getUint32",
        PrimitiveType::I64 | PrimitiveType::ISize => "getInt64",
        PrimitiveType::U64 | PrimitiveType::USize => "getUint64",
        PrimitiveType::F32 => "getFloat32",
        PrimitiveType::F64 => "getFloat64",
    }
}

fn endian(primitive: PrimitiveType) -> (res: &'static str)
    ensures
        res@ == endian_suffix(primitive),
{
    match primitive {
        PrimitiveType::U8 | PrimitiveType::I8 | PrimitiveType::Bool => {
            proof { reveal_strlit(""); }
            ""
        },
        _ => ", $$typed_data.Endian.little",
    }
}

/// The statement that stores scalar `value` at `offset` of `bytes_name`.
pub fn emit_write_blittable_value(offset: &str, primitive: PrimitiveType, value: &str, bytes_name: &str) -> (res: String)
    ensures
        res@ == bytes_name@ + "."@ + blittable_write_of(primitive) + "("@ + offset@ + ", "@
            + as_num_text(primitive, value@) + endian_suffix(primitive) + ")"@,
{
    let num = primitive_as_num(primitive, value);
    let head = crate::text::cat5(bytes_name, ".", primitive_blittable_write_method(primitive), "(", offset);
    crate::text::cat5(head.as_str(), ", ", num.as_str(), endian(primitive), ")")
}

/// The expression that loads a scalar from `offset` of `bytes_name`.
pub fn emit_read_blittable_value(offset: &str, primitive: PrimitiveType, bytes_name: &str) -> (res: String)
    ensures
        res@ == num_as_text(primitive, bytes_name@ + "."@ + blittable_read_of(primitive) + "("@ + offset@
            + endian_suffix(primitive) + ")"@),
{
    let get = crate::text::cat6(bytes_name, ".", primitive_blittable_read_method(primitive), "(", offset, endian(primitive));
    let call = crate::text::cat2(get.as_str(), ")");
    num_as_primitive(primitive, call.as_str())
}

/// The equality test of two Dart values `a` and `b` of type `t`: options,
/// lists and results compare element-wise through helpers.
pub open spec fn cmp_text(t: DartType, a: Seq<char>, b: Seq<char>) -> Seq<char>
    decreases t,
{
    match t {
        DartType::Option(ty) => {
            "_$$BoltUtil.nullableCompare("@ + a + ", "@ + b + ", (_l$a, _l$b) => "@
                + cmp_text(*ty, "_l$a"@, "_l$b"@) + ")"@
        },
        DartType::List(ty) => {
            "_$$BoltUtil.listCompare("@ + a + ", "@ + b + ", (_l$a, _l$b) => "@
                + cmp_text(*ty, "_l$a"@, "_l$b"@) + ")"@
        },
        DartType::Bytes => "_$$BoltUtil.listCompare("@ + a + ", "@ + b + ", (_l$a, _l$b) => _l$a == _l$b)"@,
        DartType::Result { ok, err } => {
            "_$$BoltUtil.fallibleCompare("@ + a + ", "@ + b + ", (_l$okA, _l$okB) => "@
                + cmp_text(*ok, "_l$okA"@, "_l$okB"@) + ", (_l$errA, _l$errB) => "@
                + cmp_text(*err, "_l$errA"@, "_l$errB"@) + ")"@
        },
        _ => a + " == "@ + b,
    }
}

/// The equality test of two Dart values of type `expr_ty`. Class handles
/// have none.
pub fn emit_cmp_expr(expr_a: &str, expr_b: &str, expr_ty: &DartType) -> (res: String)
    requires
        hashable(*expr_ty),
    ensures
        res@ == cmp_text(*expr_ty, expr_a@, expr_b@),
    decreases expr_ty,
{
    match expr_ty {
        DartType::Option(ty) => {
            let inner = emit_cmp_expr("_l$a", "_l$b", ty);
            let head = crate::text::cat5("_$$BoltUtil.nullableCompare(", expr_a, ", ", expr_b, ", (_l$a, _l$b) => ");
            crate::text::cat3(head.as_str(), inner.as_str(), ")")
        },
        DartType::List(ty) => {
            let inner = emit_cmp_expr("_l$a", "_l$b", ty);
            let head = crate::text::cat5("_$$BoltUtil.listCompare(", expr_a, ", ", expr_b, ", (_l$a, _l$b) => ");
            crate::text::cat3(head.as_str(), inner.as_str(), ")")
        },
        DartType::Bytes => {
            crate::text::cat5("_$$BoltUtil.listCompare(", expr_a, ", ", expr_b, ", (_l$a, _l$b) => _l$a == _l$b)")
        },
        DartType::Result { ok, err } => {
            let o = emit_cmp_expr("_l$okA", "_l$okB", ok);
            let e = emit_cmp_expr("_l$errA", "_l$errB", err);
            let head = crate::text::cat5("_$$BoltUtil.fallibleCompare(", expr_a, ", ", expr_b, ", (_l$okA, _l$okB) => ");
            crate::text::cat5(head.as_str(), o.as_str(), ", (_l$errA, _l$errB) => ", e.as_str(), ")")
        },
        _ => crate::text::cat3(expr_a, " == ", expr_b),
    }
}


/// The `BoltFFIBufWriter` method that writes a scalar.
pub open spec fn write_method_of(p: PrimitiveType) -> Seq<char> {
    match p {
        PrimitiveType::Bool => "writeBool"@,
        PrimitiveType::I8 => "writeI8"@,
        PrimitiveType::U8 => "writeU8"@,
        PrimitiveType::I16 => "writeI16"@,
        PrimitiveType::U16 => "writeU16"@,
        PrimitiveType::I32 => "writeI32"@,
        PrimitiveType::U32 => "writeU32"@,
        PrimitiveType::I64 | PrimitiveType::ISize => "writeI64"@,
        PrimitiveType::U64 | PrimitiveType::USize => "writeU64"@,
        PrimitiveType::F32 => "writeF32"@,
        PrimitiveType::F64 => "writeF64"@,
    }
}

/// The `BoltFFIBufReader` method that reads a scalar.
pub open spec fn read_method_of(p: PrimitiveType) -> Seq<char> {
    match p {
        PrimitiveType::Bool => "readBool"@,
        PrimitiveType::I8 => "readI8"@,
        PrimitiveType::U8 => "readU8"@,
        PrimitiveType::I16 => "readI16"@,
        PrimitiveType::U16 => "readU16"@,
        PrimitiveType::I32 => "readI32"@,
        PrimitiveType::U32 => "readU32"@,
        PrimitiveType::I64 | PrimitiveType::ISize => "readI64"@,
        PrimitiveType::U64 | PrimitiveType::USize => "readU64"@,
        PrimitiveType::F32 => "readF32"@,
        PrimitiveType::F64 => "readF64"@,
    }
}

/// The `BoltFFIBufReader` method that reads a vector of a scalar.
pub open spec fn read_list_method_of(p: PrimitiveType) -> Seq<char> {
    match p {
        PrimitiveType::Bool => "readBoolList"@,
        PrimitiveType::U8 => "readUint8List"@,
        PrimitiveType::I8 => "readInt8List"@,
        PrimitiveType::I16 => "readInt16List"@,
        PrimitiveType::U16 => "readUint16List"@,
        PrimitiveType::I32 => "readInt32List"@,
        PrimitiveType::U32 => "readUint32List"@,
        PrimitiveType::U64 | PrimitiveType::USize => "readUint64List"@,
        PrimitiveType::I64 | PrimitiveType::ISize => "readInt64List"@,
        PrimitiveType::F32 => "readFloat32List"@,
        PrimitiveType::F64 => "readFloat64List"@,
    }
}

/// The `BoltFFIBufWriter` method that writes a scalar.
pub fn primitive_write_method(primitive: PrimitiveType) -> (res: &'static str)
    ensures
        res@ == write_method_of(primitive),
{
    match primitive {
        PrimitiveType::Bool => "writeBool",
        PrimitiveType::I8 => "writeI8",
        PrimitiveType::U8 => "writeU8",
        PrimitiveType::I16 => "writeI16",
        PrimitiveType::U16 => "writeU16",
        PrimitiveType::I32 => "writeI32",
        PrimitiveType::U32 => "writeU32",
        PrimitiveType::I64 | PrimitiveType::ISize => "writeI64",
        PrimitiveType::U64 | PrimitiveType::USize => "writeU64",
        PrimitiveType::F32 => "writeF32",
        PrimitiveType::F64 => "writeF64",
    }
}

/// The `BoltFFIBufReader` method that reads a scalar.
pub fn primitive_read_method(primitive: PrimitiveType) -> (res: &'static str)
    ensures
        res@ == read_method_of(primitive),
{
    match primitive {
        PrimitiveType::Bool => "readBool",
        PrimitiveType::I8 => "readI8",
        PrimitiveType::U8 => "readU8",
        PrimitiveType::I16 => "readI16",
        PrimitiveType::U16 => "readU16",
        PrimitiveType::I32 => "readI32",
        PrimitiveType::U32 => "readU32",
        PrimitiveType::I64 | PrimitiveType::ISize => "readI64",
        PrimitiveType::U64 | PrimitiveType::USize => "readU64",
        PrimitiveType::F32 => "readF32",
        PrimitiveType::F64 => "readF64",
    }
}

fn read_list_method(primitive: PrimitiveType) -> (res: &'static str)
    ensures
        res@ == read_list_method_of(primitive),
{
    match primitive {
        PrimitiveType::Bool => "readBoolList",
        PrimitiveType::U8 => "readUint8List",
        PrimitiveType::I8 => "readInt8List",
        PrimitiveType::I16 => "readInt16List",
        PrimitiveType::U16 => "readUint16List",
        PrimitiveType::I32 => "readInt32List",
        PrimitiveType::U32 => "readUint32List",
        PrimitiveType::U64 | PrimitiveType::USize => "readUint64List",
        PrimitiveType::I64 | PrimitiveType::ISize => "readInt64List",
        PrimitiveType::F32 => "readFloat32List",
        PrimitiveType::F64 => "readFloat64List",
    }
}

/// The statement that writes scalar `value` with `writer`.
fn emit_write_primitive(primitive: PrimitiveType, writer_name: &str, value: &str) -> (res: String)
    ensures
        res@ == writer_name@ + "."@ + write_method_of(primitive) + "("@ + value@ + ");"@,
{
    crate::text::cat6(writer_name, ".", primitive_write_method(primitive), "(", value, ");")
}

/// The expression that writes the tag `value` of an enum whose tag is a
/// `tag_type`.
fn enum_tag_write_expr(tag_type: PrimitiveType, writer_name: &str, value: &str) -> (res: String)
    ensures
        res@ == writer_name@ + "."@ + write_method_of(tag_type) + "("@ + value@ + ")"@,
{
    let write_method = primitive_write_method(tag_type);
    crate::text::cat6(writer_name, ".", write_method, "(", value, ")")
}

/// The writer method for a builtin type: unknown builtins are strings.
pub open spec fn builtin_write_of(id: Seq<char>) -> Seq<char> {
    if id == "Duration"@ {
        "writeDuration"@
    } else if id == "SystemTime"@ {
        "writeInstant"@
    } else if id == "Uuid"@ {
        "writeUUID"@
    } else if id == "Url"@ {
        "writeUri"@
    } else {
        "writeString"@
    }
}

/// The reader method for a builtin type: unknown builtins are strings.
pub open spec fn builtin_read_of(id: Seq<char>) -> Seq<char> {
    if id == "Duration"@ {
        "readDuration"@
    } else if id == "SystemTime"@ {
        "readInstant"@
    } else if id == "Uuid"@ {
        "readUUID"@
    } else if id == "Url"@ {
        "readUri"@
    } else {
        "readString"@
    }
}

fn emit_write_builtin(id: &BuiltinId, writer_name: &str, value: &str) -> (res: String)
    ensures
        res@ == writer_name@ + "."@ + builtin_write_of(id@) + "("@ + value@ + ");"@,
{
    proof {
        reveal_strlit("Duration");
        reveal_strlit("SystemTime");
        reveal_strlit("Uuid");
        reveal_strlit("Url");
    }
    let b = id.as_str();
    let method = if str_eq(b, "Duration") {
        "writeDuration"
    } else if str_eq(b, "SystemTime") {
        "writeInstant"
    } else if str_eq(b, "Uuid") {
        "writeUUID"
    } else if str_eq(b, "Url") {
        "writeUri"
    } else {
        "writeString"
    };
    crate::text::cat6(writer_name, ".", method, "(", value, ");")
}

fn builtin_read_method(id: &str) -> (res: &'static str)
    ensures
        res@ == builtin_read_of(id@),
{
    proof {
        reveal_strlit("Duration");
        reveal_strlit("SystemTime");
        reveal_strlit("Uuid");
        reveal_strlit("Url");
    }
    if str_eq(id, "Duration") {
        "readDuration"
    } else if str_eq(id, "SystemTime") {
        "readInstant"
    } else if str_eq(id, "Uuid") {
        "readUUID"
    } else if str_eq(id, "Url") {
        "readUri"
    } else {
        "readString"
    }
}

/// Whether the encoder `seq` can be written out: each `Result` step has an
/// error encoder with at least one step.
pub open spec fn writable(seq: WriteSeq) -> bool
    decreases seq,
{
    if seq.ops@.len() == 0 {
        true
    } else {
        match seq.ops@[0] {
            WriteOp::Custom { underlying, .. } => writable(underlying),
            WriteOp::Vec { element_type, element, .. } => element_type is Primitive || writable(element),
            WriteOp::Option { some, .. } => writable(some),
            WriteOp::Result { ok, err, .. } => {
                &&& writable(ok)
                &&& err.ops@.len() > 0
                &&& !(err.ops@[0] is String) ==> writable(err)
            },
            _ => true,
        }
    }
}

/// The Dart statements that write `value` with the encoder `seq`, by its
/// first step; an encoder without steps writes nothing.
pub open spec fn write_text(seq: WriteSeq, w: Seq<char>, v: Seq<char>) -> Seq<char>
    decreases seq,
{
    if seq.ops@.len() == 0 {
        Seq::empty()
    } else {
        match seq.ops@[0] {
            WriteOp::Primitive { primitive, .. } => w + "."@ + write_method_of(primitive) + "("@ + v + ");"@,
            WriteOp::String { .. } => w + ".writeString("@ + v + ");"@,
            WriteOp::Builtin { id, .. } => w + "."@ + builtin_write_of(id@) + "("@ + v + ");"@,
            WriteOp::Record { .. } | WriteOp::Enum { .. } => v + "._m$wireEncode("@ + w + ");"@,
            WriteOp::Custom { underlying, .. } => write_text(underlying, w, v),
            WriteOp::Vec { element_type, element, .. } => match element_type {
                TypeExpr::Primitive(p) => {
                    w + ".writeBytes("@ + (if p is Bool { v + "._bytes"@ } else { v }) + ");"@
                },
                _ => {
                    w + ".writeList("@ + v + ", (_p$item, "@ + w + ") { "@
                        + write_text(element, w, "_p$item"@) + " });"@
                },
            },
            WriteOp::Option { some, .. } => {
                "if ("@ + v + " case final "@ + v + "?) { "@ + w + ".writeU8(1); "@
                    + write_text(some, w, v) + " } else { "@ + w + ".writeU8(0); }"@
            },
            WriteOp::Result { ok, err, .. } => {
                "switch ("@ + v + ") { case $$BoltResult$Ok(:final value): { "@ + w + ".writeU8(0); "@
                    + write_text(ok, w, "value"@) + " } case $$BoltResult$Err(:final value): { "@
                    + w + ".writeU8(1); "@
                    + (if err.ops@[0] is String { "value._m$wireEncode("@ + w + ");"@ } else { write_text(err, w, "value"@) })
                    + " } }"@
            },
        }
    }
}

fn emit_writer_vec(value: &str, element_type: &TypeExpr, element: &WriteSeq, layout: &VecLayout, writer_name: &str) -> (res: String)
    requires
        element_type is Primitive || writable(*element),
    ensures
        res@ == (match *element_type {
            TypeExpr::Primitive(p) => {
                writer_name@ + ".writeBytes("@ + (if p is Bool { value@ + "._bytes"@ } else { value@ }) + ");"@
            },
            _ => {
                writer_name@ + ".writeList("@ + value@ + ", (_p$item, "@ + writer_name@ + ") { "@
                    + write_text(*element, writer_name@, "_p$item"@) + " });"@
            },
        }),
    decreases element, 1nat,
{
    match element_type {
        TypeExpr::Primitive(primitive) => {
            let v = match primitive {
                PrimitiveType::Bool => crate::text::cat2(value, "._bytes"),
                _ => crate::text::owned(value),
            };
            crate::text::cat4(writer_name, ".writeBytes(", v.as_str(), ");")
        },
        _ => {
            let inner_write_expr = emit_writer_write(element, writer_name, "_p$item");
            let head = crate::text::cat5(writer_name, ".writeList(", value, ", (_p$item, ", writer_name);
            crate::text::cat4(head.as_str(), ") { ", inner_write_expr.as_str(), " });")
        },
    }
}

/// The Dart statements that write `value` with the encoder `seq`.
pub fn emit_writer_write(seq: &WriteSeq, writer_name: &str, value: &str) -> (res: String)
    requires
        writable(*seq),
    ensures
        res@ == write_text(*seq, writer_name@, value@),
    decreases seq, 0nat,
{
    if seq.ops.len() == 0 {
        return String::new();
    }
    proof {
        assert(decreases_to!(seq => seq.ops));
        assert(decreases_to!(seq.ops => seq.ops@));
        assert(decreases_to!(seq.ops@ => seq.ops@[0]));
    }
    match &seq.ops[0] {
        WriteOp::Primitive { primitive, .. } => emit_write_primitive(*primitive, writer_name, value),
        WriteOp::String { .. } => crate::text::cat4(writer_name, ".writeString(", value, ");"),
        WriteOp::Builtin { id, .. } => emit_write_builtin(id, writer_name, value),
        WriteOp::Record { .. } => crate::text::cat4(value, "._m$wireEncode(", writer_name, ");"),
        WriteOp::Enum { .. } => crate::text::cat4(value, "._m$wireEncode(", writer_name, ");"),
        WriteOp::Custom { underlying, .. } => emit_writer_write(underlying, writer_name, value),
        WriteOp::Vec { element_type, element, layout, .. } => {
            emit_writer_vec(value, element_type, element, layout, writer_name)
        },
        WriteOp::Option { some, .. } => {
            let inner_write_expr = emit_writer_write(some, writer_name, value);
            let head = crate::text::cat6("if (", value, " case final ", value, "?) { ", writer_name);
            crate::text::cat6(head.as_str(), ".writeU8(1); ", inner_write_expr.as_str(), " } else { ", writer_name, ".writeU8(0); }")
        },
        WriteOp::Result { ok, err, .. } => {
            let ok_expr = emit_writer_write(ok, writer_name, "value");
            let err_expr = match &err.ops[0] {
                WriteOp::String { .. } => crate::text::cat3("value._m$wireEncode(", writer_name, ");"),
                _ => emit_writer_write(err, writer_name, "value"),
            };
            let head = crate::text::cat5("switch (", value, ") { case $$BoltResult$Ok(:final value): { ", writer_name, ".writeU8(0); ");
            let mid = crate::text::cat5(head.as_str(), ok_expr.as_str(), " } case $$BoltResult$Err(:final value): { ", writer_name, ".writeU8(1); ");
            crate::text::cat3(mid.as_str(), err_expr.as_str(), " } }")
        },
    }
}

/// Whether the decoder `seq` can be read out: every decoder that is read
/// has at least one step, and each `Result` step has an error decoder
/// with at least one step. With `is_void`, a result's value is not read.
pub open spec fn readable(seq: ReadSeq, is_void: bool) -> bool
    decreases seq,
{
    &&& seq.ops@.len() > 0
    &&& match seq.ops@[0] {
        ReadOp::Custom { underlying, .. } => readable(underlying, is_void),
        ReadOp::Vec { element_type, element, .. } => element_type is Primitive || readable(element, is_void),
        ReadOp::Option { some, .. } => readable(some, is_void),
        ReadOp::Result { ok, err, .. } => {
            &&& !is_void ==> readable(ok, is_void)
            &&& err.ops@.len() > 0
            &&& !(err.ops@[0] is String) ==> readable(err, is_void)
        },
        _ => true,
    }
}

/// The Dart expression that reads a value with the decoder `seq`, by its
/// first step.
pub open spec fn read_text(seq: ReadSeq, r: Seq<char>, is_void: bool) -> Seq<char>
    decreases seq,
{
    if seq.ops@.len() == 0 {
        Seq::empty()
    } else {
        match seq.ops@[0] {
            ReadOp::Primitive { primitive } => r + "."@ + read_method_of(primitive) + "()"@,
            ReadOp::String => r + ".readString()"@,
            ReadOp::Record { id } => upper_camel(id@) + "._m$wireDecode("@ + r + ")"@,
            ReadOp::Enum { id, .. } => upper_camel(id@) + "._m$wireDecode("@ + r + ")"@,
            ReadOp::Option { some } => {
                "switch ("@ + r + ".readU8()) { 0 => null, 1 => "@ + read_text(some, r, is_void)
                    + ", (int _l$tag) => throw $$BoltException(\"Invalid Optional tag: ${_l$tag}\") }"@
            },
            ReadOp::Vec { element_type, element, .. } => match element_type {
                TypeExpr::Primitive(p) => r + "."@ + read_list_method_of(p) + "()"@,
                _ => r + ".readList(("@ + r + ") => "@ + read_text(element, r, is_void) + ")"@,
            },
            ReadOp::Result { ok, err } => {
                "(switch ("@ + r + ".readU8()) { 0 => $$BoltResult.ok("@
                    + (if is_void { "null"@ } else { read_text(ok, r, is_void) })
                    + "), 1 => $$BoltResult.err("@
                    + (if err.ops@[0] is String { "$$BoltException._m$wireDecode("@ + r + ")"@ } else { read_text(err, r, is_void) })
                    + "), (int _l$tag) => throw $$BoltException(\"Invalid Result tag: ${_l$tag}\") })"@
            },
            ReadOp::Builtin { id } => r + "."@ + builtin_read_of(id@) + "()"@,
            ReadOp::Custom { underlying, .. } => read_text(underlying, r, is_void),
        }
    }
}

fn emit_reader_vec(element_type: &TypeExpr, element: &ReadSeq, layout: &VecLayout, reader_name: &str, is_void: bool) -> (res: String)
    requires
        element_type is Primitive || readable(*element, is_void),
    ensures
        res@ == (match *element_type {
            TypeExpr::Primitive(p) => reader_name@ + "."@ + read_list_method_of(p) + "()"@,
            _ => reader_name@ + ".readList(("@ + reader_name@ + ") => "@ + read_text(*element, reader_name@, is_void) + ")"@,
        }),
    decreases element, 1nat,
{
    match element_type {
        TypeExpr::Primitive(primitive) => crate::text::cat4(reader_name, ".", read_list_method(*primitive), "()"),
        _ => {
            let inner_read_expr = emit_reader_read(element, reader_name, is_void);
            crate::text::cat6(reader_name, ".readList((", reader_name, ") => ", inner_read_expr.as_str(), ")")
        },
    }
}

/// The Dart expression that reads a value with the decoder `seq` from
/// `reader_name`. With `is_inner_void`, a result's value reads as `null`.
pub fn emit_reader_read(seq: &ReadSeq, reader_name: &str, is_inner_void: bool) -> (res: String)
    requires
        readable(*seq, is_inner_void),
    ensures
        res@ == read_text(*seq, reader_name@, is_inner_void),
    decreases seq, 0nat,
{
    proof {
        assert(decreases_to!(seq => seq.ops));
        assert(decreases_to!(seq.ops => seq.ops@));
        assert(decreases_to!(seq.ops@ => seq.ops@[0]));
    }
    let op = &seq.ops[0];
    match op {
        ReadOp::Primitive { primitive } => crate::text::cat4(reader_name, ".", primitive_read_method(*primitive), "()"),
        ReadOp::String => crate::text::cat2(reader_name, ".readString()"),
        ReadOp::Record { id } => {
            let n = NamingConvention::class_name(id.as_str());
            crate::text::cat4(n.as_str(), "._m$wireDecode(", reader_name, ")")
        },
        ReadOp::Enum { id, layout } => {
            let n = match layout {
                EnumLayout::CStyle { is_error: false, .. } => render_type_name(id.as_str()),
                _ => render_type_name(id.as_str()),
            };
            crate::text::cat4(n.as_str(), "._m$wireDecode(", reader_name, ")")
        },
        ReadOp::Option { some } => {
            let inner_read_expr = emit_reader_read(some, reader_name, is_inner_void);
            crate::text::cat5("switch (", reader_name, ".readU8()) { 0 => null, 1 => ", inner_read_expr.as_str(),
                ", (int _l$tag) => throw $$BoltException(\"Invalid Optional tag: ${_l$tag}\") }")
        },
        ReadOp::Vec { element_type, element, layout } => {
            emit_reader_vec(element_type, element, layout, reader_name, is_inner_void)
        },
        ReadOp::Result { ok, err } => {
            let ok_expr = if is_inner_void {
                String::from_str("null")
            } else {
                emit_reader_read(ok, reader_name, is_inner_void)
            };
            let err_expr = match &err.ops[0] {
                ReadOp::String => crate::text::cat3("$$BoltException._m$wireDecode(", reader_name, ")"),
                _ => emit_reader_read(err, reader_name, is_inner_void),
            };
            let head = crate::text::cat5("(switch (", reader_name, ".readU8()) { 0 => $$BoltResult.ok(", ok_expr.as_str(), "), 1 => $$BoltResult.err(");
            crate::text::cat3(head.as_str(), err_expr.as_str(),
                "), (int _l$tag) => throw $$BoltException(\"Invalid Result tag: ${_l$tag}\") })")
        },
        ReadOp::Builtin { id } => crate::text::cat4(reader_name, ".", builtin_read_method(id.as_str()), "()"),
        ReadOp::Custom { underlying, .. } => emit_reader_read(underlying, reader_name, is_inner_void),
    }
}


/// A value override as text.
pub open spec fn ov_view(ov: Option<&str>) -> Option<Seq<char>> {
    match ov {
        Some(o) => Some(o@),
        None => None,
    }
}

/// The text of value `v`, or the override `ov` when there is one.
pub open spec fn val_text(v: ValueExpr, ov: Option<Seq<char>>) -> Seq<char> {
    match ov {
        Some(o) => o,
        None => value_text(v),
    }
}

/// The encoded size of builtin value `v`: a URL counts three bytes per
/// character; others know their own size.
pub open spec fn builtin_size_text(id: Seq<char>, v: Seq<char>) -> Seq<char> {
    if id == "Url"@ {
        v + ".toString().length * 3"@
    } else {
        v + "._m$wireEncodedSize()"@
    }
}

/// The Dart expression for the encoded size `e`, its value written as the
/// override `ov` where there is one. Nested sizes are written over the
/// element they measure: `v!` for an option, `_p$item` for a vector
/// element, `value` for a result payload.
pub open spec fn size_text(e: SizeExpr, ov: Option<Seq<char>>) -> Seq<char>
    decreases e, 0nat,
{
    match e {
        SizeExpr::Fixed(n) => decimal(n as nat),
        SizeExpr::Runtime => "0"@,
        SizeExpr::StringLen(v) => "("@ + val_text(v, ov) + ".length * 3)"@,
        SizeExpr::BytesLen(v) => val_text(v, ov) + ".length"@,
        SizeExpr::ValueSize(v) => val_text(v, ov),
        SizeExpr::WireSize { value, .. } => val_text(value, ov) + "._m$wireEncodedSize()"@,
        SizeExpr::BuiltinSize { id, value } => builtin_size_text(id@, val_text(value, ov)),
        SizeExpr::Sum(parts) => {
            "("@ + (if parts@.len() == 0 { "0"@ } else { join(size_texts(parts@, ov), " + "@) }) + ")"@
        },
        SizeExpr::OptionSize { value, inner } => {
            "(switch ("@ + val_text(value, ov) + " == null) { true => 1, false => 1 + "@
                + size_text(*inner, Some(val_text(value, ov) + "!"@)) + " })"@
        },
        SizeExpr::VecSize { value, inner, layout } => match layout {
            VecLayout::Blittable { element_size } => {
                "(4 + ("@ + val_text(value, ov) + ".length * "@ + decimal(element_size as nat) + "))"@
            },
            VecLayout::Encoded => {
                val_text(value, ov) + ".fold<int>(4, (_p$sum, _p$item) => _p$sum + "@
                    + size_text(*inner, Some("_p$item"@)) + ")"@
            },
        },
        SizeExpr::ResultSize { value, ok, err } => {
            "1 + (switch ("@ + val_text(value, ov) + ") { $$BoltResult$Ok(:final value) => "@
                + size_text(*ok, Some("value"@)) + ", $$BoltResult$Err(:final value) => "@
                + size_text(*err, Some("value"@)) + " })"@
        },
    }
}

/// The encoded size of the vector `v`: a length prefix and either a fixed
/// size per element or the sum of the sizes of its elements, each written
/// `_p$item`.
pub open spec fn vec_size_text(v: Seq<char>, inner: SizeExpr, layout: VecLayout) -> Seq<char> {
    match layout {
        VecLayout::Blittable { element_size } => {
            "(4 + ("@ + v + ".length * "@ + decimal(element_size as nat) + "))"@
        },
        VecLayout::Encoded => {
            v + ".fold<int>(4, (_p$sum, _p$item) => _p$sum + "@ + size_text(inner, Some("_p$item"@)) + ")"@
        },
    }
}

/// The size expressions of the parts of a sum.
pub open spec fn size_texts(parts: Seq<SizeExpr>, ov: Option<Seq<char>>) -> Seq<Seq<char>>
    decreases parts, 1nat,
{
    if parts.len() == 0 {
        Seq::empty()
    } else {
        size_texts(parts.subrange(0, parts.len() - 1), ov).push(size_text(parts[parts.len() - 1], ov))
    }
}

proof fn lemma_size_texts(parts: Seq<SizeExpr>, ov: Option<Seq<char>>)
    ensures
        size_texts(parts, ov).len() == parts.len(),
        forall|i: int| 0 <= i < parts.len() ==> #[trigger] size_texts(parts, ov)[i] == size_text(parts[i], ov),
    decreases parts.len(),
{
    if parts.len() > 0 {
        let init = parts.subrange(0, parts.len() - 1);
        lemma_size_texts(init, ov);
        assert forall|i: int| 0 <= i < parts.len() implies #[trigger] size_texts(parts, ov)[i] == size_text(parts[i], ov) by {
            if i < parts.len() - 1 {
                assert(init[i] == parts[i]);
            }
        }
    }
}

fn value_or(v: &ValueExpr, ov: Option<&str>) -> (res: String)
    ensures
        res@ == val_text(*v, ov_view(ov)),
{
    match ov {
        Some(o) => crate::text::owned(o),
        None => render_value(v),
    }
}

fn emit_builtin_size(id: &BuiltinId, value: &str) -> (res: String)
    ensures
        res@ == builtin_size_text(id@, value@),
{
    proof { reveal_strlit("Url"); }
    if str_eq(id.as_str(), "Url") {
        crate::text::cat2(value, ".toString().length * 3")
    } else {
        crate::text::cat2(value, "._m$wireEncodedSize()")
    }
}

/// The encoded size of the vector `value`: a length prefix and either a
/// fixed size per element or the sum of the elements' sizes.
fn emit_vec_size(value: &str, inner: &SizeExpr, layout: &VecLayout) -> (res: String)
    ensures
        res@ == vec_size_text(value@, *inner, *layout),
    decreases inner, 1nat,
{
    match layout {
        VecLayout::Blittable { element_size } => {
            let n = crate::text::usize_to_string(*element_size);
            crate::text::cat5("(4 + (", value, ".length * ", n.as_str(), "))")
        },
        VecLayout::Encoded => {
            let inner_expr = emit_size_at(inner, Some("_p$item"));
            crate::text::cat4(value, ".fold<int>(4, (_p$sum, _p$item) => _p$sum + ", inner_expr.as_str(), ")")
        },
    }
}

/// The Dart expression for an encoded size, its value written as `ov`
/// where `ov` is given.
pub fn emit_size_at(size: &SizeExpr, ov: Option<&str>) -> (res: String)
    ensures
        res@ == size_text(*size, ov_view(ov)),
    decreases size, 0nat,
{
    match size {
        SizeExpr::Fixed(value) => crate::text::usize_to_string(*value),
        SizeExpr::Runtime => String::from_str("0"),
        SizeExpr::StringLen(value) => {
            let v = value_or(value, ov);
            crate::text::cat3("(", v.as_str(), ".length * 3)")
        },
        SizeExpr::BytesLen(value) => {
            let v = value_or(value, ov);
            crate::text::cat2(v.as_str(), ".length")
        },
        SizeExpr::ValueSize(value) => value_or(value, ov),
        SizeExpr::WireSize { value, .. } => {
            let v = value_or(value, ov);
            crate::text::cat2(v.as_str(), "._m$wireEncodedSize()")
        },
        SizeExpr::BuiltinSize { id, value } => {
            let v = value_or(value, ov);
            emit_builtin_size(id, v.as_str())
        },
        SizeExpr::Sum(parts) => {
            let mut rendered: Vec<String> = Vec::new();
            let mut i: usize = 0;
            while i < parts.len()
                invariant
                    i <= parts@.len(),
                    rendered@.len() == i,
                    *size is Sum,
                    size->Sum_0 == *parts,
                    forall|j: int| 0 <= j < i ==> (#[trigger] rendered@[j])@ == size_text(parts@[j], ov_view(ov)),
                decreases parts.len() - i,
            {
                proof {
                    let ghost t = *size;
                    assert(decreases_to!(t => t->Sum_0));
                    assert(decreases_to!(t->Sum_0 => t->Sum_0@));
                    assert(decreases_to!(t->Sum_0@ => t->Sum_0@[i as int]));
                }
                rendered.push(emit_size_at(&parts[i], ov));
                i += 1;
            }
            proof {
                lemma_size_texts(parts@, ov_view(ov));
                assert(views(rendered@) =~= size_texts(parts@, ov_view(ov)));
            }
            if parts.len() == 0 {
                crate::text::cat3("(", "0", ")")
            } else {
                let joined = crate::text::join_strings(&rendered, " + ");
                crate::text::cat3("(", joined.as_str(), ")")
            }
        },
        SizeExpr::OptionSize { value, inner } => {
            let v = value_or(value, ov);
            let bang = crate::text::cat2(v.as_str(), "!");
            let inner_expr = emit_size_at(inner, Some(bang.as_str()));
            crate::text::cat5("(switch (", v.as_str(), " == null) { true => 1, false => 1 + ", inner_expr.as_str(), " })")
        },
        SizeExpr::VecSize { value, inner, layout } => {
            let v = value_or(value, ov);
            emit_vec_size(v.as_str(), inner, layout)
        },
        SizeExpr::ResultSize { value, ok, err } => {
            let v = value_or(value, ov);
            let ok_expr = emit_size_at(ok, Some("value"));
            let err_expr = emit_size_at(err, Some("value"));
            let head = crate::text::cat3("1 + (switch (", v.as_str(), ") { $$BoltResult$Ok(:final value) => ");
            crate::text::cat5(head.as_str(), ok_expr.as_str(), ", $$BoltResult$Err(:final value) => ", err_expr.as_str(), " })")
        },
    }
}

/// The Dart expression for an encoded size.
pub fn emit_size_expr(size: &SizeExpr) -> (res: String)
    ensures
        res@ == size_text(*size, None),
{
    emit_size_at(size, None)
}


/// Whether `r` is the size expression `e` measured over the value `v`:
/// the value of `e` and of each part of a sum is replaced by `v`; nested
/// sizes, which measure elements, are kept.
pub open spec fn remapped_size(e: SizeExpr, v: ValueExpr, r: SizeExpr) -> bool
    decreases e,
{
    match e {
        SizeExpr::Fixed(_) | SizeExpr::Runtime => r == e,
        SizeExpr::StringLen(_) => r == SizeExpr::StringLen(v),
        SizeExpr::BytesLen(_) => r == SizeExpr::BytesLen(v),
        SizeExpr::ValueSize(_) => r == SizeExpr::ValueSize(v),
        SizeExpr::WireSize { owner, .. } => r == SizeExpr::WireSize { value: v, owner },
        SizeExpr::BuiltinSize { id, .. } => r == SizeExpr::BuiltinSize { id, value: v },
        SizeExpr::Sum(pe) => {
            &&& r matches SizeExpr::Sum(pr)
            &&& pe@.len() == pr@.len()
            &&& forall|i: int| 0 <= i < pe@.len() ==> remapped_size(pe@[i], v, #[trigger] pr@[i])
        },
        SizeExpr::OptionSize { inner, .. } => {
            r matches SizeExpr::OptionSize { value: rv, inner: ri } && rv == v && same_size(*inner, *ri)
        },
        SizeExpr::VecSize { inner, layout, .. } => {
            r matches SizeExpr::VecSize { value: rv, inner: ri, layout: rl } && rv == v && rl == layout
                && same_size(*inner, *ri)
        },
        SizeExpr::ResultSize { ok, err, .. } => {
            r matches SizeExpr::ResultSize { value: rv, ok: ro, err: re } && rv == v && same_size(*ok, *ro)
                && same_size(*err, *re)
        },
    }
}

/// The size expression `expr` measured over the value `v` instead.
pub fn remap_size_expr_value_expr(expr: &SizeExpr, v: ValueExpr) -> (res: SizeExpr)
    ensures
        remapped_size(*expr, v, res),
    decreases expr,
{
    match expr {
        SizeExpr::Fixed(value) => SizeExpr::Fixed(*value),
        SizeExpr::Runtime => SizeExpr::Runtime,
        SizeExpr::StringLen(..) => SizeExpr::StringLen(v),
        SizeExpr::BytesLen(..) => SizeExpr::BytesLen(v),
        SizeExpr::ValueSize(..) => SizeExpr::ValueSize(v),
        SizeExpr::WireSize { owner, .. } => {
            let owner = match owner {
                None => None,
                Some(WireSizeOwner::Record(id)) => Some(WireSizeOwner::Record(id.clone())),
                Some(WireSizeOwner::Enum(id)) => Some(WireSizeOwner::Enum(id.clone())),
                Some(WireSizeOwner::Custom(id)) => Some(WireSizeOwner::Custom(id.clone())),
            };
            SizeExpr::WireSize { owner, value: v }
        },
        SizeExpr::BuiltinSize { id, .. } => SizeExpr::BuiltinSize { id: id.clone(), value: v },
        SizeExpr::Sum(exprs) => {
            let mut out: Vec<SizeExpr> = Vec::new();
            let mut i: usize = 0;
            while i < exprs.len()
                invariant
                    i <= exprs@.len(),
                    out@.len() == i,
                    *expr is Sum,
                    expr->Sum_0 == *exprs,
                    forall|j: int| 0 <= j < i ==> remapped_size(exprs@[j], v, #[trigger] out@[j]),
                decreases exprs.len() - i,
            {
                proof {
                    let ghost t = *expr;
                    assert(decreases_to!(t => t->Sum_0));
                    assert(decreases_to!(t->Sum_0 => t->Sum_0@));
                    assert(decreases_to!(t->Sum_0@ => t->Sum_0@[i as int]));
                }
                out.push(remap_size_expr_value_expr(&exprs[i], copy_value(&v)));
                i += 1;
            }
            SizeExpr::Sum(out)
        },
        SizeExpr::OptionSize { inner, .. } => SizeExpr::OptionSize { value: v, inner: Box::new(copy_size(inner)) },
        SizeExpr::VecSize { inner, layout, .. } => {
            SizeExpr::VecSize { value: v, inner: Box::new(copy_size(inner)), layout: *layout }
        },
        SizeExpr::ResultSize { ok, err, .. } => SizeExpr::ResultSize {
            value: v,
            ok: Box::new(copy_size(ok)),
            err: Box::new(copy_size(err)),
        },
    }
}

/// Same size expressions are written the same.
pub proof fn lemma_same_size_text(a: SizeExpr, b: SizeExpr, ov: Option<Seq<char>>)
    requires
        same_size(a, b),
    ensures
        size_text(a, ov) == size_text(b, ov),
    decreases a,
{
    match a {
        SizeExpr::Sum(pa) => {
            let pb = b->Sum_0;
            lemma_size_texts(pa@, ov);
            lemma_size_texts(pb@, ov);
            assert forall|i: int| 0 <= i < pa@.len() implies size_texts(pa@, ov)[i] == size_texts(pb@, ov)[i] by {
                assert(decreases_to!(a => pa));
                assert(decreases_to!(pa => pa@));
                assert(decreases_to!(pa@ => pa@[i]));
                lemma_same_size_text(pa@[i], pb@[i], ov);
            }
            assert(size_texts(pa@, ov) =~= size_texts(pb@, ov));
        },
        SizeExpr::OptionSize { value, inner } => {
            let i2 = b->OptionSize_inner;
            lemma_same_size_text(*inner, *i2, Some(val_text(value, ov) + "!"@));
        },
        SizeExpr::VecSize { value, inner, layout } => {
            let i2 = b->VecSize_inner;
            lemma_same_size_text(*inner, *i2, Some("_p$item"@));
        },
        SizeExpr::ResultSize { value, ok, err } => {
            lemma_same_size_text(*ok, *b->ResultSize_ok, Some("value"@));
            lemma_same_size_text(*err, *b->ResultSize_err, Some("value"@));
        },
        _ => {},
    }
}

/// An override decides how a remapped size is written: remapping does not
/// change it.
pub proof fn lemma_remapped_under_override(e: SizeExpr, v: ValueExpr, r: SizeExpr, o: Seq<char>)
    requires
        remapped_size(e, v, r),
    ensures
        size_text(r, Some(o)) == size_text(e, Some(o)),
    decreases e,
{
    match e {
        SizeExpr::Sum(pe) => {
            let pr = r->Sum_0;
            lemma_size_texts(pe@, Some(o));
            lemma_size_texts(pr@, Some(o));
            assert forall|i: int| 0 <= i < pe@.len() implies size_texts(pe@, Some(o))[i] == size_texts(pr@, Some(o))[i] by {
                assert(decreases_to!(e => pe));
                assert(decreases_to!(pe => pe@));
                assert(decreases_to!(pe@ => pe@[i]));
                lemma_remapped_under_override(pe@[i], v, pr@[i], o);
            }
            assert(size_texts(pe@, Some(o)) =~= size_texts(pr@, Some(o)));
        },
        SizeExpr::OptionSize { value, inner } => {
            lemma_same_size_text(*inner, *r->OptionSize_inner, Some(o + "!"@));
        },
        SizeExpr::VecSize { value, inner, layout } => {
            lemma_same_size_text(*inner, *r->VecSize_inner, Some("_p$item"@));
        },
        SizeExpr::ResultSize { value, ok, err } => {
            lemma_same_size_text(*ok, *r->ResultSize_ok, Some("value"@));
            lemma_same_size_text(*err, *r->ResultSize_err, Some("value"@));
        },
        _ => {},
    }
}

/// Writing a size expression remapped to the value `v` is writing the
/// unmapped expression with `v`'s text in place of its value.
pub proof fn law_remap_renders_as_override(e: SizeExpr, v: ValueExpr, r: SizeExpr)
    requires
        remapped_size(e, v, r),
    ensures
        size_text(r, None) == size_text(e, Some(value_text(v))),
    decreases e,
{
    match e {
        SizeExpr::Sum(pe) => {
            let pr = r->Sum_0;
            lemma_size_texts(pe@, Some(value_text(v)));
            lemma_size_texts(pr@, None);
            assert forall|i: int| 0 <= i < pe@.len() implies size_texts(pe@, Some(value_text(v)))[i] == size_texts(pr@, None)[i] by {
                assert(decreases_to!(e => pe));
                assert(decreases_to!(pe => pe@));
                assert(decreases_to!(pe@ => pe@[i]));
                law_remap_renders_as_override(pe@[i], v, pr@[i]);
            }
            assert(size_texts(pe@, Some(value_text(v))) =~= size_texts(pr@, None));
        },
        SizeExpr::OptionSize { value, inner } => {
            lemma_same_size_text(*inner, *r->OptionSize_inner, Some(value_text(v) + "!"@));
        },
        SizeExpr::VecSize { value, inner, layout } => {
            lemma_same_size_text(*inner, *r->VecSize_inner, Some("_p$item"@));
        },
        SizeExpr::ResultSize { value, ok, err } => {
            lemma_same_size_text(*ok, *r->ResultSize_ok, Some("value"@));
            lemma_same_size_text(*err, *r->ResultSize_err, Some("value"@));
        },
        _ => {},
    }
}

/// Remapping twice is remapping once to the last value: it is written the
/// same.
pub proof fn law_remap_last_value_wins(e: SizeExpr, v1: ValueExpr, r1: SizeExpr, v2: ValueExpr, r2: SizeExpr)
    requires
        remapped_size(e, v1, r1),
        remapped_size(r1, v2, r2),
    ensures
        size_text(r2, None) == size_text(e, Some(value_text(v2))),
{
    law_remap_renders_as_override(r1, v2, r2);
    lemma_remapped_under_override(e, v1, r1, value_text(v2));
}

/// Structurally equal size expressions are so both ways round.
proof fn lemma_same_size_symmetric(a: SizeExpr, b: SizeExpr)
    requires
        same_size(a, b),
    ensures
        same_size(b, a),
    decreases a,
{
    match a {
        SizeExpr::Sum(pa) => {
            let pb = b->Sum_0;
            assert forall|i: int| 0 <= i < pb@.len() implies same_size(pb@[i], #[trigger] pa@[i]) by {
                assert(same_size(pa@[i], pb@[i]));
                lemma_same_size_symmetric(pa@[i], pb@[i]);
            }
        },
        SizeExpr::OptionSize { inner, .. } => lemma_same_size_symmetric(*inner, *b->OptionSize_inner),
        SizeExpr::VecSize { inner, .. } => lemma_same_size_symmetric(*inner, *b->VecSize_inner),
        SizeExpr::ResultSize { ok, err, .. } => {
            lemma_same_size_symmetric(*ok, *b->ResultSize_ok);
            lemma_same_size_symmetric(*err, *b->ResultSize_err);
        },
        _ => {},
    }
}

/// Structural equality of size expressions is transitive.
proof fn lemma_same_size_transitive(a: SizeExpr, b: SizeExpr, c: SizeExpr)
    requires
        same_size(a, b),
        same_size(b, c),
    ensures
        same_size(a, c),
    decreases a,
{
    match a {
        SizeExpr::Sum(pa) => {
            let pb = b->Sum_0;
            let pc = c->Sum_0;
            assert forall|i: int| 0 <= i < pa@.len() implies same_size(pa@[i], #[trigger] pc@[i]) by {
                assert(same_size(pa@[i], pb@[i]));
                assert(same_size(pb@[i], pc@[i]));
                lemma_same_size_transitive(pa@[i], pb@[i], pc@[i]);
            }
        },
        SizeExpr::OptionSize { inner, .. } => {
            lemma_same_size_transitive(*inner, *b->OptionSize_inner, *c->OptionSize_inner);
        },
        SizeExpr::VecSize { inner, .. } => {
            lemma_same_size_transitive(*inner, *b->VecSize_inner, *c->VecSize_inner);
        },
        SizeExpr::ResultSize { ok, err, .. } => {
            lemma_same_size_transitive(*ok, *b->ResultSize_ok, *c->ResultSize_ok);
            lemma_same_size_transitive(*err, *b->ResultSize_err, *c->ResultSize_err);
        },
        _ => {},
    }
}

/// Remapping twice is remapping once to the last value: `r2`, remapped
/// from `e` to `v1` and then to `v2`, is structurally the expression `r`
/// remapped from `e` to `v2` (same variants, fixed sizes and copied parts
/// alike, every remapped value `v2`, sums part by part).
pub proof fn law_remap_twice_is_remap_once(e: SizeExpr, v1: ValueExpr, r1: SizeExpr, v2: ValueExpr, r2: SizeExpr, r: SizeExpr)
    requires
        remapped_size(e, v1, r1),
        remapped_size(r1, v2, r2),
        remapped_size(e, v2, r),
    ensures
        same_size(r2, r),
    decreases e,
{
    match e {
        SizeExpr::Sum(pe) => {
            let p1 = r1->Sum_0;
            let p2 = r2->Sum_0;
            let p = r->Sum_0;
            assert forall|i: int| 0 <= i < p2@.len() implies same_size(p2@[i], #[trigger] p@[i]) by {
                assert(remapped_size(pe@[i], v1, p1@[i]));
                assert(remapped_size(p1@[i], v2, p2@[i]));
                assert(remapped_size(pe@[i], v2, p@[i]));
                law_remap_twice_is_remap_once(pe@[i], v1, p1@[i], v2, p2@[i], p@[i]);
            }
        },
        SizeExpr::OptionSize { inner, .. } => {
            let i1 = *r1->OptionSize_inner;
            lemma_same_size_symmetric(*inner, i1);
            lemma_same_size_transitive(i1, *inner, *r->OptionSize_inner);
            lemma_same_size_symmetric(i1, *r2->OptionSize_inner);
            lemma_same_size_transitive(*r2->OptionSize_inner, i1, *r->OptionSize_inner);
        },
        SizeExpr::VecSize { inner, .. } => {
            let i1 = *r1->VecSize_inner;
            lemma_same_size_symmetric(*inner, i1);
            lemma_same_size_transitive(i1, *inner, *r->VecSize_inner);
            lemma_same_size_symmetric(i1, *r2->VecSize_inner);
            lemma_same_size_transitive(*r2->VecSize_inner, i1, *r->VecSize_inner);
        },
        SizeExpr::ResultSize { ok, err, .. } => {
            let o1 = *r1->ResultSize_ok;
            let e1 = *r1->ResultSize_err;
            lemma_same_size_symmetric(*ok, o1);
            lemma_same_size_transitive(o1, *ok, *r->ResultSize_ok);
            lemma_same_size_symmetric(o1, *r2->ResultSize_ok);
            lemma_same_size_transitive(*r2->ResultSize_ok, o1, *r->ResultSize_ok);
            lemma_same_size_symmetric(*err, e1);
            lemma_same_size_transitive(e1, *err, *r->ResultSize_err);
            lemma_same_size_symmetric(e1, *r2->ResultSize_err);
            lemma_same_size_transitive(*r2->ResultSize_err, e1, *r->ResultSize_err);
        },
        _ => {},
    }
}

/// Whether `new` is the encoder `old` with a `String` error of its leading
/// `Result` step measured as an encoded `_$$BoltException` record: the
/// error's size, and the error part of the whole size, become the wire size
/// of the error value. Other encoders are unchanged.
pub open spec fn exception_remapped(old: WriteSeq, new: WriteSeq) -> bool {
    if string_error_first(old) {
        let op = old.ops@[0];
        let sv = op->Result_err.ops@[0]->String_value;
        &&& new.size is ResultSize
        &&& old.size is ResultSize
        &&& new.size->ResultSize_value == old.size->ResultSize_value
        &&& new.size->ResultSize_ok == old.size->ResultSize_ok
        &&& exception_wire(*new.size->ResultSize_err, sv)
        &&& new.ops@.len() == old.ops@.len()
        &&& forall|i: int| 0 < i < old.ops@.len() ==> new.ops@[i] == old.ops@[i]
        &&& new.ops@[0] is Result
        &&& new.ops@[0]->Result_value == op->Result_value
        &&& new.ops@[0]->Result_ok == op->Result_ok
        &&& new.ops@[0]->Result_err.ops == op->Result_err.ops
        &&& exception_wire(new.ops@[0]->Result_err.size, sv)
    } else {
        new == old
    }
}

/// Whether the encoder starts with a `Result` step whose error encoder
/// starts with a `String` step.
pub open spec fn string_error_first(seq: WriteSeq) -> bool {
    &&& seq.ops@.len() > 0
    &&& seq.ops@[0] is Result
    &&& seq.ops@[0]->Result_err.ops@.len() > 0
    &&& seq.ops@[0]->Result_err.ops@[0] is String
}

/// Whether `s` is the wire size of the exception record that carries the
/// string value `sv`.
pub open spec fn exception_wire(s: SizeExpr, sv: ValueExpr) -> bool {
    &&& s matches SizeExpr::WireSize { value: wv, owner: Some(WireSizeOwner::Record(n)) }
    &&& wv == sv
    &&& n@ == "_$$BoltException"@
}

/// Whether an encoder can be remapped: a leading `Result` step has an error
/// encoder with steps, under a `Result` size.
pub open spec fn remappable(seq: WriteSeq) -> bool {
    seq.ops@.len() > 0 && seq.ops@[0] is Result ==> {
        &&& seq.ops@[0]->Result_err.ops@.len() > 0
        &&& seq.size is ResultSize
    }
}

fn exception_size(value: &ValueExpr) -> (res: SizeExpr)
    ensures
        exception_wire(res, *value),
{
    SizeExpr::WireSize { value: copy_value(value), owner: Some(WireSizeOwner::Record(String::from_str("_$$BoltException"))) }
}

/// Measures a `String` error of a leading `Result` step as the encoded
/// exception record that carries it.
pub fn remap_write_seq(seq: WriteSeq) -> (res: WriteSeq)
    requires
        remappable(seq),
    ensures
        exception_remapped(seq, res),
{
    let string_err = seq.ops.len() > 0 && match &seq.ops[0] {
        WriteOp::Result { err, .. } => matches!(&err.ops[0], WriteOp::String { .. }),
        _ => false,
    };
    if !string_err {
        return seq;
    }
    let ghost old = seq;
    let WriteSeq { size, mut ops } = seq;
    let first = ops.remove(0);
    match first {
        WriteOp::Result { value, ok, err } => {
            let WriteSeq { size: _, ops: err_ops } = err;
            let err_size = match &err_ops[0] {
                WriteOp::String { value: sv } => exception_size(sv),
                _ => SizeExpr::Runtime,
            };
            let whole_err = match &err_ops[0] {
                WriteOp::String { value: sv } => exception_size(sv),
                _ => SizeExpr::Runtime,
            };
            let new_size = match size {
                SizeExpr::ResultSize { value: sv, ok: so, .. } => SizeExpr::ResultSize { value: sv, ok: so, err: Box::new(whole_err) },
                other => other,
            };
            let ghost rest = ops@;
            ops.insert(0, WriteOp::Result { value, ok, err: WriteSeq { size: err_size, ops: err_ops } });
            proof {
                assert(old.ops@.remove(0) == rest);
                assert forall|i: int| 0 < i < old.ops@.len() implies ops@[i] == old.ops@[i] by {
                    assert(ops@[i] == rest[i - 1]);
                }
            }
            WriteSeq { size: new_size, ops }
        },
        other => {
            ops.insert(0, other);
            WriteSeq { size, ops }
        },
    }
}


/// A Rust scalar is spelled alike wherever it appears: its `dart:ffi`
/// native type is the same as a scalar, as a boundary type and in the
/// emitter's table, and its Dart value type is the same as a scalar's
/// value, a boundary type's value, a Dart API type and in the table.
pub proof fn law_primitive_spellings_agree(p: PrimitiveType)
    ensures
        primitive_native(ffi_primitive_of(p)) == primitive_native_of(p),
        ffi_native(ffi_type_of(p)) == primitive_native_of(p),
        primitive_sub(ffi_primitive_of(p)) == primitive_dart_of(p),
        ffi_sub(ffi_type_of(p)) == primitive_dart_of(p),
        dart_name(dart_of_primitive(p)) == primitive_dart_of(p),
{
}

/// The byte-data setter and getter of a scalar access the same type:
/// their names differ only in `set` and `get`.
pub proof fn law_blittable_accessors_pair(p: PrimitiveType)
    ensures
        blittable_write_of(p).skip(3) == blittable_read_of(p).skip(3),
{
    reveal_strlit("setInt8");
    reveal_strlit("getInt8");
    reveal_strlit("setUint8");
    reveal_strlit("getUint8");
    reveal_strlit("setInt16");
    reveal_strlit("getInt16");
    reveal_strlit("setUint16");
    reveal_strlit("getUint16");
    reveal_strlit("setInt32");
    reveal_strlit("getInt32");
    reveal_strlit("setUint32");
    reveal_strlit("getUint32");
    reveal_strlit("setInt64");
    reveal_strlit("getInt64");
    reveal_strlit("setUint64");
    reveal_strlit("getUint64");
    reveal_strlit("setFloat32");
    reveal_strlit("getFloat32");
    reveal_strlit("setFloat64");
    reveal_strlit("getFloat64");
    assert(blittable_write_of(p).skip(3) =~= blittable_read_of(p).skip(3));
}


/// The tag that marks a present optional value on the wire.
pub open spec fn option_some_tag() -> nat {
    1
}

/// The tag that marks an absent optional value on the wire.
pub open spec fn option_none_tag() -> nat {
    0
}

/// The tag that marks a successful result on the wire.
pub open spec fn result_ok_tag() -> nat {
    0
}

/// The tag that marks a failed result on the wire.
pub open spec fn result_err_tag() -> nat {
    1
}

/// An optional value is read back by the tags it is written with: the
/// writer writes the present tag before the payload and the absent tag for
/// `null`; the reader maps the absent tag to `null`, the present tag to the
/// payload, and throws on any other tag.
pub proof fn law_option_tags_agree(ws: WriteSeq, rs: ReadSeq, w: Seq<char>, v: Seq<char>, r: Seq<char>, is_void: bool)
    requires
        ws.ops@.len() > 0,
        ws.ops@[0] is Option,
        rs.ops@.len() > 0,
        rs.ops@[0] is Option,
    ensures
        write_text(ws, w, v) == "if ("@ + v + " case final "@ + v + "?) { "@ + w + ".writeU8("@ + decimal(option_some_tag())
            + "); "@ + write_text(ws.ops@[0]->Option_some, w, v) + " } else { "@ + w + ".writeU8("@
            + decimal(option_none_tag()) + "); }"@,
        read_text(rs, r, is_void) == "switch ("@ + r + ".readU8()) { "@ + decimal(option_none_tag()) + " => null, "@
            + decimal(option_some_tag()) + " => "@ + read_text(rs.ops@[0]->Option_some, r, is_void)
            + ", (int _l$tag) => throw $$BoltException(\"Invalid Optional tag: ${_l$tag}\") }"@,
{
    reveal_strlit(".writeU8(1); ");
    reveal_strlit(".writeU8(0); }");
    reveal_strlit(".writeU8(");
    reveal_strlit("); ");
    reveal_strlit("); }");
    reveal_strlit(".readU8()) { 0 => null, 1 => ");
    reveal_strlit(".readU8()) { ");
    reveal_strlit(" => null, ");
    reveal_strlit(" => ");
    assert(decimal(1) =~= seq!['1']);
    assert(decimal(0) =~= seq!['0']);
    assert(".writeU8(1); "@ =~= ".writeU8("@ + decimal(1) + "); "@);
    assert(".writeU8(0); }"@ =~= ".writeU8("@ + decimal(0) + "); }"@);
    assert(".readU8()) { 0 => null, 1 => "@ =~= ".readU8()) { "@ + decimal(0) + " => null, "@ + decimal(1) + " => "@);
    let ws2 = ws.ops@[0]->Option_some;
    let rs2 = rs.ops@[0]->Option_some;
    assert(write_text(ws, w, v) =~= "if ("@ + v + " case final "@ + v + "?) { "@ + w + ".writeU8("@ + decimal(option_some_tag())
        + "); "@ + write_text(ws2, w, v) + " } else { "@ + w + ".writeU8("@ + decimal(option_none_tag()) + "); }"@);
    assert(read_text(rs, r, is_void) =~= "switch ("@ + r + ".readU8()) { "@ + decimal(option_none_tag()) + " => null, "@
        + decimal(option_some_tag()) + " => "@ + read_text(rs2, r, is_void)
        + ", (int _l$tag) => throw $$BoltException(\"Invalid Optional tag: ${_l$tag}\") }"@);
}

/// A result is read back by the tags it is written with: the writer writes
/// the success tag before an `Ok` payload and the failure tag before an
/// `Err` payload; the reader maps the success tag to `$$BoltResult.ok`, the
/// failure tag to `$$BoltResult.err`, and throws on any other tag.
pub proof fn law_result_tags_agree(ws: WriteSeq, rs: ReadSeq, w: Seq<char>, v: Seq<char>, r: Seq<char>, is_void: bool)
    requires
        ws.ops@.len() > 0,
        ws.ops@[0] is Result,
        rs.ops@.len() > 0,
        rs.ops@[0] is Result,
    ensures
        ({
            let ok = ws.ops@[0]->Result_ok;
            let err = ws.ops@[0]->Result_err;
            write_text(ws, w, v) == "switch ("@ + v + ") { case $$BoltResult$Ok(:final value): { "@ + w + ".writeU8("@
                + decimal(result_ok_tag()) + "); "@ + write_text(ok, w, "value"@)
                + " } case $$BoltResult$Err(:final value): { "@ + w + ".writeU8("@ + decimal(result_err_tag()) + "); "@
                + (if err.ops@[0] is String { "value._m$wireEncode("@ + w + ");"@ } else { write_text(err, w, "value"@) })
                + " } }"@
        }),
        ({
            let ok = rs.ops@[0]->Result_ok;
            let err = rs.ops@[0]->Result_err;
            read_text(rs, r, is_void) == "(switch ("@ + r + ".readU8()) { "@ + decimal(result_ok_tag()) + " => $$BoltResult.ok("@
                + (if is_void { "null"@ } else { read_text(ok, r, is_void) })
                + "), "@ + decimal(result_err_tag()) + " => $$BoltResult.err("@
                + (if err.ops@[0] is String { "$$BoltException._m$wireDecode("@ + r + ")"@ } else { read_text(err, r, is_void) })
                + "), (int _l$tag) => throw $$BoltException(\"Invalid Result tag: ${_l$tag}\") })"@
        }),
{
    reveal_strlit(".writeU8(1); ");
    reveal_strlit(".writeU8(0); ");
    reveal_strlit(".writeU8(");
    reveal_strlit("); ");
    reveal_strlit(".readU8()) { 0 => $$BoltResult.ok(");
    reveal_strlit(".readU8()) { ");
    reveal_strlit(" => $$BoltResult.ok(");
    reveal_strlit("), 1 => $$BoltResult.err(");
    reveal_strlit("), ");
    reveal_strlit(" => $$BoltResult.err(");
    assert(decimal(1) =~= seq!['1']);
    assert(decimal(0) =~= seq!['0']);
    assert(".writeU8(1); "@ =~= ".writeU8("@ + decimal(1) + "); "@);
    assert(".writeU8(0); "@ =~= ".writeU8("@ + decimal(0) + "); "@);
    assert(".readU8()) { 0 => $$BoltResult.ok("@ =~= ".readU8()) { "@ + decimal(0) + " => $$BoltResult.ok("@);
    assert("), 1 => $$BoltResult.err("@ =~= "), "@ + decimal(1) + " => $$BoltResult.err("@);
    let wok = ws.ops@[0]->Result_ok;
    let werr = ws.ops@[0]->Result_err;
    let rok = rs.ops@[0]->Result_ok;
    let rerr = rs.ops@[0]->Result_err;
    let wp = if werr.ops@[0] is String { "value._m$wireEncode("@ + w + ");"@ } else { write_text(werr, w, "value"@) };
    let rp = if is_void { "null"@ } else { read_text(rok, r, is_void) };
    let re = if rerr.ops@[0] is String { "$$BoltException._m$wireDecode("@ + r + ")"@ } else { read_text(rerr, r, is_void) };
    assert(write_text(ws, w, v) =~= "switch ("@ + v + ") { case $$BoltResult$Ok(:final value): { "@ + w + ".writeU8("@
        + decimal(result_ok_tag()) + "); "@ + write_text(wok, w, "value"@)
        + " } case $$BoltResult$Err(:final value): { "@ + w + ".writeU8("@ + decimal(result_err_tag()) + "); "@
        + wp + " } }"@);
    assert(read_text(rs, r, is_void) =~= "(switch ("@ + r + ".readU8()) { "@ + decimal(result_ok_tag()) + " => $$BoltResult.ok("@
        + rp + "), "@ + decimal(result_err_tag()) + " => $$BoltResult.err("@ + re
        + "), (int _l$tag) => throw $$BoltException(\"Invalid Result tag: ${_l$tag}\") })"@);
}

/// The Dart type of the values that the encoder `seq` writes, by its first
/// step; `dynamic` when it has none.
pub open spec fn write_seq_type_text(seq: WriteSeq) -> Seq<char>
    decreases seq,
{
    if seq.ops@.len() == 0 {
        "dynamic"@
    } else {
        match seq.ops@[0] {
            WriteOp::Primitive { primitive, .. } => type_text(TypeExpr::Primitive(primitive)),
            WriteOp::String { .. } => "String"@,
            WriteOp::Builtin { id, .. } => type_text(TypeExpr::Builtin(id)),
            WriteOp::Record { id, .. } | WriteOp::Enum { id, .. } | WriteOp::Custom { id, .. } => upper_camel(id@),
            WriteOp::Vec { element_type, .. } => type_text(TypeExpr::Vec(Box::new(element_type))),
            WriteOp::Option { some, .. } => write_seq_type_text(some) + "?"@,
            WriteOp::Result { ok, err, .. } => {
                "$$BoltResult<"@ + write_seq_type_text(ok) + ", "@ + write_seq_type_text(err) + ">"@
            },
        }
    }
}

fn write_seq_dart_type(seq: &WriteSeq) -> (res: String)
    ensures
        res@ == write_seq_type_text(*seq),
    decreases seq,
{
    if seq.ops.len() == 0 {
        return String::from_str("dynamic");
    }
    proof {
        assert(decreases_to!(seq => seq.ops));
        assert(decreases_to!(seq.ops => seq.ops@));
        assert(decreases_to!(seq.ops@ => seq.ops@[0]));
    }
    match &seq.ops[0] {
        WriteOp::Primitive { primitive, .. } => type_expr_dart_type(&TypeExpr::Primitive(*primitive)),
        WriteOp::String { .. } => String::from_str("String"),
        WriteOp::Builtin { id, .. } => type_expr_dart_type(&TypeExpr::Builtin(id.clone())),
        WriteOp::Record { id, .. } => render_type_name(id.as_str()),
        WriteOp::Enum { id, .. } => render_type_name(id.as_str()),
        WriteOp::Custom { id, .. } => render_type_name(id.as_str()),
        WriteOp::Vec { element_type, .. } => type_expr_dart_type(&TypeExpr::Vec(Box::new(copy_type(element_type)))),
        WriteOp::Option { some, .. } => {
            let inner = write_seq_dart_type(some);
            crate::text::cat2(inner.as_str(), "?")
        },
        WriteOp::Result { ok, err, .. } => {
            let o = write_seq_dart_type(ok);
            let e = write_seq_dart_type(err);
            crate::text::cat5("$$BoltResult<", o.as_str(), ", ", e.as_str(), ">")
        },
    }
}

} // verus!
