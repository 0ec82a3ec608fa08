//! What each Rust scalar is on the wire and in typed data: its signedness,
//! width and whether it is a float, and the laws that every table naming a
//! scalar names that same kind.
use vstd::prelude::*;
use crate::ir::PrimitiveType;
use crate::text::decimal;
use crate::python::primitives::rust_name_of;
use crate::dart::api_type::typed_int_list;
use crate::dart::emit::{
    blittable_read_of, blittable_write_of, primitive_list_of, primitive_native_of, read_list_method_of, read_method_of,
    write_method_of,
};
use crate::dart::function::typed_kind;
use crate::dart::types::{ffi_primitive_of, int_native, int_of};

verus! {

/// Whether a scalar is a signed integer.
pub open spec fn scalar_signed(p: PrimitiveType) -> bool {
    p is I8 || p is I16 || p is I32 || p is I64 || p is ISize
}

/// Whether a scalar is a floating-point number.
pub open spec fn scalar_float(p: PrimitiveType) -> bool {
    p is F32 || p is F64
}

/// The width in bits that a scalar crosses the boundary with: a `bool` is
/// a byte, pointer-sized integers are 64 bits.
pub open spec fn scalar_bits(p: PrimitiveType) -> nat {
    match p {
        PrimitiveType::Bool | PrimitiveType::I8 | PrimitiveType::U8 => 8,
        PrimitiveType::I16 | PrimitiveType::U16 => 16,
        PrimitiveType::I32 | PrimitiveType::U32 | PrimitiveType::F32 => 32,
        _ => 64,
    }
}

/// The first letter of a scalar's Rust type: `f`, `i` or `u`.
pub open spec fn sign_letter(p: PrimitiveType) -> Seq<char> {
    if scalar_float(p) { "f"@ } else if scalar_signed(p) { "i"@ } else { "u"@ }
}

/// The rest of a scalar's Rust type: its width, or `size` for a
/// pointer-sized integer.
pub open spec fn width_spelling(p: PrimitiveType) -> Seq<char> {
    if p is ISize || p is USize { "size"@ } else { decimal(scalar_bits(p)) }
}

/// The typed-data kind of a number: `Float`, `Int` or `Uint`, then its
/// width, as in `Uint16`.
pub open spec fn kind_name(p: PrimitiveType) -> Seq<char> {
    (if scalar_float(p) { "Float"@ } else if scalar_signed(p) { "Int"@ } else { "Uint"@ }) + decimal(scalar_bits(p))
}

/// The wire name of a scalar: `Bool`, or `F`, `I` or `U` and its width, as
/// in `U32`.
pub open spec fn wire_name(p: PrimitiveType) -> Seq<char> {
    if p is Bool {
        "Bool"@
    } else {
        (if scalar_float(p) { "F"@ } else if scalar_signed(p) { "I"@ } else { "U"@ }) + decimal(scalar_bits(p))
    }
}

proof fn lemma_width_decimals()
    ensures
        decimal(8) == seq!['8'],
        decimal(16) == seq!['1', '6'],
        decimal(32) == seq!['3', '2'],
        decimal(64) == seq!['6', '4'],
{
    assert(decimal(1) =~= seq!['1']);
    assert(decimal(3) =~= seq!['3']);
    assert(decimal(6) =~= seq!['6']);
    assert(decimal(8) =~= seq!['8']);
    assert(decimal(16) =~= seq!['1', '6']);
    assert(decimal(32) =~= seq!['3', '2']);
    assert(decimal(64) =~= seq!['6', '4']);
}

/// The signedness, float-ness and width of a scalar are those its Rust type
/// spells: `u16` is an unsigned 16-bit integer, `f64` a 64-bit float,
/// `isize` a signed pointer-sized integer.
pub proof fn law_scalar_kind_is_its_rust_type(p: PrimitiveType)
    ensures
        !(p is Bool) ==> rust_name_of(p) == sign_letter(p) + width_spelling(p),
{
    lemma_width_decimals();
    match p {
        PrimitiveType::Bool => {
            reveal_strlit("bool");
            reveal_strlit("f");
            reveal_strlit("i");
            reveal_strlit("u");
            reveal_strlit("size");
        },
        PrimitiveType::I8 => {
            reveal_strlit("i8");
            reveal_strlit("f");
            reveal_strlit("i");
            reveal_strlit("u");
            reveal_strlit("size");
            assert(rust_name_of(PrimitiveType::I8) =~= sign_letter(PrimitiveType::I8) + width_spelling(PrimitiveType::I8));
        },
        PrimitiveType::U8 => {
            reveal_strlit("u8");
            reveal_strlit("f");
            reveal_strlit("i");
            reveal_strlit("u");
            reveal_strlit("size");
            assert(rust_name_of(PrimitiveType::U8) =~= sign_letter(PrimitiveType::U8) + width_spelling(PrimitiveType::U8));
        },
        PrimitiveType::I16 => {
            reveal_strlit("i16");
            reveal_strlit("f");
            reveal_strlit("i");
            reveal_strlit("u");
            reveal_strlit("size");
            assert(rust_name_of(PrimitiveType::I16) =~= sign_letter(PrimitiveType::I16) + width_spelling(PrimitiveType::I16));
        },
        PrimitiveType::U16 => {
            reveal_strlit("u16");
            reveal_strlit("f");
            reveal_strlit("i");
            reveal_strlit("u");
            reveal_strlit("size");
            assert(rust_name_of(PrimitiveType::U16) =~= sign_letter(PrimitiveType::U16) + width_spelling(PrimitiveType::U16));
        },
        PrimitiveType::I32 => {
            reveal_strlit("i32");
            reveal_strlit("f");
            reveal_strlit("i");
            reveal_strlit("u");
            reveal_strlit("size");
            assert(rust_name_of(PrimitiveType::I32) =~= sign_letter(PrimitiveType::I32) + width_spelling(PrimitiveType::I32));
        },
        PrimitiveType::U32 => {
            reveal_strlit("u32");
            reveal_strlit("f");
            reveal_strlit("i");
            reveal_strlit("u");
            reveal_strlit("size");
            assert(rust_name_of(PrimitiveType::U32) =~= sign_letter(PrimitiveType::U32) + width_spelling(PrimitiveType::U32));
        },
        PrimitiveType::I64 => {
            reveal_strlit("i64");
            reveal_strlit("f");
            reveal_strlit("i");
            reveal_strlit("u");
            reveal_strlit("size");
            assert(rust_name_of(PrimitiveType::I64) =~= sign_letter(PrimitiveType::I64) + width_spelling(PrimitiveType::I64));
        },
        PrimitiveType::U64 => {
            reveal_strlit("u64");
            reveal_strlit("f");
            reveal_strlit("i");
            reveal_strlit("u");
            reveal_strlit("size");
            assert(rust_name_of(PrimitiveType::U64) =~= sign_letter(PrimitiveType::U64) + width_spelling(PrimitiveType::U64));
        },
        PrimitiveType::ISize => {
            reveal_strlit("isize");
            reveal_strlit("f");
            reveal_strlit("i");
            reveal_strlit("u");
            reveal_strlit("size");
            assert(rust_name_of(PrimitiveType::ISize) =~= sign_letter(PrimitiveType::ISize) + width_spelling(PrimitiveType::ISize));
        },
        PrimitiveType::USize => {
            reveal_strlit("usize");
            reveal_strlit("f");
            reveal_strlit("i");
            reveal_strlit("u");
            reveal_strlit("size");
            assert(rust_name_of(PrimitiveType::USize) =~= sign_letter(PrimitiveType::USize) + width_spelling(PrimitiveType::USize));
        },
        PrimitiveType::F32 => {
            reveal_strlit("f32");
            reveal_strlit("f");
            reveal_strlit("i");
            reveal_strlit("u");
            reveal_strlit("size");
            assert(rust_name_of(PrimitiveType::F32) =~= sign_letter(PrimitiveType::F32) + width_spelling(PrimitiveType::F32));
        },
        PrimitiveType::F64 => {
            reveal_strlit("f64");
            reveal_strlit("f");
            reveal_strlit("i");
            reveal_strlit("u");
            reveal_strlit("size");
            assert(rust_name_of(PrimitiveType::F64) =~= sign_letter(PrimitiveType::F64) + width_spelling(PrimitiveType::F64));
        },
    }
}

/// A scalar is written and read with the methods of its own kind: the
/// writer's method is `write` and the scalar's wire name, the reader's is
/// `read` and the same name (an `f64` is written with `writeF64` and read
/// with `readF64`, a `u32` with `writeU32` and `readU32`).
pub proof fn law_wire_methods_name_the_scalar(p: PrimitiveType)
    ensures
        write_method_of(p) == "write"@ + wire_name(p),
        read_method_of(p) == "read"@ + wire_name(p),
        write_method_of(p).skip(5) == read_method_of(p).skip(4),
{
    lemma_width_decimals();
    match p {
        PrimitiveType::Bool => {
            reveal_strlit("writeBool");
            reveal_strlit("readBool");
            reveal_strlit("write");
            reveal_strlit("read");
            reveal_strlit("Bool");
            reveal_strlit("F");
            reveal_strlit("I");
            reveal_strlit("U");
            assert(write_method_of(PrimitiveType::Bool) =~= "write"@ + wire_name(PrimitiveType::Bool));
            assert(read_method_of(PrimitiveType::Bool) =~= "read"@ + wire_name(PrimitiveType::Bool));
        },
        PrimitiveType::I8 => {
            reveal_strlit("writeI8");
            reveal_strlit("readI8");
            reveal_strlit("write");
            reveal_strlit("read");
            reveal_strlit("Bool");
            reveal_strlit("F");
            reveal_strlit("I");
            reveal_strlit("U");
            assert(write_method_of(PrimitiveType::I8) =~= "write"@ + wire_name(PrimitiveType::I8));
            assert(read_method_of(PrimitiveType::I8) =~= "read"@ + wire_name(PrimitiveType::I8));
        },
        PrimitiveType::U8 => {
            reveal_strlit("writeU8");
            reveal_strlit("readU8");
            reveal_strlit("write");
            reveal_strlit("read");
            reveal_strlit("Bool");
            reveal_strlit("F");
            reveal_strlit("I");
            reveal_strlit("U");
            assert(write_method_of(PrimitiveType::U8) =~= "write"@ + wire_name(PrimitiveType::U8));
            assert(read_method_of(PrimitiveType::U8) =~= "read"@ + wire_name(PrimitiveType::U8));
        },
        PrimitiveType::I16 => {
            reveal_strlit("writeI16");
            reveal_strlit("readI16");
            reveal_strlit("write");
            reveal_strlit("read");
            reveal_strlit("Bool");
            reveal_strlit("F");
            reveal_strlit("I");
            reveal_strlit("U");
            assert(write_method_of(PrimitiveType::I16) =~= "write"@ + wire_name(PrimitiveType::I16));
            assert(read_method_of(PrimitiveType::I16) =~= "read"@ + wire_name(PrimitiveType::I16));
        },
        PrimitiveType::U16 => {
            reveal_strlit("writeU16");
            reveal_strlit("readU16");
            reveal_strlit("write");
            reveal_strlit("read");
            reveal_strlit("Bool");
            reveal_strlit("F");
            reveal_strlit("I");
            reveal_strlit("U");
            assert(write_method_of(PrimitiveType::U16) =~= "write"@ + wire_name(PrimitiveType::U16));
            assert(read_method_of(PrimitiveType::U16) =~= "read"@ + wire_name(PrimitiveType::U16));
        },
        PrimitiveType::I32 => {
            reveal_strlit("writeI32");
            reveal_strlit("readI32");
            reveal_strlit("write");
            reveal_strlit("read");
            reveal_strlit("Bool");
            reveal_strlit("F");
            reveal_strlit("I");
            reveal_strlit("U");
            assert(write_method_of(PrimitiveType::I32) =~= "write"@ + wire_name(PrimitiveType::I32));
            assert(read_method_of(PrimitiveType::I32) =~= "read"@ + wire_name(PrimitiveType::I32));
        },
        PrimitiveType::U32 => {
            reveal_strlit("writeU32");
            reveal_strlit("readU32");
            reveal_strlit("write");
            reveal_strlit("read");
            reveal_strlit("Bool");
            reveal_strlit("F");
            reveal_strlit("I");
            reveal_strlit("U");
            assert(write_method_of(PrimitiveType::U32) =~= "write"@ + wire_name(PrimitiveType::U32));
            assert(read_method_of(PrimitiveType::U32) =~= "read"@ + wire_name(PrimitiveType::U32));
        },
        PrimitiveType::I64 => {
            reveal_strlit("writeI64");
            reveal_strlit("readI64");
            reveal_strlit("write");
            reveal_strlit("read");
            reveal_strlit("Bool");
            reveal_strlit("F");
            reveal_strlit("I");
            reveal_strlit("U");
            assert(write_method_of(PrimitiveType::I64) =~= "write"@ + wire_name(PrimitiveType::I64));
            assert(read_method_of(PrimitiveType::I64) =~= "read"@ + wire_name(PrimitiveType::I64));
        },
        PrimitiveType::U64 => {
            reveal_strlit("writeU64");
            reveal_strlit("readU64");
            reveal_strlit("write");
            reveal_strlit("read");
            reveal_strlit("Bool");
            reveal_strlit("F");
            reveal_strlit("I");
            reveal_strlit("U");
            assert(write_method_of(PrimitiveType::U64) =~= "write"@ + wire_name(PrimitiveType::U64));
            assert(read_method_of(PrimitiveType::U64) =~= "read"@ + wire_name(PrimitiveType::U64));
        },
        PrimitiveType::ISize => {
            reveal_strlit("writeI64");
            reveal_strlit("readI64");
            reveal_strlit("write");
            reveal_strlit("read");
            reveal_strlit("Bool");
            reveal_strlit("F");
            reveal_strlit("I");
            reveal_strlit("U");
            assert(write_method_of(PrimitiveType::ISize) =~= "write"@ + wire_name(PrimitiveType::ISize));
            assert(read_method_of(PrimitiveType::ISize) =~= "read"@ + wire_name(PrimitiveType::ISize));
        },
        PrimitiveType::USize => {
            reveal_strlit("writeU64");
            reveal_strlit("readU64");
            reveal_strlit("write");
            reveal_strlit("read");
            reveal_strlit("Bool");
            reveal_strlit("F");
            reveal_strlit("I");
            reveal_strlit("U");
            assert(write_method_of(PrimitiveType::USize) =~= "write"@ + wire_name(PrimitiveType::USize));
            assert(read_method_of(PrimitiveType::USize) =~= "read"@ + wire_name(PrimitiveType::USize));
        },
        PrimitiveType::F32 => {
            reveal_strlit("writeF32");
            reveal_strlit("readF32");
            reveal_strlit("write");
            reveal_strlit("read");
            reveal_strlit("Bool");
            reveal_strlit("F");
            reveal_strlit("I");
            reveal_strlit("U");
            assert(write_method_of(PrimitiveType::F32) =~= "write"@ + wire_name(PrimitiveType::F32));
            assert(read_method_of(PrimitiveType::F32) =~= "read"@ + wire_name(PrimitiveType::F32));
        },
        PrimitiveType::F64 => {
            reveal_strlit("writeF64");
            reveal_strlit("readF64");
            reveal_strlit("write");
            reveal_strlit("read");
            reveal_strlit("Bool");
            reveal_strlit("F");
            reveal_strlit("I");
            reveal_strlit("U");
            assert(write_method_of(PrimitiveType::F64) =~= "write"@ + wire_name(PrimitiveType::F64));
            assert(read_method_of(PrimitiveType::F64) =~= "read"@ + wire_name(PrimitiveType::F64));
        },
    }
    assert(("write"@ + wire_name(p)).skip(5) =~= wire_name(p));
    assert(("read"@ + wire_name(p)).skip(4) =~= wire_name(p));
}

/// Every typed-data name of a numeric scalar names its own kind: a vector
/// of it is a `<kind>List` and is read with `read<kind>List`, a blittable
/// field is set with `set<kind>` and got with `get<kind>`, and a borrowed
/// span of it is viewed as `as<kind>List` (a `u16` is a `Uint16`, never an
/// `Int16`).
pub proof fn law_typed_data_names_the_scalar(p: PrimitiveType)
    ensures
        !(p is Bool) ==> {
            &&& primitive_list_of(p) == "$$typed_data."@ + kind_name(p) + "List"@
            &&& read_list_method_of(p) == "read"@ + kind_name(p) + "List"@
            &&& blittable_write_of(p) == "set"@ + kind_name(p)
            &&& blittable_read_of(p) == "get"@ + kind_name(p)
            &&& typed_kind(ffi_primitive_of(p)) == kind_name(p)
        },
        !(p is Bool) && !scalar_float(p) ==> typed_int_list(int_of(p)) == "$$typed_data."@ + kind_name(p) + "List"@,
{
    lemma_width_decimals();
    match p {
        PrimitiveType::Bool => {
        },
        PrimitiveType::I8 => {
            reveal_strlit("$$typed_data.Int8List");
            reveal_strlit("readInt8List");
            reveal_strlit("setInt8");
            reveal_strlit("getInt8");
            reveal_strlit("Int8");
            reveal_strlit("$$typed_data.");
            reveal_strlit("List");
            reveal_strlit("read");
            reveal_strlit("set");
            reveal_strlit("get");
            reveal_strlit("Float");
            reveal_strlit("Int");
            reveal_strlit("Uint");
            assert(primitive_list_of(PrimitiveType::I8) =~= "$$typed_data."@ + kind_name(PrimitiveType::I8) + "List"@);
            assert(read_list_method_of(PrimitiveType::I8) =~= "read"@ + kind_name(PrimitiveType::I8) + "List"@);
            assert(blittable_write_of(PrimitiveType::I8) =~= "set"@ + kind_name(PrimitiveType::I8));
            assert(blittable_read_of(PrimitiveType::I8) =~= "get"@ + kind_name(PrimitiveType::I8));
            assert(typed_kind(ffi_primitive_of(PrimitiveType::I8)) =~= kind_name(PrimitiveType::I8));
            assert(typed_int_list(int_of(PrimitiveType::I8)) =~= "$$typed_data."@ + kind_name(PrimitiveType::I8) + "List"@);
        },
        PrimitiveType::U8 => {
            reveal_strlit("$$typed_data.Uint8List");
            reveal_strlit("readUint8List");
            reveal_strlit("setUint8");
            reveal_strlit("getUint8");
            reveal_strlit("Uint8");
            reveal_strlit("$$typed_data.");
            reveal_strlit("List");
            reveal_strlit("read");
            reveal_strlit("set");
            reveal_strlit("get");
            reveal_strlit("Float");
            reveal_strlit("Int");
            reveal_strlit("Uint");
            assert(primitive_list_of(PrimitiveType::U8) =~= "$$typed_data."@ + kind_name(PrimitiveType::U8) + "List"@);
            assert(read_list_method_of(PrimitiveType::U8) =~= "read"@ + kind_name(PrimitiveType::U8) + "List"@);
            assert(blittable_write_of(PrimitiveType::U8) =~= "set"@ + kind_name(PrimitiveType::U8));
            assert(blittable_read_of(PrimitiveType::U8) =~= "get"@ + kind_name(PrimitiveType::U8));
            assert(typed_kind(ffi_primitive_of(PrimitiveType::U8)) =~= kind_name(PrimitiveType::U8));
            assert(typed_int_list(int_of(PrimitiveType::U8)) =~= "$$typed_data."@ + kind_name(PrimitiveType::U8) + "List"@);
        },
        PrimitiveType::I16 => {
            reveal_strlit("$$typed_data.Int16List");
            reveal_strlit("readInt16List");
            reveal_strlit("setInt16");
            reveal_strlit("getInt16");
            reveal_strlit("Int16");
            reveal_strlit("$$typed_data.");
            reveal_strlit("List");
            reveal_strlit("read");
            reveal_strlit("set");
            reveal_strlit("get");
            reveal_strlit("Float");
            reveal_strlit("Int");
            reveal_strlit("Uint");
            assert(primitive_list_of(PrimitiveType::I16) =~= "$$typed_data."@ + kind_name(PrimitiveType::I16) + "List"@);
            assert(read_list_method_of(PrimitiveType::I16) =~= "read"@ + kind_name(PrimitiveType::I16) + "List"@);
            assert(blittable_write_of(PrimitiveType::I16) =~= "set"@ + kind_name(PrimitiveType::I16));
            assert(blittable_read_of(PrimitiveType::I16) =~= "get"@ + kind_name(PrimitiveType::I16));
            assert(typed_kind(ffi_primitive_of(PrimitiveType::I16)) =~= kind_name(PrimitiveType::I16));
            assert(typed_int_list(int_of(PrimitiveType::I16)) =~= "$$typed_data."@ + kind_name(PrimitiveType::I16) + "List"@);
        },
        PrimitiveType::U16 => {
            reveal_strlit("$$typed_data.Uint16List");
            reveal_strlit("readUint16List");
            reveal_strlit("setUint16");
            reveal_strlit("getUint16");
            reveal_strlit("Uint16");
            reveal_strlit("$$typed_data.");
            reveal_strlit("List");
            reveal_strlit("read");
            reveal_strlit("set");
            reveal_strlit("get");
            reveal_strlit("Float");
            reveal_strlit("Int");
            reveal_strlit("Uint");
            assert(primitive_list_of(PrimitiveType::U16) =~= "$$typed_data."@ + kind_name(PrimitiveType::U16) + "List"@);
            assert(read_list_method_of(PrimitiveType::U16) =~= "read"@ + kind_name(PrimitiveType::U16) + "List"@);
            assert(blittable_write_of(PrimitiveType::U16) =~= "set"@ + kind_name(PrimitiveType::U16));
            assert(blittable_read_of(PrimitiveType::U16) =~= "get"@ + kind_name(PrimitiveType::U16));
            assert(typed_kind(ffi_primitive_of(PrimitiveType::U16)) =~= kind_name(PrimitiveType::U16));
            assert(typed_int_list(int_of(PrimitiveType::U16)) =~= "$$typed_data."@ + kind_name(PrimitiveType::U16) + "List"@);
        },
        PrimitiveType::I32 => {
            reveal_strlit("$$typed_data.Int32List");
            reveal_strlit("readInt32List");
            reveal_strlit("setInt32");
            reveal_strlit("getInt32");
            reveal_strlit("Int32");
            reveal_strlit("$$typed_data.");
            reveal_strlit("List");
            reveal_strlit("read");
            reveal_strlit("set");
            reveal_strlit("get");
            reveal_strlit("Float");
            reveal_strlit("Int");
            reveal_strlit("Uint");
            assert(primitive_list_of(PrimitiveType::I32) =~= "$$typed_data."@ + kind_name(PrimitiveType::I32) + "List"@);
            assert(read_list_method_of(PrimitiveType::I32) =~= "read"@ + kind_name(PrimitiveType::I32) + "List"@);
            assert(blittable_write_of(PrimitiveType::I32) =~= "set"@ + kind_name(PrimitiveType::I32));
            assert(blittable_read_of(PrimitiveType::I32) =~= "get"@ + kind_name(PrimitiveType::I32));
            assert(typed_kind(ffi_primitive_of(PrimitiveType::I32)) =~= kind_name(PrimitiveType::I32));
            assert(typed_int_list(int_of(PrimitiveType::I32)) =~= "$$typed_data."@ + kind_name(PrimitiveType::I32) + "List"@);
        },
        PrimitiveType::U32 => {
            reveal_strlit("$$typed_data.Uint32List");
            reveal_strlit("readUint32List");
            reveal_strlit("setUint32");
            reveal_strlit("getUint32");
            reveal_strlit("Uint32");
            reveal_strlit("$$typed_data.");
            reveal_strlit("List");
            reveal_strlit("read");
            reveal_strlit("set");
            reveal_strlit("get");
            reveal_strlit("Float");
            reveal_strlit("Int");
            reveal_strlit("Uint");
            assert(primitive_list_of(PrimitiveType::U32) =~= "$$typed_data."@ + kind_name(PrimitiveType::U32) + "List"@);
            assert(read_list_method_of(PrimitiveType::U32) =~= "read"@ + kind_name(PrimitiveType::U32) + "List"@);
            assert(blittable_write_of(PrimitiveType::U32) =~= "set"@ + kind_name(PrimitiveType::U32));
            assert(blittable_read_of(PrimitiveType::U32) =~= "get"@ + kind_name(PrimitiveType::U32));
            assert(typed_kind(ffi_primitive_of(PrimitiveType::U32)) =~= kind_name(PrimitiveType::U32));
            assert(typed_int_list(int_of(PrimitiveType::U32)) =~= "$$typed_data."@ + kind_name(PrimitiveType::U32) + "List"@);
        },
        PrimitiveType::I64 => {
            reveal_strlit("$$typed_data.Int64List");
            reveal_strlit("readInt64List");
            reveal_strlit("setInt64");
            reveal_strlit("getInt64");
            reveal_strlit("Int64");
            reveal_strlit("$$typed_data.");
            reveal_strlit("List");
            reveal_strlit("read");
            reveal_strlit("set");
            reveal_strlit("get");
            reveal_strlit("Float");
            reveal_strlit("Int");
            reveal_strlit("Uint");
            assert(primitive_list_of(PrimitiveType::I64) =~= "$$typed_data."@ + kind_name(PrimitiveType::I64) + "List"@);
            assert(read_list_method_of(PrimitiveType::I64) =~= "read"@ + kind_name(PrimitiveType::I64) + "List"@);
            assert(blittable_write_of(PrimitiveType::I64) =~= "set"@ + kind_name(PrimitiveType::I64));
            assert(blittable_read_of(PrimitiveType::I64) =~= "get"@ + kind_name(PrimitiveType::I64));
            assert(typed_kind(ffi_primitive_of(PrimitiveType::I64)) =~= kind_name(PrimitiveType::I64));
            assert(typed_int_list(int_of(PrimitiveType::I64)) =~= "$$typed_data."@ + kind_name(PrimitiveType::I64) + "List"@);
        },
        PrimitiveType::U64 => {
            reveal_strlit("$$typed_data.Uint64List");
            reveal_strlit("readUint64List");
            reveal_strlit("setUint64");
            reveal_strlit("getUint64");
            reveal_strlit("Uint64");
            reveal_strlit("$$typed_data.");
            reveal_strlit("List");
            reveal_strlit("read");
            reveal_strlit("set");
            reveal_strlit("get");
            reveal_strlit("Float");
            reveal_strlit("Int");
            reveal_strlit("Uint");
            assert(primitive_list_of(PrimitiveType::U64) =~= "$$typed_data."@ + kind_name(PrimitiveType::U64) + "List"@);
            assert(read_list_method_of(PrimitiveType::U64) =~= "read"@ + kind_name(PrimitiveType::U64) + "List"@);
            assert(blittable_write_of(PrimitiveType::U64) =~= "set"@ + kind_name(PrimitiveType::U64));
            assert(blittable_read_of(PrimitiveType::U64) =~= "get"@ + kind_name(PrimitiveType::U64));
            assert(typed_kind(ffi_primitive_of(PrimitiveType::U64)) =~= kind_name(PrimitiveType::U64));
            assert(typed_int_list(int_of(PrimitiveType::U64)) =~= "$$typed_data."@ + kind_name(PrimitiveType::U64) + "List"@);
        },
        PrimitiveType::ISize => {
            reveal_strlit("$$typed_data.Int64List");
            reveal_strlit("readInt64List");
            reveal_strlit("setInt64");
            reveal_strlit("getInt64");
            reveal_strlit("Int64");
            reveal_strlit("$$typed_data.");
            reveal_strlit("List");
            reveal_strlit("read");
            reveal_strlit("set");
            reveal_strlit("get");
            reveal_strlit("Float");
            reveal_strlit("Int");
            reveal_strlit("Uint");
            assert(primitive_list_of(PrimitiveType::ISize) =~= "$$typed_data."@ + kind_name(PrimitiveType::ISize) + "List"@);
            assert(read_list_method_of(PrimitiveType::ISize) =~= "read"@ + kind_name(PrimitiveType::ISize) + "List"@);
            assert(blittable_write_of(PrimitiveType::ISize) =~= "set"@ + kind_name(PrimitiveType::ISize));
            assert(blittable_read_of(PrimitiveType::ISize) =~= "get"@ + kind_name(PrimitiveType::ISize));
            assert(typed_kind(ffi_primitive_of(PrimitiveType::ISize)) =~= kind_name(PrimitiveType::ISize));
            assert(typed_int_list(int_of(PrimitiveType::ISize)) =~= "$$typed_data."@ + kind_name(PrimitiveType::ISize) + "List"@);
        },
        PrimitiveType::USize => {
            reveal_strlit("$$typed_data.Uint64List");
            reveal_strlit("readUint64List");
            reveal_strlit("setUint64");
            reveal_strlit("getUint64");
            reveal_strlit("Uint64");
            reveal_strlit("$$typed_data.");
            reveal_strlit("List");
            reveal_strlit("read");
            reveal_strlit("set");
            reveal_strlit("get");
            reveal_strlit("Float");
            reveal_strlit("Int");
            reveal_strlit("Uint");
            assert(primitive_list_of(PrimitiveType::USize) =~= "$$typed_data."@ + kind_name(PrimitiveType::USize) + "List"@);
            assert(read_list_method_of(PrimitiveType::USize) =~= "read"@ + kind_name(PrimitiveType::USize) + "List"@);
            assert(blittable_write_of(PrimitiveType::USize) =~= "set"@ + kind_name(PrimitiveType::USize));
            assert(blittable_read_of(PrimitiveType::USize) =~= "get"@ + kind_name(PrimitiveType::USize));
            assert(typed_kind(ffi_primitive_of(PrimitiveType::USize)) =~= kind_name(PrimitiveType::USize));
            assert(typed_int_list(int_of(PrimitiveType::USize)) =~= "$$typed_data."@ + kind_name(PrimitiveType::USize) + "List"@);
        },
        PrimitiveType::F32 => {
            reveal_strlit("$$typed_data.Float32List");
            reveal_strlit("readFloat32List");
            reveal_strlit("setFloat32");
            reveal_strlit("getFloat32");
            reveal_strlit("Float32");
            reveal_strlit("$$typed_data.");
            reveal_strlit("List");
            reveal_strlit("read");
            reveal_strlit("set");
            reveal_strlit("get");
            reveal_strlit("Float");
            reveal_strlit("Int");
            reveal_strlit("Uint");
            assert(primitive_list_of(PrimitiveType::F32) =~= "$$typed_data."@ + kind_name(PrimitiveType::F32) + "List"@);
            assert(read_list_method_of(PrimitiveType::F32) =~= "read"@ + kind_name(PrimitiveType::F32) + "List"@);
            assert(blittable_write_of(PrimitiveType::F32) =~= "set"@ + kind_name(PrimitiveType::F32));
            assert(blittable_read_of(PrimitiveType::F32) =~= "get"@ + kind_name(PrimitiveType::F32));
            assert(typed_kind(ffi_primitive_of(PrimitiveType::F32)) =~= kind_name(PrimitiveType::F32));
        },
        PrimitiveType::F64 => {
            reveal_strlit("$$typed_data.Float64List");
            reveal_strlit("readFloat64List");
            reveal_strlit("setFloat64");
            reveal_strlit("getFloat64");
            reveal_strlit("Float64");
            reveal_strlit("$$typed_data.");
            reveal_strlit("List");
            reveal_strlit("read");
            reveal_strlit("set");
            reveal_strlit("get");
            reveal_strlit("Float");
            reveal_strlit("Int");
            reveal_strlit("Uint");
            assert(primitive_list_of(PrimitiveType::F64) =~= "$$typed_data."@ + kind_name(PrimitiveType::F64) + "List"@);
            assert(read_list_method_of(PrimitiveType::F64) =~= "read"@ + kind_name(PrimitiveType::F64) + "List"@);
            assert(blittable_write_of(PrimitiveType::F64) =~= "set"@ + kind_name(PrimitiveType::F64));
            assert(blittable_read_of(PrimitiveType::F64) =~= "get"@ + kind_name(PrimitiveType::F64));
            assert(typed_kind(ffi_primitive_of(PrimitiveType::F64)) =~= kind_name(PrimitiveType::F64));
        },
    }
}

/// A fixed-width integer's `dart:ffi` native type is its typed-data kind:
/// `$$ffi.Uint32` for a `u32`.
pub proof fn law_native_type_names_the_scalar(p: PrimitiveType)
    ensures
        !(p is Bool) && !scalar_float(p) && !(p is ISize) && !(p is USize) ==> {
            &&& int_native(int_of(p)) == "$$ffi."@ + kind_name(p)
            &&& primitive_native_of(p) == "$$ffi."@ + kind_name(p)
        },
{
    lemma_width_decimals();
    match p {
        PrimitiveType::Bool => {
        },
        PrimitiveType::I8 => {
            reveal_strlit("$$ffi.Int8");
            reveal_strlit("$$ffi.");
            reveal_strlit("Int8");
            reveal_strlit("Int");
            reveal_strlit("Uint");
            assert(int_native(int_of(PrimitiveType::I8)) =~= "$$ffi."@ + kind_name(PrimitiveType::I8));
            assert(primitive_native_of(PrimitiveType::I8) =~= "$$ffi."@ + kind_name(PrimitiveType::I8));
        },
        PrimitiveType::U8 => {
            reveal_strlit("$$ffi.Uint8");
            reveal_strlit("$$ffi.");
            reveal_strlit("Uint8");
            reveal_strlit("Int");
            reveal_strlit("Uint");
            assert(int_native(int_of(PrimitiveType::U8)) =~= "$$ffi."@ + kind_name(PrimitiveType::U8));
            assert(primitive_native_of(PrimitiveType::U8) =~= "$$ffi."@ + kind_name(PrimitiveType::U8));
        },
        PrimitiveType::I16 => {
            reveal_strlit("$$ffi.Int16");
            reveal_strlit("$$ffi.");
            reveal_strlit("Int16");
            reveal_strlit("Int");
            reveal_strlit("Uint");
            assert(int_native(int_of(PrimitiveType::I16)) =~= "$$ffi."@ + kind_name(PrimitiveType::I16));
            assert(primitive_native_of(PrimitiveType::I16) =~= "$$ffi."@ + kind_name(PrimitiveType::I16));
        },
        PrimitiveType::U16 => {
            reveal_strlit("$$ffi.Uint16");
            reveal_strlit("$$ffi.");
            reveal_strlit("Uint16");
            reveal_strlit("Int");
            reveal_strlit("Uint");
            assert(int_native(int_of(PrimitiveType::U16)) =~= "$$ffi."@ + kind_name(PrimitiveType::U16));
            assert(primitive_native_of(PrimitiveType::U16) =~= "$$ffi."@ + kind_name(PrimitiveType::U16));
        },
        PrimitiveType::I32 => {
            reveal_strlit("$$ffi.Int32");
            reveal_strlit("$$ffi.");
            reveal_strlit("Int32");
            reveal_strlit("Int");
            reveal_strlit("Uint");
            assert(int_native(int_of(PrimitiveType::I32)) =~= "$$ffi."@ + kind_name(PrimitiveType::I32));
            assert(primitive_native_of(PrimitiveType::I32) =~= "$$ffi."@ + kind_name(PrimitiveType::I32));
        },
        PrimitiveType::U32 => {
            reveal_strlit("$$ffi.Uint32");
            reveal_strlit("$$ffi.");
            reveal_strlit("Uint32");
            reveal_strlit("Int");
            reveal_strlit("Uint");
            assert(int_native(int_of(PrimitiveType::U32)) =~= "$$ffi."@ + kind_name(PrimitiveType::U32));
            assert(primitive_native_of(PrimitiveType::U32) =~= "$$ffi."@ + kind_name(PrimitiveType::U32));
        },
        PrimitiveType::I64 => {
            reveal_strlit("$$ffi.Int64");
            reveal_strlit("$$ffi.");
            reveal_strlit("Int64");
            reveal_strlit("Int");
            reveal_strlit("Uint");
            assert(int_native(int_of(PrimitiveType::I64)) =~= "$$ffi."@ + kind_name(PrimitiveType::I64));
            assert(primitive_native_of(PrimitiveType::I64) =~= "$$ffi."@ + kind_name(PrimitiveType::I64));
        },
        PrimitiveType::U64 => {
            reveal_strlit("$$ffi.Uint64");
            reveal_strlit("$$ffi.");
            reveal_strlit("Uint64");
            reveal_strlit("Int");
            reveal_strlit("Uint");
            assert(int_native(int_of(PrimitiveType::U64)) =~= "$$ffi."@ + kind_name(PrimitiveType::U64));
            assert(primitive_native_of(PrimitiveType::U64) =~= "$$ffi."@ + kind_name(PrimitiveType::U64));
        },
        PrimitiveType::ISize => {
        },
        PrimitiveType::USize => {
        },
        PrimitiveType::F32 => {
        },
        PrimitiveType::F64 => {
        },
    }
}

} // verus!
