//! Dart-side types: the `dart:ffi` native types of the C boundary and the
//! Dart types that the generated API exposes.
use vstd::prelude::*;
use crate::ir::PrimitiveType;
use crate::abi::{AbiParam, AbiType, ErrorTransport, ParamRole, ParamValueStrategy, ReturnShape, SpanContent, Transport};
use crate::dart::naming::{lower_camel, upper_camel, NamingConvention};
use crate::text::decimal;
use crate::text::{join, views};

verus! {

/// An integer type of `dart:ffi`.
#[derive(Debug, Clone, Copy, PartialEq, Eq)]
pub enum DartFFIIntType {
    Uint8,
    Int8,
    Uint16,
    Int16,
    Uint32,
    Int32,
    Uint64,
    Int64,
    UintPtr,
    IntPtr,
}

/// The `dart:ffi` spelling of an integer type.
pub open spec fn int_native(t: DartFFIIntType) -> Seq<char> {
    match t {
        DartFFIIntType::Uint8 => "$$ffi.Uint8"@,
        DartFFIIntType::Int8 => "$$ffi.Int8"@,
        DartFFIIntType::Uint16 => "$$ffi.Uint16"@,
        DartFFIIntType::Int16 => "$$ffi.Int16"@,
        DartFFIIntType::Uint32 => "$$ffi.Uint32"@,
        DartFFIIntType::Int32 => "$$ffi.Int32"@,
        DartFFIIntType::Uint64 => "$$ffi.Uint64"@,
        DartFFIIntType::Int64 => "$$ffi.Int64"@,
        DartFFIIntType::UintPtr => "$$ffi.UintPtr"@,
        DartFFIIntType::IntPtr => "$$ffi.IntPtr"@,
    }
}

impl DartFFIIntType {
    /// The `dart:ffi` native type name.
    pub fn native_type(&self) -> (res: String)
        ensures
            res@ == int_native(*self),
    {
        match self {
            Self::Uint8 => String::from_str("$$ffi.Uint8"),
            Self::Int8 => String::from_str("$$ffi.Int8"),
            Self::Uint16 => String::from_str("$$ffi.Uint16"),
            Self::Int16 => String::from_str("$$ffi.Int16"),
            Self::Uint32 => String::from_str("$$ffi.Uint32"),
            Self::Int32 => String::from_str("$$ffi.Int32"),
            Self::Uint64 => String::from_str("$$ffi.Uint64"),
            Self::Int64 => String::from_str("$$ffi.Int64"),
            Self::UintPtr => String::from_str("$$ffi.UintPtr"),
            Self::IntPtr => String::from_str("$$ffi.IntPtr"),
        }
    }
}

/// A floating-point type of `dart:ffi`.
#[derive(Debug, Clone, Copy, PartialEq, Eq)]
pub enum DartFFIFloatType {
    Float32,
    Float64,
}

/// The `dart:ffi` spelling of a floating-point type.
pub open spec fn float_native(t: DartFFIFloatType) -> Seq<char> {
    match t {
        DartFFIFloatType::Float32 => "$$ffi.Float"@,
        DartFFIFloatType::Float64 => "$$ffi.Double"@,
    }
}

impl DartFFIFloatType {
    /// The `dart:ffi` native type name.
    pub fn native_type(&self) -> (res: String)
        ensures
            res@ == float_native(*self),
    {
        match self {
            DartFFIFloatType::Float32 => String::from_str("$$ffi.Float"),
            DartFFIFloatType::Float64 => String::from_str("$$ffi.Double"),
        }
    }
}

/// A scalar of `dart:ffi`.
#[derive(Debug, Clone, Copy, PartialEq, Eq)]
pub enum DartFFIPrimitiveType {
    Bool,
    Int(DartFFIIntType),
    Float(DartFFIFloatType),
}

/// The `dart:ffi` integer type of a Rust integer type.
pub open spec fn int_of(p: PrimitiveType) -> DartFFIIntType {
    match p {
        PrimitiveType::I8 => DartFFIIntType::Int8,
        PrimitiveType::U8 => DartFFIIntType::Uint8,
        PrimitiveType::I16 => DartFFIIntType::Int16,
        PrimitiveType::U16 => DartFFIIntType::Uint16,
        PrimitiveType::I32 => DartFFIIntType::Int32,
        PrimitiveType::U32 => DartFFIIntType::Uint32,
        PrimitiveType::I64 => DartFFIIntType::Int64,
        PrimitiveType::U64 => DartFFIIntType::Uint64,
        PrimitiveType::ISize => DartFFIIntType::IntPtr,
        _ => DartFFIIntType::UintPtr,
    }
}

/// The `dart:ffi` scalar of a Rust primitive.
pub open spec fn ffi_primitive_of(p: PrimitiveType) -> DartFFIPrimitiveType {
    match p {
        PrimitiveType::Bool => DartFFIPrimitiveType::Bool,
        PrimitiveType::F32 => DartFFIPrimitiveType::Float(DartFFIFloatType::Float32),
        PrimitiveType::F64 => DartFFIPrimitiveType::Float(DartFFIFloatType::Float64),
        _ => DartFFIPrimitiveType::Int(int_of(p)),
    }
}

/// The `dart:ffi` spelling of a scalar.
pub open spec fn primitive_native(t: DartFFIPrimitiveType) -> Seq<char> {
    match t {
        DartFFIPrimitiveType::Bool => "$$ffi.Bool"@,
        DartFFIPrimitiveType::Int(i) => int_native(i),
        DartFFIPrimitiveType::Float(f) => float_native(f),
    }
}

/// The Dart value type of a scalar.
pub open spec fn primitive_sub(t: DartFFIPrimitiveType) -> Seq<char> {
    match t {
        DartFFIPrimitiveType::Bool => "bool"@,
        DartFFIPrimitiveType::Int(..) => "int"@,
        DartFFIPrimitiveType::Float(..) => "double"@,
    }
}

impl DartFFIPrimitiveType {
    /// The `dart:ffi` scalar of a Rust primitive.
    pub fn from_primitive(primitive: PrimitiveType) -> (res: Self)
        ensures
            res == ffi_primitive_of(primitive),
    {
        match primitive {
            PrimitiveType::Bool => DartFFIPrimitiveType::Bool,
            PrimitiveType::I8 => DartFFIPrimitiveType::Int(DartFFIIntType::Int8),
            PrimitiveType::U8 => DartFFIPrimitiveType::Int(DartFFIIntType::Uint8),
            PrimitiveType::I16 => DartFFIPrimitiveType::Int(DartFFIIntType::Int16),
            PrimitiveType::U16 => DartFFIPrimitiveType::Int(DartFFIIntType::Uint16),
            PrimitiveType::I32 => DartFFIPrimitiveType::Int(DartFFIIntType::Int32),
            PrimitiveType::U32 => DartFFIPrimitiveType::Int(DartFFIIntType::Uint32),
            PrimitiveType::I64 => DartFFIPrimitiveType::Int(DartFFIIntType::Int64),
            PrimitiveType::U64 => DartFFIPrimitiveType::Int(DartFFIIntType::Uint64),
            PrimitiveType::ISize => DartFFIPrimitiveType::Int(DartFFIIntType::IntPtr),
            PrimitiveType::USize => DartFFIPrimitiveType::Int(DartFFIIntType::UintPtr),
            PrimitiveType::F32 => DartFFIPrimitiveType::Float(DartFFIFloatType::Float32),
            PrimitiveType::F64 => DartFFIPrimitiveType::Float(DartFFIFloatType::Float64),
        }
    }

    /// The `dart:ffi` native type name.
    pub fn native_type(&self) -> (res: String)
        ensures
            res@ == primitive_native(*self),
    {
        match self {
            DartFFIPrimitiveType::Bool => String::from_str("$$ffi.Bool"),
            DartFFIPrimitiveType::Int(i) => i.native_type(),
            DartFFIPrimitiveType::Float(f) => f.native_type(),
        }
    }

    /// The Dart type of a value of this scalar.
    pub fn sub_type(&self) -> (res: String)
        ensures
            res@ == primitive_sub(*self),
    {
        match self {
            DartFFIPrimitiveType::Bool => String::from_str("bool"),
            DartFFIPrimitiveType::Int(..) => String::from_str("int"),
            DartFFIPrimitiveType::Float(..) => String::from_str("double"),
        }
    }
}

/// A named argument of a native function type.
#[derive(Debug, PartialEq, Eq)]
pub struct DartFFIFunctionParamSig {
    pub name: String,
    pub ty: DartFFIType,
}

/// A native function type: arguments and return type.
#[derive(Debug, PartialEq, Eq)]
pub struct DartFFIFunctionSig {
    pub args: Vec<DartFFIFunctionParamSig>,
    pub ret: DartFFIType,
}

/// A type of the C boundary as `dart:ffi` spells it.
#[derive(Debug, PartialEq, Eq)]
pub enum DartFFIType {
    Void,
    Bool,
    Int(DartFFIIntType),
    Float(DartFFIFloatType),
    Struct(String),
    Pointer(Box<DartFFIType>),
    NativeFunction { sig: Box<DartFFIFunctionSig> },
    Status,
    Buf,
    CallbackHandle(bool),
}

/// The `dart:ffi` spelling of a boundary type.
pub open spec fn ffi_native(t: DartFFIType) -> Seq<char>
    decreases t, 0nat,
{
    match t {
        DartFFIType::Void => "$$ffi.Void"@,
        DartFFIType::Bool => "$$ffi.Bool"@,
        DartFFIType::Int(i) => int_native(i),
        DartFFIType::Float(f) => float_native(f),
        DartFFIType::Struct(record) => record@,
        DartFFIType::NativeFunction { sig } => {
            "$$ffi.Pointer<$$ffi.NativeFunction<"@ + ffi_native(sig.ret) + " Function("@
                + join(ffi_natives(sig.args@), ", "@) + ")>>"@
        },
        DartFFIType::Pointer(inner) => "$$ffi.Pointer<"@ + ffi_native(*inner) + ">"@,
        DartFFIType::Buf => "_$$BoltFFIBuf"@,
        DartFFIType::CallbackHandle(_) => "_$$BoltCallbackHandle"@,
        DartFFIType::Status => "_$$BoltFFIStatus"@,
    }
}

/// The `dart:ffi` spellings of the types of a list of arguments.
pub open spec fn ffi_natives(args: Seq<DartFFIFunctionParamSig>) -> Seq<Seq<char>>
    decreases args, 1nat,
{
    if args.len() == 0 {
        Seq::empty()
    } else {
        ffi_natives(args.subrange(0, args.len() - 1)).push(ffi_native(args[args.len() - 1].ty))
    }
}

/// The Dart type of a value of a boundary type.
pub open spec fn ffi_sub(t: DartFFIType) -> Seq<char> {
    match t {
        DartFFIType::Void => "void"@,
        DartFFIType::Bool => "bool"@,
        DartFFIType::Int(..) => "int"@,
        DartFFIType::Float(..) => "double"@,
        DartFFIType::Struct(record) => record@,
        _ => ffi_native(t),
    }
}

/// The `dart:ffi` annotation of a struct field of a boundary type: empty
/// unless the type is a scalar.
pub open spec fn ffi_annotation(t: DartFFIType) -> Seq<char> {
    match t {
        DartFFIType::Bool | DartFFIType::Int(..) | DartFFIType::Float(..) => "@"@ + ffi_native(t) + "()"@,
        _ => Seq::empty(),
    }
}

/// The boundary type of a Rust primitive.
pub open spec fn ffi_type_of(p: PrimitiveType) -> DartFFIType {
    match p {
        PrimitiveType::Bool => DartFFIType::Bool,
        PrimitiveType::F32 => DartFFIType::Float(DartFFIFloatType::Float32),
        PrimitiveType::F64 => DartFFIType::Float(DartFFIFloatType::Float64),
        _ => DartFFIType::Int(int_of(p)),
    }
}

proof fn lemma_ffi_natives(args: Seq<DartFFIFunctionParamSig>)
    ensures
        ffi_natives(args).len() == args.len(),
        forall|i: int| 0 <= i < args.len() ==> #[trigger] ffi_natives(args)[i] == ffi_native(args[i].ty),
    decreases args.len(),
{
    if args.len() > 0 {
        let init = args.subrange(0, args.len() - 1);
        lemma_ffi_natives(init);
        assert forall|i: int| 0 <= i < args.len() implies #[trigger] ffi_natives(args)[i] == ffi_native(args[i].ty) by {
            if i < args.len() - 1 {
                assert(init[i] == args[i]);
            }
        }
    }
}

impl DartFFIType {
    /// The boundary type of a Rust primitive.
    pub fn from_primitive(primitive: PrimitiveType) -> (res: Self)
        ensures
            res == ffi_type_of(primitive),
    {
        match primitive {
            PrimitiveType::Bool => Self::Bool,
            PrimitiveType::I8 => Self::Int(DartFFIIntType::Int8),
            PrimitiveType::U8 => Self::Int(DartFFIIntType::Uint8),
            PrimitiveType::I16 => Self::Int(DartFFIIntType::Int16),
            PrimitiveType::U16 => Self::Int(DartFFIIntType::Uint16),
            PrimitiveType::I32 => Self::Int(DartFFIIntType::Int32),
            PrimitiveType::U32 => Self::Int(DartFFIIntType::Uint32),
            PrimitiveType::I64 => Self::Int(DartFFIIntType::Int64),
            PrimitiveType::U64 => Self::Int(DartFFIIntType::Uint64),
            PrimitiveType::ISize => Self::Int(DartFFIIntType::IntPtr),
            PrimitiveType::USize => Self::Int(DartFFIIntType::UintPtr),
            PrimitiveType::F32 => Self::Float(DartFFIFloatType::Float32),
            PrimitiveType::F64 => Self::Float(DartFFIFloatType::Float64),
        }
    }

    /// The `dart:ffi` spelling of this type.
    pub fn native_type(&self) -> (res: String)
        ensures
            res@ == ffi_native(*self),
        decreases self,
    {
        match self {
            Self::Void => String::from_str("$$ffi.Void"),
            Self::Bool => String::from_str("$$ffi.Bool"),
            Self::Int(ty) => ty.native_type(),
            Self::Float(ty) => ty.native_type(),
            Self::Struct(record) => record.clone(),
            Self::NativeFunction { sig } => {
                let ret = sig.ret.native_type();
                let mut names: Vec<String> = Vec::new();
                let mut i: usize = 0;
                while i < sig.args.len()
                    invariant
                        i <= sig.args@.len(),
                        names@.len() == i,
                        *self is NativeFunction,
                        self->sig == *sig,
                        forall|j: int| 0 <= j < i ==> #[trigger] names@[j]@ == ffi_native(sig.args@[j].ty),
                    decreases sig.args.len() - i,
                {
                    proof {
                        let ghost t = *self;
                        let ghost s = t->sig;
                        assert(decreases_to!(t => s));
                        assert(decreases_to!(s => s.args));
                        assert(decreases_to!(s.args => s.args@));
                        assert(decreases_to!(s.args@ => s.args@[i as int]));
                    }
                    let n = sig.args[i].ty.native_type();
                    names.push(n);
                    i += 1;
                }
                proof {
                    lemma_ffi_natives(sig.args@);
                    assert(views(names@) =~= ffi_natives(sig.args@));
                }
                let args = crate::text::join_strings(&names, ", ");
                crate::text::cat5("$$ffi.Pointer<$$ffi.NativeFunction<", ret.as_str(), " Function(", args.as_str(), ")>>")
            },
            Self::Pointer(inner) => {
                let n = inner.native_type();
                crate::text::cat3("$$ffi.Pointer<", n.as_str(), ">")
            },
            Self::Buf => String::from_str("_$$BoltFFIBuf"),
            Self::CallbackHandle(_) => String::from_str("_$$BoltCallbackHandle"),
            Self::Status => String::from_str("_$$BoltFFIStatus"),
        }
    }

    /// The Dart type of a value of this boundary type.
    pub fn sub_type(&self) -> (res: String)
        ensures
            res@ == ffi_sub(*self),
    {
        match self {
            Self::Void => String::from_str("void"),
            Self::Bool => String::from_str("bool"),
            Self::Int(..) => String::from_str("int"),
            Self::Float(..) => String::from_str("double"),
            Self::Struct(record) => record.clone(),
            _ => self.native_type(),
        }
    }

    /// The annotation of a `dart:ffi` struct field of this type.
    pub fn struct_field_annotation(&self) -> (res: String)
        ensures
            res@ == ffi_annotation(*self),
    {
        match self {
            DartFFIType::Bool | DartFFIType::Int(..) | DartFFIType::Float(..) => {
                let n = self.native_type();
                crate::text::cat3("@", n.as_str(), "()")
            },
            _ => String::new(),
        }
    }
}

/// The boundary type of an ABI scalar type, for the ABI types that carry
/// no name or nested type.
pub open spec fn abi_scalar(a: AbiType) -> Option<DartFFIType> {
    match a {
        AbiType::Void => Some(DartFFIType::Void),
        AbiType::Bool => Some(DartFFIType::Bool),
        AbiType::I8 => Some(DartFFIType::Int(DartFFIIntType::Int8)),
        AbiType::U8 => Some(DartFFIType::Int(DartFFIIntType::Uint8)),
        AbiType::I16 => Some(DartFFIType::Int(DartFFIIntType::Int16)),
        AbiType::U16 => Some(DartFFIType::Int(DartFFIIntType::Uint16)),
        AbiType::I32 => Some(DartFFIType::Int(DartFFIIntType::Int32)),
        AbiType::U32 => Some(DartFFIType::Int(DartFFIIntType::Uint32)),
        AbiType::I64 => Some(DartFFIType::Int(DartFFIIntType::Int64)),
        AbiType::U64 => Some(DartFFIType::Int(DartFFIIntType::Uint64)),
        AbiType::ISize => Some(DartFFIType::Int(DartFFIIntType::IntPtr)),
        AbiType::USize => Some(DartFFIType::Int(DartFFIIntType::UintPtr)),
        AbiType::F32 => Some(DartFFIType::Float(DartFFIFloatType::Float32)),
        AbiType::F64 => Some(DartFFIType::Float(DartFFIFloatType::Float64)),
        AbiType::OwnedBuffer => Some(DartFFIType::Buf),
        AbiType::Handle(_) => Some(DartFFIType::Pointer(Box::new(DartFFIType::Void))),
        AbiType::CallbackHandle => Some(DartFFIType::CallbackHandle(false)),
        _ => None,
    }
}

/// The untyped pointer `Pointer<Void>`.
pub open spec fn void_ptr() -> DartFFIType {
    DartFFIType::Pointer(Box::new(DartFFIType::Void))
}

/// Whether `t` is the boundary type of ABI type `a`. An inline callback
/// becomes a native function whose first argument `_p$ud` is the userdata
/// pointer and whose `i`-th parameter is named `_p$arg{i}`; a struct takes
/// the record's struct name.
pub open spec fn abi_type_lowered(a: AbiType, t: DartFFIType) -> bool
    decreases a,
{
    match a {
        AbiType::Pointer(p) => t matches DartFFIType::Pointer(inner) && *inner == ffi_type_of(p),
        AbiType::Struct(id) => t matches DartFFIType::Struct(n) && n@ == "_$$"@ + upper_camel(id@) + "Struct"@,
        AbiType::InlineCallbackFn { params, return_type } => {
            &&& t matches DartFFIType::NativeFunction { sig }
            &&& sig.args@.len() == params@.len() + 1
            &&& sig.args@[0].name@ == "_p$ud"@
            &&& sig.args@[0].ty == void_ptr()
            &&& forall|i: int| 0 <= i < params@.len() ==> {
                &&& (#[trigger] sig.args@[i + 1]).name@ == "_p$arg"@ + decimal(i as nat)
                &&& abi_type_lowered(params@[i], sig.args@[i + 1].ty)
            }
            &&& abi_type_lowered(*return_type, sig.ret)
        },
        _ => abi_scalar(a) == Some(t),
    }
}

impl DartFFIType {
    /// The boundary type of an ABI type.
    pub fn from_abi_type(abi_type: &AbiType) -> (res: Self)
        ensures
            abi_type_lowered(*abi_type, res),
        decreases abi_type,
    {
        match abi_type {
            AbiType::Void => Self::Void,
            AbiType::Bool => Self::Bool,
            AbiType::I8 => Self::Int(DartFFIIntType::Int8),
            AbiType::U8 => Self::Int(DartFFIIntType::Uint8),
            AbiType::I16 => Self::Int(DartFFIIntType::Int16),
            AbiType::U16 => Self::Int(DartFFIIntType::Uint16),
            AbiType::I32 => Self::Int(DartFFIIntType::Int32),
            AbiType::U32 => Self::Int(DartFFIIntType::Uint32),
            AbiType::I64 => Self::Int(DartFFIIntType::Int64),
            AbiType::U64 => Self::Int(DartFFIIntType::Uint64),
            AbiType::ISize => Self::Int(DartFFIIntType::IntPtr),
            AbiType::USize => Self::Int(DartFFIIntType::UintPtr),
            AbiType::F32 => Self::Float(DartFFIFloatType::Float32),
            AbiType::F64 => Self::Float(DartFFIFloatType::Float64),
            AbiType::Pointer(primitive) => Self::Pointer(Box::new(Self::from_primitive(*primitive))),
            AbiType::OwnedBuffer => Self::Buf,
            AbiType::InlineCallbackFn { params, return_type } => {
                let mut args: Vec<DartFFIFunctionParamSig> = Vec::new();
                args.push(DartFFIFunctionParamSig {
                    name: String::from_str("_p$ud"),
                    ty: DartFFIType::Pointer(Box::new(DartFFIType::Void)),
                });
                let mut i: usize = 0;
                while i < params.len()
                    invariant
                        i <= params@.len(),
                        args@.len() == i + 1,
                        *abi_type is InlineCallbackFn,
                        abi_type->params == *params,
                        args@[0].name@ == "_p$ud"@,
                        args@[0].ty == void_ptr(),
                        forall|j: int| 0 <= j < i ==> {
                            &&& (#[trigger] args@[j + 1]).name@ == "_p$arg"@ + decimal(j as nat)
                            &&& abi_type_lowered(params@[j], args@[j + 1].ty)
                        },
                    decreases params.len() - i,
                {
                    proof {
                        let ghost a = *abi_type;
                        assert(decreases_to!(a => a->params));
                        assert(decreases_to!(a->params => a->params@));
                        assert(decreases_to!(a->params@ => a->params@[i as int]));
                    }
                    let ty = DartFFIType::from_abi_type(&params[i]);
                    let index = crate::text::usize_to_string(i);
                    let name = crate::text::cat2("_p$arg", index.as_str());
                    args.push(DartFFIFunctionParamSig { name, ty });
                    i += 1;
                }
                let ret = DartFFIType::from_abi_type(return_type);
                Self::NativeFunction { sig: Box::new(DartFFIFunctionSig { args, ret }) }
            },
            AbiType::Handle(_) => Self::Pointer(Box::new(Self::Void)),
            AbiType::CallbackHandle => Self::CallbackHandle(false),
            AbiType::Struct(record_id) => Self::Struct(NamingConvention::record_struct_name(record_id.as_str())),
        }
    }
}

/// Whether `t` is the boundary type of ABI argument `p`: callback contexts
/// are untyped pointers, status outputs point to a status, a callback handle
/// input takes the handle type, and out-parameters point to their type.
pub open spec fn abi_param_lowered(p: AbiParam, t: DartFFIType) -> bool {
    match p.role {
        ParamRole::CallbackContext { .. } => t == void_ptr(),
        ParamRole::StatusOut => t == DartFFIType::Pointer(Box::new(DartFFIType::Status)),
        ParamRole::OutDirect | ParamRole::OutLen { .. } => t matches DartFFIType::Pointer(inner) && abi_type_lowered(p.abi_type, *inner),
        ParamRole::Input { contract, .. } => {
            if !(p.abi_type is InlineCallbackFn) && contract.value is CallbackHandle {
                t == DartFFIType::CallbackHandle(contract.value->CallbackHandle_nullable)
            } else {
                abi_type_lowered(p.abi_type, t)
            }
        },
        _ => abi_type_lowered(p.abi_type, t),
    }
}

/// The Dart-side name of an ABI argument: an input passed through a pointer
/// gets `Ptr` after its camel-cased name; out-parameters have fixed names.
pub open spec fn abi_param_name(p: AbiParam) -> Seq<char> {
    match p.role {
        ParamRole::Input { contract, .. } => {
            if contract.value is DirectBuffer || contract.value is WireEncoded || contract.value is Utf8String {
                lower_camel(p.name@) + "Ptr"@
            } else {
                lower_camel(p.name@)
            }
        },
        ParamRole::OutDirect => "_p$outPtr"@,
        ParamRole::OutLen { .. } => "_p$outLen"@,
        _ => lower_camel(p.name@),
    }
}

/// Whether `t` is the boundary type of a value carried by transport `tr`.
pub open spec fn transport_lowered(tr: Transport, t: DartFFIType) -> bool {
    match tr {
        Transport::Scalar(o) => t == ffi_type_of(o.primitive),
        Transport::Composite(l) => t matches DartFFIType::Struct(n) && n@ == "_$$"@ + upper_camel(l.record_id@) + "Struct"@,
        Transport::Span(SpanContent::Scalar(o)) => t == ffi_type_of(o.primitive),
        Transport::Span(SpanContent::Composite(l)) => t matches DartFFIType::Struct(n) && n@ == l.record_id@,
        Transport::Span(_) => t is Buf,
        Transport::Handle { .. } => t == void_ptr(),
        Transport::Callback { nullable, .. } => t == DartFFIType::CallbackHandle(nullable),
    }
}

/// Whether `t` is the boundary type that a call with return shape `rs` and
/// error transport `et` returns: handles and callbacks first, then an
/// encoded error makes it a buffer, then the value's own transport.
pub open spec fn return_lowered(rs: ReturnShape, et: ErrorTransport, t: DartFFIType) -> bool {
    if rs.transport matches Some(Transport::Handle { .. }) {
        t == void_ptr()
    } else if rs.transport matches Some(Transport::Callback { .. }) {
        t == DartFFIType::CallbackHandle(false)
    } else if et is Encoded {
        t is Buf
    } else {
        match rs.transport {
            None => if et is StatusCode { t is Status } else { t is Void },
            Some(Transport::Scalar(o)) => t == ffi_type_of(o.primitive),
            Some(Transport::Composite(l)) => t matches DartFFIType::Struct(n) && n@ == "_$$"@ + upper_camel(l.record_id@) + "Struct"@,
            Some(_) => t is Buf,
        }
    }
}

impl DartFFIType {
    /// The boundary type of an ABI argument.
    pub fn from_abi_param(abi_param: &AbiParam) -> (res: Self)
        ensures
            abi_param_lowered(*abi_param, res),
    {
        if let ParamRole::CallbackContext { .. } = &abi_param.role {
            return Self::Pointer(Box::new(Self::Void));
        }
        if let ParamRole::StatusOut = &abi_param.role {
            return Self::Pointer(Box::new(Self::Status));
        }
        if let ParamRole::Input { contract, .. } = &abi_param.role {
            if !matches!(&abi_param.abi_type, AbiType::InlineCallbackFn { .. }) {
                if let ParamValueStrategy::CallbackHandle { nullable } = contract.value_strategy() {
                    return Self::CallbackHandle(nullable);
                }
            }
        }
        let native_type = Self::from_abi_type(&abi_param.abi_type);
        match &abi_param.role {
            ParamRole::OutDirect | ParamRole::OutLen { .. } => Self::Pointer(Box::new(native_type)),
            _ => native_type,
        }
    }

    /// The boundary type of a value carried by a transport.
    pub fn from_transport(transport: &Transport) -> (res: Self)
        ensures
            transport_lowered(*transport, res),
    {
        match transport {
            Transport::Scalar(origin) => Self::from_primitive(origin.primitive()),
            Transport::Composite(layout) => Self::Struct(NamingConvention::record_struct_name(layout.record_id.as_str())),
            Transport::Span(content) => match content {
                SpanContent::Scalar(origin) => Self::from_primitive(origin.primitive()),
                SpanContent::Composite(layout) => Self::Struct(layout.record_id.clone()),
                SpanContent::Utf8 | SpanContent::Encoded => Self::Buf,
            },
            Transport::Handle { .. } => Self::Pointer(Box::new(Self::Void)),
            Transport::Callback { nullable, .. } => Self::CallbackHandle(*nullable),
        }
    }

    /// The boundary type that a call returns, given its return shape and
    /// how it reports errors.
    pub fn from_return_shape_and_error_transport(
        return_shape: &ReturnShape,
        error_transport: &ErrorTransport,
    ) -> (res: Self)
        ensures
            return_lowered(*return_shape, *error_transport, res),
    {
        if let Some(Transport::Handle { .. }) = &return_shape.transport {
            return Self::Pointer(Box::new(Self::Void));
        }
        if let Some(Transport::Callback { .. }) = &return_shape.transport {
            return Self::CallbackHandle(false);
        }
        if matches!(error_transport, ErrorTransport::Encoded) {
            return Self::Buf;
        }
        match &return_shape.transport {
            None => {
                if matches!(error_transport, ErrorTransport::StatusCode) {
                    Self::Status
                } else {
                    Self::Void
                }
            },
            Some(Transport::Scalar(origin)) => Self::from_primitive(origin.primitive()),
            Some(Transport::Composite(layout)) => {
                Self::Struct(NamingConvention::record_struct_name(layout.record_id.as_str()))
            },
            Some(_) => Self::Buf,
        }
    }
}

impl DartFFIFunctionParamSig {
    /// The named boundary argument of an ABI argument.
    pub fn from_abi_param(p: &AbiParam) -> (res: Self)
        ensures
            res.name@ == abi_param_name(*p),
            abi_param_lowered(*p, res.ty),
    {
        let name = match &p.role {
            ParamRole::Input { contract, .. } => match contract.value_strategy() {
                ParamValueStrategy::DirectBuffer
                | ParamValueStrategy::WireEncoded
                | ParamValueStrategy::Utf8String => {
                    let n = NamingConvention::param_name(p.name.as_str());
                    crate::text::cat2(n.as_str(), "Ptr")
                },
                _ => NamingConvention::param_name(p.name.as_str()),
            },
            ParamRole::OutDirect => String::from_str("_p$outPtr"),
            ParamRole::OutLen { .. } => String::from_str("_p$outLen"),
            _ => NamingConvention::param_name(p.name.as_str()),
        };
        DartFFIFunctionParamSig { name, ty: DartFFIType::from_abi_param(p) }
    }
}

} // verus!
