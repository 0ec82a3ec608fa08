//! The Dart types that the generated API exposes, and how they are derived
//! from the types of the Rust API.
use vstd::prelude::*;
use crate::ir::{CallbackKind, ParamDef, PrimitiveType, ReturnDef, TypeCatalog, TypeExpr};
use crate::dart::types::{int_of, DartFFIFloatType, DartFFIIntType};
use crate::dart::naming::{lower_camel, NamingConvention};
use crate::text::{join, str_eq};

verus! {

/// A parameter of a Dart closure type.
#[derive(Debug, PartialEq, Eq)]
pub struct DartClosureParamType {
    pub name: String,
    pub ty: DartType,
}

/// A Dart function type that stands for a Rust closure.
#[derive(Debug, PartialEq, Eq)]
pub struct DartClosureType {
    pub arg_ty: Vec<DartClosureParamType>,
    pub ret_ty: DartReturnType,
}

/// What a Dart function returns.
#[derive(Debug, PartialEq, Eq)]
pub struct DartReturnType {
    pub inner: DartType,
}

/// A type of the generated Dart API.
#[derive(Debug, PartialEq, Eq)]
pub enum DartType {
    Void,
    Bool,
    Int(DartFFIIntType),
    Double(DartFFIFloatType),
    String,
    Option(Box<DartType>),
    List(Box<DartType>),
    Bytes,
    Closure(Box<DartClosureType>),
    Result { ok: Box<DartType>, err: Box<DartType> },
    Record(String),
    Enum(String),
    Class(String),
    Callback(String),
    Builtin(String),
    Custom(String),
}

/// The Dart type of a Rust primitive.
pub open spec fn dart_of_primitive(p: PrimitiveType) -> DartType {
    match p {
        PrimitiveType::Bool => DartType::Bool,
        PrimitiveType::F32 => DartType::Double(DartFFIFloatType::Float32),
        PrimitiveType::F64 => DartType::Double(DartFFIFloatType::Float64),
        _ => DartType::Int(int_of(p)),
    }
}

/// The Dart class that stands for a builtin Rust type; `None` for a
/// builtin that Dart does not know.
pub open spec fn builtin_dart(id: Seq<char>) -> Option<Seq<char>> {
    if id == "Duration"@ {
        Some("Duration"@)
    } else if id == "SystemTime"@ {
        Some("DateTime"@)
    } else if id == "Uuid"@ {
        Some("$$BoltUUIDValue"@)
    } else if id == "Url"@ {
        Some("Uri"@)
    } else {
        None
    }
}

/// Whether `t` is the Dart type of the error of a `Result`: a `String`
/// error becomes the `$$BoltException` record.
pub open spec fn err_lowers(cat: TypeCatalog, err: TypeExpr, t: DartType) -> bool
    decreases t, 1nat,
{
    if err is String {
        t matches DartType::Record(n) && n@ == "$$BoltException"@
    } else {
        lowers(cat, err, t)
    }
}

/// Whether `t` is the Dart type of what a callable declared with `r` returns.
pub open spec fn return_lowers(cat: TypeCatalog, r: ReturnDef, t: DartType) -> bool
    decreases t, 2nat,
{
    match r {
        ReturnDef::Void => t is Void,
        ReturnDef::Value(te) => lowers(cat, te, t),
        ReturnDef::Result { ok, err } => {
            &&& t matches DartType::Result { ok: o, err: e }
            &&& lowers(cat, ok, *o)
            &&& err_lowers(cat, err, *e)
        },
    }
}

/// Whether `t` is the Dart type of the Rust type `te`. Byte vectors become
/// `Bytes`; a trait callback is named by its id, and a closure callback
/// becomes a function type built from its `call` method; a builtin must be
/// one that Dart knows. A type whose callback is not declared, or whose
/// closure has no `call` method first, has no Dart type.
pub open spec fn lowers(cat: TypeCatalog, te: TypeExpr, t: DartType) -> bool
    decreases t, 0nat,
{
    match te {
        TypeExpr::Void => t is Void,
        TypeExpr::Primitive(p) => t == dart_of_primitive(p),
        TypeExpr::String | TypeExpr::Str => t is String,
        TypeExpr::Vec(inner) => {
            if *inner == TypeExpr::Primitive(PrimitiveType::U8) {
                t is Bytes
            } else {
                t matches DartType::List(i) && lowers(cat, *inner, *i)
            }
        },
        TypeExpr::Option(inner) => t matches DartType::Option(i) && lowers(cat, *inner, *i),
        TypeExpr::Result { ok, err } => {
            &&& t matches DartType::Result { ok: o, err: e }
            &&& lowers(cat, *ok, *o)
            &&& err_lowers(cat, *err, *e)
        },
        TypeExpr::Record(id) => t matches DartType::Record(n) && n@ == id@,
        TypeExpr::Enum(id) => t matches DartType::Enum(n) && n@ == id@,
        TypeExpr::Custom(id) => t matches DartType::Custom(n) && n@ == id@,
        TypeExpr::Handle(id) => t matches DartType::Class(n) && n@ == id@,
        TypeExpr::Builtin(id) => {
            &&& builtin_dart(id@) is Some
            &&& t matches DartType::Builtin(n) && n@ == builtin_dart(id@)->0
        },
        TypeExpr::Callback(id) => {
            &&& cat.callback(id@) is Some
            &&& {
                let cb = cat.callback(id@)->0;
                match cb.kind {
                    CallbackKind::Trait => t matches DartType::Callback(n) && n@ == id@,
                    CallbackKind::Closure => {
                        &&& cb.methods@.len() > 0
                        &&& cb.methods@[0].id@ == "call"@
                        &&& t matches DartType::Closure(c)
                        &&& c.arg_ty@.len() == cb.methods@[0].params@.len()
                        &&& forall|i: int| 0 <= i < c.arg_ty@.len() ==> {
                            &&& (#[trigger] c.arg_ty@[i]).name@ == cb.methods@[0].params@[i].name@
                            &&& lowers(cat, cb.methods@[0].params@[i].type_expr, c.arg_ty@[i].ty)
                        }
                        &&& return_lowers(cat, cb.methods@[0].returns, c.ret_ty.inner)
                    },
                }
            }
        },
    }
}

/// The Dart spelling of a Dart type.
pub open spec fn dart_name(t: DartType) -> Seq<char>
    decreases t, 0nat,
{
    match t {
        DartType::Void => "void"@,
        DartType::Bool => "bool"@,
        DartType::Int(..) => "int"@,
        DartType::Double(..) => "double"@,
        DartType::String => "String"@,
        DartType::Option(inner) => dart_name(*inner) + "?"@,
        DartType::Result { ok, err } => "$$BoltResult<"@ + dart_name(*ok) + ", "@ + dart_name(*err) + ">"@,
        DartType::Bytes => "$$typed_data.Uint8List"@,
        DartType::List(inner) => match *inner {
            DartType::Bool => "$$BoltBoolList"@,
            DartType::Int(i) => typed_int_list(i),
            DartType::Double(DartFFIFloatType::Float32) => "$$typed_data.Float32List"@,
            DartType::Double(DartFFIFloatType::Float64) => "$$typed_data.Float64List"@,
            _ => "List<"@ + dart_name(*inner) + ">"@,
        },
        DartType::Closure(sig) => {
            return_name(sig.ret_ty) + " Function("@ + join(closure_arg_names(sig.arg_ty@), ", "@) + ")"@
        },
        DartType::Class(n) | DartType::Record(n) | DartType::Enum(n) | DartType::Callback(n)
        | DartType::Custom(n) | DartType::Builtin(n) => n@,
    }
}

/// The Dart spelling of a return type: the `ok` type of a `Result`, since
/// a failed call throws.
pub open spec fn return_name(r: DartReturnType) -> Seq<char>
    decreases r, 1nat,
{
    match r.inner {
        DartType::Result { ok, .. } => dart_name(*ok),
        _ => dart_name(r.inner),
    }
}

/// The Dart spellings of the argument types of a closure.
pub open spec fn closure_arg_names(args: Seq<DartClosureParamType>) -> Seq<Seq<char>>
    decreases args, 1nat,
{
    if args.len() == 0 {
        Seq::empty()
    } else {
        closure_arg_names(args.subrange(0, args.len() - 1)).push(dart_name(args[args.len() - 1].ty))
    }
}

/// The `dart:typed_data` list of an integer type.
pub open spec fn typed_int_list(i: DartFFIIntType) -> Seq<char> {
    match i {
        DartFFIIntType::Uint8 => "$$typed_data.Uint8List"@,
        DartFFIIntType::Int8 => "$$typed_data.Int8List"@,
        DartFFIIntType::Uint16 => "$$typed_data.Uint16List"@,
        DartFFIIntType::Int16 => "$$typed_data.Int16List"@,
        DartFFIIntType::Uint32 => "$$typed_data.Uint32List"@,
        DartFFIIntType::Int32 => "$$typed_data.Int32List"@,
        DartFFIIntType::Uint64 | DartFFIIntType::UintPtr => "$$typed_data.Uint64List"@,
        DartFFIIntType::Int64 | DartFFIIntType::IntPtr => "$$typed_data.Int64List"@,
    }
}

/// Whether `t` is an option, list or result of `void`.
pub open spec fn inner_void(t: DartType) -> bool {
    match t {
        DartType::Option(i) | DartType::List(i) => *i is Void,
        DartType::Result { ok, .. } => *ok is Void,
        _ => false,
    }
}

/// Whether the `hashCode` of a value of type `t` can be written: a class
/// handle, reached through options, lists and results, has none.
pub open spec fn hashable(t: DartType) -> bool
    decreases t,
{
    match t {
        DartType::Class(_) => false,
        DartType::Option(inner) | DartType::List(inner) => hashable(*inner),
        DartType::Result { ok, err } => hashable(*ok) && hashable(*err),
        _ => true,
    }
}

/// The Dart expression for the hash code of the value `name` of type `t`.
pub open spec fn hash_of(t: DartType, name: Seq<char>) -> Seq<char>
    decreases t,
{
    match t {
        DartType::Option(inner) => {
            "("@ + name + " == null ? null.hashCode : "@ + hash_of(*inner, name + "!"@) + ")"@
        },
        DartType::List(inner) => {
            "_$$BoltUtil.listHash("@ + name + ", (_p$item) => "@ + hash_of(*inner, "_p$item"@) + ")"@
        },
        DartType::Bytes => "_$$BoltUtil.listHash("@ + name + ", (_p$item) => _p$item.hashCode)"@,
        DartType::Result { ok, err } => {
            "switch ("@ + name + ") { $$BoltResult$Ok(value: final _l$value) => "@
                + hash_of(*ok, "_l$value"@) + ", $$BoltResult$Err(value: final _l$value) => "@
                + hash_of(*err, "_l$value"@) + " }"@
        },
        _ => name + ".hashCode"@,
    }
}

proof fn lemma_closure_arg_names(args: Seq<DartClosureParamType>)
    ensures
        closure_arg_names(args).len() == args.len(),
        forall|i: int| 0 <= i < args.len() ==> #[trigger] closure_arg_names(args)[i] == dart_name(args[i].ty),
    decreases args.len(),
{
    if args.len() > 0 {
        let init = args.subrange(0, args.len() - 1);
        lemma_closure_arg_names(init);
        assert forall|i: int| 0 <= i < args.len() implies #[trigger] closure_arg_names(args)[i] == dart_name(args[i].ty) by {
            if i < args.len() - 1 {
                assert(init[i] == args[i]);
            }
        }
    }
}

impl DartReturnType {
    /// The Dart return type of a callable declared with `return_def`.
    pub fn from_return_def(return_def: &ReturnDef, type_catalog: &TypeCatalog) -> (res: Self)
        requires
            exists|t: DartType| return_lowers(*type_catalog, *return_def, t),
        ensures
            return_lowers(*type_catalog, *return_def, res.inner),
    {
        DartReturnType { inner: DartType::from_return_def(return_def, type_catalog) }
    }

    /// The Dart spelling of the return type.
    pub fn dart_type(&self) -> (res: String)
        ensures
            res@ == return_name(*self),
        decreases self, 1nat,
    {
        match &self.inner {
            DartType::Result { ok, .. } => ok.dart_type(),
            _ => self.inner.dart_type(),
        }
    }
}

impl DartType {
    /// The Dart type of a Rust primitive.
    pub fn from_primitive(primitive: PrimitiveType) -> (res: Self)
        ensures
            res == dart_of_primitive(primitive),
    {
        match primitive {
            PrimitiveType::Bool => DartType::Bool,
            PrimitiveType::I8 => DartType::Int(DartFFIIntType::Int8),
            PrimitiveType::U8 => DartType::Int(DartFFIIntType::Uint8),
            PrimitiveType::I16 => DartType::Int(DartFFIIntType::Int16),
            PrimitiveType::U16 => DartType::Int(DartFFIIntType::Uint16),
            PrimitiveType::I32 => DartType::Int(DartFFIIntType::Int32),
            PrimitiveType::U32 => DartType::Int(DartFFIIntType::Uint32),
            PrimitiveType::I64 => DartType::Int(DartFFIIntType::Int64),
            PrimitiveType::U64 => DartType::Int(DartFFIIntType::Uint64),
            PrimitiveType::ISize => DartType::Int(DartFFIIntType::IntPtr),
            PrimitiveType::USize => DartType::Int(DartFFIIntType::UintPtr),
            PrimitiveType::F32 => DartType::Double(DartFFIFloatType::Float32),
            PrimitiveType::F64 => DartType::Double(DartFFIFloatType::Float64),
        }
    }

    /// The Dart type of a `Result` with `ok` and `err`: a `String` error
    /// becomes the `$$BoltException` record.
    fn from_result(ok: &TypeExpr, err: &TypeExpr, type_catalog: &TypeCatalog, Ghost(target): Ghost<DartType>) -> (res: Self)
        requires
            target matches DartType::Result { ok: o, err: e } && lowers(*type_catalog, *ok, *o) && err_lowers(*type_catalog, *err, *e),
        ensures
            res matches DartType::Result { ok: o, err: e } && lowers(*type_catalog, *ok, *o) && err_lowers(*type_catalog, *err, *e),
        decreases target, 1nat,
    {
        proof {
            assert(decreases_to!(target => target->Result_ok));
            assert(decreases_to!(target => target->Result_err));
        }
        let ok_ty = Self::lower(ok, type_catalog, Ghost(*target->Result_ok));
        let err_ty = if let TypeExpr::String = err {
            DartType::Record(String::from_str("$$BoltException"))
        } else {
            Self::lower(err, type_catalog, Ghost(*target->Result_err))
        };
        DartType::Result { ok: Box::new(ok_ty), err: Box::new(err_ty) }
    }

    fn lower_return(return_def: &ReturnDef, type_catalog: &TypeCatalog, Ghost(target): Ghost<DartType>) -> (res: Self)
        requires
            return_lowers(*type_catalog, *return_def, target),
        ensures
            return_lowers(*type_catalog, *return_def, res),
        decreases target, 3nat,
    {
        match return_def {
            ReturnDef::Void => DartType::Void,
            ReturnDef::Value(ty) => Self::lower(ty, type_catalog, Ghost(target)),
            ReturnDef::Result { ok, err } => Self::from_result(ok, err, type_catalog, Ghost(target)),
        }
    }

    fn lower(type_expr: &TypeExpr, type_catalog: &TypeCatalog, Ghost(target): Ghost<DartType>) -> (res: Self)
        requires
            lowers(*type_catalog, *type_expr, target),
        ensures
            lowers(*type_catalog, *type_expr, res),
        decreases target, 2nat,
    {
        match type_expr {
            TypeExpr::Void => DartType::Void,
            TypeExpr::Primitive(primitive) => Self::from_primitive(*primitive),
            TypeExpr::String | TypeExpr::Str => DartType::String,
            TypeExpr::Vec(inner) => {
                if let TypeExpr::Primitive(PrimitiveType::U8) = &**inner {
                    DartType::Bytes
                } else {
                    proof {
                        assert(decreases_to!(target => target->List_0));
                    }
                    let i = Self::lower(inner, type_catalog, Ghost(*target->List_0));
                    DartType::List(Box::new(i))
                }
            },
            TypeExpr::Option(inner) => {
                proof {
                    assert(decreases_to!(target => target->Option_0));
                }
                let i = Self::lower(inner, type_catalog, Ghost(*target->Option_0));
                DartType::Option(Box::new(i))
            },
            TypeExpr::Result { ok, err } => Self::from_result(ok, err, type_catalog, Ghost(target)),
            TypeExpr::Record(record_id) => DartType::Record(record_id.clone()),
            TypeExpr::Enum(enum_id) => DartType::Enum(enum_id.clone()),
            TypeExpr::Custom(custom_type_id) => DartType::Custom(custom_type_id.clone()),
            TypeExpr::Handle(class_id) => DartType::Class(class_id.clone()),
            TypeExpr::Builtin(builtin_id) => {
                let b = builtin_id.as_str();
                let name = if str_eq(b, "Duration") {
                    proof { reveal_strlit("Duration"); }
                    String::from_str("Duration")
                } else if str_eq(b, "SystemTime") {
                    proof { reveal_strlit("SystemTime"); reveal_strlit("Duration"); }
                    String::from_str("DateTime")
                } else if str_eq(b, "Uuid") {
                    proof { reveal_strlit("Uuid"); reveal_strlit("SystemTime"); reveal_strlit("Duration"); }
                    String::from_str("$$BoltUUIDValue")
                } else {
                    proof { reveal_strlit("Uuid"); reveal_strlit("SystemTime"); reveal_strlit("Duration"); }
                    String::from_str("Uri")
                };
                DartType::Builtin(name)
            },
            TypeExpr::Callback(callback_id) => {
                let callback_def = type_catalog.resolve_callback(callback_id.as_str());
                let callback_def = callback_def.unwrap();
                match callback_def.kind {
                    CallbackKind::Trait => DartType::Callback(callback_id.clone()),
                    CallbackKind::Closure => {
                        let call_method = &callback_def.methods[0];
                        let ghost c = *target->Closure_0;
                        let mut arg_ty: Vec<DartClosureParamType> = Vec::new();
                        let mut i: usize = 0;
                        while i < call_method.params.len()
                            invariant
                                i <= call_method.params@.len(),
                                call_method.params@.len() == c.arg_ty@.len(),
                                arg_ty@.len() == i,
                                target is Closure,
                                c == *target->Closure_0,
                                forall|j: int| 0 <= j < c.arg_ty@.len() ==>
                                    lowers(*type_catalog, call_method.params@[j].type_expr, #[trigger] c.arg_ty@[j].ty),
                                forall|j: int| 0 <= j < i ==> {
                                    &&& (#[trigger] arg_ty@[j]).name@ == call_method.params@[j].name@
                                    &&& lowers(*type_catalog, call_method.params@[j].type_expr, arg_ty@[j].ty)
                                },
                            decreases call_method.params.len() - i,
                        {
                            proof {
                                assert(decreases_to!(target => target->Closure_0));
                                assert(decreases_to!(c => c.arg_ty));
                                assert(decreases_to!(c.arg_ty => c.arg_ty@));
                                assert(decreases_to!(c.arg_ty@ => c.arg_ty@[i as int]));
                                assert(decreases_to!(c.arg_ty@[i as int] => c.arg_ty@[i as int].ty));
                            }
                            let p = &call_method.params[i];
                            let ty = Self::lower(&p.type_expr, type_catalog, Ghost(c.arg_ty@[i as int].ty));
                            arg_ty.push(DartClosureParamType { name: p.name.clone(), ty });
                            i += 1;
                        }
                        proof {
                            assert(decreases_to!(target => target->Closure_0));
                            assert(decreases_to!(c => c.ret_ty));
                            assert(decreases_to!(c.ret_ty => c.ret_ty.inner));
                        }
                        let inner = Self::lower_return(&call_method.returns, type_catalog, Ghost(c.ret_ty.inner));
                        DartType::Closure(Box::new(DartClosureType { arg_ty, ret_ty: DartReturnType { inner } }))
                    },
                }
            },
        }
    }

    /// The Dart spelling of the type.
    pub fn dart_type(&self) -> (res: String)
        ensures
            res@ == dart_name(*self),
        decreases self, 0nat,
    {
        match self {
            DartType::Void => String::from_str("void"),
            DartType::Bool => String::from_str("bool"),
            DartType::Int(..) => String::from_str("int"),
            DartType::Double(..) => String::from_str("double"),
            DartType::String => String::from_str("String"),
            DartType::Option(inner) => {
                let i = inner.dart_type();
                crate::text::cat2(i.as_str(), "?")
            },
            DartType::Result { ok, err } => {
                let o = ok.dart_type();
                let e = err.dart_type();
                crate::text::cat5("$$BoltResult<", o.as_str(), ", ", e.as_str(), ">")
            },
            DartType::Bytes => String::from_str("$$typed_data.Uint8List"),
            DartType::List(inner) => match &**inner {
                DartType::Bool => String::from_str("$$BoltBoolList"),
                DartType::Int(width) => match width {
                    DartFFIIntType::Uint8 => String::from_str("$$typed_data.Uint8List"),
                    DartFFIIntType::Int8 => String::from_str("$$typed_data.Int8List"),
                    DartFFIIntType::Uint16 => String::from_str("$$typed_data.Uint16List"),
                    DartFFIIntType::Int16 => String::from_str("$$typed_data.Int16List"),
                    DartFFIIntType::Uint32 => String::from_str("$$typed_data.Uint32List"),
                    DartFFIIntType::Int32 => String::from_str("$$typed_data.Int32List"),
                    DartFFIIntType::Uint64 | DartFFIIntType::UintPtr => String::from_str("$$typed_data.Uint64List"),
                    DartFFIIntType::Int64 | DartFFIIntType::IntPtr => String::from_str("$$typed_data.Int64List"),
                },
                DartType::Double(float) => match float {
                    DartFFIFloatType::Float32 => String::from_str("$$typed_data.Float32List"),
                    DartFFIFloatType::Float64 => String::from_str("$$typed_data.Float64List"),
                },
                _ => {
                    let i = inner.dart_type();
                    crate::text::cat3("List<", i.as_str(), ">")
                },
            },
            DartType::Closure(sig) => {
                let ret = sig.ret_ty.dart_type();
                let mut names: Vec<String> = Vec::new();
                let mut i: usize = 0;
                while i < sig.arg_ty.len()
                    invariant
                        i <= sig.arg_ty@.len(),
                        names@.len() == i,
                        *self is Closure,
                        self->Closure_0 == *sig,
                        forall|j: int| 0 <= j < i ==> (#[trigger] names@[j])@ == dart_name(sig.arg_ty@[j].ty),
                    decreases sig.arg_ty.len() - i,
                {
                    proof {
                        let ghost t = *self;
                        assert(decreases_to!(t => t->Closure_0));
                        assert(decreases_to!(t->Closure_0 => t->Closure_0.arg_ty));
                        assert(decreases_to!(t->Closure_0.arg_ty => t->Closure_0.arg_ty@));
                        assert(decreases_to!(t->Closure_0.arg_ty@ => t->Closure_0.arg_ty@[i as int]));
                    }
                    names.push(sig.arg_ty[i].ty.dart_type());
                    i += 1;
                }
                proof {
                    lemma_closure_arg_names(sig.arg_ty@);
                    assert(crate::text::views(names@) =~= closure_arg_names(sig.arg_ty@));
                }
                let args = crate::text::join_strings(&names, ", ");
                crate::text::cat4(ret.as_str(), " Function(", args.as_str(), ")")
            },
            DartType::Class(n) | DartType::Record(n) | DartType::Enum(n) | DartType::Callback(n)
            | DartType::Custom(n) | DartType::Builtin(n) => n.clone(),
        }
    }

    /// Whether the type wraps `void`: an option, list or result of `void`.
    pub fn is_inner_void(&self) -> (res: bool)
        ensures
            res == inner_void(*self),
    {
        match self {
            DartType::Option(ty) | DartType::List(ty) => matches!(&**ty, DartType::Void),
            DartType::Result { ok, .. } => matches!(&**ok, DartType::Void),
            _ => false,
        }
    }

    /// The Dart expression for the hash code of the value `name`.
    pub fn hash_expr(&self, name: &str) -> (res: String)
        requires
            hashable(*self),
        ensures
            res@ == hash_of(*self, name@),
        decreases self,
    {
        match self {
            DartType::Option(ty) => {
                let bang = crate::text::cat2(name, "!");
                let inner = ty.hash_expr(bang.as_str());
                crate::text::cat5("(", name, " == null ? null.hashCode : ", inner.as_str(), ")")
            },
            DartType::List(ty) => {
                let inner = ty.hash_expr("_p$item");
                proof { reveal_strlit("_p$item"); }
                crate::text::cat5("_$$BoltUtil.listHash(", name, ", (_p$item) => ", inner.as_str(), ")")
            },
            DartType::Bytes => crate::text::cat3("_$$BoltUtil.listHash(", name, ", (_p$item) => _p$item.hashCode)"),
            DartType::Result { ok, err } => {
                let o = ok.hash_expr("_l$value");
                let e = err.hash_expr("_l$value");
                let head = crate::text::cat3("switch (", name, ") { $$BoltResult$Ok(value: final _l$value) => ");
                crate::text::cat5(head.as_str(), o.as_str(), ", $$BoltResult$Err(value: final _l$value) => ", e.as_str(), " }")
            },
            _ => crate::text::cat2(name, ".hashCode"),
        }
    }

    /// The Dart type of a Rust type.
    pub fn from_type_expr(type_expr: &TypeExpr, type_catalog: &TypeCatalog) -> (res: Self)
        requires
            exists|t: DartType| lowers(*type_catalog, *type_expr, t),
        ensures
            lowers(*type_catalog, *type_expr, res),
    {
        let ghost target = choose|t: DartType| lowers(*type_catalog, *type_expr, t);
        Self::lower(type_expr, type_catalog, Ghost(target))
    }

    /// The Dart type of what a callable declared with `return_def` returns.
    pub fn from_return_def(return_def: &ReturnDef, type_catalog: &TypeCatalog) -> (res: Self)
        requires
            exists|t: DartType| return_lowers(*type_catalog, *return_def, t),
        ensures
            return_lowers(*type_catalog, *return_def, res),
    {
        let ghost target = choose|t: DartType| return_lowers(*type_catalog, *return_def, t);
        Self::lower_return(return_def, type_catalog, Ghost(target))
    }
}


/// A parameter of a Dart function: its Dart name and type.
#[derive(Debug, PartialEq, Eq)]
pub struct DartFunctionParamSig {
    pub name: String,
    pub ty: DartType,
}

/// The Dart signature of a function: its parameters and return type.
#[derive(Debug, PartialEq, Eq)]
pub struct DartFunctionSig {
    pub args: Vec<DartFunctionParamSig>,
    pub ret: DartReturnType,
}

/// Whether every parameter in `params` has a Dart type.
pub open spec fn params_lowerable(cat: TypeCatalog, params: Seq<ParamDef>) -> bool {
    forall|i: int| 0 <= i < params.len() ==> exists|t: DartType| lowers(cat, #[trigger] params[i].type_expr, t)
}

/// Whether `sig` is the Dart signature of a callable with parameters
/// `params` returning `return_def`: parameter names are lower-camel-cased.
pub open spec fn sig_lowered(cat: TypeCatalog, params: Seq<ParamDef>, return_def: ReturnDef, sig: DartFunctionSig) -> bool {
    &&& sig.args@.len() == params.len()
    &&& forall|i: int| 0 <= i < params.len() ==> {
        &&& (#[trigger] sig.args@[i]).name@ == lower_camel(params[i].name@)
        &&& lowers(cat, params[i].type_expr, sig.args@[i].ty)
    }
    &&& return_lowers(cat, return_def, sig.ret.inner)
}

impl DartFunctionSig {
    /// The Dart signature of a callable.
    pub fn from_params_return_def(params: &[ParamDef], return_def: &ReturnDef, type_catalog: &TypeCatalog) -> (res: Self)
        requires
            params_lowerable(*type_catalog, params@),
            exists|t: DartType| return_lowers(*type_catalog, *return_def, t),
        ensures
            sig_lowered(*type_catalog, params@, *return_def, res),
    {
        let mut args: Vec<DartFunctionParamSig> = Vec::new();
        let mut i: usize = 0;
        while i < params.len()
            invariant
                i <= params@.len(),
                args@.len() == i,
                params_lowerable(*type_catalog, params@),
                forall|j: int| 0 <= j < i ==> {
                    &&& (#[trigger] args@[j]).name@ == lower_camel(params@[j].name@)
                    &&& lowers(*type_catalog, params@[j].type_expr, args@[j].ty)
                },
            decreases params.len() - i,
        {
            let p = &params[i];
            let name = NamingConvention::param_name(p.name.as_str());
            let ty = DartType::from_type_expr(&p.type_expr, type_catalog);
            args.push(DartFunctionParamSig { name, ty });
            i += 1;
        }
        DartFunctionSig { args, ret: DartReturnType { inner: DartType::from_return_def(return_def, type_catalog) } }
    }
}

} // verus!
