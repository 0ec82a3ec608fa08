//! The binding description that the renderers read: source-level types, the
//! wire codec plans, and the C ABI shape of each call.
use vstd::prelude::*;

verus! {

/// Name of a record.
pub type RecordId = String;

/// Name of an enum.
pub type EnumId = String;

/// Name of a class.
pub type ClassId = String;

/// Name of a callback trait or closure type.
pub type CallbackId = String;

/// Name of a custom (wrapped) type.
pub type CustomTypeId = String;

/// Name of a builtin type such as `Duration` or `Url`.
pub type BuiltinId = String;

/// Name of a free function.
pub type FunctionId = String;

/// Name of a method.
pub type MethodId = String;

/// Name of a stream.
pub type StreamId = String;

/// A scalar type of the Rust side.
#[derive(Debug, Clone, Copy, PartialEq, Eq)]
pub enum PrimitiveType {
    Bool,
    I8,
    U8,
    I16,
    U16,
    I32,
    U32,
    I64,
    U64,
    ISize,
    USize,
    F32,
    F64,
}

/// Whether a callable runs to completion or returns a future.
#[derive(Debug, Clone, Copy, PartialEq, Eq)]
pub enum ExecutionKind {
    Sync,
    Async,
}

/// How a stream delivers its items.
#[derive(Debug, Clone, Copy, PartialEq, Eq)]
pub enum StreamMode {
    Async,
    Batch,
    Callback,
}

/// Whether a callback type is a trait object or a plain closure.
#[derive(Debug, Clone, Copy, PartialEq, Eq)]
pub enum CallbackKind {
    Trait,
    Closure,
}

/// A type as written in the exported Rust API.
#[derive(Debug, PartialEq, Eq)]
pub enum TypeExpr {
    Void,
    Primitive(PrimitiveType),
    String,
    Str,
    Vec(Box<TypeExpr>),
    Option(Box<TypeExpr>),
    Result { ok: Box<TypeExpr>, err: Box<TypeExpr> },
    Record(RecordId),
    Enum(EnumId),
    Callback(CallbackId),
    Custom(CustomTypeId),
    Builtin(BuiltinId),
    Handle(ClassId),
}

/// What a callable returns.
#[derive(Debug, PartialEq, Eq)]
pub enum ReturnDef {
    Void,
    Value(TypeExpr),
    Result { ok: TypeExpr, err: TypeExpr },
}

/// The default value of a record field. A float default is kept as the
/// text that renders it.
#[derive(Debug, Clone, PartialEq, Eq)]
pub enum DefaultValue {
    Bool(bool),
    Integer(i64),
    Float(String),
    String(String),
    EnumVariant { enum_name: String, variant_name: String },
    Null,
}

/// How a parameter is received on the Rust side.
#[derive(Debug, Clone, Copy, PartialEq, Eq)]
pub enum ParamPassing {
    Value,
    Ref,
    RefMut,
    ImplTrait,
}

/// A parameter of an exported callable.
#[derive(Debug, PartialEq, Eq)]
pub struct ParamDef {
    pub name: String,
    pub type_expr: TypeExpr,
    pub passing: ParamPassing,
    pub doc: Option<String>,
}

/// The value a size or codec expression is applied to.
#[derive(Debug, PartialEq, Eq)]
pub enum ValueExpr {
    Instance,
    Var(String),
    Named(String),
    Field(Box<ValueExpr>, String),
}

/// Whose `wireEncodedSize` a size refers to.
#[derive(Debug, Clone, PartialEq, Eq)]
pub enum WireSizeOwner {
    Record(RecordId),
    Enum(EnumId),
    Custom(CustomTypeId),
}

/// The layout of a vector on the wire.
#[derive(Debug, Clone, Copy, PartialEq, Eq)]
pub enum VecLayout {
    Blittable { element_size: usize },
    Encoded,
}

/// The encoded size of a value, as an expression over that value.
#[derive(Debug, PartialEq, Eq)]
pub enum SizeExpr {
    Fixed(usize),
    Runtime,
    StringLen(ValueExpr),
    BytesLen(ValueExpr),
    ValueSize(ValueExpr),
    WireSize { value: ValueExpr, owner: Option<WireSizeOwner> },
    BuiltinSize { id: BuiltinId, value: ValueExpr },
    Sum(Vec<SizeExpr>),
    OptionSize { value: ValueExpr, inner: Box<SizeExpr> },
    VecSize { value: ValueExpr, inner: Box<SizeExpr>, layout: VecLayout },
    ResultSize { value: ValueExpr, ok: Box<SizeExpr>, err: Box<SizeExpr> },
}

/// One step of a wire encoder.
#[derive(Debug, PartialEq, Eq)]
pub enum WriteOp {
    Primitive { primitive: PrimitiveType, value: ValueExpr },
    String { value: ValueExpr },
    Builtin { id: BuiltinId, value: ValueExpr },
    Record { id: RecordId, value: ValueExpr },
    Enum { id: EnumId, value: ValueExpr },
    Custom { id: CustomTypeId, value: ValueExpr, underlying: WriteSeq },
    Vec { value: ValueExpr, element_type: TypeExpr, element: WriteSeq, layout: VecLayout },
    Option { value: ValueExpr, some: WriteSeq },
    Result { value: ValueExpr, ok: WriteSeq, err: WriteSeq },
}

/// A wire encoder: its size and its steps.
#[derive(Debug, PartialEq, Eq)]
pub struct WriteSeq {
    pub size: SizeExpr,
    pub ops: Vec<WriteOp>,
}

/// How an enum is laid out on the wire.
#[derive(Debug, Clone, PartialEq, Eq)]
pub enum EnumLayout {
    CStyle { tag_type: PrimitiveType, is_error: bool },
    Data { tag_type: PrimitiveType },
    Recursive,
}

/// One step of a wire decoder.
#[derive(Debug, PartialEq, Eq)]
pub enum ReadOp {
    Primitive { primitive: PrimitiveType },
    String,
    Builtin { id: BuiltinId },
    Record { id: RecordId },
    Enum { id: EnumId, layout: EnumLayout },
    Custom { id: CustomTypeId, underlying: ReadSeq },
    Vec { element_type: TypeExpr, element: ReadSeq, layout: VecLayout },
    Option { some: ReadSeq },
    Result { ok: ReadSeq, err: ReadSeq },
}

/// A wire decoder: its size and its steps.
#[derive(Debug, PartialEq, Eq)]
pub struct ReadSeq {
    pub size: SizeExpr,
    pub ops: Vec<ReadOp>,
}

/// One method of a callback trait; a closure type has a single method `call`.
#[derive(Debug, PartialEq, Eq)]
pub struct CallbackMethodDef {
    pub id: MethodId,
    pub params: Vec<ParamDef>,
    pub returns: ReturnDef,
    pub execution_kind: ExecutionKind,
    pub doc: Option<String>,
}

/// A callback trait or closure type.
#[derive(Debug, PartialEq, Eq)]
pub struct CallbackTraitDef {
    pub id: CallbackId,
    pub methods: Vec<CallbackMethodDef>,
    pub kind: CallbackKind,
    pub doc: Option<String>,
}

/// The types that a binding declares, looked up by name.
#[derive(Debug, PartialEq, Eq)]
pub struct TypeCatalog {
    pub callbacks: Vec<CallbackTraitDef>,
    pub classes: Vec<ClassDef>,
}

/// The name and version of the package a binding is made for.
#[derive(Debug, PartialEq, Eq)]
pub struct PackageInfo {
    pub name: String,
    pub version: Option<String>,
}

/// An exported free function.
#[derive(Debug, PartialEq, Eq)]
pub struct FunctionDef {
    pub id: FunctionId,
    pub params: Vec<ParamDef>,
    pub returns: ReturnDef,
    pub doc: Option<String>,
}

/// A constructor of a class, record or enum: the default one, a named
/// factory, or a named initializer.
#[derive(Debug, PartialEq, Eq)]
pub enum ConstructorDef {
    Default { params: Vec<ParamDef>, is_fallible: bool, is_optional: bool, doc: Option<String> },
    NamedFactory { name: String, params: Vec<ParamDef>, is_fallible: bool, is_optional: bool, doc: Option<String> },
    NamedInit { name: String, params: Vec<ParamDef>, is_fallible: bool, is_optional: bool, doc: Option<String> },
}

/// How a method receives its owner.
#[derive(Debug, Clone, Copy, PartialEq, Eq)]
pub enum Receiver {
    Static,
    RefSelf,
    RefMutSelf,
    OwnedSelf,
}

/// An exported method.
#[derive(Debug, PartialEq, Eq)]
pub struct MethodDef {
    pub id: MethodId,
    pub receiver: Receiver,
    pub params: Vec<ParamDef>,
    pub returns: ReturnDef,
    pub doc: Option<String>,
}

/// A stream that a class exports.
#[derive(Debug, PartialEq, Eq)]
pub struct StreamDef {
    pub id: StreamId,
    pub item_type: TypeExpr,
    pub mode: StreamMode,
    pub doc: Option<String>,
}

/// An exported class.
#[derive(Debug, PartialEq, Eq)]
pub struct ClassDef {
    pub id: ClassId,
    pub constructors: Vec<ConstructorDef>,
    pub methods: Vec<MethodDef>,
    pub streams: Vec<StreamDef>,
    pub doc: Option<String>,
}

/// The source-level description of a binding: its package, functions and
/// declared types.
#[derive(Debug, PartialEq, Eq)]
pub struct FfiContract {
    pub package: PackageInfo,
    pub functions: Vec<FunctionDef>,
    pub catalog: TypeCatalog,
}

/// The parameters of a constructor.
pub open spec fn ctor_params(c: ConstructorDef) -> Vec<ParamDef> {
    match c {
        ConstructorDef::Default { params, .. } => params,
        ConstructorDef::NamedFactory { params, .. } => params,
        ConstructorDef::NamedInit { params, .. } => params,
    }
}

impl ConstructorDef {
    /// The constructor's parameters.
    pub fn params(&self) -> (res: &Vec<ParamDef>)
        ensures
            *res == ctor_params(*self),
    {
        match self {
            ConstructorDef::Default { params, .. } => params,
            ConstructorDef::NamedFactory { params, .. } => params,
            ConstructorDef::NamedInit { params, .. } => params,
        }
    }

    /// Whether the constructor can fail.
    pub fn is_fallible(&self) -> (res: bool)
        ensures
            res == match *self {
                ConstructorDef::Default { is_fallible, .. } => is_fallible,
                ConstructorDef::NamedFactory { is_fallible, .. } => is_fallible,
                ConstructorDef::NamedInit { is_fallible, .. } => is_fallible,
            },
    {
        match self {
            ConstructorDef::Default { is_fallible, .. } => *is_fallible,
            ConstructorDef::NamedFactory { is_fallible, .. } => *is_fallible,
            ConstructorDef::NamedInit { is_fallible, .. } => *is_fallible,
        }
    }

    /// Whether the constructor may return nothing.
    pub fn is_optional(&self) -> (res: bool)
        ensures
            res == match *self {
                ConstructorDef::Default { is_optional, .. } => is_optional,
                ConstructorDef::NamedFactory { is_optional, .. } => is_optional,
                ConstructorDef::NamedInit { is_optional, .. } => is_optional,
            },
    {
        match self {
            ConstructorDef::Default { is_optional, .. } => *is_optional,
            ConstructorDef::NamedFactory { is_optional, .. } => *is_optional,
            ConstructorDef::NamedInit { is_optional, .. } => *is_optional,
        }
    }

    /// The constructor's documentation.
    pub fn doc(&self) -> (res: &Option<String>)
        ensures
            *res == match *self {
                ConstructorDef::Default { doc, .. } => doc,
                ConstructorDef::NamedFactory { doc, .. } => doc,
                ConstructorDef::NamedInit { doc, .. } => doc,
            },
    {
        match self {
            ConstructorDef::Default { doc, .. } => doc,
            ConstructorDef::NamedFactory { doc, .. } => doc,
            ConstructorDef::NamedInit { doc, .. } => doc,
        }
    }
}

/// The index of the first callback named `id` in `cbs[from..]`.
pub open spec fn first_callback(cbs: Seq<CallbackTraitDef>, id: Seq<char>, from: int) -> Option<int>
    decreases cbs.len() - from,
{
    if from < 0 || from >= cbs.len() {
        None
    } else if cbs[from].id@ == id {
        Some(from)
    } else {
        first_callback(cbs, id, from + 1)
    }
}

impl TypeCatalog {
    /// The first callback declared under `id`, if any.
    pub open spec fn callback(&self, id: Seq<char>) -> Option<CallbackTraitDef> {
        match first_callback(self.callbacks@, id, 0) {
            Some(i) => Some(self.callbacks@[i]),
            None => None,
        }
    }

    /// Looks up a callback type by name.
    pub fn resolve_callback(&self, id: &str) -> (r: Option<&CallbackTraitDef>)
        ensures
            r matches Some(c) ==> self.callback(id@) == Some(*c),
            r is None ==> self.callback(id@) is None,
    {
        let mut i: usize = 0;
        while i < self.callbacks.len()
            invariant
                i <= self.callbacks@.len(),
                first_callback(self.callbacks@, id@, 0) == first_callback(self.callbacks@, id@, i as int),
            decreases self.callbacks.len() - i,
        {
            if crate::text::str_eq(self.callbacks[i].id.as_str(), id) {
                return Some(&self.callbacks[i]);
            }
            i += 1;
        }
        None
    }
}


/// A copy of a type expression.
pub fn copy_type(t: &TypeExpr) -> (res: TypeExpr)
    ensures
        res == *t,
    decreases t,
{
    match t {
        TypeExpr::Void => TypeExpr::Void,
        TypeExpr::Primitive(p) => TypeExpr::Primitive(*p),
        TypeExpr::String => TypeExpr::String,
        TypeExpr::Str => TypeExpr::Str,
        TypeExpr::Vec(inner) => TypeExpr::Vec(Box::new(copy_type(inner))),
        TypeExpr::Option(inner) => TypeExpr::Option(Box::new(copy_type(inner))),
        TypeExpr::Result { ok, err } => TypeExpr::Result { ok: Box::new(copy_type(ok)), err: Box::new(copy_type(err)) },
        TypeExpr::Record(id) => TypeExpr::Record(id.clone()),
        TypeExpr::Enum(id) => TypeExpr::Enum(id.clone()),
        TypeExpr::Callback(id) => TypeExpr::Callback(id.clone()),
        TypeExpr::Custom(id) => TypeExpr::Custom(id.clone()),
        TypeExpr::Builtin(id) => TypeExpr::Builtin(id.clone()),
        TypeExpr::Handle(id) => TypeExpr::Handle(id.clone()),
    }
}

/// A copy of a value expression.
pub fn copy_value(v: &ValueExpr) -> (res: ValueExpr)
    ensures
        res == *v,
    decreases v,
{
    match v {
        ValueExpr::Instance => ValueExpr::Instance,
        ValueExpr::Var(n) => ValueExpr::Var(n.clone()),
        ValueExpr::Named(n) => ValueExpr::Named(n.clone()),
        ValueExpr::Field(parent, field) => ValueExpr::Field(Box::new(copy_value(parent)), field.clone()),
    }
}

fn copy_owner(o: &Option<WireSizeOwner>) -> (res: Option<WireSizeOwner>)
    ensures
        res == *o,
{
    match o {
        None => None,
        Some(WireSizeOwner::Record(id)) => Some(WireSizeOwner::Record(id.clone())),
        Some(WireSizeOwner::Enum(id)) => Some(WireSizeOwner::Enum(id.clone())),
        Some(WireSizeOwner::Custom(id)) => Some(WireSizeOwner::Custom(id.clone())),
    }
}

/// Whether two size expressions are the same, part for part.
pub open spec fn same_size(a: SizeExpr, b: SizeExpr) -> bool
    decreases a,
{
    match a {
        SizeExpr::Sum(pa) => {
            &&& b matches SizeExpr::Sum(pb)
            &&& pa@.len() == pb@.len()
            &&& forall|i: int| 0 <= i < pa@.len() ==> same_size(pa@[i], #[trigger] pb@[i])
        },
        SizeExpr::OptionSize { value, inner } => {
            b matches SizeExpr::OptionSize { value: v2, inner: i2 } && value == v2 && same_size(*inner, *i2)
        },
        SizeExpr::VecSize { value, inner, layout } => {
            b matches SizeExpr::VecSize { value: v2, inner: i2, layout: l2 } && value == v2 && layout == l2
                && same_size(*inner, *i2)
        },
        SizeExpr::ResultSize { value, ok, err } => {
            b matches SizeExpr::ResultSize { value: v2, ok: o2, err: e2 } && value == v2 && same_size(*ok, *o2)
                && same_size(*err, *e2)
        },
        _ => a == b,
    }
}

/// A copy of a size expression.
pub fn copy_size(e: &SizeExpr) -> (res: SizeExpr)
    ensures
        same_size(*e, res),
    decreases e,
{
    match e {
        SizeExpr::Fixed(n) => SizeExpr::Fixed(*n),
        SizeExpr::Runtime => SizeExpr::Runtime,
        SizeExpr::StringLen(v) => SizeExpr::StringLen(copy_value(v)),
        SizeExpr::BytesLen(v) => SizeExpr::BytesLen(copy_value(v)),
        SizeExpr::ValueSize(v) => SizeExpr::ValueSize(copy_value(v)),
        SizeExpr::WireSize { value, owner } => SizeExpr::WireSize { value: copy_value(value), owner: copy_owner(owner) },
        SizeExpr::BuiltinSize { id, value } => SizeExpr::BuiltinSize { id: id.clone(), value: copy_value(value) },
        SizeExpr::Sum(parts) => {
            let mut out: Vec<SizeExpr> = Vec::new();
            let mut i: usize = 0;
            while i < parts.len()
                invariant
                    i <= parts@.len(),
                    out@.len() == i,
                    *e is Sum,
                    e->Sum_0 == *parts,
                    forall|j: int| 0 <= j < i ==> same_size(parts@[j], #[trigger] out@[j]),
                decreases parts.len() - i,
            {
                proof {
                    let ghost t = *e;
                    assert(decreases_to!(t => t->Sum_0));
                    assert(decreases_to!(t->Sum_0 => t->Sum_0@));
                    assert(decreases_to!(t->Sum_0@ => t->Sum_0@[i as int]));
                }
                out.push(copy_size(&parts[i]));
                i += 1;
            }
            SizeExpr::Sum(out)
        },
        SizeExpr::OptionSize { value, inner } => SizeExpr::OptionSize { value: copy_value(value), inner: Box::new(copy_size(inner)) },
        SizeExpr::VecSize { value, inner, layout } => {
            SizeExpr::VecSize { value: copy_value(value), inner: Box::new(copy_size(inner)), layout: *layout }
        },
        SizeExpr::ResultSize { value, ok, err } => SizeExpr::ResultSize {
            value: copy_value(value),
            ok: Box::new(copy_size(ok)),
            err: Box::new(copy_size(err)),
        },
    }
}

/// Whether two encoders are the same, step for step.
pub open spec fn same_write(a: WriteSeq, b: WriteSeq) -> bool
    decreases a, 1nat,
{
    &&& same_size(a.size, b.size)
    &&& a.ops@.len() == b.ops@.len()
    &&& forall|i: int| 0 <= i < a.ops@.len() ==> same_write_op(a.ops@[i], #[trigger] b.ops@[i])
}

/// Whether two encoder steps are the same.
pub open spec fn same_write_op(a: WriteOp, b: WriteOp) -> bool
    decreases a, 0nat,
{
    match a {
        WriteOp::Custom { id, value, underlying } => {
            b matches WriteOp::Custom { id: i2, value: v2, underlying: u2 } && id == i2 && value == v2
                && same_write(underlying, u2)
        },
        WriteOp::Vec { value, element_type, element, layout } => {
            b matches WriteOp::Vec { value: v2, element_type: t2, element: e2, layout: l2 } && value == v2
                && element_type == t2 && layout == l2 && same_write(element, e2)
        },
        WriteOp::Option { value, some } => {
            b matches WriteOp::Option { value: v2, some: s2 } && value == v2 && same_write(some, s2)
        },
        WriteOp::Result { value, ok, err } => {
            b matches WriteOp::Result { value: v2, ok: o2, err: e2 } && value == v2 && same_write(ok, o2)
                && same_write(err, e2)
        },
        _ => a == b,
    }
}

/// A copy of an encoder.
pub fn copy_write(s: &WriteSeq) -> (res: WriteSeq)
    ensures
        same_write(*s, res),
    decreases s, 1nat,
{
    let size = copy_size(&s.size);
    let mut ops: Vec<WriteOp> = Vec::new();
    let mut i: usize = 0;
    while i < s.ops.len()
        invariant
            i <= s.ops@.len(),
            ops@.len() == i,
            forall|j: int| 0 <= j < i ==> same_write_op(s.ops@[j], #[trigger] ops@[j]),
        decreases s.ops.len() - i,
    {
        proof {
            assert(decreases_to!(s => s.ops));
            assert(decreases_to!(s.ops => s.ops@));
            assert(decreases_to!(s.ops@ => s.ops@[i as int]));
        }
        ops.push(copy_write_op(&s.ops[i]));
        i += 1;
    }
    WriteSeq { size, ops }
}

/// A copy of an encoder step.
pub fn copy_write_op(op: &WriteOp) -> (res: WriteOp)
    ensures
        same_write_op(*op, res),
    decreases op, 0nat,
{
    match op {
        WriteOp::Primitive { primitive, value } => WriteOp::Primitive { primitive: *primitive, value: copy_value(value) },
        WriteOp::String { value } => WriteOp::String { value: copy_value(value) },
        WriteOp::Builtin { id, value } => WriteOp::Builtin { id: id.clone(), value: copy_value(value) },
        WriteOp::Record { id, value } => WriteOp::Record { id: id.clone(), value: copy_value(value) },
        WriteOp::Enum { id, value } => WriteOp::Enum { id: id.clone(), value: copy_value(value) },
        WriteOp::Custom { id, value, underlying } => WriteOp::Custom {
            id: id.clone(),
            value: copy_value(value),
            underlying: copy_write(underlying),
        },
        WriteOp::Vec { value, element_type, element, layout } => WriteOp::Vec {
            value: copy_value(value),
            element_type: copy_type(element_type),
            element: copy_write(element),
            layout: *layout,
        },
        WriteOp::Option { value, some } => WriteOp::Option { value: copy_value(value), some: copy_write(some) },
        WriteOp::Result { value, ok, err } => WriteOp::Result {
            value: copy_value(value),
            ok: copy_write(ok),
            err: copy_write(err),
        },
    }
}

/// Whether two decoders are the same, step for step.
pub open spec fn same_read(a: ReadSeq, b: ReadSeq) -> bool
    decreases a, 1nat,
{
    &&& same_size(a.size, b.size)
    &&& a.ops@.len() == b.ops@.len()
    &&& forall|i: int| 0 <= i < a.ops@.len() ==> same_read_op(a.ops@[i], #[trigger] b.ops@[i])
}

/// Whether two decoder steps are the same.
pub open spec fn same_read_op(a: ReadOp, b: ReadOp) -> bool
    decreases a, 0nat,
{
    match a {
        ReadOp::Custom { id, underlying } => {
            b matches ReadOp::Custom { id: i2, underlying: u2 } && id == i2 && same_read(underlying, u2)
        },
        ReadOp::Vec { element_type, element, layout } => {
            b matches ReadOp::Vec { element_type: t2, element: e2, layout: l2 } && element_type == t2
                && layout == l2 && same_read(element, e2)
        },
        ReadOp::Option { some } => b matches ReadOp::Option { some: s2 } && same_read(some, s2),
        ReadOp::Result { ok, err } => {
            b matches ReadOp::Result { ok: o2, err: e2 } && same_read(ok, o2) && same_read(err, e2)
        },
        _ => a == b,
    }
}

fn copy_layout(l: &EnumLayout) -> (res: EnumLayout)
    ensures
        res == *l,
{
    match l {
        EnumLayout::CStyle { tag_type, is_error } => EnumLayout::CStyle { tag_type: *tag_type, is_error: *is_error },
        EnumLayout::Data { tag_type } => EnumLayout::Data { tag_type: *tag_type },
        EnumLayout::Recursive => EnumLayout::Recursive,
    }
}

/// A copy of a decoder.
pub fn copy_read(s: &ReadSeq) -> (res: ReadSeq)
    ensures
        same_read(*s, res),
    decreases s, 1nat,
{
    let size = copy_size(&s.size);
    let mut ops: Vec<ReadOp> = Vec::new();
    let mut i: usize = 0;
    while i < s.ops.len()
        invariant
            i <= s.ops@.len(),
            ops@.len() == i,
            forall|j: int| 0 <= j < i ==> same_read_op(s.ops@[j], #[trigger] ops@[j]),
        decreases s.ops.len() - i,
    {
        proof {
            assert(decreases_to!(s => s.ops));
            assert(decreases_to!(s.ops => s.ops@));
            assert(decreases_to!(s.ops@ => s.ops@[i as int]));
        }
        ops.push(copy_read_op(&s.ops[i]));
        i += 1;
    }
    ReadSeq { size, ops }
}

/// A copy of a decoder step.
pub fn copy_read_op(op: &ReadOp) -> (res: ReadOp)
    ensures
        same_read_op(*op, res),
    decreases op, 0nat,
{
    match op {
        ReadOp::Primitive { primitive } => ReadOp::Primitive { primitive: *primitive },
        ReadOp::String => ReadOp::String,
        ReadOp::Builtin { id } => ReadOp::Builtin { id: id.clone() },
        ReadOp::Record { id } => ReadOp::Record { id: id.clone() },
        ReadOp::Enum { id, layout } => ReadOp::Enum { id: id.clone(), layout: copy_layout(layout) },
        ReadOp::Custom { id, underlying } => ReadOp::Custom { id: id.clone(), underlying: copy_read(underlying) },
        ReadOp::Vec { element_type, element, layout } => ReadOp::Vec {
            element_type: copy_type(element_type),
            element: copy_read(element),
            layout: *layout,
        },
        ReadOp::Option { some } => ReadOp::Option { some: copy_read(some) },
        ReadOp::Result { ok, err } => ReadOp::Result { ok: copy_read(ok), err: copy_read(err) },
    }
}

} // verus!
