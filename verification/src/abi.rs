//! The C ABI shape of each exported call: argument types, roles and
//! transports.
use vstd::prelude::*;
use crate::ir::{CallbackId, ClassId, EnumId, ExecutionKind, FunctionId, MethodId, PrimitiveType, ReadSeq, RecordId, StreamId, WriteSeq};

verus! {

/// A C-level argument or return type.
#[derive(Debug, PartialEq, Eq)]
pub enum AbiType {
    Void,
    Bool,
    I8,
    U8,
    I16,
    U16,
    I32,
    U32,
    I64,
    U64,
    ISize,
    USize,
    F32,
    F64,
    Pointer(PrimitiveType),
    OwnedBuffer,
    InlineCallbackFn { params: Vec<AbiType>, return_type: Box<AbiType> },
    Handle(ClassId),
    CallbackHandle,
    Struct(RecordId),
}

/// A scalar carried by value; it may stand for an enum's tag.
#[derive(Debug, Clone, Copy, PartialEq, Eq)]
pub struct ScalarOrigin {
    pub primitive: PrimitiveType,
}

impl ScalarOrigin {
    /// The scalar's primitive type.
    pub fn primitive(&self) -> (r: PrimitiveType)
        ensures
            r == self.primitive,
    {
        self.primitive
    }
}

/// A record passed by value as a C struct.
#[derive(Debug, Clone, PartialEq, Eq)]
pub struct CompositeLayout {
    pub record_id: RecordId,
}

/// What a pointer-and-length span carries.
#[derive(Debug, Clone, PartialEq, Eq)]
pub enum SpanContent {
    Scalar(ScalarOrigin),
    Composite(CompositeLayout),
    Utf8,
    Encoded,
}

/// How a value crosses the boundary.
#[derive(Debug, Clone, PartialEq, Eq)]
pub enum Transport {
    Scalar(ScalarOrigin),
    Composite(CompositeLayout),
    Span(SpanContent),
    Handle { class_id: ClassId, nullable: bool },
    Callback { callback_id: CallbackId, nullable: bool },
}

/// How the value of a parameter is represented at the boundary: the
/// strategies of `boltffi_ffi_rules`, with what lowering reads of them
/// (the nullability of a handle).
#[derive(Debug, Clone, Copy, PartialEq, Eq)]
pub enum ParamValueStrategy {
    Scalar,
    CompositeValue,
    Utf8String,
    DirectBuffer,
    WireEncoded,
    ObjectHandle { nullable: bool },
    CallbackHandle { nullable: bool },
}

/// Whether a parameter is passed by value, shared or mutable reference.
#[derive(Debug, Clone, Copy, PartialEq, Eq)]
pub enum ParamPassingStrategy {
    ByValue,
    SharedRef,
    MutableRef,
}

/// The contract of one input parameter.
#[derive(Debug, Clone, Copy, PartialEq, Eq)]
pub struct ParamContract {
    pub value: ParamValueStrategy,
    pub passing: ParamPassingStrategy,
}

impl ParamContract {
    /// How the parameter's value is represented.
    pub fn value_strategy(&self) -> (r: ParamValueStrategy)
        ensures
            r == self.value,
    {
        self.value
    }

    /// How the parameter is passed.
    pub fn passing_strategy(&self) -> (r: ParamPassingStrategy)
        ensures
            r == self.passing,
    {
        self.passing
    }
}

/// What an ABI argument is for.
#[derive(Debug, PartialEq, Eq)]
pub enum ParamRole {
    Input {
        transport: Transport,
        contract: ParamContract,
        encode_ops: Option<WriteSeq>,
        decode_ops: Option<ReadSeq>,
    },
    SyntheticLen { for_param: String },
    CallbackContext { for_param: String },
    OutLen { for_param: String },
    OutDirect,
    StatusOut,
}

/// One argument of a C-level call.
#[derive(Debug, PartialEq, Eq)]
pub struct AbiParam {
    pub name: String,
    pub abi_type: AbiType,
    pub role: ParamRole,
}

/// How the value returned by a call crosses the boundary.
#[derive(Debug, PartialEq, Eq)]
pub struct ReturnShape {
    pub transport: Option<Transport>,
    pub decode_ops: Option<ReadSeq>,
    pub encode_ops: Option<WriteSeq>,
}

/// How a call reports its error.
#[derive(Debug, Clone, Copy, PartialEq, Eq)]
pub enum ErrorTransport {
    NoError,
    StatusCode,
    Encoded,
}


/// Which exported callable an ABI call implements.
#[derive(Debug, PartialEq, Eq)]
pub enum CallId {
    Function(FunctionId),
    Constructor { class_id: ClassId, index: usize },
    Method { class_id: ClassId, method_id: MethodId },
    RecordConstructor { record_id: RecordId, index: usize },
    RecordMethod { record_id: RecordId, method_id: MethodId },
    EnumConstructor { enum_id: EnumId, index: usize },
    EnumMethod { enum_id: EnumId, method_id: MethodId },
}

/// Whether two call ids name the same callable: same kind, same names and
/// same index.
pub open spec fn same_call(a: CallId, b: CallId) -> bool {
    match (a, b) {
        (CallId::Function(x), CallId::Function(y)) => x@ == y@,
        (CallId::Constructor { class_id: c1, index: i1 }, CallId::Constructor { class_id: c2, index: i2 }) => c1@ == c2@ && i1 == i2,
        (CallId::Method { class_id: c1, method_id: m1 }, CallId::Method { class_id: c2, method_id: m2 }) => c1@ == c2@ && m1@ == m2@,
        (CallId::RecordConstructor { record_id: r1, index: i1 }, CallId::RecordConstructor { record_id: r2, index: i2 }) => r1@ == r2@ && i1 == i2,
        (CallId::RecordMethod { record_id: r1, method_id: m1 }, CallId::RecordMethod { record_id: r2, method_id: m2 }) => r1@ == r2@ && m1@ == m2@,
        (CallId::EnumConstructor { enum_id: e1, index: i1 }, CallId::EnumConstructor { enum_id: e2, index: i2 }) => e1@ == e2@ && i1 == i2,
        (CallId::EnumMethod { enum_id: e1, method_id: m1 }, CallId::EnumMethod { enum_id: e2, method_id: m2 }) => e1@ == e2@ && m1@ == m2@,
        _ => false,
    }
}

impl CallId {
    /// Whether two call ids name the same callable.
    pub fn same(&self, other: &CallId) -> (res: bool)
        ensures
            res == same_call(*self, *other),
    {
        match (self, other) {
            (CallId::Function(x), CallId::Function(y)) => *x == *y,
            (CallId::Constructor { class_id: c1, index: i1 }, CallId::Constructor { class_id: c2, index: i2 }) => *c1 == *c2 && *i1 == *i2,
            (CallId::Method { class_id: c1, method_id: m1 }, CallId::Method { class_id: c2, method_id: m2 }) => *c1 == *c2 && *m1 == *m2,
            (CallId::RecordConstructor { record_id: r1, index: i1 }, CallId::RecordConstructor { record_id: r2, index: i2 }) => *r1 == *r2 && *i1 == *i2,
            (CallId::RecordMethod { record_id: r1, method_id: m1 }, CallId::RecordMethod { record_id: r2, method_id: m2 }) => *r1 == *r2 && *m1 == *m2,
            (CallId::EnumConstructor { enum_id: e1, index: i1 }, CallId::EnumConstructor { enum_id: e2, index: i2 }) => *e1 == *e2 && *i1 == *i2,
            (CallId::EnumMethod { enum_id: e1, method_id: m1 }, CallId::EnumMethod { enum_id: e2, method_id: m2 }) => *e1 == *e2 && *m1 == *m2,
            _ => false,
        }
    }
}

/// The entry points of an async call and how its result arrives.
#[derive(Debug, PartialEq, Eq)]
pub struct AsyncCall {
    pub poll: String,
    pub complete: String,
    pub cancel: String,
    pub free: String,
    pub result: ReturnShape,
    pub error: ErrorTransport,
}

/// Whether a call returns at once or through its async entry points.
#[derive(Debug, PartialEq, Eq)]
pub enum CallMode {
    Sync,
    Async(Box<AsyncCall>),
}

/// One exported C-level call.
#[derive(Debug, PartialEq, Eq)]
pub struct AbiCall {
    pub id: CallId,
    pub symbol: String,
    pub mode: CallMode,
    pub params: Vec<AbiParam>,
    pub returns: ReturnShape,
    pub error: ErrorTransport,
}

/// The C-level shape of one method of a callback.
#[derive(Debug, PartialEq, Eq)]
pub struct AbiCallbackMethod {
    pub id: MethodId,
    pub params: Vec<AbiParam>,
    pub returns: ReturnShape,
    pub error: ErrorTransport,
    pub execution_kind: ExecutionKind,
}

/// The C-level shape of a callback: its vtable and its methods.
#[derive(Debug, PartialEq, Eq)]
pub struct AbiCallbackInvocation {
    pub callback_id: CallbackId,
    pub vtable_type: String,
    pub methods: Vec<AbiCallbackMethod>,
}

/// How the items of a stream are carried.
#[derive(Debug, PartialEq, Eq)]
pub enum StreamItemTransport {
    WireEncoded { decode_ops: ReadSeq },
}

/// The C-level entry points of a class's stream.
#[derive(Debug, PartialEq, Eq)]
pub struct AbiStream {
    pub class_id: ClassId,
    pub stream_id: StreamId,
    pub item: StreamItemTransport,
    pub item_transport: Transport,
    pub item_size: Option<usize>,
    pub subscribe: String,
    pub poll: String,
    pub pop_batch: String,
    pub wait: String,
    pub unsubscribe: String,
    pub free: String,
}

/// The C ABI of a binding: its calls, callbacks and streams.
#[derive(Debug, PartialEq, Eq)]
pub struct AbiContract {
    pub calls: Vec<AbiCall>,
    pub callbacks: Vec<AbiCallbackInvocation>,
    pub streams: Vec<AbiStream>,
}

} // verus!
