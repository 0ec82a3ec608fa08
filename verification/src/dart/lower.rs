//! Lowering a binding to the Dart plan: each exported function, class and
//! callback becomes the Dart declarations that call it across the C ABI.
use vstd::prelude::*;
use crate::abi::{same_call, AbiCall, AbiCallbackMethod, AbiContract, AbiParam, AbiStream, CallId, CallMode, ParamContract, ParamPassingStrategy, ParamRole, ReturnShape, SpanContent, StreamItemTransport, Transport};
use crate::ir::{copy_read, copy_write, ctor_params, same_read, same_write, same_write_op, same_size, CallbackKind, CallbackMethodDef, CallbackTraitDef, ClassDef, ConstructorDef, ExecutionKind, FfiContract, FunctionDef, MethodDef, ParamDef, ReadSeq, Receiver, ReturnDef, StreamDef, TypeExpr, WriteOp, WriteSeq};
use crate::dart::api_type::{params_lowerable, return_lowers, lowers, sig_lowered, DartFunctionSig, DartReturnType, DartType};
use crate::dart::emit::{exception_remapped, remap_write_seq, remappable};
use crate::dart::function::{
    DartConstructorKind, DartFFIAsyncFunctionDef, DartFFIClosureDef, DartFFIFunctionDef, DartFFIParamBytes,
    DartFFIParamValue, DartFFIReturnsPassing, DartFFIValuePassing, DartFunction, DartFunctionCallOwner,
    DartFunctionMode, DartFunctionParam, DartFunctionParamWriteBack, DartFunctionReturns, DartFunctionType,
    DartMethodReceiver,
};
use crate::dart::naming::{lower_camel, upper_camel, NamingConvention};
use crate::dart::record::{DartCustomType, DartEnum, DartRecord, DartStream};
use crate::dart::function::{ffi_param_ready, params_texts};
use crate::text::views;
use crate::dart::types::{
    abi_param_lowered, abi_param_name, ffi_primitive_of, ffi_type_of, return_lowered, transport_lowered, void_ptr,
    DartFFIFunctionParamSig, DartFFIFunctionSig, DartFFIIntType, DartFFIType,
};

verus! {

/// Lowers a binding, described by its source-level and its C-level
/// contracts, to the Dart plan.
pub struct DartLowerer<'a> {
    pub ffi: &'a FfiContract,
    pub abi: &'a AbiContract,
    pub package_name: &'a str,
}

/// The index of the first call of `calls` from `from` on that implements `id`.
pub open spec fn first_call(calls: Seq<AbiCall>, id: crate::abi::CallId, from: int) -> Option<int>
    decreases calls.len() - from,
{
    if from < 0 || from >= calls.len() {
        None
    } else if same_call(calls[from].id, id) {
        Some(from)
    } else {
        first_call(calls, id, from + 1)
    }
}

/// The index of the first C-level callback for callback `id`.
pub open spec fn first_abi_callback(cbs: Seq<crate::abi::AbiCallbackInvocation>, id: Seq<char>, from: int) -> Option<int>
    decreases cbs.len() - from,
{
    if from < 0 || from >= cbs.len() {
        None
    } else if cbs[from].callback_id@ == id {
        Some(from)
    } else {
        first_abi_callback(cbs, id, from + 1)
    }
}

/// The arguments that carry an input of the Rust signature.
pub open spec fn inputs(ps: Seq<AbiParam>) -> Seq<AbiParam> {
    ps.filter(|p: AbiParam| p.role is Input)
}

/// The arguments of a native closure: inputs and their synthetic lengths.
pub open spec fn closure_args(ps: Seq<AbiParam>) -> Seq<AbiParam> {
    ps.filter(|p: AbiParam| p.role is Input || p.role is SyntheticLen)
}

/// Whether the optional encoder `w` is the optional encoder `enc`, copied.
pub open spec fn write_copied(enc: Option<WriteSeq>, w: Option<WriteSeq>) -> bool {
    match enc {
        None => w is None,
        Some(e) => w matches Some(w2) && same_write(e, w2),
    }
}

/// Whether the optional decoder `r` is the optional decoder `dec`, copied.
pub open spec fn read_copied(dec: Option<ReadSeq>, r: Option<ReadSeq>) -> bool {
    match dec {
        None => r is None,
        Some(d) => r matches Some(r2) && same_read(d, r2),
    }
}

/// Whether the optional encoder `w` is a copy of `enc` with its string
/// errors measured as exceptions.
pub open spec fn write_lowered(enc: Option<WriteSeq>, w: Option<WriteSeq>) -> bool {
    match enc {
        None => w is None,
        Some(e) => {
            &&& remappable(e)
            &&& w matches Some(w2)
            &&& exists|c: WriteSeq| same_write(e, c) && exception_remapped(c, w2)
        },
    }
}

/// What is copied back after a call: the scalars of a span passed by
/// mutable reference.
pub open spec fn writeback_of(contract: ParamContract, p: DartFFIValuePassing) -> Option<DartFunctionParamWriteBack> {
    match p {
        DartFFIValuePassing::Bytes(DartFFIParamBytes::Array(DartFFIParamValue::Primitive(prim))) => {
            if contract.passing is MutableRef {
                Some(DartFunctionParamWriteBack::PrimitiveBytes(prim))
            } else {
                None
            }
        },
        _ => None,
    }
}

/// Whether `sig` is the native signature of a closure whose C-level method
/// is `call` with arguments `cps` after its handle: the userdata pointer,
/// then each input and synthetic length.
pub open spec fn closure_sig_lowered(cps: Seq<AbiParam>, call: AbiCallbackMethod, sig: DartFFIFunctionSig) -> bool {
    let args = closure_args(cps);
    &&& sig.args@.len() == args.len() + 1
    &&& sig.args@[0].name@ == "_p$ud"@
    &&& sig.args@[0].ty == void_ptr()
    &&& forall|i: int| 0 <= i < args.len() ==> {
        &&& (#[trigger] sig.args@[i + 1]).name@ == abi_param_name(args[i])
        &&& abi_param_lowered(args[i], sig.args@[i + 1].ty)
    }
    &&& return_lowered(call.returns, call.error, sig.ret)
}

/// Whether `p` is how a value carried by `t` crosses to Dart. Scalars and
/// records pass directly, spans as bytes, encoded values on the wire,
/// handles as handles. A trait callback passes as a callback handle; a
/// closure callback passes as a native closure built from the `call` method
/// of its C-level callback, whose inputs match those of its declaration.
pub open spec fn passing_lowered(ffi: FfiContract, abi: AbiContract, t: Transport, p: DartFFIValuePassing) -> bool
    decreases p, 0nat,
{
    match t {
        Transport::Scalar(o) => p == DartFFIValuePassing::Value(DartFFIParamValue::Primitive(ffi_primitive_of(o.primitive))),
        Transport::Composite(l) => p == DartFFIValuePassing::Value(DartFFIParamValue::Record(l.record_id)),
        Transport::Span(SpanContent::Scalar(o)) => {
            p == DartFFIValuePassing::Bytes(DartFFIParamBytes::Array(DartFFIParamValue::Primitive(ffi_primitive_of(o.primitive))))
        },
        Transport::Span(SpanContent::Composite(l)) => {
            p == DartFFIValuePassing::Bytes(DartFFIParamBytes::Array(DartFFIParamValue::Record(l.record_id)))
        },
        Transport::Span(SpanContent::Utf8) => p == DartFFIValuePassing::Bytes(DartFFIParamBytes::UTF8),
        Transport::Span(SpanContent::Encoded) => p is WireEncoded,
        Transport::Handle { class_id, nullable } => p == DartFFIValuePassing::ClassHandle { class: class_id, nullable },
        Transport::Callback { callback_id, nullable } => {
            &&& ffi.catalog.callback(callback_id@) is Some
            &&& {
                let cb = ffi.catalog.callback(callback_id@)->0;
                match cb.kind {
                    CallbackKind::Trait => p == DartFFIValuePassing::CallbackHandle { class: callback_id, nullable },
                    CallbackKind::Closure => {
                        let i = first_abi_callback(abi.callbacks@, callback_id@, 0);
                        &&& i is Some
                        &&& abi.callbacks@[i->0].methods@.len() > 0
                        &&& cb.methods@.len() > 0
                        &&& {
                            let call = abi.callbacks@[i->0].methods@[0];
                            let m = cb.methods@[0];
                            let cps = call.params@.skip(1);
                            &&& call.id@ == "call"@
                            &&& call.params@.len() >= 1
                            &&& m.params@.len() == inputs(cps).len()
                            &&& p matches DartFFIValuePassing::Closure(c)
                            &&& closure_sig_lowered(cps, call, c.sig)
                            &&& params_lowered(ffi, abi, m.params@, inputs(cps), c.params@)
                            &&& return_lowers(ffi.catalog, m.returns, c.returns.ty.inner)
                            &&& returns_passing_lowered(ffi, abi, call.returns.transport, c.returns.passing)
                            &&& read_copied(call.returns.decode_ops, c.returns.read_seq)
                            &&& write_copied(call.returns.encode_ops, c.returns.write_seq)
                        }
                    },
                }
            }
        },
    }
}

/// Whether `rp` is how a result carried by `t`, if anything carries it,
/// returns to Dart.
pub open spec fn returns_passing_lowered(ffi: FfiContract, abi: AbiContract, t: Option<Transport>, rp: DartFFIReturnsPassing) -> bool
    decreases rp, 0nat,
{
    match t {
        Some(tr) => rp matches DartFFIReturnsPassing::Passing(q) && passing_lowered(ffi, abi, tr, q),
        None => rp is Void,
    }
}

/// Whether `p` is how an input with `contract` carried by `t` crosses to
/// Dart: a span of records is an owned list when passed by value and
/// borrowed bytes otherwise.
pub open spec fn contract_passing_lowered(ffi: FfiContract, abi: AbiContract, contract: ParamContract, t: Transport, p: DartFFIValuePassing) -> bool
    decreases p, 1nat,
{
    match t {
        Transport::Span(SpanContent::Composite(l)) => {
            if contract.passing is ByValue {
                p == DartFFIValuePassing::List(DartFFIParamValue::Record(l.record_id))
            } else {
                p == DartFFIValuePassing::Bytes(DartFFIParamBytes::Array(DartFFIParamValue::Record(l.record_id)))
            }
        },
        _ => passing_lowered(ffi, abi, t, p),
    }
}

/// Whether `out` is the Dart parameter for the declared parameter `d`
/// carried by the input argument `a`.
pub open spec fn param_lowered(ffi: FfiContract, abi: AbiContract, d: ParamDef, a: AbiParam, out: DartFunctionParam) -> bool
    decreases out, 0nat,
{
    match a.role {
        ParamRole::Input { transport, contract, encode_ops, decode_ops } => {
            &&& out.name@ == lower_camel(d.name@)
            &&& contract_passing_lowered(ffi, abi, contract, transport, out.passing)
            &&& lowers(ffi.catalog, d.type_expr, out.ty)
            &&& out.writeback == writeback_of(contract, out.passing)
            &&& write_lowered(encode_ops, out.write_seq)
            &&& read_copied(decode_ops, out.read_seq)
        },
        _ => false,
    }
}

/// Whether `outs` are the Dart parameters for the declared parameters
/// `defs` carried by the input arguments `ins`, paired in order as far as
/// both go.
pub open spec fn params_lowered(ffi: FfiContract, abi: AbiContract, defs: Seq<ParamDef>, ins: Seq<AbiParam>, outs: Seq<DartFunctionParam>) -> bool
    decreases outs, 0nat,
{
    &&& outs.len() == (if defs.len() < ins.len() { defs.len() } else { ins.len() })
    &&& forall|i: int| 0 <= i < outs.len() ==> param_lowered(ffi, abi, defs[i], ins[i], #[trigger] outs[i])
}


/// How the result of a call arrives: through the call itself, or through
/// its async entry points.
pub open spec fn result_shape(call: AbiCall) -> ReturnShape {
    match call.mode {
        CallMode::Sync => call.returns,
        CallMode::Async(a) => a.result,
    }
}

/// Whether `args` are the native arguments of the C-level arguments `ps`,
/// one for one.
pub open spec fn ffi_args_lowered(ps: Seq<AbiParam>, args: Seq<DartFFIFunctionParamSig>) -> bool {
    &&& args.len() == ps.len()
    &&& forall|i: int| 0 <= i < ps.len() ==> {
        &&& (#[trigger] args[i]).name@ == abi_param_name(ps[i])
        &&& abi_param_lowered(ps[i], args[i].ty)
    }
}

/// Whether `fm` is the Dart mode of a call with mode `m`: an async call
/// keeps its entry points and the type that completion returns.
pub open spec fn mode_lowered(m: CallMode, fm: DartFunctionMode) -> bool {
    match m {
        CallMode::Sync => fm is Sync,
        CallMode::Async(a) => {
            &&& fm matches DartFunctionMode::Async(d)
            &&& d.poll_symbol == a.poll
            &&& d.complete_symbol == a.complete
            &&& return_lowered(a.result, a.error, d.complete_ty)
            &&& d.cancel_symbol == a.cancel
            &&& d.free_symbol == a.free
        },
    }
}

/// Whether `r` is how a function declared to return `rd` and implemented
/// by `call` returns: a returned `String` always comes wire-encoded.
pub open spec fn returns_lowered(ffi: FfiContract, abi: AbiContract, call: AbiCall, rd: ReturnDef, r: DartFunctionReturns) -> bool {
    let shape = result_shape(call);
    &&& return_lowers(ffi.catalog, rd, r.ty.inner)
    &&& if rd == ReturnDef::Value(TypeExpr::String) {
        r.passing == DartFFIReturnsPassing::Passing(DartFFIValuePassing::WireEncoded)
    } else {
        returns_passing_lowered(ffi, abi, shape.transport, r.passing)
    }
    &&& read_copied(shape.decode_ops, r.read_seq)
    &&& write_copied(shape.encode_ops, r.write_seq)
}

/// Whether `f` is, but for its kind, the Dart function for a callable
/// declared with parameters `defs` returning `rd`, documented by `doc`, and
/// implemented by `call`, whose inputs start at argument `start`.
pub open spec fn function_body_lowered(ffi: FfiContract, abi: AbiContract, call: AbiCall, start: int, defs: Seq<ParamDef>, rd: ReturnDef, doc: Option<String>, f: DartFunction) -> bool {
    &&& mode_lowered(call.mode, f.mode)
    &&& params_lowered(ffi, abi, defs, inputs(call.params@.skip(start)), f.params@)
    &&& f.ffi_def.symbol == call.symbol
    &&& ffi_args_lowered(call.params@, f.ffi_def.sig.args@)
    &&& (call.mode is Sync ==> return_lowered(call.returns, call.error, f.ffi_def.sig.ret))
    &&& (call.mode is Async ==> f.ffi_def.sig.ret == void_ptr())
    &&& !f.ffi_def.is_leaf
    &&& sig_lowered(ffi.catalog, defs, rd, f.sig)
    &&& returns_lowered(ffi, abi, call, rd, f.returns)
    &&& f.doc == doc
}

/// Whether a callable with parameters `defs` returning `rd`, implemented by
/// `call` with inputs from argument `start`, can be lowered: every type
/// has a Dart type and every transport a Dart passing.
pub open spec fn function_lowerable(ffi: FfiContract, abi: AbiContract, call: AbiCall, start: int, defs: Seq<ParamDef>, rd: ReturnDef) -> bool {
    &&& 0 <= start <= call.params@.len()
    &&& exists|ps: Seq<DartFunctionParam>| params_lowered(ffi, abi, defs, inputs(call.params@.skip(start)), ps)
    &&& params_lowerable(ffi.catalog, defs)
    &&& exists|t: DartType| return_lowers(ffi.catalog, rd, t)
    &&& rd != ReturnDef::Value(TypeExpr::String) ==> exists|rp: DartFFIReturnsPassing| returns_passing_lowered(ffi, abi, result_shape(call).transport, rp)
}

/// The call that implements `id`.
pub open spec fn call_for(abi: AbiContract, id: CallId) -> AbiCall {
    abi.calls@[first_call(abi.calls@, id, 0)->0]
}

/// The type a constructor with id `id` returns.
pub open spec fn ctor_return(id: CallId) -> TypeExpr {
    match id {
        CallId::Constructor { class_id, .. } => TypeExpr::Handle(class_id),
        CallId::RecordConstructor { record_id, .. } => TypeExpr::Record(record_id),
        CallId::EnumConstructor { enum_id, .. } => TypeExpr::Enum(enum_id),
        _ => TypeExpr::Void,
    }
}

/// The owner of the callable with id `id`.
pub open spec fn owner_of(id: CallId) -> DartFunctionCallOwner {
    match id {
        CallId::Constructor { class_id, .. } | CallId::Method { class_id, .. } => DartFunctionCallOwner::Class(class_id),
        CallId::RecordConstructor { record_id, .. } | CallId::RecordMethod { record_id, .. } => DartFunctionCallOwner::Record(record_id),
        CallId::EnumConstructor { enum_id, .. } | CallId::EnumMethod { enum_id, .. } => DartFunctionCallOwner::Enum(enum_id),
        CallId::Function(f) => DartFunctionCallOwner::Class(f),
    }
}

/// The documentation of a constructor.
pub open spec fn ctor_doc(c: ConstructorDef) -> Option<String> {
    match c {
        ConstructorDef::Default { doc, .. } | ConstructorDef::NamedFactory { doc, .. } | ConstructorDef::NamedInit { doc, .. } => doc,
    }
}

/// Whether `f` is the Dart constructor for `ctor`, implemented by the call
/// with id `id`: a named constructor takes the lower-camel name.
pub open spec fn ctor_lowered(ffi: FfiContract, abi: AbiContract, ctor: ConstructorDef, id: CallId, f: DartFunction) -> bool {
    &&& f.ty matches DartFunctionType::Constructor { kind, owner, is_fallible, is_optional }
    &&& owner == owner_of(id)
    &&& match ctor {
        ConstructorDef::Default { .. } => kind is Default,
        ConstructorDef::NamedFactory { name, .. } | ConstructorDef::NamedInit { name, .. } => {
            kind matches DartConstructorKind::Named { name: n } && n@ == lower_camel(name@)
        },
    }
    &&& match ctor {
        ConstructorDef::Default { is_fallible: fa, is_optional: op, .. }
        | ConstructorDef::NamedFactory { is_fallible: fa, is_optional: op, .. }
        | ConstructorDef::NamedInit { is_fallible: fa, is_optional: op, .. } => is_fallible == fa && is_optional == op,
    }
    &&& function_body_lowered(ffi, abi, call_for(abi, id), 0, ctor_params(ctor)@, ReturnDef::Value(ctor_return(id)), ctor_doc(ctor), f)
}

/// Whether a constructor can be lowered: its id is a constructor's, a call
/// implements it, and that call can be lowered.
pub open spec fn ctor_lowerable(ffi: FfiContract, abi: AbiContract, ctor: ConstructorDef, id: CallId) -> bool {
    &&& (id is Constructor || id is RecordConstructor || id is EnumConstructor)
    &&& first_call(abi.calls@, id, 0) is Some
    &&& function_lowerable(ffi, abi, call_for(abi, id), 0, ctor_params(ctor)@, ReturnDef::Value(ctor_return(id)))
}

/// Where the inputs of a method start: after its receiver, if it has one.
pub open spec fn method_start(m: MethodDef) -> int {
    if m.receiver is Static { 0 } else { 1 }
}

/// Whether `f` is the Dart method for `meth`, implemented by the call with
/// id `id`: its receiver passes as the call's first argument does.
pub open spec fn method_lowered(ffi: FfiContract, abi: AbiContract, meth: MethodDef, id: CallId, f: DartFunction) -> bool {
    let call = call_for(abi, id);
    &&& f.ty matches DartFunctionType::Method { name, receiver, owner }
    &&& name@ == lower_camel(meth.id@)
    &&& owner == owner_of(id)
    &&& if meth.receiver is Static {
        receiver is Static
    } else {
        receiver matches DartMethodReceiver::ReceiverPassing(p)
            && passing_lowered(ffi, abi, call.params@[0].role->Input_transport, p)
    }
    &&& function_body_lowered(ffi, abi, call, method_start(meth), meth.params@, meth.returns, meth.doc, f)
}

/// Whether a method can be lowered.
pub open spec fn method_lowerable(ffi: FfiContract, abi: AbiContract, meth: MethodDef, id: CallId) -> bool {
    let call = call_for(abi, id);
    &&& (id is Method || id is RecordMethod || id is EnumMethod)
    &&& first_call(abi.calls@, id, 0) is Some
    &&& !(meth.receiver is Static) ==> {
        &&& call.params@.len() >= 1
        &&& call.params@[0].role is Input
        &&& exists|p: DartFFIValuePassing| passing_lowered(ffi, abi, call.params@[0].role->Input_transport, p)
    }
    &&& function_lowerable(ffi, abi, call, method_start(meth), meth.params@, meth.returns)
}

/// Whether `f` is the Dart function for the free function `def`.
pub open spec fn top_level_lowered(ffi: FfiContract, abi: AbiContract, def: FunctionDef, f: DartFunction) -> bool {
    let id = CallId::Function(def.id);
    &&& f.ty matches DartFunctionType::TopLevel { name }
    &&& name@ == lower_camel(def.id@)
    &&& function_body_lowered(ffi, abi, call_for(abi, id), 0, def.params@, def.returns, def.doc, f)
}

/// Whether the free function `def` can be lowered.
pub open spec fn top_level_lowerable(ffi: FfiContract, abi: AbiContract, def: FunctionDef) -> bool {
    let id = CallId::Function(def.id);
    &&& first_call(abi.calls@, id, 0) is Some
    &&& function_lowerable(ffi, abi, call_for(abi, id), 0, def.params@, def.returns)
}


/// A generated class: its constructors, methods and streams, and the
/// native symbols that create and free an instance.
#[derive(Debug, PartialEq, Eq)]
pub struct DartClass {
    pub name: String,
    pub create_symbol: String,
    pub free_symbol: String,
    pub constructors: Vec<DartFunction>,
    pub methods: Vec<DartFunction>,
    pub streams: Vec<DartStream>,
    pub doc: Option<String>,
}

/// What `boltffi_ffi_rules::naming::to_snake_case` makes of `name`: an
/// underscore before each uppercase letter (by Unicode) but one that comes
/// first, and each ASCII uppercase letter lower-cased; other characters are
/// kept.
pub uninterp spec fn snake_case(name: Seq<char>) -> Seq<char>;

/// The native symbol that creates an instance of class `id`.
pub open spec fn class_new_symbol(id: Seq<char>) -> Seq<char> {
    "boltffi_"@ + snake_case(id) + "_new"@
}

/// The native symbol that frees an instance of class `id`.
pub open spec fn class_free_symbol(id: Seq<char>) -> Seq<char> {
    "boltffi_"@ + snake_case(id) + "_free"@
}

/// Calls `boltffi_ffi_rules::naming::class_ffi_new`, which prefixes the
/// snake-cased class name with `boltffi_` and appends `_new`.
#[verifier::external_body]
fn class_ffi_new(class_name: &str) -> (res: String)
    ensures
        res@ == "boltffi_"@ + snake_case(class_name@) + "_new"@,
{
    boltffi_ffi_rules::naming::class_ffi_new(class_name).into_string()
}

/// Calls `boltffi_ffi_rules::naming::class_ffi_free`, which prefixes the
/// snake-cased class name with `boltffi_` and appends `_free`.
#[verifier::external_body]
fn class_ffi_free(class_name: &str) -> (res: String)
    ensures
        res@ == "boltffi_"@ + snake_case(class_name@) + "_free"@,
{
    boltffi_ffi_rules::naming::class_ffi_free(class_name).into_string()
}

/// The index of the first C-level stream of stream `id` of class `class_id`.
pub open spec fn first_abi_stream(ss: Seq<AbiStream>, id: Seq<char>, class_id: Seq<char>, from: int) -> Option<int>
    decreases ss.len() - from,
{
    if from < 0 || from >= ss.len() {
        None
    } else if ss[from].stream_id@ == id && ss[from].class_id@ == class_id {
        Some(from)
    } else {
        first_abi_stream(ss, id, class_id, from + 1)
    }
}

/// Whether `a` is a native argument named `name` of type `t`.
pub open spec fn arg_is(a: DartFFIFunctionParamSig, name: Seq<char>, t: DartFFIType) -> bool {
    a.name@ == name && a.ty == t
}

/// Whether `f` is a native function `symbol` taking only the stream handle
/// and returning `ret`.
pub open spec fn handle_fn(f: DartFFIFunctionDef, symbol: String, ret: DartFFIType, is_leaf: bool) -> bool {
    &&& f.symbol == symbol
    &&& f.sig.args@.len() == 1
    &&& arg_is(f.sig.args@[0], "handle"@, void_ptr())
    &&& f.sig.ret == ret
    &&& f.is_leaf == is_leaf
}

/// Whether `t` is the type of the native callback that a stream's poll
/// calls: it takes a `u64` and an `i8` and returns nothing.
pub open spec fn poll_callback_type(t: DartFFIType) -> bool {
    &&& t matches DartFFIType::NativeFunction { sig }
    &&& sig.args@.len() == 2
    &&& arg_is(sig.args@[0], Seq::empty(), DartFFIType::Int(DartFFIIntType::Uint64))
    &&& arg_is(sig.args@[1], Seq::empty(), DartFFIType::Int(DartFFIIntType::Int8))
    &&& sig.ret is Void
}

/// Whether `d` is the Dart stream for `stream` of class `class_id`, carried
/// by the C-level stream `a`: its item is read from the wire, and its entry
/// points are the native functions of `a`. Popping a batch of fixed-size
/// items fills an output buffer; popping others returns a buffer.
pub open spec fn stream_lowered(ffi: FfiContract, abi: AbiContract, stream: StreamDef, a: AbiStream, d: DartStream) -> bool {
    &&& d.name@ == lower_camel(stream.id@)
    &&& lowers(ffi.catalog, stream.item_type, d.item_ty)
    &&& same_read(a.item->WireEncoded_decode_ops, d.item_read_seq)
    &&& passing_lowered(ffi, abi, a.item_transport, d.item_passing)
    &&& transport_lowered(a.item_transport, d.ffi_item_ty)
    &&& d.ffi_item_size == a.item_size
    &&& handle_fn(d.subscribe_fn, a.subscribe, void_ptr(), true)
    &&& d.poll_fn.symbol == a.poll
    &&& d.poll_fn.sig.args@.len() == 3
    &&& arg_is(d.poll_fn.sig.args@[0], "handle"@, void_ptr())
    &&& arg_is(d.poll_fn.sig.args@[1], "callback_data"@, DartFFIType::Int(DartFFIIntType::Uint64))
    &&& d.poll_fn.sig.args@[2].name@ == "callback"@
    &&& poll_callback_type(d.poll_fn.sig.args@[2].ty)
    &&& d.poll_fn.sig.ret is Void
    &&& !d.poll_fn.is_leaf
    &&& d.pop_batch_fn.symbol == a.pop_batch
    &&& arg_is(d.pop_batch_fn.sig.args@[0], "handle"@, void_ptr())
    &&& d.pop_batch_fn.is_leaf
    &&& match a.item_size {
        Some(_) => {
            &&& d.pop_batch_fn.sig.args@.len() == 3
            &&& d.pop_batch_fn.sig.args@[1].name@ == "output_ptr"@
            &&& d.pop_batch_fn.sig.args@[1].ty matches DartFFIType::Pointer(inner) && transport_lowered(a.item_transport, *inner)
            &&& arg_is(d.pop_batch_fn.sig.args@[2], "output_capacity"@, DartFFIType::Int(DartFFIIntType::UintPtr))
            &&& d.pop_batch_fn.sig.ret == DartFFIType::Int(DartFFIIntType::UintPtr)
        },
        None => {
            &&& d.pop_batch_fn.sig.args@.len() == 2
            &&& arg_is(d.pop_batch_fn.sig.args@[1], "max_count"@, DartFFIType::Int(DartFFIIntType::UintPtr))
            &&& d.pop_batch_fn.sig.ret is Buf
        },
    }
    &&& d.wait_fn.symbol == a.wait
    &&& d.wait_fn.sig.args@.len() == 2
    &&& arg_is(d.wait_fn.sig.args@[0], "handle"@, void_ptr())
    &&& arg_is(d.wait_fn.sig.args@[1], "timeout_milliseconds"@, DartFFIType::Int(DartFFIIntType::Uint32))
    &&& d.wait_fn.sig.ret == DartFFIType::Int(DartFFIIntType::Int32)
    &&& d.wait_fn.is_leaf
    &&& handle_fn(d.unsubscribe_fn, a.unsubscribe, DartFFIType::Void, false)
    &&& handle_fn(d.free_fn, a.free, DartFFIType::Void, false)
    &&& d.mode == stream.mode
    &&& d.doc == stream.doc
}

/// Whether a stream of class `class_id` can be lowered.
pub open spec fn stream_lowerable(ffi: FfiContract, abi: AbiContract, stream: StreamDef, class_id: Seq<char>) -> bool {
    let i = first_abi_stream(abi.streams@, stream.id@, class_id, 0);
    &&& i is Some
    &&& exists|t: DartType| lowers(ffi.catalog, stream.item_type, t)
    &&& exists|p: DartFFIValuePassing| passing_lowered(ffi, abi, abi.streams@[i->0].item_transport, p)
}

/// The C-level stream of stream `stream` of class `class_id`.
pub open spec fn stream_for(abi: AbiContract, stream: StreamDef, class_id: Seq<char>) -> AbiStream {
    abi.streams@[first_abi_stream(abi.streams@, stream.id@, class_id, 0)->0]
}

/// Whether `d` is the Dart class for `class`: constructors are implemented
/// by the class's constructor calls by position, methods by its method
/// calls by name.
pub open spec fn class_lowered(ffi: FfiContract, abi: AbiContract, class: ClassDef, d: DartClass) -> bool {
    &&& d.name@ == upper_camel(class.id@)
    &&& d.create_symbol@ == class_new_symbol(class.id@)
    &&& d.free_symbol@ == class_free_symbol(class.id@)
    &&& d.constructors@.len() == class.constructors@.len()
    &&& forall|i: int| 0 <= i < class.constructors@.len() ==> ctor_lowered(ffi, abi, class.constructors@[i],
        CallId::Constructor { class_id: class.id, index: i as usize }, #[trigger] d.constructors@[i])
    &&& d.methods@.len() == class.methods@.len()
    &&& forall|i: int| 0 <= i < class.methods@.len() ==> method_lowered(ffi, abi, class.methods@[i],
        CallId::Method { class_id: class.id, method_id: class.methods@[i].id }, #[trigger] d.methods@[i])
    &&& d.streams@.len() == class.streams@.len()
    &&& forall|i: int| 0 <= i < class.streams@.len() ==> stream_lowered(ffi, abi, class.streams@[i],
        stream_for(abi, class.streams@[i], class.id@), #[trigger] d.streams@[i])
    &&& d.doc == class.doc
}

/// Whether a class can be lowered: each constructor, method and stream can.
pub open spec fn class_lowerable(ffi: FfiContract, abi: AbiContract, class: ClassDef) -> bool {
    &&& forall|i: int| 0 <= i < class.constructors@.len() ==> ctor_lowerable(ffi, abi, #[trigger] class.constructors@[i],
        CallId::Constructor { class_id: class.id, index: i as usize })
    &&& forall|i: int| 0 <= i < class.methods@.len() ==> method_lowerable(ffi, abi, #[trigger] class.methods@[i],
        CallId::Method { class_id: class.id, method_id: class.methods@[i].id })
    &&& forall|i: int| 0 <= i < class.streams@.len() ==> stream_lowerable(ffi, abi, #[trigger] class.streams@[i], class.id@)
}


/// A method of a generated callback class.
#[derive(Debug, PartialEq, Eq)]
pub struct DartCallbackMethod {
    pub name: String,
    pub sig: DartFunctionSig,
    pub ffi_sig: DartFFIFunctionSig,
    pub params: Vec<DartFunctionParam>,
    pub kind: ExecutionKind,
    pub returns: DartFunctionReturns,
    pub doc: Option<String>,
}

impl DartCallbackMethod {
    /// Whether the method is async.
    pub fn is_async(&self) -> (res: bool)
        ensures
            res == self.kind is Async,
    {
        matches!(self.kind, ExecutionKind::Async)
    }

    /// The native arguments that pass the method's parameters, in order.
    pub fn get_proxy_ffi_params(&self) -> (res: Vec<String>)
        requires
            forall|i: int| 0 <= i < self.params@.len() ==> ffi_param_ready(#[trigger] self.params@[i]),
        ensures
            views(res@) == params_texts(self.params@),
    {
        let mut out: Vec<String> = Vec::new();
        let mut i: usize = 0;
        proof {
            assert(self.params@.take(0) =~= Seq::<DartFunctionParam>::empty());
            assert(views(out@) =~= params_texts(self.params@.take(0)));
        }
        while i < self.params.len()
            invariant
                i <= self.params@.len(),
                forall|j: int| 0 <= j < self.params@.len() ==> ffi_param_ready(#[trigger] self.params@[j]),
                views(out@) == params_texts(self.params@.take(i as int)),
            decreases self.params.len() - i,
        {
            let mut more = self.params[i].get_ffi_param();
            let ghost out_before = out@;
            let ghost more_before = more@;
            out.append(&mut more);
            proof {
                let taken = self.params@.take(i + 1);
                assert(taken.drop_last() =~= self.params@.take(i as int));
                assert(taken.last() == self.params@[i as int]);
                assert(out@ =~= out_before + more_before);
                assert(views(out@) =~= views(out_before) + views(more_before));
            }
            i += 1;
        }
        proof {
            assert(self.params@.take(self.params@.len() as int) =~= self.params@);
        }
        out
    }
}

/// A generated callback class: the Dart interface, its implementation
/// class and its vtable struct.
#[derive(Debug, PartialEq, Eq)]
pub struct DartCallback {
    pub class_name: String,
    pub impl_class_name: String,
    pub vtable_struct_name: String,
    pub methods: Vec<DartCallbackMethod>,
    pub doc: Option<String>,
}

/// Whether `args` are the arguments of the native function through which
/// an async callback method reports its result carried by `t`: a context
/// handle, then the value as a scalar or as a pointer and length, then a
/// status.
pub open spec fn async_completion_args(t: Option<Transport>, args: Seq<DartFFIFunctionParamSig>) -> bool {
    let value = match t {
        Some(Transport::Scalar(o)) => seq![ffi_type_of(o.primitive)],
        Some(_) => seq![DartFFIType::Pointer(Box::new(DartFFIType::Int(DartFFIIntType::Uint8))), DartFFIType::Int(DartFFIIntType::UintPtr)],
        None => Seq::empty(),
    };
    &&& args.len() == value.len() + 2
    &&& arg_is(args[0], Seq::empty(), DartFFIType::Int(DartFFIIntType::Uint64))
    &&& forall|i: int| 0 <= i < value.len() ==> arg_is(#[trigger] args[i + 1], Seq::empty(), value[i])
    &&& arg_is(args[args.len() - 1], Seq::empty(), DartFFIType::Int(DartFFIIntType::Int32))
}

/// Whether `args` are the native arguments of a callback method whose
/// C-level method is `a`: the callback handle, each argument of `a` after
/// its own handle, then a status pointer for a sync method, or the
/// completion function and its context for an async one.
pub open spec fn callback_ffi_args_lowered(a: AbiCallbackMethod, args: Seq<DartFFIFunctionParamSig>) -> bool {
    let ps = a.params@.skip(1);
    let n = ps.len() as int;
    &&& arg_is(args[0], "_p$handle"@, DartFFIType::Int(DartFFIIntType::Uint64))
    &&& forall|i: int| 0 <= i < ps.len() ==> {
        &&& (#[trigger] args[i + 1]).name@ == abi_param_name(ps[i])
        &&& abi_param_lowered(ps[i], args[i + 1].ty)
    }
    &&& match a.execution_kind {
        ExecutionKind::Sync => {
            &&& args.len() == ps.len() + 2
            &&& arg_is(args[n + 1], "_p$outStatus"@, DartFFIType::Pointer(Box::new(DartFFIType::Status)))
        },
        ExecutionKind::Async => {
            &&& args.len() == ps.len() + 3
            &&& args[n + 1].name@ == "_p$callback"@
            &&& args[n + 1].ty matches DartFFIType::NativeFunction { sig }
            &&& async_completion_args(a.returns.transport, sig.args@)
            &&& sig.ret is Void
            &&& arg_is(args[n + 2], "_p$asyncCtx"@, DartFFIType::Int(DartFFIIntType::Uint64))
        },
    }
}

/// Whether `d` is the Dart method for callback method `m` with C-level
/// method `a`. A record or span result returns wire-encoded.
pub open spec fn callback_method_lowered(ffi: FfiContract, abi: AbiContract, m: CallbackMethodDef, a: AbiCallbackMethod, d: DartCallbackMethod) -> bool {
    &&& d.name@ == lower_camel(m.id@)
    &&& sig_lowered(ffi.catalog, m.params@, m.returns, d.sig)
    &&& callback_ffi_args_lowered(a, d.ffi_sig.args@)
    &&& return_lowered(a.returns, a.error, d.ffi_sig.ret)
    &&& params_lowered(ffi, abi, m.params@, inputs(a.params@.skip(1)), d.params@)
    &&& d.kind == m.execution_kind
    &&& return_lowers(ffi.catalog, m.returns, d.returns.ty.inner)
    &&& match a.returns.transport {
        None => d.returns.passing is Void,
        Some(t) => {
            &&& d.returns.passing matches DartFFIReturnsPassing::Passing(r)
            &&& exists|q: DartFFIValuePassing| {
                &&& passing_lowered(ffi, abi, t, q)
                &&& if q matches DartFFIValuePassing::Value(DartFFIParamValue::Record(_)) || q is Bytes {
                    r is WireEncoded
                } else {
                    r == q
                }
            }
        },
    }
    &&& read_copied(a.returns.decode_ops, d.returns.read_seq)
    &&& write_lowered(a.returns.encode_ops, d.returns.write_seq)
    &&& d.doc == m.doc
}

/// Whether callback method `m` with C-level method `a` can be lowered.
pub open spec fn callback_method_lowerable(ffi: FfiContract, abi: AbiContract, m: CallbackMethodDef, a: AbiCallbackMethod) -> bool {
    &&& a.params@.len() >= 1
    &&& m.params@.len() == inputs(a.params@.skip(1)).len()
    &&& exists|ps: Seq<DartFunctionParam>| params_lowered(ffi, abi, m.params@, inputs(a.params@.skip(1)), ps)
    &&& params_lowerable(ffi.catalog, m.params@)
    &&& exists|t: DartType| return_lowers(ffi.catalog, m.returns, t)
    &&& a.returns.transport matches Some(t) ==> exists|q: DartFFIValuePassing| passing_lowered(ffi, abi, t, q)
    &&& a.execution_kind is Async ==> !(a.returns.transport matches Some(t) && (t is Handle || t is Callback))
    &&& a.returns.encode_ops matches Some(w) ==> remappable(w)
}

/// Whether `d` is the Dart callback for trait callback `cb`: its methods
/// pair with those of its C-level callback, in order.
pub open spec fn callback_lowered(ffi: FfiContract, abi: AbiContract, cb: CallbackTraitDef, d: DartCallback) -> bool {
    let acb = abi.callbacks@[first_abi_callback(abi.callbacks@, cb.id@, 0)->0];
    let n = if cb.methods@.len() < acb.methods@.len() { cb.methods@.len() } else { acb.methods@.len() };
    &&& d.class_name@ == upper_camel(cb.id@)
    &&& d.impl_class_name@ == "_I$"@ + upper_camel(cb.id@)
    &&& d.vtable_struct_name@ == "_I$"@ + upper_camel(acb.vtable_type@)
    &&& d.methods@.len() == n
    &&& forall|i: int| 0 <= i < n ==> callback_method_lowered(ffi, abi, cb.methods@[i], acb.methods@[i], #[trigger] d.methods@[i])
    &&& d.doc == cb.doc
}

/// Whether trait callback `cb` can be lowered.
pub open spec fn callback_lowerable(ffi: FfiContract, abi: AbiContract, cb: CallbackTraitDef) -> bool {
    let i = first_abi_callback(abi.callbacks@, cb.id@, 0);
    &&& i is Some
    &&& forall|k: int| 0 <= k < cb.methods@.len() && k < abi.callbacks@[i->0].methods@.len() ==>
        callback_method_lowerable(ffi, abi, #[trigger] cb.methods@[k], abi.callbacks@[i->0].methods@[k])
}

/// The trait callbacks among `cbs`, in order.
pub open spec fn trait_callbacks(cbs: Seq<CallbackTraitDef>) -> Seq<CallbackTraitDef> {
    cbs.filter(|c: CallbackTraitDef| c.kind is Trait)
}


/// The declarations of a generated Dart library.
#[derive(Debug, PartialEq, Eq)]
pub struct DartLibrary {
    pub custom_types: Vec<DartCustomType>,
    pub records: Vec<DartRecord>,
    pub enums: Vec<DartEnum>,
    pub callbacks: Vec<DartCallback>,
    pub classes: Vec<DartClass>,
    pub functions: Vec<DartFunction>,
}

/// Whether every trait callback, class and free function of a binding can
/// be lowered.
pub open spec fn library_lowerable(ffi: FfiContract, abi: AbiContract) -> bool {
    &&& forall|i: int| 0 <= i < trait_callbacks(ffi.catalog.callbacks@).len() ==>
        callback_lowerable(ffi, abi, #[trigger] trait_callbacks(ffi.catalog.callbacks@)[i])
    &&& forall|i: int| 0 <= i < ffi.catalog.classes@.len() ==> class_lowerable(ffi, abi, #[trigger] ffi.catalog.classes@[i])
    &&& forall|i: int| 0 <= i < ffi.functions@.len() ==> top_level_lowerable(ffi, abi, #[trigger] ffi.functions@[i])
}

/// Whether `lib` is the Dart library of a binding: one callback per trait
/// callback, one class per class and one function per free function, each
/// in declaration order, beside the given custom types and records.
pub open spec fn library_lowered(ffi: FfiContract, abi: AbiContract, custom_types: Seq<DartCustomType>, records: Seq<DartRecord>, enums: Seq<DartEnum>, lib: DartLibrary) -> bool {
    &&& lib.custom_types@ == custom_types
    &&& lib.records@ == records
    &&& lib.enums@ == enums
    &&& lib.callbacks@.len() == trait_callbacks(ffi.catalog.callbacks@).len()
    &&& forall|i: int| 0 <= i < lib.callbacks@.len() ==> callback_lowered(ffi, abi, trait_callbacks(ffi.catalog.callbacks@)[i], #[trigger] lib.callbacks@[i])
    &&& lib.classes@.len() == ffi.catalog.classes@.len()
    &&& forall|i: int| 0 <= i < lib.classes@.len() ==> class_lowered(ffi, abi, ffi.catalog.classes@[i], #[trigger] lib.classes@[i])
    &&& lib.functions@.len() == ffi.functions@.len()
    &&& forall|i: int| 0 <= i < lib.functions@.len() ==> top_level_lowered(ffi, abi, ffi.functions@[i], #[trigger] lib.functions@[i])
}

proof fn lemma_trait_prefix(all: Seq<CallbackTraitDef>, k: int)
    requires
        0 <= k <= all.len(),
    ensures
        trait_callbacks(all.take(k)).len() <= trait_callbacks(all).len(),
        forall|j: int| 0 <= j < trait_callbacks(all.take(k)).len() ==> #[trigger] trait_callbacks(all.take(k))[j] == trait_callbacks(all)[j],
    decreases all.len() - k,
{
    reveal(Seq::filter);
    if k < all.len() {
        lemma_trait_prefix(all, k + 1);
        let t = all.take(k + 1);
        assert(t.drop_last() =~= all.take(k));
        assert(t.last() == all[k]);
        assert forall|j: int| 0 <= j < trait_callbacks(all.take(k)).len() implies #[trigger] trait_callbacks(all.take(k))[j] == trait_callbacks(all)[j] by {
            assert(trait_callbacks(all.take(k))[j] == trait_callbacks(all.take(k + 1))[j]);
        }
    } else {
        assert(all.take(k) =~= all);
    }
}

proof fn lemma_same_write_remappable(e: WriteSeq, c: WriteSeq)
    requires
        same_write(e, c),
        remappable(e),
    ensures
        remappable(c),
{
    if c.ops@.len() > 0 && c.ops@[0] is Result {
        assert(same_write_op(e.ops@[0], c.ops@[0]));
        assert(same_write(e.ops@[0]->Result_err, c.ops@[0]->Result_err));
        assert(same_size(e.size, c.size));
    }
}

fn copy_remapped(e: &WriteSeq) -> (res: WriteSeq)
    requires
        remappable(*e),
    ensures
        exists|c: WriteSeq| same_write(*e, c) && exception_remapped(c, res),
{
    let c = copy_write(e);
    proof {
        lemma_same_write_remappable(*e, c);
    }
    let ghost cg = c;
    let r = remap_write_seq(c);
    assert(same_write(*e, cg) && exception_remapped(cg, r));
    r
}

fn copy_read_opt(d: &Option<ReadSeq>) -> (res: Option<ReadSeq>)
    ensures
        read_copied(*d, res),
{
    match d {
        None => None,
        Some(r) => Some(copy_read(r)),
    }
}

fn copy_write_opt(e: &Option<WriteSeq>) -> (res: Option<WriteSeq>)
    ensures
        write_copied(*e, res),
{
    match e {
        None => None,
        Some(w) => Some(copy_write(w)),
    }
}

fn lower_write_opt(e: &Option<WriteSeq>) -> (res: Option<WriteSeq>)
    requires
        *e matches Some(w) ==> remappable(w),
    ensures
        *e matches Some(w) ==> write_lowered(*e, res),
        e is None ==> res is None,
{
    match e {
        None => None,
        Some(w) => Some(copy_remapped(w)),
    }
}

/// The arguments of `ps` from `start` on that carry inputs, in order.
fn input_params(ps: &Vec<AbiParam>, start: usize) -> (res: Vec<&AbiParam>)
    requires
        start <= ps@.len(),
    ensures
        res@.map_values(|p: &AbiParam| *p) == inputs(ps@.skip(start as int)),
{
    let ghost s = ps@.skip(start as int);
    let mut out: Vec<&AbiParam> = Vec::new();
    let mut i: usize = start;
    proof {
        reveal(Seq::filter);
        assert(s.take(0) =~= Seq::<AbiParam>::empty());
        assert(out@.map_values(|p: &AbiParam| *p) =~= inputs(s.take(0)));
    }
    while i < ps.len()
        invariant
            start <= i <= ps@.len(),
            s == ps@.skip(start as int),
            out@.map_values(|p: &AbiParam| *p) == inputs(s.take(i - start)),
        decreases ps.len() - i,
    {
        let p = &ps[i];
        let ghost before = out@;
        if let ParamRole::Input { .. } = &p.role {
            out.push(p);
        }
        proof {
            reveal(Seq::filter);
            let t = s.take(i + 1 - start);
            assert(t.drop_last() =~= s.take(i - start));
            assert(t.last() == ps@[i as int]);
            if ps@[i as int].role is Input {
                assert(out@.map_values(|p: &AbiParam| *p) =~= before.map_values(|p: &AbiParam| *p).push(*p));
            }
            assert(out@.map_values(|p: &AbiParam| *p) =~= inputs(t));
        }
        i += 1;
    }
    proof {
        assert(s.take(i - start) =~= s);
    }
    out
}

fn handle_only() -> (res: Vec<DartFFIFunctionParamSig>)
    ensures
        res@.len() == 1,
        arg_is(res@[0], "handle"@, void_ptr()),
{
    let mut v: Vec<DartFFIFunctionParamSig> = Vec::new();
    v.push(DartFFIFunctionParamSig { name: String::from_str("handle"), ty: DartFFIType::Pointer(Box::new(DartFFIType::Void)) });
    v
}

impl<'a> DartLowerer<'a> {
    /// A lowerer of the binding with contracts `ffi` and `abi`, for the
    /// package `package_name`.
    pub fn new(ffi: &'a FfiContract, abi: &'a AbiContract, package_name: &'a str) -> (res: Self)
        ensures
            *res.ffi == *ffi,
            *res.abi == *abi,
            res.package_name@ == package_name@,
    {
        DartLowerer { ffi, abi, package_name }
    }

    /// The C-level call that implements the free function `function`.
    pub fn abi_call_for_function(&self, function: &String) -> (res: &AbiCall)
        requires
            first_call(self.abi.calls@, crate::abi::CallId::Function(*function), 0) is Some,
        ensures
            *res == self.abi.calls@[first_call(self.abi.calls@, crate::abi::CallId::Function(*function), 0)->0],
    {
        let ghost id = crate::abi::CallId::Function(*function);
        let mut i: usize = 0;
        while i < self.abi.calls.len()
            invariant
                i <= self.abi.calls@.len(),
                first_call(self.abi.calls@, id, 0) == first_call(self.abi.calls@, id, i as int),
                id == crate::abi::CallId::Function(*function),
            decreases self.abi.calls.len() - i,
        {
            let c = &self.abi.calls[i];
            let found = match &c.id {
                crate::abi::CallId::Function(f) => *f == *function,
                _ => false,
            };
            if found {
                return c;
            }
            i += 1;
        }
        &self.abi.calls[0]
    }

    /// The C-level call that implements the callable `call_id`.
    pub fn abi_call_for_call_id(&self, call_id: &crate::abi::CallId) -> (res: &AbiCall)
        requires
            first_call(self.abi.calls@, *call_id, 0) is Some,
        ensures
            *res == self.abi.calls@[first_call(self.abi.calls@, *call_id, 0)->0],
    {
        let mut i: usize = 0;
        while i < self.abi.calls.len()
            invariant
                i <= self.abi.calls@.len(),
                first_call(self.abi.calls@, *call_id, 0) == first_call(self.abi.calls@, *call_id, i as int),
            decreases self.abi.calls.len() - i,
        {
            let c = &self.abi.calls[i];
            if c.id.same(call_id) {
                return c;
            }
            i += 1;
        }
        &self.abi.calls[0]
    }

    fn abi_callback_index(&self, id: &String) -> (res: usize)
        requires
            first_abi_callback(self.abi.callbacks@, id@, 0) is Some,
        ensures
            res == first_abi_callback(self.abi.callbacks@, id@, 0)->0,
            res < self.abi.callbacks@.len(),
    {
        let mut i: usize = 0;
        while i < self.abi.callbacks.len()
            invariant
                i <= self.abi.callbacks@.len(),
                first_abi_callback(self.abi.callbacks@, id@, 0) == first_abi_callback(self.abi.callbacks@, id@, i as int),
            decreases self.abi.callbacks.len() - i,
        {
            if self.abi.callbacks[i].callback_id == *id {
                return i;
            }
            i += 1;
        }
        0
    }

    fn closure_sig(&self, call: &AbiCallbackMethod) -> (res: DartFFIFunctionSig)
        requires
            call.params@.len() >= 1,
        ensures
            closure_sig_lowered(call.params@.skip(1), *call, res),
    {
        let ghost cps = call.params@.skip(1);
        let mut args: Vec<DartFFIFunctionParamSig> = Vec::new();
        args.push(DartFFIFunctionParamSig {
            name: String::from_str("_p$ud"),
            ty: DartFFIType::Pointer(Box::new(DartFFIType::Void)),
        });
        let mut i: usize = 1;
        proof {
            reveal(Seq::filter);
            assert(cps.take(0) =~= Seq::<AbiParam>::empty());
        }
        while i < call.params.len()
            invariant
                1 <= i <= call.params@.len(),
                cps == call.params@.skip(1),
                args@.len() == closure_args(cps.take(i - 1)).len() + 1,
                args@[0].name@ == "_p$ud"@,
                args@[0].ty == void_ptr(),
                forall|k: int| 0 <= k < closure_args(cps.take(i - 1)).len() ==> {
                    &&& (#[trigger] args@[k + 1]).name@ == abi_param_name(closure_args(cps.take(i - 1))[k])
                    &&& abi_param_lowered(closure_args(cps.take(i - 1))[k], args@[k + 1].ty)
                },
            decreases call.params.len() - i,
        {
            let p = &call.params[i];
            let keep = match &p.role {
                ParamRole::Input { .. } => true,
                ParamRole::SyntheticLen { .. } => true,
                _ => false,
            };
            let ghost before = closure_args(cps.take(i - 1));
            proof {
                reveal(Seq::filter);
                let t = cps.take(i as int);
                assert(t.drop_last() =~= cps.take(i - 1));
                assert(t.last() == call.params@[i as int]);
            }
            if keep {
                args.push(DartFFIFunctionParamSig::from_abi_param(p));
                proof {
                    assert(closure_args(cps.take(i as int)) == before.push(*p));
                }
            }
            i += 1;
        }
        proof {
            assert(cps.take(i - 1) =~= cps);
        }
        let ret = DartFFIType::from_return_shape_and_error_transport(&call.returns, &call.error);
        DartFFIFunctionSig { args, ret }
    }

    fn value_passing_from_transport(&self, transport: &Transport, Ghost(target): Ghost<DartFFIValuePassing>) -> (res: DartFFIValuePassing)
        requires
            passing_lowered(*self.ffi, *self.abi, *transport, target),
        ensures
            passing_lowered(*self.ffi, *self.abi, *transport, res),
        decreases target, 0nat,
    {
        match transport {
            Transport::Scalar(origin) => DartFFIValuePassing::primitive_value(origin.primitive()),
            Transport::Composite(layout) => DartFFIValuePassing::record_value(layout.record_id.clone()),
            Transport::Span(span_content) => match span_content {
                SpanContent::Scalar(origin) => DartFFIValuePassing::primitive_bytes(origin.primitive()),
                SpanContent::Composite(layout) => DartFFIValuePassing::record_bytes(layout.record_id.clone()),
                SpanContent::Utf8 => DartFFIValuePassing::utf8_bytes(),
                SpanContent::Encoded => DartFFIValuePassing::WireEncoded,
            },
            Transport::Handle { class_id, nullable } => DartFFIValuePassing::ClassHandle {
                class: class_id.clone(),
                nullable: *nullable,
            },
            Transport::Callback { callback_id, nullable } => {
                let cb_def = self.ffi.catalog.resolve_callback(callback_id.as_str()).unwrap();
                match cb_def.kind {
                    CallbackKind::Trait => DartFFIValuePassing::CallbackHandle {
                        class: callback_id.clone(),
                        nullable: *nullable,
                    },
                    CallbackKind::Closure => {
                        let index = self.abi_callback_index(callback_id);
                        let abi_cb = &self.abi.callbacks[index];
                        let abi_call = &abi_cb.methods[0];
                        let meth_def = &cb_def.methods[0];
                        let ghost c = *target->Closure_0;
                        let sig = self.closure_sig(abi_call);
                        proof {
                            assert(decreases_to!(target => target->Closure_0));
                            assert(decreases_to!(c => c.params));
                            assert(decreases_to!(c.params => c.params@));
                            assert(decreases_to!(c => c.returns));
                            assert(decreases_to!(c.returns => c.returns.passing));
                        }
                        let params = self.lower_function_params(&meth_def.params, &abi_call.params, 1, Ghost(c.params@));
                        let passing = match &abi_call.returns.transport {
                            Some(t) => {
                                let ghost q = c.returns.passing->Passing_0;
                                proof {
                                    assert(decreases_to!(c.returns.passing => c.returns.passing->Passing_0));
                                }
                                DartFFIReturnsPassing::Passing(self.value_passing_from_transport(t, Ghost(q)))
                            },
                            None => DartFFIReturnsPassing::Void,
                        };
                        let closure_returns = DartFunctionReturns {
                            ty: DartReturnType::from_return_def(&meth_def.returns, &self.ffi.catalog),
                            passing,
                            write_seq: copy_write_opt(&abi_call.returns.encode_ops),
                            read_seq: copy_read_opt(&abi_call.returns.decode_ops),
                        };
                        DartFFIValuePassing::Closure(Box::new(DartFFIClosureDef { sig, params, returns: closure_returns }))
                    },
                }
            },
        }
    }

    fn value_passing_from_param_contract_transport(&self, contract: &ParamContract, transport: &Transport, Ghost(target): Ghost<DartFFIValuePassing>) -> (res: DartFFIValuePassing)
        requires
            contract_passing_lowered(*self.ffi, *self.abi, *contract, *transport, target),
        ensures
            contract_passing_lowered(*self.ffi, *self.abi, *contract, *transport, res),
        decreases target, 1nat,
    {
        match transport {
            Transport::Span(SpanContent::Composite(layout)) => match contract.passing_strategy() {
                ParamPassingStrategy::ByValue => DartFFIValuePassing::record_value_list(layout.record_id.clone()),
                _ => DartFFIValuePassing::record_bytes(layout.record_id.clone()),
            },
            _ => self.value_passing_from_transport(transport, Ghost(target)),
        }
    }

    fn lower_param(&self, param: &ParamDef, abi_param: &AbiParam, Ghost(target): Ghost<DartFunctionParam>) -> (res: DartFunctionParam)
        requires
            param_lowered(*self.ffi, *self.abi, *param, *abi_param, target),
        ensures
            param_lowered(*self.ffi, *self.abi, *param, *abi_param, res),
        decreases target, 0nat,
    {
        match &abi_param.role {
            ParamRole::Input { contract, transport, encode_ops, decode_ops } => {
                proof {
                    assert(decreases_to!(target => target.passing));
                }
                let passing = self.value_passing_from_param_contract_transport(contract, transport, Ghost(target.passing));
                let ty = DartType::from_type_expr(&param.type_expr, &self.ffi.catalog);
                let writeback = match contract.passing_strategy() {
                    ParamPassingStrategy::MutableRef => match &passing {
                        DartFFIValuePassing::Bytes(DartFFIParamBytes::Array(DartFFIParamValue::Primitive(primitive))) => {
                            Some(DartFunctionParamWriteBack::PrimitiveBytes(*primitive))
                        },
                        _ => None,
                    },
                    _ => None,
                };
                DartFunctionParam {
                    name: NamingConvention::param_name(param.name.as_str()),
                    passing,
                    write_seq: lower_write_opt(encode_ops),
                    read_seq: copy_read_opt(decode_ops),
                    ty,
                    writeback,
                }
            },
            _ => {
                DartFunctionParam {
                    name: String::new(),
                    ty: DartType::Void,
                    passing: DartFFIValuePassing::WireEncoded,
                    write_seq: None,
                    read_seq: None,
                    writeback: None,
                }
            },
        }
    }

    fn lower_function_params(&self, param_defs: &Vec<ParamDef>, abi_params: &Vec<AbiParam>, start: usize, Ghost(targets): Ghost<Seq<DartFunctionParam>>) -> (res: Vec<DartFunctionParam>)
        requires
            start <= abi_params@.len(),
            params_lowered(*self.ffi, *self.abi, param_defs@, inputs(abi_params@.skip(start as int)), targets),
        ensures
            params_lowered(*self.ffi, *self.abi, param_defs@, inputs(abi_params@.skip(start as int)), res@),
        decreases targets, 0nat,
    {
        let ins = input_params(abi_params, start);
        let ghost ins_v = inputs(abi_params@.skip(start as int));
        let n = if param_defs.len() < ins.len() { param_defs.len() } else { ins.len() };
        let mut out: Vec<DartFunctionParam> = Vec::new();
        let mut i: usize = 0;
        while i < n
            invariant
                i <= n,
                n == targets.len(),
                n <= param_defs@.len(),
                n <= ins@.len(),
                ins@.map_values(|p: &AbiParam| *p) == ins_v,
                params_lowered(*self.ffi, *self.abi, param_defs@, ins_v, targets),
                out@.len() == i,
                forall|j: int| 0 <= j < i ==> param_lowered(*self.ffi, *self.abi, param_defs@[j], ins_v[j], #[trigger] out@[j]),
            decreases n - i,
        {
            proof {
                assert(decreases_to!(targets => targets[i as int]));
                assert(*ins@[i as int] == ins_v[i as int]);
            }
            let p = self.lower_param(&param_defs[i], ins[i], Ghost(targets[i as int]));
            out.push(p);
            i += 1;
        }
        out
    }

    fn lower_function(
        &self,
        ty: DartFunctionType,
        abi_call: &AbiCall,
        abi_params_start: usize,
        param_defs: &Vec<ParamDef>,
        return_def: &ReturnDef,
        doc: Option<String>,
    ) -> (res: DartFunction)
        requires
            function_lowerable(*self.ffi, *self.abi, *abi_call, abi_params_start as int, param_defs@, *return_def),
        ensures
            res.ty == ty,
            function_body_lowered(*self.ffi, *self.abi, *abi_call, abi_params_start as int, param_defs@, *return_def, doc, res),
    {
        let mode = match &abi_call.mode {
            CallMode::Sync => DartFunctionMode::Sync,
            CallMode::Async(async_call) => DartFunctionMode::Async(Box::new(DartFFIAsyncFunctionDef {
                poll_symbol: async_call.poll.clone(),
                complete_symbol: async_call.complete.clone(),
                complete_ty: DartFFIType::from_return_shape_and_error_transport(&async_call.result, &async_call.error),
                cancel_symbol: async_call.cancel.clone(),
                free_symbol: async_call.free.clone(),
            })),
        };
        let shape = match &abi_call.mode {
            CallMode::Sync => &abi_call.returns,
            CallMode::Async(async_call) => &async_call.result,
        };
        let passing = match return_def {
            ReturnDef::Value(TypeExpr::String) => DartFFIReturnsPassing::Passing(DartFFIValuePassing::WireEncoded),
            _ => {
                let ghost rp = choose|rp: DartFFIReturnsPassing| returns_passing_lowered(*self.ffi, *self.abi, shape.transport, rp);
                match &shape.transport {
                    Some(transport) => {
                        let ghost q = rp->Passing_0;
                        DartFFIReturnsPassing::Passing(self.value_passing_from_transport(transport, Ghost(q)))
                    },
                    None => DartFFIReturnsPassing::Void,
                }
            },
        };
        let lowered_returns = DartFunctionReturns {
            ty: DartReturnType::from_return_def(return_def, &self.ffi.catalog),
            passing,
            read_seq: copy_read_opt(&shape.decode_ops),
            write_seq: copy_write_opt(&shape.encode_ops),
        };
        let ghost targets = choose|ps: Seq<DartFunctionParam>| params_lowered(*self.ffi, *self.abi, param_defs@, inputs(abi_call.params@.skip(abi_params_start as int)), ps);
        let params = self.lower_function_params(param_defs, &abi_call.params, abi_params_start, Ghost(targets));
        let mut args: Vec<DartFFIFunctionParamSig> = Vec::new();
        let mut i: usize = 0;
        while i < abi_call.params.len()
            invariant
                i <= abi_call.params@.len(),
                args@.len() == i,
                forall|k: int| 0 <= k < i ==> {
                    &&& (#[trigger] args@[k]).name@ == abi_param_name(abi_call.params@[k])
                    &&& abi_param_lowered(abi_call.params@[k], args@[k].ty)
                },
            decreases abi_call.params.len() - i,
        {
            args.push(DartFFIFunctionParamSig::from_abi_param(&abi_call.params[i]));
            i += 1;
        }
        let ret = match &abi_call.mode {
            CallMode::Sync => DartFFIType::from_return_shape_and_error_transport(&abi_call.returns, &abi_call.error),
            CallMode::Async(..) => DartFFIType::Pointer(Box::new(DartFFIType::Void)),
        };
        DartFunction {
            mode,
            ty,
            params,
            ffi_def: DartFFIFunctionDef {
                symbol: abi_call.symbol.clone(),
                sig: DartFFIFunctionSig { args, ret },
                is_leaf: false,
            },
            sig: DartFunctionSig::from_params_return_def(param_defs.as_slice(), return_def, &self.ffi.catalog),
            returns: lowered_returns,
            doc,
        }
    }

    fn lower_constructor(&self, ctor: &ConstructorDef, id: CallId) -> (res: DartFunction)
        requires
            ctor_lowerable(*self.ffi, *self.abi, *ctor, id),
        ensures
            ctor_lowered(*self.ffi, *self.abi, *ctor, id, res),
    {
        let abi_call = self.abi_call_for_call_id(&id);
        let ret_type_expr = match &id {
            CallId::Constructor { class_id, .. } => TypeExpr::Handle(class_id.clone()),
            CallId::RecordConstructor { record_id, .. } => TypeExpr::Record(record_id.clone()),
            CallId::EnumConstructor { enum_id, .. } => TypeExpr::Enum(enum_id.clone()),
            _ => TypeExpr::Void,
        };
        let ghost gid = id;
        let owner = match id {
            CallId::Constructor { class_id, .. } => DartFunctionCallOwner::Class(class_id),
            CallId::RecordConstructor { record_id, .. } => DartFunctionCallOwner::Record(record_id),
            CallId::EnumConstructor { enum_id, .. } => DartFunctionCallOwner::Enum(enum_id),
            CallId::Method { class_id, .. } => DartFunctionCallOwner::Class(class_id),
            CallId::RecordMethod { record_id, .. } => DartFunctionCallOwner::Record(record_id),
            CallId::EnumMethod { enum_id, .. } => DartFunctionCallOwner::Enum(enum_id),
            CallId::Function(f) => DartFunctionCallOwner::Class(f),
        };
        let kind = match ctor {
            ConstructorDef::Default { .. } => DartConstructorKind::Default,
            ConstructorDef::NamedFactory { name, .. } | ConstructorDef::NamedInit { name, .. } => {
                DartConstructorKind::Named { name: NamingConvention::function_name(name.as_str()) }
            },
        };
        let doc = match ctor.doc() {
            Some(d) => Some(d.clone()),
            None => None,
        };
        let return_def = ReturnDef::Value(ret_type_expr);
        self.lower_function(
            DartFunctionType::Constructor {
                owner,
                kind,
                is_fallible: ctor.is_fallible(),
                is_optional: ctor.is_optional(),
            },
            abi_call,
            0,
            ctor.params(),
            &return_def,
            doc,
        )
    }

    fn lower_method(&self, meth: &MethodDef, id: CallId) -> (res: DartFunction)
        requires
            method_lowerable(*self.ffi, *self.abi, *meth, id),
        ensures
            method_lowered(*self.ffi, *self.abi, *meth, id, res),
    {
        let abi_call = self.abi_call_for_call_id(&id);
        let (receiver, abi_param_start) = match meth.receiver {
            Receiver::Static => (DartMethodReceiver::Static, 0usize),
            _ => {
                let abi_param = &abi_call.params[0];
                match &abi_param.role {
                    ParamRole::Input { transport, .. } => {
                        let ghost q = choose|p: DartFFIValuePassing| passing_lowered(*self.ffi, *self.abi, *transport, p);
                        let passing = self.value_passing_from_transport(transport, Ghost(q));
                        (DartMethodReceiver::ReceiverPassing(passing), 1usize)
                    },
                    _ => (DartMethodReceiver::Static, 1usize),
                }
            },
        };
        let owner = match id {
            CallId::Method { class_id, .. } => DartFunctionCallOwner::Class(class_id),
            CallId::RecordMethod { record_id, .. } => DartFunctionCallOwner::Record(record_id),
            CallId::EnumMethod { enum_id, .. } => DartFunctionCallOwner::Enum(enum_id),
            CallId::Constructor { class_id, .. } => DartFunctionCallOwner::Class(class_id),
            CallId::RecordConstructor { record_id, .. } => DartFunctionCallOwner::Record(record_id),
            CallId::EnumConstructor { enum_id, .. } => DartFunctionCallOwner::Enum(enum_id),
            CallId::Function(f) => DartFunctionCallOwner::Class(f),
        };
        self.lower_function(
            DartFunctionType::Method { name: NamingConvention::function_name(meth.id.as_str()), receiver, owner },
            abi_call,
            abi_param_start,
            &meth.params,
            &meth.returns,
            meth.doc.clone(),
        )
    }

    fn lower_functions(&self) -> (res: Vec<DartFunction>)
        requires
            forall|i: int| 0 <= i < self.ffi.functions@.len() ==> top_level_lowerable(*self.ffi, *self.abi, #[trigger] self.ffi.functions@[i]),
        ensures
            res@.len() == self.ffi.functions@.len(),
            forall|i: int| 0 <= i < res@.len() ==> top_level_lowered(*self.ffi, *self.abi, self.ffi.functions@[i], #[trigger] res@[i]),
    {
        let mut out: Vec<DartFunction> = Vec::new();
        let mut i: usize = 0;
        while i < self.ffi.functions.len()
            invariant
                i <= self.ffi.functions@.len(),
                out@.len() == i,
                forall|k: int| 0 <= k < self.ffi.functions@.len() ==> top_level_lowerable(*self.ffi, *self.abi, #[trigger] self.ffi.functions@[k]),
                forall|k: int| 0 <= k < i ==> top_level_lowered(*self.ffi, *self.abi, self.ffi.functions@[k], #[trigger] out@[k]),
            decreases self.ffi.functions.len() - i,
        {
            let func_def = &self.ffi.functions[i];
            proof {
                assert(top_level_lowerable(*self.ffi, *self.abi, self.ffi.functions@[i as int]));
            }
            let abi_call = self.abi_call_for_function(&func_def.id);
            let f = self.lower_function(
                DartFunctionType::TopLevel { name: NamingConvention::function_name(func_def.id.as_str()) },
                abi_call,
                0,
                &func_def.params,
                &func_def.returns,
                func_def.doc.clone(),
            );
            out.push(f);
            i += 1;
        }
        out
    }


    fn abi_stream_for(&self, id: &String, class_id: &String) -> (res: &AbiStream)
        requires
            first_abi_stream(self.abi.streams@, id@, class_id@, 0) is Some,
        ensures
            *res == self.abi.streams@[first_abi_stream(self.abi.streams@, id@, class_id@, 0)->0],
    {
        let mut i: usize = 0;
        while i < self.abi.streams.len()
            invariant
                i <= self.abi.streams@.len(),
                first_abi_stream(self.abi.streams@, id@, class_id@, 0) == first_abi_stream(self.abi.streams@, id@, class_id@, i as int),
            decreases self.abi.streams.len() - i,
        {
            let s = &self.abi.streams[i];
            if s.stream_id == *id && s.class_id == *class_id {
                return s;
            }
            i += 1;
        }
        &self.abi.streams[0]
    }

    fn lower_one_stream(&self, stream: &StreamDef, class_id: &String) -> (res: DartStream)
        requires
            stream_lowerable(*self.ffi, *self.abi, *stream, class_id@),
        ensures
            stream_lowered(*self.ffi, *self.abi, *stream, stream_for(*self.abi, *stream, class_id@), res),
    {
        let abi_stream = self.abi_stream_for(&stream.id, class_id);
        let decode_ops = match &abi_stream.item {
            StreamItemTransport::WireEncoded { decode_ops } => decode_ops,
        };
        let mut pop_batch_params: Vec<DartFFIFunctionParamSig> = Vec::new();
        pop_batch_params.push(DartFFIFunctionParamSig {
            name: String::from_str("handle"),
            ty: DartFFIType::Pointer(Box::new(DartFFIType::Void)),
        });
        match abi_stream.item_size {
            Some(_) => {
                pop_batch_params.push(DartFFIFunctionParamSig {
                    name: String::from_str("output_ptr"),
                    ty: DartFFIType::Pointer(Box::new(DartFFIType::from_transport(&abi_stream.item_transport))),
                });
                pop_batch_params.push(DartFFIFunctionParamSig {
                    name: String::from_str("output_capacity"),
                    ty: DartFFIType::Int(DartFFIIntType::UintPtr),
                });
            },
            None => {
                pop_batch_params.push(DartFFIFunctionParamSig {
                    name: String::from_str("max_count"),
                    ty: DartFFIType::Int(DartFFIIntType::UintPtr),
                });
            },
        }
        let pop_batch_return_type = match abi_stream.item_size {
            Some(_) => DartFFIType::Int(DartFFIIntType::UintPtr),
            None => DartFFIType::Buf,
        };
        let pop_batch_fn = DartFFIFunctionDef {
            symbol: abi_stream.pop_batch.clone(),
            sig: DartFFIFunctionSig { args: pop_batch_params, ret: pop_batch_return_type },
            is_leaf: true,
        };
        let mut callback_args: Vec<DartFFIFunctionParamSig> = Vec::new();
        callback_args.push(DartFFIFunctionParamSig { name: String::new(), ty: DartFFIType::Int(DartFFIIntType::Uint64) });
        callback_args.push(DartFFIFunctionParamSig { name: String::new(), ty: DartFFIType::Int(DartFFIIntType::Int8) });
        let mut poll_args: Vec<DartFFIFunctionParamSig> = Vec::new();
        poll_args.push(DartFFIFunctionParamSig { name: String::from_str("handle"), ty: DartFFIType::Pointer(Box::new(DartFFIType::Void)) });
        poll_args.push(DartFFIFunctionParamSig { name: String::from_str("callback_data"), ty: DartFFIType::Int(DartFFIIntType::Uint64) });
        poll_args.push(DartFFIFunctionParamSig {
            name: String::from_str("callback"),
            ty: DartFFIType::NativeFunction { sig: Box::new(DartFFIFunctionSig { args: callback_args, ret: DartFFIType::Void }) },
        });
        let mut wait_args: Vec<DartFFIFunctionParamSig> = Vec::new();
        wait_args.push(DartFFIFunctionParamSig { name: String::from_str("handle"), ty: DartFFIType::Pointer(Box::new(DartFFIType::Void)) });
        wait_args.push(DartFFIFunctionParamSig { name: String::from_str("timeout_milliseconds"), ty: DartFFIType::Int(DartFFIIntType::Uint32) });
        let ghost q = choose|p: DartFFIValuePassing| passing_lowered(*self.ffi, *self.abi, abi_stream.item_transport, p);
        DartStream {
            name: NamingConvention::function_name(stream.id.as_str()),
            item_ty: DartType::from_type_expr(&stream.item_type, &self.ffi.catalog),
            item_read_seq: copy_read(decode_ops),
            item_passing: self.value_passing_from_transport(&abi_stream.item_transport, Ghost(q)),
            ffi_item_ty: DartFFIType::from_transport(&abi_stream.item_transport),
            ffi_item_size: abi_stream.item_size,
            subscribe_fn: DartFFIFunctionDef {
                symbol: abi_stream.subscribe.clone(),
                sig: DartFFIFunctionSig { args: handle_only(), ret: DartFFIType::Pointer(Box::new(DartFFIType::Void)) },
                is_leaf: true,
            },
            poll_fn: DartFFIFunctionDef {
                symbol: abi_stream.poll.clone(),
                sig: DartFFIFunctionSig { args: poll_args, ret: DartFFIType::Void },
                is_leaf: false,
            },
            pop_batch_fn,
            wait_fn: DartFFIFunctionDef {
                symbol: abi_stream.wait.clone(),
                sig: DartFFIFunctionSig { args: wait_args, ret: DartFFIType::Int(DartFFIIntType::Int32) },
                is_leaf: true,
            },
            unsubscribe_fn: DartFFIFunctionDef {
                symbol: abi_stream.unsubscribe.clone(),
                sig: DartFFIFunctionSig { args: handle_only(), ret: DartFFIType::Void },
                is_leaf: false,
            },
            free_fn: DartFFIFunctionDef {
                symbol: abi_stream.free.clone(),
                sig: DartFFIFunctionSig { args: handle_only(), ret: DartFFIType::Void },
                is_leaf: false,
            },
            mode: stream.mode,
            doc: stream.doc.clone(),
        }
    }

    fn lower_one_class(&self, class: &ClassDef) -> (res: DartClass)
        requires
            class_lowerable(*self.ffi, *self.abi, *class),
        ensures
            class_lowered(*self.ffi, *self.abi, *class, res),
    {
        let mut constructors: Vec<DartFunction> = Vec::new();
        let mut i: usize = 0;
        while i < class.constructors.len()
            invariant
                i <= class.constructors@.len(),
                constructors@.len() == i,
                class_lowerable(*self.ffi, *self.abi, *class),
                forall|k: int| 0 <= k < i ==> ctor_lowered(*self.ffi, *self.abi, class.constructors@[k],
                    CallId::Constructor { class_id: class.id, index: k as usize }, #[trigger] constructors@[k]),
            decreases class.constructors.len() - i,
        {
            proof {
                assert(ctor_lowerable(*self.ffi, *self.abi, class.constructors@[i as int], CallId::Constructor { class_id: class.id, index: i }));
            }
            constructors.push(self.lower_constructor(&class.constructors[i], CallId::Constructor { class_id: class.id.clone(), index: i }));
            i += 1;
        }
        let mut methods: Vec<DartFunction> = Vec::new();
        let mut i: usize = 0;
        while i < class.methods.len()
            invariant
                i <= class.methods@.len(),
                methods@.len() == i,
                class_lowerable(*self.ffi, *self.abi, *class),
                forall|k: int| 0 <= k < i ==> method_lowered(*self.ffi, *self.abi, class.methods@[k],
                    CallId::Method { class_id: class.id, method_id: class.methods@[k].id }, #[trigger] methods@[k]),
            decreases class.methods.len() - i,
        {
            let meth = &class.methods[i];
            proof {
                assert(method_lowerable(*self.ffi, *self.abi, class.methods@[i as int], CallId::Method { class_id: class.id, method_id: class.methods@[i as int].id }));
            }
            methods.push(self.lower_method(meth, CallId::Method { class_id: class.id.clone(), method_id: meth.id.clone() }));
            i += 1;
        }
        let mut streams: Vec<DartStream> = Vec::new();
        let mut i: usize = 0;
        while i < class.streams.len()
            invariant
                i <= class.streams@.len(),
                streams@.len() == i,
                class_lowerable(*self.ffi, *self.abi, *class),
                forall|k: int| 0 <= k < i ==> stream_lowered(*self.ffi, *self.abi, class.streams@[k],
                    stream_for(*self.abi, class.streams@[k], class.id@), #[trigger] streams@[k]),
            decreases class.streams.len() - i,
        {
            proof {
                assert(stream_lowerable(*self.ffi, *self.abi, class.streams@[i as int], class.id@));
            }
            streams.push(self.lower_one_stream(&class.streams[i], &class.id));
            i += 1;
        }
        DartClass {
            name: NamingConvention::class_name(class.id.as_str()),
            create_symbol: class_ffi_new(class.id.as_str()),
            free_symbol: class_ffi_free(class.id.as_str()),
            constructors,
            methods,
            streams,
            doc: class.doc.clone(),
        }
    }

    fn lower_classes(&self) -> (res: Vec<DartClass>)
        requires
            forall|i: int| 0 <= i < self.ffi.catalog.classes@.len() ==> class_lowerable(*self.ffi, *self.abi, #[trigger] self.ffi.catalog.classes@[i]),
        ensures
            res@.len() == self.ffi.catalog.classes@.len(),
            forall|i: int| 0 <= i < res@.len() ==> class_lowered(*self.ffi, *self.abi, self.ffi.catalog.classes@[i], #[trigger] res@[i]),
    {
        let mut out: Vec<DartClass> = Vec::new();
        let mut i: usize = 0;
        while i < self.ffi.catalog.classes.len()
            invariant
                i <= self.ffi.catalog.classes@.len(),
                out@.len() == i,
                forall|k: int| 0 <= k < self.ffi.catalog.classes@.len() ==> class_lowerable(*self.ffi, *self.abi, #[trigger] self.ffi.catalog.classes@[k]),
                forall|k: int| 0 <= k < i ==> class_lowered(*self.ffi, *self.abi, self.ffi.catalog.classes@[k], #[trigger] out@[k]),
            decreases self.ffi.catalog.classes.len() - i,
        {
            proof {
                assert(class_lowerable(*self.ffi, *self.abi, self.ffi.catalog.classes@[i as int]));
            }
            out.push(self.lower_one_class(&self.ffi.catalog.classes[i]));
            i += 1;
        }
        out
    }


    fn lower_callback_method(&self, cb_meth: &CallbackMethodDef, abi_meth: &AbiCallbackMethod) -> (res: DartCallbackMethod)
        requires
            callback_method_lowerable(*self.ffi, *self.abi, *cb_meth, *abi_meth),
        ensures
            callback_method_lowered(*self.ffi, *self.abi, *cb_meth, *abi_meth, res),
    {
        let ghost ps = abi_meth.params@.skip(1);
        let mut ffi_args: Vec<DartFFIFunctionParamSig> = Vec::new();
        ffi_args.push(DartFFIFunctionParamSig { name: String::from_str("_p$handle"), ty: DartFFIType::Int(DartFFIIntType::Uint64) });
        let mut i: usize = 1;
        while i < abi_meth.params.len()
            invariant
                1 <= i <= abi_meth.params@.len(),
                ps == abi_meth.params@.skip(1),
                ffi_args@.len() == i,
                arg_is(ffi_args@[0], "_p$handle"@, DartFFIType::Int(DartFFIIntType::Uint64)),
                forall|k: int| 0 <= k < i - 1 ==> {
                    &&& (#[trigger] ffi_args@[k + 1]).name@ == abi_param_name(ps[k])
                    &&& abi_param_lowered(ps[k], ffi_args@[k + 1].ty)
                },
            decreases abi_meth.params.len() - i,
        {
            ffi_args.push(DartFFIFunctionParamSig::from_abi_param(&abi_meth.params[i]));
            i += 1;
        }
        match abi_meth.execution_kind {
            ExecutionKind::Sync => {
                ffi_args.push(DartFFIFunctionParamSig {
                    name: String::from_str("_p$outStatus"),
                    ty: DartFFIType::Pointer(Box::new(DartFFIType::Status)),
                });
            },
            ExecutionKind::Async => {
                let mut callback_params: Vec<DartFFIFunctionParamSig> = Vec::new();
                callback_params.push(DartFFIFunctionParamSig { name: String::new(), ty: DartFFIType::Int(DartFFIIntType::Uint64) });
                match &abi_meth.returns.transport {
                    Some(Transport::Scalar(scalar)) => {
                        callback_params.push(DartFFIFunctionParamSig { name: String::new(), ty: DartFFIType::from_primitive(scalar.primitive()) });
                    },
                    Some(_) => {
                        callback_params.push(DartFFIFunctionParamSig {
                            name: String::new(),
                            ty: DartFFIType::Pointer(Box::new(DartFFIType::Int(DartFFIIntType::Uint8))),
                        });
                        callback_params.push(DartFFIFunctionParamSig { name: String::new(), ty: DartFFIType::Int(DartFFIIntType::UintPtr) });
                    },
                    None => {},
                }
                callback_params.push(DartFFIFunctionParamSig { name: String::new(), ty: DartFFIType::Int(DartFFIIntType::Int32) });
                ffi_args.push(DartFFIFunctionParamSig {
                    name: String::from_str("_p$callback"),
                    ty: DartFFIType::NativeFunction { sig: Box::new(DartFFIFunctionSig { args: callback_params, ret: DartFFIType::Void }) },
                });
                ffi_args.push(DartFFIFunctionParamSig { name: String::from_str("_p$asyncCtx"), ty: DartFFIType::Int(DartFFIIntType::Uint64) });
            },
        }
        let passing = match &abi_meth.returns.transport {
            Some(transport) => {
                let ghost q = choose|q: DartFFIValuePassing| passing_lowered(*self.ffi, *self.abi, *transport, q);
                let p = self.value_passing_from_transport(transport, Ghost(q));
                match p {
                    DartFFIValuePassing::Value(DartFFIParamValue::Record(..)) | DartFFIValuePassing::Bytes(..) => {
                        DartFFIReturnsPassing::Passing(DartFFIValuePassing::WireEncoded)
                    },
                    other => DartFFIReturnsPassing::Passing(other),
                }
            },
            None => DartFFIReturnsPassing::Void,
        };
        let ghost targets = choose|t: Seq<DartFunctionParam>| params_lowered(*self.ffi, *self.abi, cb_meth.params@, inputs(abi_meth.params@.skip(1)), t);
        DartCallbackMethod {
            name: NamingConvention::function_name(cb_meth.id.as_str()),
            sig: DartFunctionSig::from_params_return_def(cb_meth.params.as_slice(), &cb_meth.returns, &self.ffi.catalog),
            ffi_sig: DartFFIFunctionSig {
                args: ffi_args,
                ret: DartFFIType::from_return_shape_and_error_transport(&abi_meth.returns, &abi_meth.error),
            },
            params: self.lower_function_params(&cb_meth.params, &abi_meth.params, 1, Ghost(targets)),
            kind: cb_meth.execution_kind,
            returns: DartFunctionReturns {
                ty: DartReturnType::from_return_def(&cb_meth.returns, &self.ffi.catalog),
                passing,
                read_seq: copy_read_opt(&abi_meth.returns.decode_ops),
                write_seq: lower_write_opt(&abi_meth.returns.encode_ops),
            },
            doc: cb_meth.doc.clone(),
        }
    }

    fn lower_one_callback(&self, cb_def: &CallbackTraitDef) -> (res: DartCallback)
        requires
            callback_lowerable(*self.ffi, *self.abi, *cb_def),
        ensures
            callback_lowered(*self.ffi, *self.abi, *cb_def, res),
    {
        let index = self.abi_callback_index(&cb_def.id);
        let abi_cb = &self.abi.callbacks[index];
        let class_name = NamingConvention::class_name(cb_def.id.as_str());
        let impl_class_name = crate::text::cat2("_I$", class_name.as_str());
        let vtable = NamingConvention::class_name(abi_cb.vtable_type.as_str());
        let vtable_struct_name = crate::text::cat2("_I$", vtable.as_str());
        let n = if cb_def.methods.len() < abi_cb.methods.len() { cb_def.methods.len() } else { abi_cb.methods.len() };
        let mut methods: Vec<DartCallbackMethod> = Vec::new();
        let mut i: usize = 0;
        while i < n
            invariant
                i <= n,
                n <= cb_def.methods@.len(),
                n <= abi_cb.methods@.len(),
                *abi_cb == self.abi.callbacks@[first_abi_callback(self.abi.callbacks@, cb_def.id@, 0)->0],
                callback_lowerable(*self.ffi, *self.abi, *cb_def),
                methods@.len() == i,
                forall|k: int| 0 <= k < i ==> callback_method_lowered(*self.ffi, *self.abi, cb_def.methods@[k], abi_cb.methods@[k], #[trigger] methods@[k]),
            decreases n - i,
        {
            proof {
                assert(callback_method_lowerable(*self.ffi, *self.abi, cb_def.methods@[i as int], abi_cb.methods@[i as int]));
            }
            methods.push(self.lower_callback_method(&cb_def.methods[i], &abi_cb.methods[i]));
            i += 1;
        }
        DartCallback { class_name, impl_class_name, vtable_struct_name, methods, doc: cb_def.doc.clone() }
    }

    fn lower_callbacks(&self) -> (res: Vec<DartCallback>)
        requires
            forall|i: int| 0 <= i < trait_callbacks(self.ffi.catalog.callbacks@).len() ==>
                callback_lowerable(*self.ffi, *self.abi, #[trigger] trait_callbacks(self.ffi.catalog.callbacks@)[i]),
        ensures
            res@.len() == trait_callbacks(self.ffi.catalog.callbacks@).len(),
            forall|i: int| 0 <= i < res@.len() ==> callback_lowered(*self.ffi, *self.abi, trait_callbacks(self.ffi.catalog.callbacks@)[i], #[trigger] res@[i]),
    {
        let ghost all = self.ffi.catalog.callbacks@;
        let mut out: Vec<DartCallback> = Vec::new();
        let mut i: usize = 0;
        proof {
            reveal(Seq::filter);
            assert(all.take(0) =~= Seq::<CallbackTraitDef>::empty());
        }
        while i < self.ffi.catalog.callbacks.len()
            invariant
                i <= all.len(),
                all == self.ffi.catalog.callbacks@,
                forall|k: int| 0 <= k < trait_callbacks(all).len() ==> callback_lowerable(*self.ffi, *self.abi, #[trigger] trait_callbacks(all)[k]),
                out@.len() == trait_callbacks(all.take(i as int)).len(),
                forall|k: int| 0 <= k < out@.len() ==> callback_lowered(*self.ffi, *self.abi, trait_callbacks(all.take(i as int))[k], #[trigger] out@[k]),
            decreases all.len() - i,
        {
            let cb = &self.ffi.catalog.callbacks[i];
            let ghost before = trait_callbacks(all.take(i as int));
            proof {
                reveal(Seq::filter);
                let t = all.take(i + 1);
                assert(t.drop_last() =~= all.take(i as int));
                assert(t.last() == all[i as int]);
                lemma_trait_prefix(all, i + 1);
            }
            if let CallbackKind::Trait = cb.kind {
                proof {
                    assert(trait_callbacks(all.take(i + 1)) == before.push(*cb));
                    assert(trait_callbacks(all.take(i + 1))[before.len() as int] == *cb);
                    assert(trait_callbacks(all)[before.len() as int] == *cb);
                }
                out.push(self.lower_one_callback(cb));
            }
            i += 1;
        }
        proof {
            assert(all.take(i as int) =~= all);
        }
        out
    }

    /// The Dart library of the binding: its trait callbacks, classes and
    /// free functions, lowered here, beside the custom types, records and
    /// enums, which are lowered from their own declarations and given.
    pub fn library(&self, custom_types: Vec<DartCustomType>, records: Vec<DartRecord>, enums: Vec<DartEnum>) -> (res: DartLibrary)
        requires
            library_lowerable(*self.ffi, *self.abi),
        ensures
            library_lowered(*self.ffi, *self.abi, custom_types@, records@, enums@, res),
    {
        let callbacks = self.lower_callbacks();
        let classes = self.lower_classes();
        let functions = self.lower_functions();
        DartLibrary { custom_types, records, enums, callbacks, classes, functions }
    }

}

} // verus!
