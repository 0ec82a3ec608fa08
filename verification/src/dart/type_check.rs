//! Deciding whether a Rust type has a Dart type: a callback that is not
//! declared, a closure without a `call` method first, an unknown builtin,
//! or a closure whose signature mentions the closure itself has none.
use vstd::prelude::*;
use crate::ir::{CallbackKind, ParamDef, PrimitiveType, ReturnDef, TypeCatalog, TypeExpr};
use crate::dart::api_type::{
    err_lowers, lowers, params_lowerable, return_lowers, sig_lowered,
    DartClosureParamType, DartClosureType, DartFunctionSig, DartReturnType, DartType,
};

verus! {

/// The larger of two numbers.
pub open spec fn max_nat(a: nat, b: nat) -> nat {
    if a < b { b } else { a }
}

/// How deeply Dart types nest in `t`.
pub open spec fn depth(t: DartType) -> nat
    decreases t, 0nat, 0nat,
{
    match t {
        DartType::Option(i) | DartType::List(i) => 1 + depth(*i),
        DartType::Result { ok, err } => 1 + max_nat(depth(*ok), depth(*err)),
        DartType::Closure(c) => {
            proof {
                assert(decreases_to!(t => t->Closure_0));
                assert(decreases_to!(*t->Closure_0 => c.arg_ty));
                assert(decreases_to!(c.arg_ty => c.arg_ty@));
            }
            1 + max_nat(args_depth(c.arg_ty@, c.arg_ty@.len() as int), depth(c.ret_ty.inner))
        },
        _ => 0,
    }
}

/// How deeply the types of the first `n` closure parameters of `a` nest.
pub open spec fn args_depth(a: Seq<DartClosureParamType>, n: int) -> nat
    decreases a, 1nat, n,
{
    if n <= 0 || n > a.len() {
        0
    } else {
        proof {
            assert(decreases_to!(a => a[n - 1]));
        }
        max_nat(args_depth(a, n - 1), depth(a[n - 1].ty))
    }
}

proof fn lemma_args_depth_bound(a: Seq<DartClosureParamType>, n: int, i: int)
    requires
        0 <= i < n <= a.len(),
    ensures
        depth(a[i].ty) <= args_depth(a, n),
    decreases n,
{
    if i < n - 1 {
        lemma_args_depth_bound(a, n - 1, i);
    }
}

proof fn lemma_args_depth_eq(a: Seq<DartClosureParamType>, b: Seq<DartClosureParamType>, n: int)
    requires
        0 <= n <= a.len(),
        a.len() == b.len(),
        forall|i: int| 0 <= i < a.len() ==> depth(#[trigger] a[i].ty) == depth(b[i].ty),
    ensures
        args_depth(a, n) == args_depth(b, n),
    decreases n,
{
    if n > 0 {
        lemma_args_depth_eq(a, b, n - 1);
        assert(depth(a[n - 1].ty) == depth(b[n - 1].ty));
    }
}

/// All Dart types of one Rust type nest equally deep.
proof fn lemma_depth_unique(cat: TypeCatalog, te: TypeExpr, t1: DartType, t2: DartType)
    requires
        lowers(cat, te, t1),
        lowers(cat, te, t2),
    ensures
        depth(t1) == depth(t2),
    decreases t1, 0nat,
{
    match te {
        TypeExpr::Vec(inner) => {
            if *inner != TypeExpr::Primitive(PrimitiveType::U8) {
                lemma_depth_unique(cat, *inner, *t1->List_0, *t2->List_0);
            } else {
                assert(t1 is Bytes && t2 is Bytes);
            }
        },
        TypeExpr::Option(inner) => lemma_depth_unique(cat, *inner, *t1->Option_0, *t2->Option_0),
        TypeExpr::Result { ok, err } => {
            assert(t1 is Result);
            assert(t2 is Result);
            assert(err_lowers(cat, *err, *t1->Result_err));
            assert(err_lowers(cat, *err, *t2->Result_err));
            lemma_depth_unique(cat, *ok, *t1->Result_ok, *t2->Result_ok);
            if !(*err is String) {
                assert(lowers(cat, *err, *t1->Result_err));
                assert(lowers(cat, *err, *t2->Result_err));
                lemma_depth_unique(cat, *err, *t1->Result_err, *t2->Result_err);
            } else {
                assert(depth(*t1->Result_err) == 0);
                assert(depth(*t2->Result_err) == 0);
            }
        },
        TypeExpr::Callback(id) => {
            let cb = cat.callback(id@)->0;
            if cb.kind is Closure {
                let c1 = *t1->Closure_0;
                let c2 = *t2->Closure_0;
                let m = cb.methods@[0];
                assert forall|i: int| 0 <= i < c1.arg_ty@.len() implies depth(#[trigger] c1.arg_ty@[i].ty) == depth(c2.arg_ty@[i].ty) by {
                    assert(decreases_to!(t1 => t1->Closure_0));
                    assert(decreases_to!(c1 => c1.arg_ty));
                    assert(decreases_to!(c1.arg_ty => c1.arg_ty@));
                    assert(decreases_to!(c1.arg_ty@ => c1.arg_ty@[i]));
                    assert(lowers(cat, m.params@[i].type_expr, c1.arg_ty@[i].ty));
                    assert(lowers(cat, m.params@[i].type_expr, c2.arg_ty@[i].ty));
                    lemma_depth_unique(cat, m.params@[i].type_expr, c1.arg_ty@[i].ty, c2.arg_ty@[i].ty);
                }
                lemma_args_depth_eq(c1.arg_ty@, c2.arg_ty@, c1.arg_ty@.len() as int);
                assert(decreases_to!(t1 => t1->Closure_0));
                assert(decreases_to!(c1 => c1.ret_ty));
                lemma_return_depth_unique(cat, m.returns, c1.ret_ty.inner, c2.ret_ty.inner);
            }
        },
        _ => {},
    }
}

/// All Dart types of what one callable returns nest equally deep.
proof fn lemma_return_depth_unique(cat: TypeCatalog, r: ReturnDef, t1: DartType, t2: DartType)
    requires
        return_lowers(cat, r, t1),
        return_lowers(cat, r, t2),
    ensures
        depth(t1) == depth(t2),
    decreases t1, 1nat,
{
    match r {
        ReturnDef::Void => {
            assert(t1 is Void);
            assert(depth(t1) == 0);
            assert(t2 is Void);
            assert(depth(t2) == 0);
        },
        ReturnDef::Value(te) => lemma_depth_unique(cat, te, t1, t2),
        ReturnDef::Result { ok, err } => {
            assert(err_lowers(cat, err, *t1->Result_err));
            assert(err_lowers(cat, err, *t2->Result_err));
            lemma_depth_unique(cat, ok, *t1->Result_ok, *t2->Result_ok);
            if !(err is String) {
                assert(lowers(cat, err, *t1->Result_err));
                assert(lowers(cat, err, *t2->Result_err));
                lemma_depth_unique(cat, err, *t1->Result_err, *t2->Result_err);
            } else {
                assert(depth(*t1->Result_err) == 0);
                assert(depth(*t2->Result_err) == 0);
            }
        },
    }
}

/// How deeply a Rust type nests, counting the types it is built from.
pub open spec fn type_size(te: TypeExpr) -> nat
    decreases te,
{
    match te {
        TypeExpr::Vec(i) | TypeExpr::Option(i) => 1 + type_size(*i),
        TypeExpr::Result { ok, err } => 1 + type_size(*ok) + type_size(*err),
        _ => 0,
    }
}

/// How deeply the types a callable returns nest.
pub open spec fn return_size(r: ReturnDef) -> nat {
    match r {
        ReturnDef::Void => 0,
        ReturnDef::Value(te) => 1 + type_size(te),
        ReturnDef::Result { ok, err } => 1 + type_size(ok) + type_size(err),
    }
}

/// The type that names the callback at index `k` of the catalog.
pub open spec fn callback_type(cat: TypeCatalog, k: int) -> TypeExpr {
    TypeExpr::Callback(cat.callbacks@[k].id)
}

/// Whether the callback at index `k` has a Dart type no deeper than `t`.
pub open spec fn blocked(cat: TypeCatalog, k: int, t: DartType) -> bool {
    exists|u: DartType| lowers(cat, callback_type(cat, k), u) && depth(u) <= depth(t)
}

/// Whether one of the callbacks at the indices `stack` has a Dart type no
/// deeper than `t`.
pub open spec fn blocked_by(cat: TypeCatalog, stack: Seq<usize>, t: DartType) -> bool {
    exists|j: int| 0 <= j < stack.len() && #[trigger] blocked(cat, stack[j] as int, t)
}

/// Whether `stack` holds distinct indices of callbacks of the catalog.
pub open spec fn stack_ok(cat: TypeCatalog, stack: Seq<usize>) -> bool {
    &&& stack.no_duplicates()
    &&& forall|j: int| 0 <= j < stack.len() ==> (#[trigger] stack[j] as int) < cat.callbacks@.len()
}

proof fn lemma_blocked_deeper(cat: TypeCatalog, stack: Seq<usize>, t1: DartType, t2: DartType)
    requires
        blocked_by(cat, stack, t1),
        depth(t1) <= depth(t2),
    ensures
        blocked_by(cat, stack, t2),
{
    let j = choose|j: int| 0 <= j < stack.len() && #[trigger] blocked(cat, stack[j] as int, t1);
    assert(blocked(cat, stack[j] as int, t2));
}

/// Distinct indices below `n` are at most `n`.
proof fn lemma_distinct_bound(stack: Seq<usize>, n: int)
    requires
        0 <= n,
        stack.no_duplicates(),
        forall|j: int| 0 <= j < stack.len() ==> (#[trigger] stack[j] as int) < n,
    ensures
        stack.len() <= n,
{
    let si = stack.map_values(|x: usize| x as int);
    assert(si.no_duplicates()) by {
        assert forall|i: int, j: int| 0 <= i < si.len() && 0 <= j < si.len() && i != j implies si[i] != si[j] by {
            assert(stack[i] != stack[j]);
        }
    }
    si.unique_seq_to_set();
    vstd::set_lib::lemma_int_range(0, n);
    assert(si.to_set().subset_of(vstd::set_lib::set_int_range(0, n))) by {
        assert forall|x: int| si.to_set().contains(x) implies vstd::set_lib::set_int_range(0, n).contains(x) by {
            let i = choose|i: int| 0 <= i < si.len() && si[i] == x;
            assert(stack[i] as int == x);
        }
    }
    vstd::set_lib::lemma_len_subset(si.to_set(), vstd::set_lib::set_int_range(0, n));
}

proof fn lemma_first_callback(cbs: Seq<crate::ir::CallbackTraitDef>, id: Seq<char>, from: int)
    ensures
        crate::ir::first_callback(cbs, id, from) matches Some(i) ==> 0 <= i < cbs.len() && cbs[i].id@ == id,
    decreases cbs.len() - from,
{
    if !(from < 0 || from >= cbs.len()) && cbs[from].id@ != id {
        lemma_first_callback(cbs, id, from + 1);
    }
}

/// The index of the first callback declared under `id`.
fn callback_index(cat: &TypeCatalog, id: &str) -> (res: Option<usize>)
    ensures
        match res {
            Some(k) => crate::ir::first_callback(cat.callbacks@, id@, 0) == Some(k as int),
            None => crate::ir::first_callback(cat.callbacks@, id@, 0) is None,
        },
{
    let mut i: usize = 0;
    while i < cat.callbacks.len()
        invariant
            i <= cat.callbacks@.len(),
            crate::ir::first_callback(cat.callbacks@, id@, 0) == crate::ir::first_callback(cat.callbacks@, id@, i as int),
        decreases cat.callbacks.len() - i,
    {
        if crate::text::str_eq(cat.callbacks[i].id.as_str(), id) {
            return Some(i);
        }
        i += 1;
    }
    None
}

fn stack_has(stack: &Vec<usize>, k: usize) -> (res: bool)
    ensures
        res <==> stack@.contains(k),
{
    let mut i: usize = 0;
    while i < stack.len()
        invariant
            i <= stack@.len(),
            forall|j: int| 0 <= j < i ==> stack@[j] != k,
        decreases stack.len() - i,
    {
        if stack[i] == k {
            return true;
        }
        i += 1;
    }
    false
}

fn pushed(stack: &Vec<usize>, k: usize) -> (res: Vec<usize>)
    ensures
        res@ == stack@.push(k),
{
    let mut out: Vec<usize> = Vec::new();
    let mut i: usize = 0;
    while i < stack.len()
        invariant
            i <= stack@.len(),
            out@ == stack@.take(i as int),
        decreases stack.len() - i,
    {
        out.push(stack[i]);
        i += 1;
        assert(out@ =~= stack@.take(i as int));
    }
    out.push(k);
    assert(out@ =~= stack@.push(k));
    out
}

/// The Dart type of `te`, or `None` where `te` has none or its lowering
/// would expand again one of the closure callbacks at the indices
/// `stack`.
fn check_type(te: &TypeExpr, cat: &TypeCatalog, stack: &Vec<usize>) -> (res: Option<DartType>)
    requires
        stack_ok(*cat, stack@),
    ensures
        res matches Some(t) ==> lowers(*cat, *te, t),
        res is None ==> forall|t: DartType| lowers(*cat, *te, t) ==> blocked_by(*cat, stack@, t),
    decreases cat.callbacks@.len() - stack@.len(), type_size(*te), 0nat,
{
    proof {
        lemma_distinct_bound(stack@, cat.callbacks@.len() as int);
    }
    match te {
        TypeExpr::Void => Some(DartType::Void),
        TypeExpr::Primitive(p) => Some(DartType::from_primitive(*p)),
        TypeExpr::String | TypeExpr::Str => Some(DartType::String),
        TypeExpr::Vec(inner) => {
            if let TypeExpr::Primitive(PrimitiveType::U8) = &**inner {
                Some(DartType::Bytes)
            } else {
                match check_type(inner, cat, stack) {
                    Some(i) => Some(DartType::List(Box::new(i))),
                    None => {
                        proof {
                            assert forall|t: DartType| lowers(*cat, *te, t) implies blocked_by(*cat, stack@, t) by {
                                assert(lowers(*cat, **inner, *t->List_0));
                                lemma_blocked_deeper(*cat, stack@, *t->List_0, t);
                            }
                        }
                        None
                    },
                }
            }
        },
        TypeExpr::Option(inner) => {
            match check_type(inner, cat, stack) {
                Some(i) => Some(DartType::Option(Box::new(i))),
                None => {
                    proof {
                        assert forall|t: DartType| lowers(*cat, *te, t) implies blocked_by(*cat, stack@, t) by {
                            assert(lowers(*cat, **inner, *t->Option_0));
                            lemma_blocked_deeper(*cat, stack@, *t->Option_0, t);
                        }
                    }
                    None
                },
            }
        },
        TypeExpr::Result { ok, err } => {
            let o = match check_type(ok, cat, stack) {
                Some(o) => o,
                None => {
                    proof {
                        assert forall|t: DartType| lowers(*cat, *te, t) implies blocked_by(*cat, stack@, t) by {
                            assert(lowers(*cat, **ok, *t->Result_ok));
                            lemma_blocked_deeper(*cat, stack@, *t->Result_ok, t);
                        }
                    }
                    return None;
                },
            };
            let e = if let TypeExpr::String = &**err {
                DartType::Record(String::from_str("$$BoltException"))
            } else {
                match check_type(err, cat, stack) {
                    Some(e) => e,
                    None => {
                        proof {
                            assert forall|t: DartType| lowers(*cat, *te, t) implies blocked_by(*cat, stack@, t) by {
                                assert(err_lowers(*cat, **err, *t->Result_err));
                                assert(lowers(*cat, **err, *t->Result_err));
                                lemma_blocked_deeper(*cat, stack@, *t->Result_err, t);
                            }
                        }
                        return None;
                    },
                }
            };
            let t = DartType::Result { ok: Box::new(o), err: Box::new(e) };
            assert(err_lowers(*cat, **err, e));
            assert(lowers(*cat, *te, t));
            Some(t)
        },
        TypeExpr::Record(record_id) => Some(DartType::Record(record_id.clone())),
        TypeExpr::Enum(enum_id) => Some(DartType::Enum(enum_id.clone())),
        TypeExpr::Custom(custom_type_id) => Some(DartType::Custom(custom_type_id.clone())),
        TypeExpr::Handle(class_id) => Some(DartType::Class(class_id.clone())),
        TypeExpr::Builtin(builtin_id) => {
            let b = builtin_id.as_str();
            proof {
                reveal_strlit("Duration");
                reveal_strlit("SystemTime");
                reveal_strlit("Uuid");
                reveal_strlit("Url");
            }
            if crate::text::str_eq(b, "Duration") {
                Some(DartType::Builtin(String::from_str("Duration")))
            } else if crate::text::str_eq(b, "SystemTime") {
                Some(DartType::Builtin(String::from_str("DateTime")))
            } else if crate::text::str_eq(b, "Uuid") {
                Some(DartType::Builtin(String::from_str("$$BoltUUIDValue")))
            } else if crate::text::str_eq(b, "Url") {
                Some(DartType::Builtin(String::from_str("Uri")))
            } else {
                None
            }
        },
        TypeExpr::Callback(callback_id) => {
            let k = match callback_index(cat, callback_id.as_str()) {
                Some(k) => k,
                None => return None,
            };
            proof {
                lemma_first_callback(cat.callbacks@, callback_id@, 0);
            }
            let cb = &cat.callbacks[k];
            assert(cat.callback(callback_id@) == Some(cat.callbacks@[k as int]));
            match cb.kind {
                CallbackKind::Trait => Some(DartType::Callback(callback_id.clone())),
                CallbackKind::Closure => {
                    proof {
                        reveal_strlit("call");
                    }
                    if cb.methods.len() == 0 {
                        return None;
                    }
                    if !crate::text::str_eq(cb.methods[0].id.as_str(), "call") {
                        return None;
                    }
                    if stack_has(stack, k) {
                        proof {
                            let j = choose|j: int| 0 <= j < stack@.len() && stack@[j] == k;
                            assert forall|t: DartType| lowers(*cat, *te, t) implies blocked_by(*cat, stack@, t) by {
                                assert(lowers(*cat, callback_type(*cat, k as int), t));
                                assert(blocked(*cat, stack@[j] as int, t));
                            }
                        }
                        return None;
                    }
                    let st2 = pushed(stack, k);
                    proof {
                        assert(st2@.no_duplicates()) by {
                            assert forall|a: int, b: int| 0 <= a < st2@.len() && 0 <= b < st2@.len() && a != b implies st2@[a] != st2@[b] by {
                                if a < stack@.len() && b < stack@.len() {
                                    assert(stack@[a] != stack@[b]);
                                } else if a < stack@.len() {
                                    assert(stack@.contains(stack@[a]));
                                } else if b < stack@.len() {
                                    assert(stack@.contains(stack@[b]));
                                }
                            }
                        }
                        assert forall|j: int| 0 <= j < st2@.len() implies (#[trigger] st2@[j] as int) < cat.callbacks@.len() by {
                            if j < stack@.len() {
                                assert(st2@[j] == stack@[j]);
                            }
                        }
                        lemma_distinct_bound(st2@, cat.callbacks@.len() as int);
                    }
                    let m = &cb.methods[0];
                    let mut arg_ty: Vec<DartClosureParamType> = Vec::new();
                    let mut i: usize = 0;
                    while i < m.params.len()
                        invariant
                            i <= m.params@.len(),
                            arg_ty@.len() == i,
                            *te == TypeExpr::Callback(*callback_id),
                            0 <= k < cat.callbacks@.len(),
                            cat.callback(callback_id@) == Some(cat.callbacks@[k as int]),
                            cat.callbacks@[k as int].id@ == callback_id@,
                            *cb == cat.callbacks@[k as int],
                            cb.kind is Closure,
                            cb.methods@.len() > 0,
                            *m == cb.methods@[0],
                            m.id@ == "call"@,
                            stack_ok(*cat, stack@),
                            stack_ok(*cat, st2@),
                            st2@ == stack@.push(k),
                            st2@.len() <= cat.callbacks@.len(),
                            forall|j: int| 0 <= j < i ==> {
                                &&& (#[trigger] arg_ty@[j]).name@ == m.params@[j].name@
                                &&& lowers(*cat, m.params@[j].type_expr, arg_ty@[j].ty)
                            },
                        decreases m.params.len() - i,
                    {
                        let p = &m.params[i];
                        match check_type(&p.type_expr, cat, &st2) {
                            Some(ty) => {
                                arg_ty.push(DartClosureParamType { name: p.name.clone(), ty });
                            },
                            None => {
                                proof {
                                    assert forall|t: DartType| lowers(*cat, *te, t) implies blocked_by(*cat, stack@, t) by {
                                        let c = *t->Closure_0;
                                        let a = c.arg_ty@[i as int].ty;
                                        assert(lowers(*cat, m.params@[i as int].type_expr, a));
                                        lemma_args_depth_bound(c.arg_ty@, c.arg_ty@.len() as int, i as int);
                                        assert(depth(a) < depth(t));
                                        let j = choose|j: int| 0 <= j < st2@.len() && #[trigger] blocked(*cat, st2@[j] as int, a);
                                        let u = choose|u: DartType| lowers(*cat, callback_type(*cat, st2@[j] as int), u) && depth(u) <= depth(a);
                                        if j < stack@.len() {
                                            assert(st2@[j] == stack@[j]);
                                            assert(blocked(*cat, stack@[j] as int, t));
                                        } else {
                                            assert(st2@[j] == k);
                                            assert(lowers(*cat, callback_type(*cat, k as int), t));
                                            lemma_depth_unique(*cat, callback_type(*cat, k as int), u, t);
                                        }
                                    }
                                }
                                return None;
                            },
                        }
                        i += 1;
                    }
                    let inner = match check_return(&m.returns, cat, &st2) {
                        Some(r) => r,
                        None => {
                            proof {
                                assert forall|t: DartType| lowers(*cat, *te, t) implies blocked_by(*cat, stack@, t) by {
                                    let c = *t->Closure_0;
                                    let a = c.ret_ty.inner;
                                    assert(return_lowers(*cat, m.returns, a));
                                    assert(depth(a) < depth(t));
                                    let j = choose|j: int| 0 <= j < st2@.len() && #[trigger] blocked(*cat, st2@[j] as int, a);
                                    let u = choose|u: DartType| lowers(*cat, callback_type(*cat, st2@[j] as int), u) && depth(u) <= depth(a);
                                    if j < stack@.len() {
                                        assert(st2@[j] == stack@[j]);
                                        assert(blocked(*cat, stack@[j] as int, t));
                                    } else {
                                        assert(st2@[j] == k);
                                        assert(lowers(*cat, callback_type(*cat, k as int), t));
                                        lemma_depth_unique(*cat, callback_type(*cat, k as int), u, t);
                                    }
                                }
                            }
                            return None;
                        },
                    };
                    let t = DartType::Closure(Box::new(DartClosureType { arg_ty, ret_ty: DartReturnType { inner } }));
                    assert(lowers(*cat, *te, t));
                    Some(t)
                },
            }
        },
    }
}

/// The Dart type of what a callable declared with `rd` returns, or `None`
/// as `check_type` decides.
fn check_return(rd: &ReturnDef, cat: &TypeCatalog, stack: &Vec<usize>) -> (res: Option<DartType>)
    requires
        stack_ok(*cat, stack@),
    ensures
        res matches Some(t) ==> return_lowers(*cat, *rd, t),
        res is None ==> forall|t: DartType| return_lowers(*cat, *rd, t) ==> blocked_by(*cat, stack@, t),
    decreases cat.callbacks@.len() - stack@.len(), return_size(*rd), 1nat,
{
    proof {
        lemma_distinct_bound(stack@, cat.callbacks@.len() as int);
    }
    match rd {
        ReturnDef::Void => Some(DartType::Void),
        ReturnDef::Value(ty) => {
            let r = check_type(ty, cat, stack);
            proof {
                if r is None {
                    assert forall|t: DartType| return_lowers(*cat, *rd, t) implies blocked_by(*cat, stack@, t) by {
                        assert(lowers(*cat, *ty, t));
                    }
                }
            }
            r
        },
        ReturnDef::Result { ok, err } => {
            let o = match check_type(ok, cat, stack) {
                Some(o) => o,
                None => {
                    proof {
                        assert forall|t: DartType| return_lowers(*cat, *rd, t) implies blocked_by(*cat, stack@, t) by {
                            assert(lowers(*cat, *ok, *t->Result_ok));
                            lemma_blocked_deeper(*cat, stack@, *t->Result_ok, t);
                        }
                    }
                    return None;
                },
            };
            let e = if let TypeExpr::String = err {
                DartType::Record(String::from_str("$$BoltException"))
            } else {
                match check_type(err, cat, stack) {
                    Some(e) => e,
                    None => {
                        proof {
                            assert forall|t: DartType| return_lowers(*cat, *rd, t) implies blocked_by(*cat, stack@, t) by {
                                assert(err_lowers(*cat, *err, *t->Result_err));
                                assert(lowers(*cat, *err, *t->Result_err));
                                lemma_blocked_deeper(*cat, stack@, *t->Result_err, t);
                            }
                        }
                        return None;
                    },
                }
            };
            Some(DartType::Result { ok: Box::new(o), err: Box::new(e) })
        },
    }
}

impl DartType {
    /// The Dart type of a Rust type, or `None` exactly where it has none.
    pub fn try_from_type_expr(type_expr: &TypeExpr, type_catalog: &TypeCatalog) -> (res: Option<Self>)
        ensures
            res is Some <==> exists|t: DartType| lowers(*type_catalog, *type_expr, t),
            res matches Some(t) ==> lowers(*type_catalog, *type_expr, t),
    {
        let stack: Vec<usize> = Vec::new();
        let res = check_type(type_expr, type_catalog, &stack);
        proof {
            if res is None {
                assert forall|t: DartType| !lowers(*type_catalog, *type_expr, t) by {
                    if lowers(*type_catalog, *type_expr, t) {
                        assert(blocked_by(*type_catalog, stack@, t));
                    }
                }
            }
        }
        res
    }

    /// The Dart type of what a callable declared with `return_def`
    /// returns, or `None` exactly where it has none.
    pub fn try_from_return_def(return_def: &ReturnDef, type_catalog: &TypeCatalog) -> (res: Option<Self>)
        ensures
            res is Some <==> exists|t: DartType| return_lowers(*type_catalog, *return_def, t),
            res matches Some(t) ==> return_lowers(*type_catalog, *return_def, t),
    {
        let stack: Vec<usize> = Vec::new();
        let res = check_return(return_def, type_catalog, &stack);
        proof {
            if res is None {
                assert forall|t: DartType| !return_lowers(*type_catalog, *return_def, t) by {
                    if return_lowers(*type_catalog, *return_def, t) {
                        assert(blocked_by(*type_catalog, stack@, t));
                    }
                }
            }
        }
        res
    }
}

impl DartFunctionSig {
    /// The Dart signature of a callable, or `None` exactly where one of its
    /// parameters or its return has no Dart type.
    pub fn try_from_params_return_def(params: &[ParamDef], return_def: &ReturnDef, type_catalog: &TypeCatalog) -> (res: Option<Self>)
        ensures
            res is Some <==> (params_lowerable(*type_catalog, params@) && exists|t: DartType| return_lowers(*type_catalog, *return_def, t)),
            res matches Some(s) ==> sig_lowered(*type_catalog, params@, *return_def, s),
    {
        let mut i: usize = 0;
        while i < params.len()
            invariant
                i <= params@.len(),
                forall|j: int| 0 <= j < i ==> exists|t: DartType| lowers(*type_catalog, #[trigger] params@[j].type_expr, t),
            decreases params.len() - i,
        {
            if DartType::try_from_type_expr(&params[i].type_expr, type_catalog).is_none() {
                proof {
                    assert(!(exists|t: DartType| lowers(*type_catalog, params@[i as int].type_expr, t)));
                }
                return None;
            }
            i += 1;
        }
        if DartType::try_from_return_def(return_def, type_catalog).is_none() {
            return None;
        }
        Some(DartFunctionSig::from_params_return_def(params, return_def, type_catalog))
    }
}

} // verus!
