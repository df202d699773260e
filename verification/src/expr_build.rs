use vstd::prelude::*;

use crate::denote::{denote, SymExpr};
use crate::error::BuildError;
use crate::func_gen::{BinOp, FunctionSpec, Inst, ValueDef, ValueId};
use crate::gen_ctx::{has_declared, CodegenContext};
use crate::kind::Kind;
use crate::native_opcall::{lemma_opcall_names_distinct, NativeOpCall};

verus! {

/// The predicate every builder here compiles: `(a + b) / c < d` over
/// the four function parameters.
pub open spec fn predicate_sym() -> SymExpr {
    SymExpr::Lt(
        Box::new(
            SymExpr::Div(
                Box::new(
                    SymExpr::Add(
                        Box::new(SymExpr::Param(0)),
                        Box::new(SymExpr::Param(1)),
                    ),
                ),
                Box::new(SymExpr::Param(2)),
            ),
        ),
        Box::new(SymExpr::Param(3)),
    )
}

/// Compile `(a + b) / c < d` over four 64-bit float parameters into a
/// single-block function whose arithmetic is delegated to the three
/// standard native routines, one import declaration per call site.
///
/// The returned body's single return value provably stands for the
/// predicate: its [`denote`] reading is exactly [`predicate_sym`].
pub fn jit_expr_v1(ctx: &mut CodegenContext) -> (r: Result<FunctionSpec, BuildError>)
    requires
        old(ctx).wf(),
        old(ctx).op_registered(NativeOpCall::Float64AddWrapping),
        old(ctx).op_registered(NativeOpCall::Float64DivWrapping),
        old(ctx).op_registered(NativeOpCall::Float64Lt),
    ensures
        final(ctx).wf(),
        final(ctx).registry@ == old(ctx).registry@,
        has_declared(old(ctx).declared@, "op_v1"@) ==> r is Err && final(ctx).declared@
            == old(ctx).declared@,
        !has_declared(old(ctx).declared@, "op_v1"@) ==> (r matches Ok(f) && {
            &&& f.wf()
            &&& f.all_sealed()
            &&& f.all_terminated()
            &&& f.name@ == "op_v1"@
            &&& final(ctx).declared@.len() == old(ctx).declared@.len() + 1
            &&& forall|i: int|
                0 <= i < old(ctx).declared@.len() ==> #[trigger] final(ctx).declared@[i]
                    == old(ctx).declared@[i]
            &&& final(ctx).declared@.last()@ == "op_v1"@
            &&& f.sig@.params == seq![Kind::F64, Kind::F64, Kind::F64, Kind::F64]
            &&& f.sig@.returns == seq![Kind::I8]
            &&& f.blocks@.len() == 1
            &&& f.func_refs@.len() == 3
            &&& f.func_refs@[0]@ == NativeOpCall::Float64AddWrapping.spec_name()
            &&& f.func_refs@[1]@ == NativeOpCall::Float64DivWrapping.spec_name()
            &&& f.func_refs@[2]@ == NativeOpCall::Float64Lt.spec_name()
            &&& f.values@.len() == 7
            &&& (f.blocks@[0].insts@.last() matches Inst::Return { values: vs } && vs@
                == seq![ValueId(6)])
            &&& denote(f.values@, 6) == predicate_sym()
        }),
{
    let mut params: Vec<Kind> = Vec::new();
    params.push(Kind::F64);
    params.push(Kind::F64);
    params.push(Kind::F64);
    params.push(Kind::F64);
    let mut rets: Vec<Kind> = Vec::new();
    rets.push(Kind::I8);
    proof {
        assert(params@ =~= seq![Kind::F64, Kind::F64, Kind::F64, Kind::F64]);
        assert(rets@ =~= seq![Kind::I8]);
    }
    let mut func_ctx = match ctx.create_func_gen_ctx("op_v1", params, rets) {
        Ok(f) => f,
        Err(e) => {
            return Err(e);
        },
    };

    let entry_block = func_ctx.create_block();
    func_ctx.switch_to_block(entry_block);
    func_ctx.append_block_params_for_function_params(entry_block);

    let ps = func_ctx.block_params(entry_block);
    let lhs = ps[0];
    let rhs = ps[1];
    let sum = func_ctx.call_f64_add_wrapping(lhs, rhs);

    let to_div = ps[2];
    let div_result = func_ctx.call_f64_div_wrapping(sum, to_div);

    let to_lt = ps[3];
    let res = func_ctx.call_f64_lt(div_result, to_lt);

    let mut results: Vec<ValueId> = Vec::new();
    results.push(res);
    proof {
        assert(results@ =~= seq![ValueId(6)]);
    }
    let f = func_ctx.finalize(results);
    proof {
        lemma_opcall_names_distinct();
        assert(denote(f.values@, 6) == predicate_sym()) by {
            reveal_with_fuel(denote, 4);
            assert(f.values@[0].def == (crate::func_gen::ValueDef::BlockParam {
                block: entry_block,
                index: 0,
            }));
            assert(denote(f.values@, 0) == SymExpr::Param(0));
            assert(denote(f.values@, 1) == SymExpr::Param(1));
            assert(denote(f.values@, 2) == SymExpr::Param(2));
            assert(denote(f.values@, 3) == SymExpr::Param(3));
            assert(denote(f.values@, 4) == SymExpr::Add(
                Box::new(SymExpr::Param(0)),
                Box::new(SymExpr::Param(1)),
            ));
            assert(denote(f.values@, 5) == SymExpr::Div(
                Box::new(denote(f.values@, 4)),
                Box::new(SymExpr::Param(2)),
            ));
        }
    }
    Ok(f)
}

/// Compile `(a + b) / c < d` over four 64-bit float parameters into a
/// single-block function lowered to inline floating instructions
/// instead of native calls.
///
/// The returned body's single return value provably stands for the
/// same predicate as [`jit_expr_v1`]'s: its [`denote`] reading is
/// exactly [`predicate_sym`].
pub fn jit_expr_v2(ctx: &mut CodegenContext) -> (r: Result<FunctionSpec, BuildError>)
    requires
        old(ctx).wf(),
    ensures
        final(ctx).wf(),
        final(ctx).registry@ == old(ctx).registry@,
        has_declared(old(ctx).declared@, "op_v2"@) ==> r is Err && final(ctx).declared@
            == old(ctx).declared@,
        !has_declared(old(ctx).declared@, "op_v2"@) ==> (r matches Ok(f) && {
            &&& f.wf()
            &&& f.all_sealed()
            &&& f.all_terminated()
            &&& f.name@ == "op_v2"@
            &&& final(ctx).declared@.len() == old(ctx).declared@.len() + 1
            &&& forall|i: int|
                0 <= i < old(ctx).declared@.len() ==> #[trigger] final(ctx).declared@[i]
                    == old(ctx).declared@[i]
            &&& final(ctx).declared@.last()@ == "op_v2"@
            &&& f.sig@.params == seq![Kind::F64, Kind::F64, Kind::F64, Kind::F64]
            &&& f.sig@.returns == seq![Kind::I8]
            &&& f.blocks@.len() == 1
            &&& f.func_refs@.len() == 0
            &&& f.values@.len() == 7
            &&& (f.blocks@[0].insts@.last() matches Inst::Return { values: vs } && vs@
                == seq![ValueId(6)])
            &&& denote(f.values@, 6) == predicate_sym()
        }),
{
    let mut params: Vec<Kind> = Vec::new();
    params.push(Kind::F64);
    params.push(Kind::F64);
    params.push(Kind::F64);
    params.push(Kind::F64);
    let mut rets: Vec<Kind> = Vec::new();
    rets.push(Kind::I8);
    proof {
        assert(params@ =~= seq![Kind::F64, Kind::F64, Kind::F64, Kind::F64]);
        assert(rets@ =~= seq![Kind::I8]);
    }
    let mut func_ctx = match ctx.create_func_gen_ctx("op_v2", params, rets) {
        Ok(f) => f,
        Err(e) => {
            return Err(e);
        },
    };

    let entry_block = func_ctx.create_block();
    func_ctx.switch_to_block(entry_block);
    func_ctx.append_block_params_for_function_params(entry_block);

    let ps = func_ctx.block_params(entry_block);
    let lhs = ps[0];
    let rhs = ps[1];
    let sum = func_ctx.fadd(lhs, rhs);

    let to_div = ps[2];
    let div_result = func_ctx.fdiv(sum, to_div);

    let to_lt = ps[3];
    let res = func_ctx.fcmp_lt(div_result, to_lt);

    let mut results: Vec<ValueId> = Vec::new();
    results.push(res);
    proof {
        assert(results@ =~= seq![ValueId(6)]);
    }
    let f = func_ctx.finalize(results);
    proof {
        assert(denote(f.values@, 6) == predicate_sym()) by {
            reveal_with_fuel(denote, 4);
            assert(denote(f.values@, 0) == SymExpr::Param(0));
            assert(denote(f.values@, 1) == SymExpr::Param(1));
            assert(denote(f.values@, 2) == SymExpr::Param(2));
            assert(denote(f.values@, 3) == SymExpr::Param(3));
            assert(denote(f.values@, 4) == SymExpr::Add(
                Box::new(SymExpr::Param(0)),
                Box::new(SymExpr::Param(1)),
            ));
            assert(denote(f.values@, 5) == SymExpr::Div(
                Box::new(denote(f.values@, 4)),
                Box::new(SymExpr::Param(2)),
            ));
        }
    }
    Ok(f)
}

/// Two independent compilations of the same logical expression stand
/// for the same arithmetic: any two bodies whose return values read as
/// the predicate agree in their symbolic meaning, whatever entry
/// addresses an embedder later assigns them.  This holds in particular
/// for the native-call lowering of [`jit_expr_v1`] and the inline
/// lowering of [`jit_expr_v2`].
pub proof fn lemma_independent_compilations_agree(
    f1: FunctionSpec,
    f2: FunctionSpec,
    v1: ValueId,
    v2: ValueId,
)
    requires
        denote(f1.values@, v1.0 as int) == predicate_sym(),
        denote(f2.values@, v2.0 as int) == predicate_sym(),
    ensures
        denote(f1.values@, v1.0 as int) == denote(f2.values@, v2.0 as int),
{
}

/// Compile an indexed 64-bit float read: the function takes a base
/// pointer and an element index and returns the element, addressed at
/// eight bytes per element.  The body is the exact instruction
/// sequence stated in the contract: scale, advance, load, return.
pub fn jit_index_f64(ctx: &mut CodegenContext) -> (r: Result<FunctionSpec, BuildError>)
    requires
        old(ctx).wf(),
    ensures
        final(ctx).wf(),
        final(ctx).registry@ == old(ctx).registry@,
        has_declared(old(ctx).declared@, "op_test"@) ==> r is Err && final(ctx).declared@
            == old(ctx).declared@,
        !has_declared(old(ctx).declared@, "op_test"@) ==> (r matches Ok(f) && {
            &&& f.wf()
            &&& f.all_sealed()
            &&& f.all_terminated()
            &&& f.name@ == "op_test"@
            &&& final(ctx).declared@.len() == old(ctx).declared@.len() + 1
            &&& forall|i: int|
                0 <= i < old(ctx).declared@.len() ==> #[trigger] final(ctx).declared@[i]
                    == old(ctx).declared@[i]
            &&& final(ctx).declared@.last()@ == "op_test"@
            &&& f.sig@.params == seq![Kind::Ptr, Kind::I64]
            &&& f.sig@.returns == seq![Kind::F64]
            &&& f.blocks@.len() == 1
            &&& f.values@.len() == 6
            &&& f.blocks@[0].insts@.len() == 5
            &&& f.blocks@[0].insts@[0] == (Inst::Iconst {
                kind: Kind::I64,
                imm: 8,
                result: ValueId(2),
            })
            &&& f.blocks@[0].insts@[1] == (Inst::Bin {
                op: crate::func_gen::BinOp::Imul,
                a: ValueId(1),
                b: ValueId(2),
                result: ValueId(3),
            })
            &&& f.blocks@[0].insts@[2] == (Inst::Bin {
                op: crate::func_gen::BinOp::Iadd,
                a: ValueId(0),
                b: ValueId(3),
                result: ValueId(4),
            })
            &&& f.blocks@[0].insts@[3] == (Inst::Load {
                kind: Kind::F64,
                addr: ValueId(4),
                offset: 0,
                result: ValueId(5),
            })
            &&& (f.blocks@[0].insts@.last() matches Inst::Return { values: vs } && vs@
                == seq![ValueId(5)])
        }),
{
    let mut params: Vec<Kind> = Vec::new();
    params.push(ctx.ptype());
    params.push(Kind::I64);
    let mut rets: Vec<Kind> = Vec::new();
    rets.push(Kind::F64);
    proof {
        assert(params@ =~= seq![Kind::Ptr, Kind::I64]);
        assert(rets@ =~= seq![Kind::F64]);
    }
    let mut func_ctx = match ctx.create_func_gen_ctx("op_test", params, rets) {
        Ok(f) => f,
        Err(e) => {
            return Err(e);
        },
    };

    let entry_block = func_ctx.create_block();
    func_ctx.switch_to_block(entry_block);
    func_ctx.append_block_params_for_function_params(entry_block);

    let ps = func_ctx.block_params(entry_block);
    let array_ref = ps[0];
    let index = ps[1];
    let bits = func_ctx.iconst(Kind::I64, Kind::I64.bytes() as i64);
    let index_scaled = func_ctx.imul(index, bits);
    let elem_ref = func_ctx.iadd(array_ref, index_scaled);
    let value = func_ctx.load(Kind::F64, elem_ref, 0);

    let mut results: Vec<ValueId> = Vec::new();
    results.push(value);
    proof {
        assert(results@ =~= seq![ValueId(5)]);
    }
    let f = func_ctx.finalize(results);
    Ok(f)
}

/// Compile a two-pointer forwarder: a function that calls the
/// registered routine named `add` on its two pointer parameters and
/// returns the pointer the routine hands back.  The unit must have
/// `add` registered as pointer-to-pointer binary routine.
pub fn compile_add_call(ctx: &mut CodegenContext) -> (r: Result<FunctionSpec, BuildError>)
    requires
        old(ctx).wf(),
        crate::registry::contains_op(old(ctx).registry@, "add"@),
        crate::registry::resolved_op(old(ctx).registry@, "add"@).params == seq![
            Kind::Ptr,
            Kind::Ptr,
        ],
        crate::registry::resolved_op(old(ctx).registry@, "add"@).returns == seq![Kind::Ptr],
    ensures
        final(ctx).wf(),
        final(ctx).registry@ == old(ctx).registry@,
        has_declared(old(ctx).declared@, "call"@) ==> r is Err && final(ctx).declared@
            == old(ctx).declared@,
        !has_declared(old(ctx).declared@, "call"@) ==> (r matches Ok(f) && {
            &&& f.wf()
            &&& f.all_sealed()
            &&& f.all_terminated()
            &&& f.name@ == "call"@
            &&& final(ctx).declared@.len() == old(ctx).declared@.len() + 1
            &&& forall|i: int|
                0 <= i < old(ctx).declared@.len() ==> #[trigger] final(ctx).declared@[i]
                    == old(ctx).declared@[i]
            &&& final(ctx).declared@.last()@ == "call"@
            &&& f.sig@.params == seq![Kind::Ptr, Kind::Ptr]
            &&& f.sig@.returns == seq![Kind::Ptr]
            &&& f.blocks@.len() == 1
            &&& f.func_refs@.len() == 1
            &&& f.func_refs@[0]@ == "add"@
            &&& f.blocks@[0].insts@.len() == 2
            &&& crate::func_gen::is_call_inst(
                f.blocks@[0].insts@[0],
                0,
                seq![ValueId(0), ValueId(1)],
                ValueId(2),
            )
            &&& (f.blocks@[0].insts@.last() matches Inst::Return { values: vs } && vs@
                == seq![ValueId(2)])
        }),
{
    let mut params: Vec<Kind> = Vec::new();
    params.push(ctx.ptype());
    params.push(ctx.ptype());
    let mut rets: Vec<Kind> = Vec::new();
    rets.push(ctx.ptype());
    proof {
        assert(params@ =~= seq![Kind::Ptr, Kind::Ptr]);
        assert(rets@ =~= seq![Kind::Ptr]);
    }
    let mut func_ctx = match ctx.create_func_gen_ctx("call", params, rets) {
        Ok(f) => f,
        Err(e) => {
            return Err(e);
        },
    };

    let entry_block = func_ctx.create_block();
    func_ctx.switch_to_block(entry_block);
    func_ctx.append_block_params_for_function_params(entry_block);

    let ps = func_ctx.block_params(entry_block);
    let lhs = ps[0];
    let rhs = ps[1];
    let mut args: Vec<ValueId> = Vec::new();
    args.push(lhs);
    args.push(rhs);
    proof {
        assert(args@ =~= seq![ValueId(0), ValueId(1)]);
    }
    let add_name: String = "add".to_owned();
    let value = match func_ctx.emit_native_call(&add_name, args) {
        Ok(v) => v,
        Err(_) => {
            proof {
                assert(false);
            }
            ValueId(0)
        },
    };

    let mut results: Vec<ValueId> = Vec::new();
    results.push(value);
    proof {
        assert(results@ =~= seq![ValueId(2)]);
    }
    let f = func_ctx.finalize(results);
    Ok(f)
}

/// What one loop iteration of the vectorized predicate computes, in
/// terms of the loop body's own block parameters: parameters 0 and 1
/// are the left and right element pointers, 3 and 4 the broadcast
/// divisor and bound vectors.
pub open spec fn lane_sym() -> SymExpr {
    SymExpr::Lt(
        Box::new(
            SymExpr::Div(
                Box::new(
                    SymExpr::Add(
                        Box::new(SymExpr::LoadAt(Box::new(SymExpr::Param(0)))),
                        Box::new(SymExpr::LoadAt(Box::new(SymExpr::Param(1)))),
                    ),
                ),
                Box::new(SymExpr::Param(3)),
            ),
        ),
        Box::new(SymExpr::Param(4)),
    )
}

/// Map a vectorized loop-body expression onto the scalar predicate it
/// processes lane-wise: a load through pointer parameter 0 or 1 is
/// that element itself, and a broadcast scalar parameter `i` of the
/// body (which follows the three pointers) is scalar parameter
/// `i - 1` (which follows two operand parameters).
pub open spec fn scalar_counterpart(e: SymExpr) -> SymExpr
    decreases e,
{
    match e {
        SymExpr::LoadAt(a) => match *a {
            SymExpr::Param(i) => SymExpr::Param(i),
            _ => SymExpr::Opaque,
        },
        SymExpr::Param(i) => if i >= 1 {
            SymExpr::Param((i - 1) as usize)
        } else {
            SymExpr::Opaque
        },
        SymExpr::Add(a, b) => SymExpr::Add(
            Box::new(scalar_counterpart(*a)),
            Box::new(scalar_counterpart(*b)),
        ),
        SymExpr::Div(a, b) => SymExpr::Div(
            Box::new(scalar_counterpart(*a)),
            Box::new(scalar_counterpart(*b)),
        ),
        SymExpr::Lt(a, b) => SymExpr::Lt(
            Box::new(scalar_counterpart(*a)),
            Box::new(scalar_counterpart(*b)),
        ),
        _ => SymExpr::Opaque,
    }
}

/// Each lane of the vectorized loop body computes exactly the scalar
/// predicate: mapping the lane expression onto its scalar counterpart
/// gives the expression the scalar compilations return.  Together with
/// the contracts of [`jit_expr_v1`] and [`jit_expr_v3`], a compiled
/// vectorized run over buffers whose length is a multiple of the
/// vector width computes, element-wise, what the scalar function
/// computes.
pub proof fn lemma_vector_lane_matches_scalar()
    ensures
        scalar_counterpart(lane_sym()) == predicate_sym(),
{
    reveal_with_fuel(scalar_counterpart, 5);
}

/// Compile the vectorized predicate `(a + b) / c < d` over two 64-bit
/// float buffers and two broadcast scalars.  The function takes the
/// left, right and result base pointers, the two scalars, the loop
/// index and the loop bound; its body block processes one two-lane
/// vector per iteration — load two vectors, add, divide by the
/// broadcast divisor, compare against the broadcast bound, store the
/// two boolean lanes — then advances each pointer by the vector's
/// byte width, increments the index, and re-enters itself until the
/// bound is reached.  No scalar epilogue exists: the caller must
/// guarantee the element count is an exact multiple of the vector
/// width.
#[verifier::rlimit(100)]
pub fn jit_expr_v3(ctx: &mut CodegenContext) -> (r: Result<FunctionSpec, BuildError>)
    requires
        old(ctx).wf(),
    ensures
        final(ctx).wf(),
        final(ctx).registry@ == old(ctx).registry@,
        has_declared(old(ctx).declared@, "op_v3"@) ==> r is Err && final(ctx).declared@
            == old(ctx).declared@,
        !has_declared(old(ctx).declared@, "op_v3"@) ==> (r matches Ok(f) && {
            &&& f.wf()
            &&& f.all_sealed()
            &&& f.all_terminated()
            &&& f.name@ == "op_v3"@
            &&& final(ctx).declared@.len() == old(ctx).declared@.len() + 1
            &&& forall|i: int|
                0 <= i < old(ctx).declared@.len() ==> #[trigger] final(ctx).declared@[i]
                    == old(ctx).declared@[i]
            &&& final(ctx).declared@.last()@ == "op_v3"@
            &&& f.sig@.params == seq![
                Kind::Ptr,
                Kind::Ptr,
                Kind::Ptr,
                Kind::F64,
                Kind::F64,
                Kind::I64,
                Kind::I64,
            ]
            &&& f.sig@.returns == Seq::<Kind>::empty()
            &&& f.blocks@.len() == 3
            &&& f.blocks@[1].param_kinds@ == seq![
                Kind::Ptr,
                Kind::Ptr,
                Kind::Ptr,
                Kind::F64X2,
                Kind::F64X2,
                Kind::I64,
                Kind::I64,
            ]
            &&& f.values@.len() == 28
            // The entry block broadcasts the two scalars and hands all
            // loop state to the body block; it holds nothing else.
            &&& f.blocks@[0].insts@.len() == 3
            &&& f.blocks@[0].insts@[0] == (Inst::Splat {
                kind: Kind::F64X2,
                a: ValueId(3),
                result: ValueId(7),
            })
            &&& f.blocks@[0].insts@[1] == (Inst::Splat {
                kind: Kind::F64X2,
                a: ValueId(4),
                result: ValueId(8),
            })
            &&& (f.blocks@[0].insts@.last() matches Inst::Jump { target, args } && target
                == crate::func_gen::BlockId(1) && args@ == seq![
                ValueId(0),
                ValueId(1),
                ValueId(2),
                ValueId(7),
                ValueId(8),
                ValueId(5),
                ValueId(6),
            ])
            &&& denote(f.values@, 7) == SymExpr::Splat(Box::new(SymExpr::Param(3)))
            &&& denote(f.values@, 8) == SymExpr::Splat(Box::new(SymExpr::Param(4)))
            // One iteration computes the lane expression and stores it
            // through the result pointer parameter — the body's one
            // and only store.
            &&& denote(f.values@, 20) == lane_sym()
            &&& f.blocks@[1].insts@.len() == 14
            &&& f.blocks@[1].insts@[0] == (Inst::Load {
                kind: Kind::F64X2,
                addr: ValueId(9),
                offset: 0,
                result: ValueId(16),
            })
            &&& f.blocks@[1].insts@[1] == (Inst::Load {
                kind: Kind::F64X2,
                addr: ValueId(10),
                offset: 0,
                result: ValueId(17),
            })
            &&& f.blocks@[1].insts@[2] == (Inst::Bin {
                op: BinOp::Fadd,
                a: ValueId(16),
                b: ValueId(17),
                result: ValueId(18),
            })
            &&& f.blocks@[1].insts@[3] == (Inst::Bin {
                op: BinOp::Fdiv,
                a: ValueId(18),
                b: ValueId(12),
                result: ValueId(19),
            })
            &&& f.blocks@[1].insts@[4] == (Inst::Bin {
                op: BinOp::FcmpLt,
                a: ValueId(19),
                b: ValueId(13),
                result: ValueId(20),
            })
            &&& f.blocks@[1].insts@[5] == (Inst::Store {
                value: ValueId(20),
                addr: ValueId(11),
                offset: 0,
            })
            // The loop stepping: both input pointers advance by the
            // 16-byte vector width, the result pointer by the 2-byte
            // width of two boolean lanes, and the index rises by one.
            &&& f.blocks@[1].insts@[6] == (Inst::Iconst {
                kind: Kind::I64,
                imm: 16,
                result: ValueId(21),
            })
            &&& f.blocks@[1].insts@[7] == (Inst::Iconst {
                kind: Kind::I64,
                imm: 2,
                result: ValueId(22),
            })
            &&& f.blocks@[1].insts@[8] == (Inst::Bin {
                op: BinOp::Iadd,
                a: ValueId(21),
                b: ValueId(9),
                result: ValueId(23),
            })
            &&& f.blocks@[1].insts@[9] == (Inst::Bin {
                op: BinOp::Iadd,
                a: ValueId(21),
                b: ValueId(10),
                result: ValueId(24),
            })
            &&& f.blocks@[1].insts@[10] == (Inst::Bin {
                op: BinOp::Iadd,
                a: ValueId(22),
                b: ValueId(11),
                result: ValueId(25),
            })
            &&& f.blocks@[1].insts@[11] == (Inst::IaddImm {
                a: ValueId(14),
                imm: 1,
                result: ValueId(26),
            })
            &&& f.blocks@[1].insts@[12] == (Inst::Bin {
                op: BinOp::IcmpSlt,
                a: ValueId(26),
                b: ValueId(15),
                result: ValueId(27),
            })
            &&& f.values@[21].kind == Kind::I64 && f.values@[21].def == (ValueDef::Iconst {
                imm: 16,
            })
            &&& f.values@[22].kind == Kind::I64 && f.values@[22].def == (ValueDef::Iconst {
                imm: 2,
            })
            &&& f.values@[23].kind == Kind::Ptr && f.values@[23].def == (ValueDef::Bin {
                op: BinOp::Iadd,
                a: ValueId(21),
                b: ValueId(9),
            })
            &&& f.values@[24].kind == Kind::Ptr && f.values@[24].def == (ValueDef::Bin {
                op: BinOp::Iadd,
                a: ValueId(21),
                b: ValueId(10),
            })
            &&& f.values@[25].kind == Kind::Ptr && f.values@[25].def == (ValueDef::Bin {
                op: BinOp::Iadd,
                a: ValueId(22),
                b: ValueId(11),
            })
            &&& f.values@[26].kind == Kind::I64 && f.values@[26].def == (ValueDef::IaddImm {
                a: ValueId(14),
                imm: 1,
            })
            &&& f.values@[27].kind == Kind::I8 && f.values@[27].def == (ValueDef::Bin {
                op: BinOp::IcmpSlt,
                a: ValueId(26),
                b: ValueId(15),
            })
            // The loop re-enters its body exactly when the risen index
            // is still below the bound, with the advanced pointers and
            // the unchanged broadcasts and bound, and otherwise falls
            // through to the exit block, which only returns.
            &&& (f.blocks@[1].insts@.last() matches Inst::Brif {
                cond,
                then_target,
                then_args,
                else_target,
                else_args,
            } && cond == ValueId(27) && then_target == crate::func_gen::BlockId(1) && then_args@
                == seq![
                ValueId(23),
                ValueId(24),
                ValueId(25),
                ValueId(12),
                ValueId(13),
                ValueId(26),
                ValueId(15),
            ] && else_target == crate::func_gen::BlockId(2) && else_args@
                == Seq::<ValueId>::empty())
            &&& f.blocks@[2].insts@.len() == 1
            &&& (f.blocks@[2].insts@.last() matches Inst::Return { values: vs } && vs@
                == Seq::<ValueId>::empty())
        }),
{
    let mut params: Vec<Kind> = Vec::new();
    params.push(ctx.ptype());
    params.push(ctx.ptype());
    params.push(ctx.ptype());
    params.push(Kind::F64);
    params.push(Kind::F64);
    params.push(Kind::I64);
    params.push(Kind::I64);
    let rets: Vec<Kind> = Vec::new();
    proof {
        assert(params@ =~= seq![
            Kind::Ptr,
            Kind::Ptr,
            Kind::Ptr,
            Kind::F64,
            Kind::F64,
            Kind::I64,
            Kind::I64,
        ]);
        assert(rets@ =~= Seq::<Kind>::empty());
    }
    let mut func_ctx = match ctx.create_func_gen_ctx("op_v3", params, rets) {
        Ok(f) => f,
        Err(e) => {
            return Err(e);
        },
    };
    let data_type = Kind::F64X2;
    let result_type = Kind::I8X2;

    let entry_block = func_ctx.create_block();
    let body_block = func_ctx.create_block();
    let exit_block = func_ctx.create_block();

    func_ctx.switch_to_block(entry_block);
    func_ctx.append_block_params_for_function_params(entry_block);
    let ps = func_ctx.block_params(entry_block);
    let p1 = ps[0];
    let p2 = ps[1];
    let p3 = ps[2];
    let p4 = ps[3];
    let p5 = ps[4];
    let p6 = ps[5];
    let p7 = ps[6];

    let p4s = func_ctx.splat(data_type, p4);
    let p5s = func_ctx.splat(data_type, p5);

    func_ctx.append_block_param(body_block, func_ctx.ptype);
    func_ctx.append_block_param(body_block, func_ctx.ptype);
    func_ctx.append_block_param(body_block, func_ctx.ptype);
    func_ctx.append_block_param(body_block, Kind::F64X2);
    func_ctx.append_block_param(body_block, Kind::F64X2);
    func_ctx.append_block_param(body_block, Kind::I64);
    func_ctx.append_block_param(body_block, Kind::I64);

    let mut jump_args: Vec<ValueId> = Vec::new();
    jump_args.push(p1);
    jump_args.push(p2);
    jump_args.push(p3);
    jump_args.push(p4s);
    jump_args.push(p5s);
    jump_args.push(p6);
    jump_args.push(p7);
    proof {
        assert(jump_args@ =~= seq![
            ValueId(0),
            ValueId(1),
            ValueId(2),
            ValueId(7),
            ValueId(8),
            ValueId(5),
            ValueId(6),
        ]);
        assert(func_ctx.blocks@[1].param_kinds@ =~= seq![
            Kind::Ptr,
            Kind::Ptr,
            Kind::Ptr,
            Kind::F64X2,
            Kind::F64X2,
            Kind::I64,
            Kind::I64,
        ]);
    }
    func_ctx.jump(body_block, jump_args);
    func_ctx.seal_block(entry_block);

    func_ctx.switch_to_block(body_block);
    let bps = func_ctx.block_params(body_block);
    let lhs_ref = bps[0];
    let rhs_ref = bps[1];
    let result_ref = bps[2];
    let to_div = bps[3];
    let to_lt = bps[4];
    let start = bps[5];
    let end = bps[6];

    let lhs = func_ctx.load(data_type, lhs_ref, 0);
    let rhs = func_ctx.load(data_type, rhs_ref, 0);
    let sum = func_ctx.fadd(lhs, rhs);
    let div_result = func_ctx.fdiv(sum, to_div);
    let result = func_ctx.fcmp_lt(div_result, to_lt);

    func_ctx.store(result, result_ref, 0);

    let offset = func_ctx.iconst(Kind::I64, data_type.bytes() as i64);
    let result_offset = func_ctx.iconst(Kind::I64, result_type.bytes() as i64);

    let next_lhs_ref = func_ctx.iadd(offset, lhs_ref);
    let next_rhs_ref = func_ctx.iadd(offset, rhs_ref);
    let next_result_ref = func_ctx.iadd(result_offset, result_ref);

    let next_start = func_ctx.iadd_imm(start, 1);
    let cond = func_ctx.icmp_slt(next_start, end);

    let mut loop_args: Vec<ValueId> = Vec::new();
    loop_args.push(next_lhs_ref);
    loop_args.push(next_rhs_ref);
    loop_args.push(next_result_ref);
    loop_args.push(to_div);
    loop_args.push(to_lt);
    loop_args.push(next_start);
    loop_args.push(end);
    let exit_args: Vec<ValueId> = Vec::new();
    proof {
        assert(loop_args@ =~= seq![
            ValueId(23),
            ValueId(24),
            ValueId(25),
            ValueId(12),
            ValueId(13),
            ValueId(26),
            ValueId(15),
        ]);
        assert(exit_args@ =~= Seq::<ValueId>::empty());
    }
    func_ctx.brif(cond, body_block, loop_args, exit_block, exit_args);

    func_ctx.switch_to_block(exit_block);
    let results: Vec<ValueId> = Vec::new();
    proof {
        assert(results@ =~= Seq::<ValueId>::empty());
    }
    let f = func_ctx.finalize(results);
    proof {
        assert(denote(f.values@, 7) == SymExpr::Splat(Box::new(SymExpr::Param(3)))
            && denote(f.values@, 8) == SymExpr::Splat(Box::new(SymExpr::Param(4)))) by {
            reveal_with_fuel(denote, 2);
        }
        assert(denote(f.values@, 20) == lane_sym()) by {
            reveal_with_fuel(denote, 5);
            assert(denote(f.values@, 9) == SymExpr::Param(0));
            assert(denote(f.values@, 10) == SymExpr::Param(1));
            assert(denote(f.values@, 12) == SymExpr::Param(3));
            assert(denote(f.values@, 13) == SymExpr::Param(4));
            assert(denote(f.values@, 16) == SymExpr::LoadAt(Box::new(SymExpr::Param(0))));
            assert(denote(f.values@, 17) == SymExpr::LoadAt(Box::new(SymExpr::Param(1))));
            assert(denote(f.values@, 18) == SymExpr::Add(
                Box::new(denote(f.values@, 16)),
                Box::new(denote(f.values@, 17)),
            ));
            assert(denote(f.values@, 19) == SymExpr::Div(
                Box::new(denote(f.values@, 18)),
                Box::new(SymExpr::Param(3)),
            ));
        }
    }
    Ok(f)
}

} // verus!
