use vstd::prelude::*;

use crate::denote::{denote, lemma_denote_extend, SymExpr};
use crate::func_gen::{BlockId, FuncGenContext, ValueId};
use crate::kind::Kind;
use crate::native_opcall::NativeOpCall;
use crate::physical::ScalarValue;
use crate::registry::{contains_op, resolved_op, OpModel};

verus! {

/// Is this standard operation in the catalog under its canonical
/// signature?
pub open spec fn op_registered_in(regs: Seq<OpModel>, op: NativeOpCall) -> bool {
    &&& contains_op(regs, op.spec_name())
    &&& resolved_op(regs, op.spec_name()).params == op.spec_signature().0
    &&& resolved_op(regs, op.spec_name()).returns == op.spec_signature().1
}

/// A closed expression tree over one function's parameters: binary
/// operations delegated to the standard native routines, references
/// to the columns bound to the function's parameters, and literal
/// constants.
#[derive(Debug)]
pub enum Expr {
    /// A binary operation, delegated to a native routine.
    Binary { op: NativeOpCall, lhs: Box<Expr>, rhs: Box<Expr> },
    /// The column bound to parameter `index` of the function.
    ColumnRef { index: usize },
    /// A constant.
    Literal { value: ScalarValue },
}

/// The arithmetic an expression stands for, over the function's
/// parameters.
pub open spec fn sym_of(e: Expr) -> SymExpr
    decreases e,
{
    match e {
        Expr::ColumnRef { index } => SymExpr::Param(index),
        Expr::Literal { value: ScalarValue::Int64(v) } => SymExpr::ConstInt(v),
        Expr::Binary { op, lhs, rhs } => {
            let dl = sym_of(*lhs);
            let dr = sym_of(*rhs);
            match op {
                NativeOpCall::Float64AddWrapping => SymExpr::Add(Box::new(dl), Box::new(dr)),
                NativeOpCall::Float64DivWrapping => SymExpr::Div(Box::new(dl), Box::new(dr)),
                NativeOpCall::Float64Lt => SymExpr::Lt(Box::new(dl), Box::new(dr)),
            }
        },
    }
}

/// The kind of the value an expression lowers to.
pub open spec fn out_kind_of(e: Expr) -> Kind {
    match e {
        Expr::ColumnRef { .. } => Kind::F64,
        Expr::Literal { .. } => Kind::I64,
        Expr::Binary { op, .. } => match op {
            NativeOpCall::Float64Lt => Kind::I8,
            _ => Kind::F64,
        },
    }
}

/// How many instructions lowering an expression appends — equally,
/// how many fresh values it defines: one per literal and per binary
/// operation, none for a column reference, which reuses the
/// function's parameter value.
pub open spec fn gen_op_count(e: Expr) -> int
    decreases e,
{
    match e {
        Expr::ColumnRef { .. } => 0,
        Expr::Literal { .. } => 1,
        Expr::Binary { lhs, rhs, .. } => gen_op_count(*lhs) + gen_op_count(*rhs) + 1,
    }
}

/// May the expression be lowered against these function parameter
/// kinds and this catalog?  Column references must hit 64-bit float
/// parameters, every operation must be registered under its canonical
/// signature, and operands must produce 64-bit floats.
pub open spec fn expr_wf(e: Expr, param_kinds: Seq<Kind>, regs: Seq<OpModel>) -> bool
    decreases e,
{
    match e {
        Expr::ColumnRef { index } => index < param_kinds.len() && param_kinds[index as int]
            is F64,
        Expr::Literal { .. } => true,
        Expr::Binary { op, lhs, rhs } => {
            &&& expr_wf(*lhs, param_kinds, regs)
            &&& expr_wf(*rhs, param_kinds, regs)
            &&& op_registered_in(regs, op)
            &&& out_kind_of(*lhs) is F64
            &&& out_kind_of(*rhs) is F64
        },
    }
}

/// The contract every expression-tree node obeys to lower itself
/// through a function build context: it emits, into the context's
/// active block, exactly the instructions needed to produce its
/// result, and hands that single value back.  It neither finalizes
/// nor seals blocks — the build's driver does — and assumes nothing
/// of the block layout beyond one active block accepting
/// instructions.
pub trait ExprGen {
    /// The arithmetic the node stands for.
    spec fn sym(&self) -> SymExpr;

    /// The kind of the value the node lowers to.
    spec fn out_kind(&self) -> Kind;

    /// May the node be lowered against these parameter kinds and this
    /// catalog?
    spec fn wf_in(&self, param_kinds: Seq<Kind>, regs: Seq<OpModel>) -> bool;

    /// Exactly how many instructions the node's lowering appends, and
    /// equally how many fresh values it defines.
    spec fn op_count(&self) -> int;

    /// Lower the node.  The returned value provably stands for the
    /// node's arithmetic under [`denote`], and the lowering appends
    /// exactly the instructions needed: one per operation of the
    /// node, into the active block alone.
    fn gen(&self, ctx: &mut FuncGenContext) -> (r: ValueId)
        requires
            old(ctx).wf(),
            old(ctx).accepts_insts(),
            old(ctx).blocks@.len() > 0,
            self.wf_in(old(ctx).blocks@[0].param_kinds@, old(ctx).registry@),
        ensures
            final(ctx).wf(),
            final(ctx).accepts_insts(),
            FuncGenContext::extends_current_only(*old(ctx), *final(ctx)),
            final(ctx).cur_insts().len() == old(ctx).cur_insts().len() + self.op_count(),
            final(ctx).values@.len() == old(ctx).values@.len() + self.op_count(),
            r.0 < final(ctx).values@.len(),
            final(ctx).val_kind(r) == self.out_kind(),
            denote(final(ctx).values@, r.0 as int) == self.sym(),
    ;
}

impl ExprGen for Expr {
    open spec fn sym(&self) -> SymExpr {
        sym_of(*self)
    }

    open spec fn out_kind(&self) -> Kind {
        out_kind_of(*self)
    }

    open spec fn wf_in(&self, param_kinds: Seq<Kind>, regs: Seq<OpModel>) -> bool {
        expr_wf(*self, param_kinds, regs)
    }

    open spec fn op_count(&self) -> int {
        gen_op_count(*self)
    }

    fn gen(&self, ctx: &mut FuncGenContext) -> (r: ValueId) {
        gen_expr(self, ctx)
    }
}

impl Expr {
    /// The kind of the value this expression lowers to.
    pub fn output_kind(&self) -> (r: Kind)
        ensures
            r == out_kind_of(*self),
    {
        match self {
            Expr::ColumnRef { .. } => Kind::F64,
            Expr::Literal { .. } => Kind::I64,
            Expr::Binary { op, .. } => match op {
                NativeOpCall::Float64Lt => Kind::I8,
                _ => Kind::F64,
            },
        }
    }
}

/// Compile one expression tree into a function of `n_params` 64-bit
/// float parameters that returns the tree's value: declare the
/// function, lower the tree into its entry block through the
/// [`ExprGen`] capability, and finalize the body.  The function's
/// single return value provably stands for the tree's arithmetic.
pub fn compile_expr(
    ctx: &mut crate::gen_ctx::CodegenContext,
    name: &str,
    n_params: usize,
    expr: &Expr,
) -> (r: Result<crate::func_gen::FunctionSpec, crate::error::BuildError>)
    requires
        old(ctx).wf(),
        expr_wf(*expr, Seq::new(n_params as nat, |i: int| Kind::F64), old(ctx).registry@),
    ensures
        final(ctx).wf(),
        final(ctx).registry@ == old(ctx).registry@,
        crate::gen_ctx::has_declared(old(ctx).declared@, name@) ==> r is Err
            && final(ctx).declared@ == old(ctx).declared@,
        !crate::gen_ctx::has_declared(old(ctx).declared@, name@) ==> final(ctx).declared@.len()
            == old(ctx).declared@.len() + 1 && (forall|i: int|
            0 <= i < old(ctx).declared@.len() ==> #[trigger] final(ctx).declared@[i]
                == old(ctx).declared@[i]) && final(ctx).declared@.last()@ == name@,
        !crate::gen_ctx::has_declared(old(ctx).declared@, name@) ==> (r matches Ok(f) && {
            &&& f.wf()
            &&& f.all_sealed()
            &&& f.all_terminated()
            &&& f.name@ == name@
            &&& f.sig@.params == Seq::new(n_params as nat, |i: int| Kind::F64)
            &&& f.sig@.returns == seq![out_kind_of(*expr)]
            &&& f.blocks@.len() == 1
            &&& (f.blocks@[0].insts@.last() matches crate::func_gen::Inst::Return { values: vs }
                && vs@.len() == 1 && denote(f.values@, vs@[0].0 as int) == sym_of(*expr))
        }),
{
    let mut params: Vec<Kind> = Vec::new();
    let mut i: usize = 0;
    while i < n_params
        invariant
            i <= n_params,
            params@.len() == i,
            forall|j: int| 0 <= j < i ==> #[trigger] params@[j] == Kind::F64,
        decreases n_params - i,
    {
        params.push(Kind::F64);
        i += 1;
    }
    proof {
        assert(params@ =~= Seq::new(n_params as nat, |j: int| Kind::F64));
    }
    let mut rets: Vec<Kind> = Vec::new();
    rets.push(expr.output_kind());
    proof {
        assert(rets@ =~= seq![out_kind_of(*expr)]);
    }
    let mut func_ctx = match ctx.create_func_gen_ctx(name, params, rets) {
        Ok(f) => f,
        Err(e) => {
            return Err(e);
        },
    };
    let entry = func_ctx.create_block();
    func_ctx.switch_to_block(entry);
    func_ctx.append_block_params_for_function_params(entry);
    let value = expr.gen(&mut func_ctx);
    let mut results: Vec<ValueId> = Vec::new();
    results.push(value);
    proof {
        assert(results@ =~= seq![value]);
    }
    let f = func_ctx.finalize(results);
    proof {
        assert(f.blocks@[0].insts@.last() matches crate::func_gen::Inst::Return { values: vs }
            && vs@.len() == 1 && vs@[0] == value);
    }
    Ok(f)
}

/// Lower one expression node; see [`ExprGen::gen`] for the contract.
fn gen_expr(e: &Expr, ctx: &mut FuncGenContext) -> (r: ValueId)
    requires
        old(ctx).wf(),
        old(ctx).accepts_insts(),
        old(ctx).blocks@.len() > 0,
        expr_wf(*e, old(ctx).blocks@[0].param_kinds@, old(ctx).registry@),
    ensures
        final(ctx).wf(),
        final(ctx).accepts_insts(),
        FuncGenContext::extends_current_only(*old(ctx), *final(ctx)),
        final(ctx).cur_insts().len() == old(ctx).cur_insts().len() + gen_op_count(*e),
        final(ctx).values@.len() == old(ctx).values@.len() + gen_op_count(*e),
        r.0 < final(ctx).values@.len(),
        final(ctx).val_kind(r) == out_kind_of(*e),
        denote(final(ctx).values@, r.0 as int) == sym_of(*e),
    decreases *e,
{
    match e {
        Expr::ColumnRef { index } => {
            let ps = ctx.block_params(BlockId(0));
            let r = ps[*index];
            proof {
                assert(crate::func_gen::block_param_ok(
                    ctx.blocks@,
                    ctx.values@,
                    0,
                    *index as int,
                ));
                assert(denote(ctx.values@, r.0 as int) == SymExpr::Param(*index)) by {
                    reveal_with_fuel(denote, 1);
                }
                assert(ctx.blocks@[old(ctx).cur_idx()].insts@.is_prefix_of(
                    ctx.blocks@[old(ctx).cur_idx()].insts@,
                ));
            }
            r
        },
        Expr::Literal { value } => {
            let imm: i64 = match value {
                ScalarValue::Int64(v) => *v,
            };
            let r = ctx.iconst(Kind::I64, imm);
            proof {
                assert(denote(ctx.values@, r.0 as int) == SymExpr::ConstInt(imm)) by {
                    reveal_with_fuel(denote, 1);
                }
                assert(old(ctx).blocks@[old(ctx).cur_idx()].insts@.is_prefix_of(
                    ctx.blocks@[old(ctx).cur_idx()].insts@,
                ));
            }
            r
        },
        Expr::Binary { op, lhs, rhs } => {
            let lv = gen_expr(lhs, ctx);
            let ghost mid = *ctx;
            let rv = gen_expr(rhs, ctx);
            let ghost mid2 = *ctx;
            proof {
                assert(ctx.val_kind(lv) is F64) by {
                    assert(mid.val_kind(lv) == out_kind_of(*(*lhs)));
                    assert(ctx.values@[lv.0 as int] == mid.values@[lv.0 as int]);
                }
            }
            let r = match op {
                NativeOpCall::Float64AddWrapping => ctx.call_f64_add_wrapping(lv, rv),
                NativeOpCall::Float64DivWrapping => ctx.call_f64_div_wrapping(lv, rv),
                NativeOpCall::Float64Lt => ctx.call_f64_lt(lv, rv),
            };
            proof {
                lemma_denote_extend(mid.values@, mid2.values@, lv.0 as int);
                lemma_denote_extend(mid2.values@, ctx.values@, lv.0 as int);
                lemma_denote_extend(mid2.values@, ctx.values@, rv.0 as int);
                crate::native_opcall::lemma_opcall_names_distinct();
                assert(denote(ctx.values@, r.0 as int) == sym_of(*e)) by {
                    reveal_with_fuel(denote, 2);
                    assert(crate::func_gen::is_call_def(
                        ctx.values@[r.0 as int].def,
                        op.spec_name(),
                        seq![lv, rv],
                    ));
                }
                assert(old(ctx).blocks@[old(ctx).cur_idx()].insts@.is_prefix_of(
                    ctx.blocks@[old(ctx).cur_idx()].insts@,
                ));
            }
            r
        },
    }
}

} // verus!
