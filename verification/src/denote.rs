use vstd::prelude::*;

use crate::func_gen::{def_refs_ok, values_wf, BinOp, FunctionSpec, ValueDef, ValueId, ValueInfo};
use crate::native_opcall::NativeOpCall;

verus! {

/// The arithmetic a value of a function stands for, read off its
/// definition chain.  Block parameters appear as `Param` with their
/// block-local position; memory reads appear as `LoadAt` over the
/// address expression; anything the reading does not cover is
/// `Opaque`.
#[derive(Debug)]
pub enum SymExpr {
    /// Parameter `i` of the block the value chain starts from.
    Param(usize),
    /// An integer constant.
    ConstInt(i64),
    /// Floating addition, whether lowered inline or as a native call.
    Add(Box<SymExpr>, Box<SymExpr>),
    /// Floating division, whether lowered inline or as a native call.
    Div(Box<SymExpr>, Box<SymExpr>),
    /// Floating `<`, whether lowered inline or as a native call.
    Lt(Box<SymExpr>, Box<SymExpr>),
    /// Every lane filled with the operand.
    Splat(Box<SymExpr>),
    /// The value read from memory at the operand address.
    LoadAt(Box<SymExpr>),
    /// Not covered by this reading.
    Opaque,
}

/// The symbolic expression value `v` of the table stands for.
pub open spec fn denote(vals: Seq<ValueInfo>, v: int) -> SymExpr
    decreases v,
{
    if 0 <= v < vals.len() && def_refs_ok(v, vals[v].def) {
        match vals[v].def {
            ValueDef::BlockParam { index, .. } => SymExpr::Param(index),
            ValueDef::Iconst { imm } => SymExpr::ConstInt(imm),
            ValueDef::Bin { op, a, b } => {
                let da = denote(vals, a.0 as int);
                let db = denote(vals, b.0 as int);
                match op {
                    BinOp::Fadd => SymExpr::Add(Box::new(da), Box::new(db)),
                    BinOp::Fdiv => SymExpr::Div(Box::new(da), Box::new(db)),
                    BinOp::FcmpLt => SymExpr::Lt(Box::new(da), Box::new(db)),
                    _ => SymExpr::Opaque,
                }
            },
            ValueDef::IaddImm { .. } => SymExpr::Opaque,
            ValueDef::Splat { a } => SymExpr::Splat(Box::new(denote(vals, a.0 as int))),
            ValueDef::Load { addr, .. } => SymExpr::LoadAt(Box::new(denote(vals, addr.0 as int))),
            ValueDef::StackLoad { .. } => SymExpr::Opaque,
            ValueDef::CallNative { name, args } => {
                if args@.len() == 2 {
                    let da = denote(vals, args@[0].0 as int);
                    let db = denote(vals, args@[1].0 as int);
                    if name@ == NativeOpCall::Float64AddWrapping.spec_name() {
                        SymExpr::Add(Box::new(da), Box::new(db))
                    } else if name@ == NativeOpCall::Float64DivWrapping.spec_name() {
                        SymExpr::Div(Box::new(da), Box::new(db))
                    } else if name@ == NativeOpCall::Float64Lt.spec_name() {
                        SymExpr::Lt(Box::new(da), Box::new(db))
                    } else {
                        SymExpr::Opaque
                    }
                } else {
                    SymExpr::Opaque
                }
            },
        }
    } else {
        SymExpr::Opaque
    }
}

/// Extending the value table does not change what the existing values
/// stand for.
pub proof fn lemma_denote_extend(vals1: Seq<ValueInfo>, vals2: Seq<ValueInfo>, v: int)
    requires
        vals1.len() <= vals2.len(),
        forall|i: int| 0 <= i < vals1.len() ==> #[trigger] vals2[i] == vals1[i],
        v < vals1.len(),
    ensures
        denote(vals2, v) == denote(vals1, v),
    decreases v,
{
    if 0 <= v {
        assert(vals2[v] == vals1[v]);
        if def_refs_ok(v, vals1[v].def) {
            match vals1[v].def {
                ValueDef::Bin { a, b, .. } => {
                    lemma_denote_extend(vals1, vals2, a.0 as int);
                    lemma_denote_extend(vals1, vals2, b.0 as int);
                },
                ValueDef::Splat { a } => {
                    lemma_denote_extend(vals1, vals2, a.0 as int);
                },
                ValueDef::Load { addr, .. } => {
                    lemma_denote_extend(vals1, vals2, addr.0 as int);
                },
                ValueDef::CallNative { args, .. } => {
                    if args@.len() == 2 {
                        lemma_denote_extend(vals1, vals2, args@[0].0 as int);
                        lemma_denote_extend(vals1, vals2, args@[1].0 as int);
                    }
                },
                _ => {},
            }
        }
    }
}

impl FunctionSpec {
    /// Read the symbolic expression of one value of the finished
    /// function, as [`denote`] defines it.
    pub fn symbolic_value(&self, v: ValueId) -> (r: SymExpr)
        requires
            values_wf(self.values@),
            v.0 < self.values@.len(),
        ensures
            r == denote(self.values@, v.0 as int),
        decreases v.0,
    {
        proof {
            assert(crate::func_gen::def_wf(self.values@, v.0 as int));
            crate::native_opcall::lemma_opcall_names_distinct();
        }
        match &self.values[v.0].def {
            ValueDef::BlockParam { index, .. } => SymExpr::Param(*index),
            ValueDef::Iconst { imm } => SymExpr::ConstInt(*imm),
            ValueDef::Bin { op, a, b } => {
                let da = self.symbolic_value(*a);
                let db = self.symbolic_value(*b);
                match op {
                    BinOp::Fadd => SymExpr::Add(Box::new(da), Box::new(db)),
                    BinOp::Fdiv => SymExpr::Div(Box::new(da), Box::new(db)),
                    BinOp::FcmpLt => SymExpr::Lt(Box::new(da), Box::new(db)),
                    _ => SymExpr::Opaque,
                }
            },
            ValueDef::IaddImm { .. } => SymExpr::Opaque,
            ValueDef::Splat { a } => SymExpr::Splat(Box::new(self.symbolic_value(*a))),
            ValueDef::Load { addr, .. } => SymExpr::LoadAt(Box::new(self.symbolic_value(*addr))),
            ValueDef::StackLoad { .. } => SymExpr::Opaque,
            ValueDef::CallNative { name, args } => {
                if args.len() == 2 {
                    let da = self.symbolic_value(args[0]);
                    let db = self.symbolic_value(args[1]);
                    match crate::native_opcall::opcall_of_name(name) {
                        Some(NativeOpCall::Float64AddWrapping) => SymExpr::Add(
                            Box::new(da),
                            Box::new(db),
                        ),
                        Some(NativeOpCall::Float64DivWrapping) => SymExpr::Div(
                            Box::new(da),
                            Box::new(db),
                        ),
                        Some(NativeOpCall::Float64Lt) => SymExpr::Lt(Box::new(da), Box::new(db)),
                        None => SymExpr::Opaque,
                    }
                } else {
                    SymExpr::Opaque
                }
            },
        }
    }

    /// The single value the block's closing return instruction hands
    /// back; `None` exactly when the block does not end in a
    /// one-value return.
    pub fn single_return_value(&self, b: usize) -> (r: Option<ValueId>)
        requires
            b < self.blocks@.len(),
        ensures
            match r {
                Some(v) => self.blocks@[b as int].insts@.len() > 0 && match self.blocks@[b as int].insts@.last() {
                    crate::func_gen::Inst::Return { values } => values@.len() == 1 && values@[0]
                        == v,
                    _ => false,
                },
                None => self.blocks@[b as int].insts@.len() == 0 || !(match self.blocks@[b as int].insts@.last() {
                    crate::func_gen::Inst::Return { values } => values@.len() == 1,
                    _ => false,
                }),
            },
    {
        let insts = &self.blocks[b].insts;
        if insts.len() == 0 {
            return None;
        }
        match &insts[insts.len() - 1] {
            crate::func_gen::Inst::Return { values } => {
                if values.len() == 1 {
                    Some(values[0])
                } else {
                    None
                }
            },
            _ => None,
        }
    }
}

} // verus!
