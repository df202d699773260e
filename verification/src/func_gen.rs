use vstd::prelude::*;

use crate::error::RegistryError;
use crate::kind::{Kind, Signature};
use crate::native_opcall::NativeOpCall;
use crate::registry::{contains_op, resolved_op, NativeOpCallRegistry};

verus! {

/// Handle of one value inside a function under construction.  Values
/// are numbered in the order they are created: block parameters and
/// instruction results alike.
#[derive(Clone, Copy, Debug, PartialEq, Eq, Structural)]
pub struct ValueId(pub usize);

/// Handle of one basic block of a function under construction.
#[derive(Clone, Copy, Debug, PartialEq, Eq, Structural)]
pub struct BlockId(pub usize);

/// Handle of one declared function of a compilation unit.
#[derive(Clone, Copy, Debug, PartialEq, Eq, Structural)]
pub struct FuncId(pub usize);

/// A two-operand instruction's operator.
#[derive(Clone, Copy, Debug, PartialEq, Eq, Structural)]
pub enum BinOp {
    /// Floating addition, lane-wise on vectors.
    Fadd,
    /// Floating division, lane-wise on vectors.
    Fdiv,
    /// Floating `<`, producing one boolean carrier lane per input lane.
    FcmpLt,
    /// Integer addition.
    Iadd,
    /// Integer multiplication.
    Imul,
    /// Signed integer `<`, producing a boolean carrier.
    IcmpSlt,
}

/// How one value of the function came into being.
#[derive(Clone, Debug)]
pub enum ValueDef {
    /// Parameter `index` of block `block`.
    BlockParam { block: BlockId, index: usize },
    /// Integer constant.
    Iconst { imm: i64 },
    /// Result of a two-operand instruction.
    Bin { op: BinOp, a: ValueId, b: ValueId },
    /// Integer addition of an immediate.
    IaddImm { a: ValueId, imm: i64 },
    /// Every lane filled with the scalar operand.
    Splat { a: ValueId },
    /// Value read from memory at `addr` plus a byte offset.
    Load { addr: ValueId, offset: u32 },
    /// Value read from the scratch stack frame.
    StackLoad { offset: u32 },
    /// Single result of a call to a registered native routine.
    CallNative { name: String, args: Vec<ValueId> },
}

/// One value of the function: its kind and its definition.
#[derive(Clone, Debug)]
pub struct ValueInfo {
    pub kind: Kind,
    pub def: ValueDef,
}

/// One instruction of a block, in emission order.
#[derive(Clone, Debug)]
pub enum Inst {
    Iconst { kind: Kind, imm: i64, result: ValueId },
    Bin { op: BinOp, a: ValueId, b: ValueId, result: ValueId },
    IaddImm { a: ValueId, imm: i64, result: ValueId },
    Splat { kind: Kind, a: ValueId, result: ValueId },
    Load { kind: Kind, addr: ValueId, offset: u32, result: ValueId },
    Store { value: ValueId, addr: ValueId, offset: u32 },
    StackStore { value: ValueId, offset: u32 },
    StackLoad { kind: Kind, offset: u32, result: ValueId },
    /// Call through import declaration `func_ref` of the function.
    CallNative { func_ref: usize, args: Vec<ValueId>, result: ValueId },
    Jump { target: BlockId, args: Vec<ValueId> },
    Brif {
        cond: ValueId,
        then_target: BlockId,
        then_args: Vec<ValueId>,
        else_target: BlockId,
        else_args: Vec<ValueId>,
    },
    Return { values: Vec<ValueId> },
}

/// One basic block under construction.  A block declares its own
/// parameter list before use; every branch into it must supply
/// matching-arity, matching-kind arguments.
#[derive(Clone, Debug)]
pub struct Block {
    pub param_kinds: Vec<Kind>,
    pub param_vals: Vec<ValueId>,
    pub insts: Vec<Inst>,
    /// A terminator has been emitted; the block takes no further
    /// instructions.
    pub terminated: bool,
    /// No further predecessors will be declared.
    pub sealed: bool,
}

/// A named scratch slot of the function's stack frame.  A slot's kind
/// and reference-ness, once set, never change for the rest of the
/// build.
#[derive(Clone, Debug)]
pub struct StackSlotInfo {
    pub name: String,
    pub kind: Kind,
    /// A reference slot stores a pointer that is later dereferenced at
    /// `offset x kind.bytes()`; a value slot stores the bit pattern of
    /// a `kind` value directly.
    pub is_ref: bool,
    pub offset: u32,
}

/// Byte width a slot occupies in the frame: the width of its kind, or
/// of the target pointer for a reference slot.
pub open spec fn slot_width(s: StackSlotInfo) -> u32 {
    if s.is_ref {
        Kind::Ptr.spec_bytes()
    } else {
        s.kind.spec_bytes()
    }
}

/// Is there a slot of this name?
pub open spec fn has_slot(slots: Seq<StackSlotInfo>, name: Seq<char>) -> bool {
    exists|i: int| 0 <= i < slots.len() && slots[i].name@ == name
}

/// The index of the slot of this name.
pub open spec fn slot_index_of(slots: Seq<StackSlotInfo>, name: Seq<char>) -> int {
    choose|i: int| 0 <= i < slots.len() && slots[i].name@ == name
}

/// The slot of this name.
pub open spec fn slot_of(slots: Seq<StackSlotInfo>, name: Seq<char>) -> StackSlotInfo {
    slots[slot_index_of(slots, name)]
}

/// Does a definition refer only to values numbered below `n`?
pub open spec fn def_refs_ok(n: int, d: ValueDef) -> bool {
    match d {
        ValueDef::BlockParam { .. } => true,
        ValueDef::Iconst { .. } => true,
        ValueDef::Bin { a, b, .. } => a.0 < n && b.0 < n,
        ValueDef::IaddImm { a, .. } => a.0 < n,
        ValueDef::Splat { a } => a.0 < n,
        ValueDef::Load { addr, .. } => addr.0 < n,
        ValueDef::StackLoad { .. } => true,
        ValueDef::CallNative { args, .. } => forall|k: int|
            0 <= k < args@.len() ==> (#[trigger] args@[k]).0 < n,
    }
}

/// Definition `i` only refers to values created before it.
pub open spec fn def_wf(vals: Seq<ValueInfo>, i: int) -> bool {
    def_refs_ok(i, vals[i].def)
}

/// Every definition only refers to values created before it.
pub open spec fn values_wf(vals: Seq<ValueInfo>) -> bool {
    forall|i: int| 0 <= i < vals.len() ==> def_wf(vals, i)
}

/// The scratch frame fits its capacity, slots never overlap, later
/// slots sit at strictly higher offsets, and names are unique.
pub open spec fn slots_wf(slots: Seq<StackSlotInfo>, stack_len: u32, capacity: u32) -> bool {
    &&& stack_len <= capacity
    &&& forall|i: int|
        0 <= i < slots.len() ==> (#[trigger] slots[i]).offset + slot_width(slots[i]) <= stack_len
    &&& forall|i: int, j: int|
        0 <= i < j < slots.len() ==> (#[trigger] slots[i]).offset + slot_width(slots[i])
            <= (#[trigger] slots[j]).offset
    &&& forall|i: int, j: int|
        0 <= i < j < slots.len() ==> (#[trigger] slots[i]).name@ != (#[trigger] slots[j]).name@
}

/// Parameter `i` of block `b` exists in the value table, carries the
/// declared kind, and is defined as exactly that block parameter.
pub open spec fn block_param_ok(blocks: Seq<Block>, vals: Seq<ValueInfo>, b: int, i: int) -> bool {
    let v = blocks[b].param_vals@[i];
    &&& v.0 < vals.len()
    &&& vals[v.0 as int].kind == blocks[b].param_kinds@[i]
    &&& vals[v.0 as int].def == (ValueDef::BlockParam {
        block: BlockId(b as usize),
        index: i as usize,
    })
}

/// Every block's parameter values exist, carry the declared kinds, and
/// are defined as exactly that block parameter.
pub open spec fn blocks_wf(blocks: Seq<Block>, vals: Seq<ValueInfo>) -> bool {
    &&& forall|b: int|
        0 <= b < blocks.len() ==> (#[trigger] blocks[b]).param_vals@.len()
            == blocks[b].param_kinds@.len()
    &&& forall|b: int, i: int|
        0 <= b < blocks.len() && 0 <= i < blocks[b].param_vals@.len()
            ==> #[trigger] block_param_ok(blocks, vals, b, i)
}

/// Builds one function body: blocks, instructions, scratch stack
/// slots and calls into registered native routines.  It is transient;
/// [`FuncGenContext::finalize`] turns it into a [`FunctionSpec`] for
/// the owning compilation unit to link.
#[derive(Clone, Debug)]
pub struct FuncGenContext {
    pub func_id: FuncId,
    pub name: String,
    pub sig: Signature,
    /// The target pointer kind.
    pub ptype: Kind,
    /// Snapshot of the unit's native-operation catalog, used to
    /// resolve call sites.
    pub registry: NativeOpCallRegistry,
    pub blocks: Vec<Block>,
    /// The block instructions are currently appended to.
    pub current: Option<BlockId>,
    pub values: Vec<ValueInfo>,
    /// One import declaration per native call site, never deduplicated
    /// across calls.
    pub func_refs: Vec<String>,
    /// Scratch frame capacity in bytes; zero until the frame is made.
    pub stack_capacity: u32,
    /// Bytes of the scratch frame allocated to slots so far; grows
    /// monotonically and never shrinks.
    pub stack_len: u32,
    pub slots: Vec<StackSlotInfo>,
}

impl FuncGenContext {
    /// The index of the active block.
    pub open spec fn cur_idx(self) -> int {
        self.current.unwrap().0 as int
    }

    /// Is there an active block that still accepts instructions?
    pub open spec fn accepts_insts(self) -> bool {
        &&& self.current is Some
        &&& self.cur_idx() < self.blocks@.len()
        &&& !self.blocks@[self.cur_idx()].terminated
    }

    /// Does the value exist?
    pub open spec fn val_ok(self, v: ValueId) -> bool {
        v.0 < self.values@.len()
    }

    /// The kind of a value.
    pub open spec fn val_kind(self, v: ValueId) -> Kind {
        self.values@[v.0 as int].kind
    }

    /// The instructions of the active block.
    pub open spec fn cur_insts(self) -> Seq<Inst> {
        self.blocks@[self.cur_idx()].insts@
    }

    /// Well-formedness kept by every operation of the build.
    pub open spec fn wf(self) -> bool {
        &&& values_wf(self.values@)
        &&& blocks_wf(self.blocks@, self.values@)
        &&& slots_wf(self.slots@, self.stack_len, self.stack_capacity)
        &&& (self.current matches Some(b) ==> b.0 < self.blocks@.len())
        &&& self.registry.wf()
    }

    /// Is `op` registered under its standard binary signature?
    pub open spec fn op_registered(self, op: NativeOpCall) -> bool {
        &&& contains_op(self.registry@, op.spec_name())
        &&& resolved_op(self.registry@, op.spec_name()).params == op.spec_signature().0
        &&& resolved_op(self.registry@, op.spec_name()).returns == op.spec_signature().1
    }

    /// The parts of the build an instruction emission never touches.
    pub open spec fn frame_unchanged(pre: Self, post: Self) -> bool {
        &&& post.func_id == pre.func_id
        &&& post.name@ == pre.name@
        &&& post.sig@ == pre.sig@
        &&& post.ptype == pre.ptype
        &&& post.registry@ == pre.registry@
        &&& post.registry.wf() == pre.registry.wf()
        &&& post.stack_capacity == pre.stack_capacity
        &&& post.stack_len == pre.stack_len
        &&& post.slots@ == pre.slots@
    }

    /// `post` extends `pre` by appending instructions to the active
    /// block and values to the table, and changes nothing else: no
    /// block is created, sealed or terminated, no other block's
    /// instructions move, and the scratch frame stays as it was.
    pub open spec fn extends_current_only(pre: Self, post: Self) -> bool {
        let c = pre.cur_idx();
        &&& pre.current is Some
        &&& post.current == pre.current
        &&& post.blocks@.len() == pre.blocks@.len()
        &&& forall|j: int|
            0 <= j < pre.blocks@.len() && j != c ==> #[trigger] post.blocks@[j] == pre.blocks@[j]
        &&& pre.blocks@[c].insts@.is_prefix_of(post.blocks@[c].insts@)
        &&& post.blocks@[c].param_kinds@ == pre.blocks@[c].param_kinds@
        &&& post.blocks@[c].param_vals@ == pre.blocks@[c].param_vals@
        &&& post.blocks@[c].sealed == pre.blocks@[c].sealed
        &&& post.blocks@[c].terminated == pre.blocks@[c].terminated
        &&& post.values@.len() >= pre.values@.len()
        &&& forall|i: int|
            0 <= i < pre.values@.len() ==> #[trigger] post.values@[i] == pre.values@[i]
        &&& Self::frame_unchanged(pre, post)
    }

    /// `post` is `pre` with `inst` appended to the active block and no
    /// other change to any block.
    pub open spec fn emits_into_current(pre: Self, post: Self, inst: Inst) -> bool {
        let c = pre.cur_idx();
        &&& pre.current is Some
        &&& post.current == pre.current
        &&& post.blocks@.len() == pre.blocks@.len()
        &&& forall|j: int|
            0 <= j < pre.blocks@.len() && j != c ==> #[trigger] post.blocks@[j] == pre.blocks@[j]
        &&& post.blocks@[c].insts@ == pre.blocks@[c].insts@.push(inst)
        &&& post.blocks@[c].param_kinds@ == pre.blocks@[c].param_kinds@
        &&& post.blocks@[c].param_vals@ == pre.blocks@[c].param_vals@
        &&& post.blocks@[c].sealed == pre.blocks@[c].sealed
        &&& post.blocks@[c].terminated == pre.blocks@[c].terminated
    }

    /// `post` defines one fresh value `r` of kind `k` with definition
    /// `d` on top of `pre`'s value table.
    pub open spec fn defines_value(pre: Self, post: Self, r: ValueId, k: Kind, d: ValueDef) -> bool {
        &&& r.0 == pre.values@.len()
        &&& post.values@ == pre.values@.push(ValueInfo { kind: k, def: d })
    }

    /// Create a new, empty, unsealed block.  It becomes active only
    /// through [`FuncGenContext::switch_to_block`].
    pub fn create_block(&mut self) -> (r: BlockId)
        requires
            old(self).wf(),
        ensures
            final(self).wf(),
            r.0 == old(self).blocks@.len(),
            final(self).blocks@.len() == old(self).blocks@.len() + 1,
            forall|j: int|
                0 <= j < old(self).blocks@.len() ==> #[trigger] final(self).blocks@[j]
                    == old(self).blocks@[j],
            final(self).blocks@[r.0 as int].param_kinds@ == Seq::<Kind>::empty(),
            final(self).blocks@[r.0 as int].param_vals@ == Seq::<ValueId>::empty(),
            final(self).blocks@[r.0 as int].insts@ == Seq::<Inst>::empty(),
            !final(self).blocks@[r.0 as int].terminated,
            !final(self).blocks@[r.0 as int].sealed,
            final(self).values@ == old(self).values@,
            final(self).current == old(self).current,
            final(self).func_refs@ == old(self).func_refs@,
            Self::frame_unchanged(*old(self), *final(self)),
    {
        let id = BlockId(self.blocks.len());
        self.blocks.push(Block {
            param_kinds: Vec::new(),
            param_vals: Vec::new(),
            insts: Vec::new(),
            terminated: false,
            sealed: false,
        });
        proof {
            assert(blocks_wf(self.blocks@, self.values@)) by {
                assert forall|b: int, i: int|
                    0 <= b < self.blocks@.len() && 0 <= i < self.blocks@[b].param_vals@.len()
                        implies #[trigger] block_param_ok(self.blocks@, self.values@, b, i) by {
                    assert(b < old(self).blocks@.len());
                    assert(block_param_ok(old(self).blocks@, old(self).values@, b, i));
                }
            }
        }
        id
    }

    /// Make a block the active one; instructions append to it until a
    /// terminator is emitted or another block takes over.
    pub fn switch_to_block(&mut self, b: BlockId)
        requires
            old(self).wf(),
            b.0 < old(self).blocks@.len(),
        ensures
            final(self).wf(),
            *final(self) == (FuncGenContext { current: Some(b), ..*old(self) }),
    {
        self.current = Some(b);
    }

    /// Declare one more parameter of a block, of the given kind, and
    /// hand back the fresh value that carries it.
    pub fn append_block_param(&mut self, b: BlockId, kind: Kind) -> (r: ValueId)
        requires
            old(self).wf(),
            b.0 < old(self).blocks@.len(),
        ensures
            final(self).wf(),
            Self::defines_value(
                *old(self),
                *final(self),
                r,
                kind,
                ValueDef::BlockParam { block: b, index: old(self).blocks@[b.0 as int].param_vals@.len() as usize },
            ),
            final(self).blocks@.len() == old(self).blocks@.len(),
            forall|j: int|
                0 <= j < old(self).blocks@.len() && j != b.0 ==> #[trigger] final(self).blocks@[j]
                    == old(self).blocks@[j],
            final(self).blocks@[b.0 as int].param_kinds@ == old(self).blocks@[b.0 as int].param_kinds@.push(kind),
            final(self).blocks@[b.0 as int].param_vals@ == old(self).blocks@[b.0 as int].param_vals@.push(r),
            final(self).blocks@[b.0 as int].insts@ == old(self).blocks@[b.0 as int].insts@,
            final(self).blocks@[b.0 as int].sealed == old(self).blocks@[b.0 as int].sealed,
            final(self).blocks@[b.0 as int].terminated == old(self).blocks@[b.0 as int].terminated,
            final(self).current == old(self).current,
            final(self).func_refs@ == old(self).func_refs@,
            Self::frame_unchanged(*old(self), *final(self)),
    {
        let idx = self.blocks[b.0].param_vals.len();
        let r = ValueId(self.values.len());
        self.values.push(ValueInfo { kind, def: ValueDef::BlockParam { block: b, index: idx } });
        self.blocks[b.0].param_kinds.push(kind);
        self.blocks[b.0].param_vals.push(r);
        proof {
            assert(values_wf(self.values@)) by {
                assert forall|i: int| 0 <= i < self.values@.len() implies def_wf(self.values@, i) by {
                    if i < old(self).values@.len() {
                        assert(def_wf(old(self).values@, i));
                    }
                }
            }
            assert(blocks_wf(self.blocks@, self.values@)) by {
                assert forall|bb: int, i: int|
                    0 <= bb < self.blocks@.len() && 0 <= i < self.blocks@[bb].param_vals@.len()
                        implies #[trigger] block_param_ok(self.blocks@, self.values@, bb, i) by {
                    if bb == b.0 as int && i == old(self).blocks@[b.0 as int].param_vals@.len() {
                        assert(self.blocks@[bb].param_vals@[i] == r);
                    } else {
                        assert(block_param_ok(old(self).blocks@, old(self).values@, bb, i));
                        assert(self.blocks@[bb].param_vals@[i]
                            == old(self).blocks@[bb].param_vals@[i]);
                    }
                }
            }
        }
        r
    }

    /// Declare the entry block's parameters: one per function
    /// parameter, in signature order.
    pub fn append_block_params_for_function_params(&mut self, b: BlockId)
        requires
            old(self).wf(),
            b.0 < old(self).blocks@.len(),
            old(self).blocks@[b.0 as int].param_kinds@.len() == 0,
            old(self).blocks@[b.0 as int].param_vals@.len() == 0,
        ensures
            final(self).wf(),
            final(self).values@.len() == old(self).values@.len() + old(self).sig@.params.len(),
            forall|i: int|
                0 <= i < old(self).values@.len() ==> #[trigger] final(self).values@[i]
                    == old(self).values@[i],
            forall|i: int|
                0 <= i < old(self).sig@.params.len()
                    ==> #[trigger] final(self).values@[old(self).values@.len() + i]
                    == (ValueInfo {
                    kind: old(self).sig@.params[i],
                    def: ValueDef::BlockParam { block: b, index: i as usize },
                }),
            final(self).blocks@.len() == old(self).blocks@.len(),
            forall|j: int|
                0 <= j < old(self).blocks@.len() && j != b.0 ==> #[trigger] final(self).blocks@[j]
                    == old(self).blocks@[j],
            final(self).blocks@[b.0 as int].param_kinds@ == old(self).sig@.params,
            final(self).blocks@[b.0 as int].param_vals@.len() == old(self).sig@.params.len(),
            forall|i: int|
                0 <= i < old(self).sig@.params.len()
                    ==> (#[trigger] final(self).blocks@[b.0 as int].param_vals@[i]).0
                    == old(self).values@.len() + i,
            final(self).blocks@[b.0 as int].insts@ == old(self).blocks@[b.0 as int].insts@,
            final(self).blocks@[b.0 as int].sealed == old(self).blocks@[b.0 as int].sealed,
            final(self).blocks@[b.0 as int].terminated == old(self).blocks@[b.0 as int].terminated,
            final(self).current == old(self).current,
            final(self).func_refs@ == old(self).func_refs@,
            Self::frame_unchanged(*old(self), *final(self)),
    {
        let n = self.sig.params.len();
        let mut i: usize = 0;
        while i < n
            invariant
                self.wf(),
                i <= n,
                b.0 < self.blocks@.len(),
                n == self.sig@.params.len(),
                self.values@.len() == old(self).values@.len() + i,
                forall|k: int|
                    0 <= k < old(self).values@.len() ==> #[trigger] self.values@[k]
                        == old(self).values@[k],
                forall|k: int|
                    0 <= k < i ==> #[trigger] self.values@[old(self).values@.len() + k]
                        == (ValueInfo {
                        kind: old(self).sig@.params[k],
                        def: ValueDef::BlockParam { block: b, index: k as usize },
                    }),
                self.blocks@.len() == old(self).blocks@.len(),
                forall|j: int|
                    0 <= j < old(self).blocks@.len() && j != b.0 ==> #[trigger] self.blocks@[j]
                        == old(self).blocks@[j],
                self.blocks@[b.0 as int].param_kinds@ == old(self).sig@.params.take(i as int),
                self.blocks@[b.0 as int].param_vals@.len() == i,
                forall|k: int|
                    0 <= k < i ==> (#[trigger] self.blocks@[b.0 as int].param_vals@[k]).0
                        == old(self).values@.len() + k,
                self.blocks@[b.0 as int].insts@ == old(self).blocks@[b.0 as int].insts@,
                self.blocks@[b.0 as int].sealed == old(self).blocks@[b.0 as int].sealed,
                self.blocks@[b.0 as int].terminated == old(self).blocks@[b.0 as int].terminated,
                self.current == old(self).current,
                self.func_refs@ == old(self).func_refs@,
                Self::frame_unchanged(*old(self), *self),
            decreases n - i,
        {
            let kind = self.sig.params[i];
            self.append_block_param(b, kind);
            i += 1;
            proof {
                assert(self.blocks@[b.0 as int].param_kinds@ =~= old(self).sig@.params.take(
                    i as int,
                ));
            }
        }
        proof {
            assert(final(self).blocks@[b.0 as int].param_kinds@ =~= old(self).sig@.params);
        }
    }

    /// The parameter values of a block, in declaration order.
    pub fn block_params(&self, b: BlockId) -> (r: Vec<ValueId>)
        requires
            b.0 < self.blocks@.len(),
        ensures
            r@ == self.blocks@[b.0 as int].param_vals@,
    {
        self.blocks[b.0].param_vals.clone()
    }

    /// Declare that a block will get no further predecessors.
    pub fn seal_block(&mut self, b: BlockId)
        requires
            old(self).wf(),
            b.0 < old(self).blocks@.len(),
        ensures
            final(self).wf(),
            final(self).blocks@.len() == old(self).blocks@.len(),
            forall|j: int|
                0 <= j < old(self).blocks@.len() && j != b.0 ==> #[trigger] final(self).blocks@[j]
                    == old(self).blocks@[j],
            final(self).blocks@[b.0 as int] == (Block {
                sealed: true,
                ..old(self).blocks@[b.0 as int]
            }),
            final(self).values@ == old(self).values@,
            final(self).current == old(self).current,
            final(self).func_refs@ == old(self).func_refs@,
            Self::frame_unchanged(*old(self), *final(self)),
    {
        self.blocks[b.0].sealed = true;
        proof {
            assert(blocks_wf(self.blocks@, self.values@)) by {
                assert forall|bb: int, i: int|
                    0 <= bb < self.blocks@.len() && 0 <= i < self.blocks@[bb].param_vals@.len()
                        implies #[trigger] block_param_ok(self.blocks@, self.values@, bb, i) by {
                    assert(block_param_ok(old(self).blocks@, old(self).values@, bb, i));
                    assert(self.blocks@[bb].param_vals@ == old(self).blocks@[bb].param_vals@);
                }
            }
        }
    }
}

impl FuncGenContext {
    /// Append one value-producing instruction to the active block.
    fn emit(&mut self, kind: Kind, def: ValueDef, inst: Inst) -> (r: ValueId)
        requires
            old(self).wf(),
            old(self).accepts_insts(),
            def_refs_ok(old(self).values@.len() as int, def),
        ensures
            final(self).wf(),
            final(self).accepts_insts(),
            Self::emits_into_current(*old(self), *final(self), inst),
            Self::defines_value(*old(self), *final(self), r, kind, def),
            final(self).func_refs@ == old(self).func_refs@,
            Self::frame_unchanged(*old(self), *final(self)),
    {
        let r = ValueId(self.values.len());
        self.values.push(ValueInfo { kind, def });
        let c = self.current.unwrap();
        self.blocks[c.0].insts.push(inst);
        proof {
            self.lemma_wf_after_emit(*old(self));
        }
        r
    }

    /// Append one instruction without a result to the active block.
    fn emit_void(&mut self, inst: Inst)
        requires
            old(self).wf(),
            old(self).accepts_insts(),
        ensures
            final(self).wf(),
            final(self).accepts_insts(),
            Self::emits_into_current(*old(self), *final(self), inst),
            final(self).values@ == old(self).values@,
            final(self).func_refs@ == old(self).func_refs@,
            Self::frame_unchanged(*old(self), *final(self)),
    {
        let c = self.current.unwrap();
        self.blocks[c.0].insts.push(inst);
        proof {
            self.lemma_wf_after_emit(*old(self));
        }
    }

    /// Append one terminator to the active block, which then takes no
    /// further instructions.
    fn emit_terminator(&mut self, inst: Inst)
        requires
            old(self).wf(),
            old(self).accepts_insts(),
        ensures
            final(self).wf(),
            Self::terminates_current(*old(self), *final(self), inst),
            final(self).values@ == old(self).values@,
            final(self).current == old(self).current,
            final(self).func_refs@ == old(self).func_refs@,
            Self::frame_unchanged(*old(self), *final(self)),
    {
        let c = self.current.unwrap();
        self.blocks[c.0].insts.push(inst);
        self.blocks[c.0].terminated = true;
        proof {
            self.lemma_wf_after_emit(*old(self));
        }
    }

    /// `post` is `pre` with `inst` appended to the active block, which
    /// is thereby terminated; no other block changes.
    pub open spec fn terminates_current(pre: Self, post: Self, inst: Inst) -> bool {
        let c = pre.cur_idx();
        &&& pre.current is Some
        &&& post.current == pre.current
        &&& post.blocks@.len() == pre.blocks@.len()
        &&& forall|j: int|
            0 <= j < pre.blocks@.len() && j != c ==> #[trigger] post.blocks@[j] == pre.blocks@[j]
        &&& post.blocks@[c].insts@ == pre.blocks@[c].insts@.push(inst)
        &&& post.blocks@[c].param_kinds@ == pre.blocks@[c].param_kinds@
        &&& post.blocks@[c].param_vals@ == pre.blocks@[c].param_vals@
        &&& post.blocks@[c].sealed == pre.blocks@[c].sealed
        &&& post.blocks@[c].terminated
    }

    /// Well-formedness survives appending instructions and values, as
    /// long as no block's parameters change and new definitions only
    /// look backwards.
    proof fn lemma_wf_after_emit(self, pre: Self)
        requires
            pre.wf(),
            self.values@.len() >= pre.values@.len(),
            forall|i: int|
                0 <= i < pre.values@.len() ==> #[trigger] self.values@[i] == pre.values@[i],
            forall|i: int|
                pre.values@.len() <= i < self.values@.len() ==> def_refs_ok(
                    i,
                    #[trigger] self.values@[i].def,
                ),
            self.blocks@.len() == pre.blocks@.len(),
            forall|b: int|
                0 <= b < pre.blocks@.len() ==> (#[trigger] self.blocks@[b]).param_vals@
                    == pre.blocks@[b].param_vals@ && self.blocks@[b].param_kinds@
                    == pre.blocks@[b].param_kinds@,
            self.slots@ == pre.slots@,
            self.stack_len == pre.stack_len,
            self.stack_capacity == pre.stack_capacity,
            self.current == pre.current,
            self.registry == pre.registry,
        ensures
            self.wf(),
    {
        assert forall|i: int| 0 <= i < self.values@.len() implies def_wf(self.values@, i) by {
            if i < pre.values@.len() {
                assert(def_wf(pre.values@, i));
            }
        }
        assert(blocks_wf(self.blocks@, self.values@)) by {
            assert forall|bb: int, i: int|
                0 <= bb < self.blocks@.len() && 0 <= i < self.blocks@[bb].param_vals@.len()
                    implies #[trigger] block_param_ok(self.blocks@, self.values@, bb, i) by {
                assert(block_param_ok(pre.blocks@, pre.values@, bb, i));
                assert(self.blocks@[bb].param_vals@ == pre.blocks@[bb].param_vals@);
                assert(pre.blocks@[bb].param_vals@[i].0 < pre.values@.len());
            }
        }
    }

    /// Lane-wise floating addition.
    pub fn fadd(&mut self, a: ValueId, b: ValueId) -> (r: ValueId)
        requires
            old(self).wf(),
            old(self).accepts_insts(),
            old(self).val_ok(a),
            old(self).val_ok(b),
            old(self).val_kind(a).is_float(),
            old(self).val_kind(b) == old(self).val_kind(a),
        ensures
            final(self).wf(),
            final(self).accepts_insts(),
            Self::emits_into_current(
                *old(self),
                *final(self),
                Inst::Bin { op: BinOp::Fadd, a, b, result: r },
            ),
            Self::defines_value(
                *old(self),
                *final(self),
                r,
                old(self).val_kind(a),
                ValueDef::Bin { op: BinOp::Fadd, a, b },
            ),
            final(self).func_refs@ == old(self).func_refs@,
            Self::frame_unchanged(*old(self), *final(self)),
    {
        let kind = self.values[a.0].kind;
        let r = ValueId(self.values.len());
        self.emit(kind, ValueDef::Bin { op: BinOp::Fadd, a, b }, Inst::Bin {
            op: BinOp::Fadd,
            a,
            b,
            result: r,
        })
    }

    /// Lane-wise floating division.
    pub fn fdiv(&mut self, a: ValueId, b: ValueId) -> (r: ValueId)
        requires
            old(self).wf(),
            old(self).accepts_insts(),
            old(self).val_ok(a),
            old(self).val_ok(b),
            old(self).val_kind(a).is_float(),
            old(self).val_kind(b) == old(self).val_kind(a),
        ensures
            final(self).wf(),
            final(self).accepts_insts(),
            Self::emits_into_current(
                *old(self),
                *final(self),
                Inst::Bin { op: BinOp::Fdiv, a, b, result: r },
            ),
            Self::defines_value(
                *old(self),
                *final(self),
                r,
                old(self).val_kind(a),
                ValueDef::Bin { op: BinOp::Fdiv, a, b },
            ),
            final(self).func_refs@ == old(self).func_refs@,
            Self::frame_unchanged(*old(self), *final(self)),
    {
        let kind = self.values[a.0].kind;
        let r = ValueId(self.values.len());
        self.emit(kind, ValueDef::Bin { op: BinOp::Fdiv, a, b }, Inst::Bin {
            op: BinOp::Fdiv,
            a,
            b,
            result: r,
        })
    }

    /// Lane-wise floating `<`; the result carries one boolean lane per
    /// input lane.
    pub fn fcmp_lt(&mut self, a: ValueId, b: ValueId) -> (r: ValueId)
        requires
            old(self).wf(),
            old(self).accepts_insts(),
            old(self).val_ok(a),
            old(self).val_ok(b),
            old(self).val_kind(a).is_float(),
            old(self).val_kind(b) == old(self).val_kind(a),
        ensures
            final(self).wf(),
            final(self).accepts_insts(),
            Self::emits_into_current(
                *old(self),
                *final(self),
                Inst::Bin { op: BinOp::FcmpLt, a, b, result: r },
            ),
            Self::defines_value(
                *old(self),
                *final(self),
                r,
                old(self).val_kind(a).spec_cmp_result(),
                ValueDef::Bin { op: BinOp::FcmpLt, a, b },
            ),
            final(self).func_refs@ == old(self).func_refs@,
            Self::frame_unchanged(*old(self), *final(self)),
    {
        let kind = self.values[a.0].kind.cmp_result();
        let r = ValueId(self.values.len());
        self.emit(kind, ValueDef::Bin { op: BinOp::FcmpLt, a, b }, Inst::Bin {
            op: BinOp::FcmpLt,
            a,
            b,
            result: r,
        })
    }

    /// The kind an integer addition of these two kinds produces: a
    /// pointer when one side is a pointer (pointer arithmetic on a
    /// 64-bit target), else their common kind.
    pub open spec fn iadd_result(a: Kind, b: Kind) -> Kind {
        if a is Ptr || b is Ptr {
            Kind::Ptr
        } else {
            a
        }
    }

    /// May these two kinds meet in an integer addition?  Equal integer
    /// kinds always; a pointer mixes with a 64-bit integer, which
    /// shares its width on the assumed target.
    pub open spec fn iadd_ok(a: Kind, b: Kind) -> bool {
        (a == b && a.is_int()) || (a is Ptr && b is I64) || (a is I64 && b is Ptr)
    }

    /// Integer addition, including pointer advance.
    pub fn iadd(&mut self, a: ValueId, b: ValueId) -> (r: ValueId)
        requires
            old(self).wf(),
            old(self).accepts_insts(),
            old(self).val_ok(a),
            old(self).val_ok(b),
            Self::iadd_ok(old(self).val_kind(a), old(self).val_kind(b)),
        ensures
            final(self).wf(),
            final(self).accepts_insts(),
            Self::emits_into_current(
                *old(self),
                *final(self),
                Inst::Bin { op: BinOp::Iadd, a, b, result: r },
            ),
            Self::defines_value(
                *old(self),
                *final(self),
                r,
                Self::iadd_result(old(self).val_kind(a), old(self).val_kind(b)),
                ValueDef::Bin { op: BinOp::Iadd, a, b },
            ),
            final(self).func_refs@ == old(self).func_refs@,
            Self::frame_unchanged(*old(self), *final(self)),
    {
        let ka = self.values[a.0].kind;
        let kb = self.values[b.0].kind;
        let kind = if matches!(ka, Kind::Ptr) || matches!(kb, Kind::Ptr) {
            Kind::Ptr
        } else {
            ka
        };
        let r = ValueId(self.values.len());
        self.emit(kind, ValueDef::Bin { op: BinOp::Iadd, a, b }, Inst::Bin {
            op: BinOp::Iadd,
            a,
            b,
            result: r,
        })
    }

    /// Integer multiplication.
    pub fn imul(&mut self, a: ValueId, b: ValueId) -> (r: ValueId)
        requires
            old(self).wf(),
            old(self).accepts_insts(),
            old(self).val_ok(a),
            old(self).val_ok(b),
            old(self).val_kind(a).is_int(),
            old(self).val_kind(b) == old(self).val_kind(a),
        ensures
            final(self).wf(),
            final(self).accepts_insts(),
            Self::emits_into_current(
                *old(self),
                *final(self),
                Inst::Bin { op: BinOp::Imul, a, b, result: r },
            ),
            Self::defines_value(
                *old(self),
                *final(self),
                r,
                old(self).val_kind(a),
                ValueDef::Bin { op: BinOp::Imul, a, b },
            ),
            final(self).func_refs@ == old(self).func_refs@,
            Self::frame_unchanged(*old(self), *final(self)),
    {
        let kind = self.values[a.0].kind;
        let r = ValueId(self.values.len());
        self.emit(kind, ValueDef::Bin { op: BinOp::Imul, a, b }, Inst::Bin {
            op: BinOp::Imul,
            a,
            b,
            result: r,
        })
    }

    /// Signed integer `<`.
    pub fn icmp_slt(&mut self, a: ValueId, b: ValueId) -> (r: ValueId)
        requires
            old(self).wf(),
            old(self).accepts_insts(),
            old(self).val_ok(a),
            old(self).val_ok(b),
            old(self).val_kind(a).is_int(),
            old(self).val_kind(b) == old(self).val_kind(a),
        ensures
            final(self).wf(),
            final(self).accepts_insts(),
            Self::emits_into_current(
                *old(self),
                *final(self),
                Inst::Bin { op: BinOp::IcmpSlt, a, b, result: r },
            ),
            Self::defines_value(
                *old(self),
                *final(self),
                r,
                Kind::I8,
                ValueDef::Bin { op: BinOp::IcmpSlt, a, b },
            ),
            final(self).func_refs@ == old(self).func_refs@,
            Self::frame_unchanged(*old(self), *final(self)),
    {
        let r = ValueId(self.values.len());
        self.emit(Kind::I8, ValueDef::Bin { op: BinOp::IcmpSlt, a, b }, Inst::Bin {
            op: BinOp::IcmpSlt,
            a,
            b,
            result: r,
        })
    }

    /// Integer constant.
    pub fn iconst(&mut self, kind: Kind, imm: i64) -> (r: ValueId)
        requires
            old(self).wf(),
            old(self).accepts_insts(),
            kind.is_int(),
        ensures
            final(self).wf(),
            final(self).accepts_insts(),
            Self::emits_into_current(*old(self), *final(self), Inst::Iconst { kind, imm, result: r }),
            Self::defines_value(*old(self), *final(self), r, kind, ValueDef::Iconst { imm }),
            final(self).func_refs@ == old(self).func_refs@,
            Self::frame_unchanged(*old(self), *final(self)),
    {
        let r = ValueId(self.values.len());
        self.emit(kind, ValueDef::Iconst { imm }, Inst::Iconst { kind, imm, result: r })
    }

    /// Integer addition of an immediate.
    pub fn iadd_imm(&mut self, a: ValueId, imm: i64) -> (r: ValueId)
        requires
            old(self).wf(),
            old(self).accepts_insts(),
            old(self).val_ok(a),
            old(self).val_kind(a).is_int(),
        ensures
            final(self).wf(),
            final(self).accepts_insts(),
            Self::emits_into_current(
                *old(self),
                *final(self),
                Inst::IaddImm { a, imm, result: r },
            ),
            Self::defines_value(
                *old(self),
                *final(self),
                r,
                old(self).val_kind(a),
                ValueDef::IaddImm { a, imm },
            ),
            final(self).func_refs@ == old(self).func_refs@,
            Self::frame_unchanged(*old(self), *final(self)),
    {
        let kind = self.values[a.0].kind;
        let r = ValueId(self.values.len());
        self.emit(kind, ValueDef::IaddImm { a, imm }, Inst::IaddImm { a, imm, result: r })
    }

    /// Fill every lane of a vector with a scalar.
    pub fn splat(&mut self, kind: Kind, a: ValueId) -> (r: ValueId)
        requires
            old(self).wf(),
            old(self).accepts_insts(),
            old(self).val_ok(a),
            (kind is F64X2 && old(self).val_kind(a) is F64) || (kind is I8X2 && old(self).val_kind(
                a,
            ) is I8),
        ensures
            final(self).wf(),
            final(self).accepts_insts(),
            Self::emits_into_current(*old(self), *final(self), Inst::Splat { kind, a, result: r }),
            Self::defines_value(*old(self), *final(self), r, kind, ValueDef::Splat { a }),
            final(self).func_refs@ == old(self).func_refs@,
            Self::frame_unchanged(*old(self), *final(self)),
    {
        let r = ValueId(self.values.len());
        self.emit(kind, ValueDef::Splat { a }, Inst::Splat { kind, a, result: r })
    }

    /// Read a `kind` value from memory at `addr` plus a byte offset.
    pub fn load(&mut self, kind: Kind, addr: ValueId, offset: u32) -> (r: ValueId)
        requires
            old(self).wf(),
            old(self).accepts_insts(),
            old(self).val_ok(addr),
            old(self).val_kind(addr) is Ptr,
            offset <= 0x7fff_ffff,
        ensures
            final(self).wf(),
            final(self).accepts_insts(),
            Self::emits_into_current(
                *old(self),
                *final(self),
                Inst::Load { kind, addr, offset, result: r },
            ),
            Self::defines_value(
                *old(self),
                *final(self),
                r,
                kind,
                ValueDef::Load { addr, offset },
            ),
            final(self).func_refs@ == old(self).func_refs@,
            Self::frame_unchanged(*old(self), *final(self)),
    {
        let r = ValueId(self.values.len());
        self.emit(kind, ValueDef::Load { addr, offset }, Inst::Load { kind, addr, offset, result: r })
    }

    /// Write a value to memory at `addr` plus a byte offset.
    pub fn store(&mut self, value: ValueId, addr: ValueId, offset: u32)
        requires
            old(self).wf(),
            old(self).accepts_insts(),
            old(self).val_ok(value),
            old(self).val_ok(addr),
            old(self).val_kind(addr) is Ptr,
            offset <= 0x7fff_ffff,
        ensures
            final(self).wf(),
            final(self).accepts_insts(),
            Self::emits_into_current(*old(self), *final(self), Inst::Store { value, addr, offset }),
            final(self).values@ == old(self).values@,
            final(self).func_refs@ == old(self).func_refs@,
            Self::frame_unchanged(*old(self), *final(self)),
    {
        self.emit_void(Inst::Store { value, addr, offset });
    }

    /// Do the branch arguments match the target block's declared
    /// parameters, in arity and kind, in order?
    pub open spec fn branch_args_match(self, target: BlockId, args: Seq<ValueId>) -> bool {
        &&& target.0 < self.blocks@.len()
        &&& args.len() == self.blocks@[target.0 as int].param_kinds@.len()
        &&& forall|i: int|
            0 <= i < args.len() ==> (#[trigger] args[i]).0 < self.values@.len()
                && self.val_kind(args[i]) == self.blocks@[target.0 as int].param_kinds@[i]
    }

    /// Unconditional branch; terminates the active block.
    pub fn jump(&mut self, target: BlockId, args: Vec<ValueId>)
        requires
            old(self).wf(),
            old(self).accepts_insts(),
            old(self).branch_args_match(target, args@),
        ensures
            final(self).wf(),
            Self::terminates_current(
                *old(self),
                *final(self),
                Inst::Jump { target, args: args },
            ),
            final(self).values@ == old(self).values@,
            final(self).current == old(self).current,
            final(self).func_refs@ == old(self).func_refs@,
            Self::frame_unchanged(*old(self), *final(self)),
    {
        self.emit_terminator(Inst::Jump { target, args });
    }

    /// Conditional branch on an integer truth value; terminates the
    /// active block.
    pub fn brif(
        &mut self,
        cond: ValueId,
        then_target: BlockId,
        then_args: Vec<ValueId>,
        else_target: BlockId,
        else_args: Vec<ValueId>,
    )
        requires
            old(self).wf(),
            old(self).accepts_insts(),
            old(self).val_ok(cond),
            old(self).val_kind(cond).is_int(),
            old(self).branch_args_match(then_target, then_args@),
            old(self).branch_args_match(else_target, else_args@),
        ensures
            final(self).wf(),
            Self::terminates_current(
                *old(self),
                *final(self),
                Inst::Brif { cond, then_target, then_args, else_target, else_args },
            ),
            final(self).values@ == old(self).values@,
            final(self).current == old(self).current,
            final(self).func_refs@ == old(self).func_refs@,
            Self::frame_unchanged(*old(self), *final(self)),
    {
        self.emit_terminator(Inst::Brif { cond, then_target, then_args, else_target, else_args });
    }
}

/// Is `i` a native-call instruction through import declaration
/// `func_ref`, with these arguments and this result?
pub open spec fn is_call_inst(i: Inst, func_ref: int, args: Seq<ValueId>, result: ValueId) -> bool {
    match i {
        Inst::CallNative { func_ref: fr, args: a, result: res } => fr == func_ref && a@ == args
            && res == result,
        _ => false,
    }
}

/// Is `d` the result of a call to the routine called `name` on these
/// arguments?
pub open spec fn is_call_def(d: ValueDef, name: Seq<char>, args: Seq<ValueId>) -> bool {
    match d {
        ValueDef::CallNative { name: n, args: a } => n@ == name && a@ == args,
        _ => false,
    }
}

impl FuncGenContext {
    /// `post` is `pre` after one native call site: a fresh import
    /// declaration, one call instruction in the active block, and one
    /// fresh value of kind `rkind` carrying the single result.
    pub open spec fn calls_native(
        pre: Self,
        post: Self,
        name: Seq<char>,
        args: Seq<ValueId>,
        rkind: Kind,
        v: ValueId,
    ) -> bool {
        let c = pre.cur_idx();
        &&& v.0 == pre.values@.len()
        &&& post.values@.len() == pre.values@.len() + 1
        &&& forall|i: int|
            0 <= i < pre.values@.len() ==> #[trigger] post.values@[i] == pre.values@[i]
        &&& post.values@[v.0 as int].kind == rkind
        &&& is_call_def(post.values@[v.0 as int].def, name, args)
        &&& post.current == pre.current
        &&& post.blocks@.len() == pre.blocks@.len()
        &&& forall|j: int|
            0 <= j < pre.blocks@.len() && j != c ==> #[trigger] post.blocks@[j] == pre.blocks@[j]
        &&& post.blocks@[c].insts@.len() == pre.blocks@[c].insts@.len() + 1
        &&& forall|i: int|
            0 <= i < pre.blocks@[c].insts@.len() ==> #[trigger] post.blocks@[c].insts@[i]
                == pre.blocks@[c].insts@[i]
        &&& is_call_inst(
            post.blocks@[c].insts@.last(),
            pre.func_refs@.len() as int,
            args,
            v,
        )
        &&& post.blocks@[c].param_kinds@ == pre.blocks@[c].param_kinds@
        &&& post.blocks@[c].param_vals@ == pre.blocks@[c].param_vals@
        &&& post.blocks@[c].sealed == pre.blocks@[c].sealed
        &&& post.blocks@[c].terminated == pre.blocks@[c].terminated
        &&& post.func_refs@.len() == pre.func_refs@.len() + 1
        &&& forall|i: int|
            0 <= i < pre.func_refs@.len() ==> #[trigger] post.func_refs@[i] == pre.func_refs@[i]
        &&& post.func_refs@.last()@ == name
    }

    /// Emit a call to the registered routine called `name`: resolve it
    /// in the unit's catalog, materialize an import declaration for
    /// this call site (one per site, never deduplicated), issue the
    /// call with positional arguments and extract its single result.
    ///
    /// Resolution failure reports `UnknownOperation` and leaves the
    /// build exactly as it was: no partially built call instruction
    /// remains.
    pub fn emit_native_call(&mut self, name: &String, args: Vec<ValueId>) -> (r: Result<
        ValueId,
        RegistryError,
    >)
        requires
            old(self).wf(),
            old(self).accepts_insts(),
            forall|i: int|
                0 <= i < args@.len() ==> (#[trigger] args@[i]).0 < old(self).values@.len(),
            contains_op(old(self).registry@, name@) ==> {
                let e = resolved_op(old(self).registry@, name@);
                &&& e.params.len() == args@.len()
                &&& e.returns.len() == 1
                &&& forall|i: int|
                    0 <= i < args@.len() ==> old(self).val_kind(#[trigger] args@[i])
                        == e.params[i]
            },
        ensures
            final(self).wf(),
            !contains_op(old(self).registry@, name@) ==> (r matches Err(
                RegistryError::UnknownOperation(n),
            ) && n@ == name@) && *final(self) == *old(self),
            contains_op(old(self).registry@, name@) ==> (r matches Ok(v)
                && Self::calls_native(
                *old(self),
                *final(self),
                name@,
                args@,
                resolved_op(old(self).registry@, name@).returns[0],
                v,
            ) && final(self).accepts_insts()),
            Self::frame_unchanged(*old(self), *final(self)),
    {
        let kind: Kind;
        match self.registry.resolve(name) {
            Ok(entry) => {
                kind = entry.sig.returns[0];
            },
            Err(e) => {
                return Err(e);
            },
        }
        let fr = self.func_refs.len();
        self.func_refs.push(name.clone());
        let v = ValueId(self.values.len());
        let call_args = args.clone();
        proof {
            assert(call_args@ =~= args@);
        }
        self.emit(
            kind,
            ValueDef::CallNative { name: name.clone(), args: call_args },
            Inst::CallNative { func_ref: fr, args, result: v },
        );
        Ok(v)
    }

    /// Emit a call to a standard binary native operation on two 64-bit
    /// float operands.
    fn call_binary(&mut self, op: NativeOpCall, lhs: ValueId, rhs: ValueId) -> (r: ValueId)
        requires
            old(self).wf(),
            old(self).accepts_insts(),
            old(self).val_ok(lhs),
            old(self).val_ok(rhs),
            old(self).val_kind(lhs) is F64,
            old(self).val_kind(rhs) is F64,
            old(self).op_registered(op),
        ensures
            final(self).wf(),
            final(self).accepts_insts(),
            Self::calls_native(
                *old(self),
                *final(self),
                op.spec_name(),
                seq![lhs, rhs],
                op.spec_signature().1[0],
                r,
            ),
            Self::frame_unchanged(*old(self), *final(self)),
    {
        let name = op.name().to_owned();
        let mut args: Vec<ValueId> = Vec::new();
        args.push(lhs);
        args.push(rhs);
        proof {
            assert(args@ =~= seq![lhs, rhs]);
        }
        match self.emit_native_call(&name, args) {
            Ok(v) => v,
            Err(_) => {
                proof {
                    assert(false);
                }
                ValueId(0)
            },
        }
    }

    /// Emit a call to the wrapping 64-bit float addition routine.
    pub fn call_f64_add_wrapping(&mut self, lhs: ValueId, rhs: ValueId) -> (r: ValueId)
        requires
            old(self).wf(),
            old(self).accepts_insts(),
            old(self).val_ok(lhs),
            old(self).val_ok(rhs),
            old(self).val_kind(lhs) is F64,
            old(self).val_kind(rhs) is F64,
            old(self).op_registered(NativeOpCall::Float64AddWrapping),
        ensures
            final(self).wf(),
            final(self).accepts_insts(),
            Self::calls_native(
                *old(self),
                *final(self),
                NativeOpCall::Float64AddWrapping.spec_name(),
                seq![lhs, rhs],
                Kind::F64,
                r,
            ),
            Self::frame_unchanged(*old(self), *final(self)),
    {
        self.call_binary(NativeOpCall::Float64AddWrapping, lhs, rhs)
    }

    /// Emit a call to the wrapping 64-bit float division routine.
    pub fn call_f64_div_wrapping(&mut self, lhs: ValueId, rhs: ValueId) -> (r: ValueId)
        requires
            old(self).wf(),
            old(self).accepts_insts(),
            old(self).val_ok(lhs),
            old(self).val_ok(rhs),
            old(self).val_kind(lhs) is F64,
            old(self).val_kind(rhs) is F64,
            old(self).op_registered(NativeOpCall::Float64DivWrapping),
        ensures
            final(self).wf(),
            final(self).accepts_insts(),
            Self::calls_native(
                *old(self),
                *final(self),
                NativeOpCall::Float64DivWrapping.spec_name(),
                seq![lhs, rhs],
                Kind::F64,
                r,
            ),
            Self::frame_unchanged(*old(self), *final(self)),
    {
        self.call_binary(NativeOpCall::Float64DivWrapping, lhs, rhs)
    }

    /// Emit a call to the 64-bit float `<` routine; the result is a
    /// boolean carrier.
    pub fn call_f64_lt(&mut self, lhs: ValueId, rhs: ValueId) -> (r: ValueId)
        requires
            old(self).wf(),
            old(self).accepts_insts(),
            old(self).val_ok(lhs),
            old(self).val_ok(rhs),
            old(self).val_kind(lhs) is F64,
            old(self).val_kind(rhs) is F64,
            old(self).op_registered(NativeOpCall::Float64Lt),
        ensures
            final(self).wf(),
            final(self).accepts_insts(),
            Self::calls_native(
                *old(self),
                *final(self),
                NativeOpCall::Float64Lt.spec_name(),
                seq![lhs, rhs],
                Kind::I8,
                r,
            ),
            Self::frame_unchanged(*old(self), *final(self)),
    {
        self.call_binary(NativeOpCall::Float64Lt, lhs, rhs)
    }
}

/// A fresh name pushed on well-named slots resolves to the pushed
/// slot.
pub proof fn lemma_slot_push(slots: Seq<StackSlotInfo>, s: StackSlotInfo)
    requires
        !has_slot(slots, s.name@),
    ensures
        has_slot(slots.push(s), s.name@),
        slot_index_of(slots.push(s), s.name@) == slots.len(),
        slot_of(slots.push(s), s.name@) == s,
{
    let pushed = slots.push(s);
    assert(pushed[slots.len() as int] == s);
    assert(has_slot(pushed, s.name@));
    let i = slot_index_of(pushed, s.name@);
    assert(0 <= i < pushed.len() && pushed[i].name@ == s.name@);
    if i < slots.len() {
        assert(slots[i] == pushed[i]);
        assert(has_slot(slots, s.name@));
    }
}

impl FuncGenContext {
    /// Find the slot of this name, if any.
    fn find_slot(&self, name: &str) -> (r: Option<usize>)
        requires
            self.wf(),
        ensures
            match r {
                Some(i) => has_slot(self.slots@, name@) && i as int == slot_index_of(
                    self.slots@,
                    name@,
                ) && i < self.slots@.len(),
                None => !has_slot(self.slots@, name@),
            },
    {
        let key: String = name.to_owned();
        let mut i: usize = 0;
        while i < self.slots.len()
            invariant
                i <= self.slots@.len(),
                key@ == name@,
                self.wf(),
                forall|j: int| 0 <= j < i ==> (#[trigger] self.slots@[j]).name@ != name@,
            decreases self.slots@.len() - i,
        {
            if self.slots[i].name == key {
                proof {
                    assert(self.slots@[i as int].name@ == name@);
                    assert(has_slot(self.slots@, name@));
                    let j = slot_index_of(self.slots@, name@);
                    assert(0 <= j < self.slots@.len() && self.slots@[j].name@ == name@);
                    if j != i as int {
                        assert(self.slots@[j].name@ == self.slots@[i as int].name@);
                    }
                }
                return Some(i);
            }
            i += 1;
        }
        None
    }

    /// Byte width the slot of `name` would occupy: pointer width for a
    /// reference slot, else the width of `kind`.
    pub open spec fn new_slot_width(is_ref: bool, kind: Kind) -> u32 {
        if is_ref {
            Kind::Ptr.spec_bytes()
        } else {
            kind.spec_bytes()
        }
    }

    /// `post` is `pre` with nothing changed except that `inst` was
    /// appended to the active block and the scratch frame may have
    /// grown by one slot.
    pub open spec fn stack_op_frame(pre: Self, post: Self) -> bool {
        &&& post.func_id == pre.func_id
        &&& post.name@ == pre.name@
        &&& post.sig@ == pre.sig@
        &&& post.ptype == pre.ptype
        &&& post.registry@ == pre.registry@
        &&& post.registry.wf() == pre.registry.wf()
        &&& post.stack_capacity == pre.stack_capacity
    }

    /// First use of a symbolic name allocates the next frame offset
    /// and records the slot's kind and reference-ness; any further use
    /// reuses the recorded slot.  Emits the store of `value` to the
    /// slot's offset.
    fn stack_store(&mut self, name: &str, is_ref: bool, kind: Kind, value: ValueId)
        requires
            old(self).wf(),
            old(self).accepts_insts(),
            old(self).stack_capacity > 0,
            old(self).val_ok(value),
            old(self).val_kind(value) == (if is_ref {
                Kind::Ptr
            } else {
                kind
            }),
            has_slot(old(self).slots@, name@) ==> {
                let s = slot_of(old(self).slots@, name@);
                s.is_ref == is_ref && s.kind == kind
            },
            !has_slot(old(self).slots@, name@) ==> old(self).stack_len + Self::new_slot_width(
                is_ref,
                kind,
            ) <= old(self).stack_capacity,
        ensures
            final(self).wf(),
            final(self).accepts_insts(),
            Self::stack_op_frame(*old(self), *final(self)),
            final(self).values@ == old(self).values@,
            final(self).func_refs@ == old(self).func_refs@,
            has_slot(final(self).slots@, name@),
            slot_of(final(self).slots@, name@).is_ref == is_ref,
            slot_of(final(self).slots@, name@).kind == kind,
            has_slot(old(self).slots@, name@) ==> {
                &&& final(self).slots@ == old(self).slots@
                &&& final(self).stack_len == old(self).stack_len
                &&& slot_of(final(self).slots@, name@) == slot_of(old(self).slots@, name@)
                &&& Self::emits_into_current(
                    *old(self),
                    *final(self),
                    Inst::StackStore { value, offset: slot_of(old(self).slots@, name@).offset },
                )
            },
            !has_slot(old(self).slots@, name@) ==> {
                &&& final(self).slots@.len() == old(self).slots@.len() + 1
                &&& forall|i: int|
                    0 <= i < old(self).slots@.len() ==> #[trigger] final(self).slots@[i]
                        == old(self).slots@[i]
                &&& slot_of(final(self).slots@, name@).offset == old(self).stack_len
                &&& slot_index_of(final(self).slots@, name@) == old(self).slots@.len()
                &&& final(self).slots@.last().name@ == name@
                &&& final(self).stack_len == old(self).stack_len + Self::new_slot_width(
                    is_ref,
                    kind,
                )
                &&& Self::emits_into_current(
                    *old(self),
                    *final(self),
                    Inst::StackStore { value, offset: old(self).stack_len },
                )
            },
    {
        match self.find_slot(name) {
            Some(i) => {
                let off = self.slots[i].offset;
                self.emit_void(Inst::StackStore { value, offset: off });
            },
            None => {
                let width = if is_ref {
                    Kind::Ptr.bytes()
                } else {
                    kind.bytes()
                };
                let off = self.stack_len;
                let slot = StackSlotInfo { name: name.to_owned(), kind, is_ref, offset: off };
                proof {
                    lemma_slot_push(self.slots@, slot);
                }
                self.slots.push(slot);
                self.stack_len = off + width;
                proof {
                    assert forall|i: int, j: int|
                        0 <= i < j < self.slots@.len() implies (#[trigger] self.slots@[i]).name@
                        != (#[trigger] self.slots@[j]).name@ by {
                        if j < old(self).slots@.len() {
                        } else {
                            assert(self.slots@[j] == slot);
                            if self.slots@[i].name@ == slot.name@ {
                                assert(has_slot(old(self).slots@, name@));
                            }
                        }
                    }
                    assert(slots_wf(self.slots@, self.stack_len, self.stack_capacity));
                }
                self.emit_void(Inst::StackStore { value, offset: off });
            },
        }
    }

    /// Store a pointer into the reference slot called `name`; the slot
    /// is created at the next free offset on first use.
    pub fn stack_store_ref(&mut self, name: &str, value_type: Kind, reference: ValueId)
        requires
            old(self).wf(),
            old(self).accepts_insts(),
            old(self).stack_capacity > 0,
            old(self).val_ok(reference),
            old(self).val_kind(reference) is Ptr,
            has_slot(old(self).slots@, name@) ==> {
                let s = slot_of(old(self).slots@, name@);
                s.is_ref && s.kind == value_type
            },
            !has_slot(old(self).slots@, name@) ==> old(self).stack_len + Kind::Ptr.spec_bytes()
                <= old(self).stack_capacity,
        ensures
            final(self).wf(),
            final(self).accepts_insts(),
            Self::stack_op_frame(*old(self), *final(self)),
            final(self).values@ == old(self).values@,
            final(self).func_refs@ == old(self).func_refs@,
            has_slot(final(self).slots@, name@),
            slot_of(final(self).slots@, name@).is_ref,
            slot_of(final(self).slots@, name@).kind == value_type,
            has_slot(old(self).slots@, name@) ==> final(self).slots@ == old(self).slots@
                && final(self).stack_len == old(self).stack_len
                && slot_of(final(self).slots@, name@) == slot_of(old(self).slots@, name@)
                && Self::emits_into_current(
                *old(self),
                *final(self),
                Inst::StackStore { value: reference, offset: slot_of(old(self).slots@, name@).offset },
            ),
            !has_slot(old(self).slots@, name@) ==> {
                &&& final(self).slots@.len() == old(self).slots@.len() + 1
                &&& forall|i: int|
                    0 <= i < old(self).slots@.len() ==> #[trigger] final(self).slots@[i]
                        == old(self).slots@[i]
                &&& slot_index_of(final(self).slots@, name@) == old(self).slots@.len()
                &&& slot_of(final(self).slots@, name@).offset == old(self).stack_len
                &&& final(self).stack_len == old(self).stack_len + Kind::Ptr.spec_bytes()
                &&& Self::emits_into_current(
                    *old(self),
                    *final(self),
                    Inst::StackStore { value: reference, offset: old(self).stack_len },
                )
            },
    {
        self.stack_store(name, true, value_type, reference);
    }

    /// Store a plain value into the value slot called `name`; the slot
    /// is created at the next free offset on first use.
    pub fn stack_store_value(&mut self, name: &str, kind: Kind, value: ValueId)
        requires
            old(self).wf(),
            old(self).accepts_insts(),
            old(self).stack_capacity > 0,
            old(self).val_ok(value),
            old(self).val_kind(value) == kind,
            has_slot(old(self).slots@, name@) ==> {
                let s = slot_of(old(self).slots@, name@);
                !s.is_ref && s.kind == kind
            },
            !has_slot(old(self).slots@, name@) ==> old(self).stack_len + kind.spec_bytes()
                <= old(self).stack_capacity,
        ensures
            final(self).wf(),
            final(self).accepts_insts(),
            Self::stack_op_frame(*old(self), *final(self)),
            final(self).values@ == old(self).values@,
            final(self).func_refs@ == old(self).func_refs@,
            has_slot(final(self).slots@, name@),
            !slot_of(final(self).slots@, name@).is_ref,
            slot_of(final(self).slots@, name@).kind == kind,
            has_slot(old(self).slots@, name@) ==> final(self).slots@ == old(self).slots@
                && final(self).stack_len == old(self).stack_len
                && slot_of(final(self).slots@, name@) == slot_of(old(self).slots@, name@)
                && Self::emits_into_current(
                *old(self),
                *final(self),
                Inst::StackStore { value, offset: slot_of(old(self).slots@, name@).offset },
            ),
            !has_slot(old(self).slots@, name@) ==> {
                &&& final(self).slots@.len() == old(self).slots@.len() + 1
                &&& forall|i: int|
                    0 <= i < old(self).slots@.len() ==> #[trigger] final(self).slots@[i]
                        == old(self).slots@[i]
                &&& slot_index_of(final(self).slots@, name@) == old(self).slots@.len()
                &&& slot_of(final(self).slots@, name@).offset == old(self).stack_len
                &&& final(self).stack_len == old(self).stack_len + kind.spec_bytes()
                &&& Self::emits_into_current(
                    *old(self),
                    *final(self),
                    Inst::StackStore { value, offset: old(self).stack_len },
                )
            },
    {
        self.stack_store(name, false, kind, value);
    }

    /// Read the slot called `name` back from the frame: the stored
    /// pointer for a reference slot, else the stored value.
    pub fn stack_load_value(&mut self, name: &str) -> (r: ValueId)
        requires
            old(self).wf(),
            old(self).accepts_insts(),
            has_slot(old(self).slots@, name@),
        ensures
            final(self).wf(),
            final(self).accepts_insts(),
            Self::emits_into_current(
                *old(self),
                *final(self),
                Inst::StackLoad {
                    kind: if slot_of(old(self).slots@, name@).is_ref {
                        Kind::Ptr
                    } else {
                        slot_of(old(self).slots@, name@).kind
                    },
                    offset: slot_of(old(self).slots@, name@).offset,
                    result: r,
                },
            ),
            Self::defines_value(
                *old(self),
                *final(self),
                r,
                if slot_of(old(self).slots@, name@).is_ref {
                    Kind::Ptr
                } else {
                    slot_of(old(self).slots@, name@).kind
                },
                ValueDef::StackLoad { offset: slot_of(old(self).slots@, name@).offset },
            ),
            final(self).func_refs@ == old(self).func_refs@,
            Self::frame_unchanged(*old(self), *final(self)),
    {
        let i = match self.find_slot(name) {
            Some(i) => i,
            None => {
                proof {
                    assert(false);
                }
                0
            },
        };
        let kind = if self.slots[i].is_ref {
            Kind::Ptr
        } else {
            self.slots[i].kind
        };
        let off = self.slots[i].offset;
        let r = ValueId(self.values.len());
        self.emit(
            kind,
            ValueDef::StackLoad { offset: off },
            Inst::StackLoad { kind, offset: off, result: r },
        )
    }

    /// Store `value` through the pointer held in the reference slot
    /// called `name`, at lane `index` of the buffer it points to: the
    /// byte offset is `index` times the slot kind's width.
    pub fn stack_store_ref_data(&mut self, name: &str, value: ValueId, index: u32)
        requires
            old(self).wf(),
            old(self).accepts_insts(),
            old(self).val_ok(value),
            has_slot(old(self).slots@, name@),
            slot_of(old(self).slots@, name@).is_ref,
            old(self).val_kind(value) == slot_of(old(self).slots@, name@).kind,
            slot_of(old(self).slots@, name@).kind.spec_bytes() * index <= 0x7fff_ffff,
        ensures
            final(self).wf(),
            final(self).accepts_insts(),
            final(self).values@.len() == old(self).values@.len() + 1,
            forall|i: int|
                0 <= i < old(self).values@.len() ==> #[trigger] final(self).values@[i]
                    == old(self).values@[i],
            final(self).cur_insts().len() == old(self).cur_insts().len() + 2,
            forall|i: int|
                0 <= i < old(self).cur_insts().len() ==> #[trigger] final(self).cur_insts()[i]
                    == old(self).cur_insts()[i],
            final(self).cur_insts()[old(self).cur_insts().len() as int] == (Inst::StackLoad {
                kind: Kind::Ptr,
                offset: slot_of(old(self).slots@, name@).offset,
                result: ValueId(old(self).values@.len() as usize),
            }),
            final(self).cur_insts().last() == (Inst::Store {
                value,
                addr: ValueId(old(self).values@.len() as usize),
                offset: (slot_of(old(self).slots@, name@).kind.spec_bytes() * index) as u32,
            }),
            final(self).func_refs@ == old(self).func_refs@,
            Self::frame_unchanged(*old(self), *final(self)),
    {
        let i = match self.find_slot(name) {
            Some(i) => i,
            None => {
                proof {
                    assert(false);
                }
                0
            },
        };
        let width = self.slots[i].kind.bytes();
        let off = width * index;
        let reference = self.stack_load_value(name);
        self.store(value, reference, off);
    }

    /// Load one lane of the buffer the reference slot called `name`
    /// points to: the byte offset is `index` times the slot kind's
    /// width, and the result carries the slot's kind.
    pub fn stack_load_ref_data(&mut self, name: &str, index: u32) -> (r: ValueId)
        requires
            old(self).wf(),
            old(self).accepts_insts(),
            has_slot(old(self).slots@, name@),
            slot_of(old(self).slots@, name@).is_ref,
            slot_of(old(self).slots@, name@).kind.spec_bytes() * index <= 0x7fff_ffff,
        ensures
            final(self).wf(),
            final(self).accepts_insts(),
            final(self).values@.len() == old(self).values@.len() + 2,
            forall|i: int|
                0 <= i < old(self).values@.len() ==> #[trigger] final(self).values@[i]
                    == old(self).values@[i],
            r.0 == old(self).values@.len() + 1,
            final(self).val_kind(r) == slot_of(old(self).slots@, name@).kind,
            final(self).values@[r.0 as int].def == (ValueDef::Load {
                addr: ValueId(old(self).values@.len() as usize),
                offset: (slot_of(old(self).slots@, name@).kind.spec_bytes() * index) as u32,
            }),
            final(self).values@[old(self).values@.len() as int].kind == Kind::Ptr,
            final(self).values@[old(self).values@.len() as int].def == (ValueDef::StackLoad {
                offset: slot_of(old(self).slots@, name@).offset,
            }),
            final(self).cur_insts().len() == old(self).cur_insts().len() + 2,
            forall|i: int|
                0 <= i < old(self).cur_insts().len() ==> #[trigger] final(self).cur_insts()[i]
                    == old(self).cur_insts()[i],
            final(self).cur_insts()[old(self).cur_insts().len() as int] == (Inst::StackLoad {
                kind: Kind::Ptr,
                offset: slot_of(old(self).slots@, name@).offset,
                result: ValueId(old(self).values@.len() as usize),
            }),
            final(self).cur_insts().last() == (Inst::Load {
                kind: slot_of(old(self).slots@, name@).kind,
                addr: ValueId(old(self).values@.len() as usize),
                offset: (slot_of(old(self).slots@, name@).kind.spec_bytes() * index) as u32,
                result: r,
            }),
            final(self).func_refs@ == old(self).func_refs@,
            Self::frame_unchanged(*old(self), *final(self)),
    {
        let i = match self.find_slot(name) {
            Some(i) => i,
            None => {
                proof {
                    assert(false);
                }
                0
            },
        };
        let kind = self.slots[i].kind;
        let width = kind.bytes();
        let off = width * index;
        let reference = self.stack_load_value(name);
        self.load(kind, reference, off)
    }

    /// Give the function its scratch stack frame: a fixed-capacity,
    /// byte-addressable region that slots are carved out of.  The
    /// frame grows monotonically during the build, never shrinks, and
    /// is gone once the build is finalized.
    pub fn make_static_stack(&mut self, capacity: u32)
        requires
            old(self).wf(),
            capacity > 0,
            old(self).stack_capacity == 0,
            old(self).stack_len == 0,
            old(self).slots@.len() == 0,
        ensures
            final(self).wf(),
            *final(self) == (FuncGenContext { stack_capacity: capacity, ..*old(self) }),
    {
        self.stack_capacity = capacity;
    }
}

/// The scratch frame's contents after a block's instructions ran, as
/// a map from byte offset to the value last stored there.  Only frame
/// stores write it; loads and everything else leave it alone.
pub open spec fn frame_model(insts: Seq<Inst>) -> Map<u32, ValueId>
    decreases insts.len(),
{
    if insts.len() == 0 {
        Map::empty()
    } else {
        let m = frame_model(insts.drop_last());
        match insts.last() {
            Inst::StackStore { value, offset } => m.insert(offset, value),
            _ => m,
        }
    }
}

/// Storing a value slot by name and then loading that name reads the
/// very frame offset the store wrote, and the frame holds the stored
/// value there: the load returns the last stored value.  `pre`, `mid`
/// and `post` are the build before the store, between the two
/// operations, and after the load, as the contracts of
/// [`FuncGenContext::stack_store_value`] and
/// [`FuncGenContext::stack_load_value`] describe them.
pub proof fn lemma_store_then_load_value(
    pre: Seq<Inst>,
    mid: Seq<Inst>,
    post: Seq<Inst>,
    value: ValueId,
    off: u32,
    kind: Kind,
    r: ValueId,
)
    requires
        mid == pre.push(Inst::StackStore { value, offset: off }),
        post == mid.push(Inst::StackLoad { kind, offset: off, result: r }),
    ensures
        frame_model(post) == frame_model(pre).insert(off, value),
        frame_model(post)[off] == value,
{
    assert(post.drop_last() =~= mid);
    assert(mid.drop_last() =~= pre);
    assert(post.last() == (Inst::StackLoad { kind, offset: off, result: r }));
    assert(frame_model(post) == frame_model(mid));
    assert(mid.last() == (Inst::StackStore { value, offset: off }));
    assert(frame_model(mid) == frame_model(pre).insert(off, value));
}

/// Allocating a second, distinct name advances the frame offset
/// without aliasing the first slot: the byte ranges of any two slots
/// of one frame are disjoint, the earlier slot ending at or before
/// the later one begins.
pub proof fn lemma_distinct_slots_disjoint(
    slots: Seq<StackSlotInfo>,
    stack_len: u32,
    capacity: u32,
    n1: Seq<char>,
    n2: Seq<char>,
)
    requires
        slots_wf(slots, stack_len, capacity),
        has_slot(slots, n1),
        has_slot(slots, n2),
        n1 != n2,
    ensures
        slot_of(slots, n1).offset + slot_width(slot_of(slots, n1)) <= slot_of(slots, n2).offset
            || slot_of(slots, n2).offset + slot_width(slot_of(slots, n2)) <= slot_of(
            slots,
            n1,
        ).offset,
{
    let i = slot_index_of(slots, n1);
    let j = slot_index_of(slots, n2);
    assert(0 <= i < slots.len() && slots[i].name@ == n1);
    assert(0 <= j < slots.len() && slots[j].name@ == n2);
    assert(i != j);
}

/// The finished body of one function: what the compilation unit links
/// and an embedder lowers to machine code.  It is plain data; all
/// structural checks already held during construction.
#[derive(Clone, Debug)]
pub struct FunctionSpec {
    pub func_id: FuncId,
    pub name: String,
    pub sig: Signature,
    pub ptype: Kind,
    pub blocks: Vec<Block>,
    pub values: Vec<ValueInfo>,
    pub func_refs: Vec<String>,
    pub stack_capacity: u32,
    pub slots: Vec<StackSlotInfo>,
}

impl FunctionSpec {
    /// Structural soundness carried over from the build.
    pub open spec fn wf(self) -> bool {
        &&& values_wf(self.values@)
        &&& blocks_wf(self.blocks@, self.values@)
    }

    /// Every block has declared its final predecessor set.
    pub open spec fn all_sealed(self) -> bool {
        forall|b: int| 0 <= b < self.blocks@.len() ==> (#[trigger] self.blocks@[b]).sealed
    }

    /// Every block ends in a terminator.
    pub open spec fn all_terminated(self) -> bool {
        forall|b: int| 0 <= b < self.blocks@.len() ==> (#[trigger] self.blocks@[b]).terminated
    }

    /// The kind of a value of the function.
    pub open spec fn val_kind(self, v: ValueId) -> Kind {
        self.values@[v.0 as int].kind
    }
}

impl FuncGenContext {
    /// Finish the build: emit the return with the declared result
    /// values (possibly none), seal every block, and hand the body to
    /// the owning compilation unit.  The build context is consumed;
    /// a finished function is single-use input to linking.
    pub fn finalize(self, results: Vec<ValueId>) -> (r: FunctionSpec)
        requires
            self.wf(),
            self.accepts_insts(),
            results@.len() == self.sig@.returns.len(),
            forall|i: int|
                0 <= i < results@.len() ==> (#[trigger] results@[i]).0 < self.values@.len()
                    && self.val_kind(results@[i]) == self.sig@.returns[i],
            forall|b: int|
                0 <= b < self.blocks@.len() && b != self.cur_idx()
                    ==> (#[trigger] self.blocks@[b]).terminated,
        ensures
            r.wf(),
            r.all_sealed(),
            r.all_terminated(),
            r.func_id == self.func_id,
            r.name@ == self.name@,
            r.sig@ == self.sig@,
            r.ptype == self.ptype,
            r.values@ == self.values@,
            r.func_refs@ == self.func_refs@,
            r.stack_capacity == self.stack_capacity,
            r.slots@ == self.slots@,
            r.blocks@.len() == self.blocks@.len(),
            forall|b: int|
                0 <= b < self.blocks@.len() && b != self.cur_idx() ==> #[trigger] r.blocks@[b]
                    == (Block { sealed: true, ..self.blocks@[b] }),
            r.blocks@[self.cur_idx()].insts@.len() == self.cur_insts().len() + 1,
            forall|i: int|
                0 <= i < self.cur_insts().len() ==> #[trigger] r.blocks@[self.cur_idx()].insts@[i]
                    == self.cur_insts()[i],
            (r.blocks@[self.cur_idx()].insts@.last() matches Inst::Return { values: vs }
                && vs@ == results@),
            r.blocks@[self.cur_idx()].param_kinds@ == self.blocks@[self.cur_idx()].param_kinds@,
            r.blocks@[self.cur_idx()].param_vals@ == self.blocks@[self.cur_idx()].param_vals@,
            r.blocks@[self.cur_idx()].sealed,
            r.blocks@[self.cur_idx()].terminated,
    {
        let mut ctx = self;
        let ghost ctx0 = ctx;
        ctx.emit_terminator(Inst::Return { values: results });
        let ghost ctx1 = ctx;
        let n = ctx.blocks.len();
        let mut b: usize = 0;
        while b < n
            invariant
                ctx.wf(),
                b <= n,
                n == ctx.blocks@.len(),
                ctx.blocks@.len() == ctx1.blocks@.len(),
                forall|j: int|
                    0 <= j < b ==> #[trigger] ctx.blocks@[j] == (Block {
                        sealed: true,
                        ..ctx1.blocks@[j]
                    }),
                forall|j: int| b <= j < n ==> #[trigger] ctx.blocks@[j] == ctx1.blocks@[j],
                ctx.values@ == ctx1.values@,
                ctx.func_refs@ == ctx1.func_refs@,
                ctx.current == ctx1.current,
                FuncGenContext::frame_unchanged(ctx1, ctx),
                ctx.func_id == ctx1.func_id,
            decreases n - b,
        {
            ctx.seal_block(BlockId(b));
            b += 1;
        }
        let r = FunctionSpec {
            func_id: ctx.func_id,
            name: ctx.name,
            sig: ctx.sig,
            ptype: ctx.ptype,
            blocks: ctx.blocks,
            values: ctx.values,
            func_refs: ctx.func_refs,
            stack_capacity: ctx.stack_capacity,
            slots: ctx.slots,
        };
        proof {
            assert(blocks_wf(r.blocks@, r.values@)) by {
                assert forall|bb: int, i: int|
                    0 <= bb < r.blocks@.len() && 0 <= i < r.blocks@[bb].param_vals@.len()
                        implies #[trigger] block_param_ok(r.blocks@, r.values@, bb, i) by {
                    assert(block_param_ok(ctx1.blocks@, ctx1.values@, bb, i));
                    assert(r.blocks@[bb].param_vals@ == ctx1.blocks@[bb].param_vals@);
                    assert(r.blocks@[bb].param_kinds@ == ctx1.blocks@[bb].param_kinds@);
                }
            }
        }
        r
    }
}

} // verus!
