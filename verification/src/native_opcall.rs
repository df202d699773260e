use vstd::prelude::*;

use crate::kind::{CallConv, Kind, Signature};

verus! {

/// The precompiled native helper routines that generated code may call
/// instead of lowering the operation to inline instructions.  Their
/// numeric semantics (rounding, overflow policy) stay with the vetted
/// native code that backs them.
#[derive(Clone, Copy, Debug, PartialEq, Eq, Structural)]
pub enum NativeOpCall {
    Float64AddWrapping,
    Float64DivWrapping,
    Float64Lt,
}

impl NativeOpCall {
    /// Every operation, in the order the module builder imports them.
    pub fn all_opcalls() -> (r: Vec<NativeOpCall>)
        ensures
            r@ == seq![
                NativeOpCall::Float64AddWrapping,
                NativeOpCall::Float64DivWrapping,
                NativeOpCall::Float64Lt,
            ],
    {
        let mut ops: Vec<NativeOpCall> = Vec::new();
        ops.push(NativeOpCall::Float64AddWrapping);
        ops.push(NativeOpCall::Float64DivWrapping);
        ops.push(NativeOpCall::Float64Lt);
        proof {
            assert(ops@ =~= seq![
                NativeOpCall::Float64AddWrapping,
                NativeOpCall::Float64DivWrapping,
                NativeOpCall::Float64Lt,
            ]);
        }
        ops
    }

    /// The import symbol of this operation.
    pub open spec fn spec_name(self) -> Seq<char> {
        match self {
            NativeOpCall::Float64AddWrapping => "Float64AddWrapping"@,
            NativeOpCall::Float64DivWrapping => "Float64DivWrapping"@,
            NativeOpCall::Float64Lt => "Float64Lt"@,
        }
    }

    /// The import symbol of this operation.
    pub fn name(&self) -> (r: &'static str)
        ensures
            r@ == self.spec_name(),
    {
        match self {
            NativeOpCall::Float64AddWrapping => "Float64AddWrapping",
            NativeOpCall::Float64DivWrapping => "Float64DivWrapping",
            NativeOpCall::Float64Lt => "Float64Lt",
        }
    }

    /// The signature every backing routine must expose: two scalar
    /// operands, one result, in the module's fast calling convention.
    pub open spec fn spec_signature(self) -> (Seq<Kind>, Seq<Kind>, CallConv) {
        match self {
            NativeOpCall::Float64AddWrapping | NativeOpCall::Float64DivWrapping => (
                seq![Kind::F64, Kind::F64],
                seq![Kind::F64],
                CallConv::Fast,
            ),
            NativeOpCall::Float64Lt => (seq![Kind::F64, Kind::F64], seq![Kind::I8], CallConv::Fast),
        }
    }

    /// The signature every backing routine must expose.
    pub fn signature(&self) -> (r: Signature)
        ensures
            r@.params == self.spec_signature().0,
            r@.returns == self.spec_signature().1,
            r@.call_conv == self.spec_signature().2,
    {
        let mut params: Vec<Kind> = Vec::new();
        params.push(Kind::F64);
        params.push(Kind::F64);
        let mut rets: Vec<Kind> = Vec::new();
        match self {
            NativeOpCall::Float64AddWrapping | NativeOpCall::Float64DivWrapping => {
                rets.push(Kind::F64);
            },
            NativeOpCall::Float64Lt => {
                rets.push(Kind::I8);
            },
        }
        proof {
            assert(params@ =~= seq![Kind::F64, Kind::F64]);
            assert(rets@ =~= self.spec_signature().1);
        }
        Signature { params, returns: rets, call_conv: CallConv::Fast }
    }
}

/// The standard operation a symbol name refers to, if any.
pub fn opcall_of_name(name: &String) -> (r: Option<NativeOpCall>)
    ensures
        match r {
            Some(op) => name@ == op.spec_name(),
            None => {
                &&& name@ != NativeOpCall::Float64AddWrapping.spec_name()
                &&& name@ != NativeOpCall::Float64DivWrapping.spec_name()
                &&& name@ != NativeOpCall::Float64Lt.spec_name()
            },
        },
{
    let add_name: String = NativeOpCall::Float64AddWrapping.name().to_owned();
    let div_name: String = NativeOpCall::Float64DivWrapping.name().to_owned();
    let lt_name: String = NativeOpCall::Float64Lt.name().to_owned();
    if *name == add_name {
        Some(NativeOpCall::Float64AddWrapping)
    } else if *name == div_name {
        Some(NativeOpCall::Float64DivWrapping)
    } else if *name == lt_name {
        Some(NativeOpCall::Float64Lt)
    } else {
        None
    }
}

/// The three import symbols are pairwise distinct; registering all
/// operations therefore never reports a duplicate.
pub proof fn lemma_opcall_names_distinct()
    ensures
        forall|a: NativeOpCall, b: NativeOpCall|
            a.spec_name() == b.spec_name() ==> a == b,
{
    reveal_strlit("Float64AddWrapping");
    reveal_strlit("Float64DivWrapping");
    reveal_strlit("Float64Lt");
    assert forall|a: NativeOpCall, b: NativeOpCall|
        a.spec_name() == b.spec_name() implies a == b by {
        if a != b {
            assert(a.spec_name().len() != b.spec_name().len() || a.spec_name()[7]
                != b.spec_name()[7]);
        }
    }
}

} // verus!
