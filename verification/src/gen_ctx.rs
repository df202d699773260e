use vstd::prelude::*;

use crate::error::{BuildError, RegistryError};
use crate::func_gen::{FuncGenContext, FuncId, FunctionSpec};
use crate::kind::{CallConv, Kind, Signature};
use crate::native_opcall::NativeOpCall;
use crate::registry::{contains_op, resolved_op, NativeOpCallRegistry, NativeOperation, OpModel};

verus! {

/// Configures and creates one compilation unit: which native routines
/// it may call, and whether the build is traced.
pub struct CodegenContextBuilder {
    pub debug: bool,
    pub registry: NativeOpCallRegistry,
}

impl CodegenContextBuilder {
    /// A builder with an empty native-operation catalog.
    pub fn new() -> (r: CodegenContextBuilder)
        ensures
            !r.debug,
            r.registry@ == Seq::<OpModel>::empty(),
            r.registry.wf(),
    {
        CodegenContextBuilder { debug: false, registry: NativeOpCallRegistry::new() }
    }

    /// Ask the unit to trace what it builds.
    pub fn debug(self) -> (r: CodegenContextBuilder)
        ensures
            r.debug,
            r.registry@ == self.registry@,
            r.registry.wf() == self.registry.wf(),
    {
        CodegenContextBuilder { debug: true, ..self }
    }

    /// Register a native routine for the unit to bind calls to.
    /// Fails with `DuplicateOperation` exactly when the name is taken.
    pub fn register_func(self, op: NativeOperation) -> (r: Result<
        CodegenContextBuilder,
        RegistryError,
    >)
        requires
            self.registry.wf(),
        ensures
            contains_op(self.registry@, op@.name) ==> (r matches Err(
                RegistryError::DuplicateOperation(n),
            ) && n@ == op@.name),
            !contains_op(self.registry@, op@.name) ==> (r matches Ok(b) && b.registry@
                == self.registry@.push(op@) && b.registry.wf() && b.debug == self.debug),
    {
        let mut this = self;
        match this.registry.register(op) {
            Ok(_) => Ok(this),
            Err(e) => Err(e),
        }
    }

    /// Register one of the standard native operations, backed by code
    /// at `address`, under its canonical name and signature.
    pub fn register_opcall(self, op: NativeOpCall, address: usize) -> (r: Result<
        CodegenContextBuilder,
        RegistryError,
    >)
        requires
            self.registry.wf(),
        ensures
            contains_op(self.registry@, op.spec_name()) ==> (r matches Err(
                RegistryError::DuplicateOperation(n),
            ) && n@ == op.spec_name()),
            !contains_op(self.registry@, op.spec_name()) ==> (r matches Ok(b) && {
                &&& b.registry.wf()
                &&& b.debug == self.debug
                &&& b.registry@.len() == self.registry@.len() + 1
                &&& forall|i: int|
                    0 <= i < self.registry@.len() ==> #[trigger] b.registry@[i]
                        == self.registry@[i]
                &&& b.registry@.last().name == op.spec_name()
                &&& b.registry@.last().params == op.spec_signature().0
                &&& b.registry@.last().returns == op.spec_signature().1
                &&& b.registry@.last().address == address
            }),
    {
        let name = op.name().to_owned();
        let sig = op.signature();
        self.register_func(NativeOperation { name, sig, address })
    }

    /// Finish configuration and create the compilation unit.
    pub fn finish(self) -> (r: CodegenContext)
        requires
            self.registry.wf(),
        ensures
            r.registry@ == self.registry@,
            r.registry.wf(),
            r.debug == self.debug,
            r.declared@ == Seq::<String>::empty(),
    {
        let r = CodegenContext { registry: self.registry, declared: Vec::new(), debug: self.debug };
        proof {
            assert(r.declared@ =~= Seq::<String>::empty());
        }
        r
    }
}

/// One compilation unit: it owns the native-operation catalog, hands
/// out per-function build contexts, and finalizes finished bodies for
/// lowering.  A unit holds non-shareable mutable state and wants
/// exclusive access for its whole lifetime.
pub struct CodegenContext {
    pub registry: NativeOpCallRegistry,
    /// Names of the functions declared so far; a function's identifier
    /// is its position here.
    pub declared: Vec<String>,
    pub debug: bool,
}

/// Does the unit already have a function of this name?
pub open spec fn has_declared(declared: Seq<String>, name: Seq<char>) -> bool {
    exists|i: int| 0 <= i < declared.len() && declared[i]@ == name
}

impl CodegenContext {
    /// Start configuring a unit.
    pub fn builder() -> (r: CodegenContextBuilder)
        ensures
            !r.debug,
            r.registry@ == Seq::<OpModel>::empty(),
            r.registry.wf(),
    {
        CodegenContextBuilder::new()
    }

    /// The target pointer kind of the unit.
    pub fn ptype(&self) -> (r: Kind)
        ensures
            r == Kind::Ptr,
    {
        Kind::Ptr
    }

    /// Function names are unique and the catalog is well formed.
    pub open spec fn wf(self) -> bool {
        &&& self.registry.wf()
        &&& forall|i: int, j: int|
            0 <= i < j < self.declared@.len() ==> (#[trigger] self.declared@[i])@
                != (#[trigger] self.declared@[j])@
    }

    /// Is this standard operation in the catalog, under its canonical
    /// signature?
    pub open spec fn op_registered(self, op: NativeOpCall) -> bool {
        &&& contains_op(self.registry@, op.spec_name())
        &&& resolved_op(self.registry@, op.spec_name()).params == op.spec_signature().0
        &&& resolved_op(self.registry@, op.spec_name()).returns == op.spec_signature().1
    }

    /// Find the position of a declared function name.
    fn position_of_declared(&self, name: &String) -> (r: Option<usize>)
        requires
            self.wf(),
        ensures
            match r {
                Some(i) => i < self.declared@.len() && self.declared@[i as int]@ == name@,
                None => !has_declared(self.declared@, name@),
            },
    {
        let mut i: usize = 0;
        while i < self.declared.len()
            invariant
                i <= self.declared@.len(),
                forall|j: int| 0 <= j < i ==> (#[trigger] self.declared@[j])@ != name@,
            decreases self.declared@.len() - i,
        {
            if self.declared[i] == *name {
                return Some(i);
            }
            i += 1;
        }
        None
    }

    /// Declare a function and open a build context for its body: the
    /// declared parameter and return kinds become the signature, in
    /// the module's fast calling convention, and the context carries a
    /// snapshot of the unit's catalog for resolving native calls.
    ///
    /// The name must be unique within the unit; a duplicate fails with
    /// `DuplicateFunction` and declares nothing.
    pub fn create_func_gen_ctx(&mut self, name: &str, params: Vec<Kind>, rets: Vec<Kind>) -> (r:
        Result<FuncGenContext, BuildError>)
        requires
            old(self).wf(),
        ensures
            final(self).wf(),
            final(self).registry@ == old(self).registry@,
            final(self).debug == old(self).debug,
            has_declared(old(self).declared@, name@) ==> (r matches Err(
                BuildError::DuplicateFunction(n),
            ) && n@ == name@) && final(self).declared@ == old(self).declared@,
            !has_declared(old(self).declared@, name@) ==> (r matches Ok(ctx) && {
                &&& ctx.wf()
                &&& ctx.func_id == FuncId(old(self).declared@.len() as usize)
                &&& ctx.name@ == name@
                &&& ctx.sig@.params == params@
                &&& ctx.sig@.returns == rets@
                &&& ctx.sig@.call_conv == CallConv::Fast
                &&& ctx.ptype == Kind::Ptr
                &&& ctx.registry@ == old(self).registry@
                &&& ctx.blocks@ == Seq::<crate::func_gen::Block>::empty()
                &&& ctx.current is None
                &&& ctx.values@ == Seq::<crate::func_gen::ValueInfo>::empty()
                &&& ctx.func_refs@ == Seq::<String>::empty()
                &&& ctx.stack_capacity == 0
                &&& ctx.stack_len == 0
                &&& ctx.slots@ == Seq::<crate::func_gen::StackSlotInfo>::empty()
                &&& final(self).declared@.len() == old(self).declared@.len() + 1
                &&& forall|i: int|
                    0 <= i < old(self).declared@.len() ==> #[trigger] final(self).declared@[i]
                        == old(self).declared@[i]
                &&& final(self).declared@.last()@ == name@
            }),
    {
        let key: String = name.to_owned();
        match self.position_of_declared(&key) {
            Some(_) => Err(BuildError::DuplicateFunction(key)),
            None => {
                let func_id = FuncId(self.declared.len());
                self.declared.push(key);
                proof {
                    assert forall|i: int, j: int|
                        0 <= i < j < self.declared@.len() implies (#[trigger] self.declared@[i])@
                        != (#[trigger] self.declared@[j])@ by {
                        if j < old(self).declared@.len() {
                        } else {
                            assert(self.declared@[j]@ == name@);
                            if self.declared@[i]@ == name@ {
                                assert(has_declared(old(self).declared@, name@));
                            }
                        }
                    }
                }
                let ctx = FuncGenContext {
                    func_id,
                    name: name.to_owned(),
                    sig: Signature { params, returns: rets, call_conv: CallConv::Fast },
                    ptype: Kind::Ptr,
                    registry: self.registry.snapshot(),
                    blocks: Vec::new(),
                    current: None,
                    values: Vec::new(),
                    func_refs: Vec::new(),
                    stack_capacity: 0,
                    stack_len: 0,
                    slots: Vec::new(),
                };
                proof {
                    assert(ctx.blocks@ =~= Seq::<crate::func_gen::Block>::empty());
                    assert(ctx.values@ =~= Seq::<crate::func_gen::ValueInfo>::empty());
                    assert(ctx.func_refs@ =~= Seq::<String>::empty());
                    assert(ctx.slots@ =~= Seq::<crate::func_gen::StackSlotInfo>::empty());
                }
                Ok(ctx)
            },
        }
    }

    /// Link one finished function body: the unit is consumed and the
    /// result owns everything an embedder needs to lower the body to a
    /// callable entry point and bind the imported routine addresses.
    /// A malformed body never reaches this point: the build context
    /// refuses it during construction.
    pub fn finalize(self, func: FunctionSpec) -> (r: CompiledUnit)
        requires
            self.wf(),
            func.wf(),
            func.all_sealed(),
            func.all_terminated(),
            func.blocks@.len() > 0,
        ensures
            r.registry@ == self.registry@,
            r.registry.wf(),
            r.function == func,
            r.function.wf(),
            r.function.all_sealed(),
            r.function.all_terminated(),
    {
        CompiledUnit { registry: self.registry, function: func }
    }
}

/// The linked output of one compilation unit: a finished function
/// body and the catalog whose routine addresses it imports.  An
/// embedder lowers this to machine code; the code's memory then lives
/// as long as the unit's module.
pub struct CompiledUnit {
    pub registry: NativeOpCallRegistry,
    pub function: FunctionSpec,
}

} // verus!
