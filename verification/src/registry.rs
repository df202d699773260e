use vstd::prelude::*;

use crate::error::RegistryError;
use crate::kind::{CallConv, Kind, Signature};

verus! {

/// Mathematical model of one registry entry.
pub struct OpModel {
    pub name: Seq<char>,
    pub params: Seq<Kind>,
    pub returns: Seq<Kind>,
    pub call_conv: CallConv,
    pub address: usize,
}

/// One precompiled native routine: an import symbol, the signature the
/// routine exposes, and the address of its code.  The address must stay
/// valid for as long as any compiled function that references the
/// routine is reachable.
#[derive(Clone, Debug)]
pub struct NativeOperation {
    pub name: String,
    pub sig: Signature,
    pub address: usize,
}

impl View for NativeOperation {
    type V = OpModel;

    open spec fn view(&self) -> OpModel {
        OpModel {
            name: self.name@,
            params: self.sig@.params,
            returns: self.sig@.returns,
            call_conv: self.sig@.call_conv,
            address: self.address,
        }
    }
}

/// Does the sequence of entries contain one with the given name?
pub open spec fn contains_op(entries: Seq<OpModel>, name: Seq<char>) -> bool {
    exists|i: int| 0 <= i < entries.len() && entries[i].name == name
}

/// The index of the entry with the given name.
pub open spec fn index_of_op(entries: Seq<OpModel>, name: Seq<char>) -> int {
    choose|i: int| 0 <= i < entries.len() && entries[i].name == name
}

/// The entry registered under the given name.
pub open spec fn resolved_op(entries: Seq<OpModel>, name: Seq<char>) -> OpModel {
    entries[index_of_op(entries, name)]
}

/// The catalog of precompiled native helper routines a compilation unit
/// may bind calls to.  Names are unique; entries keep their
/// registration order, which is the order the module builder imports
/// their symbols in.
#[derive(Clone, Debug)]
pub struct NativeOpCallRegistry {
    entries: Vec<NativeOperation>,
}

impl View for NativeOpCallRegistry {
    type V = Seq<OpModel>;

    closed spec fn view(&self) -> Seq<OpModel> {
        self.entries@.map(|i: int, e: NativeOperation| e@)
    }
}

impl NativeOpCallRegistry {
    /// Names are pairwise distinct.
    pub open spec fn wf(self) -> bool {
        forall|i: int, j: int|
            0 <= i < j < self@.len() ==> self@[i].name != self@[j].name
    }

    /// An empty catalog.
    pub fn new() -> (r: NativeOpCallRegistry)
        ensures
            r@ == Seq::<OpModel>::empty(),
            r.wf(),
    {
        let r = NativeOpCallRegistry { entries: Vec::new() };
        proof {
            assert(r@ =~= Seq::<OpModel>::empty());
        }
        r
    }

    /// Find the index of the entry with the given name, if any.
    fn position_of(&self, name: &String) -> (r: Option<usize>)
        ensures
            match r {
                Some(i) => i < self@.len() && self@[i as int].name == name@,
                None => !contains_op(self@, name@),
            },
    {
        let mut i: usize = 0;
        while i < self.entries.len()
            invariant
                i <= self@.len(),
                self@.len() == self.entries@.len(),
                forall|j: int| 0 <= j < i ==> self@[j].name != name@,
            decreases self@.len() - i,
        {
            if self.entries[i].name == *name {
                return Some(i);
            }
            i += 1;
        }
        None
    }

    /// Register a routine.  Fails, and leaves the catalog unchanged,
    /// exactly when the name is already taken.
    pub fn register(&mut self, op: NativeOperation) -> (r: Result<(), RegistryError>)
        requires
            old(self).wf(),
        ensures
            final(self).wf(),
            contains_op(old(self)@, op@.name) ==> r is Err && *final(self) == *old(self)
                && (r matches Err(RegistryError::DuplicateOperation(n)) && n@ == op@.name),
            !contains_op(old(self)@, op@.name) ==> r is Ok && final(self)@ == old(self)@.push(op@),
    {
        match self.position_of(&op.name) {
            Some(_) => Err(RegistryError::DuplicateOperation(op.name.clone())),
            None => {
                self.entries.push(op);
                proof {
                    assert(self@ =~= old(self)@.push(self@[self@.len() - 1]));
                }
                Ok(())
            },
        }
    }

    /// Look a routine up by name.  Returns the registered entry, or
    /// fails exactly when no routine of that name exists.
    pub fn resolve(&self, name: &String) -> (r: Result<&NativeOperation, RegistryError>)
        requires
            self.wf(),
        ensures
            contains_op(self@, name@) ==> (r matches Ok(op) && op@ == resolved_op(self@, name@)
                && op@.name == name@),
            !contains_op(self@, name@) ==> (r matches Err(RegistryError::UnknownOperation(n))
                && n@ == name@),
    {
        match self.position_of(name) {
            Some(i) => {
                proof {
                    let j = index_of_op(self@, name@);
                    assert(self@[j].name == name@);
                    assert(j == i);
                }
                Ok(&self.entries[i])
            },
            None => Err(RegistryError::UnknownOperation(name.clone())),
        }
    }

    /// All entries, in registration order; the module builder imports
    /// every one of their symbols.
    pub fn enumerate(&self) -> (r: &Vec<NativeOperation>)
        ensures
            r@.map(|i: int, e: NativeOperation| e@) == self@,
    {
        &self.entries
    }

    /// The number of registered routines.
    pub fn len(&self) -> (r: usize)
        ensures
            r == self@.len(),
    {
        self.entries.len()
    }

    /// An independent copy of the catalog, for a build context to
    /// resolve against.
    pub fn snapshot(&self) -> (r: NativeOpCallRegistry)
        ensures
            r@ == self@,
    {
        let mut entries: Vec<NativeOperation> = Vec::new();
        let mut i: usize = 0;
        while i < self.entries.len()
            invariant
                i <= self.entries@.len(),
                entries@.len() == i,
                forall|j: int|
                    0 <= j < i ==> (#[trigger] entries@[j])@ == self.entries@[j]@,
            decreases self.entries@.len() - i,
        {
            let e = &self.entries[i];
            let copy = NativeOperation {
                name: e.name.clone(),
                sig: Signature {
                    params: e.sig.params.clone(),
                    returns: e.sig.returns.clone(),
                    call_conv: e.sig.call_conv,
                },
                address: e.address,
            };
            proof {
                assert(copy.sig.params@ =~= e.sig.params@);
                assert(copy.sig.returns@ =~= e.sig.returns@);
            }
            entries.push(copy);
            i += 1;
        }
        let r = NativeOpCallRegistry { entries };
        proof {
            assert(r@ =~= self@);
        }
        r
    }
}

/// Registering a routine under a fresh name and then resolving that
/// name returns exactly the signature and address that were registered.
pub proof fn lemma_register_then_resolve(entries: Seq<OpModel>, op: OpModel)
    requires
        !contains_op(entries, op.name),
    ensures
        contains_op(entries.push(op), op.name),
        resolved_op(entries.push(op), op.name) == op,
{
    let pushed = entries.push(op);
    assert(pushed[entries.len() as int] == op);
    assert(contains_op(pushed, op.name));
    let i = index_of_op(pushed, op.name);
    assert(0 <= i < pushed.len() && pushed[i].name == op.name);
    if i < entries.len() {
        assert(entries[i] == pushed[i]);
        assert(contains_op(entries, op.name));
    }
    assert(i == entries.len());
}

/// Registering never disturbs the routines that are already present:
/// every name that resolved before resolves to the same entry after.
pub proof fn lemma_register_preserves_others(entries: Seq<OpModel>, op: OpModel, name: Seq<char>)
    requires
        contains_op(entries, name),
        forall|i: int, j: int|
            0 <= i < j < entries.push(op).len()
                ==> entries.push(op)[i].name != entries.push(op)[j].name,
    ensures
        contains_op(entries.push(op), name),
        resolved_op(entries.push(op), name) == resolved_op(entries, name),
{
    let pushed = entries.push(op);
    let i = index_of_op(entries, name);
    assert(0 <= i < entries.len() && entries[i].name == name);
    assert(pushed[i].name == name);
    assert(contains_op(pushed, name));
    let j = index_of_op(pushed, name);
    assert(0 <= j < pushed.len() && pushed[j].name == name);
    assert(j == i);
    let k = index_of_op(entries, name);
    assert(k == i);
}

} // verus!
