use vstd::prelude::*;

use std::sync::Arc;

verus! {

/// Catalog of functions an execution session can call.
pub struct FuncRegistry {}

/// Accounting of the memory an execution session may use.
pub struct MemoryPool {}

/// Shared state of one execution session.
pub struct ExecContext {
    pub func_registry: FuncRegistry,
    pub memory_pool: MemoryPool,
}

impl ExecContext {
    /// A fresh session with an empty function catalog and pool.
    pub fn new() -> ExecContext {
        ExecContext { func_registry: FuncRegistry {}, memory_pool: MemoryPool {} }
    }

    /// Wrap the session for shared ownership across operators.
    pub fn as_ref(self) -> (r: Arc<ExecContext>)
        ensures
            *r == self,
    {
        Arc::new(self)
    }
}

} // verus!
