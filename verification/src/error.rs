use vstd::prelude::*;

verus! {

/// Errors reported by the surrounding server layer.
#[derive(Debug)]
pub enum ServerError {
    NotImplemented(String),
    NotSupported(String),
    ArgumentError(String),
}

/// Recoverable errors raised by the native-operation registry.
#[derive(Clone, Debug)]
pub enum RegistryError {
    /// An operation with the given name is already registered.
    DuplicateOperation(String),
    /// No operation with the given name is registered.
    UnknownOperation(String),
}

/// Construction-time faults of a compilation unit.  They signal a
/// programmer error in the code that drives the build, never user data.
#[derive(Clone, Debug)]
pub enum BuildError {
    /// A function with the given name was already declared in the module.
    DuplicateFunction(String),
}

} // verus!
