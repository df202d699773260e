use vstd::prelude::*;

verus! {

/// Primitive value kinds a compiled function can work with: integer
/// widths, a floating width, the target pointer, and fixed-width
/// vectors.  Composite data is always passed as a pointer plus a
/// manually managed layout.
///
/// The target is assumed to use 8-byte pointers; the embedder that
/// lowers the representation must check this against the host.
#[derive(Clone, Copy, Debug, PartialEq, Eq, Structural)]
pub enum Kind {
    /// 8-bit integer, also the carrier of boolean results.
    I8,
    /// 32-bit integer.
    I32,
    /// 64-bit integer.
    I64,
    /// 64-bit float.
    F64,
    /// Target pointer.
    Ptr,
    /// Vector of two 64-bit floats.
    F64X2,
    /// Vector of two 8-bit integers, the carrier of two boolean lanes.
    I8X2,
}

impl Kind {
    /// Width of a value of this kind in bytes.
    pub open spec fn spec_bytes(self) -> u32 {
        match self {
            Kind::I8 => 1,
            Kind::I32 => 4,
            Kind::I64 => 8,
            Kind::F64 => 8,
            Kind::Ptr => 8,
            Kind::F64X2 => 16,
            Kind::I8X2 => 2,
        }
    }

    /// Width of a value of this kind in bytes.
    #[verifier::when_used_as_spec(spec_bytes)]
    pub fn bytes(self) -> (r: u32)
        ensures
            r == self.spec_bytes(),
    {
        match self {
            Kind::I8 => 1,
            Kind::I32 => 4,
            Kind::I64 => 8,
            Kind::F64 => 8,
            Kind::Ptr => 8,
            Kind::F64X2 => 16,
            Kind::I8X2 => 2,
        }
    }

    /// Kinds on which floating-point arithmetic instructions operate.
    pub open spec fn is_float(self) -> bool {
        self is F64 || self is F64X2
    }

    /// Kinds on which integer arithmetic instructions operate.
    pub open spec fn is_int(self) -> bool {
        self is I8 || self is I32 || self is I64 || self is Ptr
    }

    /// Number of scalar lanes processed together by one instruction.
    pub open spec fn spec_lanes(self) -> u32 {
        match self {
            Kind::F64X2 => 2,
            Kind::I8X2 => 2,
            _ => 1,
        }
    }

    /// Number of scalar lanes processed together by one instruction.
    #[verifier::when_used_as_spec(spec_lanes)]
    pub fn lanes(self) -> (r: u32)
        ensures
            r == self.spec_lanes(),
    {
        match self {
            Kind::F64X2 => 2,
            Kind::I8X2 => 2,
            _ => 1,
        }
    }

    /// The kind a lane-wise floating comparison produces: one boolean
    /// carrier lane per input lane.
    pub open spec fn spec_cmp_result(self) -> Kind {
        match self {
            Kind::F64X2 => Kind::I8X2,
            _ => Kind::I8,
        }
    }

    /// The kind a lane-wise floating comparison produces.
    #[verifier::when_used_as_spec(spec_cmp_result)]
    pub fn cmp_result(self) -> (r: Kind)
        ensures
            r == self.spec_cmp_result(),
    {
        match self {
            Kind::F64X2 => Kind::I8X2,
            _ => Kind::I8,
        }
    }
}

/// The calling convention every function of one module shares.
#[derive(Clone, Copy, Debug, PartialEq, Eq, Structural)]
pub enum CallConv {
    /// The backend's fastest internal convention.
    Fast,
    /// The target's default native convention.
    Native,
}

/// Mathematical model of a [`Signature`].
pub struct SigModel {
    pub params: Seq<Kind>,
    pub returns: Seq<Kind>,
    pub call_conv: CallConv,
}

/// A function signature: positional primitive parameter and return
/// kinds plus the calling convention.
#[derive(Clone, Debug)]
pub struct Signature {
    pub params: Vec<Kind>,
    pub returns: Vec<Kind>,
    pub call_conv: CallConv,
}

impl View for Signature {
    type V = SigModel;

    open spec fn view(&self) -> SigModel {
        SigModel { params: self.params@, returns: self.returns@, call_conv: self.call_conv }
    }
}

} // verus!
