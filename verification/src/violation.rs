//! The contract violations that the library detects, and their four classes.

use vstd::prelude::*;

verus! {

/// The four classes of contract violation. Each of them is a programmer
/// error: the unit of work in which one is detected is not carried out.
#[derive(Debug, Clone, Copy, PartialEq, Eq, Structural)]
pub enum ViolationClass {
    /// An allocation, a write or a dispatch exceeds a declared size limit.
    ResourceCapacity,
    /// A bind group or a push-constant write does not fit the bound kernel.
    BindingContract,
    /// A command was recorded in a state in which it is not valid.
    Sequencing,
    /// An optional feature is used that the device did not declare.
    Capability,
}

/// A contract violation.
#[derive(Debug, Clone, Copy, PartialEq, Eq, Structural)]
pub enum Violation {
    /// A buffer would take more bytes than the device's `max_buffer_size`.
    BufferTooLarge,
    /// A write would run over the end of the buffer.
    WriteOutOfBounds,
    /// A dispatch asks for more workgroups in one dimension than the device's
    /// `max_compute_workgroups_per_dimension`.
    WorkgroupsExceedLimit,
    /// A kernel's push-constant range ends after the device's
    /// `max_push_constant_size`.
    PushConstantsTooLarge,
    /// A bind group was set at an index at which the bound kernel has no bind
    /// group, or one with a different layout.
    LayoutMismatch,
    /// The offset or the length of a push-constant write is no multiple of 4.
    PushConstantsMisaligned,
    /// A push-constant write leaves the range that the bound kernel declared.
    PushConstantsOutOfRange,
    /// Push constants, a bind group or a dispatch were recorded before any
    /// kernel was set.
    NoKernelBound,
    /// A push-constant write overlaps bytes that were already written since
    /// the kernel was set or last dispatched.
    PushConstantsWrittenTwice,
    /// A kernel declares push constants on a device without that feature.
    PushConstantsUnsupported,
}

impl Violation {
    /// The class that a violation belongs to.
    pub open spec fn spec_class(self) -> ViolationClass {
        match self {
            Violation::BufferTooLarge => ViolationClass::ResourceCapacity,
            Violation::WriteOutOfBounds => ViolationClass::ResourceCapacity,
            Violation::WorkgroupsExceedLimit => ViolationClass::ResourceCapacity,
            Violation::PushConstantsTooLarge => ViolationClass::ResourceCapacity,
            Violation::LayoutMismatch => ViolationClass::BindingContract,
            Violation::PushConstantsMisaligned => ViolationClass::BindingContract,
            Violation::PushConstantsOutOfRange => ViolationClass::BindingContract,
            Violation::NoKernelBound => ViolationClass::Sequencing,
            Violation::PushConstantsWrittenTwice => ViolationClass::Sequencing,
            Violation::PushConstantsUnsupported => ViolationClass::Capability,
        }
    }

    /// The class that a violation belongs to.
    #[verifier::when_used_as_spec(spec_class)]
    pub fn class(self) -> (r: ViolationClass)
        ensures
            r == self.spec_class(),
    {
        match self {
            Violation::BufferTooLarge => ViolationClass::ResourceCapacity,
            Violation::WriteOutOfBounds => ViolationClass::ResourceCapacity,
            Violation::WorkgroupsExceedLimit => ViolationClass::ResourceCapacity,
            Violation::PushConstantsTooLarge => ViolationClass::ResourceCapacity,
            Violation::LayoutMismatch => ViolationClass::BindingContract,
            Violation::PushConstantsMisaligned => ViolationClass::BindingContract,
            Violation::PushConstantsOutOfRange => ViolationClass::BindingContract,
            Violation::NoKernelBound => ViolationClass::Sequencing,
            Violation::PushConstantsWrittenTwice => ViolationClass::Sequencing,
            Violation::PushConstantsUnsupported => ViolationClass::Capability,
        }
    }
}

} // verus!
