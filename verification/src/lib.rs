//! Hardware accelerated computing: the resource-binding and command-recording
//! core of a compute layer, with every rule of it stated and proved.
//!
//! The library holds no device. It says what a backend is to be asked for,
//! and checks what a caller binds and records before anything is submitted:
//!
//! - [`buffer`], [`image`] and [`sampler`] hold the shapes of resources: the
//!   sizes that are allocated, the regions that writes fill, and the removal
//!   of row padding when an image is read back.
//! - [`bind_group`] turns an ordered list of bindings into a layout and the
//!   set of resources bound to its slots. The Nth binding pushed has the
//!   binding index N-1.
//! - [`kernel`] joins a pipeline with its bind groups and its push-constant
//!   range, and checks the range against the device.
//! - [`command_queue`] records commands and turns them into the actions of
//!   one compute pass, or reports the first command that is a violation.
//! - [`context`] holds the limits and features that the device declared, and
//!   [`violation`] the violations that are detected.
//!
//! What belongs to the backend is carried through in type parameters: `R` is
//! a resource that is bound, `S` the set of resources of a bind group, `P` a
//! compiled pipeline.

use vstd::prelude::*;

pub mod bind_group;
pub mod buffer;
pub mod command_queue;
pub mod context;
pub mod image;
pub mod kernel;
pub mod sampler;
pub mod violation;

pub use crate::bind_group::{
    BindGroup, BindGroupDescriptor, BindGroupEntry, BindGroupLayoutEntry, Binding, BindingType,
    ShaderStages, TextureViewDimension,
};
pub use crate::buffer::{
    Buffer, BufferAccess, BufferCopy, BufferDescriptor, BufferUsages, BufferWrite,
};
pub use crate::command_queue::{Command, CommandQueue, ComputePass, PassAction, Rejection};
pub use crate::context::{Context, ContextInfo, Features, Limits};
pub use crate::image::{
    has_staging_size, unpad_rows, Extent3d, FormatInfo, Image, ImageDataLayout, ImageDimension,
    ImageFormat, ImageInfo, ImageSampleType, ImageWrite, Origin3d, StagingLayout,
    StorageImageAccess, TextureDescriptor, TextureSampleType, TextureUsages,
};
pub use crate::kernel::{Kernel, KernelInfo, PipelineLayout, PushConstantRange};
pub use crate::sampler::{
    AddressMode, FilterMode, Sampler, SamplerBindingType, SamplerBorderColor, SamplerInfo,
};
pub use crate::violation::{Violation, ViolationClass};
pub use bytemuck::cast_slice;

verus! {

/// Three dimensional range that gives the number of workgroups of a dispatch.
#[derive(Debug, Clone, Copy, PartialEq, Eq, Structural)]
pub struct Range {
    pub x: u32,
    pub y: u32,
    pub z: u32,
}

impl Range {
    /// Creates a 3d range.
    pub fn new(x: u32, y: u32, z: u32) -> (r: Self)
        ensures
            r == (Range { x, y, z }),
    {
        Range { x, y, z }
    }

    /// Creates a 3d range with the dimensions y and z set to 1.
    pub fn d1(x: u32) -> (r: Self)
        ensures
            r == (Range { x, y: 1, z: 1 }),
    {
        Range::new(x, 1, 1)
    }

    /// Creates a 3d range with the dimension z set to 1.
    pub fn d2(x: u32, y: u32) -> (r: Self)
        ensures
            r == (Range { x, y, z: 1 }),
    {
        Range::new(x, y, 1)
    }

    /// Creates a 3d range from all of its dimensions.
    pub fn d3(x: u32, y: u32, z: u32) -> (r: Self)
        ensures
            r == (Range { x, y, z }),
    {
        Range::new(x, y, z)
    }
}

} // verus!
