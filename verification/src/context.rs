//! The device's capability surface: the limits and features that the rest of
//! the library enforces.

use vstd::prelude::*;
use crate::bind_group::{Binding, BindGroup, BindGroupDescriptor};
use crate::buffer::{bytes_of, Buffer};
use crate::command_queue::{Command, CommandQueue};
use crate::image::{
    format_info, rgba8_sample_type, rgba8_write, Extent3d, Image, ImageDimension, ImageInfo,
    ImageSampleType, ImageWrite,
};
use crate::kernel::{Kernel, KernelInfo};
use crate::sampler::{Sampler, SamplerInfo};

verus! {

/// The numeric limits of a device that the library enforces.
#[derive(Debug, Clone, Copy, PartialEq, Eq, Structural)]
pub struct Limits {
    /// The largest buffer, in bytes, that may be allocated.
    pub max_buffer_size: u64,
    /// The number of bytes available to push constants.
    pub max_push_constant_size: u32,
    /// The largest workgroup count of a dispatch, for each dimension.
    pub max_compute_workgroups_per_dimension: u32,
}

/// The optional features of a device that the library knows of.
#[derive(Debug, Clone, Copy, PartialEq, Eq, Structural)]
pub struct Features {
    /// Whether kernels may declare push constants.
    pub push_constants: bool,
}

impl Features {
    /// No optional feature.
    pub fn empty() -> (r: Self)
        ensures
            r == (Features { push_constants: false }),
    {
        Features { push_constants: false }
    }
}

/// `wgpu::Limits::default()`, of which the three limits that the library
/// enforces are kept. The contract states the values that the backend
/// documents as its defaults: 2^28 bytes for a buffer, no push constants,
/// 65535 workgroups for each dimension.
#[verifier::external_body]
fn backend_default_limits() -> (r: Limits)
    ensures
        r.max_buffer_size == 0x1000_0000,
        r.max_push_constant_size == 0,
        r.max_compute_workgroups_per_dimension == 65535,
{
    let limits = wgpu::Limits::default();
    Limits {
        max_buffer_size: limits.max_buffer_size,
        max_push_constant_size: limits.max_push_constant_size,
        max_compute_workgroups_per_dimension: limits.max_compute_workgroups_per_dimension,
    }
}

impl Default for Limits {
    /// The limits that the backend grants when nothing else is asked for.
    fn default() -> (r: Self)
        ensures
            r == (Limits {
                max_buffer_size: 0x1000_0000,
                max_push_constant_size: 0,
                max_compute_workgroups_per_dimension: 65535,
            }),
    {
        backend_default_limits()
    }
}

/// Information to create a context.
#[derive(Debug, Clone, Copy, PartialEq, Eq, Structural)]
pub struct ContextInfo {
    pub features: Features,
    pub limits: Limits,
}

impl Default for ContextInfo {
    /// No optional feature, and the backend's default limits.
    fn default() -> (r: Self)
        ensures
            r.features == (Features { push_constants: false }),
            r.limits == (Limits {
                max_buffer_size: 0x1000_0000,
                max_push_constant_size: 0,
                max_compute_workgroups_per_dimension: 65535,
            }),
    {
        ContextInfo { features: Features::empty(), limits: Limits::default() }
    }
}

/// Manager used to create resources: it holds what the device declared when it
/// was acquired.
#[derive(Debug)]
pub struct Context {
    info: ContextInfo,
}

impl Context {
    /// The capabilities that the context was created with.
    pub closed spec fn info(&self) -> ContextInfo {
        self.info
    }

    /// The limits of the device.
    pub open spec fn spec_limits(&self) -> Limits {
        self.info().limits
    }

    /// The features of the device.
    pub open spec fn spec_features(&self) -> Features {
        self.info().features
    }

    /// Creates a context for a device with the capabilities in `info`.
    pub fn new(info: ContextInfo) -> (r: Self)
        ensures
            r.info() == info,
    {
        Context { info }
    }

    /// The limits of the device.
    #[verifier::when_used_as_spec(spec_limits)]
    pub fn limits(&self) -> (r: Limits)
        ensures
            r == self.info().limits,
    {
        self.info.limits
    }

    /// The features of the device.
    #[verifier::when_used_as_spec(spec_features)]
    pub fn features(&self) -> (r: Features)
        ensures
            r == self.info().features,
    {
        self.info.features
    }

    /// Creates the shape of an empty buffer capable of holding `capacity`
    /// elements of `T`.
    pub fn buffer<T>(&self, capacity: u64) -> (r: Buffer<T>)
        requires
            bytes_of::<T>(capacity as nat) <= self.limits().max_buffer_size,
        ensures
            r.capacity() == capacity,
    {
        Buffer::new(self, capacity)
    }

    /// Creates the shape of a buffer initialized from a slice.
    pub fn buffer_from_slice<T>(&self, data: &[T]) -> (r: Buffer<T>)
        requires
            bytes_of::<T>(data@.len()) <= self.limits().max_buffer_size,
        ensures
            r.capacity() == data@.len(),
    {
        Buffer::from_slice(self, data)
    }

    /// Creates the shape of an image with info.
    pub fn image(&self, info: &ImageInfo) -> (r: Image)
        ensures
            r.size() == info.size,
            r.format() == info.format,
            r.dimension() == if info.size.depth_or_array_layers == 1 {
                ImageDimension::D2
            } else {
                ImageDimension::D3
            },
    {
        Image::new(self, info)
    }

    /// Creates a sampler with info.
    pub fn sampler(&self, info: &SamplerInfo) -> (r: Sampler)
        ensures
            r.info() == *info,
    {
        Sampler::new(self, info)
    }

    /// Creates a descriptor without bindings, to bind resources such as
    /// buffers, samplers and images.
    pub fn bind_group_descriptor<R>(&self) -> (r: BindGroupDescriptor<R>)
        ensures
            r.bindings() == Seq::<Binding<R>>::empty(),
    {
        BindGroupDescriptor::new(self)
    }

    /// Creates a kernel of `pipeline` with info.
    pub fn kernel<'a, S, P>(&self, info: &KernelInfo<'_, 'a, S>, pipeline: P) -> (r: Kernel<
        'a,
        S,
        P,
    >)
        requires
            info.violation(self) is None,
            info.bind_groups@.len() <= u32::MAX,
        ensures
            r.pipeline() == pipeline,
            r.bind_groups() == info.bind_groups@,
            r.push_constants_range() == info.push_constants_range,
            r.limits() == self.limits(),
    {
        Kernel::new(self, info, pipeline)
    }

    /// Creates an empty command queue.
    pub fn command_queue<'a, S, P>(&self) -> (r: CommandQueue<'a, S, P>)
        ensures
            r.limits() == self.limits(),
            r.commands() == Seq::<Command<'a, S, P>>::empty(),
    {
        CommandQueue::new(self)
    }

    /// Creates the shape of a 2D image for 8-bit RGBA pixels, and the write
    /// of the pixel data that fills it.
    pub fn image_from_rgba8_img(&self, width: u32, height: u32, sample_type: ImageSampleType) -> (r:
        (Image, ImageWrite))
        requires
            4 * width <= u32::MAX,
        ensures
            r.0.size() == (Extent3d { width, height, depth_or_array_layers: 1 }),
            r.0.dimension() == ImageDimension::D2,
            r.0.bytes_per_pixel() == 4,
            format_info(r.0.format()).sample_type == rgba8_sample_type(sample_type),
            r.1 == rgba8_write(width, height),
    {
        Image::from_rgba8_image(self, width, height, sample_type)
    }
}

impl Default for Context {
    /// A context with no optional feature and the backend's default limits.
    fn default() -> (r: Self)
        ensures
            r.info().features == (Features { push_constants: false }),
            r.info().limits == (Limits {
                max_buffer_size: 0x1000_0000,
                max_push_constant_size: 0,
                max_compute_workgroups_per_dimension: 65535,
            }),
    {
        Context::new(ContextInfo::default())
    }
}

} // verus!
