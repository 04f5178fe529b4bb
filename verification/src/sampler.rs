//! Samplers: immutable filtering and addressing configuration.

use vstd::prelude::*;
use crate::context::Context;

verus! {

/// What to do when an image is sampled out of bounds.
#[derive(Debug, Clone, Copy, PartialEq, Eq, Structural)]
pub enum AddressMode {
    ClampToEdge,
    Repeat,
    MirrorRepeat,
    ClampToBorder,
}

/// How to filter an image that is magnified or minified.
#[derive(Debug, Clone, Copy, PartialEq, Eq, Structural)]
pub enum FilterMode {
    Nearest,
    Linear,
}

/// Color of the border for `AddressMode::ClampToBorder`.
#[derive(Debug, Clone, Copy, PartialEq, Eq, Structural)]
pub enum SamplerBorderColor {
    TransparentBlack,
    OpaqueBlack,
    OpaqueWhite,
    Zero,
}

/// The filtering class of a sampler, as a layout entry declares it. It should
/// be `Filtering` for a sampler that uses `FilterMode::Linear`.
#[derive(Debug, Clone, Copy, PartialEq, Eq, Structural)]
pub enum SamplerBindingType {
    Filtering,
    NonFiltering,
    Comparison,
}

/// `wgpu::AddressMode::default()`, which the backend declares to be
/// `ClampToEdge`.
#[verifier::external_body]
fn backend_default_address_mode() -> (r: AddressMode)
    ensures
        r == AddressMode::ClampToEdge,
{
    match wgpu::AddressMode::default() {
        wgpu::AddressMode::ClampToEdge => AddressMode::ClampToEdge,
        wgpu::AddressMode::Repeat => AddressMode::Repeat,
        wgpu::AddressMode::MirrorRepeat => AddressMode::MirrorRepeat,
        wgpu::AddressMode::ClampToBorder => AddressMode::ClampToBorder,
    }
}

/// `wgpu::FilterMode::default()`, which the backend declares to be `Nearest`.
#[verifier::external_body]
fn backend_default_filter_mode() -> (r: FilterMode)
    ensures
        r == FilterMode::Nearest,
{
    match wgpu::FilterMode::default() {
        wgpu::FilterMode::Nearest => FilterMode::Nearest,
        wgpu::FilterMode::Linear => FilterMode::Linear,
    }
}

/// Information to create a sampler.
#[derive(Debug, Clone, Copy, PartialEq, Eq, Structural)]
pub struct SamplerInfo {
    /// What to do when sampling out of bounds in the u direction.
    pub address_mode_u: AddressMode,
    /// What to do when sampling out of bounds in the v direction.
    pub address_mode_v: AddressMode,
    /// What to do when sampling out of bounds in the w direction.
    pub address_mode_w: AddressMode,
    /// How to filter when the image has to be magnified.
    pub mag_filter: FilterMode,
    /// How to filter when the image has to be minified.
    pub min_filter: FilterMode,
    /// Color of the border if `AddressMode::ClampToBorder` was chosen.
    pub border_color: Option<SamplerBorderColor>,
}

impl Default for SamplerInfo {
    /// The backend's defaults: clamping to the edge in every direction,
    /// nearest filtering, no border color.
    fn default() -> (r: Self)
        ensures
            r == (SamplerInfo {
                address_mode_u: AddressMode::ClampToEdge,
                address_mode_v: AddressMode::ClampToEdge,
                address_mode_w: AddressMode::ClampToEdge,
                mag_filter: FilterMode::Nearest,
                min_filter: FilterMode::Nearest,
                border_color: None,
            }),
    {
        SamplerInfo {
            address_mode_u: backend_default_address_mode(),
            address_mode_v: backend_default_address_mode(),
            address_mode_w: backend_default_address_mode(),
            mag_filter: backend_default_filter_mode(),
            min_filter: backend_default_filter_mode(),
            border_color: None,
        }
    }
}

/// The configuration of a sampler on the device. It does not change once the
/// sampler is created.
#[derive(Debug)]
pub struct Sampler {
    info: SamplerInfo,
}

impl Sampler {
    /// The configuration that the sampler was created with.
    pub closed spec fn spec_info(&self) -> SamplerInfo {
        self.info
    }

    /// Creates a sampler with the info specified.
    pub fn new(context: &Context, info: &SamplerInfo) -> (r: Self)
        ensures
            r.info() == *info,
    {
        Sampler { info: *info }
    }

    /// The configuration that the sampler was created with.
    #[verifier::when_used_as_spec(spec_info)]
    pub fn info(&self) -> (r: SamplerInfo)
        ensures
            r == self.info(),
    {
        self.info
    }
}

} // verus!
