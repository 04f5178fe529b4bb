//! The binding builder: an ordered list of resource bindings that is
//! finalized into a layout and the set of resources bound to its slots.

use vstd::prelude::*;
use crate::buffer::BufferAccess;
use crate::context::Context;
use crate::image::{
    describe_format, same_format, Image, ImageDimension, ImageFormat, StorageImageAccess,
    TextureSampleType, format_info,
};
use crate::sampler::SamplerBindingType;

verus! {

/// The shader stages that can see a binding.
#[derive(Debug, Clone, Copy, PartialEq, Eq, Structural)]
pub struct ShaderStages {
    pub vertex: bool,
    pub fragment: bool,
    pub compute: bool,
}

impl ShaderStages {
    /// The compute stage alone.
    pub open spec fn spec_compute() -> ShaderStages {
        ShaderStages { vertex: false, fragment: false, compute: true }
    }

    /// The compute stage alone.
    #[verifier::when_used_as_spec(spec_compute)]
    pub fn compute() -> (r: Self)
        ensures
            r == Self::spec_compute(),
    {
        ShaderStages { vertex: false, fragment: false, compute: true }
    }
}

/// Dimensionality of the view through which a kernel sees an image.
#[derive(Debug, Clone, Copy, PartialEq, Eq, Structural)]
pub enum TextureViewDimension {
    D2,
    D3,
}

/// The type descriptor of a layout entry.
#[derive(Debug, Clone, Copy, PartialEq, Eq)]
#[allow(inconsistent_fields)]
pub enum BindingType {
    /// A storage buffer.
    Buffer { read_only: bool, has_dynamic_offset: bool, min_binding_size: Option<u64> },
    /// A sampler, with its filtering class.
    Sampler { binding_type: SamplerBindingType },
    /// A sampled texture.
    Texture {
        sample_type: TextureSampleType,
        view_dimension: TextureViewDimension,
        multisampled: bool,
    },
    /// A storage texture.
    StorageTexture {
        access: StorageImageAccess,
        format: ImageFormat,
        view_dimension: TextureViewDimension,
    },
}

impl BindingType {
    /// Says whether two type descriptors are the same.
    pub fn same_as(&self, other: &BindingType) -> (r: bool)
        ensures
            r == (*self == *other),
    {
        match (self, other) {
            (
                BindingType::Buffer { read_only: a, has_dynamic_offset: oa, min_binding_size: sa },
                BindingType::Buffer { read_only: b, has_dynamic_offset: ob, min_binding_size: sb },
            ) => *a == *b && *oa == *ob && match (sa, sb) {
                (None, None) => true,
                (Some(x), Some(y)) => *x == *y,
                _ => false,
            },
            (
                BindingType::Sampler { binding_type: a },
                BindingType::Sampler { binding_type: b },
            ) => *a == *b,
            (
                BindingType::Texture { sample_type: a, view_dimension: da, multisampled: ma },
                BindingType::Texture { sample_type: b, view_dimension: db, multisampled: mb },
            ) => *a == *b && *da == *db && *ma == *mb,
            (
                BindingType::StorageTexture { access: a, format: fa, view_dimension: da },
                BindingType::StorageTexture { access: b, format: fb, view_dimension: db },
            ) => *a == *b && same_format(*fa, *fb) && *da == *db,
            _ => false,
        }
    }
}

/// One entry of a layout: the binding index, the stages that see the binding,
/// its type, and the number of resources if the binding is an array of them.
#[derive(Debug, Clone, Copy, PartialEq, Eq)]
pub struct BindGroupLayoutEntry {
    pub binding: u32,
    pub visibility: ShaderStages,
    pub ty: BindingType,
    pub count: Option<u32>,
}

impl BindGroupLayoutEntry {
    /// Says whether two entries are the same.
    pub fn same_as(&self, other: &BindGroupLayoutEntry) -> (r: bool)
        ensures
            r == (*self == *other),
    {
        self.binding == other.binding && self.visibility == other.visibility && self.ty.same_as(
            &other.ty,
        ) && match (self.count, other.count) {
            (None, None) => true,
            (Some(a), Some(b)) => a == b,
            _ => false,
        }
    }
}

/// One entry of a resource set: a resource and the binding index it is bound
/// to.
#[derive(Debug, PartialEq, Eq)]
pub struct BindGroupEntry<R> {
    pub binding: u32,
    pub resource: R,
}

/// Everything that can be bound: a resource of the backend, of type `R`, with
/// what the layout needs to know of it.
#[derive(Debug)]
#[allow(inconsistent_fields)]
pub enum Binding<R> {
    /// A buffer, for storage.
    Buffer { resource: R, access: BufferAccess },
    /// A sampler.
    Sampler { resource: R, binding_type: SamplerBindingType },
    /// An image, for sampling.
    Texture { resource: R, dimension: TextureViewDimension, sample_type: TextureSampleType },
    /// An image, for storing.
    StorageTexture {
        resource: R,
        access: StorageImageAccess,
        format: ImageFormat,
        dimension: TextureViewDimension,
    },
}

impl<R> Binding<R> {
    /// The type descriptor that the layout has for the binding.
    pub open spec fn spec_binding_type(&self) -> BindingType {
        match *self {
            Binding::Buffer { access, .. } => BindingType::Buffer {
                read_only: access == BufferAccess::ReadOnly,
                has_dynamic_offset: false,
                min_binding_size: None,
            },
            Binding::Sampler { binding_type, .. } => BindingType::Sampler { binding_type },
            Binding::Texture { dimension, sample_type, .. } => BindingType::Texture {
                sample_type,
                view_dimension: dimension,
                multisampled: false,
            },
            Binding::StorageTexture { access, format, dimension, .. } => {
                BindingType::StorageTexture { access, format, view_dimension: dimension }
            },
        }
    }

    /// The resource that is bound.
    pub open spec fn resource(&self) -> R {
        match *self {
            Binding::Buffer { resource, .. } => resource,
            Binding::Sampler { resource, .. } => resource,
            Binding::Texture { resource, .. } => resource,
            Binding::StorageTexture { resource, .. } => resource,
        }
    }

    /// The type descriptor that the layout has for the binding.
    #[verifier::when_used_as_spec(spec_binding_type)]
    pub fn binding_type(&self) -> (r: BindingType)
        ensures
            r == self.binding_type(),
    {
        match self {
            Binding::Buffer { access, .. } => BindingType::Buffer {
                read_only: *access == BufferAccess::ReadOnly,
                has_dynamic_offset: false,
                min_binding_size: None,
            },
            Binding::Sampler { binding_type, .. } => BindingType::Sampler {
                binding_type: *binding_type,
            },
            Binding::Texture { dimension, sample_type, .. } => BindingType::Texture {
                sample_type: *sample_type,
                view_dimension: *dimension,
                multisampled: false,
            },
            Binding::StorageTexture { access, format, dimension, .. } => {
                BindingType::StorageTexture {
                    access: *access,
                    format: *format,
                    view_dimension: *dimension,
                }
            },
        }
    }

    /// Gives the resource that is bound.
    pub fn into_resource(self) -> (r: R)
        ensures
            r == self.resource(),
    {
        match self {
            Binding::Buffer { resource, .. } => resource,
            Binding::Sampler { resource, .. } => resource,
            Binding::Texture { resource, .. } => resource,
            Binding::StorageTexture { resource, .. } => resource,
        }
    }
}

/// The dimension of the view through which a kernel sees an image of
/// dimension `dimension`.
pub open spec fn view_dimension_of(dimension: ImageDimension) -> TextureViewDimension {
    if dimension == ImageDimension::D2 {
        TextureViewDimension::D2
    } else {
        TextureViewDimension::D3
    }
}

/// The layout derived from a list of bindings: one entry for each binding, in
/// order, with the binding's position as its index, visible to the compute
/// stage, of the binding's type, and for a single resource.
pub open spec fn layout_of<R>(bindings: Seq<Binding<R>>) -> Seq<BindGroupLayoutEntry> {
    Seq::new(
        bindings.len(),
        |i: int|
            BindGroupLayoutEntry {
                binding: i as u32,
                visibility: ShaderStages::spec_compute(),
                ty: bindings[i].spec_binding_type(),
                count: None,
            },
    )
}

/// The resource set derived from a list of bindings: the resource of each
/// binding, in order, bound to the binding's position.
pub open spec fn entries_of<R>(bindings: Seq<Binding<R>>) -> Seq<BindGroupEntry<R>> {
    Seq::new(
        bindings.len(),
        |i: int| BindGroupEntry { binding: i as u32, resource: bindings[i].resource() },
    )
}

/// The layout derived from N bindings has exactly N entries, and their
/// binding indices are 0 to N-1 in the order of the bindings; so has the
/// resource set, which binds the resource of each binding at its position.
pub proof fn lemma_layout_is_indexed<R>(bindings: Seq<Binding<R>>)
    requires
        bindings.len() <= u32::MAX,
    ensures
        layout_of(bindings).len() == bindings.len(),
        entries_of(bindings).len() == bindings.len(),
        forall|i: int|
            0 <= i < bindings.len() ==> {
                &&& (#[trigger] layout_of(bindings)[i]).binding == i
                &&& layout_of(bindings)[i].visibility == ShaderStages::spec_compute()
                &&& layout_of(bindings)[i].ty == bindings[i].spec_binding_type()
                &&& layout_of(bindings)[i].count is None
            },
        forall|i: int|
            0 <= i < bindings.len() ==> {
                &&& (#[trigger] entries_of(bindings)[i]).binding == i
                &&& entries_of(bindings)[i].resource == bindings[i].resource()
            },
{
}

/// Two lists of bindings have the same layout exactly when they have the
/// same types in the same order, whatever resources they bind.
pub proof fn lemma_same_types_same_layout<R1, R2>(
    first: Seq<Binding<R1>>,
    second: Seq<Binding<R2>>,
)
    ensures
        layout_of(first) == layout_of(second) <==> {
            &&& first.len() == second.len()
            &&& forall|i: int|
                0 <= i < first.len() ==> (#[trigger] first[i]).spec_binding_type()
                    == second[i].spec_binding_type()
        },
{
    if layout_of(first) == layout_of(second) {
        assert(layout_of(first).len() == layout_of(second).len());
        assert forall|i: int| 0 <= i < first.len() implies (#[trigger] first[i]).spec_binding_type()
            == second[i].spec_binding_type() by {
            assert(layout_of(first)[i].ty == layout_of(second)[i].ty);
        }
    }
    if first.len() == second.len() && (forall|i: int|
        0 <= i < first.len() ==> (#[trigger] first[i]).spec_binding_type()
            == second[i].spec_binding_type()) {
        assert(layout_of(first) =~= layout_of(second));
    }
}

/// Contains the information to create bind groups: the bindings pushed so
/// far. The binding index of a binding is its position in the order of the
/// pushes, and must be the index that the kernel source declares for it.
#[derive(Debug)]
pub struct BindGroupDescriptor<R> {
    bindings: Vec<Binding<R>>,
}

impl<R> BindGroupDescriptor<R> {
    /// The bindings pushed so far, in order.
    pub closed spec fn bindings(&self) -> Seq<Binding<R>> {
        self.bindings@
    }

    /// Creates a descriptor without bindings.
    pub fn new(context: &Context) -> (r: Self)
        ensures
            r.bindings() == Seq::<Binding<R>>::empty(),
    {
        BindGroupDescriptor { bindings: Vec::new() }
    }

    /// The number of bindings pushed so far.
    pub fn len(&self) -> (r: usize)
        ensures
            r == self.bindings().len(),
    {
        self.bindings.len()
    }

    /// Pushes a buffer as the last binding, with `access` access.
    pub fn push_buffer(self, resource: R, access: BufferAccess) -> (r: Self)
        ensures
            r.bindings() == self.bindings().push(Binding::Buffer { resource, access }),
    {
        let mut descriptor = self;
        descriptor.bindings.push(Binding::Buffer { resource, access });
        descriptor
    }

    /// Pushes a sampler as the last binding, with the specified
    /// `binding_type`.
    pub fn push_sampler(self, resource: R, binding_type: SamplerBindingType) -> (r: Self)
        ensures
            r.bindings() == self.bindings().push(Binding::Sampler { resource, binding_type }),
    {
        let mut descriptor = self;
        descriptor.bindings.push(Binding::Sampler { resource, binding_type });
        descriptor
    }

    /// Pushes an image of dimension `dimension`, whose resource is
    /// `resource`, as the last binding, to be sampled as `sample_type`.
    pub fn push_texture(
        self,
        resource: R,
        dimension: ImageDimension,
        sample_type: TextureSampleType,
    ) -> (r: Self)
        ensures
            r.bindings() == self.bindings().push(
                Binding::Texture { resource, dimension: view_dimension_of(dimension), sample_type },
            ),
    {
        let dimension = if dimension == ImageDimension::D2 {
            TextureViewDimension::D2
        } else {
            TextureViewDimension::D3
        };
        let mut descriptor = self;
        descriptor.bindings.push(Binding::Texture { resource, dimension, sample_type });
        descriptor
    }

    /// Pushes `image`, whose resource is `resource`, as the last binding, to
    /// be sampled: with a view of its dimension and the sample type of its
    /// format.
    pub fn push_image(self, resource: R, image: &Image) -> (r: Self)
        ensures
            r.bindings() == self.bindings().push(
                Binding::Texture {
                    resource,
                    dimension: view_dimension_of(image.dimension()),
                    sample_type: format_info(image.format()).sample_type,
                },
            ),
    {
        let sample_type = describe_format(image.format()).sample_type;
        self.push_texture(resource, image.dimension(), sample_type)
    }

    /// Pushes `image`, whose resource is `resource`, as the last binding, for
    /// storage with `access` access: with a view of its dimension, in its
    /// format.
    pub fn push_storage_image(self, resource: R, image: &Image, access: StorageImageAccess) -> (r:
        Self)
        ensures
            r.bindings() == self.bindings().push(
                Binding::StorageTexture {
                    resource,
                    access,
                    format: image.format(),
                    dimension: view_dimension_of(image.dimension()),
                },
            ),
    {
        let dimension = if image.dimension() == ImageDimension::D2 {
            TextureViewDimension::D2
        } else {
            TextureViewDimension::D3
        };
        let mut descriptor = self;
        descriptor.bindings.push(
            Binding::StorageTexture { resource, access, format: image.format(), dimension },
        );
        descriptor
    }

    /// Creates a bind group: the layout derived from the bindings, and the
    /// resources bound to its slots. The Nth binding pushed has the binding
    /// index N-1 in both.
    pub fn into_bind_group(self) -> (r: BindGroup<Vec<BindGroupEntry<R>>>)
        requires
            self.bindings().len() <= u32::MAX,
        ensures
            r.layout() == layout_of(self.bindings()),
            r.resources()@ == entries_of(self.bindings()),
            r.layout().len() == self.bindings().len(),
            forall|i: int| 0 <= i < r.layout().len() ==> (#[trigger] r.layout()[i]).binding == i,
    {
        let ghost bindings = self.bindings@;
        let mut layout_entries: Vec<BindGroupLayoutEntry> = Vec::new();
        let mut bind_group_entries: Vec<BindGroupEntry<R>> = Vec::new();
        let mut i: u32 = 0;
        for binding in iter: self.bindings.into_iter()
            invariant
                iter.seq() == bindings,
                bindings.len() <= u32::MAX,
                i == iter.index(),
                layout_entries@ =~= layout_of(bindings.take(i as int)),
                bind_group_entries@ =~= entries_of(bindings.take(i as int)),
        {
            layout_entries.push(
                BindGroupLayoutEntry {
                    binding: i,
                    visibility: ShaderStages::compute(),
                    ty: binding.binding_type(),
                    count: None,
                },
            );
            bind_group_entries.push(
                BindGroupEntry { binding: i, resource: binding.into_resource() },
            );
            i += 1;
        }
        assert(bindings.take(i as int) =~= bindings);
        BindGroup { layout: layout_entries, resources: bind_group_entries }
    }
}

/// The result of finalizing a descriptor: a layout, and the set of resources
/// bound to its slots, of type `S`. It cannot be changed, and may be used by
/// several kernels.
#[derive(Debug)]
pub struct BindGroup<S> {
    layout: Vec<BindGroupLayoutEntry>,
    resources: S,
}

impl<S> BindGroup<S> {
    /// The layout of the bind group.
    pub closed spec fn layout(&self) -> Seq<BindGroupLayoutEntry> {
        self.layout@
    }

    /// The resources bound to the slots of the layout.
    pub closed spec fn resources(&self) -> S {
        self.resources
    }

    /// The entries of the layout.
    pub fn layout_entries(&self) -> (r: &Vec<BindGroupLayoutEntry>)
        ensures
            r@ == self.layout(),
    {
        &self.layout
    }

    /// The resources bound to the slots of the layout.
    pub fn bound_resources(&self) -> (r: &S)
        ensures
            *r == self.resources(),
    {
        &self.resources
    }

    /// The same bind group with `resources` for its resource set: the form
    /// that the backend gave to the set, in place of the list it was made of.
    pub fn with_resources<S2>(self, resources: S2) -> (r: BindGroup<S2>)
        ensures
            r.layout() == self.layout(),
            r.resources() == resources,
    {
        BindGroup { layout: self.layout, resources }
    }

    /// Says whether `other` has the same layout: the same entries in the same
    /// order.
    pub fn same_layout<S2>(&self, other: &BindGroup<S2>) -> (r: bool)
        ensures
            r == (self.layout() == other.layout()),
    {
        if self.layout.len() != other.layout.len() {
            return false;
        }
        let mut i: usize = 0;
        while i < self.layout.len()
            invariant
                i <= self.layout@.len(),
                self.layout@.len() == other.layout@.len(),
                forall|j: int| 0 <= j < i ==> self.layout@[j] == other.layout@[j],
            decreases self.layout@.len() - i,
        {
            if !self.layout[i].same_as(&other.layout[i]) {
                return false;
            }
            i += 1;
        }
        assert(self.layout@ =~= other.layout@);
        true
    }
}

} // verus!
