//! Images: their shape, the format facts that the library reads from the
//! backend, and the removal of row padding when an image is read back.

use vstd::prelude::*;
use vstd::arithmetic::div_mod::lemma_fundamental_div_mod_converse;
use vstd::std_specs::convert::FromSpecImpl;
use crate::buffer::{BufferDescriptor, BufferUsages};
use crate::context::Context;
use crate::violation::Violation;

verus! {

/// The backend's texture format. The library carries it through; what it
/// needs to know of a format it asks the backend for.
#[verifier::external_type_specification]
#[verifier::external_body]
pub struct ExTextureFormat(wgpu::TextureFormat);

/// Format of an image.
pub type ImageFormat = wgpu::TextureFormat;

/// Dimensionality of an image.
#[derive(Debug, Clone, Copy, PartialEq, Eq, Structural)]
pub enum ImageDimension {
    D1,
    D2,
    D3,
}

/// How a kernel may access an image that is bound for storage.
#[derive(Debug, Clone, Copy, PartialEq, Eq, Structural)]
pub enum StorageImageAccess {
    WriteOnly,
    ReadOnly,
    ReadWrite,
}

/// The type of the values that a kernel loads from an image, by which the
/// format of an image made from 8-bit RGBA pixels is chosen.
#[derive(Debug, Clone, Copy, PartialEq, Eq, Structural)]
pub enum ImageSampleType {
    /// textureLoad returns f32s.
    Float { filterable: bool },
    /// textureLoad returns u32s.
    Uint,
    /// textureLoad returns i32s.
    Sint,
}

/// The type of the values that sampling a texture gives, as a layout entry
/// declares it.
#[derive(Debug, Clone, Copy, PartialEq, Eq, Structural)]
pub enum TextureSampleType {
    Float { filterable: bool },
    Depth,
    Sint,
    Uint,
}

impl From<ImageSampleType> for TextureSampleType {
    fn from(sample_type: ImageSampleType) -> (r: Self) {
        match sample_type {
            ImageSampleType::Float { filterable } => TextureSampleType::Float { filterable },
            ImageSampleType::Uint => TextureSampleType::Uint,
            ImageSampleType::Sint => TextureSampleType::Sint,
        }
    }
}

impl FromSpecImpl<ImageSampleType> for TextureSampleType {
    open spec fn obeys_from_spec() -> bool {
        true
    }

    open spec fn from_spec(sample_type: ImageSampleType) -> Self {
        match sample_type {
            ImageSampleType::Float { filterable } => TextureSampleType::Float { filterable },
            ImageSampleType::Uint => TextureSampleType::Uint,
            ImageSampleType::Sint => TextureSampleType::Sint,
        }
    }
}

/// Extent of an image. A 2D image has one layer.
#[derive(Debug, Clone, Copy, PartialEq, Eq, Structural)]
pub struct Extent3d {
    pub width: u32,
    pub height: u32,
    pub depth_or_array_layers: u32,
}

/// Layout of pixel data in host memory. `None` stands for a row length or a
/// row count that is left to the backend.
#[derive(Debug, Clone, Copy, PartialEq, Eq, Structural)]
pub struct ImageDataLayout {
    pub offset: u64,
    pub bytes_per_row: Option<u32>,
    pub rows_per_image: Option<u32>,
}

/// A position in an image.
#[derive(Debug, Clone, Copy, PartialEq, Eq, Structural)]
pub struct Origin3d {
    pub x: u32,
    pub y: u32,
    pub z: u32,
}

/// A copy of pixel data from host memory into an image: the part of the image
/// that is filled, and where its pixels lie in the data.
#[derive(Debug, Clone, Copy, PartialEq, Eq, Structural)]
pub struct ImageWrite {
    /// The mip level that is written.
    pub mip_level: u32,
    /// The corner of the image at which the written part starts.
    pub origin: Origin3d,
    /// The layout of the pixels in the data.
    pub layout: ImageDataLayout,
    /// The extent of the written part.
    pub size: Extent3d,
}

/// What the library reads from the backend's description of a format.
#[derive(Debug, Clone, Copy, PartialEq, Eq, Structural)]
pub struct FormatInfo {
    /// Size in bytes of a block of texels: of a pixel, in an uncompressed format.
    pub block_size: u8,
    /// The type of sampling that is valid for the format.
    pub sample_type: TextureSampleType,
}

/// What the backend's table of formats says of a format.
pub uninterp spec fn format_info(format: ImageFormat) -> FormatInfo;

/// `wgpu::TextureFormat::describe`, of whose result the block size and the
/// sample type are kept. The result depends on the format alone.
#[verifier::external_body]
pub(crate) fn describe_format(format: ImageFormat) -> (r: FormatInfo)
    ensures
        r == format_info(format),
{
    let info = format.describe();
    FormatInfo {
        block_size: info.block_size,
        sample_type: match info.sample_type {
            wgpu::TextureSampleType::Float { filterable } => TextureSampleType::Float {
                filterable,
            },
            wgpu::TextureSampleType::Depth => TextureSampleType::Depth,
            wgpu::TextureSampleType::Sint => TextureSampleType::Sint,
            wgpu::TextureSampleType::Uint => TextureSampleType::Uint,
        },
    }
}

/// `==` on `wgpu::TextureFormat`, which the backend derives: two formats are
/// equal exactly when they are the same format.
#[verifier::external_body]
pub(crate) fn same_format(a: ImageFormat, b: ImageFormat) -> (r: bool)
    ensures
        r == (a == b),
{
    a == b
}

/// `wgpu::TextureFormat::Rgba8Unorm`: four bytes to the pixel, sampled as
/// filterable floats.
#[verifier::external_body]
fn rgba8_unorm() -> (format: ImageFormat)
    ensures
        format_info(format) == (FormatInfo {
            block_size: 4,
            sample_type: TextureSampleType::Float { filterable: true },
        }),
{
    wgpu::TextureFormat::Rgba8Unorm
}

/// `wgpu::TextureFormat::Rgba8Uint`: four bytes to the pixel, sampled as
/// unsigned integers.
#[verifier::external_body]
fn rgba8_uint() -> (format: ImageFormat)
    ensures
        format_info(format) == (FormatInfo { block_size: 4, sample_type: TextureSampleType::Uint }),
{
    wgpu::TextureFormat::Rgba8Uint
}

/// `wgpu::TextureFormat::Rgba8Sint`: four bytes to the pixel, sampled as
/// signed integers.
#[verifier::external_body]
fn rgba8_sint() -> (format: ImageFormat)
    ensures
        format_info(format) == (FormatInfo { block_size: 4, sample_type: TextureSampleType::Sint }),
{
    wgpu::TextureFormat::Rgba8Sint
}

/// The row alignment, in bytes, that the backend asks for when it copies an
/// image into a buffer.
pub const ROW_ALIGNMENT: u64 = 256;

/// The length of a row of `row_bytes` bytes once it is padded to the next
/// multiple of the row alignment.
pub open spec fn padded_row_bytes(row_bytes: nat) -> nat {
    row_bytes + ((256 - row_bytes % 256) % 256) as nat
}

/// The bytes of `rows` rows of `row_bytes` bytes each, taken from `mapped`, in
/// which each row starts `padded_bytes` after the one before it.
pub open spec fn strip_row_padding(
    mapped: Seq<u8>,
    row_bytes: nat,
    padded_bytes: nat,
    rows: nat,
) -> Seq<u8> {
    Seq::new(
        rows * row_bytes,
        |k: int| mapped[(k / row_bytes as int) * padded_bytes + k % row_bytes as int],
    )
}

/// A padded row is a whole number of alignment units, holds the row, and is
/// the shortest such length.
pub proof fn lemma_padded_row_bytes(row_bytes: nat)
    ensures
        padded_row_bytes(row_bytes) % 256 == 0,
        row_bytes <= padded_row_bytes(row_bytes) < row_bytes + 256,
{
}

/// Bytes in a row of `width` pixels of `bytes_per_pixel` bytes each, tightly
/// packed.
pub open spec fn row_bytes_of(bytes_per_pixel: u8, width: u32) -> nat {
    (bytes_per_pixel * width) as nat
}

/// Size in bytes of the buffer that holds `height` padded rows of `width`
/// pixels of `bytes_per_pixel` bytes each.
pub open spec fn staging_size_of(bytes_per_pixel: u8, width: u32, height: u32) -> nat {
    padded_row_bytes(row_bytes_of(bytes_per_pixel, width)) * (height as nat)
}

/// Removes the padding of each row of an image of `width` by `height` pixels
/// of `bytes_per_pixel` bytes each, out of `mapped`, the padded rows one after
/// another: returns the pixels tightly packed, `width * height *
/// bytes_per_pixel` bytes.
pub fn unpad_rows(mapped: &[u8], bytes_per_pixel: u8, width: u32, height: u32) -> (pixels: Vec<
    u8,
>)
    requires
        mapped@.len() == staging_size_of(bytes_per_pixel, width, height),
    ensures
        pixels@.len() == width * height * bytes_per_pixel,
        pixels@ == strip_row_padding(
            mapped@,
            row_bytes_of(bytes_per_pixel, width),
            padded_row_bytes(row_bytes_of(bytes_per_pixel, width)),
            height as nat,
        ),
{
    let pixel: u64 = bytes_per_pixel as u64;
    let columns: u64 = width as u64;
    assert(pixel * columns <= 255 * 0xffff_ffff) by (nonlinear_arith)
        requires
            pixel <= 255,
            columns <= 0xffff_ffff,
    ;
    let row64: u64 = pixel * columns;
    let padded64: u64 = row64 + (ROW_ALIGNMENT - row64 % ROW_ALIGNMENT) % ROW_ALIGNMENT;
    let mut pixels: Vec<u8> = Vec::new();
    proof {
        assert(width * height * bytes_per_pixel == height * row_bytes_of(bytes_per_pixel, width))
            by (nonlinear_arith)
            requires
                row_bytes_of(bytes_per_pixel, width) == bytes_per_pixel * width,
        ;
    }
    if height == 0 || row64 == 0 {
        proof {
            assert(height as nat * row_bytes_of(bytes_per_pixel, width) == 0) by (nonlinear_arith)
                requires
                    height == 0 || row_bytes_of(bytes_per_pixel, width) == 0,
            ;
        }
        assert(pixels@ =~= strip_row_padding(
            mapped@,
            row_bytes_of(bytes_per_pixel, width),
            padded_row_bytes(row_bytes_of(bytes_per_pixel, width)),
            height as nat,
        ));
        return pixels;
    }
    let mapped_len: usize = mapped.len();
    proof {
        assert(row64 == row_bytes_of(bytes_per_pixel, width));
        assert(padded64 == padded_row_bytes(row_bytes_of(bytes_per_pixel, width)));
        assert(mapped_len == padded64 * height);
        assert(padded64 <= padded64 * height) by (nonlinear_arith)
            requires
                height >= 1,
        ;
    }
    let row: usize = row64 as usize;
    let padded: usize = padded64 as usize;
    let rows: usize = height as usize;
    let mut r: usize = 0;
    while r < rows
        invariant
            0 < row <= padded,
            r <= rows,
            mapped_len == mapped@.len(),
            mapped_len == padded * rows,
            pixels@ =~= strip_row_padding(mapped@, row as nat, padded as nat, r as nat),
        decreases rows - r,
    {
        proof {
            assert((r + 1) * padded <= rows * padded) by (nonlinear_arith)
                requires
                    r + 1 <= rows,
            ;
            assert(rows * padded == padded * rows) by (nonlinear_arith);
            assert((r + 1) * padded == r * padded + padded) by (nonlinear_arith);
        }
        let start: usize = r * padded;
        let ghost before = pixels@;
        let mut c: usize = 0;
        while c < row
            invariant
                0 < row <= padded,
                c <= row,
                mapped_len == mapped@.len(),
                start + padded <= mapped_len,
                pixels@.len() == before.len() + c,
                forall|k: int| 0 <= k < before.len() ==> pixels@[k] == before[k],
                forall|k: int|
                    before.len() <= k < before.len() + c ==> pixels@[k] == mapped@[start + (k
                        - before.len())],
            decreases row - c,
        {
            pixels.push(mapped[start + c]);
            c += 1;
        }
        proof {
            let next = strip_row_padding(mapped@, row as nat, padded as nat, (r + 1) as nat);
            assert((r + 1) * row == r * row + row) by (nonlinear_arith);
            assert(pixels@.len() == next.len());
            assert forall|k: int| 0 <= k < next.len() implies pixels@[k] == next[k] by {
                if k < before.len() {
                    assert(before[k] == next[k]);
                } else {
                    let j = k - before.len();
                    assert(k == r * row + j);
                    lemma_fundamental_div_mod_converse(k, row as int, r as int, j);
                }
            }
            assert(pixels@ =~= next);
        }
        r += 1;
    }
    pixels
}

/// Says whether `len` is the size of the buffer that holds `height` padded
/// rows of `width` pixels of `bytes_per_pixel` bytes each.
pub fn has_staging_size(len: usize, bytes_per_pixel: u8, width: u32, height: u32) -> (r: bool)
    ensures
        r == (len == staging_size_of(bytes_per_pixel, width, height)),
{
    let pixel: u128 = bytes_per_pixel as u128;
    let columns: u128 = width as u128;
    assert(pixel * columns <= 255 * 0xffff_ffff) by (nonlinear_arith)
        requires
            pixel <= 255,
            columns <= 0xffff_ffff,
    ;
    let row: u128 = pixel * columns;
    let padded: u128 = row + (256 - row % 256) % 256;
    let rows: u128 = height as u128;
    assert(padded * rows <= (255 * 0xffff_ffff + 256) * 0xffff_ffff) by (nonlinear_arith)
        requires
            padded <= 255 * 0xffff_ffff + 256,
            rows <= 0xffff_ffff,
    ;
    len as u128 == padded * rows
}

/// Information to create an image.
#[derive(Debug, Clone, Copy, PartialEq, Eq)]
pub struct ImageInfo {
    /// Size of the image. A 2D image has `depth_or_array_layers` set to 1.
    pub size: Extent3d,
    /// Format of the image.
    pub format: ImageFormat,
}

/// What the buffer must look like into which an image is copied to be read.
#[derive(Debug, Clone, Copy, PartialEq, Eq, Structural)]
pub struct StagingLayout {
    /// Length of a padded row, in bytes.
    pub bytes_per_row: u32,
    /// Size of the buffer, in bytes.
    pub size: u64,
}

impl StagingLayout {
    /// The layout of the buffer that holds `height` padded rows of `width`
    /// pixels of `bytes_per_pixel` bytes each. There is none if a padded row
    /// is too long for the backend to address.
    pub fn for_rows(bytes_per_pixel: u8, width: u32, height: u32) -> (r: Option<StagingLayout>)
        ensures
            r is Some <==> padded_row_bytes(row_bytes_of(bytes_per_pixel, width)) <= u32::MAX,
            r matches Some(layout) ==> layout.bytes_per_row == padded_row_bytes(
                row_bytes_of(bytes_per_pixel, width),
            ) && layout.size == staging_size_of(bytes_per_pixel, width, height),
            r matches Some(layout) ==> layout.bytes_per_row % 256 == 0 && row_bytes_of(
                bytes_per_pixel,
                width,
            ) <= layout.bytes_per_row < row_bytes_of(bytes_per_pixel, width) + 256,
    {
        proof {
            lemma_padded_row_bytes(row_bytes_of(bytes_per_pixel, width));
        }
        let pixel: u64 = bytes_per_pixel as u64;
        let columns: u64 = width as u64;
        assert(pixel * columns <= 255 * 0xffff_ffff) by (nonlinear_arith)
            requires
                pixel <= 255,
                columns <= 0xffff_ffff,
        ;
        let row: u64 = pixel * columns;
        let padded: u64 = row + (ROW_ALIGNMENT - row % ROW_ALIGNMENT) % ROW_ALIGNMENT;
        if padded > u32::MAX as u64 {
            None
        } else {
            let rows: u64 = height as u64;
            assert(padded * rows <= 0xffff_ffff * 0xffff_ffff) by (nonlinear_arith)
                requires
                    padded <= 0xffff_ffff,
                    rows <= 0xffff_ffff,
            ;
            Some(StagingLayout { bytes_per_row: padded as u32, size: padded * rows })
        }
    }

    /// What the backend is asked for to allocate the buffer: its size, to be
    /// copied into and mapped for reading.
    pub fn descriptor(&self) -> (r: BufferDescriptor)
        ensures
            r == (BufferDescriptor {
                size: self.size,
                usage: BufferUsages::spec_staging(),
                mapped_at_creation: false,
            }),
    {
        BufferDescriptor {
            size: self.size,
            usage: BufferUsages::staging(),
            mapped_at_creation: false,
        }
    }
}

/// The uses that an image is allocated for.
#[derive(Debug, Clone, Copy, PartialEq, Eq, Structural)]
pub struct TextureUsages {
    /// The image can be bound to be sampled.
    pub texture_binding: bool,
    /// The image can be bound for storage.
    pub storage_binding: bool,
    /// The image can be the source of a copy.
    pub copy_src: bool,
    /// The image can be the destination of a copy or a write.
    pub copy_dst: bool,
}

impl TextureUsages {
    /// Every use that the library makes of an image.
    pub open spec fn spec_all() -> TextureUsages {
        TextureUsages {
            texture_binding: true,
            storage_binding: true,
            copy_src: true,
            copy_dst: true,
        }
    }

    /// Every use that the library makes of an image.
    #[verifier::when_used_as_spec(spec_all)]
    pub fn all() -> (r: Self)
        ensures
            r == Self::spec_all(),
    {
        TextureUsages {
            texture_binding: true,
            storage_binding: true,
            copy_src: true,
            copy_dst: true,
        }
    }
}

/// What the backend is asked for when an image is allocated.
#[derive(Debug, Clone, Copy, PartialEq, Eq)]
pub struct TextureDescriptor {
    pub size: Extent3d,
    pub mip_level_count: u32,
    pub sample_count: u32,
    pub dimension: ImageDimension,
    pub format: ImageFormat,
    pub usage: TextureUsages,
}

/// The shape of an image stored on the device: its size, format and
/// dimension, fixed when it is created.
#[derive(Debug)]
pub struct Image {
    size: Extent3d,
    format: ImageFormat,
    dimension: ImageDimension,
}

impl Image {
    /// Size of the image.
    pub closed spec fn spec_size(&self) -> Extent3d {
        self.size
    }

    /// Format of the image.
    pub closed spec fn spec_format(&self) -> ImageFormat {
        self.format
    }

    /// Dimension of the image.
    pub closed spec fn spec_dimension(&self) -> ImageDimension {
        self.dimension
    }

    /// Bytes that a pixel of the image takes.
    pub open spec fn spec_bytes_per_pixel(&self) -> u8 {
        format_info(self.spec_format()).block_size
    }

    /// Bytes in a row of the image, tightly packed.
    pub open spec fn row_bytes(&self) -> nat {
        row_bytes_of(self.spec_bytes_per_pixel(), self.spec_size().width)
    }

    /// Bytes in a row of the image as the backend copies it out.
    pub open spec fn padded_bytes_per_row(&self) -> nat {
        padded_row_bytes(self.row_bytes())
    }

    /// Size in bytes of the buffer into which the backend copies the image.
    pub open spec fn staging_size(&self) -> nat {
        staging_size_of(
            self.spec_bytes_per_pixel(),
            self.spec_size().width,
            self.spec_size().height,
        )
    }

    /// Says whether a part of extent `size` that starts at the origin lies
    /// within the image.
    pub open spec fn contains(&self, size: Extent3d) -> bool {
        &&& size.width <= self.spec_size().width
        &&& size.height <= self.spec_size().height
        &&& size.depth_or_array_layers <= self.spec_size().depth_or_array_layers
    }

    /// Creates the shape of an empty image with the specified info: it has
    /// two dimensions if it has one layer, and three otherwise.
    pub fn new(context: &Context, info: &ImageInfo) -> (r: Self)
        ensures
            r.size() == info.size,
            r.format() == info.format,
            r.dimension() == if info.size.depth_or_array_layers == 1 {
                ImageDimension::D2
            } else {
                ImageDimension::D3
            },
    {
        let dimension = if info.size.depth_or_array_layers == 1 {
            ImageDimension::D2
        } else {
            ImageDimension::D3
        };
        Image { size: info.size, format: info.format, dimension }
    }

    /// Creates the shape of an empty image with the size, format and
    /// dimension of `other`.
    pub fn empty_like(other: &Self) -> (r: Self)
        ensures
            r.size() == other.size(),
            r.format() == other.format(),
            r.dimension() == other.dimension(),
    {
        Image { size: other.size, format: other.format, dimension: other.dimension }
    }

    /// Size of the image.
    #[verifier::when_used_as_spec(spec_size)]
    pub fn size(&self) -> (r: Extent3d)
        ensures
            r == self.size(),
    {
        self.size
    }

    /// Format of the image.
    #[verifier::when_used_as_spec(spec_format)]
    pub fn format(&self) -> (r: ImageFormat)
        ensures
            r == self.format(),
    {
        self.format
    }

    /// Dimension of the image.
    #[verifier::when_used_as_spec(spec_dimension)]
    pub fn dimension(&self) -> (r: ImageDimension)
        ensures
            r == self.dimension(),
    {
        self.dimension
    }

    /// Bytes that a pixel of the image takes.
    #[verifier::when_used_as_spec(spec_bytes_per_pixel)]
    pub fn bytes_per_pixel(&self) -> (r: u8)
        ensures
            r == self.bytes_per_pixel(),
    {
        describe_format(self.format).block_size
    }

    /// What the backend is asked for to allocate the image: its size, format
    /// and dimension, with one mip level and one sample, for every use that
    /// the library makes of an image.
    pub fn descriptor(&self) -> (r: TextureDescriptor)
        ensures
            r == (TextureDescriptor {
                size: self.size(),
                mip_level_count: 1,
                sample_count: 1,
                dimension: self.dimension(),
                format: self.format(),
                usage: TextureUsages::spec_all(),
            }),
    {
        TextureDescriptor {
            size: self.size,
            mip_level_count: 1,
            sample_count: 1,
            dimension: self.dimension,
            format: self.format,
            usage: TextureUsages::all(),
        }
    }

    /// Says whether a part of extent `size` may be written to the image: it
    /// may unless it is larger than the image in some dimension.
    pub fn validate_write(&self, size: Extent3d) -> (r: Result<(), Violation>)
        ensures
            r is Ok <==> self.contains(size),
            r is Err ==> r == Err::<(), Violation>(Violation::WriteOutOfBounds),
    {
        if size.width <= self.size.width && size.height <= self.size.height
            && size.depth_or_array_layers <= self.size.depth_or_array_layers {
            Ok(())
        } else {
            Err(Violation::WriteOutOfBounds)
        }
    }

    /// The copy that writes pixel data, laid out as `data_layout` says, to
    /// the part of the image of extent `size`: the part starts at the origin
    /// of the image, in its only mip level.
    pub fn write(&self, data_layout: ImageDataLayout, size: Extent3d) -> (r: ImageWrite)
        requires
            self.contains(size),
        ensures
            r == (ImageWrite {
                mip_level: 0,
                origin: Origin3d { x: 0, y: 0, z: 0 },
                layout: data_layout,
                size,
            }),
    {
        ImageWrite {
            mip_level: 0,
            origin: Origin3d { x: 0, y: 0, z: 0 },
            layout: data_layout,
            size,
        }
    }

    /// The layout of the buffer into which the backend is to copy the image
    /// for reading it: rows padded to the row alignment, one after another.
    /// There is none if a padded row is too long for the backend to address.
    pub fn staging_layout(&self) -> (r: Option<StagingLayout>)
        ensures
            r is Some <==> self.padded_bytes_per_row() <= u32::MAX,
            r matches Some(layout) ==> layout.bytes_per_row == self.padded_bytes_per_row()
                && layout.size == self.staging_size(),
            r matches Some(layout) ==> layout.bytes_per_row % 256 == 0 && self.row_bytes()
                <= layout.bytes_per_row < self.row_bytes() + 256,
    {
        StagingLayout::for_rows(self.bytes_per_pixel(), self.size.width, self.size.height)
    }

    /// Reads the image out of `mapped`, the bytes of the buffer into which
    /// the backend copied it: removes the padding of each row and returns the
    /// pixels tightly packed, `width * height * bytes_per_pixel` bytes.
    pub fn read_to_vec(&self, mapped: &[u8]) -> (pixels: Vec<u8>)
        requires
            mapped@.len() == self.staging_size(),
        ensures
            pixels@.len() == self.size().width * self.size().height * self.bytes_per_pixel(),
            pixels@ == strip_row_padding(
                mapped@,
                self.row_bytes(),
                self.padded_bytes_per_row(),
                self.size().height as nat,
            ),
    {
        unpad_rows(mapped, self.bytes_per_pixel(), self.size.width, self.size.height)
    }

    /// Reads the image out of `mapped` if `mapped` has the size of the buffer
    /// into which the backend copies the image, and gives nothing otherwise.
    pub fn try_read_to_vec(&self, mapped: &[u8]) -> (r: Option<Vec<u8>>)
        ensures
            r is Some <==> mapped@.len() == self.staging_size(),
            r matches Some(pixels) ==> pixels@ == strip_row_padding(
                mapped@,
                self.row_bytes(),
                self.padded_bytes_per_row(),
                self.size().height as nat,
            ),
    {
        let bytes_per_pixel: u8 = self.bytes_per_pixel();
        if has_staging_size(mapped.len(), bytes_per_pixel, self.size.width, self.size.height) {
            Some(unpad_rows(mapped, bytes_per_pixel, self.size.width, self.size.height))
        } else {
            None
        }
    }

    /// Creates the shape of a 2D image for 8-bit RGBA pixels, `width` by
    /// `height`, in the RGBA format of four bytes to the pixel that samples as
    /// `sample_type`. With it comes the write of the pixel data that fills the
    /// whole image: rows of `4 * width` bytes from offset 0.
    pub fn from_rgba8_image(
        context: &Context,
        width: u32,
        height: u32,
        sample_type: ImageSampleType,
    ) -> (r: (Self, ImageWrite))
        requires
            4 * width <= u32::MAX,
        ensures
            r.0.size() == (Extent3d { width, height, depth_or_array_layers: 1 }),
            r.0.dimension() == ImageDimension::D2,
            r.0.bytes_per_pixel() == 4,
            format_info(r.0.format()).sample_type == rgba8_sample_type(sample_type),
            r.1 == rgba8_write(width, height),
    {
        let size = Extent3d { width, height, depth_or_array_layers: 1 };
        let format = match sample_type {
            ImageSampleType::Float { .. } => rgba8_unorm(),
            ImageSampleType::Uint => rgba8_uint(),
            ImageSampleType::Sint => rgba8_sint(),
        };
        let bytes_per_pixel: u32 = 4;
        let bytes_per_row = if width == 0 {
            None
        } else {
            Some(width * bytes_per_pixel)
        };
        let image = Image { size, format, dimension: ImageDimension::D2 };
        let write = image.write(
            ImageDataLayout { offset: 0, bytes_per_row, rows_per_image: None },
            size,
        );
        (image, write)
    }
}

/// The sample type of the RGBA format that is chosen for 8-bit RGBA pixels to
/// be sampled as `sample_type`. The floating-point format is filterable.
pub open spec fn rgba8_sample_type(sample_type: ImageSampleType) -> TextureSampleType {
    match sample_type {
        ImageSampleType::Float { .. } => TextureSampleType::Float { filterable: true },
        ImageSampleType::Uint => TextureSampleType::Uint,
        ImageSampleType::Sint => TextureSampleType::Sint,
    }
}

/// The write that fills a 2D image of `width` by `height` pixels with 8-bit
/// RGBA pixel data: tightly packed rows of four bytes to the pixel.
pub open spec fn rgba8_write(width: u32, height: u32) -> ImageWrite {
    ImageWrite {
        mip_level: 0,
        origin: Origin3d { x: 0, y: 0, z: 0 },
        layout: ImageDataLayout {
            offset: 0,
            bytes_per_row: if width == 0 {
                None
            } else {
                Some((4 * width) as u32)
            },
            rows_per_image: None,
        },
        size: Extent3d { width, height, depth_or_array_layers: 1 },
    }
}

} // verus!
