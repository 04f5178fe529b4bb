use hac::{
    Context, Extent3d, Image, ImageDataLayout, ImageDimension, ImageInfo, ImageSampleType,
    ImageWrite, Origin3d, StagingLayout, TextureDescriptor, TextureSampleType, TextureUsages,
    Violation,
};

fn image_2d(width: u32, height: u32, format: wgpu::TextureFormat) -> Image {
    let context = Context::default();
    let info = ImageInfo { size: Extent3d { width, height, depth_or_array_layers: 1 }, format };
    Image::new(&context, &info)
}

#[test]
fn image_with_one_layer_is_two_dimensional() {
    let image = image_2d(640, 480, wgpu::TextureFormat::Rgba8Unorm);
    assert_eq!(image.dimension(), ImageDimension::D2);
    assert_eq!(image.size(), Extent3d { width: 640, height: 480, depth_or_array_layers: 1 });
    assert_eq!(image.format(), wgpu::TextureFormat::Rgba8Unorm);
}

#[test]
fn image_with_other_layer_counts_is_three_dimensional() {
    let context = Context::default();
    for depth in [0u32, 2, 3, 64] {
        let info = ImageInfo {
            size: Extent3d { width: 4, height: 4, depth_or_array_layers: depth },
            format: wgpu::TextureFormat::R32Float,
        };
        assert_eq!(context.image(&info).dimension(), ImageDimension::D3);
    }
}

#[test]
fn image_empty_like_has_the_same_size_format_and_dimension() {
    let context = Context::default();
    let info = ImageInfo {
        size: Extent3d { width: 7, height: 5, depth_or_array_layers: 3 },
        format: wgpu::TextureFormat::Rg16Uint,
    };
    let first = Image::new(&context, &info);
    let like = Image::empty_like(&first);
    assert_eq!(like.size(), first.size());
    assert_eq!(like.format(), first.format());
    assert_eq!(like.dimension(), first.dimension());
    assert_eq!(like.dimension(), ImageDimension::D3);
}

#[test]
fn bytes_per_pixel_come_from_the_format() {
    assert_eq!(image_2d(1, 1, wgpu::TextureFormat::R8Unorm).bytes_per_pixel(), 1);
    assert_eq!(image_2d(1, 1, wgpu::TextureFormat::Rg8Uint).bytes_per_pixel(), 2);
    assert_eq!(image_2d(1, 1, wgpu::TextureFormat::Rgba8Unorm).bytes_per_pixel(), 4);
    assert_eq!(image_2d(1, 1, wgpu::TextureFormat::Rgba16Float).bytes_per_pixel(), 8);
    assert_eq!(image_2d(1, 1, wgpu::TextureFormat::Rgba32Float).bytes_per_pixel(), 16);
}

#[test]
fn staging_rows_are_padded_to_256_bytes() {
    let rgba = wgpu::TextureFormat::Rgba8Unorm;
    assert_eq!(
        image_2d(3, 2, rgba).staging_layout(),
        Some(StagingLayout { bytes_per_row: 256, size: 512 })
    );
    assert_eq!(
        image_2d(64, 10, rgba).staging_layout(),
        Some(StagingLayout { bytes_per_row: 256, size: 2560 })
    );
    assert_eq!(
        image_2d(65, 10, rgba).staging_layout(),
        Some(StagingLayout { bytes_per_row: 512, size: 5120 })
    );
    assert_eq!(
        image_2d(17, 3, wgpu::TextureFormat::Rgba32Float).staging_layout(),
        Some(StagingLayout { bytes_per_row: 512, size: 1536 })
    );
    assert_eq!(
        image_2d(255, 1, wgpu::TextureFormat::R8Unorm).staging_layout(),
        Some(StagingLayout { bytes_per_row: 256, size: 256 })
    );
}

#[test]
fn staging_layout_of_an_empty_image_is_empty() {
    let rgba = wgpu::TextureFormat::Rgba8Unorm;
    assert_eq!(
        image_2d(0, 9, rgba).staging_layout(),
        Some(StagingLayout { bytes_per_row: 0, size: 0 })
    );
    assert_eq!(
        image_2d(9, 0, rgba).staging_layout(),
        Some(StagingLayout { bytes_per_row: 256, size: 0 })
    );
}

#[test]
fn staging_layout_is_none_when_a_row_is_too_long() {
    let wide = image_2d(u32::MAX, 1, wgpu::TextureFormat::Rgba8Unorm);
    assert_eq!(wide.staging_layout(), None);
    let widest = image_2d(1 << 30, 1, wgpu::TextureFormat::Rgba8Unorm);
    assert_eq!(widest.staging_layout(), None);
    let fits = image_2d((1 << 30) - 64, 2, wgpu::TextureFormat::Rgba8Unorm);
    assert_eq!(
        fits.staging_layout(),
        Some(StagingLayout { bytes_per_row: 0xffff_ff00, size: 0x1_ffff_fe00 })
    );
}

#[test]
fn read_to_vec_removes_the_padding_of_each_row() {
    let image = image_2d(3, 2, wgpu::TextureFormat::Rgba8Uint);
    let mut mapped = vec![0xeeu8; 512];
    for row in 0..2usize {
        for column in 0..12usize {
            mapped[row * 256 + column] = (row * 100 + column) as u8;
        }
    }
    let pixels = image.read_to_vec(&mapped);
    let expected: Vec<u8> = (0..12u8).chain(100..112u8).collect();
    assert_eq!(pixels, expected);
    assert_eq!(pixels.len(), 3 * 2 * 4);
}

#[test]
fn read_to_vec_of_rows_without_padding_is_the_mapped_memory() {
    let image = image_2d(64, 3, wgpu::TextureFormat::Rgba8Unorm);
    let mapped: Vec<u8> = (0..768u32).map(|k| (k % 251) as u8).collect();
    assert_eq!(image.read_to_vec(&mapped), mapped);
}

#[test]
fn read_to_vec_gives_width_times_height_times_bytes_per_pixel() {
    let cases = [
        (5u32, 7u32, wgpu::TextureFormat::R8Unorm, 1usize),
        (65, 3, wgpu::TextureFormat::Rgba8Unorm, 4),
        (17, 2, wgpu::TextureFormat::Rgba32Float, 16),
        (100, 4, wgpu::TextureFormat::Rg16Float, 4),
    ];
    for (width, height, format, bytes_per_pixel) in cases {
        let image = image_2d(width, height, format);
        let layout = image.staging_layout().unwrap();
        let mapped = vec![1u8; layout.size as usize];
        let pixels = image.read_to_vec(&mapped);
        assert_eq!(pixels.len(), width as usize * height as usize * bytes_per_pixel);
    }
}

#[test]
fn read_to_vec_of_an_empty_image_is_empty() {
    let no_rows = image_2d(4, 0, wgpu::TextureFormat::Rgba8Unorm);
    assert_eq!(no_rows.read_to_vec(&[]), Vec::<u8>::new());
    let no_columns = image_2d(0, 4, wgpu::TextureFormat::Rgba8Unorm);
    assert_eq!(no_columns.read_to_vec(&[]), Vec::<u8>::new());
}

#[test]
fn rgba8_image_has_the_format_of_its_sample_type() {
    let context = Context::default();
    let (float, _) =
        Image::from_rgba8_image(&context, 8, 8, ImageSampleType::Float { filterable: true });
    assert_eq!(float.format(), wgpu::TextureFormat::Rgba8Unorm);
    let (nearest, _) =
        Image::from_rgba8_image(&context, 8, 8, ImageSampleType::Float { filterable: false });
    assert_eq!(nearest.format(), wgpu::TextureFormat::Rgba8Unorm);
    let (uint, _) = Image::from_rgba8_image(&context, 8, 8, ImageSampleType::Uint);
    assert_eq!(uint.format(), wgpu::TextureFormat::Rgba8Uint);
    let (sint, _) = context.image_from_rgba8_img(8, 8, ImageSampleType::Sint);
    assert_eq!(sint.format(), wgpu::TextureFormat::Rgba8Sint);
    for image in [float, nearest, uint, sint] {
        assert_eq!(image.bytes_per_pixel(), 4);
        assert_eq!(image.dimension(), ImageDimension::D2);
        assert_eq!(image.size(), Extent3d { width: 8, height: 8, depth_or_array_layers: 1 });
    }
}

#[test]
fn rgba8_image_data_has_rows_of_four_bytes_to_the_pixel() {
    let context = Context::default();
    let (_, write) = Image::from_rgba8_image(&context, 640, 480, ImageSampleType::Uint);
    assert_eq!(
        write,
        ImageWrite {
            mip_level: 0,
            origin: Origin3d { x: 0, y: 0, z: 0 },
            layout: ImageDataLayout { offset: 0, bytes_per_row: Some(2560), rows_per_image: None },
            size: Extent3d { width: 640, height: 480, depth_or_array_layers: 1 },
        }
    );
    let (_, empty) = Image::from_rgba8_image(&context, 0, 480, ImageSampleType::Uint);
    assert_eq!(
        empty.layout,
        ImageDataLayout { offset: 0, bytes_per_row: None, rows_per_image: None }
    );
    let (_, widest) = Image::from_rgba8_image(&context, u32::MAX / 4, 1, ImageSampleType::Sint);
    assert_eq!(widest.layout.bytes_per_row, Some(0xffff_fffc));
}

#[test]
fn image_write_starts_at_the_origin_of_the_only_mip_level() {
    let image = image_2d(64, 32, wgpu::TextureFormat::Rgba8Unorm);
    let layout = ImageDataLayout { offset: 16, bytes_per_row: Some(512), rows_per_image: Some(32) };
    let size = Extent3d { width: 48, height: 32, depth_or_array_layers: 1 };
    assert_eq!(
        image.write(layout, size),
        ImageWrite { mip_level: 0, origin: Origin3d { x: 0, y: 0, z: 0 }, layout, size }
    );
}

#[test]
fn image_write_is_checked_against_the_size_of_the_image() {
    let context = Context::default();
    let info = ImageInfo {
        size: Extent3d { width: 64, height: 32, depth_or_array_layers: 4 },
        format: wgpu::TextureFormat::Rgba8Unorm,
    };
    let image = Image::new(&context, &info);
    let extent = |width: u32, height: u32, depth_or_array_layers: u32| Extent3d {
        width,
        height,
        depth_or_array_layers,
    };
    assert_eq!(image.validate_write(extent(64, 32, 4)), Ok(()));
    assert_eq!(image.validate_write(extent(1, 1, 1)), Ok(()));
    assert_eq!(image.validate_write(extent(0, 0, 0)), Ok(()));
    assert_eq!(image.validate_write(extent(65, 32, 4)), Err(Violation::WriteOutOfBounds));
    assert_eq!(image.validate_write(extent(64, 33, 4)), Err(Violation::WriteOutOfBounds));
    assert_eq!(image.validate_write(extent(64, 32, 5)), Err(Violation::WriteOutOfBounds));
}

#[test]
fn texture_sample_type_from_image_sample_type() {
    assert_eq!(
        TextureSampleType::from(ImageSampleType::Float { filterable: true }),
        TextureSampleType::Float { filterable: true }
    );
    assert_eq!(
        TextureSampleType::from(ImageSampleType::Float { filterable: false }),
        TextureSampleType::Float { filterable: false }
    );
    assert_eq!(TextureSampleType::from(ImageSampleType::Uint), TextureSampleType::Uint);
    assert_eq!(TextureSampleType::from(ImageSampleType::Sint), TextureSampleType::Sint);
}

#[test]
fn image_is_allocated_with_one_mip_level_for_every_use() {
    let context = Context::default();
    let info = ImageInfo {
        size: Extent3d { width: 7, height: 5, depth_or_array_layers: 3 },
        format: wgpu::TextureFormat::Rg16Uint,
    };
    assert_eq!(
        Image::new(&context, &info).descriptor(),
        TextureDescriptor {
            size: info.size,
            mip_level_count: 1,
            sample_count: 1,
            dimension: ImageDimension::D3,
            format: wgpu::TextureFormat::Rg16Uint,
            usage: TextureUsages {
                texture_binding: true,
                storage_binding: true,
                copy_src: true,
                copy_dst: true,
            },
        }
    );
}

#[test]
fn image_is_read_through_a_staging_buffer_of_padded_rows() {
    let layout = image_2d(65, 10, wgpu::TextureFormat::Rgba8Unorm).staging_layout().unwrap();
    assert_eq!(
        layout.descriptor(),
        hac::BufferDescriptor {
            size: 5120,
            usage: hac::BufferUsages::staging(),
            mapped_at_creation: false,
        }
    );
}

#[test]
fn unpad_rows_keeps_the_first_bytes_of_each_padded_row() {
    let mut mapped = vec![0u8; 3 * 256];
    for row in 0..3usize {
        for column in 0..256usize {
            mapped[row * 256 + column] = if column < 6 { (10 * row + column) as u8 } else { 0xff };
        }
    }
    assert_eq!(
        hac::unpad_rows(&mapped, 2, 3, 3),
        vec![0, 1, 2, 3, 4, 5, 10, 11, 12, 13, 14, 15, 20, 21, 22, 23, 24, 25]
    );
}

#[test]
fn unpad_rows_of_rows_longer_than_the_alignment() {
    let mapped: Vec<u8> = (0..1024u32).map(|k| (k / 512 * 7 + k % 512 % 200) as u8).collect();
    let pixels = hac::unpad_rows(&mapped, 4, 65, 2);
    assert_eq!(pixels.len(), 520);
    assert_eq!(&pixels[..260], &mapped[..260]);
    assert_eq!(&pixels[260..], &mapped[512..772]);
}

#[test]
fn staging_layout_for_rows_of_plain_sizes() {
    assert_eq!(StagingLayout::for_rows(4, 3, 2), Some(StagingLayout { bytes_per_row: 256, size: 512 }));
    assert_eq!(StagingLayout::for_rows(1, 256, 1), Some(StagingLayout { bytes_per_row: 256, size: 256 }));
    assert_eq!(StagingLayout::for_rows(1, 257, 1), Some(StagingLayout { bytes_per_row: 512, size: 512 }));
    assert_eq!(StagingLayout::for_rows(0, 100, 100), Some(StagingLayout { bytes_per_row: 0, size: 0 }));
    assert_eq!(
        StagingLayout::for_rows(1, 0xffff_ff00, u32::MAX),
        Some(StagingLayout { bytes_per_row: 0xffff_ff00, size: 0xffff_ff00 * 0xffff_ffff })
    );
    assert_eq!(StagingLayout::for_rows(1, 0xffff_ff01, 1), None);
    assert_eq!(StagingLayout::for_rows(255, u32::MAX, u32::MAX), None);
}

#[test]
fn has_staging_size_compares_with_the_padded_rows() {
    assert!(hac::has_staging_size(512, 4, 3, 2));
    assert!(!hac::has_staging_size(511, 4, 3, 2));
    assert!(!hac::has_staging_size(24, 4, 3, 2));
    assert!(hac::has_staging_size(0, 4, 3, 0));
    assert!(hac::has_staging_size(0, 4, 0, 3));
    assert!(!hac::has_staging_size(0, 4, 1, 1));
    assert!(!hac::has_staging_size(usize::MAX, 255, u32::MAX, u32::MAX));
}

#[test]
fn try_read_to_vec_refuses_memory_of_another_size() {
    let image = image_2d(3, 2, wgpu::TextureFormat::Rgba8Uint);
    assert_eq!(image.try_read_to_vec(&[0; 24]), None);
    assert_eq!(image.try_read_to_vec(&[0; 511]), None);
    assert_eq!(image.try_read_to_vec(&[]), None);
    assert_eq!(image.try_read_to_vec(&[5; 512]), Some(vec![5; 24]));
}
