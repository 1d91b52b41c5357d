use film_emulator::error::ResourceError;
use film_emulator::gpu::{
    BoundResource, BufferDescription, BufferUsage, TextureDescription, TextureFormat, TextureUsage,
};
use film_emulator::linear::LinearImage;
use film_emulator::pipeline::{GpuImageComputePipeline, GpuImageRenderPipeline};
use film_emulator::resources::{
    Dispatch, DrawCall, ImagePaintCallback, ImageRenderResources, COLOR_PARAMETERS_SIZE,
    QUAD_VERTICES, VIEWPORT_SIZE,
};

#[test]
fn resource_set_of_a_small_image() {
    let set = ImageRenderResources::new(17, 9, 8192).unwrap();
    assert_eq!(set.width(), 17);
    assert_eq!(set.height(), 9);
    assert_eq!(
        set.input_texture(),
        TextureDescription {
            width: 17,
            height: 9,
            format: TextureFormat::Rgba32Float,
            usage: TextureUsage {
                copy_src: false,
                copy_dst: true,
                texture_binding: true,
                storage_binding: true,
            },
        }
    );
    assert_eq!(
        set.processed_texture(),
        TextureDescription {
            width: 17,
            height: 9,
            format: TextureFormat::Rgba8Unorm,
            usage: TextureUsage {
                copy_src: true,
                copy_dst: false,
                texture_binding: true,
                storage_binding: true,
            },
        }
    );
}

#[test]
fn uniform_regions_have_the_size_of_their_structs() {
    let set = ImageRenderResources::new(1, 1, 1).unwrap();
    assert_eq!(COLOR_PARAMETERS_SIZE, 6 * 4);
    assert_eq!(VIEWPORT_SIZE, 8 * 4);
    let uniform = BufferUsage { uniform: true, copy_dst: true, map_read: false };
    assert_eq!(set.settings_buffer(), BufferDescription { size: 24, usage: uniform });
    assert_eq!(set.viewport_buffer(), BufferDescription { size: 32, usage: uniform });
}

#[test]
fn upload_rows_are_tight_and_readback_rows_are_padded() {
    let set = ImageRenderResources::new(17, 9, 8192).unwrap();
    assert_eq!(set.upload_bytes_per_row(), 17 * 16);
    assert_eq!(set.upload_size(), 17 * 9 * 16);
    assert_eq!(set.readback_layout().unpadded_bytes_per_row(), 17 * 4);
    assert_eq!(set.readback_layout().padded_bytes_per_row(), 256);
    assert_eq!(
        set.staging_buffer(),
        BufferDescription {
            size: 256 * 9,
            usage: BufferUsage { uniform: false, copy_dst: true, map_read: true },
        }
    );
}

#[test]
fn upload_size_is_the_size_of_the_rgba_samples() {
    let image = LinearImage::new(5, 3, vec![(0.25f32, 0.5f32, 0.75f32); 15]).unwrap();
    let set = ImageRenderResources::for_image(&image, 8192).unwrap();
    let samples = image.to_rgba(1.0);
    assert_eq!(set.upload_size(), (samples.len() * 4) as u64);
    assert_eq!(set.upload_bytes_per_row(), 5 * 16);
}

#[test]
fn image_without_pixels_gets_no_resources() {
    assert!(matches!(ImageRenderResources::new(0, 9, 8192), Err(ResourceError::EmptyImage)));
    assert!(matches!(ImageRenderResources::new(17, 0, 8192), Err(ResourceError::EmptyImage)));
    assert!(matches!(ImageRenderResources::new(0, 0, 0), Err(ResourceError::EmptyImage)));
    let empty = LinearImage::new(0, 0, Vec::<(f32, f32, f32)>::new()).unwrap();
    assert!(matches!(
        ImageRenderResources::for_image(&empty, 8192),
        Err(ResourceError::EmptyImage)
    ));
}

#[test]
fn image_above_the_device_limit_gets_no_resources() {
    assert!(ImageRenderResources::new(8192, 8192, 8192).is_ok());
    assert!(matches!(
        ImageRenderResources::new(8193, 1, 8192),
        Err(ResourceError::DimensionExceedsLimit)
    ));
    assert!(matches!(
        ImageRenderResources::new(1, 8193, 8192),
        Err(ResourceError::DimensionExceedsLimit)
    ));
    assert!(matches!(
        ImageRenderResources::new(1, 1, 0),
        Err(ResourceError::DimensionExceedsLimit)
    ));
}

#[test]
fn upload_row_must_fit_32_bits() {
    assert!(ImageRenderResources::new(268_435_455, 1, u32::MAX).is_ok());
    assert!(matches!(
        ImageRenderResources::new(268_435_456, 1, u32::MAX),
        Err(ResourceError::DimensionExceedsLimit)
    ));
}

#[test]
fn bindings_fill_the_slots_of_both_pipelines() {
    let set = ImageRenderResources::new(640, 480, 8192).unwrap();
    let compute = GpuImageComputePipeline::new();
    let render = GpuImageRenderPipeline::new();
    assert_eq!(
        set.compute_bindings(),
        vec![
            BoundResource::Texture(set.input_texture()),
            BoundResource::Texture(set.processed_texture()),
            BoundResource::Buffer(set.settings_buffer()),
        ]
    );
    assert_eq!(
        set.render_bindings(),
        vec![
            BoundResource::Texture(set.processed_texture()),
            BoundResource::Buffer(set.viewport_buffer()),
        ]
    );
    assert!(compute.takes(&set.compute_bindings()));
    assert!(render.takes(&set.render_bindings()));
    assert!(!compute.takes(&set.render_bindings()));
    assert!(!render.takes(&set.compute_bindings()));
}

#[test]
fn frame_dispatches_one_workgroup_per_tile() {
    let set = ImageRenderResources::new(17, 9, 8192).unwrap();
    assert_eq!(set.prepare(), Dispatch { bind_group: 0, x: 2, y: 1, z: 1 });
    let set = ImageRenderResources::new(256, 256, 8192).unwrap();
    assert_eq!(set.prepare(), Dispatch { bind_group: 0, x: 16, y: 16, z: 1 });
    let set = ImageRenderResources::new(6000, 4000, 8192).unwrap();
    assert_eq!(set.prepare(), Dispatch { bind_group: 0, x: 375, y: 250, z: 1 });
}

#[test]
fn frame_draws_the_quad_once() {
    let set = ImageRenderResources::new(17, 9, 8192).unwrap();
    assert_eq!(QUAD_VERTICES, 6);
    assert_eq!(set.paint(), DrawCall { bind_group: 0, vertices: 6, instances: 1 });
}

#[test]
fn callback_paints_only_a_loaded_image() {
    let set = ImageRenderResources::new(17, 9, 8192).unwrap();
    assert_eq!(
        ImagePaintCallback.paint(Some(&set)),
        Some(DrawCall { bind_group: 0, vertices: 6, instances: 1 })
    );
    assert_eq!(ImagePaintCallback.paint(None), None);
}
