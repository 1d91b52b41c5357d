//! The resource set of one loaded image: which textures and buffers it
//! needs, how the image is uploaded, what is bound to each pipeline, and
//! what one frame dispatches and draws.
//!
//! A resource set is made whole for an image and never resized: a new image
//! gets a new set.

use vstd::prelude::*;
use vstd::arithmetic::mul::*;
use crate::error::ResourceError;
use crate::gpu::{
    layout_accepts, BoundResource, BufferDescription, BufferUsage, TextureDescription,
    TextureFormat, TextureUsage,
};
use crate::layout::{
    ceil_div, compute_work_group_count, lemma_align_up_least_multiple, lemma_ceil_div_least_cover,
    LINEAR_BYTES_PER_PIXEL, WORKGROUP_SIZE,
};
use crate::linear::LinearImage;
use crate::pipeline::{compute_layout, render_layout};
use crate::readback::{ReadbackGeometry, ReadbackLayout};

verus! {

/// Bytes of the colour parameters as the compute shader reads them: six
/// 32-bit scalars.
pub const COLOR_PARAMETERS_SIZE: u64 = 24;

/// Bytes of the viewport state as the render shaders read it: eight 32-bit
/// scalars.
pub const VIEWPORT_SIZE: u64 = 32;

/// Vertices of the quad that presents the image: two triangles.
pub const QUAD_VERTICES: u32 = 6;

/// One draw of the presentation.
#[derive(Clone, Copy, Debug, PartialEq, Eq, Structural)]
pub struct DrawCall {
    /// The bind group index that the render bind group is set at.
    pub bind_group: u32,
    /// Vertices drawn, starting at 0.
    pub vertices: u32,
    /// Instances drawn, starting at 0.
    pub instances: u32,
}

/// One dispatch of the colour transform.
#[derive(Clone, Copy, Debug, PartialEq, Eq, Structural)]
pub struct Dispatch {
    /// The bind group index that the compute bind group is set at.
    pub bind_group: u32,
    /// Workgroups along the width.
    pub x: u32,
    /// Workgroups along the height.
    pub y: u32,
    /// Workgroups along the depth.
    pub z: u32,
}

/// What an [`ImageRenderResources`] stands for: the size of its image. All
/// else follows from the size.
pub struct ResourceSetView {
    pub width: nat,
    pub height: nat,
}

impl ResourceSetView {
    /// The input texture: linear floats, uploaded to and read by the
    /// compute stage.
    pub open spec fn input_texture(self) -> TextureDescription {
        TextureDescription {
            width: self.width as u32,
            height: self.height as u32,
            format: TextureFormat::Rgba32Float,
            usage: TextureUsage {
                copy_src: false,
                copy_dst: true,
                texture_binding: true,
                storage_binding: true,
            },
        }
    }

    /// The processed texture: written by the compute stage, sampled by the
    /// presentation, copied from by the export.
    pub open spec fn processed_texture(self) -> TextureDescription {
        TextureDescription {
            width: self.width as u32,
            height: self.height as u32,
            format: TextureFormat::Rgba8Unorm,
            usage: TextureUsage {
                copy_src: true,
                copy_dst: false,
                texture_binding: true,
                storage_binding: true,
            },
        }
    }

    /// The uniform region of the colour parameters.
    pub open spec fn settings_buffer(self) -> BufferDescription {
        BufferDescription {
            size: COLOR_PARAMETERS_SIZE,
            usage: BufferUsage { uniform: true, copy_dst: true, map_read: false },
        }
    }

    /// The uniform region of the viewport state.
    pub open spec fn viewport_buffer(self) -> BufferDescription {
        BufferDescription {
            size: VIEWPORT_SIZE,
            usage: BufferUsage { uniform: true, copy_dst: true, map_read: false },
        }
    }

    /// The staging buffer of an export: one padded row per image row.
    pub open spec fn staging_buffer(self) -> BufferDescription {
        BufferDescription {
            size: self.readback().buffer_size() as u64,
            usage: BufferUsage { uniform: false, copy_dst: true, map_read: true },
        }
    }

    /// The geometry of the staging buffer.
    pub open spec fn readback(self) -> ReadbackGeometry {
        ReadbackGeometry { width: self.width, height: self.height }
    }

    /// Bytes of one row of the upload into the input texture. Rows of the
    /// upload are tight: no alignment applies to them.
    pub open spec fn upload_bytes_per_row(self) -> int {
        self.width as int * LINEAR_BYTES_PER_PIXEL as int
    }

    /// Bytes of the whole upload.
    pub open spec fn upload_size(self) -> int {
        self.width as int * self.height as int * LINEAR_BYTES_PER_PIXEL as int
    }

    /// What is bound to the colour transform, slot by slot.
    pub open spec fn compute_bindings(self) -> Seq<BoundResource> {
        seq![
            BoundResource::Texture(self.input_texture()),
            BoundResource::Texture(self.processed_texture()),
            BoundResource::Buffer(self.settings_buffer()),
        ]
    }

    /// What is bound to the presentation, slot by slot.
    pub open spec fn render_bindings(self) -> Seq<BoundResource> {
        seq![
            BoundResource::Texture(self.processed_texture()),
            BoundResource::Buffer(self.viewport_buffer()),
        ]
    }

    /// The dispatch that covers the image with tiles.
    pub open spec fn dispatch(self) -> Dispatch {
        Dispatch {
            bind_group: 0,
            x: ceil_div(self.width as int, WORKGROUP_SIZE as int) as u32,
            y: ceil_div(self.height as int, WORKGROUP_SIZE as int) as u32,
            z: 1,
        }
    }
}

/// Whether device objects for a `width` by `height` image may be asked for
/// on a device whose textures are at most `limit` texels on a side: the
/// image has pixels, no side is above the limit, and a row of the upload
/// fits the 32 bits that a copy takes for a row pitch.
pub open spec fn allocatable(width: u32, height: u32, limit: u32) -> bool {
    &&& 0 < width <= limit
    &&& 0 < height <= limit
    &&& width as int * LINEAR_BYTES_PER_PIXEL as int <= u32::MAX
}

/// The bindings of a resource set are what the two pipelines expect,
/// whatever the size of the image.
pub proof fn lemma_bindings_fit_layouts(set: ResourceSetView)
    ensures
        layout_accepts(compute_layout(), set.compute_bindings()),
        layout_accepts(render_layout(), set.render_bindings()),
{
}

/// The upload and the readback do not share a row pitch. A row of either is
/// as wide as the texels of its texture; a row of the upload is four times
/// the tight row of the readback and never padded, while a row of the
/// staging buffer is the tight row rounded up to the copy alignment.
pub proof fn lemma_upload_and_readback_pitches(set: ResourceSetView)
    ensures
        set.upload_bytes_per_row() == set.width * set.input_texture().format.texel_bytes(),
        set.readback().unpadded_bytes_per_row() == set.width
            * set.processed_texture().format.texel_bytes(),
        set.upload_bytes_per_row() == 4 * set.readback().unpadded_bytes_per_row(),
        set.upload_size() == set.upload_bytes_per_row() * set.height,
        set.readback().padded_bytes_per_row() % 256 == 0,
        set.readback().unpadded_bytes_per_row() <= set.readback().padded_bytes_per_row()
            < set.readback().unpadded_bytes_per_row() + 256,
{
    lemma_align_up_least_multiple(set.width as int * 4, 256);
    assert(set.width as int * set.height as int * 16 == (set.width as int * 16) * set.height)
        by (nonlinear_arith);
}

/// The resource set of one loaded image, as the device must build it.
#[derive(Clone, Copy, Debug)]
pub struct ImageRenderResources {
    width: u32,
    height: u32,
    readback: ReadbackLayout,
}

impl View for ImageRenderResources {
    type V = ResourceSetView;

    closed spec fn view(&self) -> ResourceSetView {
        ResourceSetView { width: self.width as nat, height: self.height as nat }
    }
}

impl ImageRenderResources {
    #[verifier::type_invariant]
    spec fn sized(&self) -> bool {
        &&& self.width > 0
        &&& self.height > 0
        &&& self.width as int * 16 <= u32::MAX
        &&& self.readback@ == (ReadbackGeometry {
            width: self.width as nat,
            height: self.height as nat,
        })
    }

    /// The resource set for a `width` by `height` image on a device whose
    /// textures are at most `max_texture_dimension` texels on a side. The
    /// size is checked before anything is asked of the device: an image
    /// without pixels is refused as empty, any other that is not
    /// [`allocatable`] as above the limit.
    pub fn new(width: u32, height: u32, max_texture_dimension: u32) -> (set: Result<
        ImageRenderResources,
        ResourceError,
    >)
        ensures
            set is Ok <==> allocatable(width, height, max_texture_dimension),
            set matches Ok(s) ==> s@ == (ResourceSetView {
                width: width as nat,
                height: height as nat,
            }),
            set matches Err(e) ==> e == (if width == 0 || height == 0 {
                ResourceError::EmptyImage
            } else {
                ResourceError::DimensionExceedsLimit
            }),
    {
        if width == 0 || height == 0 {
            return Err(ResourceError::EmptyImage);
        }
        if width > max_texture_dimension || height > max_texture_dimension || width > u32::MAX
            / 16 {
            return Err(ResourceError::DimensionExceedsLimit);
        }
        proof {
            lemma_align_up_least_multiple(width as int * 4, 256);
        }
        match ReadbackLayout::new(width, height) {
            Ok(readback) => Ok(ImageRenderResources { width, height, readback }),
            Err(e) => Err(e),
        }
    }

    /// The resource set for a decoded image.
    pub fn for_image<T>(image: &LinearImage<T>, max_texture_dimension: u32) -> (set: Result<
        ImageRenderResources,
        ResourceError,
    >)
        ensures
            set is Ok <==> allocatable(
                image@.width as u32,
                image@.height as u32,
                max_texture_dimension,
            ),
            set matches Ok(s) ==> s@ == (ResourceSetView {
                width: image@.width,
                height: image@.height,
            }),
            set matches Err(e) ==> e == (if image@.width == 0 || image@.height == 0 {
                ResourceError::EmptyImage
            } else {
                ResourceError::DimensionExceedsLimit
            }),
    {
        ImageRenderResources::new(image.width(), image.height(), max_texture_dimension)
    }

    /// Width of the image in pixels.
    pub fn width(&self) -> (width: u32)
        ensures
            width == self@.width,
            width > 0,
    {
        proof {
            use_type_invariant(self);
        }
        self.width
    }

    /// Height of the image in pixels.
    pub fn height(&self) -> (height: u32)
        ensures
            height == self@.height,
            height > 0,
    {
        proof {
            use_type_invariant(self);
        }
        self.height
    }

    /// The input texture to create.
    pub fn input_texture(&self) -> (texture: TextureDescription)
        ensures
            texture == self@.input_texture(),
    {
        TextureDescription {
            width: self.width,
            height: self.height,
            format: TextureFormat::Rgba32Float,
            usage: TextureUsage {
                copy_src: false,
                copy_dst: true,
                texture_binding: true,
                storage_binding: true,
            },
        }
    }

    /// The processed texture to create.
    pub fn processed_texture(&self) -> (texture: TextureDescription)
        ensures
            texture == self@.processed_texture(),
    {
        TextureDescription {
            width: self.width,
            height: self.height,
            format: TextureFormat::Rgba8Unorm,
            usage: TextureUsage {
                copy_src: true,
                copy_dst: false,
                texture_binding: true,
                storage_binding: true,
            },
        }
    }

    /// The uniform buffer of the colour parameters to create.
    pub fn settings_buffer(&self) -> (buffer: BufferDescription)
        ensures
            buffer == self@.settings_buffer(),
    {
        BufferDescription {
            size: COLOR_PARAMETERS_SIZE,
            usage: BufferUsage { uniform: true, copy_dst: true, map_read: false },
        }
    }

    /// The uniform buffer of the viewport state to create.
    pub fn viewport_buffer(&self) -> (buffer: BufferDescription)
        ensures
            buffer == self@.viewport_buffer(),
    {
        BufferDescription {
            size: VIEWPORT_SIZE,
            usage: BufferUsage { uniform: true, copy_dst: true, map_read: false },
        }
    }

    /// Bytes of one row of the upload into the input texture: sixteen for
    /// every pixel, no padding.
    pub fn upload_bytes_per_row(&self) -> (bytes: u32)
        ensures
            bytes == self@.upload_bytes_per_row(),
    {
        proof {
            use_type_invariant(self);
        }
        self.width * 16
    }

    /// Bytes of the whole upload.
    pub fn upload_size(&self) -> (bytes: u64)
        ensures
            bytes == self@.upload_size(),
    {
        proof {
            use_type_invariant(self);
            lemma_mul_upper_bound(
                self.width as int * 16,
                u32::MAX as int,
                self.height as int,
                u32::MAX as int,
            );
            assert(self.width as int * self.height as int * 16 == (self.width as int * 16)
                * self.height as int) by (nonlinear_arith);
        }
        (self.width as u64 * 16) * self.height as u64
    }

    /// The layout of the staging buffer of an export.
    pub fn readback_layout(&self) -> (layout: &ReadbackLayout)
        ensures
            layout@ == self@.readback(),
    {
        proof {
            use_type_invariant(self);
        }
        &self.readback
    }

    /// The staging buffer to create for an export.
    pub fn staging_buffer(&self) -> (buffer: BufferDescription)
        ensures
            buffer == self@.staging_buffer(),
    {
        proof {
            use_type_invariant(self);
        }
        BufferDescription {
            size: self.readback.buffer_size(),
            usage: BufferUsage { uniform: false, copy_dst: true, map_read: true },
        }
    }

    /// What to bind to the colour transform, slot by slot. Every slot of the
    /// pipeline's layout takes the resource at its place.
    pub fn compute_bindings(&self) -> (bound: Vec<BoundResource>)
        ensures
            bound@ == self@.compute_bindings(),
            layout_accepts(compute_layout(), bound@),
    {
        let mut bound: Vec<BoundResource> = Vec::new();
        bound.push(BoundResource::Texture(self.input_texture()));
        bound.push(BoundResource::Texture(self.processed_texture()));
        bound.push(BoundResource::Buffer(self.settings_buffer()));
        assert(bound@ =~= self@.compute_bindings());
        bound
    }

    /// What to bind to the presentation, slot by slot. Every slot of the
    /// pipeline's layout takes the resource at its place.
    pub fn render_bindings(&self) -> (bound: Vec<BoundResource>)
        ensures
            bound@ == self@.render_bindings(),
            layout_accepts(render_layout(), bound@),
    {
        let mut bound: Vec<BoundResource> = Vec::new();
        bound.push(BoundResource::Texture(self.processed_texture()));
        bound.push(BoundResource::Buffer(self.viewport_buffer()));
        assert(bound@ =~= self@.render_bindings());
        bound
    }

    /// The compute work of one frame: the colour transform over the whole
    /// image, one workgroup for every 16 by 16 tile that holds a pixel.
    pub fn prepare(&self) -> (dispatch: Dispatch)
        ensures
            dispatch == self@.dispatch(),
            dispatch.x * 16 >= self@.width > (dispatch.x - 1) * 16,
            dispatch.y * 16 >= self@.height > (dispatch.y - 1) * 16,
    {
        proof {
            lemma_ceil_div_least_cover(self.width as int, 16);
            lemma_ceil_div_least_cover(self.height as int, 16);
        }
        let count = compute_work_group_count(
            (self.width, self.height),
            (WORKGROUP_SIZE, WORKGROUP_SIZE),
        );
        Dispatch { bind_group: 0, x: count.0, y: count.1, z: 1 }
    }

    /// The draw of one frame: the quad, once.
    pub fn paint(&self) -> (draw: DrawCall)
        ensures
            draw == (DrawCall { bind_group: 0, vertices: QUAD_VERTICES, instances: 1 }),
    {
        DrawCall { bind_group: 0, vertices: QUAD_VERTICES, instances: 1 }
    }
}

/// The callback that paints the image when the frame is drawn.
#[derive(Clone, Copy, Debug)]
pub struct ImagePaintCallback;

impl ImagePaintCallback {
    /// What to draw into the render pass: the draw of the live resource
    /// set, or nothing while no image is loaded.
    pub fn paint(&self, resources: Option<&ImageRenderResources>) -> (draw: Option<DrawCall>)
        ensures
            draw == (match resources {
                Some(_) => Some(DrawCall { bind_group: 0, vertices: QUAD_VERTICES, instances: 1 }),
                None => None,
            }),
    {
        match resources {
            Some(set) => Some(set.paint()),
            None => None,
        }
    }
}

} // verus!
