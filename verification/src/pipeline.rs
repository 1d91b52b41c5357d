//! The two pipelines and the binding topology each one expects.
//!
//! The colour transform is a compute pipeline that reads the linear input
//! texture, writes the processed texture and takes the colour parameters as
//! a uniform. The presentation is a render pipeline that samples the
//! processed texture and takes the viewport as a uniform.

use vstd::prelude::*;
use crate::gpu::{
    accepts, layout_accepts, numbered_in_order, slot_accepts, BindingKind, BindingSlot,
    BoundResource, ShaderStages, TextureFormat,
};
use crate::layout::WORKGROUP_SIZE;

verus! {

/// Visible to the compute stage only.
pub open spec fn compute_only() -> ShaderStages {
    ShaderStages { vertex: false, fragment: false, compute: true }
}

/// The bind group layout of the colour transform: the input texture at 0,
/// the processed texture as write-only RGBA8 storage at 1, the colour
/// parameters at 2, all seen by the compute stage.
pub open spec fn compute_layout() -> Seq<BindingSlot> {
    seq![
        BindingSlot { binding: 0, visibility: compute_only(), kind: BindingKind::SampledTexture },
        BindingSlot {
            binding: 1,
            visibility: compute_only(),
            kind: BindingKind::StorageTexture(TextureFormat::Rgba8Unorm),
        },
        BindingSlot { binding: 2, visibility: compute_only(), kind: BindingKind::UniformBuffer },
    ]
}

/// The bind group layout of the presentation: the processed texture at 0,
/// seen by the fragment stage, and the viewport at 1, seen by the vertex and
/// the fragment stage.
pub open spec fn render_layout() -> Seq<BindingSlot> {
    seq![
        BindingSlot {
            binding: 0,
            visibility: ShaderStages { vertex: false, fragment: true, compute: false },
            kind: BindingKind::SampledTexture,
        },
        BindingSlot {
            binding: 1,
            visibility: ShaderStages { vertex: true, fragment: true, compute: false },
            kind: BindingKind::UniformBuffer,
        },
    ]
}

/// Whether `resources` fill the slots of `layout`, one each and in order.
pub fn layout_takes(layout: &Vec<BindingSlot>, resources: &Vec<BoundResource>) -> (ok: bool)
    ensures
        ok == layout_accepts(layout@, resources@),
{
    if layout.len() != resources.len() {
        return false;
    }
    let mut i: usize = 0;
    while i < layout.len()
        invariant
            layout@.len() == resources@.len(),
            i <= layout@.len(),
            forall|j: int|
                0 <= j < i ==> slot_accepts(#[trigger] layout@[j].kind, resources@[j]),
        decreases layout@.len() - i,
    {
        if !accepts(layout[i].kind, resources[i]) {
            return false;
        }
        i = i + 1;
    }
    true
}

/// The colour transform as the device must build it.
#[derive(Debug)]
pub struct GpuImageComputePipeline {
    /// The slots of bind group 0.
    pub bind_group_layout: Vec<BindingSlot>,
    /// The compute shader's entry point.
    pub entry_point: &'static str,
    /// Pixels, per axis, that one workgroup covers.
    pub workgroup_size: (u32, u32),
}

impl GpuImageComputePipeline {
    /// Whether `self` is the colour transform of this library.
    pub open spec fn canonical(&self) -> bool {
        &&& self.bind_group_layout@ == compute_layout()
        &&& self.entry_point@ == "shader_main"@
        &&& self.workgroup_size == (WORKGROUP_SIZE, WORKGROUP_SIZE)
    }

    /// The colour transform: three bindings for the compute stage, the
    /// entry point `shader_main`, tiles of 16 by 16 pixels.
    pub fn new() -> (pipeline: GpuImageComputePipeline)
        ensures
            pipeline.canonical(),
            numbered_in_order(pipeline.bind_group_layout@),
    {
        let stages = ShaderStages { vertex: false, fragment: false, compute: true };
        let mut layout: Vec<BindingSlot> = Vec::new();
        layout.push(BindingSlot { binding: 0, visibility: stages, kind: BindingKind::SampledTexture });
        layout.push(
            BindingSlot {
                binding: 1,
                visibility: stages,
                kind: BindingKind::StorageTexture(TextureFormat::Rgba8Unorm),
            },
        );
        layout.push(BindingSlot { binding: 2, visibility: stages, kind: BindingKind::UniformBuffer });
        assert(layout@ =~= compute_layout());
        GpuImageComputePipeline {
            bind_group_layout: layout,
            entry_point: "shader_main",
            workgroup_size: (WORKGROUP_SIZE, WORKGROUP_SIZE),
        }
    }

    /// Whether `resources` can be bound as group 0 of this pipeline.
    pub fn takes(&self, resources: &Vec<BoundResource>) -> (ok: bool)
        ensures
            ok == layout_accepts(self.bind_group_layout@, resources@),
    {
        layout_takes(&self.bind_group_layout, resources)
    }
}

/// The presentation as the device must build it.
#[derive(Debug)]
pub struct GpuImageRenderPipeline {
    /// The slots of bind group 0.
    pub bind_group_layout: Vec<BindingSlot>,
    /// The vertex shader's entry point.
    pub vertex_entry_point: &'static str,
    /// The fragment shader's entry point.
    pub fragment_entry_point: &'static str,
    /// The format of the surface drawn to.
    pub target_format: TextureFormat,
}

impl GpuImageRenderPipeline {
    /// Whether `self` is the presentation of this library.
    pub open spec fn canonical(&self) -> bool {
        &&& self.bind_group_layout@ == render_layout()
        &&& self.vertex_entry_point@ == "vs_main"@
        &&& self.fragment_entry_point@ == "fs_main"@
        &&& self.target_format == TextureFormat::Bgra8Unorm
    }

    /// The presentation: the processed texture and the viewport, the entry
    /// points `vs_main` and `fs_main`, a BGRA8 surface.
    pub fn new() -> (pipeline: GpuImageRenderPipeline)
        ensures
            pipeline.canonical(),
            numbered_in_order(pipeline.bind_group_layout@),
    {
        let mut layout: Vec<BindingSlot> = Vec::new();
        layout.push(
            BindingSlot {
                binding: 0,
                visibility: ShaderStages { vertex: false, fragment: true, compute: false },
                kind: BindingKind::SampledTexture,
            },
        );
        layout.push(
            BindingSlot {
                binding: 1,
                visibility: ShaderStages { vertex: true, fragment: true, compute: false },
                kind: BindingKind::UniformBuffer,
            },
        );
        assert(layout@ =~= render_layout());
        GpuImageRenderPipeline {
            bind_group_layout: layout,
            vertex_entry_point: "vs_main",
            fragment_entry_point: "fs_main",
            target_format: TextureFormat::Bgra8Unorm,
        }
    }

    /// Whether `resources` can be bound as group 0 of this pipeline.
    pub fn takes(&self, resources: &Vec<BoundResource>) -> (ok: bool)
        ensures
            ok == layout_accepts(self.bind_group_layout@, resources@),
    {
        layout_takes(&self.bind_group_layout, resources)
    }
}

} // verus!
