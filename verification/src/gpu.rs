//! Plain descriptions of device objects: what a texture, a buffer and a
//! binding slot are made with. The device objects themselves live outside
//! the library; these values say how they must be created and bound.

use vstd::prelude::*;

verus! {

/// The texel formats that the pipeline uses.
#[derive(Clone, Copy, Debug, PartialEq, Eq, Structural)]
pub enum TextureFormat {
    /// Four 32-bit channels in linear light: the input texture.
    Rgba32Float,
    /// Four normalized 8-bit channels: the processed texture.
    Rgba8Unorm,
    /// Four normalized 8-bit channels, blue first: the screen surface.
    Bgra8Unorm,
}

impl TextureFormat {
    /// Bytes of one texel.
    pub open spec fn texel_bytes(self) -> int {
        match self {
            TextureFormat::Rgba32Float => 16,
            TextureFormat::Rgba8Unorm => 4,
            TextureFormat::Bgra8Unorm => 4,
        }
    }

    /// Bytes of one texel.
    pub fn bytes_per_texel(&self) -> (bytes: u32)
        ensures
            bytes == self.texel_bytes(),
    {
        match self {
            TextureFormat::Rgba32Float => 16,
            TextureFormat::Rgba8Unorm => 4,
            TextureFormat::Bgra8Unorm => 4,
        }
    }
}

/// What a texture may be used for.
#[derive(Clone, Copy, Debug, PartialEq, Eq, Structural)]
pub struct TextureUsage {
    /// Source of a copy into a buffer.
    pub copy_src: bool,
    /// Destination of an upload.
    pub copy_dst: bool,
    /// Read by a shader as a sampled texture.
    pub texture_binding: bool,
    /// Written by a compute shader as a storage texture.
    pub storage_binding: bool,
}

/// What a buffer may be used for.
#[derive(Clone, Copy, Debug, PartialEq, Eq, Structural)]
pub struct BufferUsage {
    /// Read by a shader as a uniform.
    pub uniform: bool,
    /// Destination of a write or a copy.
    pub copy_dst: bool,
    /// Mapped for reading on the CPU.
    pub map_read: bool,
}

/// A two-dimensional texture with one mip level and one sample per texel.
#[derive(Clone, Copy, Debug, PartialEq, Eq, Structural)]
pub struct TextureDescription {
    pub width: u32,
    pub height: u32,
    pub format: TextureFormat,
    pub usage: TextureUsage,
}

/// A buffer of `size` bytes.
#[derive(Clone, Copy, Debug, PartialEq, Eq, Structural)]
pub struct BufferDescription {
    pub size: u64,
    pub usage: BufferUsage,
}

/// The shader stages that see a binding.
#[derive(Clone, Copy, Debug, PartialEq, Eq, Structural)]
pub struct ShaderStages {
    pub vertex: bool,
    pub fragment: bool,
    pub compute: bool,
}

/// What a binding slot takes.
#[derive(Clone, Copy, Debug, PartialEq, Eq, Structural)]
pub enum BindingKind {
    /// A two-dimensional texture read as unfilterable floats.
    SampledTexture,
    /// A two-dimensional write-only storage texture of the given format.
    StorageTexture(TextureFormat),
    /// A uniform buffer, bound whole.
    UniformBuffer,
}

/// One entry of a bind group layout.
#[derive(Clone, Copy, Debug, PartialEq, Eq, Structural)]
pub struct BindingSlot {
    pub binding: u32,
    pub visibility: ShaderStages,
    pub kind: BindingKind,
}

/// What is bound to a slot.
#[derive(Clone, Copy, Debug, PartialEq, Eq, Structural)]
pub enum BoundResource {
    Texture(TextureDescription),
    Buffer(BufferDescription),
}

/// Whether a slot of kind `kind` can take `resource`: a sampled texture
/// must be usable as a texture binding, a storage texture as a storage
/// binding and in the slot's format, a uniform buffer as a uniform and not
/// empty.
pub open spec fn slot_accepts(kind: BindingKind, resource: BoundResource) -> bool {
    match (kind, resource) {
        (BindingKind::SampledTexture, BoundResource::Texture(t)) => t.usage.texture_binding,
        (BindingKind::StorageTexture(format), BoundResource::Texture(t)) => t.usage.storage_binding
            && t.format == format,
        (BindingKind::UniformBuffer, BoundResource::Buffer(b)) => b.usage.uniform && b.size > 0,
        _ => false,
    }
}

/// Whether `resources` fill the slots of `layout`, one each and in order.
pub open spec fn layout_accepts(layout: Seq<BindingSlot>, resources: Seq<BoundResource>) -> bool {
    &&& layout.len() == resources.len()
    &&& forall|i: int| 0 <= i < layout.len() ==> slot_accepts(#[trigger] layout[i].kind, resources[i])
}

/// Whether the slots of `layout` are numbered 0, 1, 2, ... in order.
pub open spec fn numbered_in_order(layout: Seq<BindingSlot>) -> bool {
    forall|i: int| 0 <= i < layout.len() ==> (#[trigger] layout[i]).binding == i
}

/// Whether a slot can take a resource.
pub fn accepts(kind: BindingKind, resource: BoundResource) -> (ok: bool)
    ensures
        ok == slot_accepts(kind, resource),
{
    match kind {
        BindingKind::SampledTexture => match resource {
            BoundResource::Texture(t) => t.usage.texture_binding,
            BoundResource::Buffer(_) => false,
        },
        BindingKind::StorageTexture(format) => match resource {
            BoundResource::Texture(t) => t.usage.storage_binding && t.format == format,
            BoundResource::Buffer(_) => false,
        },
        BindingKind::UniformBuffer => match resource {
            BoundResource::Texture(_) => false,
            BoundResource::Buffer(b) => b.usage.uniform && b.size > 0,
        },
    }
}

} // verus!
