//! What the two passes are bound to: the resources, the slots of the bind
//! group, and the pipelines of the two programs.

use vstd::prelude::*;
use crate::compute::ComputeProgram;

verus! {

/// The handle of a texture view.
#[derive(Clone, Copy, Debug, PartialEq, Eq, Structural)]
pub struct TextureHandle(pub u32);

/// The handle of a buffer.
#[derive(Clone, Copy, Debug, PartialEq, Eq, Structural)]
pub struct BufferHandle(pub u32);

/// The handle of a bind group layout.
#[derive(Clone, Copy, Debug, PartialEq, Eq, Structural)]
pub struct LayoutHandle(pub u32);

/// The handle of a compute pipeline that was queued for compilation.
#[derive(Clone, Copy, Debug, PartialEq, Eq, Structural)]
pub struct PipelineHandle(pub u32);

/// The texture that holds the grid of the simulation, by the handle of its
/// view.
#[derive(Clone, Copy, Debug, PartialEq, Eq, Structural)]
pub struct GameOfLifeImage(pub TextureHandle);

/// The two kernels as the textures that the shader reads.
#[derive(Clone, Copy, Debug, PartialEq, Eq, Structural)]
pub struct GOLKernelTexture {
    pub outer_texture_view: TextureHandle,
    pub inner_texture_view: TextureHandle,
}

/// The uniform buffer that holds the parameters of the simulation.
#[derive(Clone, Copy, Debug, PartialEq, Eq, Structural)]
pub struct GOLParamsMeta {
    pub buffer: BufferHandle,
}

/// The layout of the bind group and the two pipelines, one for each program.
#[derive(Clone, Copy, Debug, PartialEq, Eq, Structural)]
pub struct GameOfLifePipeline {
    pub texture_bind_group_layout: LayoutHandle,
    pub init_pipeline: PipelineHandle,
    pub update_pipeline: PipelineHandle,
}

/// How a shader may use a storage texture.
#[derive(Clone, Copy, Debug, PartialEq, Eq, Structural)]
pub enum StorageTextureAccess {
    ReadOnly,
    ReadWrite,
}

/// What a slot of the bind group holds. Every texture is two-dimensional with
/// four eight-bit channels.
#[derive(Clone, Copy, Debug, PartialEq, Eq, Structural)]
pub enum BindingType {
    /// A storage texture.
    StorageTexture { access: StorageTextureAccess },
    /// A uniform buffer of at least `min_binding_size` bytes, at a fixed
    /// offset.
    UniformBuffer { min_binding_size: u64 },
}

/// A stage of the shader.
#[derive(Clone, Copy, Debug, PartialEq, Eq, Structural)]
pub enum ShaderStage {
    Vertex,
    Fragment,
    Compute,
}

/// One slot of the layout of the bind group.
#[derive(Clone, Copy, Debug, PartialEq, Eq, Structural)]
pub struct BindGroupLayoutEntry {
    pub binding: u32,
    /// The one stage that sees the slot.
    pub visibility: ShaderStage,
    pub ty: BindingType,
}

/// The resource bound to a slot.
#[derive(Clone, Copy, Debug, PartialEq, Eq, Structural)]
pub enum BindingResource {
    TextureView(TextureHandle),
    Buffer(BufferHandle),
}

/// One slot of the bind group with the resource bound to it.
#[derive(Clone, Copy, Debug, PartialEq, Eq, Structural)]
pub struct BindGroupEntry {
    pub binding: u32,
    pub resource: BindingResource,
}

/// A bind group: its layout, and its slots in rising order.
#[derive(Debug, PartialEq, Eq)]
pub struct BindGroup {
    pub layout: LayoutHandle,
    pub entries: Vec<BindGroupEntry>,
}

/// The bind group that both passes run with.
#[derive(Debug, PartialEq, Eq)]
pub struct GameOfLifeImageBindGroup(pub BindGroup);

/// The number of bytes of the parameters of the simulation: three numbers of
/// four bytes each.
pub const PARAMS_SIZE: u64 = 12;

/// The slots that the shader expects: the grid of the simulation to read and
/// write, the parameters, the outer kernel, the inner kernel. Only the compute
/// stage sees them.
pub open spec fn layout_slots() -> Seq<BindGroupLayoutEntry> {
    seq![
        BindGroupLayoutEntry {
            binding: 0,
            visibility: ShaderStage::Compute,
            ty: BindingType::StorageTexture { access: StorageTextureAccess::ReadWrite },
        },
        BindGroupLayoutEntry {
            binding: 1,
            visibility: ShaderStage::Compute,
            ty: BindingType::UniformBuffer { min_binding_size: PARAMS_SIZE },
        },
        BindGroupLayoutEntry {
            binding: 2,
            visibility: ShaderStage::Compute,
            ty: BindingType::StorageTexture { access: StorageTextureAccess::ReadOnly },
        },
        BindGroupLayoutEntry {
            binding: 3,
            visibility: ShaderStage::Compute,
            ty: BindingType::StorageTexture { access: StorageTextureAccess::ReadOnly },
        },
    ]
}

/// The resources of the four slots, in the order of [`layout_slots`].
pub open spec fn bound_slots(
    grid: TextureHandle,
    params: BufferHandle,
    outer: TextureHandle,
    inner: TextureHandle,
) -> Seq<BindGroupEntry> {
    seq![
        BindGroupEntry { binding: 0, resource: BindingResource::TextureView(grid) },
        BindGroupEntry { binding: 1, resource: BindingResource::Buffer(params) },
        BindGroupEntry { binding: 2, resource: BindingResource::TextureView(outer) },
        BindGroupEntry { binding: 3, resource: BindingResource::TextureView(inner) },
    ]
}

/// Lists the slots of the layout of the bind group.
pub fn bind_group_layout() -> (entries: Vec<BindGroupLayoutEntry>)
    ensures
        entries@ == layout_slots(),
{
    let mut entries: Vec<BindGroupLayoutEntry> = Vec::new();
    entries.push(
        BindGroupLayoutEntry {
            binding: 0,
            visibility: ShaderStage::Compute,
            ty: BindingType::StorageTexture { access: StorageTextureAccess::ReadWrite },
        },
    );
    entries.push(
        BindGroupLayoutEntry {
            binding: 1,
            visibility: ShaderStage::Compute,
            ty: BindingType::UniformBuffer { min_binding_size: PARAMS_SIZE },
        },
    );
    entries.push(
        BindGroupLayoutEntry {
            binding: 2,
            visibility: ShaderStage::Compute,
            ty: BindingType::StorageTexture { access: StorageTextureAccess::ReadOnly },
        },
    );
    entries.push(
        BindGroupLayoutEntry {
            binding: 3,
            visibility: ShaderStage::Compute,
            ty: BindingType::StorageTexture { access: StorageTextureAccess::ReadOnly },
        },
    );
    assert(entries@ =~= layout_slots());
    entries
}

/// Binds the resources of both passes: the texture that holds the grid, the
/// parameters and the two kernels, each to the slot that the shader expects
/// it in.
pub fn queue_bind_group(
    pipeline: &GameOfLifePipeline,
    game_of_life_image: &GameOfLifeImage,
    kernel_textures: &GOLKernelTexture,
    params_meta: &GOLParamsMeta,
) -> (bind_group: GameOfLifeImageBindGroup)
    ensures
        bind_group.0.layout == pipeline.texture_bind_group_layout,
        bind_group.0.entries@ == bound_slots(
            game_of_life_image.0,
            params_meta.buffer,
            kernel_textures.outer_texture_view,
            kernel_textures.inner_texture_view,
        ),
{
    let mut entries: Vec<BindGroupEntry> = Vec::new();
    entries.push(
        BindGroupEntry {
            binding: 0,
            resource: BindingResource::TextureView(game_of_life_image.0),
        },
    );
    entries.push(
        BindGroupEntry { binding: 1, resource: BindingResource::Buffer(params_meta.buffer) },
    );
    entries.push(
        BindGroupEntry {
            binding: 2,
            resource: BindingResource::TextureView(kernel_textures.outer_texture_view),
        },
    );
    entries.push(
        BindGroupEntry {
            binding: 3,
            resource: BindingResource::TextureView(kernel_textures.inner_texture_view),
        },
    );
    assert(entries@ =~= bound_slots(
        game_of_life_image.0,
        params_meta.buffer,
        kernel_textures.outer_texture_view,
        kernel_textures.inner_texture_view,
    ));
    GameOfLifeImageBindGroup(BindGroup { layout: pipeline.texture_bind_group_layout, entries })
}

/// The name of the entry point of a program in the shader.
pub fn entry_point(program: ComputeProgram) -> (name: &'static str)
    ensures
        program == ComputeProgram::Init ==> name@ == "init"@,
        program == ComputeProgram::Update ==> name@ == "update"@,
{
    match program {
        ComputeProgram::Init => "init",
        ComputeProgram::Update => "update",
    }
}

impl GameOfLifePipeline {
    /// The pipeline of a program.
    pub open spec fn of(self, program: ComputeProgram) -> PipelineHandle {
        match program {
            ComputeProgram::Init => self.init_pipeline,
            ComputeProgram::Update => self.update_pipeline,
        }
    }

    /// Puts together the handles that the backend issued for the layout made
    /// from [`bind_group_layout`] and for the pipelines queued for the two
    /// programs.
    pub fn new(
        texture_bind_group_layout: LayoutHandle,
        init_pipeline: PipelineHandle,
        update_pipeline: PipelineHandle,
    ) -> (pipeline: GameOfLifePipeline)
        ensures
            pipeline.texture_bind_group_layout == texture_bind_group_layout,
            pipeline.of(ComputeProgram::Init) == init_pipeline,
            pipeline.of(ComputeProgram::Update) == update_pipeline,
    {
        GameOfLifePipeline { texture_bind_group_layout, init_pipeline, update_pipeline }
    }

    /// The pipeline of a program.
    pub fn pipeline_of(&self, program: ComputeProgram) -> (handle: PipelineHandle)
        ensures
            handle == self.of(program),
    {
        match program {
            ComputeProgram::Init => self.init_pipeline,
            ComputeProgram::Update => self.update_pipeline,
        }
    }
}

} // verus!
