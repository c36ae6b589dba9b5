use smoothlife::compute::plugin::GameOfLifeComputePlugin;
use smoothlife::compute::bindings::{
    bind_group_layout, entry_point, queue_bind_group, BindGroupEntry, BindGroupLayoutEntry,
    BindingResource, BindingType, BufferHandle, GOLKernelTexture, GOLParamsMeta, GameOfLifeImage,
    GameOfLifePipeline, LayoutHandle, PipelineHandle, ShaderStage, StorageTextureAccess,
    TextureHandle, PARAMS_SIZE,
};
use smoothlife::compute::{workgroups, ComputeProgram, GameOfLifeState, SIZE, WORKGROUP_SIZE};
use smoothlife::compute::params::GOLParams;
use smoothlife::kernel::upload::{Extent3d, GOLKernelPlugin};
use smoothlife::kernel::{Kernel, KernelDescriptor};

#[test]
fn layout_has_the_four_slots_of_the_shader() {
    let entries = bind_group_layout();
    assert_eq!(
        entries,
        vec![
            BindGroupLayoutEntry {
                binding: 0,
                visibility: ShaderStage::Compute,
                ty: BindingType::StorageTexture { access: StorageTextureAccess::ReadWrite },
            },
            BindGroupLayoutEntry {
                binding: 1,
                visibility: ShaderStage::Compute,
                ty: BindingType::UniformBuffer { min_binding_size: 12 },
            },
            BindGroupLayoutEntry {
                binding: 2,
                visibility: ShaderStage::Compute,
                ty: BindingType::StorageTexture { access: StorageTextureAccess::ReadOnly },
            },
            BindGroupLayoutEntry {
                binding: 3,
                visibility: ShaderStage::Compute,
                ty: BindingType::StorageTexture { access: StorageTextureAccess::ReadOnly },
            },
        ]
    );
    assert_eq!(PARAMS_SIZE, 12);
}

#[test]
fn bind_group_keeps_the_order_of_the_slots() {
    let pipeline = GameOfLifePipeline::new(LayoutHandle(5), PipelineHandle(1), PipelineHandle(2));
    let textures = GOLKernelTexture {
        outer_texture_view: TextureHandle(30),
        inner_texture_view: TextureHandle(40),
    };
    let params = GOLParamsMeta { buffer: BufferHandle(20) };
    let group = queue_bind_group(&pipeline, &GameOfLifeImage(TextureHandle(10)), &textures, &params);
    assert_eq!(group.0.layout, LayoutHandle(5));
    assert_eq!(
        group.0.entries,
        vec![
            BindGroupEntry { binding: 0, resource: BindingResource::TextureView(TextureHandle(10)) },
            BindGroupEntry { binding: 1, resource: BindingResource::Buffer(BufferHandle(20)) },
            BindGroupEntry { binding: 2, resource: BindingResource::TextureView(TextureHandle(30)) },
            BindGroupEntry { binding: 3, resource: BindingResource::TextureView(TextureHandle(40)) },
        ]
    );
}

#[test]
fn programs_have_their_entry_points() {
    assert_eq!(entry_point(ComputeProgram::Init), "init");
    assert_eq!(entry_point(ComputeProgram::Update), "update");
    let pipeline = GameOfLifePipeline::new(LayoutHandle(5), PipelineHandle(1), PipelineHandle(2));
    assert_eq!(pipeline.texture_bind_group_layout, LayoutHandle(5));
    assert_eq!(pipeline.pipeline_of(ComputeProgram::Init), PipelineHandle(1));
    assert_eq!(pipeline.pipeline_of(ComputeProgram::Update), PipelineHandle(2));
}

#[test]
fn workgroups_cover_the_grid() {
    assert_eq!((SIZE, WORKGROUP_SIZE), ((1280, 720), 8));
    assert_eq!(workgroups(SIZE, WORKGROUP_SIZE), (160, 90, 1));
    assert_eq!(workgroups((64, 8), 8), (8, 1, 1));
    assert_eq!(workgroups((0, 0), 8), (0, 0, 1));
    assert_eq!(workgroups((u32::MAX, u32::MAX), 1), (u32::MAX, u32::MAX, 1));
    // a grid that is no multiple of the workgroup leaves cells uncovered
    assert_eq!(workgroups((1283, 7), 8), (160, 0, 1));
}

#[test]
fn texture_takes_the_samples_of_the_image() {
    let descriptor = KernelDescriptor::Circle { radius: 3 * 65536, antialias_width: 65536 };
    let kernel = Kernel::from_descriptor(descriptor);
    let upload = kernel.texture_upload();
    assert_eq!(upload.size, Extent3d { width: 8, height: 8, depth_or_array_layers: 1 });
    assert_eq!(upload.bytes_per_row, 32);
    assert_eq!(upload.rows_per_image, 8);
    assert_eq!(upload.data.len(), 256);
    assert_eq!(upload.data, kernel.image.to_rgba8().into_raw());
    // the fourth pixel of the fourth row is fully on
    assert_eq!(upload.data[4 * (3 * 8 + 3)..4 * (3 * 8 + 4)], [255, 255, 255, 255]);
    // the second lies 2.55 pixels from the centre: 0.95 * 255.999 = 243.2
    assert_eq!(upload.data[4 * (3 * 8 + 1)..4 * (3 * 8 + 2)], [243, 243, 243, 255]);
    // the first pixel of the first row is off
    assert_eq!(upload.data[0..4], [0, 0, 0, 255]);
}

#[test]
fn kernel_plugin_draws_both_kernels() {
    let setup = GOLKernelPlugin.build();
    assert_eq!(setup.outer_texture.size, Extent3d { width: 44, height: 44, depth_or_array_layers: 1 });
    assert_eq!(setup.inner_texture.size, Extent3d { width: 16, height: 16, depth_or_array_layers: 1 });
    assert_eq!((setup.outer_texture.bytes_per_row, setup.outer_texture.rows_per_image), (176, 44));
    assert_eq!((setup.inner_texture.bytes_per_row, setup.inner_texture.rows_per_image), (64, 16));
    assert_eq!(setup.outer_texture.data.len(), 4 * 44 * 44);
    assert_eq!(setup.inner_texture.data.len(), 4 * 16 * 16);
    // each texture holds the image of its own kernel
    assert_eq!(setup.outer_texture.data, setup.kernels.outer_kernel.image.as_bytes());
    assert_eq!(setup.inner_texture.data, setup.kernels.inner_kernel.image.as_bytes());
    assert_ne!(setup.inner_texture.data[..], setup.outer_texture.data[..4 * 16 * 16]);
    assert_eq!(setup.kernel_data.outer_kernel_area, setup.kernels.outer_kernel.area);
    assert_eq!(setup.kernel_data.inner_kernel_area, setup.kernels.inner_kernel.area);
    let ring = KernelDescriptor::Ring {
        outer_radius: 21 * 65536,
        inner_radius: 7 * 65536,
        antialias_width: 65536,
    };
    let disc = KernelDescriptor::Circle { radius: 7 * 65536, antialias_width: 65536 };
    assert_eq!(setup.kernel_data.outer_kernel_area, Kernel::from_descriptor(ring).area);
    assert_eq!(setup.kernel_data.inner_kernel_area, Kernel::from_descriptor(disc).area);
}

#[test]
fn compute_plugin_prepares_the_first_frame() {
    let seed = 0.625f32.to_bits();
    let setup = GameOfLifeComputePlugin.build(seed);
    assert_eq!(setup.node.state, GameOfLifeState::Loading);
    assert_eq!(setup.params.random_float, seed);
    let outer = f32::from_bits(setup.params.outer_kernel_area);
    let inner = f32::from_bits(setup.params.inner_kernel_area);
    assert_eq!(outer, (setup.kernel_setup.kernels.outer_kernel.area as f64 / 65536.0) as f32);
    assert_eq!(inner, (setup.kernel_setup.kernels.inner_kernel.area as f64 / 65536.0) as f32);
    assert!((outer - 1231.5).abs() < 2.0, "outer area {outer}");
    assert!((inner - 153.9).abs() < 1.0, "inner area {inner}");
    assert_eq!(setup.uniform.len(), 12);
    assert_eq!(setup.uniform, setup.params.to_bytes());
    assert_eq!(GOLParams::from_bytes(&setup.uniform), Some(setup.params));
    assert_eq!(setup.uniform[0..4], 0.625f32.to_le_bytes());
    assert_eq!(setup.uniform[4..8], outer.to_le_bytes());
    assert_eq!(setup.uniform[8..12], inner.to_le_bytes());
    assert_eq!(setup.kernel_setup.outer_texture.size.width, 44);
}
