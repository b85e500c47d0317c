use gpu_image::binding::{
    BindGroupEntry, BindGroupLayoutEntry, BindingResource, BindingType, ShaderStages, Stage,
    TextureSlot,
};
use gpu_image::compute::demosaic::DemosaicShader;
use gpu_image::compute::downsample::DownsampleShader;
use gpu_image::compute::fragment::FragmentShader;
use gpu_image::compute::processing::ProcessingShader;
use gpu_image::compute::{
    create_float_texture, create_sampler, create_texture, create_window_texture, dispatch_count,
    enqueue_workload, to_texture_view, uniforms_bind_group, uniforms_bind_group_layout,
    write_texture, UploadError, Workgroups, WORKGROUP_SIZE,
};
use gpu_image::descriptor::{
    AddressMode, Extent3d, FilterMode, TexelCopyBufferLayout, TexelFormat, TextureAspect,
    TextureDimension, TextureUsages,
};
use gpu_image::pipeline::BlendState;
use gpu_image::program::{DecodedImage, Image, RawImageData, SensorImage};
use gpu_image::renderer::Textures;
use gpu_image::util::Size;

fn sensor(width: usize, height: usize, data: RawImageData) -> Image {
    Image::RawImage(Box::new(SensorImage {
        width,
        height,
        data,
        cam_to_xyz: [[0; 4]; 3],
        whitelevels: [16383; 4],
        blacklevels: [2048; 4],
        crops: [0; 4],
    }))
}

fn textures(image: Size, output: Size, generation: u64) -> Textures {
    Textures {
        full_texture: create_texture(image),
        full_output_texture: create_float_texture(
            image,
            TexelFormat::Rgba32Float,
            TextureSlot::FullOutput,
        ),
        input_texture: create_float_texture(output, TexelFormat::Rgba8Unorm, TextureSlot::Input),
        output_texture: create_float_texture(output, TexelFormat::Rgba8Unorm, TextureSlot::Output),
        image_size: image,
        output_size: output,
        generation,
    }
}

#[test]
fn dispatch_covers_the_target() {
    assert_eq!(WORKGROUP_SIZE, 16);
    assert_eq!(dispatch_count(1023), 64);
    assert_eq!(dispatch_count(1024), 64);
    assert_eq!(dispatch_count(1025), 65);
    assert_eq!(dispatch_count(1), 1);
    assert_eq!(dispatch_count(0), 0);
    assert_eq!(dispatch_count(16), 1);
    assert_eq!(dispatch_count(17), 2);
    assert_eq!(dispatch_count(u32::MAX), 0x1000_0000);
}

#[test]
fn dispatch_is_the_ceiling_of_a_sixteenth() {
    for extent in 0..5000u32 {
        assert_eq!(dispatch_count(extent), extent.div_ceil(16));
    }
}

#[test]
fn workload_of_a_stage_covers_its_size() {
    let set = textures(Size::new(1023, 1023), Size::new(1025, 1), 1);
    let demosaic = enqueue_workload(&DemosaicShader::compile(&set));
    assert_eq!(demosaic.stage, Stage::Demosaic);
    assert_eq!(demosaic.workgroups, Workgroups { x: 64, y: 64, z: 1 });
    let downsample = enqueue_workload(&DownsampleShader::compile(&set));
    assert_eq!(downsample.stage, Stage::Downsample);
    assert_eq!(downsample.workgroups, Workgroups { x: 65, y: 1, z: 1 });
    let processing = enqueue_workload(&ProcessingShader::compile(&set));
    assert_eq!(processing.stage, Stage::Processing);
    assert_eq!(processing.workgroups, Workgroups { x: 65, y: 1, z: 1 });
    let square = textures(Size::new(10, 10), Size::new(1024, 1024), 1);
    assert_eq!(
        enqueue_workload(&ProcessingShader::compile(&square)).workgroups,
        Workgroups { x: 64, y: 64, z: 1 }
    );
}

#[test]
fn source_texture_is_uploaded_into_and_sampled() {
    let texture = create_texture(Size::new(640, 480));
    assert_eq!(texture.size, Extent3d { width: 640, height: 480, depth_or_array_layers: 1 });
    assert_eq!(texture.mip_level_count, 1);
    assert_eq!(texture.sample_count, 1);
    assert_eq!(texture.dimension, TextureDimension::D2);
    assert_eq!(texture.format, TexelFormat::Rgba8Unorm);
    assert_eq!(texture.view_format, TexelFormat::Rgba8Unorm);
    assert_eq!(
        texture.usage,
        TextureUsages {
            copy_src: false,
            copy_dst: true,
            texture_binding: true,
            storage_binding: false,
            render_attachment: false,
        }
    );
}

#[test]
fn written_textures_are_storage_and_sampled() {
    let written = TextureUsages {
        copy_src: false,
        copy_dst: false,
        texture_binding: true,
        storage_binding: true,
        render_attachment: false,
    };
    let linear =
        create_float_texture(Size::new(8, 4), TexelFormat::Rgba32Float, TextureSlot::FullOutput);
    assert_eq!(linear.usage, written);
    assert_eq!(linear.format, TexelFormat::Rgba32Float);
    assert_eq!(linear.view_format, TexelFormat::Rgba32Float);
    assert_eq!(linear.size, Extent3d { width: 8, height: 4, depth_or_array_layers: 1 });
    let window = Size::new(1024, 1024);
    let image = Size::new(2000, 1000);
    let input = create_window_texture(window, image, TexelFormat::Rgba8Unorm, TextureSlot::Input);
    assert_eq!(input.usage, written);
    assert_eq!(input.format, TexelFormat::Rgba8Unorm);
    assert_eq!(input.size, Extent3d { width: 1229, height: 614, depth_or_array_layers: 1 });
    let output =
        create_window_texture(window, image, TexelFormat::Rgba8Unorm, TextureSlot::Output);
    assert_eq!(output.usage, written);
    assert_eq!(output.size, Extent3d { width: 1229, height: 614, depth_or_array_layers: 1 });
    let plane = create_float_texture(Size::new(8, 4), TexelFormat::R32Float, TextureSlot::Full);
    assert!(plane.usage.copy_dst && plane.usage.texture_binding && !plane.usage.storage_binding);
    assert_eq!(plane.format, TexelFormat::R32Float);
}

#[test]
fn no_texture_of_the_set_is_a_copy_source() {
    for slot in [TextureSlot::Full, TextureSlot::FullOutput, TextureSlot::Input, TextureSlot::Output]
    {
        assert!(!slot.usage().copy_src);
        assert!(!slot.usage().render_attachment);
    }
}

#[test]
fn bytes_per_texel_follow_the_format() {
    assert_eq!(TexelFormat::Rgba8Unorm.bytes_per_texel(), 4);
    assert_eq!(TexelFormat::R32Float.bytes_per_texel(), 4);
    assert_eq!(TexelFormat::Rgba32Float.bytes_per_texel(), 16);
}

#[test]
fn views_take_the_whole_texture() {
    let view = to_texture_view();
    assert_eq!(view.format, None);
    assert_eq!(view.dimension, Some(TextureDimension::D2));
    assert_eq!(view.aspect, TextureAspect::All);
    assert_eq!(view.base_mip_level, 0);
    assert_eq!(view.mip_level_count, None);
    assert_eq!(view.base_array_layer, 0);
    assert_eq!(view.array_layer_count, None);
}

#[test]
fn sampler_is_linear_and_clamped() {
    let sampler = create_sampler();
    assert_eq!(sampler.address_mode_u, AddressMode::ClampToEdge);
    assert_eq!(sampler.address_mode_v, AddressMode::ClampToEdge);
    assert_eq!(sampler.address_mode_w, AddressMode::ClampToEdge);
    assert_eq!(sampler.mag_filter, FilterMode::Linear);
    assert_eq!(sampler.min_filter, FilterMode::Linear);
    assert_eq!(sampler.mipmap_filter, FilterMode::Nearest);
}

#[test]
fn uniform_group_is_one_buffer_for_every_stage() {
    let layout = uniforms_bind_group_layout();
    assert_eq!(
        layout.entries,
        vec![BindGroupLayoutEntry {
            binding: 0,
            visibility: ShaderStages { vertex: true, fragment: true, compute: true },
            ty: BindingType::UniformBuffer,
        }]
    );
    let group = uniforms_bind_group(9);
    assert_eq!(group.group, 1);
    assert_eq!(group.generation, 9);
    assert_eq!(
        group.entries,
        vec![BindGroupEntry { binding: 0, resource: BindingResource::UniformBuffer }]
    );
}

#[test]
fn standard_image_is_uploaded_as_it_is() {
    let data: Vec<u8> = (0..24).collect();
    let image = Image::DynamicImage(DecodedImage { width: 3, height: 2, data: data.clone() });
    let write = write_texture(&image).unwrap();
    assert_eq!(write.data, data);
    assert_eq!(
        write.layout,
        TexelCopyBufferLayout { offset: 0, bytes_per_row: Some(12), rows_per_image: Some(2) }
    );
    assert_eq!(write.size, Extent3d { width: 3, height: 2, depth_or_array_layers: 1 });
}

#[test]
fn sensor_samples_are_widened_to_single_precision() {
    let samples: Vec<u16> = vec![0, 1, 2, 1000, 16383, 65535];
    let image = sensor(3, 2, RawImageData::Integer(samples.clone()));
    let write = write_texture(&image).unwrap();
    let mut expected = Vec::new();
    for sample in &samples {
        expected.extend_from_slice(&f32::from(*sample).to_ne_bytes());
    }
    assert_eq!(write.data, expected);
    assert_eq!(write.data.len(), 4 * 3 * 2);
    assert_eq!(
        write.layout,
        TexelCopyBufferLayout { offset: 0, bytes_per_row: Some(12), rows_per_image: Some(2) }
    );
    assert_eq!(write.size, Extent3d { width: 3, height: 2, depth_or_array_layers: 1 });
}

#[test]
fn floating_sensor_plane_is_refused() {
    let image = sensor(2, 1, RawImageData::Float(vec![0x3f80_0000, 0x4000_0000]));
    let result = write_texture(&image);
    assert_eq!(result.err(), Some(UploadError::UnsupportedRawFormat));
    let empty = sensor(2, 1, RawImageData::Float(Vec::new()));
    assert_eq!(write_texture(&empty).err(), Some(UploadError::UnsupportedRawFormat));
}

#[test]
fn upload_error_names_itself() {
    assert_eq!(
        UploadError::UnsupportedRawFormat.message(),
        "unsupported raw format: floating-point sensor data"
    );
}

#[test]
fn empty_upload_is_empty() {
    let image = sensor(1, 1, RawImageData::Integer(Vec::new()));
    assert_eq!(write_texture(&image).unwrap().data, Vec::<u8>::new());
}

#[test]
fn compute_stages_follow_the_binding_table() {
    let compute = ShaderStages { vertex: false, fragment: false, compute: true };
    let expected = |filterable: bool, format: TexelFormat| {
        vec![
            BindGroupLayoutEntry {
                binding: 0,
                visibility: compute,
                ty: BindingType::Texture { filterable },
            },
            BindGroupLayoutEntry {
                binding: 1,
                visibility: compute,
                ty: BindingType::StorageTexture { format },
            },
            BindGroupLayoutEntry { binding: 2, visibility: compute, ty: BindingType::UniformBuffer },
        ]
    };
    assert_eq!(
        DemosaicShader::create_bind_group_layout().entries,
        expected(false, TexelFormat::Rgba32Float)
    );
    assert_eq!(
        DownsampleShader::create_bind_group_layout().entries,
        expected(false, TexelFormat::Rgba8Unorm)
    );
    assert_eq!(
        ProcessingShader::create_bind_group_layout().entries,
        expected(false, TexelFormat::Rgba8Unorm)
    );
}

#[test]
fn composite_stage_follows_the_binding_table() {
    let visibility = ShaderStages { vertex: true, fragment: true, compute: false };
    assert_eq!(
        FragmentShader::create_bind_group_layout().entries,
        vec![
            BindGroupLayoutEntry { binding: 0, visibility, ty: BindingType::UniformBuffer },
            BindGroupLayoutEntry {
                binding: 1,
                visibility,
                ty: BindingType::Texture { filterable: true },
            },
            BindGroupLayoutEntry { binding: 2, visibility, ty: BindingType::FilteringSampler },
        ]
    );
}

#[test]
fn bind_groups_wire_the_textures_in_a_chain() {
    let set = textures(Size::new(32, 32), Size::new(16, 16), 5);
    let wired = |source: TextureSlot, target: TextureSlot| {
        vec![
            BindGroupEntry { binding: 0, resource: BindingResource::TextureView(source) },
            BindGroupEntry { binding: 1, resource: BindingResource::TextureView(target) },
            BindGroupEntry { binding: 2, resource: BindingResource::UniformBuffer },
        ]
    };
    let pipeline = DemosaicShader::create_pipeline();
    let (primary, uniforms) = DemosaicShader::create_bind_group(&pipeline, &set);
    assert_eq!(primary.entries, wired(TextureSlot::Full, TextureSlot::FullOutput));
    assert_eq!((primary.group, primary.generation), (0, 5));
    assert_eq!((uniforms.group, uniforms.generation), (1, 5));
    let pipeline = DownsampleShader::create_pipeline();
    let (primary, _) = DownsampleShader::create_bind_group(&pipeline, &set);
    assert_eq!(primary.entries, wired(TextureSlot::FullOutput, TextureSlot::Input));
    let pipeline = ProcessingShader::create_pipeline();
    let (primary, _) = ProcessingShader::create_bind_group(&pipeline, &set);
    assert_eq!(primary.entries, wired(TextureSlot::Input, TextureSlot::Output));
    let pipeline = FragmentShader::create_pipeline(wgpu::TextureFormat::Bgra8UnormSrgb);
    let (primary, uniforms) = FragmentShader::create_bind_group(&pipeline, &set);
    assert_eq!(
        primary.entries,
        vec![
            BindGroupEntry { binding: 0, resource: BindingResource::UniformBuffer },
            BindGroupEntry {
                binding: 1,
                resource: BindingResource::TextureView(TextureSlot::Output),
            },
            BindGroupEntry { binding: 2, resource: BindingResource::Sampler },
        ]
    );
    assert_eq!((primary.group, primary.generation), (0, 5));
    assert_eq!((uniforms.group, uniforms.generation), (1, 5));
}

#[test]
fn pipelines_are_compiled_against_two_groups() {
    for (pipeline, stage) in [
        (DemosaicShader::create_pipeline(), Stage::Demosaic),
        (DownsampleShader::create_pipeline(), Stage::Downsample),
        (ProcessingShader::create_pipeline(), Stage::Processing),
    ] {
        assert_eq!(pipeline.stage, stage);
        assert_eq!(pipeline.entry_point, "main");
        assert_eq!(pipeline.layout.bind_group_layouts.len(), 2);
        assert_eq!(pipeline.layout.bind_group_layouts[0].entries, stage.layout());
        assert_eq!(pipeline.layout.bind_group_layouts[1], uniforms_bind_group_layout());
    }
    let composite = FragmentShader::create_pipeline(wgpu::TextureFormat::Rgba8Unorm);
    assert_eq!(composite.stage, Stage::Composite);
    assert_eq!(composite.vertex_entry_point, "vs_main");
    assert_eq!(composite.fragment_entry_point, "fs_main");
    assert_eq!(composite.target_format, wgpu::TextureFormat::Rgba8Unorm);
    assert_eq!(composite.blend, BlendState::AlphaBlending);
    assert_eq!(composite.layout.bind_group_layouts.len(), 2);
    assert_eq!(composite.layout.bind_group_layouts[0].entries, Stage::Composite.layout());
    assert_eq!(composite.layout.bind_group_layouts[1], uniforms_bind_group_layout());
}

#[test]
fn compiled_bundles_carry_the_size_they_run_over() {
    let set = textures(Size::new(300, 200), Size::new(120, 80), 3);
    assert_eq!(DemosaicShader::compile(&set).size, Size::new(300, 200));
    assert_eq!(DownsampleShader::compile(&set).size, Size::new(120, 80));
    assert_eq!(ProcessingShader::compile(&set).size, Size::new(120, 80));
    let composite = FragmentShader::compile(wgpu::TextureFormat::Bgra8Unorm, &set);
    assert_eq!(composite.pipeline.target_format, wgpu::TextureFormat::Bgra8Unorm);
    assert_eq!(composite.bind_group.generation, 3);
    assert_eq!(composite.uniform_bind_group.generation, 3);
}
