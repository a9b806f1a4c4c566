use elements::api::DepthFormat;
use elements::extent::Extent;
use elements::pipeline::{
    pack_attributes, CompareOp, CullMode, DepthState, DescriptorBinding, DescriptorKind,
    FrontFace, PipelineDescription, PolygonMode, Topology, VertexAttribute,
};
use elements::sampler::{
    address_mode, AddressMode, Filter, MagFilter, MinFilter, MipmapMode, Sampler,
    SamplerSettings, WrappingMode,
};
use elements::surface::ColorFormat;
use elements::upload::{plan_mesh, plan_texture, MeshCounts, MipBlit, UploadError};
use elements::vertex::{pack_vertices, ElmVec2, ElmVec3, ElmVertex};

fn extent(width: u32, height: u32) -> Extent {
    Extent { width, height }
}

#[test]
fn mesh_counts_are_kept() {
    assert_eq!(plan_mesh(3, 3), Ok(MeshCounts { vertex_count: 3, index_count: 3 }));
    assert_eq!(plan_mesh(4, 6), Ok(MeshCounts { vertex_count: 4, index_count: 6 }));
    assert_eq!(
        plan_mesh(u32::MAX as usize, 1),
        Ok(MeshCounts { vertex_count: u32::MAX, index_count: 1 })
    );
}

#[test]
fn mesh_without_vertices_or_indices_is_refused() {
    assert_eq!(plan_mesh(0, 3), Err(UploadError::EmptyMesh));
    assert_eq!(plan_mesh(3, 0), Err(UploadError::EmptyMesh));
    assert_eq!(plan_mesh(0, 0), Err(UploadError::EmptyMesh));
}

#[test]
fn mesh_beyond_32_bits_is_refused() {
    assert_eq!(plan_mesh(u32::MAX as usize + 1, 3), Err(UploadError::MeshTooLarge));
    assert_eq!(plan_mesh(3, u32::MAX as usize + 1), Err(UploadError::MeshTooLarge));
    assert_eq!(plan_mesh(0, u32::MAX as usize + 1), Err(UploadError::EmptyMesh));
}

#[test]
fn texture_gets_a_full_mip_chain() {
    let plan = plan_texture(4 * 512 * 256, extent(512, 256)).unwrap();
    assert_eq!(plan.extent, extent(512, 256));
    assert_eq!(plan.mip_levels, 10);
    assert_eq!(plan.blits.len(), 9);
    assert_eq!(
        plan.blits[0],
        MipBlit {
            src_level: 0,
            src_extent: extent(512, 256),
            dst_level: 1,
            dst_extent: extent(256, 128)
        }
    );
    assert_eq!(
        plan.blits[8],
        MipBlit { src_level: 8, src_extent: extent(2, 1), dst_level: 9, dst_extent: extent(1, 1) }
    );
}

#[test]
fn three_by_three_texture_has_one_blit_to_a_single_texel() {
    let plan = plan_texture(36, extent(3, 3)).unwrap();
    assert_eq!(plan.mip_levels, 2);
    assert_eq!(
        plan.blits,
        vec![MipBlit {
            src_level: 0,
            src_extent: extent(3, 3),
            dst_level: 1,
            dst_extent: extent(1, 1)
        }]
    );
}

#[test]
fn single_texel_needs_no_blit() {
    let plan = plan_texture(4, extent(1, 1)).unwrap();
    assert_eq!(plan.mip_levels, 1);
    assert!(plan.blits.is_empty());
}

#[test]
fn texture_without_area_is_refused() {
    assert_eq!(plan_texture(0, extent(0, 0)).unwrap_err(), UploadError::EmptyTexture);
    assert_eq!(plan_texture(0, extent(0, 8)).unwrap_err(), UploadError::EmptyTexture);
    assert_eq!(plan_texture(64, extent(8, 0)).unwrap_err(), UploadError::EmptyTexture);
}

#[test]
fn pixel_buffer_of_the_wrong_size_is_refused() {
    assert_eq!(plan_texture(35, extent(3, 3)).unwrap_err(), UploadError::PixelCount);
    assert_eq!(plan_texture(37, extent(3, 3)).unwrap_err(), UploadError::PixelCount);
    assert_eq!(plan_texture(9, extent(3, 3)).unwrap_err(), UploadError::PixelCount);
    assert_eq!(
        plan_texture(0, extent(u32::MAX, u32::MAX)).unwrap_err(),
        UploadError::PixelCount
    );
}

#[test]
fn vertices_are_packed_attribute_by_attribute() {
    let vertices = vec![
        ElmVertex {
            position: ElmVec3 { x: 1, y: 2, z: 3 },
            color: ElmVec3 { x: 4, y: 5, z: 6 },
            tex_coord: ElmVec2 { x: 7, y: 8 },
        },
        ElmVertex {
            position: ElmVec3 { x: 11, y: 12, z: 13 },
            color: ElmVec3 { x: 14, y: 15, z: 16 },
            tex_coord: ElmVec2 { x: 17, y: 18 },
        },
    ];
    assert_eq!(
        pack_vertices(&vertices),
        vec![1, 2, 3, 4, 5, 6, 7, 8, 11, 12, 13, 14, 15, 16, 17, 18]
    );
    assert!(pack_vertices(&Vec::new()).is_empty());
}

#[test]
fn undeclared_sampler_is_linear_and_repeats() {
    assert_eq!(
        Sampler::standard().settings(),
        SamplerSettings {
            mag_filter: Filter::Linear,
            min_filter: Filter::Linear,
            mipmap_mode: MipmapMode::Linear,
            address_u: AddressMode::Repeat,
            address_v: AddressMode::Repeat,
            address_w: AddressMode::Repeat,
            max_anisotropy: true,
        }
    );
}

#[test]
fn declared_sampler_maps_one_to_one() {
    let sampler = Sampler {
        mag_filter: Some(MagFilter::Nearest),
        min_filter: Some(MinFilter::LinearMipmapNearest),
        wrap_s: WrappingMode::ClampToEdge,
        wrap_t: WrappingMode::MirroredRepeat,
    };
    assert_eq!(
        sampler.settings(),
        SamplerSettings {
            mag_filter: Filter::Nearest,
            min_filter: Filter::Linear,
            mipmap_mode: MipmapMode::Nearest,
            address_u: AddressMode::ClampToEdge,
            address_v: AddressMode::MirroredRepeat,
            address_w: AddressMode::Repeat,
            max_anisotropy: true,
        }
    );
}

#[test]
fn every_minification_filter_has_its_native_pair() {
    let cases = [
        (MinFilter::Nearest, Filter::Nearest, MipmapMode::Linear),
        (MinFilter::Linear, Filter::Linear, MipmapMode::Linear),
        (MinFilter::NearestMipmapNearest, Filter::Nearest, MipmapMode::Nearest),
        (MinFilter::LinearMipmapNearest, Filter::Linear, MipmapMode::Nearest),
        (MinFilter::NearestMipmapLinear, Filter::Nearest, MipmapMode::Linear),
        (MinFilter::LinearMipmapLinear, Filter::Linear, MipmapMode::Linear),
    ];
    for (declared, filter, mipmap_mode) in cases {
        let settings = Sampler { min_filter: Some(declared), ..Sampler::standard() }.settings();
        assert_eq!(settings.min_filter, filter);
        assert_eq!(settings.mipmap_mode, mipmap_mode);
        assert_eq!(settings.mag_filter, Filter::Linear);
    }
    let linear = Sampler { mag_filter: Some(MagFilter::Linear), ..Sampler::standard() };
    assert_eq!(linear.settings().mag_filter, Filter::Linear);
}

#[test]
fn wrapping_modes_keep_their_names() {
    assert_eq!(address_mode(WrappingMode::ClampToEdge), AddressMode::ClampToEdge);
    assert_eq!(address_mode(WrappingMode::MirroredRepeat), AddressMode::MirroredRepeat);
    assert_eq!(address_mode(WrappingMode::Repeat), AddressMode::Repeat);
}

#[test]
fn forward_pipeline_is_described() {
    let pipeline = PipelineDescription::forward(ColorFormat::Rgba8Srgb, Some(DepthFormat::D32SfloatS8Uint), false);
    assert_eq!(pipeline.color_format, ColorFormat::Rgba8Srgb);
    assert_eq!(pipeline.vertex_stride, 32);
    assert_eq!(
        pipeline.attributes,
        vec![
            VertexAttribute { location: 0, offset: 0, components: 3 },
            VertexAttribute { location: 1, offset: 12, components: 3 },
            VertexAttribute { location: 2, offset: 24, components: 2 },
        ]
    );
    assert_eq!(pipeline.topology, Topology::TriangleList);
    assert_eq!(pipeline.polygon_mode, PolygonMode::Fill);
    assert_eq!(pipeline.cull_mode, CullMode::Back);
    assert_eq!(pipeline.front_face, FrontFace::CounterClockwise);
    assert!(!pipeline.blending);
    assert_eq!(pipeline.depth, Some(DepthState {
            format: DepthFormat::D32SfloatS8Uint,
            compare: CompareOp::LessOrEqual,
            write: true
        }));
    assert_eq!(
        pipeline.bindings,
        vec![DescriptorBinding {
            binding: 0,
            kind: DescriptorKind::UniformBuffer,
            vertex_stage: true,
            fragment_stage: true,
        }]
    );
    assert!(pipeline.dynamic_viewport);
}

#[test]
fn textured_pipeline_binds_a_sampler_at_one() {
    let pipeline = PipelineDescription::forward(ColorFormat::Bgra8Srgb, None, true);
    assert_eq!(pipeline.depth, None);
    assert_eq!(pipeline.bindings.len(), 2);
    assert_eq!(
        pipeline.bindings[1],
        DescriptorBinding {
            binding: 1,
            kind: DescriptorKind::CombinedImageSampler,
            vertex_stage: false,
            fragment_stage: true,
        }
    );
}

#[test]
fn attributes_are_packed_without_gaps() {
    let (attributes, stride) = pack_attributes(&vec![3, 3, 2]).unwrap();
    assert_eq!(
        attributes,
        PipelineDescription::forward(ColorFormat::Other, None, false).attributes
    );
    assert_eq!(stride, 32);
    assert_eq!(pack_attributes(&Vec::new()), Some((Vec::new(), 0)));
    assert_eq!(pack_attributes(&vec![u32::MAX / 4, 1]), None);
    assert_eq!(pack_attributes(&vec![u32::MAX]), None);
}
