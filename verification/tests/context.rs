use rise::gpu::GpuAction;
use rise::gpu::TextureFormat;
use rise::mesh::Mesh;
use rise::mesh::Vec2Bits;
use rise::mesh::Vec3Bits;
use rise::mesh::Vertex;
use rise::mesh::VERTEX_STRIDE;
use rise::render::PhysicalSize;
use rise::render::RenderContext;
use rise::texture::TextureBuilder;
use rise::RISEError;
use rise::RISEErrorKind;

fn v3(x: f32, y: f32, z: f32) -> Vec3Bits {
    Vec3Bits { x: x.to_bits(), y: y.to_bits(), z: z.to_bits() }
}

fn v2(x: f32, y: f32) -> Vec2Bits {
    Vec2Bits { x: x.to_bits(), y: y.to_bits() }
}

#[test]
fn create_sets_up_the_swap_chain() {
    let ctx = RenderContext::create(800, 600);
    assert_eq!(ctx.size, PhysicalSize { width: 800, height: 600 });
    assert_eq!(ctx.sc_desc.width, 800);
    assert_eq!(ctx.sc_desc.height, 600);
    assert_eq!(ctx.sc_desc.format, TextureFormat::Bgra8UnormSrgb);
    assert_eq!(ctx.actions.len(), 1);
    assert!(matches!(ctx.actions[0], GpuAction::CreateSwapChain { .. }));
}

#[test]
fn repeated_identical_resize_is_idempotent() {
    let mut ctx = RenderContext::create(800, 600);
    ctx.resize(PhysicalSize { width: 1024, height: 768 });
    let desc_after_first = ctx.sc_desc;
    let generation_after_first = ctx.swap_chain_generation;

    ctx.resize(PhysicalSize { width: 1024, height: 768 });
    assert_eq!(ctx.sc_desc, desc_after_first);
    assert_eq!(ctx.size, PhysicalSize { width: 1024, height: 768 });
    assert_eq!(ctx.swap_chain_generation, generation_after_first + 1);

    // Each resize recreated the swap chain exactly once: no handle leaks,
    // the backend replaces its single swap chain per recreation.
    let recreations = ctx
        .actions
        .iter()
        .filter(|a| matches!(a, GpuAction::CreateSwapChain { .. }))
        .count();
    assert_eq!(recreations, 3); // startup + two resizes
}

#[test]
fn take_actions_drains_the_log() {
    let mut ctx = RenderContext::create(64, 64);
    let work = ctx.take_actions();
    assert_eq!(work.len(), 1);
    assert!(ctx.actions.is_empty());
}

#[test]
fn mesh_create_twice_is_reported_without_corruption() {
    let mut ctx = RenderContext::create(64, 64);
    let mut mesh = Mesh::new();
    mesh.add_vertex(Vertex::new(v3(0.0, 0.5, 0.0), v3(0.0, 0.0, 1.0), v2(0.5, 0.0)));
    mesh.add_index(0);

    assert_eq!(mesh.create(&mut ctx), Ok(()));
    let vertex_buffer = mesh.vertex_buffer;
    let index_buffer = mesh.index_buffer;
    let recorded = ctx.actions.len();

    assert_eq!(mesh.create(&mut ctx), Err(RISEError(RISEErrorKind::AlreadyCreated)));
    assert_eq!(mesh.vertex_buffer, vertex_buffer);
    assert_eq!(mesh.index_buffer, index_buffer);
    assert_eq!(ctx.actions.len(), recorded);
}

#[test]
fn mesh_update_before_create_allocates_nothing() {
    let mut ctx = RenderContext::create(64, 64);
    let mut mesh = Mesh::new();
    mesh.add_index(0);

    let next_id_before = ctx.next_id;
    let recorded = ctx.actions.len();
    assert_eq!(mesh.update(&mut ctx), Err(RISEError(RISEErrorKind::NotCreated)));
    assert_eq!(ctx.next_id, next_id_before);
    assert_eq!(ctx.actions.len(), recorded);
    assert!(mesh.vertex_buffer.is_none());
    assert!(mesh.index_buffer.is_none());
}

#[test]
fn mesh_buffers_carry_the_packed_bytes() {
    let mut ctx = RenderContext::create(64, 64);
    let mut mesh = Mesh::new();
    let vertex = Vertex::new(v3(1.0, 2.0, 3.0), v3(0.0, 1.0, 0.0), v2(0.25, 0.75));
    mesh.add_vertex(vertex);
    mesh.set_indices(vec![2u16, 1u16, 0u16]);
    mesh.create(&mut ctx).unwrap();

    let mut expected_vertices: Vec<u8> = Vec::new();
    for value in [1.0f32, 2.0, 3.0, 0.0, 1.0, 0.0, 0.25, 0.75] {
        expected_vertices.extend_from_slice(&value.to_bits().to_le_bytes());
    }
    let mut expected_indices: Vec<u8> = Vec::new();
    for value in [2u16, 1, 0] {
        expected_indices.extend_from_slice(&value.to_le_bytes());
    }

    let uploads: Vec<&GpuAction> = ctx
        .actions
        .iter()
        .filter(|a| matches!(a, GpuAction::CreateBuffer { .. }))
        .collect();
    assert_eq!(uploads.len(), 2);
    match uploads[0] {
        GpuAction::CreateBuffer { usage, size, contents, .. } => {
            assert!(usage.vertex);
            assert_eq!(*size, expected_vertices.len() as u64);
            assert_eq!(contents.as_ref().unwrap(), &expected_vertices);
        }
        _ => unreachable!(),
    }
    match uploads[1] {
        GpuAction::CreateBuffer { usage, size, contents, .. } => {
            assert!(usage.index);
            assert_eq!(*size, expected_indices.len() as u64);
            assert_eq!(contents.as_ref().unwrap(), &expected_indices);
        }
        _ => unreachable!(),
    }
}

#[test]
fn vertex_layout_is_fixed() {
    let d = Vertex::desc();
    assert_eq!(d.stride, VERTEX_STRIDE);
    assert_eq!(d.stride, 32);
    assert_eq!(d.attributes.len(), 3);
    assert_eq!(d.attributes[0].offset, 0);
    assert_eq!(d.attributes[1].offset, 12);
    assert_eq!(d.attributes[2].offset, 24);
    assert_eq!(d.attributes[0].shader_location, 0);
    assert_eq!(d.attributes[1].shader_location, 1);
    assert_eq!(d.attributes[2].shader_location, 2);
}

#[test]
fn geometry_converts_channels_and_narrows_indices() {
    let positions: Vec<u32> = [1.0f32, 2.0, 3.0, 4.0, 5.0, 6.0]
        .iter()
        .map(|f| f.to_bits())
        .collect();
    let normals: Vec<u32> = [0.0f32, 1.0, 0.0].iter().map(|f| f.to_bits()).collect();
    let texcoords: Vec<u32> = [0.1f32, 0.2, 0.3, 0.4].iter().map(|f| f.to_bits()).collect();
    let raw_indices: Vec<u32> = vec![0, 1, 65536 + 5];

    let mesh = Mesh::from_geometry(&positions, &normals, &texcoords, &raw_indices).unwrap();
    assert_eq!(mesh.vertices.len(), 2);
    assert_eq!(mesh.vertices[0].position, v3(1.0, 2.0, 3.0));
    assert_eq!(mesh.vertices[0].normal, v3(0.0, 1.0, 0.0));
    assert_eq!(mesh.vertices[0].uv, v2(0.1, 0.2));
    // The normal channel ended after the first vertex: zeros fill in.
    assert_eq!(mesh.vertices[1].position, v3(4.0, 5.0, 6.0));
    assert_eq!(mesh.vertices[1].normal, Vec3Bits { x: 0, y: 0, z: 0 });
    assert_eq!(mesh.vertices[1].uv, v2(0.3, 0.4));
    // Indices narrow to their low 16 bits.
    assert_eq!(mesh.indices, vec![0u16, 1, 5]);
    assert!(mesh.vertex_buffer.is_none());
}

#[test]
fn geometry_without_texcoords_fails() {
    let positions: Vec<u32> = [0.0f32; 6].iter().map(|f| f.to_bits()).collect();
    let normals: Vec<u32> = Vec::new();
    let texcoords: Vec<u32> = vec![0]; // covers no full vertex
    let raw_indices: Vec<u32> = vec![0, 1];
    let r = Mesh::from_geometry(&positions, &normals, &texcoords, &raw_indices);
    assert_eq!(r.unwrap_err(), RISEError(RISEErrorKind::MissingTexCoords));
}

#[test]
fn depth_texture_tracks_the_swap_chain() {
    let mut ctx = RenderContext::create(320, 200);
    let builder = TextureBuilder::new().make_depth_texture(&ctx);
    assert_eq!(builder.texture_desc.size.width, 320);
    assert_eq!(builder.texture_desc.size.height, 200);
    assert_eq!(builder.texture_desc.format, TextureFormat::Depth32Float);
    let texture = builder.build(&mut ctx);
    let create = &ctx.actions[1];
    match create {
        GpuAction::CreateTexture { id, desc } => {
            assert_eq!(*id, texture.texture);
            assert_eq!(desc.size.width, 320);
            assert_eq!(desc.size.height, 200);
        }
        _ => panic!("expected the texture creation to be recorded"),
    }
}

#[test]
fn image_upload_checks_its_dimensions() {
    let mut ctx = RenderContext::create(64, 64);
    let recorded = ctx.actions.len();
    let r = TextureBuilder::new().load_image(vec![0u8; 5], 1, 1, &mut ctx);
    assert_eq!(r.unwrap_err(), RISEError(RISEErrorKind::ImageSizeMismatch));
    assert_eq!(ctx.actions.len(), recorded);

    let texture = TextureBuilder::new()
        .load_image(vec![10u8, 20, 30, 255], 1, 1, &mut ctx)
        .unwrap();
    match ctx.actions.last().unwrap() {
        GpuAction::WriteTexture { texture: id, data, bytes_per_row, size } => {
            assert_eq!(*id, texture.texture);
            assert_eq!(data, &vec![10u8, 20, 30, 255]);
            assert_eq!(*bytes_per_row, 4);
            assert_eq!(size.width, 1);
            assert_eq!(size.height, 1);
        }
        _ => panic!("expected the upload to be recorded"),
    }
}

#[test]
fn error_messages_name_the_problem() {
    assert_eq!(
        RISEError(RISEErrorKind::UnknownBinding).message(),
        "unknown binding slot name"
    );
    assert_eq!(
        RISEError(RISEErrorKind::AlreadyCreated).message(),
        "mesh buffers were already created"
    );
    assert_eq!(
        RISEError(RISEErrorKind::NotCreated).message(),
        "mesh buffers were never created"
    );
    assert_eq!(
        RISEError(RISEErrorKind::ImageSizeMismatch).message(),
        "image bytes do not match the stated dimensions"
    );
    assert_eq!(
        RISEError(RISEErrorKind::DuplicateSlot).message(),
        "two binding slots share one name"
    );
    assert_eq!(
        RISEError(RISEErrorKind::MissingTexCoords).message(),
        "geometry lacks texture coordinates for some vertices"
    );
}
