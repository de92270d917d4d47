use rise::camera::RenderCamera;
use rise::description::parse_material_description;
use rise::gpu::BindingResource;
use rise::gpu::BindingType;
use rise::gpu::GpuAction;
use rise::gpu::RenderCommand;
use rise::gpu::ShaderStage;
use rise::material::Material;
use rise::material::MaterialBuilder;
use rise::mesh::Mesh;
use rise::mesh::Vec2Bits;
use rise::mesh::Vec3Bits;
use rise::mesh::Vertex;
use rise::render::begin_frame;
use rise::render::end_frame;
use rise::render::RenderContext;
use rise::texture::TextureBuilder;
use rise::uniform::CameraUniform;
use rise::uniform::Mat4Bits;
use rise::uniform::SlotKind;
use rise::RISEError;
use rise::RISEErrorKind;

const STANDARD_MAT: &str = r#"
{
    "vertex_stage": "res/shader/standard.vert.spv",
    "fragment_stage": "res/shader/standard.frag.spv",
    "uniforms": [
        { "name": "camera", "type": "camera" },
        { "name": "diffuse", "type": "texture" }
    ]
}
"#;

fn build_standard_material(ctx: &mut RenderContext) -> Material {
    let description = parse_material_description(STANDARD_MAT).unwrap();
    let builder = ctx
        .create_material()
        .from_description(&description, vec![1, 2, 3, 4], vec![5, 6, 7, 8], ctx)
        .unwrap();
    builder.build(ctx)
}

#[test]
fn binding_indices_follow_declaration_order() {
    let mut ctx = RenderContext::create(800, 600);
    let material = build_standard_material(&mut ctx);
    assert_eq!(material.get_binding_by_name("camera"), Some(0));
    assert_eq!(material.get_binding_by_name("diffuse"), Some(1));
    assert_eq!(material.get_binding_by_name("normal_map"), None);
    assert_eq!(material.get_binding_by_name(""), None);
    assert_eq!(material.get_binding_by_name("Camera"), None);
    assert_eq!(material.get_uniforms().len(), 2);
    assert_eq!(material.get_uniforms()[0].kind, SlotKind::Camera);
    assert_eq!(material.get_uniforms()[1].kind, SlotKind::Texture);
}

#[test]
fn slot_layouts_match_their_kinds() {
    let mut ctx = RenderContext::create(800, 600);
    let material = build_standard_material(&mut ctx);
    let camera_layout = material.get_uniforms()[0].get_bind_group_layout();
    let texture_layout = material.get_uniforms()[1].get_bind_group_layout();

    let mut seen_camera = false;
    let mut seen_texture = false;
    for action in &ctx.actions {
        if let GpuAction::CreateBindGroupLayout { id, desc } = action {
            if *id == camera_layout {
                seen_camera = true;
                assert_eq!(desc.label.as_deref(), Some("camera"));
                assert_eq!(desc.entries.len(), 1);
                assert_eq!(desc.entries[0].binding, 0);
                assert_eq!(desc.entries[0].visibility, ShaderStage::Vertex);
                assert_eq!(desc.entries[0].ty, BindingType::UniformBuffer);
            }
            if *id == texture_layout {
                seen_texture = true;
                assert_eq!(desc.label.as_deref(), Some("diffuse"));
                assert_eq!(desc.entries.len(), 2);
                assert_eq!(desc.entries[0].ty, BindingType::SampledTexture);
                assert_eq!(desc.entries[0].visibility, ShaderStage::Fragment);
                assert_eq!(desc.entries[1].ty, BindingType::Sampler);
                assert_eq!(desc.entries[1].binding, 1);
            }
        }
    }
    assert!(seen_camera && seen_texture);
}

#[test]
fn duplicate_slot_names_are_rejected() {
    let mut ctx = RenderContext::create(800, 600);
    let description = parse_material_description(
        r#"{ "vertex_stage": "a.spv", "fragment_stage": "b.spv",
             "uniforms": [ { "name": "diffuse", "type": "texture" },
                           { "name": "diffuse", "type": "texture" } ] }"#,
    )
    .unwrap();
    let recorded = ctx.actions.len();
    let r = MaterialBuilder::new().from_description(&description, vec![0], vec![0], &mut ctx);
    assert_eq!(r.err().unwrap(), RISEError(RISEErrorKind::DuplicateSlot));
    assert_eq!(ctx.actions.len(), recorded);
}

#[test]
fn pipeline_carries_the_fixed_state() {
    let mut ctx = RenderContext::create(800, 600);
    let material = build_standard_material(&mut ctx);
    let pipeline = material.get_render_pipeline();
    let mut found = false;
    for action in &ctx.actions {
        if let GpuAction::CreateRenderPipeline { id, desc } = action {
            assert_eq!(*id, pipeline);
            assert_eq!(desc.bind_group_layouts.len(), 2);
            assert_eq!(
                desc.bind_group_layouts[0],
                material.get_uniforms()[0].get_bind_group_layout()
            );
            assert!(desc.depth_write_enabled);
            assert_eq!(desc.color_format, ctx.sc_desc.format);
            assert_eq!(desc.vertex_layout.stride, 32);
            assert_eq!(desc.sample_count, 1);
            found = true;
        }
    }
    assert!(found);
}

#[test]
fn use_texture_on_unknown_slot_never_allocates() {
    let mut ctx = RenderContext::create(800, 600);
    let material = build_standard_material(&mut ctx);
    let mut instance = material.create_instance();
    let texture = TextureBuilder::new()
        .load_image(vec![255u8, 0, 0, 255], 1, 1, &mut ctx)
        .unwrap();

    let bindings_before = instance.get_uniforms().len();
    let next_id_before = ctx.next_id;
    let recorded = ctx.actions.len();

    let r = instance.use_texture("nonexistent", &texture, &mut ctx);
    assert_eq!(r.unwrap_err(), RISEError(RISEErrorKind::UnknownBinding));
    assert_eq!(ctx.next_id, next_id_before); // zero GPU allocations
    assert_eq!(ctx.actions.len(), recorded);
    assert_eq!(instance.get_uniforms().len(), bindings_before);
    assert!(instance.get_uniforms().iter().all(|b| b.is_none()));
}

#[test]
fn use_texture_wires_the_views_at_the_slot_index() {
    let mut ctx = RenderContext::create(800, 600);
    let material = build_standard_material(&mut ctx);
    let mut instance = material.create_instance();
    let texture = TextureBuilder::new()
        .load_image(vec![255u8, 0, 0, 255], 1, 1, &mut ctx)
        .unwrap();

    instance.use_texture("diffuse", &texture, &mut ctx).unwrap();
    let index = material.get_binding_by_name("diffuse").unwrap();
    let binding = instance.get_uniforms()[index].unwrap();

    match ctx.actions.last().unwrap() {
        GpuAction::CreateBindGroup { id, layout, entries, .. } => {
            assert_eq!(*id, binding.get_bind_group());
            assert_eq!(*layout, material.get_uniforms()[index].get_bind_group_layout());
            assert_eq!(entries.len(), 2);
            assert_eq!(entries[0].resource, BindingResource::TextureView(texture.get_view()));
            assert_eq!(entries[1].resource, BindingResource::Sampler(texture.get_sampler()));
        }
        _ => panic!("expected the binding set creation to be recorded"),
    }
    assert!(binding.get_buffer().is_none());

    // Rebinding overwrites the slot, leaving the table's size unchanged.
    let other = TextureBuilder::new()
        .load_image(vec![0u8, 255, 0, 255], 1, 1, &mut ctx)
        .unwrap();
    instance.use_texture("diffuse", &other, &mut ctx).unwrap();
    assert_eq!(instance.get_uniforms().len(), 2);
    assert_ne!(instance.get_uniforms()[index].unwrap().get_bind_group(), binding.get_bind_group());
}

fn mat4_from(rows: [[f32; 4]; 4]) -> Mat4Bits {
    // Column-major entry order, as the GPU expects the payload.
    let mut entries = [0u32; 16];
    for col in 0..4 {
        for row in 0..4 {
            entries[col * 4 + row] = rows[row][col].to_bits();
        }
    }
    Mat4Bits { entries }
}

fn mat_mul(a: [[f32; 4]; 4], b: [[f32; 4]; 4]) -> [[f32; 4]; 4] {
    let mut out = [[0.0f32; 4]; 4];
    for row in 0..4 {
        for col in 0..4 {
            let mut acc = 0.0f32;
            for k in 0..4 {
                acc += a[row][k] * b[k][col];
            }
            out[row][col] = acc;
        }
    }
    out
}

#[test]
fn camera_payload_is_byte_identical_to_the_cpu_computation() {
    // The depth-range correction maps -1..1 onto 0..1.
    let correction = [
        [1.0f32, 0.0, 0.0, 0.0],
        [0.0, 1.0, 0.0, 0.0],
        [0.0, 0.0, 0.5, 0.5],
        [0.0, 0.0, 0.0, 1.0],
    ];
    let view = [
        [1.0f32, 0.0, 0.0, -2.5],
        [0.0, 1.0, 0.0, 0.25],
        [0.0, 0.0, 1.0, -5.0],
        [0.0, 0.0, 0.0, 1.0],
    ];
    let proj = [
        [1.25f32, 0.0, 0.0, 0.0],
        [0.0, 1.6667, 0.0, 0.0],
        [0.0, 0.0, -1.002, -0.2002],
        [0.0, 0.0, -1.0, 0.0],
    ];
    let corrected = mat_mul(correction, proj);

    let uniform = CameraUniform::new(mat4_from(view), mat4_from(corrected));
    let payload = uniform.payload_bytes();
    assert_eq!(payload.len(), 128);

    let mut expected: Vec<u8> = Vec::new();
    for col in 0..4 {
        for row in 0..4 {
            expected.extend_from_slice(&view[row][col].to_bits().to_le_bytes());
        }
    }
    for col in 0..4 {
        for row in 0..4 {
            expected.extend_from_slice(&corrected[row][col].to_bits().to_le_bytes());
        }
    }
    assert_eq!(payload, expected);
}

#[test]
fn one_frame_records_one_draw_of_three_indices() {
    // The end-to-end scenario: a standard material with camera and diffuse
    // slots, a bound 1-by-1 texture, a single triangle, one frame cycle.
    let mut ctx = RenderContext::create(800, 600);
    let material = build_standard_material(&mut ctx);

    let mut instance = material.create_instance();
    let texture = TextureBuilder::new()
        .load_image(vec![200u8, 40, 40, 255], 1, 1, &mut ctx)
        .unwrap();
    instance.use_texture("diffuse", &texture, &mut ctx).unwrap();

    let mut mesh = Mesh::new();
    for (x, y) in [(0.0f32, 0.5f32), (-0.5, -0.5), (0.5, -0.5)] {
        mesh.add_vertex(Vertex::new(
            Vec3Bits { x: x.to_bits(), y: y.to_bits(), z: 0 },
            Vec3Bits { x: 0, y: 0, z: 1.0f32.to_bits() },
            Vec2Bits { x: 0, y: 0 },
        ));
    }
    mesh.set_indices(vec![0u16, 1, 2]);

    let drawable = ctx
        .create_drawable()
        .with_mesh(mesh)
        .with_material(instance)
        .build(&mut ctx);

    let mut camera = RenderCamera::new(
        &mut ctx,
        CameraUniform::new(Mat4Bits { entries: [0; 16] }, Mat4Bits { entries: [0; 16] }),
    );
    camera.bind(&mut ctx, material.get_camera_uniform());

    let mut frame = begin_frame(&mut ctx);
    frame.render(&[&drawable], &camera, &mut ctx);
    end_frame(frame, &mut ctx);
    assert!(!ctx.frame_open);

    let submitted = match ctx.actions.last().unwrap() {
        GpuAction::Submit { commands } => commands,
        _ => panic!("the frame must end in a submission"),
    };
    let draws: Vec<&RenderCommand> = submitted
        .iter()
        .filter(|c| matches!(c, RenderCommand::DrawIndexed { .. }))
        .collect();
    assert_eq!(draws.len(), 1);
    match draws[0] {
        RenderCommand::DrawIndexed { index_count } => assert_eq!(*index_count, 3),
        _ => unreachable!(),
    }

    // The pass opens once, clears against the camera's depth texture, and
    // binds camera then instance resources before the draw.
    assert!(matches!(submitted[0], RenderCommand::BeginRenderPass { .. }));
    match &submitted[0] {
        RenderCommand::BeginRenderPass { depth_target, .. } => {
            assert_eq!(*depth_target, camera.get_depth_texture().get_view());
        }
        _ => unreachable!(),
    }
    match &submitted[1] {
        RenderCommand::SetBindGroup { index, bind_group } => {
            assert_eq!(*index, 0); // the camera slot's declared index
            assert_eq!(*bind_group, camera.get_binding().unwrap().get_bind_group());
        }
        _ => panic!("the camera binds first"),
    }
    match &submitted[2] {
        RenderCommand::SetBindGroup { index, .. } => assert_eq!(*index, 1),
        _ => panic!("the instance's diffuse binding follows"),
    }
    assert!(matches!(submitted[3], RenderCommand::SetPipeline { .. }));

    // The camera's payload went through the queue exactly once.
    let writes = ctx
        .actions
        .iter()
        .filter(|a| matches!(a, GpuAction::WriteBuffer { .. }))
        .count();
    assert_eq!(writes, 1);
}
