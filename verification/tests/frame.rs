use atlas_core::commands::{Command, DescriptorSetRef, PipelineKind, RenderTarget, VertexSource};
use atlas_core::egui::{get_egui_context, UpdateTexturesResult};
use atlas_core::frame::record_frame;
use atlas_core::mesh::{load_gltf, ImportedMaterial, ImportedMesh, ImportedScene, ImportedTexture, TextureData};
use atlas_core::renderer::deferred::{init_render_pass, RecreateOutcome, Recreation, SwapchainRequest};
use atlas_core::renderer::triangle_draw_system::{TriangleDrawSystem, Vertex2D};
use atlas_core::resources::{Extent, Format, SwapchainImage};
use atlas_core::system::{init, AcquireOutcome, FlushOutcome, Submission, Swapchain, SystemInfo};
use atlas_core::texture::load_png;

const PIXEL: [u8; 69] = [
    137, 80, 78, 71, 13, 10, 26, 10, 0, 0, 0, 13, 73, 72, 68, 82, 0, 0, 0, 1, 0, 0, 0, 1, 8, 2, 0, 0, 0, 144,
    119, 83, 222, 0, 0, 0, 12, 73, 68, 65, 84, 120, 156, 99, 56, 145, 98, 4, 0, 3, 86, 1, 95, 232, 23, 132, 82,
    0, 0, 0, 0, 73, 69, 78, 68, 174, 66, 96, 130,
];

#[test]
fn quad_has_six_vertices_in_two_triangles() {
    let quad = TriangleDrawSystem::new();
    assert_eq!(
        quad.vertex_buffer,
        vec![
            Vertex2D { x: 1, y: -1 },
            Vertex2D { x: -1, y: -1 },
            Vertex2D { x: 1, y: 1 },
            Vertex2D { x: -1, y: -1 },
            Vertex2D { x: -1, y: 1 },
            Vertex2D { x: 1, y: 1 },
        ]
    );
}

#[test]
fn one_textured_quad_one_frame() {
    let scene = ImportedScene {
        meshes: vec![ImportedMesh {
            vertex_count: 4,
            normal_count: 4,
            tex_coord_count: Some(4),
            faces: vec![vec![0, 1, 2], vec![2, 3, 0]],
            material_index: 0,
        }],
        materials: vec![ImportedMaterial {
            base_color: Some(ImportedTexture {
                path: String::new(),
                format_hint: "png".to_string(),
                data: Some(TextureData::Bytes(PIXEL.to_vec())),
            }),
        }],
    };
    let mesh = load_gltf(&scene, "assets/").unwrap();
    assert_eq!(mesh.mesh_buffers.len(), 1);
    let set = mesh.mesh_buffers[0].material.uniform_set.as_ref().unwrap();
    let texture = match &set.texture {
        atlas_core::mesh::TextureSource::Embedded { bytes } => load_png(bytes).unwrap(),
        other => panic!("expected the embedded texture, found {:?}", other),
    };
    assert_eq!((texture.width, texture.height), (1, 1));
    assert_eq!(texture.pixels, vec![200, 100, 50, 255]);

    let extent = Extent { width: 800, height: 600 };
    let mut system = init(
        SystemInfo { device_name: String::new(), device_type: String::new() },
        Swapchain { image_format: Format::B8G8R8A8Srgb, image_extent: extent },
        vec![SwapchainImage { extent }; 2],
        0,
    );
    let mut pass = init_render_pass(&mut system);
    let mut egui = get_egui_context(&pass.render_pass);

    assert_eq!(system.cleanup_finished(), None);
    assert_eq!(pass.swapchain_request(&system, extent), SwapchainRequest::Recreate { extent });
    let outcome = RecreateOutcome::Recreated {
        swapchain: Swapchain { image_format: Format::B8G8R8A8Srgb, image_extent: extent },
        images: vec![SwapchainImage { extent }; 2],
    };
    assert_eq!(pass.handle_recreate_swapchain(&mut system, outcome), Ok(Recreation::Rebuilt));
    let image_num = system.acquire_image(AcquireOutcome::Acquired { image_num: 1, suboptimal: false }).unwrap();
    let wait = egui.update_textures_egui(&mut pass.params, None, UpdateTexturesResult::Changed);
    let commands = record_frame(&mut system, &mut pass, &mut egui, &mesh, image_num);
    assert_eq!(
        commands,
        vec![
            Command::BeginRenderPass { target: RenderTarget::Swapchain { image: 1 } },
            Command::SetViewport { width: 800, height: 600 },
            Command::BindPipeline { pipeline: PipelineKind::Deferred },
            Command::BindDescriptorSets {
                pipeline: PipelineKind::Deferred,
                first: DescriptorSetRef::Camera,
                second: Some(DescriptorSetRef::Material { submesh: 0 }),
            },
            Command::BindVertexBuffers { source: VertexSource::Submesh { submesh: 0 } },
            Command::BindIndexBuffer { submesh: 0 },
            Command::DrawIndexed { index_count: 6, instance_count: 1 },
            Command::NextSubpass,
            Command::BindPipeline { pipeline: PipelineKind::Lighting },
            Command::BindDescriptorSets {
                pipeline: PipelineKind::Lighting,
                first: DescriptorSetRef::Lighting,
                second: None,
            },
            Command::BindVertexBuffers { source: VertexSource::FullscreenQuad },
            Command::Draw { vertex_count: 6, instance_count: 1 },
            Command::DrawOverlay,
            Command::EndRenderPass,
        ]
    );
    assert_eq!(system.submission(image_num, wait), Submission { wait_on: None, after: None, image_num: 1 });
    system.finish_frame(FlushOutcome::Flushed { fence: 1 });
    assert_eq!(system.cleanup_finished(), Some(1));
    assert_eq!(system.submission(0, wait), Submission { wait_on: Some(1), after: Some(1), image_num: 0 });
}

#[test]
fn geometry_is_drawn_before_lighting_and_lighting_before_the_overlay() {
    let scene = ImportedScene {
        meshes: vec![
            ImportedMesh {
                vertex_count: 3,
                normal_count: 3,
                tex_coord_count: Some(3),
                faces: vec![vec![0, 1, 2]],
                material_index: 0,
            },
            ImportedMesh {
                vertex_count: 3,
                normal_count: 3,
                tex_coord_count: Some(3),
                faces: vec![vec![0, 1, 2], vec![0, 2, 1], vec![1, 0, 2]],
                material_index: 0,
            },
        ],
        materials: vec![ImportedMaterial { base_color: None }],
    };
    let mesh = load_gltf(&scene, "").unwrap();
    let extent = Extent { width: 64, height: 64 };
    let mut system = init(
        SystemInfo { device_name: String::new(), device_type: String::new() },
        Swapchain { image_format: Format::B8G8R8A8Srgb, image_extent: extent },
        vec![SwapchainImage { extent }; 3],
        0,
    );
    let mut pass = init_render_pass(&mut system);
    let mut egui = get_egui_context(&pass.render_pass);
    let commands = record_frame(&mut system, &mut pass, &mut egui, &mesh, 0);

    let position = |wanted: Command| commands.iter().position(|c| *c == wanted).unwrap();
    let first_draw = position(Command::DrawIndexed { index_count: 3, instance_count: 1 });
    let second_draw = position(Command::DrawIndexed { index_count: 9, instance_count: 1 });
    let lighting = position(Command::Draw { vertex_count: 6, instance_count: 1 });
    let overlay = position(Command::DrawOverlay);
    assert!(first_draw < second_draw);
    assert!(second_draw < lighting);
    assert!(lighting < overlay);
    assert_eq!(commands.iter().filter(|c| **c == Command::NextSubpass).count(), 1);
    assert_eq!(commands.len(), 3 + 2 * 4 + 5 + 1 + 1);
    assert_eq!(commands[0], Command::BeginRenderPass { target: RenderTarget::Swapchain { image: 0 } });
    assert_eq!(commands[commands.len() - 1], Command::EndRenderPass);
}
