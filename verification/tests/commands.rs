use atlas_core::commands::{
    next_state, BoundSets, Command, CommandBuilder, DescriptorSetRef, PipelineKind, Recording, RenderTarget, Stage,
    VertexSource,
};

fn entered(stage: Stage) -> Recording {
    Recording { stage, viewport: false, pipeline: None, sets: None, vertices: None, indices: None }
}

fn begin(target: RenderTarget) -> Command {
    Command::BeginRenderPass { target }
}

fn bind_sets(pipeline: PipelineKind, first: DescriptorSetRef, second: Option<DescriptorSetRef>) -> Command {
    Command::BindDescriptorSets { pipeline, first, second }
}

fn draw_indexed() -> Command {
    Command::DrawIndexed { index_count: 3, instance_count: 1 }
}

fn draw_quad() -> Command {
    Command::Draw { vertex_count: 6, instance_count: 1 }
}

/// Records everything up to, but not including, the draw of submesh 0.
fn ready_for_geometry(builder: &mut CommandBuilder) {
    for command in [
        begin(RenderTarget::Swapchain { image: 0 }),
        Command::SetViewport { width: 800, height: 600 },
        Command::BindPipeline { pipeline: PipelineKind::Deferred },
        bind_sets(
            PipelineKind::Deferred,
            DescriptorSetRef::Camera,
            Some(DescriptorSetRef::Material { submesh: 0 }),
        ),
        Command::BindVertexBuffers { source: VertexSource::Submesh { submesh: 0 } },
        Command::BindIndexBuffer { submesh: 0 },
    ] {
        assert!(builder.record(command), "{:?} should be admitted", command);
    }
}

#[test]
fn new_builder_is_empty_and_ready() {
    let builder = CommandBuilder::new();
    assert!(builder.commands().is_empty());
    assert_eq!(builder.stage(), Stage::Ready);
    assert_eq!(builder.state(), entered(Stage::Ready));
}

#[test]
fn nothing_but_a_render_pass_begins_outside_a_render_pass() {
    let mut builder = CommandBuilder::new();
    for command in [
        draw_indexed(),
        draw_quad(),
        Command::NextSubpass,
        Command::EndRenderPass,
        Command::DrawOverlay,
        Command::SetViewport { width: 1, height: 1 },
        Command::BindPipeline { pipeline: PipelineKind::Deferred },
        Command::BindIndexBuffer { submesh: 0 },
    ] {
        assert!(!builder.record(command), "{:?} should be refused", command);
    }
    assert!(builder.commands().is_empty());
    assert_eq!(builder.state(), entered(Stage::Ready));
}

#[test]
fn indexed_draw_needs_everything_bound() {
    let mut builder = CommandBuilder::new();
    for command in [
        begin(RenderTarget::Swapchain { image: 0 }),
        Command::SetViewport { width: 800, height: 600 },
        Command::BindPipeline { pipeline: PipelineKind::Deferred },
        bind_sets(
            PipelineKind::Deferred,
            DescriptorSetRef::Camera,
            Some(DescriptorSetRef::Material { submesh: 0 }),
        ),
        Command::BindVertexBuffers { source: VertexSource::Submesh { submesh: 0 } },
        Command::BindIndexBuffer { submesh: 0 },
    ] {
        assert!(!builder.record(draw_indexed()), "a draw before {:?} should be refused", command);
        assert!(builder.record(command));
    }
    assert!(builder.record(draw_indexed()));
    assert_eq!(builder.commands().len(), 7);
    assert_eq!(
        builder.state(),
        Recording {
            stage: Stage::Geometry,
            viewport: true,
            pipeline: Some(PipelineKind::Deferred),
            sets: Some(BoundSets {
                first: DescriptorSetRef::Camera,
                second: Some(DescriptorSetRef::Material { submesh: 0 }),
            }),
            vertices: Some(VertexSource::Submesh { submesh: 0 }),
            indices: Some(0),
        }
    );
}

#[test]
fn indexed_draw_needs_the_bindings_of_one_submesh() {
    let mut builder = CommandBuilder::new();
    ready_for_geometry(&mut builder);
    assert!(builder.record(Command::BindIndexBuffer { submesh: 1 }));
    assert!(!builder.record(draw_indexed()));
    assert!(builder.record(Command::BindVertexBuffers { source: VertexSource::Submesh { submesh: 1 } }));
    assert!(!builder.record(draw_indexed()));
    assert!(builder.record(bind_sets(
        PipelineKind::Deferred,
        DescriptorSetRef::Camera,
        Some(DescriptorSetRef::Material { submesh: 1 }),
    )));
    assert!(builder.record(draw_indexed()));
}

#[test]
fn binding_a_pipeline_unbinds_the_descriptor_sets() {
    let mut builder = CommandBuilder::new();
    ready_for_geometry(&mut builder);
    assert!(builder.record(Command::BindPipeline { pipeline: PipelineKind::Deferred }));
    assert_eq!(builder.state().sets, None);
    assert!(!builder.record(draw_indexed()));
}

#[test]
fn descriptor_sets_must_suit_the_bound_pipeline() {
    let material = Some(DescriptorSetRef::Material { submesh: 0 });
    let geometry = Recording { pipeline: Some(PipelineKind::Deferred), ..entered(Stage::Geometry) };
    assert!(next_state(geometry, bind_sets(PipelineKind::Deferred, DescriptorSetRef::Camera, material)).is_some());
    assert_eq!(next_state(geometry, bind_sets(PipelineKind::Deferred, DescriptorSetRef::Light, material)), None);
    assert_eq!(next_state(geometry, bind_sets(PipelineKind::Deferred, DescriptorSetRef::Camera, None)), None);
    assert_eq!(
        next_state(
            geometry,
            bind_sets(PipelineKind::Deferred, DescriptorSetRef::Camera, Some(DescriptorSetRef::Lighting))
        ),
        None
    );
    assert_eq!(next_state(geometry, bind_sets(PipelineKind::ShadowMap, DescriptorSetRef::Light, material)), None);
    assert_eq!(
        next_state(
            entered(Stage::Geometry),
            bind_sets(PipelineKind::Deferred, DescriptorSetRef::Camera, material)
        ),
        None
    );

    let shadows = Recording { pipeline: Some(PipelineKind::ShadowMap), ..entered(Stage::ShadowMap) };
    assert!(next_state(shadows, bind_sets(PipelineKind::ShadowMap, DescriptorSetRef::Light, material)).is_some());
    assert_eq!(next_state(shadows, bind_sets(PipelineKind::ShadowMap, DescriptorSetRef::Camera, material)), None);

    let lighting = Recording { pipeline: Some(PipelineKind::Lighting), ..entered(Stage::Lighting) };
    assert!(next_state(lighting, bind_sets(PipelineKind::Lighting, DescriptorSetRef::Lighting, None)).is_some());
    assert_eq!(next_state(lighting, bind_sets(PipelineKind::Lighting, DescriptorSetRef::Camera, None)), None);
    assert_eq!(next_state(lighting, bind_sets(PipelineKind::Lighting, DescriptorSetRef::Lighting, material)), None);
}

#[test]
fn geometry_draw_after_lighting_began_is_refused() {
    let mut builder = CommandBuilder::new();
    ready_for_geometry(&mut builder);
    assert!(builder.record(draw_indexed()));
    assert!(builder.record(Command::NextSubpass));
    assert_eq!(builder.state(), Recording { viewport: true, ..entered(Stage::Lighting) });
    for command in [
        draw_indexed(),
        Command::BindIndexBuffer { submesh: 0 },
        Command::BindVertexBuffers { source: VertexSource::Submesh { submesh: 0 } },
        Command::BindPipeline { pipeline: PipelineKind::Deferred },
        begin(RenderTarget::Swapchain { image: 0 }),
    ] {
        assert!(!builder.record(command), "{:?} should be refused", command);
    }
    assert_eq!(builder.commands().len(), 8);
    assert!(builder.record(Command::NextSubpass));
    assert_eq!(builder.stage(), Stage::Overlay);
    for command in [draw_indexed(), draw_quad(), Command::DrawOverlay, Command::NextSubpass] {
        assert!(!builder.record(command), "{:?} should be refused", command);
    }
    assert!(builder.record(Command::EndRenderPass));
    assert_eq!(builder.state(), entered(Stage::Ready));
}

#[test]
fn quad_draw_needs_everything_bound() {
    let mut builder = CommandBuilder::new();
    assert!(builder.record(begin(RenderTarget::Swapchain { image: 0 })));
    assert!(builder.record(Command::SetViewport { width: 800, height: 600 }));
    for command in [
        Command::NextSubpass,
        Command::BindPipeline { pipeline: PipelineKind::Lighting },
        bind_sets(PipelineKind::Lighting, DescriptorSetRef::Lighting, None),
        Command::BindVertexBuffers { source: VertexSource::FullscreenQuad },
    ] {
        assert!(!builder.record(draw_quad()), "a draw before {:?} should be refused", command);
        assert!(builder.record(command));
    }
    assert!(builder.record(draw_quad()));
}

#[test]
fn quad_draw_needs_a_viewport() {
    let mut builder = CommandBuilder::new();
    for command in [
        begin(RenderTarget::Swapchain { image: 0 }),
        Command::NextSubpass,
        Command::BindPipeline { pipeline: PipelineKind::Lighting },
        bind_sets(PipelineKind::Lighting, DescriptorSetRef::Lighting, None),
        Command::BindVertexBuffers { source: VertexSource::FullscreenQuad },
    ] {
        assert!(builder.record(command));
    }
    assert!(!builder.record(draw_quad()));
    assert!(builder.record(Command::SetViewport { width: 800, height: 600 }));
    assert!(builder.record(draw_quad()));
}

#[test]
fn deferred_pass_cannot_end_before_the_overlay() {
    let mut builder = CommandBuilder::new();
    assert!(builder.record(begin(RenderTarget::Swapchain { image: 1 })));
    assert!(!builder.record(Command::EndRenderPass));
    assert!(builder.record(Command::NextSubpass));
    assert!(!builder.record(Command::EndRenderPass));
    assert!(builder.record(Command::NextSubpass));
    assert!(builder.record(Command::EndRenderPass));
}

#[test]
fn render_pass_cannot_begin_inside_another() {
    let mut builder = CommandBuilder::new();
    assert!(builder.record(begin(RenderTarget::ShadowMap)));
    assert_eq!(builder.stage(), Stage::ShadowMap);
    assert!(!builder.record(begin(RenderTarget::Swapchain { image: 0 })));
    assert!(!builder.record(begin(RenderTarget::ShadowMap)));
    assert!(!builder.record(Command::NextSubpass));
    assert!(builder.record(Command::EndRenderPass));
    assert!(builder.record(begin(RenderTarget::Swapchain { image: 0 })));
}

#[test]
fn each_stage_binds_only_its_own_pipeline() {
    let bind = |pipeline| Command::BindPipeline { pipeline };
    for (stage, own) in [
        (Stage::Geometry, PipelineKind::Deferred),
        (Stage::Lighting, PipelineKind::Lighting),
        (Stage::ShadowMap, PipelineKind::ShadowMap),
    ] {
        for pipeline in [PipelineKind::Deferred, PipelineKind::Lighting, PipelineKind::ShadowMap] {
            let next = next_state(entered(stage), bind(pipeline));
            if pipeline == own {
                assert_eq!(next, Some(Recording { pipeline: Some(own), ..entered(stage) }));
            } else {
                assert_eq!(next, None);
            }
        }
    }
    assert_eq!(next_state(entered(Stage::Overlay), bind(PipelineKind::Lighting)), None);
    assert_eq!(next_state(entered(Stage::Ready), bind(PipelineKind::Deferred)), None);
}

#[test]
fn vertex_buffers_belong_to_their_stage() {
    let quad = Command::BindVertexBuffers { source: VertexSource::FullscreenQuad };
    let submesh = Command::BindVertexBuffers { source: VertexSource::Submesh { submesh: 4 } };
    assert!(next_state(entered(Stage::Lighting), quad).is_some());
    assert_eq!(next_state(entered(Stage::Lighting), submesh), None);
    assert_eq!(next_state(entered(Stage::Geometry), quad), None);
    assert_eq!(next_state(entered(Stage::ShadowMap), quad), None);
    assert_eq!(
        next_state(entered(Stage::Geometry), submesh),
        Some(Recording { vertices: Some(VertexSource::Submesh { submesh: 4 }), ..entered(Stage::Geometry) })
    );
    assert!(next_state(entered(Stage::ShadowMap), submesh).is_some());
    assert_eq!(next_state(entered(Stage::Overlay), submesh), None);
}

#[test]
fn next_subpass_keeps_the_viewport_and_nothing_else() {
    let mut builder = CommandBuilder::new();
    ready_for_geometry(&mut builder);
    assert!(builder.record(Command::NextSubpass));
    assert_eq!(builder.state(), Recording { viewport: true, ..entered(Stage::Lighting) });
}

#[test]
fn overlay_draw_moves_from_lighting_to_the_overlay_subpass() {
    assert_eq!(next_state(entered(Stage::Lighting), Command::DrawOverlay), Some(entered(Stage::Overlay)));
    for stage in [Stage::Ready, Stage::Geometry, Stage::Overlay, Stage::ShadowMap] {
        assert_eq!(next_state(entered(stage), Command::DrawOverlay), None);
    }
}

#[test]
fn refused_command_leaves_the_builder_unchanged() {
    let mut builder = CommandBuilder::new();
    ready_for_geometry(&mut builder);
    let commands = builder.commands().clone();
    let state = builder.state();
    assert!(!builder.record(draw_quad()));
    assert!(!builder.record(Command::DrawOverlay));
    assert_eq!(*builder.commands(), commands);
    assert_eq!(builder.state(), state);
}

#[test]
fn build_hands_out_commands_in_recording_order() {
    let mut builder = CommandBuilder::new();
    assert!(builder.record(begin(RenderTarget::ShadowMap)));
    assert!(builder.record(Command::SetViewport { width: 3000, height: 2000 }));
    builder.end_render_pass();
    assert_eq!(
        builder.build(),
        vec![
            begin(RenderTarget::ShadowMap),
            Command::SetViewport { width: 3000, height: 2000 },
            Command::EndRenderPass,
        ]
    );
}
