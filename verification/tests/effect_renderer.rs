use korangar::effect_renderer::{
    effect_render_commands, effect_sampler_description, AttachmentBlend, RenderCommand, SamplerType,
    bind_group_entries, bind_group_layout_entries, effect_constants, effect_draw_call,
    effect_pipeline_description, push_constant_ranges, push_constant_write, BindGroupEntry,
    BindGroupLayoutEntry, BindingResource, BindingType, DrawCall, PrimitiveTopology,
    PushConstantRange, PushConstantWrite, ShaderStages, EFFECT_CONSTANTS_SIZE, EFFECT_LABEL,
    EFFECT_SAMPLER_LABEL, FRAGMENT_ENTRY_POINT, PUSH_CONSTANT_ALIGNMENT, VERTEX_ENTRY_POINT,
};

#[test]
fn bind_group_layout_has_texture_then_sampler() {
    let fragment = ShaderStages { vertex: false, fragment: true };
    assert_eq!(
        bind_group_layout_entries(),
        vec![
            BindGroupLayoutEntry {
                binding: 0,
                visibility: fragment,
                ty: BindingType::Texture { filterable: true, multisampled: false },
            },
            BindGroupLayoutEntry {
                binding: 1,
                visibility: fragment,
                ty: BindingType::Sampler { filtering: true },
            },
        ]
    );
}

#[test]
fn bind_group_fills_every_layout_slot_with_its_kind() {
    let layout = bind_group_layout_entries();
    let entries = bind_group_entries();
    assert_eq!(
        entries,
        vec![
            BindGroupEntry { binding: 0, resource: BindingResource::TextureView },
            BindGroupEntry { binding: 1, resource: BindingResource::Sampler },
        ]
    );
    assert_eq!(layout.len(), entries.len());
    for entry in &entries {
        let slot = layout.iter().find(|slot| slot.binding == entry.binding).unwrap();
        match entry.resource {
            BindingResource::TextureView => assert!(matches!(slot.ty, BindingType::Texture { .. })),
            BindingResource::Sampler => assert!(matches!(slot.ty, BindingType::Sampler { .. })),
        }
    }
}

#[test]
fn push_constants_cover_eighty_bytes_for_both_stages() {
    let both = ShaderStages { vertex: true, fragment: true };
    assert_eq!(EFFECT_CONSTANTS_SIZE, 80);
    assert_eq!(push_constant_ranges(), vec![PushConstantRange { stages: both, start: 0, end: 80 }]);
    assert_eq!(push_constant_write(), PushConstantWrite { stages: both, offset: 0, size: 80 });
}

#[test]
fn push_constant_write_lies_in_declared_range() {
    let write = push_constant_write();
    assert_eq!(write.offset % PUSH_CONSTANT_ALIGNMENT, 0);
    assert_eq!(write.size % PUSH_CONSTANT_ALIGNMENT, 0);
    assert!(push_constant_ranges().iter().any(|range| range.stages == write.stages
        && range.start <= write.offset
        && write.offset + write.size <= range.end));
}

#[test]
fn one_quad_is_six_vertices_of_one_instance() {
    assert_eq!(
        effect_draw_call(),
        DrawCall { first_vertex: 0, vertex_end: 6, first_instance: 0, instance_end: 1 }
    );
}

#[test]
fn pipeline_description_matches_shader_and_layout() {
    let description = effect_pipeline_description();
    assert_eq!(description.label, "effect");
    assert_eq!(EFFECT_LABEL, "effect");
    assert_eq!(EFFECT_SAMPLER_LABEL, "effect linear");
    assert_eq!(description.vertex_entry_point, "vs_main");
    assert_eq!(VERTEX_ENTRY_POINT, "vs_main");
    assert_eq!(description.fragment_entry_point, "fs_main");
    assert_eq!(FRAGMENT_ENTRY_POINT, "fs_main");
    assert_eq!(description.vertex_buffer_count, 0);
    assert_eq!(description.topology, PrimitiveTopology::TriangleList);
    assert!(!description.depth_test);
    assert_eq!(description.sample_count, 1);
    assert_eq!(description.color_target_count, 1);
    assert!(description.writes_all_channels);
    assert_eq!(description.blend, Some(AttachmentBlend::Effect));
    assert_eq!(description.multiview, None);
    assert!(!description.uses_pipeline_cache);
    assert_eq!(description.bind_group_layout_count, 1);
    assert_eq!(description.push_constant_ranges, push_constant_ranges());
}

#[test]
fn constants_place_corners_and_color_halves() {
    let constants = effect_constants([10u8, 11, 12, 13], [20u8, 21, 22, 23], [1u16, 2, 3, 4]);
    assert_eq!(constants.top_left, 10);
    assert_eq!(constants.top_right, 11);
    assert_eq!(constants.bottom_left, 12);
    assert_eq!(constants.bottom_right, 13);
    assert_eq!(constants.texture_bottom_right, 20);
    assert_eq!(constants.texture_top_right, 21);
    assert_eq!(constants.texture_top_left, 22);
    assert_eq!(constants.texture_bottom_left, 23);
    assert_eq!(constants.color0, [1, 2]);
    assert_eq!(constants.color1, [3, 4]);
}

#[test]
fn constants_carry_float_vectors_unchanged() {
    let clip = [[-1.0f32, 1.0], [1.0, 1.0], [-1.0, -1.0], [1.0, -1.0]];
    let texture = [[1.0f32, 1.0], [1.0, 0.0], [0.0, 0.0], [0.0, 1.0]];
    let constants = effect_constants(clip, texture, [0.5f32, 0.25, 0.125, 1.0]);
    assert_eq!(constants.top_left, [-1.0, 1.0]);
    assert_eq!(constants.bottom_right, [1.0, -1.0]);
    assert_eq!(constants.texture_top_left, [0.0, 0.0]);
    assert_eq!(constants.texture_bottom_right, [1.0, 1.0]);
    assert_eq!(constants.color0, [0.5, 0.25]);
    assert_eq!(constants.color1, [0.125, 1.0]);
}

#[test]
fn sampler_is_linear_and_labelled() {
    let sampler = effect_sampler_description();
    assert_eq!(sampler.label, "effect linear");
    assert_eq!(sampler.ty, SamplerType::Linear);
}

#[test]
fn newly_bound_quad_binds_the_pipeline_first() {
    let both = ShaderStages { vertex: true, fragment: true };
    assert_eq!(
        effect_render_commands(true),
        vec![
            RenderCommand::SetPipeline,
            RenderCommand::SetPushConstants(PushConstantWrite { stages: both, offset: 0, size: 80 }),
            RenderCommand::SetBindGroup { index: 0, dynamic_offset_count: 0 },
            RenderCommand::Draw(DrawCall { first_vertex: 0, vertex_end: 6, first_instance: 0, instance_end: 1 }),
        ]
    );
}

#[test]
fn already_bound_quad_skips_the_pipeline() {
    let both = ShaderStages { vertex: true, fragment: true };
    assert_eq!(
        effect_render_commands(false),
        vec![
            RenderCommand::SetPushConstants(PushConstantWrite { stages: both, offset: 0, size: 80 }),
            RenderCommand::SetBindGroup { index: 0, dynamic_offset_count: 0 },
            RenderCommand::Draw(DrawCall { first_vertex: 0, vertex_end: 6, first_instance: 0, instance_end: 1 }),
        ]
    );
}
