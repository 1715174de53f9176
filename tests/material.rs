use gamekit::device::DeviceFeatures;
use gamekit::manifest::StaticMaterialDescriptor;
use gamekit::material::{
    DescriptorWrite, Materials, WriteSource,
    DescriptorKind, DynamicState, LayoutBinding, Material, MaterialState, PoolSize, ShaderBinding, ShaderStage,
    ShaderType, UniformBinding,
};
use gamekit::render_state::{BlendFactor, BlendMode, CullMode, FrontFace, RenderState};

fn features(ds3: bool) -> DeviceFeatures {
    DeviceFeatures { dynamic_state: true, dynamic_state_3: ds3 }
}

#[test]
fn second_bind_does_not_rebuild() {
    let mut m = Material::new();
    m.add_shader(ShaderBinding { shader: 7, shader_type: ShaderType::VERTEX_SHADER });
    let first = m.bind(&features(false), 2, 0, &vec![]);
    assert!(first.build.is_some());
    assert!(!first.build.unwrap().release_previous);
    let second = m.bind(&features(false), 2, 1, &vec![]);
    assert!(second.build.is_none());
    assert_eq!(m.state(), MaterialState::Compiled);
}

#[test]
fn mutation_after_compile_rebuilds_fully() {
    let mut m = Material::new();
    assert_eq!(m.state(), MaterialState::Uncompiled);
    m.bind(&features(false), 2, 0, &vec![]);
    m.add_uniform(UniformBinding { binding: 0, dynamic: false });
    assert_eq!(m.state(), MaterialState::Invalidated);
    let plan = m.bind(&features(false), 2, 0, &vec![0]);
    let build = plan.build.unwrap();
    assert!(build.release_previous);
    assert_eq!(build.layout_bindings, vec![LayoutBinding { binding: 0, kind: DescriptorKind::UniformBuffer }]);
    assert!(m.bind(&features(false), 2, 0, &vec![0]).build.is_none());
}

#[test]
fn build_describes_layout_and_pool() {
    let mut m = Material::new();
    m.add_uniform(UniformBinding { binding: 0, dynamic: false });
    m.add_uniform(UniformBinding { binding: 2, dynamic: true });
    m.add_uniform(UniformBinding { binding: 3, dynamic: true });
    m.add_texture(42, 1, true);
    m.add_shader(ShaderBinding { shader: 1, shader_type: ShaderType::VERTEX_SHADER });
    m.add_shader(ShaderBinding { shader: 2, shader_type: ShaderType::FRAGMENT_SHADER });
    m.add_push_constants(16);
    let build = m.validate(&features(false), 2).unwrap();
    assert_eq!(
        build.layout_bindings,
        vec![
            LayoutBinding { binding: 0, kind: DescriptorKind::UniformBuffer },
            LayoutBinding { binding: 2, kind: DescriptorKind::UniformBufferDynamic },
            LayoutBinding { binding: 3, kind: DescriptorKind::UniformBufferDynamic },
            LayoutBinding { binding: 1, kind: DescriptorKind::CombinedImageSampler },
        ]
    );
    assert_eq!(
        build.pool_sizes,
        vec![
            PoolSize { kind: DescriptorKind::UniformBuffer, count: 2 },
            PoolSize { kind: DescriptorKind::UniformBufferDynamic, count: 4 },
            PoolSize { kind: DescriptorKind::CombinedImageSampler, count: 2 },
        ]
    );
    assert_eq!(build.descriptor_sets, 2);
    assert_eq!(build.stages[0].stage, ShaderStage::Vertex);
    assert_eq!(build.stages[1].stage, ShaderStage::Fragment);
    assert_eq!(build.stages[1].shader, 2);
    assert_eq!(build.push_constant_ranges.len(), 1);
    assert_eq!(build.push_constant_ranges[0].size, 16);
    assert!(m.validate(&features(false), 2).is_none());
}

#[test]
fn material_without_bindings_has_no_descriptor_sets() {
    let mut m = Material::new();
    let plan = m.bind(&features(false), 2, 1, &vec![]);
    let build = plan.build.unwrap();
    assert!(build.layout_bindings.is_empty());
    assert!(build.pool_sizes.is_empty());
    assert_eq!(build.descriptor_sets, 0);
    assert_eq!(plan.descriptor_set, None);
}

#[test]
fn bind_collects_dynamic_offsets_in_order() {
    let mut m = Material::new();
    m.add_uniform(UniformBinding { binding: 0, dynamic: true });
    m.add_uniform(UniformBinding { binding: 1, dynamic: false });
    m.add_uniform(UniformBinding { binding: 2, dynamic: true });
    let plan = m.bind(&features(false), 2, 1, &vec![256, 0, 512]);
    assert_eq!(plan.dynamic_offsets, vec![256, 512]);
    assert_eq!(plan.descriptor_set, Some(1));
}

#[test]
fn dynamic_states_follow_capabilities() {
    let mut m = Material::new();
    let without = m.validate(&features(false), 2).unwrap();
    assert_eq!(
        without.dynamic_states,
        vec![
            DynamicState::Viewport,
            DynamicState::Scissor,
            DynamicState::DepthTestEnable,
            DynamicState::DepthWriteEnable,
            DynamicState::CullMode,
            DynamicState::FrontFace,
        ]
    );
    let mut m3 = Material::new();
    let with = m3.validate(&features(true), 2).unwrap();
    assert_eq!(with.dynamic_states.len(), 8);
    assert_eq!(with.dynamic_states[6], DynamicState::ColorBlendEnable);
    assert_eq!(with.dynamic_states[7], DynamicState::ColorBlendEquation);
}

#[test]
fn bind_pushes_render_state() {
    let mut m = Material::new();
    m.set_backface_culling(false).set_frontface_clockwise(true).set_blend_mode(BlendMode::ADDITIVE);
    let plan = m.bind(&features(true), 2, 0, &vec![]);
    assert_eq!(plan.render_state.cull_mode, CullMode::Disabled);
    assert_eq!(plan.render_state.front_face, FrontFace::Clockwise);
    let blend = plan.render_state.blend.unwrap();
    assert!(blend.enable);
    assert_eq!(blend.equation.src_color, BlendFactor::SrcAlpha);
    assert_eq!(blend.equation.dst_color, BlendFactor::One);
    assert!(!m.render_state().modified);
    let plan2 = m.bind(&features(false), 2, 0, &vec![]);
    assert!(plan2.render_state.blend.is_none());
}

#[test]
fn depth_testing_setter_leaves_culling_alone() {
    let mut s = RenderState::default();
    assert!(s.backface_culling);
    s.set_depth_testing(true);
    assert!(s.depth_testing);
    assert!(s.backface_culling);
    s.set_backface_culling(false);
    assert!(s.depth_testing);
    assert!(!s.backface_culling);
    s.set_depth_testing(false);
    assert!(!s.backface_culling);
}

#[test]
fn setter_marks_modified_only_on_change() {
    let mut s = RenderState::default();
    s.modified = false;
    s.set_blending(true);
    assert!(!s.modified);
    s.set_blending(false);
    assert!(s.modified);
    let mut t = RenderState::default();
    t.modified = false;
    t.copy(&s);
    assert!(!t.enable_blending);
    assert!(t.modified);
    t.invalidate();
    assert!(t.modified);
}

#[test]
fn blend_mode_names() {
    assert_eq!(BlendMode::from_string("additive"), BlendMode::ADDITIVE);
    assert_eq!(BlendMode::from_string("multiply"), BlendMode::MULTIPLY);
    assert_eq!(BlendMode::from_string("normal"), BlendMode::NORMAL);
    assert_eq!(BlendMode::from_string(""), BlendMode::NORMAL);
}

#[test]
fn material_from_static_descriptor() {
    let d = StaticMaterialDescriptor::new(
        "sprites", "", "atlas", 1, true, "sprite.vert", "sprite.frag", true, "multiply", false, true, true, false,
    );
    let m = Material::from_static(&d, 100, 200, 300, 400);
    assert_eq!(m.font(), None);
    assert_eq!(m.textures().len(), 1);
    assert_eq!(m.textures()[0].texture, 200);
    assert_eq!(m.textures()[0].binding, 1);
    assert_eq!(m.shaders().len(), 2);
    assert_eq!(m.shaders()[0], ShaderBinding { shader: 300, shader_type: ShaderType::VERTEX_SHADER });
    assert_eq!(m.shaders()[1], ShaderBinding { shader: 400, shader_type: ShaderType::FRAGMENT_SHADER });
    let rs = m.render_state();
    assert_eq!(rs.blend_mode, BlendMode::MULTIPLY);
    assert!(!rs.backface_culling);
    assert!(rs.frontface_clockwise);
    assert!(rs.depth_testing);
    assert!(!rs.depth_writing);
    assert_eq!(m.state(), MaterialState::Uncompiled);
}

#[test]
fn material_font_and_push_constants() {
    let mut m = Material::new();
    m.set_font(9).add_push_constants(64);
    assert_eq!(m.font(), Some(9));
    assert_eq!(m.push_constant_ranges()[0].size, 64);
    assert_eq!(m.uniforms().len(), 0);
}

#[test]
fn descriptor_writes_skip_unassigned_textures() {

    let mut m = Material::new();
    m.add_uniform(UniformBinding { binding: 0, dynamic: true });
    m.add_texture(1, u32::MAX, false);
    m.add_texture(2, 3, true);
    let build = m.validate(&features(false), 2).unwrap();
    assert_eq!(
        build.descriptor_writes,
        vec![
            DescriptorWrite { binding: 0, kind: DescriptorKind::UniformBufferDynamic, source: WriteSource::Uniform(0) },
            DescriptorWrite { binding: 3, kind: DescriptorKind::CombinedImageSampler, source: WriteSource::Texture(1) },
        ]
    );
}

#[test]
fn materials_by_name() {

    let mut ms = Materials::new();
    assert!(ms.get_default().is_none());
    let mut a = Material::new();
    a.set_font(1);
    ms.add_material("sprites", a);
    ms.add_material("text", Material::new());
    assert_eq!(ms.len(), 2);
    assert_eq!(ms.index_of("text"), Some(1));
    assert!(ms.get("missing").is_none());
    assert_eq!(ms.get_default().unwrap().font(), Some(1));
    let mut b = Material::new();
    b.set_font(2);
    ms.add_material("sprites", b);
    assert_eq!(ms.len(), 2);
    assert_eq!(ms.get("sprites").unwrap().font(), Some(2));
    let builds = ms.compile(&features(false), 2);
    assert_eq!(builds.len(), 2);
    assert!(builds.iter().all(|b| b.is_some()));
    assert!(ms.compile(&features(false), 2).iter().all(|b| b.is_none()));
}
