use prism::gbuffer::{
    bind_group_entries, color_attachments, gbuffer_targets, layout_entries, sampler_desc,
    target_formats, texture_desc, BindingType, BoundResource, FilterMode, GBufferPlan,
    GBufferTarget, LoadOp, ShaderStage, StoreOp, TargetFormat, BlendMode, WriteMask,
    TextureDimension, TextureAspect, layout_desc, bind_group_desc, default_view,
};

#[test]
fn target_formats_in_order() {
    let formats: Vec<TargetFormat> = target_formats().iter().map(|c| c.format).collect();
    assert_eq!(formats, vec![TargetFormat::Rgba8Unorm, TargetFormat::Rgba16Float, TargetFormat::Rgba32Float]);
    assert!(target_formats().iter().all(|c| c.blend == BlendMode::Replace && c.write_mask == WriteMask::All));
}

#[test]
fn attachments_follow_targets() {
    let atts = color_attachments();
    let targets = gbuffer_targets();
    assert_eq!(atts.len(), 3);
    for (a, t) in atts.iter().zip(targets.iter()) {
        assert_eq!(a.target, *t);
        assert_eq!(a.resolve_target, None);
        assert_eq!(a.load, LoadOp::ClearTransparent);
        assert_eq!(a.store, StoreOp::Store);
    }
}

#[test]
fn bind_group_matches_layout() {
    let layout = layout_entries();
    let group = bind_group_entries();
    assert_eq!(layout.len(), 4);
    assert_eq!(group.len(), 4);
    for (i, (l, g)) in layout.iter().zip(group.iter()).enumerate() {
        assert_eq!(l.binding, i as u32);
        assert_eq!(g.binding, i as u32);
        assert_eq!(l.visibility, ShaderStage::Fragment);
        match (l.ty, g.resource) {
            (BindingType::Texture2d { filterable: false, multisampled: false }, BoundResource::TargetView(_)) => {}
            (BindingType::Sampler { filtering: false }, BoundResource::Sampler) => {}
            _ => panic!("binding {} mismatched", i),
        }
    }
    assert_eq!(group[2].resource, BoundResource::TargetView(GBufferTarget::Position));
}

#[test]
fn sampler_is_nearest() {
    let s = sampler_desc();
    assert_eq!(s.mag_filter, FilterMode::Nearest);
    assert_eq!(s.min_filter, FilterMode::Nearest);
    assert_eq!(s.mipmap_filter, FilterMode::Nearest);
}

#[test]
fn texture_desc_at_resolution() {
    let d = texture_desc(GBufferTarget::NormalRoughness, 800, 600);
    assert_eq!(d.label, "gbuffer_normal_roughness");
    assert_eq!((d.width, d.height, d.depth_or_array_layers), (800, 600, 1));
    assert_eq!((d.mip_level_count, d.sample_count), (1, 1));
    assert_eq!(d.format, TargetFormat::Rgba16Float);
    assert!(d.render_attachment && d.texture_binding);
}

#[test]
fn plan_resize_matches_new() {
    let mut plan = GBufferPlan::new(640, 480);
    assert_eq!(plan.textures.len(), 3);
    assert_eq!(plan.textures[0].label, "gbuffer_albedo_metallic");
    plan.resize(1920, 1080);
    let fresh = GBufferPlan::new(1920, 1080);
    assert_eq!(plan.textures, fresh.textures);
    assert_eq!(plan.views, fresh.views);
    assert_eq!(plan.layout, fresh.layout);
    assert_eq!(plan.bind_group, fresh.bind_group);
    assert_eq!(plan.sampler, fresh.sampler);
    assert_eq!((plan.width, plan.height), (1920, 1080));
    assert!(plan.textures.iter().all(|t| t.width == 1920 && t.height == 1080));
}

#[test]
fn texture_desc_is_2d_without_view_formats() {
    let d = texture_desc(GBufferTarget::Position, 4, 4);
    assert_eq!(d.dimension, TextureDimension::D2);
    assert!(d.view_formats.is_empty());
    assert_eq!(d.format, TargetFormat::Rgba32Float);
}

#[test]
fn sampler_has_label_and_default_fields() {
    let s = sampler_desc();
    assert_eq!(s.label, "gbuffer_sampler");
    assert_eq!((s.lod_min_clamp, s.lod_max_clamp), (0, 32));
    assert_eq!(s.compare, None);
    assert_eq!(s.anisotropy_clamp, 1);
    assert_eq!(s.border_color, None);
}

#[test]
fn layout_and_bind_group_labels() {
    let l = layout_desc();
    assert_eq!(l.label, "gbuffer_bind_group_layout");
    assert!(l.entries.iter().all(|e| e.count.is_none()));
    let g = bind_group_desc();
    assert_eq!(g.label, "gbuffer_bind_group");
    assert_eq!(g.entries, bind_group_entries());
}

#[test]
fn plan_views_are_default_views_in_target_order() {
    let plan = GBufferPlan::new(8, 8);
    let targets = gbuffer_targets();
    assert_eq!(plan.views.len(), 3);
    for (v, t) in plan.views.iter().zip(targets.iter()) {
        assert_eq!(*v, default_view(*t));
        assert_eq!(v.target, *t);
        assert_eq!(v.label, None);
        assert_eq!(v.format, None);
        assert_eq!(v.aspect, TextureAspect::All);
        assert_eq!((v.base_mip_level, v.mip_level_count), (0, None));
    }
    assert_eq!(plan.sampler.label, "gbuffer_sampler");
    assert_eq!(plan.layout.label, "gbuffer_bind_group_layout");
    assert_eq!(plan.bind_group.label, "gbuffer_bind_group");
}
