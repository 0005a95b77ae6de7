use vstd::prelude::*;

verus! {

/// The three render targets of the G-buffer, in attachment order.
#[derive(Clone, Copy, Debug, PartialEq, Eq)]
pub enum GBufferTarget {
    /// Albedo in RGB, metallic in A.
    AlbedoMetallic,
    /// World-space normal in RGB, roughness in A.
    NormalRoughness,
    /// World-space position.
    Position,
}

/// Texture formats used by the G-buffer targets.
#[derive(Clone, Copy, Debug, PartialEq, Eq)]
pub enum TargetFormat {
    Rgba8Unorm,
    Rgba16Float,
    Rgba32Float,
}

/// Shader stage that can see a binding.
#[derive(Clone, Copy, Debug, PartialEq, Eq)]
pub enum ShaderStage {
    Vertex,
    Fragment,
}

/// Type of one entry of a bind group layout.
#[derive(Clone, Copy, Debug, PartialEq, Eq)]
pub enum BindingType {
    /// A two-dimensional texture sampled as floats.
    Texture2d { filterable: bool, multisampled: bool },
    /// A sampler.
    Sampler { filtering: bool },
}

/// One entry of the G-buffer's bind group layout.
#[derive(Clone, Copy, Debug, PartialEq, Eq)]
pub struct LayoutEntry {
    pub binding: u32,
    pub visibility: ShaderStage,
    pub ty: BindingType,
    /// Array length of the binding; `None` for a single resource.
    pub count: Option<u32>,
}

/// The G-buffer's bind group layout: its debug label and its entries.
#[derive(Clone, Debug, PartialEq, Eq)]
pub struct LayoutDesc {
    pub label: &'static str,
    pub entries: Vec<LayoutEntry>,
}

/// What a bind group entry binds.
#[derive(Clone, Copy, Debug, PartialEq, Eq)]
pub enum BoundResource {
    /// The texture view of a G-buffer target.
    TargetView(GBufferTarget),
    /// The G-buffer's sampler.
    Sampler,
}

/// One entry of the G-buffer's bind group.
#[derive(Clone, Copy, Debug, PartialEq, Eq)]
pub struct BindGroupEntry {
    pub binding: u32,
    pub resource: BoundResource,
}

/// The G-buffer's bind group: its debug label and its entries. It is made
/// against the G-buffer's bind group layout.
#[derive(Clone, Debug, PartialEq, Eq)]
pub struct BindGroupDesc {
    pub label: &'static str,
    pub entries: Vec<BindGroupEntry>,
}

/// Dimensionality of a texture.
#[derive(Clone, Copy, Debug, PartialEq, Eq)]
pub enum TextureDimension {
    D1,
    D2,
    D3,
}

/// Descriptor of the texture behind one G-buffer target.
#[derive(Clone, Debug, PartialEq, Eq)]
pub struct TextureDesc {
    pub label: &'static str,
    pub width: u32,
    pub height: u32,
    pub depth_or_array_layers: u32,
    pub mip_level_count: u32,
    pub sample_count: u32,
    pub dimension: TextureDimension,
    pub format: TargetFormat,
    /// Further formats that views of the texture may take.
    pub view_formats: Vec<TargetFormat>,
    /// The texture can be rendered to (usage RENDER_ATTACHMENT).
    pub render_attachment: bool,
    /// The texture can be bound for sampling (usage TEXTURE_BINDING).
    pub texture_binding: bool,
}

#[derive(Clone, Copy, Debug, PartialEq, Eq)]
pub enum AddressMode {
    ClampToEdge,
    Repeat,
    MirrorRepeat,
}

#[derive(Clone, Copy, Debug, PartialEq, Eq)]
pub enum FilterMode {
    Nearest,
    Linear,
}

/// Comparison a depth sampler applies.
#[derive(Clone, Copy, Debug, PartialEq, Eq)]
pub enum CompareFunction {
    Never,
    Less,
    Equal,
    LessEqual,
    Greater,
    NotEqual,
    GreaterEqual,
    Always,
}

/// Colour a clamp-to-border sampler returns outside the texture.
#[derive(Clone, Copy, Debug, PartialEq, Eq)]
pub enum BorderColor {
    TransparentBlack,
    OpaqueBlack,
    OpaqueWhite,
    Zero,
}

/// Descriptor of the sampler the lighting pass reads the G-buffer with.
/// The level-of-detail clamps are whole mip levels.
#[derive(Clone, Copy, Debug, PartialEq, Eq)]
pub struct SamplerDesc {
    pub label: &'static str,
    pub address_mode_u: AddressMode,
    pub address_mode_v: AddressMode,
    pub address_mode_w: AddressMode,
    pub mag_filter: FilterMode,
    pub min_filter: FilterMode,
    pub mipmap_filter: FilterMode,
    pub lod_min_clamp: u32,
    pub lod_max_clamp: u32,
    pub compare: Option<CompareFunction>,
    pub anisotropy_clamp: u16,
    pub border_color: Option<BorderColor>,
}

/// Usages a texture view may be restricted to.
#[derive(Clone, Copy, Debug, PartialEq, Eq)]
pub struct TextureUsage {
    pub render_attachment: bool,
    pub texture_binding: bool,
}

/// Dimension a texture view presents.
#[derive(Clone, Copy, Debug, PartialEq, Eq)]
pub enum ViewDimension {
    D1,
    D2,
    D2Array,
    Cube,
    CubeArray,
    D3,
}

/// Which aspects of a texture a view covers.
#[derive(Clone, Copy, Debug, PartialEq, Eq)]
pub enum TextureAspect {
    All,
    StencilOnly,
    DepthOnly,
}

/// Descriptor of the view of one G-buffer target's texture. `None` fields
/// are taken from the texture itself.
#[derive(Clone, Copy, Debug, PartialEq, Eq)]
pub struct ViewDesc {
    /// The target whose texture the view is of.
    pub target: GBufferTarget,
    pub label: Option<&'static str>,
    pub format: Option<TargetFormat>,
    pub dimension: Option<ViewDimension>,
    pub usage: Option<TextureUsage>,
    pub aspect: TextureAspect,
    pub base_mip_level: u32,
    pub mip_level_count: Option<u32>,
    pub base_array_layer: u32,
    pub array_layer_count: Option<u32>,
}

/// What a render pass does with an attachment's previous contents.
#[derive(Clone, Copy, Debug, PartialEq, Eq)]
pub enum LoadOp {
    /// Clear to transparent black.
    ClearTransparent,
    Load,
}

/// What a render pass does with what it wrote to an attachment.
#[derive(Clone, Copy, Debug, PartialEq, Eq)]
pub enum StoreOp {
    Store,
    Discard,
}

/// One color attachment of the geometry pass.
#[derive(Clone, Copy, Debug, PartialEq, Eq)]
pub struct AttachmentDesc {
    pub target: GBufferTarget,
    /// Target receiving the resolved output of a multisampled attachment.
    pub resolve_target: Option<GBufferTarget>,
    pub load: LoadOp,
    pub store: StoreOp,
}

/// How a pipeline output combines with what the attachment holds.
#[derive(Clone, Copy, Debug, PartialEq, Eq)]
pub enum BlendMode {
    /// The output replaces the attachment's contents (no blend state).
    Replace,
    /// Standard alpha blending.
    AlphaBlending,
}

/// Which channels a pipeline output writes.
#[derive(Clone, Copy, Debug, PartialEq, Eq)]
pub enum WriteMask {
    All,
    Nothing,
}

/// The color target state of one output of the geometry pass pipeline.
#[derive(Clone, Copy, Debug, PartialEq, Eq)]
pub struct ColorTarget {
    pub format: TargetFormat,
    pub blend: BlendMode,
    pub write_mask: WriteMask,
}

/// Number of G-buffer render targets.
pub const TARGET_COUNT: usize = 3;

/// The targets in attachment order.
pub open spec fn targets_spec() -> Seq<GBufferTarget> {
    seq![GBufferTarget::AlbedoMetallic, GBufferTarget::NormalRoughness, GBufferTarget::Position]
}

pub open spec fn target_format_spec(t: GBufferTarget) -> TargetFormat {
    match t {
        GBufferTarget::AlbedoMetallic => TargetFormat::Rgba8Unorm,
        GBufferTarget::NormalRoughness => TargetFormat::Rgba16Float,
        GBufferTarget::Position => TargetFormat::Rgba32Float,
    }
}

/// Whether a texture of format `f` can be sampled with filtering without
/// extra device features.
pub open spec fn format_filterable_spec(f: TargetFormat) -> bool {
    match f {
        TargetFormat::Rgba8Unorm => true,
        TargetFormat::Rgba16Float => true,
        TargetFormat::Rgba32Float => false,
    }
}

/// The debug label of the texture of target `t`.
pub open spec fn target_label_spec(t: GBufferTarget) -> Seq<char> {
    match t {
        GBufferTarget::AlbedoMetallic => "gbuffer_albedo_metallic"@,
        GBufferTarget::NormalRoughness => "gbuffer_normal_roughness"@,
        GBufferTarget::Position => "gbuffer_position"@,
    }
}

impl GBufferTarget {
    /// The texture format of this target.
    pub fn format(&self) -> (f: TargetFormat)
        ensures
            f == target_format_spec(*self),
    {
        match self {
            GBufferTarget::AlbedoMetallic => TargetFormat::Rgba8Unorm,
            GBufferTarget::NormalRoughness => TargetFormat::Rgba16Float,
            GBufferTarget::Position => TargetFormat::Rgba32Float,
        }
    }

    /// The debug label of this target's texture.
    pub fn label(&self) -> (l: &'static str)
        ensures
            l@ == target_label_spec(*self),
    {
        match self {
            GBufferTarget::AlbedoMetallic => "gbuffer_albedo_metallic",
            GBufferTarget::NormalRoughness => "gbuffer_normal_roughness",
            GBufferTarget::Position => "gbuffer_position",
        }
    }
}

/// The G-buffer targets in attachment order.
pub fn gbuffer_targets() -> (ts: Vec<GBufferTarget>)
    ensures
        ts@ == targets_spec(),
{
    let ts = vec![GBufferTarget::AlbedoMetallic, GBufferTarget::NormalRoughness, GBufferTarget::Position];
    assert(ts@ =~= targets_spec());
    ts
}


/// `d` is the descriptor of the texture behind target `t` at the given
/// resolution: labelled after the target, one 2D layer, one mip level, one
/// sample, the target's format and no other view format, renderable and
/// sampleable.
pub open spec fn is_texture_desc(d: TextureDesc, t: GBufferTarget, width: u32, height: u32) -> bool {
    &&& d.label@ == target_label_spec(t)
    &&& d.width == width
    &&& d.height == height
    &&& d.depth_or_array_layers == 1
    &&& d.mip_level_count == 1
    &&& d.sample_count == 1
    &&& d.dimension == TextureDimension::D2
    &&& d.format == target_format_spec(t)
    &&& d.view_formats@ == Seq::<TargetFormat>::empty()
    &&& d.render_attachment
    &&& d.texture_binding
}

/// Describes the texture behind target `t` at resolution `width` x `height`.
pub fn texture_desc(t: GBufferTarget, width: u32, height: u32) -> (d: TextureDesc)
    ensures
        is_texture_desc(d, t, width, height),
{
    TextureDesc {
        label: t.label(),
        width,
        height,
        depth_or_array_layers: 1,
        mip_level_count: 1,
        sample_count: 1,
        dimension: TextureDimension::D2,
        format: t.format(),
        view_formats: Vec::new(),
        render_attachment: true,
        texture_binding: true,
    }
}

/// The default view of the texture of target `t`: every field taken from
/// the texture, all aspects, from the first mip level and array layer on.
pub open spec fn default_view_spec(t: GBufferTarget) -> ViewDesc {
    ViewDesc {
        target: t,
        label: None,
        format: None,
        dimension: None,
        usage: None,
        aspect: TextureAspect::All,
        base_mip_level: 0,
        mip_level_count: None,
        base_array_layer: 0,
        array_layer_count: None,
    }
}

/// Describes the default view of the texture of target `t`.
pub fn default_view(t: GBufferTarget) -> (v: ViewDesc)
    ensures
        v == default_view_spec(t),
{
    ViewDesc {
        target: t,
        label: None,
        format: None,
        dimension: None,
        usage: None,
        aspect: TextureAspect::All,
        base_mip_level: 0,
        mip_level_count: None,
        base_array_layer: 0,
        array_layer_count: None,
    }
}

pub open spec fn sampler_desc_spec(label: &'static str) -> SamplerDesc {
    SamplerDesc {
        label,
        address_mode_u: AddressMode::ClampToEdge,
        address_mode_v: AddressMode::ClampToEdge,
        address_mode_w: AddressMode::ClampToEdge,
        mag_filter: FilterMode::Nearest,
        min_filter: FilterMode::Nearest,
        mipmap_filter: FilterMode::Nearest,
        lod_min_clamp: 0,
        lod_max_clamp: 32,
        compare: None,
        anisotropy_clamp: 1,
        border_color: None,
    }
}

/// Describes the G-buffer sampler, labelled "gbuffer_sampler": clamped at
/// the edges, nearest-texel lookups at every level, level of detail between
/// 0 and 32, no depth comparison, no anisotropy, no border colour.
pub fn sampler_desc() -> (d: SamplerDesc)
    ensures
        d == sampler_desc_spec(d.label),
        d.label@ == "gbuffer_sampler"@,
{
    SamplerDesc {
        label: "gbuffer_sampler",
        address_mode_u: AddressMode::ClampToEdge,
        address_mode_v: AddressMode::ClampToEdge,
        address_mode_w: AddressMode::ClampToEdge,
        mag_filter: FilterMode::Nearest,
        min_filter: FilterMode::Nearest,
        mipmap_filter: FilterMode::Nearest,
        lod_min_clamp: 0,
        lod_max_clamp: 32,
        compare: None,
        anisotropy_clamp: 1,
        border_color: None,
    }
}

/// Layout entry `i`: bindings 0 to 2 are the target textures, binding 3 the
/// sampler, all single resources visible to the fragment stage.
pub open spec fn layout_entry_spec(i: int) -> LayoutEntry {
    LayoutEntry {
        binding: i as u32,
        visibility: ShaderStage::Fragment,
        ty: if i < 3 {
            BindingType::Texture2d { filterable: false, multisampled: false }
        } else {
            BindingType::Sampler { filtering: false }
        },
        count: None,
    }
}

pub open spec fn layout_entries_spec() -> Seq<LayoutEntry> {
    Seq::new(4, |i: int| layout_entry_spec(i))
}

/// The entries of the G-buffer's bind group layout.
pub fn layout_entries() -> (es: Vec<LayoutEntry>)
    ensures
        es@ == layout_entries_spec(),
{
    let mut es: Vec<LayoutEntry> = Vec::new();
    let mut i: u32 = 0;
    while i < 4
        invariant
            i <= 4,
            es@ == layout_entries_spec().take(i as int),
        decreases 4 - i,
    {
        let ty = if i < 3 {
            BindingType::Texture2d { filterable: false, multisampled: false }
        } else {
            BindingType::Sampler { filtering: false }
        };
        es.push(LayoutEntry { binding: i, visibility: ShaderStage::Fragment, ty, count: None });
        assert(es@ =~= layout_entries_spec().take(i + 1));
        i = i + 1;
    }
    assert(es@ =~= layout_entries_spec());
    es
}

/// The G-buffer's bind group layout, labelled "gbuffer_bind_group_layout".
pub fn layout_desc() -> (d: LayoutDesc)
    ensures
        d.label@ == "gbuffer_bind_group_layout"@,
        d.entries@ == layout_entries_spec(),
{
    LayoutDesc { label: "gbuffer_bind_group_layout", entries: layout_entries() }
}

/// Bind group entry `i`: bindings 0 to 2 are the views of the targets in
/// attachment order, binding 3 the sampler.
pub open spec fn bind_group_entry_spec(i: int) -> BindGroupEntry {
    BindGroupEntry {
        binding: i as u32,
        resource: if i < 3 {
            BoundResource::TargetView(targets_spec()[i])
        } else {
            BoundResource::Sampler
        },
    }
}

pub open spec fn bind_group_entries_spec() -> Seq<BindGroupEntry> {
    Seq::new(4, |i: int| bind_group_entry_spec(i))
}

/// The entries of the G-buffer's bind group.
pub fn bind_group_entries() -> (es: Vec<BindGroupEntry>)
    ensures
        es@ == bind_group_entries_spec(),
{
    let targets = gbuffer_targets();
    let mut es: Vec<BindGroupEntry> = Vec::new();
    let mut i: u32 = 0;
    while i < 4
        invariant
            i <= 4,
            targets@ == targets_spec(),
            es@ == bind_group_entries_spec().take(i as int),
        decreases 4 - i,
    {
        let resource = if i < 3 {
            BoundResource::TargetView(targets[i as usize])
        } else {
            BoundResource::Sampler
        };
        es.push(BindGroupEntry { binding: i, resource });
        assert(es@ =~= bind_group_entries_spec().take(i + 1));
        i = i + 1;
    }
    assert(es@ =~= bind_group_entries_spec());
    es
}

/// The G-buffer's bind group, labelled "gbuffer_bind_group".
pub fn bind_group_desc() -> (d: BindGroupDesc)
    ensures
        d.label@ == "gbuffer_bind_group"@,
        d.entries@ == bind_group_entries_spec(),
{
    BindGroupDesc { label: "gbuffer_bind_group", entries: bind_group_entries() }
}

pub open spec fn attachment_spec(i: int) -> AttachmentDesc {
    AttachmentDesc {
        target: targets_spec()[i],
        resolve_target: None,
        load: LoadOp::ClearTransparent,
        store: StoreOp::Store,
    }
}

pub open spec fn color_attachments_spec() -> Seq<AttachmentDesc> {
    Seq::new(3, |i: int| attachment_spec(i))
}

/// The color attachments of the geometry pass: each target in order, with no
/// resolve target, cleared to transparent black and stored.
pub fn color_attachments() -> (atts: Vec<AttachmentDesc>)
    ensures
        atts@ == color_attachments_spec(),
{
    let targets = gbuffer_targets();
    let mut atts: Vec<AttachmentDesc> = Vec::new();
    for i in 0..TARGET_COUNT
        invariant
            targets@ == targets_spec(),
            atts@ == color_attachments_spec().take(i as int),
    {
        atts.push(
            AttachmentDesc {
                target: targets[i],
                resolve_target: None,
                load: LoadOp::ClearTransparent,
                store: StoreOp::Store,
            },
        );
        assert(atts@ =~= color_attachments_spec().take(i + 1));
    }
    assert(atts@ =~= color_attachments_spec());
    atts
}

pub open spec fn color_target_spec(i: int) -> ColorTarget {
    ColorTarget { format: target_format_spec(targets_spec()[i]), blend: BlendMode::Replace, write_mask: WriteMask::All }
}

pub open spec fn target_formats_spec() -> Seq<ColorTarget> {
    Seq::new(3, |i: int| color_target_spec(i))
}

/// The color target states of the geometry pass pipeline: the format of each
/// target in order, replacing what the attachment holds, all channels written.
pub fn target_formats() -> (cts: Vec<ColorTarget>)
    ensures
        cts@ == target_formats_spec(),
{
    let targets = gbuffer_targets();
    let mut cts: Vec<ColorTarget> = Vec::new();
    for i in 0..TARGET_COUNT
        invariant
            targets@ == targets_spec(),
            cts@ == target_formats_spec().take(i as int),
    {
        cts.push(ColorTarget { format: targets[i].format(), blend: BlendMode::Replace, write_mask: WriteMask::All });
        assert(cts@ =~= target_formats_spec().take(i + 1));
    }
    assert(cts@ =~= target_formats_spec());
    cts
}

/// Everything needed to create the G-buffer's GPU resources at one
/// resolution: one texture per target in attachment order, the default
/// view of each, the sampler, the bind group layout and the bind group.
pub struct GBufferPlan {
    pub width: u32,
    pub height: u32,
    pub textures: Vec<TextureDesc>,
    pub views: Vec<ViewDesc>,
    pub sampler: SamplerDesc,
    pub layout: LayoutDesc,
    pub bind_group: BindGroupDesc,
}

impl GBufferPlan {
    /// The plan is the one for its resolution.
    pub open spec fn describes(&self, width: u32, height: u32) -> bool {
        &&& self.width == width
        &&& self.height == height
        &&& self.textures@.len() == TARGET_COUNT
        &&& forall|i: int|
            0 <= i < TARGET_COUNT ==> is_texture_desc(#[trigger] self.textures@[i], targets_spec()[i], width, height)
        &&& self.views@.len() == TARGET_COUNT
        &&& forall|i: int| 0 <= i < TARGET_COUNT ==> #[trigger] self.views@[i] == default_view_spec(targets_spec()[i])
        &&& self.sampler == sampler_desc_spec(self.sampler.label)
        &&& self.sampler.label@ == "gbuffer_sampler"@
        &&& self.layout.label@ == "gbuffer_bind_group_layout"@
        &&& self.layout.entries@ == layout_entries_spec()
        &&& self.bind_group.label@ == "gbuffer_bind_group"@
        &&& self.bind_group.entries@ == bind_group_entries_spec()
    }

    /// Plans the G-buffer at resolution `width` x `height`.
    pub fn new(width: u32, height: u32) -> (plan: GBufferPlan)
        ensures
            plan.describes(width, height),
    {
        let targets = gbuffer_targets();
        let mut textures: Vec<TextureDesc> = Vec::new();
        let mut views: Vec<ViewDesc> = Vec::new();
        for i in 0..TARGET_COUNT
            invariant
                targets@ == targets_spec(),
                textures@.len() == i,
                views@.len() == i,
                forall|k: int|
                    0 <= k < i ==> is_texture_desc(#[trigger] textures@[k], targets_spec()[k], width, height),
                forall|k: int| 0 <= k < i ==> #[trigger] views@[k] == default_view_spec(targets_spec()[k]),
        {
            textures.push(texture_desc(targets[i], width, height));
            views.push(default_view(targets[i]));
        }
        GBufferPlan {
            width,
            height,
            textures,
            views,
            sampler: sampler_desc(),
            layout: layout_desc(),
            bind_group: bind_group_desc(),
        }
    }

    /// Re-plans the G-buffer at a new resolution, as on a window resize.
    pub fn resize(&mut self, width: u32, height: u32)
        ensures
            final(self).describes(width, height),
    {
        *self = GBufferPlan::new(width, height);
    }
}


/// A bind group entry binding `res` is valid for a layout entry of type `ty`:
/// texture views go to texture bindings, the sampler to sampler bindings.
pub open spec fn resource_fits(ty: BindingType, res: BoundResource) -> bool {
    match (ty, res) {
        (BindingType::Texture2d { .. }, BoundResource::TargetView(_)) => true,
        (BindingType::Sampler { .. }, BoundResource::Sampler) => true,
        _ => false,
    }
}

/// A texture described by `d` may be bound where the layout declares `ty`:
/// a filterable binding needs a filterable format, and a binding that is not
/// multisampled needs a single-sample texture.
pub open spec fn texture_fits(ty: BindingType, d: TextureDesc) -> bool {
    match ty {
        BindingType::Texture2d { filterable, multisampled } => {
            &&& filterable ==> format_filterable_spec(d.format)
            &&& !multisampled ==> d.sample_count == 1
            &&& d.texture_binding
        },
        _ => false,
    }
}

/// A sampler described by `s` may be bound where the layout declares `ty`: a
/// non-filtering sampler binding needs nearest filtering at every stage.
pub open spec fn sampler_fits(ty: BindingType, s: SamplerDesc) -> bool {
    match ty {
        BindingType::Sampler { filtering } => !filtering ==> (s.mag_filter == FilterMode::Nearest
            && s.min_filter == FilterMode::Nearest && s.mipmap_filter == FilterMode::Nearest),
        _ => false,
    }
}

/// The bind group matches its layout: the same number of entries, entry `i`
/// of each at the same binding number, each resource of the kind its layout
/// entry declares, and no binding number used twice.
pub proof fn lemma_bind_group_matches_layout()
    ensures
        bind_group_entries_spec().len() == layout_entries_spec().len(),
        forall|i: int|
            0 <= i < layout_entries_spec().len() ==> #[trigger] bind_group_entries_spec()[i].binding
                == layout_entries_spec()[i].binding && resource_fits(
                layout_entries_spec()[i].ty,
                bind_group_entries_spec()[i].resource,
            ),
        forall|i: int, j: int|
            0 <= i < j < layout_entries_spec().len() ==> #[trigger] layout_entries_spec()[i].binding
                != #[trigger] layout_entries_spec()[j].binding,
{
}

/// What the geometry pass writes is what the lighting pass reads: for each
/// target `i`, color attachment `i` and pipeline color target `i` are that
/// target with its format, bind group entry `i` binds its view, and its
/// texture, in any plan, has that format, can be rendered to and can be
/// sampled. No target appears twice.
pub proof fn lemma_geometry_writes_what_lighting_reads(plan: GBufferPlan, width: u32, height: u32, i: int)
    requires
        plan.describes(width, height),
        0 <= i < TARGET_COUNT,
    ensures
        color_attachments_spec()[i].target == targets_spec()[i],
        target_formats_spec()[i].format == target_format_spec(targets_spec()[i]),
        bind_group_entries_spec()[i].resource == BoundResource::TargetView(targets_spec()[i]),
        plan.textures@[i].format == target_formats_spec()[i].format,
        plan.textures@[i].render_attachment,
        plan.textures@[i].texture_binding,
        plan.views@[i].target == targets_spec()[i],
        forall|j: int| 0 <= j < TARGET_COUNT && j != i ==> targets_spec()[j] != targets_spec()[i],
{
    assert(is_texture_desc(plan.textures@[i], targets_spec()[i], width, height));
    assert(plan.views@[i] == default_view_spec(targets_spec()[i]));
}

/// A view `v` of the texture `d` can serve both passes: the geometry pass
/// renders into it and the lighting pass samples it. Its usage is inherited
/// from the texture or restricted to usages that include both, it keeps the
/// texture's format, it is two-dimensional, and it covers all aspects from
/// the first mip level and array layer.
pub open spec fn view_serves_both_passes(v: ViewDesc, d: TextureDesc) -> bool {
    &&& d.render_attachment && d.texture_binding
    &&& match v.usage {
        None => true,
        Some(u) => u.render_attachment && u.texture_binding,
    }
    &&& match v.format {
        None => true,
        Some(f) => f == d.format,
    }
    &&& match v.dimension {
        None => d.dimension == TextureDimension::D2,
        Some(dim) => dim == ViewDimension::D2,
    }
    &&& v.aspect == TextureAspect::All
    &&& v.base_mip_level == 0
    &&& v.base_array_layer == 0
}

/// In every planned G-buffer, view `i` is a view of target `i`'s texture that
/// can serve both passes, so the view used as color attachment `i` can be
/// rendered to and the view bound at binding `i` can be sampled.
pub proof fn lemma_views_serve_both_passes(plan: GBufferPlan, width: u32, height: u32, i: int)
    requires
        plan.describes(width, height),
        0 <= i < TARGET_COUNT,
    ensures
        plan.views@[i].target == targets_spec()[i],
        plan.views@[i].target == color_attachments_spec()[i].target,
        bind_group_entries_spec()[i].resource == BoundResource::TargetView(plan.views@[i].target),
        view_serves_both_passes(plan.views@[i], plan.textures@[i]),
{
    assert(is_texture_desc(plan.textures@[i], targets_spec()[i], width, height));
    assert(plan.views@[i] == default_view_spec(targets_spec()[i]));
}

/// Every resource in a planned bind group is valid for its layout entry:
/// each target texture suits its texture binding (the position target's
/// format cannot be filtered, so the bindings are declared non-filterable),
/// and the sampler suits the non-filtering sampler binding.
pub proof fn lemma_bindings_valid(plan: GBufferPlan, width: u32, height: u32)
    requires
        plan.describes(width, height),
    ensures
        forall|i: int|
            0 <= i < TARGET_COUNT ==> texture_fits(plan.layout.entries@[i].ty, #[trigger] plan.textures@[i]),
        sampler_fits(plan.layout.entries@[3].ty, plan.sampler),
        !format_filterable_spec(target_format_spec(GBufferTarget::Position)),
{
    assert forall|i: int| 0 <= i < TARGET_COUNT implies texture_fits(plan.layout.entries@[i].ty, #[trigger] plan.textures@[i]) by {
        assert(is_texture_desc(plan.textures@[i], targets_spec()[i], width, height));
    }
}

} // verus!
