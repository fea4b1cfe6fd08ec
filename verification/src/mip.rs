//! Mipmap-chain generation on a GPU blit pipeline.
//!
//! A [`MipmapGenerator`] owns a render pipeline specialized to one output
//! pixel format and records, into a caller-owned command encoder, one
//! full-screen-triangle blit pass per mip level: level `t` is drawn by
//! sampling level `t - 1`, for `t` in `1..mip_count`, in that order. The
//! caller submits the encoder afterwards; nothing is submitted here.

use vstd::prelude::*;

verus! {

#[verifier::external_type_specification]
#[verifier::external_body]
pub struct ExDevice(wgpu::Device);

#[verifier::external_type_specification]
#[verifier::external_body]
pub struct ExTexture(wgpu::Texture);

#[verifier::external_type_specification]
#[verifier::external_body]
pub struct ExTextureView(wgpu::TextureView);

#[verifier::external_type_specification]
#[verifier::external_body]
pub struct ExTextureFormat(wgpu::TextureFormat);

#[verifier::external_type_specification]
#[verifier::external_body]
pub struct ExShaderModule(wgpu::ShaderModule);

#[verifier::external_type_specification]
#[verifier::external_body]
pub struct ExRenderPipeline(wgpu::RenderPipeline);

#[verifier::external_type_specification]
#[verifier::external_body]
pub struct ExBindGroupLayout(wgpu::BindGroupLayout);

#[verifier::external_type_specification]
#[verifier::external_body]
pub struct ExBindGroup(wgpu::BindGroup);

#[verifier::external_type_specification]
#[verifier::external_body]
pub struct ExSampler(wgpu::Sampler);

#[verifier::external_type_specification]
#[verifier::external_body]
pub struct ExCommandEncoder(wgpu::CommandEncoder);

/// The surface formats a generator's pipeline can be specialized to.
/// The format is baked into the pipeline at construction, so it is part of
/// the generator's identity: a generator must only be used against textures
/// of its own format.
#[derive(Copy, Clone, Debug, PartialEq, Eq, Structural)]
pub enum PixelFormat {
    Rgba8Unorm,
    Rgba8UnormSrgb,
    Bgra8Unorm,
    Bgra8UnormSrgb,
}

/// The blit passes an encoder holds so far, oldest first, each as a
/// (source level, target level) pair. Passes recorded in this order on one
/// encoder execute in this order on the GPU's queue timeline once the
/// caller submits the encoder.
pub uninterp spec fn recorded_blits(encoder: wgpu::CommandEncoder) -> Seq<(u32, u32)>;

/// A single-level view of a texture, pinned to the mip level it was
/// created for. Only [`create_mip_view`] builds one, so `level` always
/// names the level the GPU-side view aliases.
struct MipView {
    view: wgpu::TextureView,
    level: u32,
}

/// A bind group pairing one mip level's view (binding 0) with the transient
/// sampler (binding 1). Only [`create_blit_bind_group`] builds one, so
/// `source_level` always names the level the bind group samples.
struct BlitBinding {
    bind_group: wgpu::BindGroup,
    source_level: u32,
}

/// WGSL for the blit: a vertex stage that emits one oversized triangle
/// covering the whole viewport from three vertex indices, and a fragment
/// stage that samples the bound texture (binding 0) with the bound sampler
/// (binding 1) at the interpolated UV, writing the single color target.
fn blit_shader_source() -> &'static str {
    "struct VertexOutput {
        @builtin(position) position: vec4<f32>,
        @location(0) tex_coords: vec2<f32>,
    };

    @vertex
    fn vs_main(@builtin(vertex_index) vertex_index: u32) -> VertexOutput {
        var result: VertexOutput;
        let x = i32(vertex_index) / 2;
        let y = i32(vertex_index) & 1;
        let tc = vec2<f32>(f32(x) * f32(2), f32(y) * f32(2));
        result.position = vec4<f32>(tc.x * f32(2) - f32(1), f32(1) - tc.y * f32(2), f32(0), f32(1));
        result.tex_coords = tc;
        return result;
    }

    @group(0) @binding(0) var r_color: texture_2d<f32>;
    @group(0) @binding(1) var r_sampler: sampler;

    @fragment
    fn fs_main(vertex: VertexOutput) -> @location(0) vec4<f32> {
        return textureSample(r_color, r_sampler, vertex.tex_coords);
    }"
}

/// Relies on wgpu::Device::create_shader_module: compiles the blit shader;
/// a compile failure is fatal at device level, not a return value.
#[verifier::external_body]
fn create_blit_shader(device: &wgpu::Device) -> (r: wgpu::ShaderModule) {
    device.create_shader_module(wgpu::ShaderModuleDescriptor {
        label: Some("Blit Shader"),
        source: wgpu::ShaderSource::Wgsl(std::borrow::Cow::Borrowed(blit_shader_source())),
    })
}

/// Converts a [`PixelFormat`] tag to the wgpu::TextureFormat variant of the
/// same name, one arm per variant.
#[verifier::external_body]
fn texture_format_of(format: PixelFormat) -> (r: wgpu::TextureFormat) {
    match format {
        PixelFormat::Rgba8Unorm => wgpu::TextureFormat::Rgba8Unorm,
        PixelFormat::Rgba8UnormSrgb => wgpu::TextureFormat::Rgba8UnormSrgb,
        PixelFormat::Bgra8Unorm => wgpu::TextureFormat::Bgra8Unorm,
        PixelFormat::Bgra8UnormSrgb => wgpu::TextureFormat::Bgra8UnormSrgb,
    }
}

/// Relies on wgpu::Device::create_render_pipeline: a full-screen blit
/// pipeline with no vertex buffers, triangle-list topology, no
/// depth/stencil, no multisampling, its single color target of the given
/// format, and its layout auto-derived from the shader's bindings.
#[verifier::external_body]
fn create_blit_pipeline(device: &wgpu::Device, shader: &wgpu::ShaderModule, format: wgpu::TextureFormat) -> (r: wgpu::RenderPipeline) {
    device.create_render_pipeline(&wgpu::RenderPipelineDescriptor {
        label: Some("Blit Render Pipeline"),
        layout: None,
        vertex: wgpu::VertexState { module: shader, entry_point: Some("vs_main"), compilation_options: Default::default(), buffers: &[] },
        fragment: Some(wgpu::FragmentState { module: shader, entry_point: Some("fs_main"), compilation_options: Default::default(), targets: &[Some(format.into())] }),
        primitive: wgpu::PrimitiveState { topology: wgpu::PrimitiveTopology::TriangleList, ..Default::default() },
        depth_stencil: None,
        multisample: wgpu::MultisampleState::default(),
        multiview_mask: None,
        cache: None,
    })
}

/// Relies on wgpu::RenderPipeline::get_bind_group_layout: the layout of
/// bind group 0 of the finished pipeline, compatible with bind groups for
/// later draws with that pipeline.
#[verifier::external_body]
fn bind_group_layout_of(pipeline: &wgpu::RenderPipeline) -> (r: wgpu::BindGroupLayout) {
    pipeline.get_bind_group_layout(0)
}

/// Relies on wgpu::Device::create_sampler: a transient edge-clamped sampler
/// with linear magnification/minification and nearest mip filtering.
#[verifier::external_body]
fn create_mip_sampler(device: &wgpu::Device) -> (r: wgpu::Sampler) {
    device.create_sampler(&wgpu::SamplerDescriptor {
        label: Some("Mip Sampler"),
        address_mode_u: wgpu::AddressMode::ClampToEdge,
        address_mode_v: wgpu::AddressMode::ClampToEdge,
        address_mode_w: wgpu::AddressMode::ClampToEdge,
        mag_filter: wgpu::FilterMode::Linear,
        min_filter: wgpu::FilterMode::Linear,
        mipmap_filter: wgpu::MipmapFilterMode::Nearest,
        ..Default::default()
    })
}

/// Relies on wgpu::Texture::create_view: a view pinned to exactly the one
/// given mip level (full array range, all aspects), so reads and writes
/// through it touch that level alone.
#[verifier::external_body]
fn create_mip_view(texture: &wgpu::Texture, level: u32) -> (r: MipView)
    ensures
        r.level == level,
{
    let view = texture.create_view(&wgpu::TextureViewDescriptor {
        label: Some("Mip View"),
        base_mip_level: level,
        mip_level_count: Some(1),
        ..Default::default()
    });
    MipView { view, level }
}

/// Relies on wgpu::Device::create_bind_group: binds the source view at
/// binding 0 and the sampler at binding 1 under the pipeline's retained
/// layout, so a draw with this group samples exactly the source's level.
#[verifier::external_body]
fn create_blit_bind_group(device: &wgpu::Device, layout: &wgpu::BindGroupLayout, source: &MipView, sampler: &wgpu::Sampler) -> (r: BlitBinding)
    ensures
        r.source_level == source.level,
{
    let bind_group = device.create_bind_group(&wgpu::BindGroupDescriptor {
        layout,
        entries: &[
            wgpu::BindGroupEntry { binding: 0, resource: wgpu::BindingResource::TextureView(&source.view) },
            wgpu::BindGroupEntry { binding: 1, resource: wgpu::BindingResource::Sampler(&sampler) },
        ],
        label: None,
    });
    BlitBinding { bind_group, source_level: source.level }
}

/// Relies on wgpu::CommandEncoder::begin_render_pass and
/// RenderPass::{set_pipeline, set_bind_group, draw}: records one scoped
/// render pass (the pass closes when it is dropped, before the encoder can
/// begin the next one) that clears the target level defensively, then
/// overdraws all of it with the three-vertex full-screen triangle, sampling
/// the binding's source level. These four calls form one scoped operation
/// on the encoder, so they stand behind this one item together.
#[verifier::external_body]
fn record_blit(encoder: &mut wgpu::CommandEncoder, pipeline: &wgpu::RenderPipeline, binding: &BlitBinding, target: &MipView)
    ensures
        recorded_blits(*final(encoder)) == recorded_blits(*old(encoder)).push(
            (binding.source_level, target.level),
        ),
{
    let mut rpass = encoder.begin_render_pass(&wgpu::RenderPassDescriptor {
        label: None,
        color_attachments: &[Some(wgpu::RenderPassColorAttachment {
            view: &target.view,
            depth_slice: None,
            resolve_target: None,
            ops: wgpu::Operations { load: wgpu::LoadOp::Clear(wgpu::Color::WHITE), store: wgpu::StoreOp::Store },
        })],
        ..Default::default()
    });
    rpass.set_pipeline(pipeline);
    rpass.set_bind_group(0, &binding.bind_group, &[]);
    rpass.draw(0..3, 0..1);
}

/// The blit passes that filling an allocated chain of `mip_count` levels
/// takes: pass `i` samples level `i` and draws level `i + 1`, so the passes
/// stand in strictly increasing target order and each target is produced
/// from the level directly before it, never from level 0 across a gap.
pub open spec fn blit_chain(mip_count: u32) -> Seq<(u32, u32)> {
    if mip_count == 0 {
        Seq::empty()
    } else {
        Seq::new((mip_count - 1) as nat, |i: int| ((i as u32, (i + 1) as u32)))
    }
}

/// The source/target schedule of the blit passes that a generation call
/// records for a texture with `mip_count` allocated levels, in recording
/// order. A chain of one level needs no pass at all.
pub fn mip_pass_plan(mip_count: u32) -> (plan: Vec<(u32, u32)>)
    ensures
        plan@ == blit_chain(mip_count),
        plan.len() == if mip_count == 0 { 0int } else { mip_count - 1 },
{
    let mut plan: Vec<(u32, u32)> = Vec::new();
    if mip_count == 0 {
        assert(plan@ =~= blit_chain(mip_count));
        return plan;
    }
    let mut target: u32 = 1;
    while target < mip_count
        invariant
            1 <= target <= mip_count,
            plan@.len() == target - 1,
            forall|i: int| 0 <= i < plan@.len() ==> plan@[i] == ((i as u32, (i + 1) as u32)),
        decreases mip_count - target,
    {
        plan.push((target - 1, target));
        target = target + 1;
    }
    assert(plan@ =~= blit_chain(mip_count));
    plan
}

/// A reusable mip-chain generator for textures of one fixed pixel format.
/// It holds no mutable state after construction: the pipeline, the retained
/// bind-group layout of its group 0, and the format tag are read-only, so
/// one generator serves many textures and may be shared across concurrent
/// calls against different textures.
pub struct MipmapGenerator {
    pub format: PixelFormat,
    pub blit_pipeline: wgpu::RenderPipeline,
    pub blit_layout: wgpu::BindGroupLayout,
}

impl MipmapGenerator {
    /// Compiles the blit shader and builds the blit pipeline whose single
    /// color target has the given format, then retains the pipeline's
    /// group-0 bind-group layout for the per-texture bind groups built on
    /// every generation call. The format is baked in: the returned
    /// generator carries it as its identity tag, and a generator built for
    /// one format must not be driven against a texture of another.
    pub fn new(device: &wgpu::Device, format: PixelFormat) -> (r: Self)
        ensures
            r.format == format,
    {
        let shader = create_blit_shader(device);
        let wgpu_format = texture_format_of(format);
        let blit_pipeline = create_blit_pipeline(device, &shader, wgpu_format);
        let blit_layout = bind_group_layout_of(&blit_pipeline);
        Self { format, blit_pipeline, blit_layout }
    }

    /// Records, into the caller's encoder, the passes that fill levels
    /// `1..mip_count` of `texture` from its level 0: exactly the schedule
    /// [`blit_chain`]`(mip_count)`, appended to whatever the encoder
    /// already held, in that order. Each pass draws its target level by
    /// sampling the level directly before it through a fresh single-level
    /// view, with a transient sampler and a bind group built from the
    /// generator's retained layout. Nothing is submitted here; with
    /// `mip_count == 1` nothing is recorded at all.
    ///
    /// The texture must have been allocated with at least `mip_count` mip
    /// levels and carry the generator's format; this is not checked here
    /// (the views are opaque) and a violation is rejected by the GPU
    /// validation layer when the caller submits.
    pub fn generate_mipmaps(
        &self,
        encoder: &mut wgpu::CommandEncoder,
        device: &wgpu::Device,
        texture: &wgpu::Texture,
        mip_count: u32,
    )
        requires
            mip_count >= 1,
        ensures
            recorded_blits(*final(encoder)) == recorded_blits(*old(encoder))
                + blit_chain(mip_count),
    {
        let ghost recorded0: Seq<(u32, u32)> = recorded_blits(*encoder);
        let sampler = create_mip_sampler(device);

        let mut views: Vec<MipView> = Vec::new();
        let mut level: u32 = 0;
        while level < mip_count
            invariant
                level <= mip_count,
                views@.len() == level,
                forall|i: int| 0 <= i < views@.len() ==> views@[i].level == i,
            decreases mip_count - level,
        {
            views.push(create_mip_view(texture, level));
            level = level + 1;
        }

        let plan = mip_pass_plan(mip_count);
        let mut done: usize = 0;
        while done < plan.len()
            invariant
                mip_count >= 1,
                plan@ == blit_chain(mip_count),
                plan@.len() == mip_count - 1,
                done <= plan@.len(),
                views@.len() == mip_count,
                forall|i: int| 0 <= i < views@.len() ==> views@[i].level == i,
                recorded_blits(*encoder) == recorded0 + blit_chain(mip_count).take(done as int),
            decreases plan@.len() - done,
        {
            let source: u32 = plan[done].0;
            let target: u32 = plan[done].1;
            assert(source == done && target == done + 1);
            let binding = create_blit_bind_group(device, &self.blit_layout, &views[source as usize], &sampler);
            record_blit(encoder, &self.blit_pipeline, &binding, &views[target as usize]);
            proof {
                assert(blit_chain(mip_count).take(done as int).push(blit_chain(mip_count)[done as int])
                    =~= blit_chain(mip_count).take(done as int + 1));
            }
            done = done + 1;
        }
        proof {
            assert(blit_chain(mip_count).take(plan@.len() as int) =~= blit_chain(mip_count));
        }
    }
}

/// A generation call touches exactly `mip_count - 1` target levels, one
/// pass each; a chain of a single level is a no-op with no pass at all.
pub proof fn lemma_pass_count(mip_count: u32)
    requires
        mip_count >= 1,
    ensures
        blit_chain(mip_count).len() == mip_count - 1,
        mip_count == 1 ==> blit_chain(mip_count) =~= Seq::<(u32, u32)>::empty(),
{
}

/// Each recorded pass draws target level `i + 1` by sampling exactly the
/// level directly before it: never level 0 across a gap, never a level
/// produced later. The chain is a linear dependency chain, not a tree.
pub proof fn lemma_source_is_previous_level(mip_count: u32, i: int)
    requires
        0 <= i < blit_chain(mip_count).len(),
    ensures
        blit_chain(mip_count)[i].1 == i + 1,
        blit_chain(mip_count)[i].0 == i,
        blit_chain(mip_count)[i].0 + 1 == blit_chain(mip_count)[i].1,
{
}

/// Passes stand in strictly ascending target order, and every later pass
/// reads a level no earlier than one an earlier pass has already written:
/// on the encoder's in-order timeline, a level is always fully written
/// before it is sampled.
pub proof fn lemma_passes_strictly_ordered(mip_count: u32, i: int, j: int)
    requires
        0 <= i < j < blit_chain(mip_count).len(),
    ensures
        blit_chain(mip_count)[i].1 < blit_chain(mip_count)[j].1,
        blit_chain(mip_count)[j].0 >= blit_chain(mip_count)[i].1,
{
}

/// Re-running generation with the same `mip_count` appends the very same
/// pass schedule again: the recorded stream is a function of `mip_count`
/// alone, so a re-run over an unchanged level 0 re-records an identical
/// chain of passes.
pub proof fn lemma_rerun_appends_same_schedule(
    before: Seq<(u32, u32)>,
    mid: Seq<(u32, u32)>,
    after: Seq<(u32, u32)>,
    mip_count: u32,
)
    requires
        mid == before + blit_chain(mip_count),
        after == mid + blit_chain(mip_count),
    ensures
        after.skip(mid.len() as int) =~= mid.skip(before.len() as int),
        after =~= before + blit_chain(mip_count) + blit_chain(mip_count),
{
    assert(after.skip(mid.len() as int) =~= blit_chain(mip_count));
    assert(mid.skip(before.len() as int) =~= blit_chain(mip_count));
}

} // verus!

