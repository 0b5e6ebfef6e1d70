//! The state machine of one rendering surface.
//!
//! A [`GfxState`] decides; it never touches the GPU. Each operation updates
//! the state and returns what the shell has to carry out: the configuration
//! to apply to the surface, or the frame to record and submit. The state
//! that `render` reads is the state that `resize` and `update_shader` left
//! behind, whole: a pipeline is replaced in one assignment, after it has been
//! described completely.

use vstd::prelude::*;
use crate::gfx::pipeline::{Pipeline, PipelineCreateDesc, PipelineView};
use crate::gfx::uniform_buffer::{UniformBuffer, UniformBufferCreateDesc};

verus! {

/// The record that every shader can read. Both fields are in nanoseconds;
/// the shell converts them to seconds when it uploads the record.
#[derive(Clone, Copy, Debug, PartialEq, Eq)]
pub struct CommonUniformBuffer {
    /// Time that has passed in rendered frames since the state was created.
    pub time: u128,
    /// Time between the last two rendered frames.
    pub delta_time: u128,
}

/// Size of the common record on the GPU, in bytes: two 32-bit floats and
/// two more of padding.
pub const COMMON_BUFFER_SIZE: u64 = 16;

/// Slot at which the common record is bound.
pub const COMMON_BUFFER_BINDING: u32 = 0;

/// Number of frames that may be queued for presentation.
pub const MAXIMUM_FRAME_LATENCY: u32 = 2;

/// A size in physical pixels.
#[derive(Clone, Copy, Debug, PartialEq, Eq)]
pub struct PhysicalSize {
    pub width: u32,
    pub height: u32,
}

/// The device limits that the state machine depends on.
#[derive(Clone, Copy, Debug, PartialEq, Eq)]
pub struct Limits {
    pub max_texture_dimension_2d: u32,
}

/// What the state machine reads of a texture format.
#[derive(Clone, Copy, Debug, PartialEq, Eq)]
pub struct SurfaceFormat {
    pub srgb: bool,
}

/// What a surface offers on a given adapter.
#[derive(Clone, Debug, PartialEq, Eq)]
pub struct SurfaceCapabilities {
    /// The supported formats, in the adapter's order of preference.
    pub formats: Vec<SurfaceFormat>,
    /// Number of presentation modes on offer.
    pub present_modes: usize,
    /// Number of alpha compositing modes on offer.
    pub alpha_modes: usize,
}

/// How a surface is configured. Format and modes are positions in the lists
/// of [`SurfaceCapabilities`].
#[derive(Clone, Copy, Debug, PartialEq, Eq)]
pub struct SurfaceConfiguration {
    pub format: usize,
    pub width: u32,
    pub height: u32,
    pub present_mode: usize,
    pub alpha_mode: usize,
    pub desired_maximum_frame_latency: u32,
}

/// A colour with eight bits per channel.
#[derive(Clone, Copy, Debug, PartialEq, Eq)]
pub struct Color {
    pub r: u8,
    pub g: u8,
    pub b: u8,
    pub a: u8,
}

/// One draw call: the half-open ranges of vertices and of instances.
#[derive(Clone, Copy, Debug, PartialEq, Eq)]
pub struct Draw {
    pub first_vertex: u32,
    pub end_vertex: u32,
    pub first_instance: u32,
    pub end_instance: u32,
}

/// One render pass on the surface's next texture.
#[derive(Clone, Copy, Debug, PartialEq, Eq)]
pub struct RenderPass {
    /// The record to upload before the pass is recorded.
    pub uniforms: CommonUniformBuffer,
    /// The colour that the target is cleared to.
    pub clear_color: Color,
    /// Index at which the common record's bind group is set.
    pub bind_group: u32,
    /// The draw call, made with the state's current pipeline; `None` where
    /// the state has no pipeline, and the pass only clears.
    pub draw: Option<Draw>,
}

/// What one call of `render` asks of the GPU.
#[derive(Clone, Copy, Debug, PartialEq, Eq)]
pub enum Frame {
    /// Nothing: the surface is not configured. No texture is acquired and
    /// nothing is submitted.
    Skipped,
    /// Upload the record, acquire the next texture, record this pass, submit
    /// it and present.
    Rendered(RenderPass),
}

/// The background of every frame: opaque red.
pub open spec fn background() -> Color {
    Color { r: 255, g: 0, b: 0, a: 255 }
}

/// Three vertices, one instance: a single triangle that the vertex stage
/// places by vertex index.
pub open spec fn full_screen_draw() -> Draw {
    Draw { first_vertex: 0, end_vertex: 3, first_instance: 0, end_instance: 1 }
}

/// The smaller of a requested dimension and the device's limit.
pub open spec fn clamp_dimension(requested: u32, limit: u32) -> u32 {
    if requested <= limit {
        requested
    } else {
        limit
    }
}

/// Whether `index` is the format to use among `formats`: the first sRGB
/// format, or the first format of all where none is sRGB.
pub open spec fn is_preferred_format(formats: Seq<SurfaceFormat>, index: int) -> bool {
    &&& 0 <= index < formats.len()
    &&& forall|k: int| 0 <= k < index ==> !(#[trigger] formats[k]).srgb
    &&& formats[index].srgb || (index == 0 && forall|k: int|
        0 <= k < formats.len() ==> !(#[trigger] formats[k]).srgb)
}

/// The position of the format to render in. It is well defined for every
/// list of formats that is not empty.
pub open spec fn preferred_format(formats: Seq<SurfaceFormat>) -> int {
    choose|index: int| is_preferred_format(formats, index)
}

/// Only one position is the preferred format's.
pub proof fn lemma_preferred_format_is_unique(formats: Seq<SurfaceFormat>, index: int)
    requires
        is_preferred_format(formats, index),
    ensures
        preferred_format(formats) == index,
{
    let chosen = preferred_format(formats);
    assert(is_preferred_format(formats, chosen));
    if chosen < index {
        assert(!formats[chosen].srgb);
        assert(index != 0);
    } else if index < chosen {
        assert(!formats[index].srgb);
        assert(chosen != 0);
    }
}

/// The mathematical content of a [`GfxState`].
pub struct GfxStateView {
    pub config: SurfaceConfiguration,
    /// The size that was last asked for, before clamping.
    pub size: PhysicalSize,
    pub limits: Limits,
    pub surface_configured: bool,
    pub pipeline: Option<PipelineView>,
    /// The clock at the last rendered frame, in nanoseconds since the epoch.
    pub last_frame_time: u128,
    pub common_buffer: UniformBuffer<CommonUniformBuffer>,
}

impl GfxStateView {
    /// What holds of every state: frame time never runs ahead of the clock,
    /// the common record sits in its slot, and a pipeline, where there is
    /// one, is the pipeline of its own shader source for this surface.
    pub open spec fn wf(self) -> bool {
        &&& self.common_buffer.contents.time <= self.last_frame_time
        &&& self.common_buffer.size == COMMON_BUFFER_SIZE
        &&& self.common_buffer.binding == COMMON_BUFFER_BINDING
        &&& self.config.desired_maximum_frame_latency == MAXIMUM_FRAME_LATENCY
        &&& self.pipeline matches Some(pipeline) ==> pipeline == self.pipeline_for(
            pipeline.shader_source,
        )
    }

    /// The state of a surface that has just been created at clock `now`:
    /// not configured, without a pipeline, at time zero.
    pub open spec fn initial(size: PhysicalSize, format: int, limits: Limits, now: u128) -> Self {
        GfxStateView {
            config: SurfaceConfiguration {
                format: format as usize,
                width: size.width,
                height: size.height,
                present_mode: 0,
                alpha_mode: 0,
                desired_maximum_frame_latency: MAXIMUM_FRAME_LATENCY,
            },
            size,
            limits,
            surface_configured: false,
            pipeline: None,
            last_frame_time: now,
            common_buffer: UniformBuffer {
                contents: CommonUniformBuffer { time: 0, delta_time: 0 },
                size: COMMON_BUFFER_SIZE,
                binding: COMMON_BUFFER_BINDING,
            },
        }
    }

    /// The pipeline that `shader_source` gives on this surface.
    pub open spec fn pipeline_for(self, shader_source: Seq<char>) -> PipelineView {
        PipelineView::build(self.config.format, shader_source, seq![self.common_buffer.binding])
    }

    /// The configuration after a resize to `new_size`.
    pub open spec fn resized_config(self, new_size: PhysicalSize) -> SurfaceConfiguration {
        SurfaceConfiguration {
            width: clamp_dimension(new_size.width, self.limits.max_texture_dimension_2d),
            height: clamp_dimension(new_size.height, self.limits.max_texture_dimension_2d),
            ..self.config
        }
    }

    /// The state after `resize(new_size)`. A size with a zero side changes
    /// nothing.
    pub open spec fn resize(self, new_size: PhysicalSize) -> Self {
        if new_size.width > 0 && new_size.height > 0 {
            GfxStateView {
                config: self.resized_config(new_size),
                size: new_size,
                surface_configured: true,
                ..self
            }
        } else {
            self
        }
    }

    /// The configuration that `resize(new_size)` hands to the surface, if
    /// any.
    pub open spec fn reconfiguration(self, new_size: PhysicalSize) -> Option<
        SurfaceConfiguration,
    > {
        if new_size.width > 0 && new_size.height > 0 {
            Some(self.resized_config(new_size))
        } else {
            None
        }
    }

    /// The clock of a frame rendered at `now`: `now`, unless the clock has
    /// stepped back behind the previous frame.
    pub open spec fn frame_time(self, now: u128) -> u128 {
        if now < self.last_frame_time {
            self.last_frame_time
        } else {
            now
        }
    }

    /// The common record of a frame rendered at `now`.
    pub open spec fn uniforms_at(self, now: u128) -> CommonUniformBuffer {
        let delta = self.frame_time(now) - self.last_frame_time;
        CommonUniformBuffer {
            time: (self.common_buffer.contents.time + delta) as u128,
            delta_time: delta as u128,
        }
    }

    /// The state after `render` at clock `now`.
    pub open spec fn render_at(self, now: u128) -> Self {
        if self.surface_configured {
            GfxStateView {
                last_frame_time: self.frame_time(now),
                common_buffer: UniformBuffer {
                    contents: self.uniforms_at(now),
                    ..self.common_buffer
                },
                ..self
            }
        } else {
            self
        }
    }

    /// What `render` at clock `now` asks of the GPU.
    pub open spec fn frame_at(self, now: u128) -> Frame {
        if self.surface_configured {
            Frame::Rendered(
                RenderPass {
                    uniforms: self.uniforms_at(now),
                    clear_color: background(),
                    bind_group: self.common_buffer.binding,
                    draw: if self.pipeline is Some {
                        Some(full_screen_draw())
                    } else {
                        None
                    },
                },
            )
        } else {
            Frame::Skipped
        }
    }

    /// The pipeline that the next frame draws with, if it draws at all.
    pub open spec fn drawn_pipeline(self) -> Option<PipelineView> {
        if self.surface_configured {
            self.pipeline
        } else {
            None
        }
    }

    /// The state after the pipeline has been replaced by that of
    /// `shader_source`.
    pub open spec fn update_shader(self, shader_source: Seq<char>) -> Self {
        GfxStateView { pipeline: Some(self.pipeline_for(shader_source)), ..self }
    }
}

/// The state of one rendering surface.
#[derive(Debug)]
pub struct GfxState {
    config: SurfaceConfiguration,
    size: PhysicalSize,
    limits: Limits,
    surface_configured: bool,
    pipeline: Option<Pipeline>,
    last_frame_time: u128,
    common_buffer: UniformBuffer<CommonUniformBuffer>,
}

impl View for GfxState {
    type V = GfxStateView;

    closed spec fn view(&self) -> GfxStateView {
        GfxStateView {
            config: self.config,
            size: self.size,
            limits: self.limits,
            surface_configured: self.surface_configured,
            pipeline: match self.pipeline {
                Some(pipeline) => Some(pipeline@),
                None => None,
            },
            last_frame_time: self.last_frame_time,
            common_buffer: self.common_buffer,
        }
    }
}

/// Reads the wall clock with `web_time::SystemTime::now`, as the whole
/// nanoseconds since `web_time::UNIX_EPOCH`.
///
/// Trusted, and nothing is claimed of the result: it is whatever the clock
/// says, and `None` where the clock stands before the epoch.
#[verifier::external_body]
fn wall_clock_nanos() -> (now: Option<u128>) {
    match web_time::SystemTime::now().duration_since(web_time::UNIX_EPOCH) {
        Ok(elapsed) => Some(elapsed.as_nanos()),
        Err(_) => None,
    }
}

/// The wall clock in nanoseconds since the epoch; the epoch itself where the
/// clock stands before it.
pub(crate) fn clock_now() -> u128 {
    clock_since_epoch(wall_clock_nanos())
}

/// The clock that a reading stands for: the reading itself, or the epoch
/// where the clock stood before it and gave no reading.
pub open spec fn clock_of(reading: Option<u128>) -> u128 {
    match reading {
        Some(now) => now,
        None => 0,
    }
}

/// Turns a reading of the wall clock into nanoseconds since the epoch. A
/// clock that stands before the epoch counts as standing at it.
pub fn clock_since_epoch(reading: Option<u128>) -> (now: u128)
    ensures
        now == clock_of(reading),
{
    match reading {
        Some(now) => now,
        None => 0,
    }
}

impl SurfaceCapabilities {
    /// The position of the format to render in: the first sRGB format, or
    /// the first format of all where none is sRGB.
    pub fn preferred_format(&self) -> (index: usize)
        requires
            self.formats@.len() > 0,
        ensures
            is_preferred_format(self.formats@, index as int),
            index == preferred_format(self.formats@),
    {
        let mut i: usize = 0;
        while i < self.formats.len()
            invariant
                i <= self.formats@.len(),
                forall|k: int| 0 <= k < i ==> !(#[trigger] self.formats@[k]).srgb,
            decreases self.formats@.len() - i,
        {
            if self.formats[i].srgb {
                proof {
                    lemma_preferred_format_is_unique(self.formats@, i as int);
                }
                return i;
            }
            i += 1;
        }
        proof {
            lemma_preferred_format_is_unique(self.formats@, 0);
        }
        0
    }
}

impl GfxState {
    /// Every state is well formed.
    #[verifier::type_invariant]
    pub open spec fn well_formed(self) -> bool {
        self@.wf()
    }

    /// The state of a surface of `size` that has just been created, with the
    /// clock read now.
    pub fn new(size: PhysicalSize, capabilities: &SurfaceCapabilities, limits: Limits) -> (state:
        Self)
        requires
            capabilities.formats@.len() > 0,
            capabilities.present_modes > 0,
            capabilities.alpha_modes > 0,
        ensures
            state@.wf(),
            exists|now: u128|
                state@ == GfxStateView::initial(
                    size,
                    preferred_format(capabilities.formats@),
                    limits,
                    now,
                ),
    {
        Self::new_at(size, capabilities, limits, clock_now())
    }

    /// The state of a surface of `size` that has just been created at clock
    /// `now`, in nanoseconds since the epoch.
    ///
    /// The surface renders in its preferred format, with the first
    /// presentation mode and the first alpha mode on offer.
    pub fn new_at(
        size: PhysicalSize,
        capabilities: &SurfaceCapabilities,
        limits: Limits,
        now: u128,
    ) -> (state: Self)
        requires
            capabilities.formats@.len() > 0,
            capabilities.present_modes > 0,
            capabilities.alpha_modes > 0,
        ensures
            state@.wf(),
            state@ == GfxStateView::initial(
                size,
                preferred_format(capabilities.formats@),
                limits,
                now,
            ),
    {
        let format: usize = capabilities.preferred_format();
        let data = CommonUniformBuffer { time: 0, delta_time: 0 };
        let common_buffer = UniformBuffer::new(
            &UniformBufferCreateDesc {
                data: &data,
                size: COMMON_BUFFER_SIZE,
                binding: COMMON_BUFFER_BINDING,
            },
        );
        GfxState {
            config: SurfaceConfiguration {
                format,
                width: size.width,
                height: size.height,
                present_mode: 0,
                alpha_mode: 0,
                desired_maximum_frame_latency: MAXIMUM_FRAME_LATENCY,
            },
            size,
            limits,
            surface_configured: false,
            pipeline: None,
            last_frame_time: now,
            common_buffer,
        }
    }

    /// Renders one frame, with the clock read now.
    ///
    /// See [`GfxState::render_at`] for what a frame at a given clock is.
    pub fn render(&mut self) -> (frame: Frame)
        ensures
            final(self)@.wf(),
            exists|now: u128|
                final(self)@ == old(self)@.render_at(now) && frame == old(self)@.frame_at(now),
            !old(self)@.surface_configured ==> final(self)@ == old(self)@ && frame
                == Frame::Skipped,
    {
        let now: u128 = clock_now();
        let frame = self.render_at(now);
        proof {
            use_type_invariant(&*self);
        }
        frame
    }

    /// Renders one frame at clock `now`, in nanoseconds since the epoch.
    ///
    /// On a surface that is not configured this changes nothing and asks for
    /// nothing. Otherwise frame time advances by the time since the previous
    /// frame, and the pass clears the target, binds the common record and,
    /// where the state has a pipeline, draws one triangle with it.
    pub fn render_at(&mut self, now: u128) -> (frame: Frame)
        ensures
            final(self)@.wf(),
            final(self)@ == old(self)@.render_at(now),
            frame == old(self)@.frame_at(now),
    {
        proof {
            use_type_invariant(&*self);
        }
        if !self.surface_configured {
            return Frame::Skipped;
        }
        let current: u128 = if now < self.last_frame_time {
            self.last_frame_time
        } else {
            now
        };
        let delta: u128 = current - self.last_frame_time;
        let uniforms = CommonUniformBuffer {
            time: self.common_buffer.contents.time + delta,
            delta_time: delta,
        };
        self.last_frame_time = current;
        self.common_buffer.update(&uniforms);
        let draw = match &self.pipeline {
            Some(_) => Some(
                Draw { first_vertex: 0, end_vertex: 3, first_instance: 0, end_instance: 1 },
            ),
            None => None,
        };
        proof {
            use_type_invariant(&*self);
        }
        Frame::Rendered(
            RenderPass {
                uniforms,
                clear_color: Color { r: 255, g: 0, b: 0, a: 255 },
                bind_group: self.common_buffer.binding,
                draw,
            },
        )
    }

    /// Takes a new surface size.
    ///
    /// A size with a zero side is ignored: the state stays as it is and the
    /// surface is left alone. Otherwise both sides are clamped to the
    /// device's limit, the surface counts as configured, and the result is
    /// the configuration to apply to it.
    pub fn resize(&mut self, new_size: PhysicalSize) -> (applied: Option<SurfaceConfiguration>)
        ensures
            final(self)@.wf(),
            final(self)@ == old(self)@.resize(new_size),
            applied == old(self)@.reconfiguration(new_size),
    {
        proof {
            use_type_invariant(&*self);
        }
        if new_size.width > 0 && new_size.height > 0 {
            let limit: u32 = self.limits.max_texture_dimension_2d;
            self.size = new_size;
            self.config.width = if new_size.width <= limit {
                new_size.width
            } else {
                limit
            };
            self.config.height = if new_size.height <= limit {
                new_size.height
            } else {
                limit
            };
            self.surface_configured = true;
            Some(self.config)
        } else {
            None
        }
    }

    /// Replaces the pipeline by that of `shader_source`.
    ///
    /// The new pipeline is described in full before it takes the old one's
    /// place; nothing else changes.
    pub fn update_shader(&mut self, shader_source: &str)
        ensures
            final(self)@.wf(),
            final(self)@ == old(self)@.update_shader(shader_source@),
    {
        proof {
            use_type_invariant(&*self);
        }
        let mut bind_group_layouts: Vec<u32> = Vec::new();
        bind_group_layouts.push(self.common_buffer.binding);
        let pipeline = Pipeline::new(
            &PipelineCreateDesc {
                format: self.config.format,
                shader_source,
                bind_group_layouts: &bind_group_layouts,
            },
        );
        self.pipeline = Some(pipeline);
    }

    /// Whether the surface has been configured.
    pub fn surface_configured(&self) -> (configured: bool)
        ensures
            configured == self@.surface_configured,
    {
        self.surface_configured
    }

    /// The surface's configuration.
    pub fn config(&self) -> (config: SurfaceConfiguration)
        ensures
            config == self@.config,
    {
        self.config
    }

    /// The size that was last asked for.
    pub fn size(&self) -> (size: PhysicalSize)
        ensures
            size == self@.size,
    {
        self.size
    }

    /// The device limits.
    pub fn limits(&self) -> (limits: Limits)
        ensures
            limits == self@.limits,
    {
        self.limits
    }

    /// The current pipeline.
    pub fn pipeline(&self) -> (pipeline: Option<&Pipeline>)
        ensures
            match pipeline {
                Some(pipeline) => self@.pipeline == Some(pipeline@),
                None => self@.pipeline is None,
            },
    {
        self.pipeline.as_ref()
    }

    /// The clock at the last rendered frame.
    pub fn last_frame_time(&self) -> (time: u128)
        ensures
            time == self@.last_frame_time,
    {
        self.last_frame_time
    }

    /// The record that the uniform channel holds.
    pub fn common_buffer_data(&self) -> (data: CommonUniformBuffer)
        ensures
            data == self@.common_buffer.contents,
    {
        self.common_buffer.contents
    }

    /// The uniform channel.
    pub fn common_buffer(&self) -> (buffer: UniformBuffer<CommonUniformBuffer>)
        ensures
            buffer == self@.common_buffer,
    {
        self.common_buffer
    }
}

/// A resize to a size with a zero side is ignored: the state stays exactly
/// as it is, the surface is not reconfigured, and a surface that was never
/// configured stays unconfigured.
pub proof fn lemma_resize_to_zero_is_ignored(gfx: GfxStateView, new_size: PhysicalSize)
    requires
        new_size.width == 0 || new_size.height == 0,
    ensures
        gfx.resize(new_size) == gfx,
        gfx.reconfiguration(new_size) is None,
        !gfx.surface_configured ==> !gfx.resize(new_size).surface_configured,
{
}

/// Until a surface is configured, rendering succeeds without doing
/// anything: the state stays as it is and nothing is asked of the GPU. A
/// new surface is not configured, and neither rendering nor a new shader
/// nor an ignored resize configures it.
pub proof fn lemma_render_before_configure_is_skipped(
    gfx: GfxStateView,
    now: u128,
    shader_source: Seq<char>,
    size: PhysicalSize,
    format: int,
    limits: Limits,
)
    requires
        !gfx.surface_configured,
    ensures
        gfx.frame_at(now) == Frame::Skipped,
        gfx.render_at(now) == gfx,
        !GfxStateView::initial(size, format, limits, now).surface_configured,
        !gfx.render_at(now).surface_configured,
        !gfx.update_shader(shader_source).surface_configured,
        size.width == 0 || size.height == 0 ==> !gfx.resize(size).surface_configured,
{
}

/// Every operation keeps a well-formed state well formed.
pub proof fn lemma_operations_keep_wf(
    gfx: GfxStateView,
    now: u128,
    shader_source: Seq<char>,
    size: PhysicalSize,
)
    requires
        gfx.wf(),
    ensures
        gfx.render_at(now).wf(),
        gfx.resize(size).wf(),
        gfx.update_shader(shader_source).wf(),
{
}

/// A frame on a configured surface clears to the background and binds the
/// common record; it draws, one triangle, exactly when the state has a
/// pipeline. Rendering leaves pipeline and configuration alone.
pub proof fn lemma_frame_draws_with_current_pipeline(gfx: GfxStateView, now: u128)
    requires
        gfx.surface_configured,
    ensures
        gfx.frame_at(now) matches Frame::Rendered(pass) && pass.clear_color == background()
            && pass.bind_group == gfx.common_buffer.binding && pass.uniforms == gfx.render_at(
            now,
        ).common_buffer.contents && pass.draw == (if gfx.pipeline is Some {
            Some(full_screen_draw())
        } else {
            None
        }),
        gfx.drawn_pipeline() == gfx.pipeline,
        gfx.render_at(now).pipeline == gfx.pipeline,
        gfx.render_at(now).config == gfx.config,
        gfx.render_at(now).surface_configured,
{
}

/// A resize is idempotent: the same size once more changes nothing and asks
/// for the same configuration.
pub proof fn lemma_resize_is_idempotent(gfx: GfxStateView, new_size: PhysicalSize)
    ensures
        gfx.resize(new_size).resize(new_size) == gfx.resize(new_size),
        gfx.resize(new_size).reconfiguration(new_size) == gfx.reconfiguration(new_size),
{
}

/// A resize clamps each side to the device's limit and leaves a side within
/// the limit as it is.
pub proof fn lemma_resize_clamps_to_the_limit(gfx: GfxStateView, new_size: PhysicalSize)
    requires
        new_size.width > 0,
        new_size.height > 0,
    ensures
        gfx.resize(new_size).surface_configured,
        gfx.resize(new_size).size == new_size,
        gfx.resize(new_size).config.width <= gfx.limits.max_texture_dimension_2d,
        gfx.resize(new_size).config.height <= gfx.limits.max_texture_dimension_2d,
        new_size.width <= gfx.limits.max_texture_dimension_2d ==> gfx.resize(
            new_size,
        ).config.width == new_size.width,
        new_size.height <= gfx.limits.max_texture_dimension_2d ==> gfx.resize(
            new_size,
        ).config.height == new_size.height,
        gfx.resize(new_size).config.format == gfx.config.format,
        gfx.resize(new_size).pipeline == gfx.pipeline,
{
}

/// Frame time is the time on the clock since the state was created. It is
/// zero at creation, and whatever time on the clock it stood for before an
/// operation, it stands for after it.
pub proof fn lemma_frame_time_is_time_since_creation(
    gfx: GfxStateView,
    created: u128,
    now: u128,
    shader_source: Seq<char>,
    size: PhysicalSize,
    format: int,
    limits: Limits,
)
    requires
        gfx.common_buffer.contents.time + created == gfx.last_frame_time,
    ensures
        ({
            let initial = GfxStateView::initial(size, format, limits, created);
            initial.common_buffer.contents.time + created == initial.last_frame_time
        }),
        ({
            let next = gfx.render_at(now);
            next.common_buffer.contents.time + created == next.last_frame_time
        }),
        ({
            let next = gfx.resize(size);
            next.common_buffer.contents.time + created == next.last_frame_time
        }),
        ({
            let next = gfx.update_shader(shader_source);
            next.common_buffer.contents.time + created == next.last_frame_time
        }),
{
}

/// Frame time is the sum of the frame deltas: each frame adds its delta to
/// the time, and the delta is the clock's advance since the previous frame,
/// or zero where the clock stood still or stepped back.
pub proof fn lemma_frame_time_accumulates(gfx: GfxStateView, now: u128)
    requires
        gfx.wf(),
        gfx.surface_configured,
    ensures
        gfx.uniforms_at(now).time == gfx.common_buffer.contents.time + gfx.uniforms_at(
            now,
        ).delta_time,
        now >= gfx.last_frame_time ==> gfx.uniforms_at(now).delta_time == now
            - gfx.last_frame_time && gfx.render_at(now).last_frame_time == now,
        now < gfx.last_frame_time ==> gfx.uniforms_at(now).delta_time == 0 && gfx.render_at(
            now,
        ).last_frame_time == gfx.last_frame_time,
{
}

} // verus!
