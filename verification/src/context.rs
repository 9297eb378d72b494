//! The rendering context: resources, the remembered driver state, and the frame operations.
use vstd::prelude::*;

use crate::cache::{clear_buffer_calls, clear_texture_calls, GlCache, GlCacheView};
use crate::call::GlCall;
use crate::gl::{
    GLenum, GLuint, GL_ARRAY_BUFFER, GL_BACK, GL_BLEND, GL_CCW, GL_COLOR_BUFFER_BIT, GL_CULL_FACE,
    GL_CW, GL_DEPTH_BUFFER_BIT, GL_DEPTH_TEST, GL_ELEMENT_ARRAY_BUFFER, GL_FRAMEBUFFER, GL_FRONT,
    GL_SCISSOR_TEST, GL_STENCIL_BUFFER_BIT, GL_STENCIL_TEST, GL_UNSIGNED_SHORT,
};
use crate::pipeline::PipelineInternal;
use crate::render_pass::RenderPassInternal;
use crate::shader::ShaderInternal;
use crate::types::{
    BlendState, ColorBits, ColorMask, CullFace, FrontFaceOrder, PassAction, Pipeline,
    PipelineParams, PrimitiveType, RenderPass, StencilFaceState, StencilState,
    MAX_SHADERSTAGE_IMAGES,
};

verus! {

/// The renderer. Handles are indices into its tables.
pub struct Context {
    pub shaders: Vec<ShaderInternal>,
    pub pipelines: Vec<PipelineInternal>,
    pub passes: Vec<RenderPassInternal>,
    pub default_framebuffer: GLuint,
    pub cache: GlCache,
}

/// The calls that cull the given faces, whatever was culled before.
pub open spec fn cull_face_requests(cull_face: CullFace) -> Seq<GlCall> {
    match cull_face {
        CullFace::Nothing => seq![GlCall::Disable { cap: GL_CULL_FACE }],
        CullFace::Front => seq![
            GlCall::Enable { cap: GL_CULL_FACE },
            GlCall::CullFace { mode: GL_FRONT },
        ],
        CullFace::Back => seq![
            GlCall::Enable { cap: GL_CULL_FACE },
            GlCall::CullFace { mode: GL_BACK },
        ],
    }
}

/// The calls that cull `cull_face`, where `cached` was culled before.
pub open spec fn cull_face_calls(cached: CullFace, cull_face: CullFace) -> Seq<GlCall> {
    if cached == cull_face {
        seq![]
    } else {
        cull_face_requests(cull_face)
    }
}

/// The call that writes the channels of `mask`, whichever were written before.
pub open spec fn color_write_requests(mask: ColorMask) -> Seq<GlCall> {
    seq![GlCall::ColorMask { r: mask.0, g: mask.1, b: mask.2, a: mask.3 }]
}

/// The calls that write the channels of `mask`, where those of `cached` were written before.
pub open spec fn color_write_calls(cached: ColorMask, mask: ColorMask) -> Seq<GlCall> {
    if cached == mask {
        seq![]
    } else {
        color_write_requests(mask)
    }
}

/// Alpha blending refines color blending; it cannot be asked for alone.
pub open spec fn blend_allowed(
    color_blend: Option<BlendState>,
    alpha_blend: Option<BlendState>,
) -> bool {
    alpha_blend is Some ==> color_blend is Some
}

/// The calls that set factors and equations. Without `alpha`, color and alpha share them.
pub open spec fn blend_state_calls(color: BlendState, alpha: Option<BlendState>) -> Seq<GlCall> {
    match alpha {
        Some(alpha) => seq![
            GlCall::BlendFuncSeparate {
                source_rgb: color.sfactor.gl_enum(),
                destination_rgb: color.dfactor.gl_enum(),
                source_alpha: alpha.sfactor.gl_enum(),
                destination_alpha: alpha.dfactor.gl_enum(),
            },
            GlCall::BlendEquationSeparate {
                rgb: color.equation.gl_enum(),
                alpha: alpha.equation.gl_enum(),
            },
        ],
        None => seq![
            GlCall::BlendFunc {
                source: color.sfactor.gl_enum(),
                destination: color.dfactor.gl_enum(),
            },
            GlCall::BlendEquationSeparate {
                rgb: color.equation.gl_enum(),
                alpha: color.equation.gl_enum(),
            },
        ],
    }
}

/// The calls that set blending, whatever was set before.
pub open spec fn blend_requests(
    color_blend: Option<BlendState>,
    alpha_blend: Option<BlendState>,
) -> Seq<GlCall> {
    match color_blend {
        Some(color) => seq![GlCall::Enable { cap: GL_BLEND }] + blend_state_calls(
            color,
            alpha_blend,
        ),
        None => seq![GlCall::Disable { cap: GL_BLEND }],
    }
}

/// The calls that set blending, given what was set before. Blending is switched on or off only
/// where that changes.
pub open spec fn blend_calls(
    cached_color: Option<BlendState>,
    cached_alpha: Option<BlendState>,
    color_blend: Option<BlendState>,
    alpha_blend: Option<BlendState>,
) -> Seq<GlCall> {
    if cached_color == color_blend && cached_alpha == alpha_blend {
        seq![]
    } else {
        match color_blend {
            Some(color) => {
                let enable = if cached_color is None {
                    seq![GlCall::Enable { cap: GL_BLEND }]
                } else {
                    seq![]
                };
                enable + blend_state_calls(color, alpha_blend)
            },
            None => if cached_color is Some {
                seq![GlCall::Disable { cap: GL_BLEND }]
            } else {
                seq![]
            },
        }
    }
}

/// The calls that set the stencil test of one face.
pub open spec fn stencil_face_calls(face: GLenum, state: StencilFaceState) -> Seq<GlCall> {
    seq![
        GlCall::StencilOpSeparate {
            face,
            fail: state.fail_op.gl_enum(),
            depth_fail: state.depth_fail_op.gl_enum(),
            pass: state.pass_op.gl_enum(),
        },
        GlCall::StencilFuncSeparate {
            face,
            func: state.test_func.gl_enum(),
            reference: state.test_ref,
            mask: state.test_mask,
        },
        GlCall::StencilMaskSeparate { face, mask: state.write_mask },
    ]
}

/// The calls that set the stencil test, whatever was set before.
pub open spec fn stencil_requests(stencil_test: Option<StencilState>) -> Seq<GlCall> {
    match stencil_test {
        Some(stencil) => seq![GlCall::Enable { cap: GL_STENCIL_TEST }] + stencil_face_calls(
            GL_FRONT,
            stencil.front,
        ) + stencil_face_calls(GL_BACK, stencil.back),
        None => seq![GlCall::Disable { cap: GL_STENCIL_TEST }],
    }
}

/// The calls that set the stencil test, given what was set before.
pub open spec fn stencil_calls(
    cached: Option<StencilState>,
    stencil_test: Option<StencilState>,
) -> Seq<GlCall> {
    if cached == stencil_test {
        seq![]
    } else {
        match stencil_test {
            Some(stencil) => {
                let enable = if cached is None {
                    seq![GlCall::Enable { cap: GL_STENCIL_TEST }]
                } else {
                    seq![]
                };
                enable + stencil_face_calls(GL_FRONT, stencil.front) + stencil_face_calls(
                    GL_BACK,
                    stencil.back,
                )
            },
            None => seq![GlCall::Disable { cap: GL_STENCIL_TEST }],
        }
    }
}

/// The settings of a pipeline that are sent whenever it is applied: program, scissor test, depth
/// test, winding order.
pub open spec fn pipeline_base_calls(program: GLuint, params: PipelineParams) -> Seq<GlCall> {
    let depth = if params.depth_write {
        seq![
            GlCall::Enable { cap: GL_DEPTH_TEST },
            GlCall::DepthFunc { func: params.depth_test.gl_enum() },
        ]
    } else {
        seq![GlCall::Disable { cap: GL_DEPTH_TEST }]
    };
    let mode = match params.front_face_order {
        FrontFaceOrder::Clockwise => GL_CW,
        FrontFaceOrder::CounterClockwise => GL_CCW,
    };
    seq![GlCall::UseProgram { program }, GlCall::Enable { cap: GL_SCISSOR_TEST }] + depth + seq![
        GlCall::FrontFace { mode },
    ]
}

/// The calls that apply a pipeline, whatever was applied before.
pub open spec fn pipeline_requests(program: GLuint, params: PipelineParams) -> Seq<GlCall> {
    pipeline_base_calls(program, params) + cull_face_requests(params.cull_face) + blend_requests(
        params.color_blend,
        params.alpha_blend,
    ) + stencil_requests(params.stencil_test) + color_write_requests(params.color_write)
}

/// The calls that apply a pipeline, given what is remembered.
pub open spec fn pipeline_calls(
    cache: GlCacheView,
    program: GLuint,
    params: PipelineParams,
) -> Seq<GlCall> {
    pipeline_base_calls(program, params) + cull_face_calls(cache.cull_face, params.cull_face)
        + blend_calls(cache.color_blend, cache.alpha_blend, params.color_blend, params.alpha_blend)
        + stencil_calls(cache.stencil, params.stencil_test) + color_write_calls(
        cache.color_write,
        params.color_write,
    )
}

/// The cache after a pipeline has been applied.
pub open spec fn pipeline_cache(
    cache: GlCacheView,
    pipeline: Pipeline,
    params: PipelineParams,
) -> GlCacheView {
    GlCacheView {
        cur_pipeline: Some(pipeline),
        cull_face: params.cull_face,
        color_blend: params.color_blend,
        alpha_blend: params.alpha_blend,
        stencil: params.stencil_test,
        color_write: params.color_write,
        ..cache
    }
}

/// The planes that a clear touches, as a sum of distinct bits.
pub open spec fn clear_mask(color: bool, depth: bool, stencil: bool) -> int {
    (if color { GL_COLOR_BUFFER_BIT as int } else { 0 }) + (if depth {
        GL_DEPTH_BUFFER_BIT as int
    } else {
        0
    }) + (if stencil { GL_STENCIL_BUFFER_BIT as int } else { 0 })
}

/// The calls that clear the given planes to the given values: none where no plane is given.
pub open spec fn clear_calls(
    color: Option<ColorBits>,
    depth: Option<u32>,
    stencil: Option<i32>,
) -> Seq<GlCall> {
    let color_value = match color {
        Some((r, g, b, a)) => seq![
            GlCall::ClearColor { red_bits: r, green_bits: g, blue_bits: b, alpha_bits: a },
        ],
        None => seq![],
    };
    let depth_value = match depth {
        Some(depth) => seq![GlCall::ClearDepthf { depth_bits: depth }],
        None => seq![],
    };
    let stencil_value = match stencil {
        Some(stencil) => seq![GlCall::ClearStencil { stencil }],
        None => seq![],
    };
    let clear = if color is None && depth is None && stencil is None {
        seq![]
    } else {
        seq![
            GlCall::Clear { mask: clear_mask(color is Some, depth is Some, stencil is Some) as u32 },
        ]
    };
    color_value + depth_value + stencil_value + clear
}

/// The calls that begin a pass on a framebuffer of the given size.
pub open spec fn begin_pass_calls(
    framebuffer: GLuint,
    width: i32,
    height: i32,
    action: PassAction,
) -> Seq<GlCall> {
    let target = seq![
        GlCall::BindFramebuffer { target: GL_FRAMEBUFFER, framebuffer },
        GlCall::Viewport { x: 0, y: 0, width, height },
        GlCall::Scissor { x: 0, y: 0, width, height },
    ];
    match action {
        PassAction::Nothing => target,
        PassAction::Clear { color, depth, stencil } => target + clear_calls(color, depth, stencil),
    }
}

/// Where a pass renders to: its framebuffer and the size of its texture, or the default
/// framebuffer and the size of the screen.
pub open spec fn pass_target(
    ctx: Context,
    pass: Option<RenderPass>,
    screen_width: i32,
    screen_height: i32,
) -> (GLuint, i32, i32) {
    match pass {
        None => (ctx.default_framebuffer, screen_width, screen_height),
        Some(pass) => {
            let target = ctx.passes@[pass.0 as int];
            (target.gl_fb, target.texture.width as i32, target.texture.height as i32)
        },
    }
}

/// The calls that limit drawing to a rectangle.
pub open spec fn scissor_calls(x: i32, y: i32, w: i32, h: i32) -> Seq<GlCall> {
    seq![GlCall::Scissor { x, y, width: w, height: h }]
}

/// The calls that end a pass.
pub open spec fn end_pass_calls(cache: GlCacheView, default_framebuffer: GLuint) -> Seq<GlCall> {
    seq![GlCall::BindFramebuffer { target: GL_FRAMEBUFFER, framebuffer: default_framebuffer }]
        + clear_buffer_calls(cache)
}

/// The calls that unbind every buffer and texture.
pub open spec fn commit_calls(cache: GlCacheView) -> Seq<GlCall> {
    clear_buffer_calls(cache) + clear_texture_calls(
        cache.textures,
        MAX_SHADERSTAGE_IMAGES as nat,
    )
}

/// The calls that draw `num_instances` instances of `num_elements` indices from index
/// `base_element` on.
pub open spec fn draw_calls(
    primitive_type: PrimitiveType,
    base_element: i32,
    num_elements: i32,
    num_instances: i32,
) -> Seq<GlCall> {
    seq![
        GlCall::DrawElementsInstanced {
            mode: primitive_type.gl_enum(),
            count: num_elements,
            index_type: GL_UNSIGNED_SHORT,
            indices: (2 * base_element) as i32,
            instances: num_instances,
        },
    ]
}

proof fn lemma_concat_right(
    s: Seq<GlCall>,
    a: Seq<GlCall>,
    b: Seq<GlCall>,
    c: Seq<GlCall>,
    d: Seq<GlCall>,
    e: Seq<GlCall>,
)
    ensures
        s + a + b + c + d + e == s + (a + b + c + d + e),
{
    assert(s + a + b + c + d + e =~= s + (a + b + c + d + e));
}

impl Context {
    /// Every pipeline has a shader, and the current pipeline exists.
    pub open spec fn wf(self) -> bool {
        &&& self.cache@.wf()
        &&& forall|p: int|
            0 <= p < self.pipelines@.len() ==> (#[trigger] self.pipelines@[p]).shader.0
                < self.shaders@.len()
        &&& self.cache.cur_pipeline matches Some(pipeline) ==> pipeline.0 < self.pipelines@.len()
    }

    /// Two contexts that differ at most in what they remember of the driver.
    pub open spec fn same_resources(self, other: Context) -> bool {
        &&& self.shaders == other.shaders
        &&& self.pipelines == other.pipelines
        &&& self.passes == other.passes
        &&& self.default_framebuffer == other.default_framebuffer
    }

    /// A handle that names a pipeline of this context.
    pub open spec fn has_pipeline(self, pipeline: Pipeline) -> bool {
        pipeline.0 < self.pipelines@.len()
    }

    /// The pipeline behind a handle.
    pub open spec fn pipeline(self, pipeline: Pipeline) -> PipelineInternal {
        self.pipelines@[pipeline.0 as int]
    }

    /// The shader of the pipeline behind a handle.
    pub open spec fn shader_of(self, pipeline: Pipeline) -> ShaderInternal {
        self.shaders@[self.pipeline(pipeline).shader.0 as int]
    }

    /// A context for a driver in its initial state, that renders to `default_framebuffer` and
    /// keeps its vertex state in the vertex array `vao`.
    pub fn new(default_framebuffer: GLuint, vao: GLuint, calls: &mut Vec<GlCall>) -> (ctx: Context)
        ensures
            ctx.wf(),
            ctx.cache@ == GlCacheView::initial(),
            ctx.shaders@.len() == 0,
            ctx.pipelines@.len() == 0,
            ctx.passes@.len() == 0,
            ctx.default_framebuffer == default_framebuffer,
            final(calls)@ == old(calls)@.push(GlCall::BindVertexArray { array: vao }),
    {
        calls.push(GlCall::BindVertexArray { array: vao });
        Context {
            default_framebuffer,
            shaders: Vec::new(),
            pipelines: Vec::new(),
            passes: Vec::new(),
            cache: GlCache::new(),
        }
    }

    /// Makes `pipeline` the current one: its program and all its settings.
    pub fn apply_pipeline(&mut self, pipeline: &Pipeline, calls: &mut Vec<GlCall>)
        requires
            old(self).wf(),
            old(self).has_pipeline(*pipeline),
            blend_allowed(
                old(self).pipeline(*pipeline).params.color_blend,
                old(self).pipeline(*pipeline).params.alpha_blend,
            ),
        ensures
            final(self).wf(),
            final(self).same_resources(*old(self)),
            final(self).cache@ == pipeline_cache(
                old(self).cache@,
                *pipeline,
                old(self).pipeline(*pipeline).params,
            ),
            final(calls)@ == old(calls)@ + pipeline_calls(
                old(self).cache@,
                old(self).shader_of(*pipeline).program,
                old(self).pipeline(*pipeline).params,
            ),
    {
        let ghost cache = self.cache@;
        let ghost issued = calls@;
        self.cache.cur_pipeline = Some(*pipeline);
        let params = self.pipelines[pipeline.0].params;
        let shader = self.pipelines[pipeline.0].shader;
        let program = self.shaders[shader.0].program;
        Self::send_pipeline_base(program, &params, calls);
        self.set_cull_face(params.cull_face, calls);
        self.set_blend(params.color_blend, params.alpha_blend, calls);
        self.set_stencil(params.stencil_test, calls);
        self.set_color_write(params.color_write, calls);
        proof {
            lemma_concat_right(
                issued,
                pipeline_base_calls(program, params),
                cull_face_calls(cache.cull_face, params.cull_face),
                blend_calls(
                    cache.color_blend,
                    cache.alpha_blend,
                    params.color_blend,
                    params.alpha_blend,
                ),
                stencil_calls(cache.stencil, params.stencil_test),
                color_write_calls(cache.color_write, params.color_write),
            );
        }
    }

    /// Sends the settings that are not remembered.
    fn send_pipeline_base(program: GLuint, params: &PipelineParams, calls: &mut Vec<GlCall>)
        ensures
            final(calls)@ == old(calls)@ + pipeline_base_calls(program, *params),
    {
        calls.push(GlCall::UseProgram { program });
        calls.push(GlCall::Enable { cap: GL_SCISSOR_TEST });
        if params.depth_write {
            calls.push(GlCall::Enable { cap: GL_DEPTH_TEST });
            calls.push(GlCall::DepthFunc { func: params.depth_test.into() });
        } else {
            calls.push(GlCall::Disable { cap: GL_DEPTH_TEST });
        }
        match params.front_face_order {
            FrontFaceOrder::Clockwise => {
                calls.push(GlCall::FrontFace { mode: GL_CW });
            },
            FrontFaceOrder::CounterClockwise => {
                calls.push(GlCall::FrontFace { mode: GL_CCW });
            },
        }
    }

    /// Culls the given faces.
    pub fn set_cull_face(&mut self, cull_face: CullFace, calls: &mut Vec<GlCall>)
        ensures
            final(self).same_resources(*old(self)),
            final(self).cache@ == (GlCacheView { cull_face, ..old(self).cache@ }),
            final(calls)@ == old(calls)@ + cull_face_calls(old(self).cache.cull_face, cull_face),
            old(self).wf() ==> final(self).wf(),
    {
        if self.cache.cull_face == cull_face {
            return;
        }
        match cull_face {
            CullFace::Nothing => {
                calls.push(GlCall::Disable { cap: GL_CULL_FACE });
            },
            CullFace::Front => {
                calls.push(GlCall::Enable { cap: GL_CULL_FACE });
                calls.push(GlCall::CullFace { mode: GL_FRONT });
            },
            CullFace::Back => {
                calls.push(GlCall::Enable { cap: GL_CULL_FACE });
                calls.push(GlCall::CullFace { mode: GL_BACK });
            },
        }
        self.cache.cull_face = cull_face;
    }

    /// Writes the given color channels.
    pub fn set_color_write(&mut self, color_write: ColorMask, calls: &mut Vec<GlCall>)
        ensures
            final(self).same_resources(*old(self)),
            final(self).cache@ == (GlCacheView { color_write, ..old(self).cache@ }),
            final(calls)@ == old(calls)@ + color_write_calls(
                old(self).cache.color_write,
                color_write,
            ),
            old(self).wf() ==> final(self).wf(),
    {
        let (r, g, b, a) = color_write;
        let cached = self.cache.color_write;
        if cached.0 == r && cached.1 == g && cached.2 == b && cached.3 == a {
            return;
        }
        calls.push(GlCall::ColorMask { r, g, b, a });
        self.cache.color_write = color_write;
    }

    /// Sets color and alpha blending; without `color_blend`, blending is off.
    pub fn set_blend(
        &mut self,
        color_blend: Option<BlendState>,
        alpha_blend: Option<BlendState>,
        calls: &mut Vec<GlCall>,
    )
        requires
            blend_allowed(color_blend, alpha_blend),
        ensures
            final(self).same_resources(*old(self)),
            final(self).cache@ == (GlCacheView { color_blend, alpha_blend, ..old(self).cache@ }),
            final(calls)@ == old(calls)@ + blend_calls(
                old(self).cache.color_blend,
                old(self).cache.alpha_blend,
                color_blend,
                alpha_blend,
            ),
            old(self).wf() ==> final(self).wf(),
    {
        if self.cache.color_blend == color_blend && self.cache.alpha_blend == alpha_blend {
            return;
        }
        let ghost issued = calls@;
        if let Some(color) = color_blend {
            if self.cache.color_blend.is_none() {
                calls.push(GlCall::Enable { cap: GL_BLEND });
            }
            let BlendState { equation: eq_rgb, sfactor: src_rgb, dfactor: dst_rgb } = color;
            if let Some(alpha) = alpha_blend {
                let BlendState { equation: eq_alpha, sfactor: src_alpha, dfactor: dst_alpha } =
                    alpha;
                calls.push(
                    GlCall::BlendFuncSeparate {
                        source_rgb: src_rgb.into(),
                        destination_rgb: dst_rgb.into(),
                        source_alpha: src_alpha.into(),
                        destination_alpha: dst_alpha.into(),
                    },
                );
                calls.push(
                    GlCall::BlendEquationSeparate { rgb: eq_rgb.into(), alpha: eq_alpha.into() },
                );
            } else {
                calls.push(
                    GlCall::BlendFunc { source: src_rgb.into(), destination: dst_rgb.into() },
                );
                calls.push(
                    GlCall::BlendEquationSeparate { rgb: eq_rgb.into(), alpha: eq_rgb.into() },
                );
            }
        } else if self.cache.color_blend.is_some() {
            calls.push(GlCall::Disable { cap: GL_BLEND });
        }
        assert(calls@ =~= issued + blend_calls(
            self.cache.color_blend,
            self.cache.alpha_blend,
            color_blend,
            alpha_blend,
        ));
        self.cache.color_blend = color_blend;
        self.cache.alpha_blend = alpha_blend;
    }

    /// Sets the stencil test; `None` switches it off.
    pub fn set_stencil(&mut self, stencil_test: Option<StencilState>, calls: &mut Vec<GlCall>)
        ensures
            final(self).same_resources(*old(self)),
            final(self).cache@ == (GlCacheView { stencil: stencil_test, ..old(self).cache@ }),
            final(calls)@ == old(calls)@ + stencil_calls(old(self).cache.stencil, stencil_test),
            old(self).wf() ==> final(self).wf(),
    {
        if self.cache.stencil == stencil_test {
            return;
        }
        let ghost issued = calls@;
        if let Some(stencil) = stencil_test {
            if self.cache.stencil.is_none() {
                calls.push(GlCall::Enable { cap: GL_STENCIL_TEST });
            }
            let front = &stencil.front;
            calls.push(
                GlCall::StencilOpSeparate {
                    face: GL_FRONT,
                    fail: front.fail_op.into(),
                    depth_fail: front.depth_fail_op.into(),
                    pass: front.pass_op.into(),
                },
            );
            calls.push(
                GlCall::StencilFuncSeparate {
                    face: GL_FRONT,
                    func: front.test_func.into(),
                    reference: front.test_ref,
                    mask: front.test_mask,
                },
            );
            calls.push(GlCall::StencilMaskSeparate { face: GL_FRONT, mask: front.write_mask });
            let back = &stencil.back;
            calls.push(
                GlCall::StencilOpSeparate {
                    face: GL_BACK,
                    fail: back.fail_op.into(),
                    depth_fail: back.depth_fail_op.into(),
                    pass: back.pass_op.into(),
                },
            );
            calls.push(
                GlCall::StencilFuncSeparate {
                    face: GL_BACK,
                    func: back.test_func.into(),
                    reference: back.test_ref,
                    mask: back.test_mask,
                },
            );
            calls.push(GlCall::StencilMaskSeparate { face: GL_BACK, mask: back.write_mask });
        } else if self.cache.stencil.is_some() {
            calls.push(GlCall::Disable { cap: GL_STENCIL_TEST });
        }
        assert(calls@ =~= issued + stencil_calls(self.cache.stencil, stencil_test));
        self.cache.stencil = stencil_test;
    }

    /// Limits drawing to a rectangle.
    pub fn apply_scissor_rect(
        &mut self,
        x: i32,
        y: i32,
        w: i32,
        h: i32,
        calls: &mut Vec<GlCall>,
    )
        ensures
            *final(self) == *old(self),
            final(calls)@ == old(calls)@.push(GlCall::Scissor { x, y, width: w, height: h }),
            final(calls)@ == old(calls)@ + scissor_calls(x, y, w, h),
    {
        calls.push(GlCall::Scissor { x, y, width: w, height: h });
    }

    /// Clears the planes for which a value is given.
    pub fn clear(
        &self,
        color: Option<ColorBits>,
        depth: Option<u32>,
        stencil: Option<i32>,
        calls: &mut Vec<GlCall>,
    )
        ensures
            final(calls)@ == old(calls)@ + clear_calls(color, depth, stencil),
    {
        let ghost issued = calls@;
        let mut bits: u32 = 0;
        if let Some((r, g, b, a)) = color {
            bits |= GL_COLOR_BUFFER_BIT;
            calls.push(
                GlCall::ClearColor { red_bits: r, green_bits: g, blue_bits: b, alpha_bits: a },
            );
        }
        if let Some(v) = depth {
            bits |= GL_DEPTH_BUFFER_BIT;
            calls.push(GlCall::ClearDepthf { depth_bits: v });
        }
        if let Some(v) = stencil {
            bits |= GL_STENCIL_BUFFER_BIT;
            calls.push(GlCall::ClearStencil { stencil: v });
        }
        proof {
            assert(0u32 | 0x4000u32 == 0x4000u32) by (bit_vector);
            assert(0u32 | 0x0100u32 == 0x0100u32) by (bit_vector);
            assert(0u32 | 0x0400u32 == 0x0400u32) by (bit_vector);
            assert(0x4000u32 | 0x0100u32 == 0x4100u32) by (bit_vector);
            assert(0x4000u32 | 0x0400u32 == 0x4400u32) by (bit_vector);
            assert(0x0100u32 | 0x0400u32 == 0x0500u32) by (bit_vector);
            assert(0x4100u32 | 0x0400u32 == 0x4500u32) by (bit_vector);
            assert(bits == clear_mask(color is Some, depth is Some, stencil is Some));
        }
        if bits != 0 {
            calls.push(GlCall::Clear { mask: bits });
        }
        assert(calls@ =~= issued + clear_calls(color, depth, stencil));
    }

    /// Starts rendering to the default framebuffer, which is the size of the screen.
    pub fn begin_default_pass(
        &mut self,
        action: PassAction,
        screen_width: i32,
        screen_height: i32,
        calls: &mut Vec<GlCall>,
    )
        ensures
            *final(self) == *old(self),
            final(calls)@ == old(calls)@ + begin_pass_calls(
                old(self).default_framebuffer,
                screen_width,
                screen_height,
                action,
            ),
    {
        self.begin_pass(None, action, screen_width, screen_height, calls);
    }

    /// Starts rendering to an offscreen framebuffer, or to the default one if there is no `pass`.
    pub fn begin_pass(
        &mut self,
        pass: Option<RenderPass>,
        action: PassAction,
        screen_width: i32,
        screen_height: i32,
        calls: &mut Vec<GlCall>,
    )
        requires
            pass matches Some(pass) ==> pass.0 < old(self).passes@.len(),
        ensures
            *final(self) == *old(self),
            pass is None ==> final(calls)@ == old(calls)@ + begin_pass_calls(
                old(self).default_framebuffer,
                screen_width,
                screen_height,
                action,
            ),
            pass matches Some(pass) ==> {
                let target = old(self).passes@[pass.0 as int];
                final(calls)@ == old(calls)@ + begin_pass_calls(
                    target.gl_fb,
                    target.texture.width as i32,
                    target.texture.height as i32,
                    action,
                )
            },
            ({
                let target = pass_target(*old(self), pass, screen_width, screen_height);
                final(calls)@ == old(calls)@ + begin_pass_calls(
                    target.0,
                    target.1,
                    target.2,
                    action,
                )
            }),
    {
        let (framebuffer, w, h) = match pass {
            None => (self.default_framebuffer, screen_width, screen_height),
            Some(pass) => {
                let pass = self.passes[pass.0];
                (pass.gl_fb, pass.texture.width as i32, pass.texture.height as i32)
            },
        };
        let ghost issued = calls@;
        calls.push(GlCall::BindFramebuffer { target: GL_FRAMEBUFFER, framebuffer });
        calls.push(GlCall::Viewport { x: 0, y: 0, width: w, height: h });
        calls.push(GlCall::Scissor { x: 0, y: 0, width: w, height: h });
        match action {
            PassAction::Nothing => {},
            PassAction::Clear { color, depth, stencil } => {
                self.clear(color, depth, stencil, calls);
            },
        }
        assert(calls@ =~= issued + begin_pass_calls(framebuffer, w, h, action));
    }

    /// Goes back to the default framebuffer and unbinds both buffers.
    pub fn end_render_pass(&mut self, calls: &mut Vec<GlCall>)
        ensures
            final(self).same_resources(*old(self)),
            final(self).cache@ == (GlCacheView {
                vertex_buffer: 0,
                index_buffer: 0,
                ..old(self).cache@
            }),
            final(calls)@ == old(calls)@ + end_pass_calls(
                old(self).cache@,
                old(self).default_framebuffer,
            ),
            old(self).wf() ==> final(self).wf(),
    {
        let ghost issued = calls@;
        let ghost cache = self.cache@;
        calls.push(
            GlCall::BindFramebuffer {
                target: GL_FRAMEBUFFER,
                framebuffer: self.default_framebuffer,
            },
        );
        self.cache.bind_buffer(GL_ARRAY_BUFFER, 0, calls);
        self.cache.bind_buffer(GL_ELEMENT_ARRAY_BUFFER, 0, calls);
        assert(calls@ =~= issued + end_pass_calls(cache, self.default_framebuffer));
    }

    /// Ends a frame: nothing stays bound.
    pub fn commit_frame(&mut self, calls: &mut Vec<GlCall>)
        ensures
            final(self).same_resources(*old(self)),
            final(self).cache@ == (GlCacheView {
                vertex_buffer: 0,
                index_buffer: 0,
                ..old(self).cache@.without_textures()
            }),
            final(calls)@ == old(calls)@ + commit_calls(old(self).cache@),
            old(self).wf() ==> final(self).wf(),
    {
        let ghost issued = calls@;
        let ghost cache = self.cache@;
        self.cache.clear_buffer_bindings(calls);
        self.cache.clear_texture_bindings(calls);
        assert(calls@ =~= issued + commit_calls(cache));
    }

    /// Draws `num_instances` instances of `num_elements` indices from index `base_element` on,
    /// with the current pipeline.
    pub fn draw(
        &self,
        base_element: i32,
        num_elements: i32,
        num_instances: i32,
        calls: &mut Vec<GlCall>,
    )
        requires
            self.wf(),
            self.cache.cur_pipeline is Some,
            i32::MIN <= 2 * base_element <= i32::MAX,
        ensures
            final(calls)@ == old(calls)@.push(
                GlCall::DrawElementsInstanced {
                    mode: self.pipeline(
                        self.cache.cur_pipeline->0,
                    ).params.primitive_type.gl_enum(),
                    count: num_elements,
                    index_type: GL_UNSIGNED_SHORT,
                    indices: (2 * base_element) as i32,
                    instances: num_instances,
                },
            ),
            final(calls)@ == old(calls)@ + draw_calls(
                self.pipeline(self.cache.cur_pipeline->0).params.primitive_type,
                base_element,
                num_elements,
                num_instances,
            ),
    {
        let pipeline = self.cache.cur_pipeline.unwrap();
        let primitive_type: GLenum = self.pipelines[pipeline.0].params.primitive_type.into();
        calls.push(
            GlCall::DrawElementsInstanced {
                mode: primitive_type,
                count: num_elements,
                index_type: GL_UNSIGNED_SHORT,
                indices: 2 * base_element,
                instances: num_instances,
            },
        );
    }
}

} // verus!
