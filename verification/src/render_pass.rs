//! Offscreen render passes.
use vstd::prelude::*;

use crate::call::GlCall;
use crate::context::Context;
use crate::gl::{
    GLuint, GL_COLOR_ATTACHMENT0, GL_DEPTH_ATTACHMENT, GL_FRAMEBUFFER, GL_TEXTURE_2D,
};
use crate::types::{RenderPass, Texture};

verus! {

/// A framebuffer and the textures that are attached to it.
#[derive(Clone, Copy, Debug, PartialEq, Eq, Structural)]
pub struct RenderPassInternal {
    pub gl_fb: GLuint,
    pub texture: Texture,
    pub depth_texture: Option<Texture>,
}

/// The calls that attach textures to a framebuffer and go back to the default one.
pub open spec fn attach_calls(pass: RenderPassInternal, default_framebuffer: GLuint) -> Seq<
    GlCall,
> {
    let color = seq![
        GlCall::BindFramebuffer { target: GL_FRAMEBUFFER, framebuffer: pass.gl_fb },
        GlCall::FramebufferTexture2D {
            target: GL_FRAMEBUFFER,
            attachment: GL_COLOR_ATTACHMENT0,
            textarget: GL_TEXTURE_2D,
            texture: pass.texture.texture,
            level: 0,
        },
    ];
    let depth = match pass.depth_texture {
        Some(depth_texture) => seq![
            GlCall::FramebufferTexture2D {
                target: GL_FRAMEBUFFER,
                attachment: GL_DEPTH_ATTACHMENT,
                textarget: GL_TEXTURE_2D,
                texture: depth_texture.texture,
                level: 0,
            },
        ],
        None => seq![],
    };
    color + depth + seq![
        GlCall::BindFramebuffer { target: GL_FRAMEBUFFER, framebuffer: default_framebuffer },
    ]
}

/// The calls that delete a framebuffer and its textures.
pub open spec fn delete_pass_calls(pass: RenderPassInternal) -> Seq<GlCall> {
    let color = seq![
        GlCall::DeleteFramebuffers { framebuffer: pass.gl_fb },
        GlCall::DeleteTextures { texture: pass.texture.texture },
    ];
    match pass.depth_texture {
        Some(depth_texture) => color.push(GlCall::DeleteTextures { texture: depth_texture.texture }),
        None => color,
    }
}

impl RenderPass {
    /// Makes a pass that renders to `color_img`, with `depth_img` for depth. `gl_fb` is the name
    /// of a framebuffer that the driver has just generated.
    pub fn new(
        context: &mut Context,
        color_img: Texture,
        depth_img: Option<Texture>,
        gl_fb: GLuint,
        calls: &mut Vec<GlCall>,
    ) -> (pass: RenderPass)
        ensures
            pass.0 == old(context).passes@.len(),
            final(context).passes@ == old(context).passes@.push(
                RenderPassInternal { gl_fb, texture: color_img, depth_texture: depth_img },
            ),
            *final(context) == (Context { passes: final(context).passes, ..*old(context) }),
            final(calls)@ == old(calls)@ + attach_calls(
                RenderPassInternal { gl_fb, texture: color_img, depth_texture: depth_img },
                old(context).default_framebuffer,
            ),
            old(context).wf() ==> final(context).wf(),
    {
        let ghost issued = calls@;
        calls.push(GlCall::BindFramebuffer { target: GL_FRAMEBUFFER, framebuffer: gl_fb });
        calls.push(
            GlCall::FramebufferTexture2D {
                target: GL_FRAMEBUFFER,
                attachment: GL_COLOR_ATTACHMENT0,
                textarget: GL_TEXTURE_2D,
                texture: color_img.texture,
                level: 0,
            },
        );
        if let Some(depth_img) = depth_img {
            calls.push(
                GlCall::FramebufferTexture2D {
                    target: GL_FRAMEBUFFER,
                    attachment: GL_DEPTH_ATTACHMENT,
                    textarget: GL_TEXTURE_2D,
                    texture: depth_img.texture,
                    level: 0,
                },
            );
        }
        calls.push(
            GlCall::BindFramebuffer {
                target: GL_FRAMEBUFFER,
                framebuffer: context.default_framebuffer,
            },
        );
        let pass = RenderPassInternal { gl_fb, texture: color_img, depth_texture: depth_img };
        assert(calls@ =~= issued + attach_calls(pass, context.default_framebuffer));
        context.passes.push(pass);
        RenderPass(context.passes.len() - 1)
    }

    /// The color texture of the pass.
    pub fn texture(&self, ctx: &mut Context) -> (texture: Texture)
        requires
            self.0 < old(ctx).passes@.len(),
        ensures
            texture == old(ctx).passes@[self.0 as int].texture,
            *final(ctx) == *old(ctx),
    {
        ctx.passes[self.0].texture
    }

    /// Deletes the framebuffer and its textures. The handle stays, and must not be used again.
    pub fn delete(&self, ctx: &mut Context, calls: &mut Vec<GlCall>)
        requires
            self.0 < old(ctx).passes@.len(),
        ensures
            *final(ctx) == *old(ctx),
            final(calls)@ == old(calls)@ + delete_pass_calls(old(ctx).passes@[self.0 as int]),
    {
        let ghost issued = calls@;
        let pass = ctx.passes[self.0];
        calls.push(GlCall::DeleteFramebuffers { framebuffer: pass.gl_fb });
        calls.push(GlCall::DeleteTextures { texture: pass.texture.texture });
        if let Some(depth_texture) = pass.depth_texture {
            calls.push(GlCall::DeleteTextures { texture: depth_texture.texture });
        }
        assert(calls@ =~= issued + delete_pass_calls(pass));
    }
}

} // verus!
