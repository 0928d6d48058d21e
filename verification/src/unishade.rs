//! Unishade: draws objects with very simple lighting, one color toward
//! the top and a different color toward the bottom. All mutable state
//! lives in `UnishadeInputs`; the style instance itself holds only the
//! pipeline compiled for one topology.

use vstd::prelude::*;

use crate::draw::{
    DrawCall, Encoder, Error, Factory, Handle, Primitive, Rasterizer, Rect, Slice, Style,
    StyleBlock, StyleInputs, TransformBlock,
};

verus! {

/// The two-color shading block: `dark` below, `light` above, each four
/// 32-bit scalar bit words.
#[derive(Clone, Copy)]
pub struct UnishadeBlock {
    pub dark: [u32; 4],
    pub light: [u32; 4],
}

/// The configuration for unishade rendering: the shader set, the two
/// uniform buffers, and the pending and written value of each.
pub struct UnishadeInputs {
    shaders: Handle,
    staged_transform: Option<TransformBlock>,
    written_transform: Option<TransformBlock>,
    transform_block: Handle,
    staged_shade: Option<UnishadeBlock>,
    written_shade: Option<UnishadeBlock>,
    shade_block: Handle,
}

impl UnishadeInputs {
    /// The constant buffer holding the transform block.
    pub closed spec fn transform_buffer(&self) -> Handle {
        self.transform_block
    }

    /// The constant buffer holding the shade block.
    pub closed spec fn shade_buffer(&self) -> Handle {
        self.shade_block
    }

    /// Sets the dark and light colors for the next and later draws.
    pub fn colors(&mut self, dark: [u32; 4], light: [u32; 4])
        ensures
            final(self).style_state() == Some(
                StyleBlock::Shade(UnishadeBlock { dark: dark, light: light }),
            ),
            final(self).transform_state() == old(self).transform_state(),
            final(self).shader_set_handle() == old(self).shader_set_handle(),
    {
        self.staged_shade = Some(UnishadeBlock { dark: dark, light: light });
    }
}

impl StyleInputs for UnishadeInputs {
    closed spec fn transform_state(&self) -> Option<TransformBlock> {
        if self.staged_transform is Some {
            self.staged_transform
        } else {
            self.written_transform
        }
    }

    closed spec fn style_state(&self) -> Option<StyleBlock> {
        match if self.staged_shade is Some {
            self.staged_shade
        } else {
            self.written_shade
        } {
            Some(b) => Some(StyleBlock::Shade(b)),
            None => None,
        }
    }

    closed spec fn shader_set_handle(&self) -> Handle {
        self.shaders
    }

    fn transform(&mut self, block: TransformBlock) {
        self.staged_transform = Some(block);
    }

    fn shader_set(&self) -> (r: Handle) {
        self.shaders
    }
}

/// The unishade style for one topology: just the compiled pipeline.
pub struct UnishadeStyle {
    pso: Handle,
}

impl Style for UnishadeStyle {
    type Inputs = UnishadeInputs;

    type Material = ();

    closed spec fn pipeline_handle(&self) -> Handle {
        self.pso
    }

    fn init(f: &mut Factory) -> (r: Result<UnishadeInputs, Error>)
        ensures
            r is Ok,
            final(f).allocated() == old(f).allocated() + 3,
            r->Ok_0.shader_set_handle() == old(f).allocated(),
            r->Ok_0.transform_buffer() == old(f).allocated() + 1,
            r->Ok_0.shade_buffer() == old(f).allocated() + 2,
    {
        let shaders = f.create_shader_set();
        let transform_block = f.create_constant_buffer();
        let shade_block = f.create_constant_buffer();
        Ok(
            UnishadeInputs {
                shaders,
                staged_transform: None,
                written_transform: None,
                transform_block,
                staged_shade: None,
                written_shade: None,
                shade_block,
            },
        )
    }

    fn new(f: &mut Factory, i: &mut UnishadeInputs, p: Primitive, r: Rasterizer) -> (res: Result<
        UnishadeStyle,
        Error,
    >)
        ensures
            res is Ok <==> old(f).is_allocated(old(i).shader_set_handle()),
            res is Ok ==> res->Ok_0.pipeline_handle() == old(f).allocated() && final(f).allocated()
                == old(f).allocated() + 1,
            res is Err ==> *final(f) == *old(f) && res == Err::<UnishadeStyle, Error>(
                Error::PipelineCreation { shaders: old(i).shader_set_handle() },
            ),
            *final(i) == *old(i),
    {
        match f.create_pipeline_state(i.shader_set(), p, r) {
            Ok(pso) => Ok(UnishadeStyle { pso }),
            Err(e) => Err(e),
        }
    }

    fn draw_raw(
        &self,
        i: &mut UnishadeInputs,
        enc: &mut Encoder,
        color: Handle,
        depth: Handle,
        scissor: Rect,
        slice: &Slice,
        buf: Handle,
        mat: &(),
    ) -> (r: Result<(), Error>)
        ensures
            r is Ok,
    {
        if i.staged_transform.is_some() {
            i.written_transform = i.staged_transform;
            i.staged_transform = None;
        }
        if i.staged_shade.is_some() {
            i.written_shade = i.staged_shade;
            i.staged_shade = None;
        }
        let style = match i.written_shade {
            Some(b) => Some(StyleBlock::Shade(b)),
            None => None,
        };
        enc.record(
            DrawCall {
                pso: self.pso,
                slice: *slice,
                vertex_buffer: buf,
                color,
                depth,
                scissor,
                transform: i.written_transform,
                style,
            },
        );
        Ok(())
    }
}

} // verus!
