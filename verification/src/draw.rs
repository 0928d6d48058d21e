//! The draw pipeline: a generic `Painter` that owns one drawing style's
//! configuration and a cache of compiled pipelines keyed by primitive
//! topology, and records the GPU work of a frame as a log of draw calls.
//!
//! GPU resources (shader sets, constant buffers, pipeline state objects)
//! are modelled as handles allocated by a `Factory`; an `Encoder` is a log
//! of `DrawCall` records, each carrying a snapshot of the uniform values
//! it was issued under. A device-facing caller replays the log against a
//! real GPU. Matrix and color payloads are opaque words: the bit patterns
//! of the 32-bit scalars the device consumes.

use vstd::prelude::*;

verus! {

/// A GPU resource handle issued by a `Factory`.
pub type Handle = u64;

/// Primitive topology of a mesh. A pipeline is compiled per topology.
#[derive(Clone, Copy, Debug, PartialEq, Eq, Structural)]
pub enum Primitive {
    PointList,
    LineList,
    LineStrip,
    TriangleList,
    TriangleStrip,
}

/// A viewport rectangle in pixels.
#[derive(Clone, Copy, Debug, PartialEq, Eq, Structural)]
pub struct Rect {
    pub x: u16,
    pub y: u16,
    pub w: u16,
    pub h: u16,
}

/// The portion of a vertex buffer that one draw call covers.
#[derive(Clone, Copy, Debug, PartialEq, Eq, Structural)]
pub struct Slice {
    pub start: u32,
    pub end: u32,
    pub base_vertex: u32,
}

/// Per-eye uniform payload shared by every style: model/view/projection
/// matrices, the eye position, and the clip plane offset. Matrices are 16
/// words of 32-bit scalar bits in column-major order; `eye` is the eye's
/// world position (extended to a homogeneous 4-vector with unit weight by
/// the caller that replays the log).
#[derive(Clone, Copy)]
pub struct TransformBlock {
    pub model: [u32; 16],
    pub view: [u32; 16],
    pub proj: [u32; 16],
    pub eye: [u32; 3],
    pub clip_offset: u32,
}

/// One eye's drawing context for one frame: eye position, view and
/// projection matrices (bit words), clip plane offset, and viewport.
#[derive(Clone, Copy)]
pub struct EyeContext {
    pub eye: [u32; 3],
    pub view: [u32; 16],
    pub proj: [u32; 16],
    pub clip_offset: u32,
    pub clip: Rect,
}

/// Rasterizer state for pipeline compilation.
#[derive(Clone, Copy, Debug, PartialEq, Eq, Structural)]
pub struct Rasterizer {
    pub fill: bool,
}

impl Rasterizer {
    /// The default solid-fill rasterizer.
    pub fn new_fill() -> (r: Rasterizer)
        ensures
            r.fill,
    {
        Rasterizer { fill: true }
    }
}

/// What can go wrong while setting up or using a painter.
#[derive(Clone, Copy, Debug)]
pub enum Error {
    /// A draw was attempted for a topology that `setup` never compiled a
    /// pipeline for; carries the offending topology.
    InvalidPrimitive { given: Primitive },
    /// Pipeline compilation failed; carries the shader set handle it was
    /// attempted with.
    PipelineCreation { shaders: Handle },
}

/// Allocates GPU resource handles. A handle is valid once allocated by
/// this factory; pipeline compilation is fallible and rejects a shader
/// set handle this factory never issued.
pub struct Factory {
    next: Handle,
}

impl Factory {
    /// How many handles this factory has issued so far.
    pub closed spec fn allocated(&self) -> Handle {
        self.next
    }

    /// Whether `h` is a handle this factory has issued.
    pub open spec fn is_allocated(&self, h: Handle) -> bool {
        h < self.allocated()
    }

    pub fn new() -> (r: Factory)
        ensures
            r.allocated() == 0,
    {
        Factory { next: 0 }
    }

    /// Compile a shader set, returning its handle.
    pub fn create_shader_set(&mut self) -> (r: Handle)
        requires
            old(self).allocated() < Handle::MAX,
        ensures
            final(self).allocated() == old(self).allocated() + 1,
            r == old(self).allocated(),
    {
        let h = self.next;
        self.next = self.next + 1;
        h
    }

    /// Allocate a constant (uniform) buffer, returning its handle.
    pub fn create_constant_buffer(&mut self) -> (r: Handle)
        requires
            old(self).allocated() < Handle::MAX,
        ensures
            final(self).allocated() == old(self).allocated() + 1,
            r == old(self).allocated(),
    {
        let h = self.next;
        self.next = self.next + 1;
        h
    }

    /// Compile a pipeline state object for one topology. Fails exactly
    /// when the shader set handle was never issued by this factory; a
    /// failure changes nothing.
    pub fn create_pipeline_state(
        &mut self,
        shaders: Handle,
        prim: Primitive,
        rast: Rasterizer,
    ) -> (r: Result<Handle, Error>)
        requires
            old(self).allocated() < Handle::MAX,
        ensures
            r is Ok <==> old(self).is_allocated(shaders),
            r is Ok ==> r->Ok_0 == old(self).allocated() && final(self).allocated() == old(
                self,
            ).allocated() + 1,
            r is Err ==> *final(self) == *old(self) && r == Err::<Handle, Error>(
                Error::PipelineCreation { shaders },
            ),
    {
        if shaders < self.next {
            let h = self.next;
            self.next = self.next + 1;
            Ok(h)
        } else {
            Err(Error::PipelineCreation { shaders })
        }
    }
}

/// A style-specific uniform block snapshot carried by a draw call.
#[derive(Clone, Copy)]
pub enum StyleBlock {
    /// The two-color shading block of the unishade style.
    Shade(crate::unishade::UnishadeBlock),
}

/// One recorded draw call: the pipeline and resources it binds, the
/// viewport it covers, and snapshots of the uniform blocks in effect when
/// it was issued (`None` means the buffer was never written).
#[derive(Clone, Copy)]
pub struct DrawCall {
    pub pso: Handle,
    pub slice: Slice,
    pub vertex_buffer: Handle,
    pub color: Handle,
    pub depth: Handle,
    pub scissor: Rect,
    pub transform: Option<TransformBlock>,
    pub style: Option<StyleBlock>,
}

/// A command encoder: the ordered log of draw calls recorded this frame.
pub struct Encoder {
    calls: Vec<DrawCall>,
}

impl Encoder {
    /// The draw calls recorded so far, in order.
    pub closed spec fn log(&self) -> Seq<DrawCall> {
        self.calls@
    }

    pub fn new() -> (r: Encoder)
        ensures
            r.log() == Seq::<DrawCall>::empty(),
    {
        Encoder { calls: Vec::new() }
    }

    /// Append one draw call to the log.
    pub fn record(&mut self, call: DrawCall)
        ensures
            final(self).log() == old(self).log().push(call),
    {
        self.calls.push(call);
    }

    /// The recorded calls, for replay against a real device.
    pub fn calls(&self) -> (r: &Vec<DrawCall>)
        ensures
            r@ == self.log(),
    {
        &self.calls
    }
}

/// Required configuration options for a `Style`: the staged per-eye
/// transform and the style's own uniform block, each observable as the
/// value the GPU buffer holds at the next draw.
pub trait StyleInputs: Sized {
    /// The transform block the next draw call will be issued under.
    spec fn transform_state(&self) -> Option<TransformBlock>;

    /// The style-specific block the next draw call will be issued under.
    spec fn style_state(&self) -> Option<StyleBlock>;

    /// The handle of the style's compiled shader set.
    spec fn shader_set_handle(&self) -> Handle;

    /// Stage transformation matrices and eye parameters for the next draw.
    fn transform(&mut self, block: TransformBlock)
        ensures
            final(self).transform_state() == Some(block),
            final(self).style_state() == old(self).style_state(),
            final(self).shader_set_handle() == old(self).shader_set_handle(),
    ;

    /// The shader set used by the style.
    fn shader_set(&self) -> (r: Handle)
        ensures
            r == self.shader_set_handle(),
    ;
}

/// Implements a particular drawing process and visual style: how its
/// resources are allocated, how a pipeline is compiled for one topology,
/// and how one draw call is issued.
pub trait Style: Sized {
    type Inputs: StyleInputs;

    type Material;

    /// The compiled pipeline this style instance draws with.
    spec fn pipeline_handle(&self) -> Handle;

    /// Allocate the style-wide resources (shader set, uniform buffers).
    fn init(f: &mut Factory) -> (r: Result<Self::Inputs, Error>)
        requires
            old(f).allocated() <= Handle::MAX - 16,
        ensures
            final(f).allocated() <= old(f).allocated() + 16,
            r is Ok ==> r->Ok_0.transform_state() is None && r->Ok_0.style_state() is None,
    ;

    /// Compile a pipeline for one topology under the given rasterizer
    /// state. A failure leaves the inputs' observable state unchanged.
    fn new(f: &mut Factory, i: &mut Self::Inputs, p: Primitive, r: Rasterizer) -> (res: Result<
        Self,
        Error,
    >)
        requires
            old(f).allocated() <= Handle::MAX - 16,
        ensures
            final(f).allocated() <= old(f).allocated() + 16,
            final(i).transform_state() == old(i).transform_state(),
            final(i).style_state() == old(i).style_state(),
            final(i).shader_set_handle() == old(i).shader_set_handle(),
    ;

    /// Drain any pending uniform updates into their buffers, then issue
    /// one draw call. On success the log grows by exactly that call,
    /// carrying the uniform state staged beforehand; on failure the log
    /// is unchanged. The observable input state survives either way.
    fn draw_raw(
        &self,
        i: &mut Self::Inputs,
        enc: &mut Encoder,
        color: Handle,
        depth: Handle,
        scissor: Rect,
        slice: &Slice,
        buf: Handle,
        mat: &Self::Material,
    ) -> (r: Result<(), Error>)
        ensures
            r is Ok ==> final(enc).log() == old(enc).log().push(
                DrawCall {
                    pso: self.pipeline_handle(),
                    slice: *slice,
                    vertex_buffer: buf,
                    color: color,
                    depth: depth,
                    scissor: scissor,
                    transform: old(i).transform_state(),
                    style: old(i).style_state(),
                },
            ),
            r is Err ==> final(enc).log() == old(enc).log(),
            final(i).transform_state() == old(i).transform_state(),
            final(i).style_state() == old(i).style_state(),
            final(i).shader_set_handle() == old(i).shader_set_handle(),
    ;
}

/// A mesh to draw: a vertex buffer handle, the slice of it to cover, its
/// primitive topology, and a material value matching the active style.
pub struct Mesh<M> {
    pub buf: Handle,
    pub slice: Slice,
    pub prim: Primitive,
    pub mat: M,
}

/// Per-frame bundle handed to every painter: both eye contexts, the
/// encoder that records the frame's draw calls, and the shared color and
/// depth targets.
pub struct DrawParams {
    pub left: EyeContext,
    pub right: EyeContext,
    pub encoder: Encoder,
    pub color: Handle,
    pub depth: Handle,
}

/// The set of topologies a cache covers after one more `setup`: unchanged
/// if the topology is already present, extended by it otherwise.
pub open spec fn setup_prims(s: Seq<Primitive>, p: Primitive) -> Seq<Primitive> {
    if s.contains(p) {
        s
    } else {
        s.push(p)
    }
}

/// Running `setup` twice for the same topology configures it exactly
/// once: the second run leaves the set of compiled topologies unchanged.
pub proof fn lemma_setup_idempotent(s: Seq<Primitive>, p: Primitive)
    ensures
        setup_prims(setup_prims(s, p), p) == setup_prims(s, p),
{
    if !s.contains(p) {
        assert(setup_prims(s, p).last() == p);
        assert(setup_prims(s, p).contains(p));
    }
}

/// The painter draws meshes. A painter owns its style's configuration
/// (exclusively: all access is through `&mut self`) and a cache mapping
/// primitive topology to the pipeline compiled for it; a mesh can only be
/// drawn once `setup` has been run for its topology.
pub struct Painter<E: Style> {
    inputs: E::Inputs,
    map: Vec<(Primitive, E)>,
}

impl<E: Style> Painter<E> {
    /// The topologies with a compiled pipeline, in setup order.
    pub closed spec fn prim_seq(&self) -> Seq<Primitive> {
        self.map@.map_values(|pe: (Primitive, E)| pe.0)
    }

    /// Whether a pipeline has been compiled for `p`.
    pub open spec fn supports(&self, p: Primitive) -> bool {
        self.prim_seq().contains(p)
    }

    /// Each topology holds at most one compiled pipeline.
    pub closed spec fn wf(&self) -> bool {
        forall|i: int, j: int| #![trigger self.map@[i], self.map@[j]]
            0 <= i < j < self.map@.len() ==> self.map@[i].0 != self.map@[j].0
    }

    /// The observable state of the style configuration.
    pub closed spec fn inputs_view(&self) -> E::Inputs {
        self.inputs
    }

    /// The pipeline compiled for `p`, assuming `self.supports(p)`.
    pub closed spec fn pso_for(&self, p: Primitive) -> Handle {
        let i = choose|i: int| 0 <= i < self.map@.len() && self.map@[i].0 == p;
        self.map@[i].1.pipeline_handle()
    }

    /// The pipeline cache: topologies paired with their compiled styles.
    pub closed spec fn cache(&self) -> Seq<(Primitive, E)> {
        self.map@
    }

    /// One eye's transform block under a given model matrix.
    pub open spec fn block_of(model: [u32; 16], e: EyeContext) -> TransformBlock {
        TransformBlock {
            model: model,
            view: e.view,
            proj: e.proj,
            eye: e.eye,
            clip_offset: e.clip_offset,
        }
    }

    /// The draw call `try_draw` issues for one eye: the mesh's resources
    /// and the style's pipeline, under that eye's viewport and transform,
    /// with the style block `style` in effect.
    pub open spec fn eye_call(
        &self,
        dp: DrawParams,
        model: [u32; 16],
        mesh: Mesh<E::Material>,
        e: EyeContext,
        style: Option<StyleBlock>,
    ) -> DrawCall {
        DrawCall {
            pso: self.pso_for(mesh.prim),
            slice: mesh.slice,
            vertex_buffer: mesh.buf,
            color: dp.color,
            depth: dp.depth,
            scissor: e.clip,
            transform: Some(Self::block_of(model, e)),
            style: style,
        }
    }

    /// Two painters with the same cache are well-formed together.
    proof fn lemma_wf_congruent(a: Painter<E>, b: Painter<E>)
        requires
            a.wf(),
            a.map@ == b.map@,
        ensures
            b.wf(),
    {
        assert forall|i: int, j: int| #![trigger b.map@[i], b.map@[j]]
            0 <= i < j < b.map@.len() implies b.map@[i].0 != b.map@[j].0 by {
            assert(a.map@[i].0 != a.map@[j].0);
        }
    }

    /// Create a new painter in the given style using the given factory.
    pub fn new(f: &mut Factory) -> (r: Result<Painter<E>, Error>)
        requires
            old(f).allocated() <= Handle::MAX - 16,
        ensures
            final(f).allocated() <= old(f).allocated() + 16,
            r is Ok ==> r->Ok_0.wf(),
            r is Ok ==> r->Ok_0.prim_seq() == Seq::<Primitive>::empty(),
            r is Ok ==> forall|p: Primitive| !r->Ok_0.supports(p),
            r is Ok ==> r->Ok_0.inputs_view().transform_state() is None,
            r is Ok ==> r->Ok_0.inputs_view().style_state() is None,
    {
        match E::init(f) {
            Ok(inputs) => {
                let p = Painter { inputs, map: Vec::new() };
                proof {
                    assert(p.prim_seq() =~= Seq::<Primitive>::empty());
                }
                Ok(p)
            },
            Err(e) => Err(e),
        }
    }

    /// Add the ability to draw the given primitive topology. Idempotent:
    /// if a pipeline for it exists already, nothing at all happens; if
    /// compilation fails, the cache is unchanged. Must be called before
    /// a mesh using the topology is drawn.
    pub fn setup(&mut self, f: &mut Factory, prim: Primitive) -> (r: Result<(), Error>)
        requires
            old(self).wf(),
            old(f).allocated() <= Handle::MAX - 16,
        ensures
            final(self).wf(),
            final(f).allocated() <= old(f).allocated() + 16,
            old(self).supports(prim) ==> r is Ok && *final(self) == *old(self) && *final(f)
                == *old(f),
            r is Ok ==> final(self).prim_seq() == setup_prims(old(self).prim_seq(), prim),
            r is Ok ==> final(self).supports(prim),
            r is Err ==> final(self).cache() == old(self).cache() && final(self).prim_seq() == old(
                self,
            ).prim_seq(),
            old(self).supports(prim) ==> final(self).supports(prim),
            final(self).inputs_view().transform_state() == old(self).inputs_view().transform_state(),
            final(self).inputs_view().style_state() == old(self).inputs_view().style_state(),
    {
        let n = self.map.len();
        let mut k: usize = 0;
        while k < n
            invariant
                k <= n,
                n == self.map@.len(),
                *self == *old(self),
                *f == *old(f),
                old(self).wf(),
                forall|j: int| 0 <= j < k ==> self.map@[j].0 != prim,
            decreases n - k,
        {
            if self.map[k].0 == prim {
                proof {
                    assert(self.prim_seq()[k as int] == prim);
                    assert(self.supports(prim));
                    Self::lemma_wf_congruent(*old(self), *self);
                }
                return Ok(());
            }
            k += 1;
        }
        proof {
            assert(self.map@ == old(self).map@);
            assert forall|i: int| 0 <= i < old(self).prim_seq().len() implies old(
                self,
            ).prim_seq()[i] != prim by {
                assert(old(self).prim_seq()[i] == old(self).map@[i].0);
                assert(self.map@[i].0 != prim);
            }
            assert(!old(self).supports(prim));
        }
        match E::new(f, &mut self.inputs, prim, Rasterizer::new_fill()) {
            Ok(sty) => {
                let ghost pre = self.map@;
                self.map.push((prim, sty));
                proof {
                    assert(self.map@ == pre.push((prim, sty)));
                    assert(self.prim_seq() =~= pre.map_values(|pe: (Primitive, E)| pe.0).push(
                        prim,
                    ));
                    assert(self.prim_seq().last() == prim);
                    assert(self.supports(prim));
                    assert forall|i: int, j: int| #![trigger self.map@[i], self.map@[j]]
                        0 <= i < j < self.map@.len() implies self.map@[i].0 != self.map@[j].0 by {
                        if j < self.map@.len() - 1 {
                            assert(self.map@[i] == old(self).map@[i]);
                            assert(self.map@[j] == old(self).map@[j]);
                            assert(old(self).map@[i].0 != old(self).map@[j].0);
                        } else {
                            assert(self.map@[i] == old(self).map@[i]);
                            assert(old(self).map@[i].0 != prim);
                            assert(self.map@[j].0 == prim);
                        }
                    }
                }
                Ok(())
            },
            Err(e) => {
                proof {
                    Self::lemma_wf_congruent(*old(self), *self);
                }
                Err(e)
            },
        }
    }

    /// Attempt to draw a mesh under the given per-frame parameters and
    /// model matrix. If no pipeline was set up for the mesh's topology,
    /// fails with `InvalidPrimitive` and records nothing. Otherwise one
    /// draw call is issued per eye — left, then right — sharing the
    /// model matrix and the color and depth targets, each under its own
    /// eye's viewport, view, projection, eye position and clip offset.
    pub fn try_draw(&mut self, dp: &mut DrawParams, model: [u32; 16], mesh: &Mesh<E::Material>) -> (r:
        Result<(), Error>)
        requires
            old(self).wf(),
        ensures
            final(self).wf(),
            final(self).cache() == old(self).cache(),
            final(self).prim_seq() == old(self).prim_seq(),
            final(dp).left == old(dp).left,
            final(dp).right == old(dp).right,
            final(dp).color == old(dp).color,
            final(dp).depth == old(dp).depth,
            final(self).inputs_view().style_state() == old(self).inputs_view().style_state(),
            !old(self).supports(mesh.prim) ==> r == Err::<(), Error>(
                Error::InvalidPrimitive { given: mesh.prim },
            ) && final(dp).encoder.log() == old(dp).encoder.log() && *final(self) == *old(self),
            old(self).supports(mesh.prim) && r is Ok ==> final(dp).encoder.log() == old(
                dp,
            ).encoder.log().push(
                old(self).eye_call(
                    *old(dp),
                    model,
                    *mesh,
                    old(dp).left,
                    old(self).inputs_view().style_state(),
                ),
            ).push(
                old(self).eye_call(
                    *old(dp),
                    model,
                    *mesh,
                    old(dp).right,
                    old(self).inputs_view().style_state(),
                ),
            ),
            old(self).supports(mesh.prim) && r is Err ==> final(dp).encoder.log() == old(
                dp,
            ).encoder.log() || final(dp).encoder.log() == old(dp).encoder.log().push(
                old(self).eye_call(
                    *old(dp),
                    model,
                    *mesh,
                    old(dp).left,
                    old(self).inputs_view().style_state(),
                ),
            ),
    {
        let n = self.map.len();
        let mut k: usize = 0;
        while k < n
            invariant
                k <= n,
                n == self.map@.len(),
                *self == *old(self),
                *dp == *old(dp),
                old(self).wf(),
                forall|j: int| 0 <= j < k ==> self.map@[j].0 != mesh.prim,
            decreases n - k,
        {
            if self.map[k].0 == mesh.prim {
                proof {
                    assert(self.map@ == old(self).map@);
                    assert(self.inputs == old(self).inputs);
                    assert(old(self).map@[k as int].0 == mesh.prim);
                    assert(old(self).prim_seq()[k as int] == mesh.prim);
                    assert(old(self).supports(mesh.prim));
                    assert(exists|i: int|
                        0 <= i < old(self).map@.len() && old(self).map@[i].0 == mesh.prim) by {
                        assert(old(self).map@[k as int].0 == mesh.prim);
                    }
                    let c = choose|i: int|
                        0 <= i < old(self).map@.len() && old(self).map@[i].0 == mesh.prim;
                    assert(0 <= c < old(self).map@.len() && old(self).map@[c].0 == mesh.prim);
                    if c < k as int {
                        assert(old(self).map@[c].0 != old(self).map@[k as int].0);
                    } else if (k as int) < c {
                        assert(old(self).map@[k as int].0 != old(self).map@[c].0);
                    }
                    assert(c == k as int);
                    assert(old(self).map@[k as int].1.pipeline_handle() == old(self).pso_for(
                        mesh.prim,
                    ));
                }
                let left = dp.left;
                let right = dp.right;
                let color = dp.color;
                let depth = dp.depth;
                let block_left = TransformBlock {
                    model: model,
                    view: left.view,
                    proj: left.proj,
                    eye: left.eye,
                    clip_offset: left.clip_offset,
                };
                self.inputs.transform(block_left);
                let r1 = self.map[k].1.draw_raw(
                    &mut self.inputs,
                    &mut dp.encoder,
                    color,
                    depth,
                    left.clip,
                    &mesh.slice,
                    mesh.buf,
                    &mesh.mat,
                );
                if let Err(e) = r1 {
                    proof {
                        Self::lemma_wf_congruent(*old(self), *self);
                    }
                    return Err(e);
                }
                let block_right = TransformBlock {
                    model: model,
                    view: right.view,
                    proj: right.proj,
                    eye: right.eye,
                    clip_offset: right.clip_offset,
                };
                self.inputs.transform(block_right);
                let r2 = self.map[k].1.draw_raw(
                    &mut self.inputs,
                    &mut dp.encoder,
                    color,
                    depth,
                    right.clip,
                    &mesh.slice,
                    mesh.buf,
                    &mesh.mat,
                );
                if let Err(e) = r2 {
                    proof {
                        Self::lemma_wf_congruent(*old(self), *self);
                    }
                    return Err(e);
                }
                proof {
                    Self::lemma_wf_congruent(*old(self), *self);
                }
                return Ok(());
            }
            k += 1;
        }
        proof {
            assert(self.map@ == old(self).map@);
            assert forall|i: int| 0 <= i < old(self).prim_seq().len() implies old(
                self,
            ).prim_seq()[i] != mesh.prim by {
                assert(old(self).prim_seq()[i] == old(self).map@[i].0);
                assert(self.map@[i].0 != mesh.prim);
            }
            assert(!old(self).supports(mesh.prim));
            Self::lemma_wf_congruent(*old(self), *self);
        }
        Err(Error::InvalidPrimitive { given: mesh.prim })
    }

    /// Draw a mesh, swallowing any error: on render-loop hot paths one
    /// bad mesh must not abort the frame. An unsupported topology thus
    /// records nothing; otherwise the stereo pair of draw calls of
    /// `try_draw` is recorded as far as the style succeeds.
    pub fn draw(&mut self, dp: &mut DrawParams, model: [u32; 16], mesh: &Mesh<E::Material>)
        requires
            old(self).wf(),
        ensures
            final(self).wf(),
            final(self).cache() == old(self).cache(),
            final(self).prim_seq() == old(self).prim_seq(),
            final(dp).left == old(dp).left,
            final(dp).right == old(dp).right,
            final(dp).color == old(dp).color,
            final(dp).depth == old(dp).depth,
            !old(self).supports(mesh.prim) ==> final(dp).encoder.log() == old(dp).encoder.log(),
            old(self).supports(mesh.prim) ==> final(dp).encoder.log() == old(dp).encoder.log()
                || final(dp).encoder.log() == old(dp).encoder.log().push(
                old(self).eye_call(
                    *old(dp),
                    model,
                    *mesh,
                    old(dp).left,
                    old(self).inputs_view().style_state(),
                ),
            ) || final(dp).encoder.log() == old(dp).encoder.log().push(
                old(self).eye_call(
                    *old(dp),
                    model,
                    *mesh,
                    old(dp).left,
                    old(self).inputs_view().style_state(),
                ),
            ).push(
                old(self).eye_call(
                    *old(dp),
                    model,
                    *mesh,
                    old(dp).right,
                    old(self).inputs_view().style_state(),
                ),
            ),
    {
        let _ = self.try_draw(dp, model, mesh);
    }

    /// Scoped exclusive access to the style configuration, for
    /// style-specific settings between draws.
    pub fn cfg(&mut self) -> (r: &mut E::Inputs)
        ensures
            *r == old(self).inputs_view(),
            final(self).inputs_view() == *final(r),
            final(self).cache() == old(self).cache(),
            final(self).prim_seq() == old(self).prim_seq(),
    {
        &mut self.inputs
    }
}

/// The pipeline cache determines the supported topologies: two painters
/// with the same cache have the same topology sequence and support
/// exactly the same topologies. With this, any operation that leaves
/// the cache unchanged leaves every configured topology configured:
/// configured topologies are never removed.
pub proof fn lemma_cache_fixes_prims<E: Style>(a: Painter<E>, b: Painter<E>)
    requires
        a.cache() == b.cache(),
    ensures
        a.prim_seq() == b.prim_seq(),
        forall|p: Primitive| a.supports(p) == b.supports(p),
{
    assert(a.prim_seq() == b.prim_seq());
}

/// A successful stereo draw records two calls that differ exactly in
/// their eye data: each carries its own eye's viewport, view, projection,
/// eye position and clip offset, while the model matrix, pipeline, mesh
/// resources and color and depth targets are shared.
pub proof fn lemma_stereo_pair<E: Style>(
    p: Painter<E>,
    dp: DrawParams,
    model: [u32; 16],
    mesh: Mesh<E::Material>,
    style: Option<StyleBlock>,
)
    ensures
        p.eye_call(dp, model, mesh, dp.left, style).scissor == dp.left.clip,
        p.eye_call(dp, model, mesh, dp.right, style).scissor == dp.right.clip,
        p.eye_call(dp, model, mesh, dp.left, style).transform == Some(
            Painter::<E>::block_of(model, dp.left),
        ),
        p.eye_call(dp, model, mesh, dp.right, style).transform == Some(
            Painter::<E>::block_of(model, dp.right),
        ),
        Painter::<E>::block_of(model, dp.left).model == Painter::<E>::block_of(
            model,
            dp.right,
        ).model,
        p.eye_call(dp, model, mesh, dp.left, style).color == p.eye_call(
            dp,
            model,
            mesh,
            dp.right,
            style,
        ).color,
        p.eye_call(dp, model, mesh, dp.left, style).depth == p.eye_call(
            dp,
            model,
            mesh,
            dp.right,
            style,
        ).depth,
        p.eye_call(dp, model, mesh, dp.left, style).pso == p.eye_call(
            dp,
            model,
            mesh,
            dp.right,
            style,
        ).pso,
{
}

} // verus!
