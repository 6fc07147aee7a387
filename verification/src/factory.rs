//! The resources that passes ask for, and the recorder of those requests.

use vstd::prelude::*;
use crate::scene::Handle;

verus! {

// The fixed-function state that a pipeline request carries is gfx's own, so
// that a backend hands it on as it is. These types are plain data with
// public fields and are declared with their contents: Verus reads the
// variants and fields from gfx, and nothing about them is taken on trust.

/// gfx's `state::FrontFace`: which winding is the front of a triangle.
#[verifier::external_type_specification]
pub struct ExFrontFace(gfx::state::FrontFace);

/// gfx's `state::CullFace`: which faces are dropped.
#[verifier::external_type_specification]
pub struct ExCullFace(gfx::state::CullFace);

/// gfx's `state::RasterMethod`: points, lines of a width, or filled faces.
#[verifier::external_type_specification]
pub struct ExRasterMethod(gfx::state::RasterMethod);

/// gfx's `state::Offset`: slope and units of a depth offset.
#[verifier::external_type_specification]
pub struct ExOffset(gfx::state::Offset);

/// gfx's `state::MultiSample`: the mark that multisampling is on.
#[verifier::external_type_specification]
pub struct ExMultiSample(gfx::state::MultiSample);

/// gfx's `state::Rasterizer`: the five settings above in one value.
#[verifier::external_type_specification]
pub struct ExRasterizer(gfx::state::Rasterizer);

/// gfx's `Primitive`: how vertices are assembled into points, lines or
/// triangles.
#[verifier::external_type_specification]
pub struct ExPrimitive(gfx::Primitive);

/// The rasterizer that fills faces: counter-clockwise front faces, no
/// culling, no depth offset, no multisampling.
pub open spec fn fill_rasterizer() -> gfx::state::Rasterizer {
    gfx::state::Rasterizer {
        front_face: gfx::state::FrontFace::CounterClockwise,
        cull_face: gfx::state::CullFace::Nothing,
        method: gfx::state::RasterMethod::Fill,
        offset: None,
        samples: None,
    }
}

/// gfx's `state::Rasterizer::new_fill`. Taken on trust from its source: it
/// builds the value that [`fill_rasterizer`] spells out, field by field.
pub assume_specification[ gfx::state::Rasterizer::new_fill ]() -> (r: gfx::state::Rasterizer)
    ensures
        r == fill_rasterizer(),
;

/// The stage of the pipeline that a shader is compiled for.
#[derive(Clone, Copy, Debug, PartialEq, Eq)]
pub enum Stage {
    Vertex,
    Geometry,
    Pixel,
}

/// The vertex attributes, uniforms and targets that a pipeline is linked
/// against. Every layout reads vertices of a position and a normal, three
/// scalars each.
#[derive(Clone, Copy, Debug, PartialEq, Eq)]
pub enum Layout {
    /// Ambient color, the three matrices, a color and a depth target.
    Flat,
    /// As `Flat`, with the diffuse color, the light block and its count.
    Shaded,
    /// As `Flat`, without the depth target.
    Wireframe,
}

/// Compiled shaders that are linked into one program.
#[derive(Clone, Copy, Debug, PartialEq, Eq)]
pub enum ShaderSet {
    /// Vertex and pixel shader.
    Simple(Handle, Handle),
    /// Vertex, geometry and pixel shader.
    Geometry(Handle, Handle, Handle),
}

/// One resource that a pass asked for.
#[derive(Clone, Copy, Debug, PartialEq)]
pub enum Request {
    /// A uniform buffer of `num` records, rewritten often.
    ConstantBuffer { num: usize },
    /// One stage compiled from `code`.
    Shader { stage: Stage, code: &'static str },
    /// A pipeline of a vertex and a pixel stage, compiled and linked in one
    /// go, that fills triangles of a triangle list.
    PipelineSimple { vs: &'static str, ps: &'static str, init: Layout },
    /// A pipeline linked from shaders that were compiled before.
    PipelineState {
        shaders: ShaderSet,
        primitive: gfx::Primitive,
        rasterizer: gfx::state::Rasterizer,
        init: Layout,
    },
}

/// Records what passes ask for at construction. The handle of a resource is
/// its place among the requests, so a backend that creates the resources in
/// order finds each under its handle.
///
/// Recording cannot fail. A shader that does not compile, or a program that
/// does not link, comes to light when the backend creates the resources.
pub struct Factory {
    requests: Vec<Request>,
}

impl View for Factory {
    type V = Seq<Request>;

    closed spec fn view(&self) -> Seq<Request> {
        self.requests@
    }
}

impl Factory {
    /// A factory that was asked for nothing yet.
    pub fn new() -> (factory: Factory)
        ensures
            factory@ == Seq::<Request>::empty(),
    {
        Factory { requests: Vec::new() }
    }

    fn request(&mut self, request: Request) -> (handle: Handle)
        ensures
            final(self)@ == old(self)@.push(request),
            handle == old(self)@.len(),
    {
        let handle: Handle = self.requests.len();
        self.requests.push(request);
        handle
    }

    /// Asks for a uniform buffer of `num` records.
    pub fn create_constant_buffer(&mut self, num: usize) -> (handle: Handle)
        ensures
            final(self)@ == old(self)@.push(Request::ConstantBuffer { num }),
            handle == old(self)@.len(),
    {
        self.request(Request::ConstantBuffer { num })
    }

    /// Asks for the vertex stage compiled from `code`.
    pub fn create_shader_vertex(&mut self, code: &'static str) -> (handle: Handle)
        ensures
            final(self)@ == old(self)@.push(Request::Shader { stage: Stage::Vertex, code }),
            handle == old(self)@.len(),
    {
        self.request(Request::Shader { stage: Stage::Vertex, code })
    }

    /// Asks for the geometry stage compiled from `code`.
    pub fn create_shader_geometry(&mut self, code: &'static str) -> (handle: Handle)
        ensures
            final(self)@ == old(self)@.push(Request::Shader { stage: Stage::Geometry, code }),
            handle == old(self)@.len(),
    {
        self.request(Request::Shader { stage: Stage::Geometry, code })
    }

    /// Asks for the pixel stage compiled from `code`.
    pub fn create_shader_pixel(&mut self, code: &'static str) -> (handle: Handle)
        ensures
            final(self)@ == old(self)@.push(Request::Shader { stage: Stage::Pixel, code }),
            handle == old(self)@.len(),
    {
        self.request(Request::Shader { stage: Stage::Pixel, code })
    }

    /// Asks for a pipeline of the vertex stage `vs` and the pixel stage
    /// `ps`, linked against `init`.
    pub fn create_pipeline_simple(
        &mut self,
        vs: &'static str,
        ps: &'static str,
        init: Layout,
    ) -> (handle: Handle)
        ensures
            final(self)@ == old(self)@.push(Request::PipelineSimple { vs, ps, init }),
            handle == old(self)@.len(),
    {
        self.request(Request::PipelineSimple { vs, ps, init })
    }

    /// Asks for a pipeline linked from `shaders` against `init`, which
    /// assembles `primitive` and rasterizes with `rasterizer`.
    pub fn create_pipeline_state(
        &mut self,
        shaders: ShaderSet,
        primitive: gfx::Primitive,
        rasterizer: gfx::state::Rasterizer,
        init: Layout,
    ) -> (handle: Handle)
        ensures
            final(self)@ == old(self)@.push(
                Request::PipelineState { shaders, primitive, rasterizer, init },
            ),
            handle == old(self)@.len(),
    {
        self.request(Request::PipelineState { shaders, primitive, rasterizer, init })
    }

    /// The requests so far, first to last.
    pub fn requests(&self) -> (requests: &Vec<Request>)
        ensures
            requests@ == self@,
    {
        &self.requests
    }
}

} // verus!
