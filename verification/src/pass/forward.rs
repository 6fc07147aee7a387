//! The forward passes: clear, flat, lit and wireframe.

use vstd::prelude::*;
use crate::encoder::{Data, Encoder, FlatData, Op, ShadedData, WireframeData};
use crate::factory::{fill_rasterizer, Factory, Layout, Request, ShaderSet, Stage};
use crate::light::{
    active_count, is_light_block, pack_lights, spec_active_count, spec_pack_lights, PointLight,
    MAX_LIGHTS,
};
use crate::math::{Vec4, ONE};
use crate::pass;
use crate::pass::Pass;
use crate::scene::{Camera, Fragment, Frame, Handle, Scene};
use crate::shaders::{FLAT_FRAGMENT_SRC, FRAGMENT_SRC, VERTEX_SRC, WIREFRAME_GEOMETRY_SRC};
use crate::target::{cleared_color, cleared_depth, target_state, ColorBuffer, TargetState};

verus! {

/// Resets a target: its color image to the color of the argument, its depth
/// image to the farthest depth.
pub struct Clear;

/// Draws every fragment of a scene in its ambient color, unlit.
pub struct DrawNoShading {
    pso: Handle,
}

/// Draws every fragment of a scene lit by the scene's point lights, as many
/// as the light block holds.
pub struct DrawShaded {
    lights: Handle,
    pso: Handle,
}

/// Draws the triangle edges of every fragment of a scene in its ambient
/// color.
pub struct Wireframe {
    pso: Handle,
}

/// The draw of fragment `e` by the flat pass.
pub open spec fn flat_draw(pso: Handle, target: ColorBuffer, e: Fragment, camera: Camera) -> Op {
    Op::Draw {
        slice: e.slice,
        pipeline: pso,
        data: Data::Flat(
            FlatData {
                vbuf: e.buffer,
                ka: e.ka,
                model: e.transform,
                view: camera.view,
                proj: camera.projection,
                out_ka: target.color,
                out_depth: target.output_depth,
            },
        ),
    }
}

/// The draw of fragment `e` by the lit pass, with `light_count` lights of
/// the block `lights` in use.
pub open spec fn shaded_draw(
    pso: Handle,
    lights: Handle,
    light_count: i32,
    target: ColorBuffer,
    e: Fragment,
    camera: Camera,
) -> Op {
    Op::Draw {
        slice: e.slice,
        pipeline: pso,
        data: Data::Shaded(
            ShadedData {
                vbuf: e.buffer,
                ka: e.ka,
                kd: e.kd,
                lights,
                light_count,
                model: e.transform,
                view: camera.view,
                proj: camera.projection,
                out_ka: target.color,
                out_depth: target.output_depth,
            },
        ),
    }
}

/// The draw of fragment `e` by the wireframe pass.
pub open spec fn wireframe_draw(pso: Handle, target: ColorBuffer, e: Fragment, camera: Camera) -> Op {
    Op::Draw {
        slice: e.slice,
        pipeline: pso,
        data: Data::Wireframe(
            WireframeData {
                vbuf: e.buffer,
                ka: e.ka,
                model: e.transform,
                view: camera.view,
                proj: camera.projection,
                out_ka: target.color,
            },
        ),
    }
}

/// What the clear pass records: the color clear, then the depth clear.
pub open spec fn clear_ops(color: Vec4, target: ColorBuffer) -> Seq<Op> {
    seq![
        Op::ClearColor { view: target.color, color },
        Op::ClearDepth { view: target.output_depth, depth: ONE },
    ]
}

/// What the flat pass records for a scene: one draw per fragment, in the
/// order of the scene.
pub open spec fn flat_ops(pso: Handle, target: ColorBuffer, scene: Scene, camera: Camera) -> Seq<Op> {
    Seq::new(scene.fragments@.len(), |i: int| flat_draw(pso, target, scene.fragments@[i], camera))
}

/// The upload that the lit pass records before it draws: the whole block,
/// from its first record on.
pub open spec fn light_upload(lights: Handle, scene: Scene) -> Op {
    Op::UpdateBuffer { buffer: lights, records: spec_pack_lights(scene.lights@), offset: 0 }
}

/// The number of lights in use that the lit pass binds for a scene.
pub open spec fn light_count(scene: Scene) -> i32 {
    spec_active_count(scene.lights@.len()) as i32
}

/// What the lit pass records for a scene: the upload of the light block,
/// then one draw per fragment, in the order of the scene.
pub open spec fn shaded_ops(
    pso: Handle,
    lights: Handle,
    target: ColorBuffer,
    scene: Scene,
    camera: Camera,
) -> Seq<Op> {
    Seq::new(
        scene.fragments@.len() + 1,
        |i: int|
            if i == 0 {
                light_upload(lights, scene)
            } else {
                shaded_draw(pso, lights, light_count(scene), target, scene.fragments@[i - 1], camera)
            },
    )
}

/// What the wireframe pass records for a scene: one draw per fragment, in
/// the order of the scene.
pub open spec fn wireframe_ops(
    pso: Handle,
    target: ColorBuffer,
    scene: Scene,
    camera: Camera,
) -> Seq<Op> {
    Seq::new(
        scene.fragments@.len(),
        |i: int| wireframe_draw(pso, target, scene.fragments@[i], camera),
    )
}

impl Pass for Clear {
    type Arg = pass::Clear;

    type Target = ColorBuffer;

    open spec fn resolves(arg: &pass::Clear, frame: &Frame) -> bool {
        true
    }

    open spec fn recorded(&self, arg: &pass::Clear, target: &ColorBuffer, frame: &Frame) -> Seq<Op> {
        clear_ops(arg.color, *target)
    }

    fn apply(&self, arg: &pass::Clear, target: &ColorBuffer, frame: &Frame, encoder: &mut Encoder) {
        encoder.clear(target.color, arg.color);
        encoder.clear_depth(target.output_depth, ONE);
        assert(encoder@ =~= old(encoder)@ + clear_ops(arg.color, *target));
    }
}

impl DrawNoShading {
    /// The pipeline that the pass draws with.
    pub closed spec fn pipeline(&self) -> Handle {
        self.pso
    }

    /// Asks `factory` for the pipeline of the vertex stage and the flat
    /// fragment stage, compiled and linked in one go.
    pub fn new(factory: &mut Factory) -> (pass: DrawNoShading)
        ensures
            final(factory)@ == old(factory)@.push(
                Request::PipelineSimple {
                    vs: VERTEX_SRC,
                    ps: FLAT_FRAGMENT_SRC,
                    init: Layout::Flat,
                },
            ),
            pass.pipeline() == old(factory)@.len(),
    {
        DrawNoShading {
            pso: factory.create_pipeline_simple(VERTEX_SRC, FLAT_FRAGMENT_SRC, Layout::Flat),
        }
    }

    /// The pipeline that the pass draws with.
    pub fn pso(&self) -> (pso: Handle)
        ensures
            pso == self.pipeline(),
    {
        self.pso
    }
}

impl Pass for DrawNoShading {
    type Arg = pass::DrawNoShading;

    type Target = ColorBuffer;

    open spec fn resolves(arg: &pass::DrawNoShading, frame: &Frame) -> bool {
        frame.scenes().contains_key(arg.scene@) && frame.cameras().contains_key(arg.camera@)
    }

    open spec fn recorded(
        &self,
        arg: &pass::DrawNoShading,
        target: &ColorBuffer,
        frame: &Frame,
    ) -> Seq<Op> {
        flat_ops(self.pipeline(), *target, frame.scenes()[arg.scene@], frame.cameras()[arg.camera@])
    }

    fn apply(
        &self,
        arg: &pass::DrawNoShading,
        target: &ColorBuffer,
        frame: &Frame,
        encoder: &mut Encoder,
    ) {
        let scene = frame.scene(arg.scene.as_str()).unwrap();
        let camera = frame.camera(arg.camera.as_str()).unwrap();
        let ghost all = flat_ops(self.pso, *target, *scene, *camera);
        let mut i: usize = 0;
        while i < scene.fragments.len()
            invariant
                i <= scene.fragments@.len(),
                all == flat_ops(self.pso, *target, *scene, *camera),
                encoder@ == old(encoder)@ + all.take(i as int),
            decreases scene.fragments@.len() - i,
        {
            let e = &scene.fragments[i];
            encoder.draw(
                e.slice,
                self.pso,
                Data::Flat(
                    FlatData {
                        vbuf: e.buffer,
                        ka: e.ka,
                        model: e.transform,
                        view: camera.view,
                        proj: camera.projection,
                        out_ka: target.color,
                        out_depth: target.output_depth,
                    },
                ),
            );
            assert(all.take(i + 1) =~= all.take(i as int).push(all[i as int]));
            i += 1;
        }
        assert(all.take(i as int) =~= all);
    }
}

impl DrawShaded {
    /// The pipeline that the pass draws with.
    pub closed spec fn pipeline(&self) -> Handle {
        self.pso
    }

    /// The uniform buffer that holds the light block. The pass alone writes
    /// it, and rewrites all of it each time the pass is applied.
    pub closed spec fn light_buffer(&self) -> Handle {
        self.lights
    }

    /// Asks `factory` for a uniform buffer of [`MAX_LIGHTS`] light records,
    /// then for the pipeline of the vertex stage and the lit fragment stage,
    /// compiled and linked in one go.
    pub fn new(factory: &mut Factory) -> (pass: DrawShaded)
        ensures
            final(factory)@ == old(factory)@.push(Request::ConstantBuffer { num: MAX_LIGHTS }).push(
                Request::PipelineSimple { vs: VERTEX_SRC, ps: FRAGMENT_SRC, init: Layout::Shaded },
            ),
            pass.light_buffer() == old(factory)@.len(),
            pass.pipeline() == old(factory)@.len() + 1,
    {
        let lights = factory.create_constant_buffer(MAX_LIGHTS);
        DrawShaded {
            lights,
            pso: factory.create_pipeline_simple(VERTEX_SRC, FRAGMENT_SRC, Layout::Shaded),
        }
    }

    /// The pipeline that the pass draws with.
    pub fn pso(&self) -> (pso: Handle)
        ensures
            pso == self.pipeline(),
    {
        self.pso
    }

    /// The uniform buffer that holds the light block.
    pub fn lights(&self) -> (lights: Handle)
        ensures
            lights == self.light_buffer(),
    {
        self.lights
    }
}

impl Pass for DrawShaded {
    type Arg = pass::DrawShaded;

    type Target = ColorBuffer;

    open spec fn resolves(arg: &pass::DrawShaded, frame: &Frame) -> bool {
        frame.scenes().contains_key(arg.scene@) && frame.cameras().contains_key(arg.camera@)
    }

    open spec fn recorded(
        &self,
        arg: &pass::DrawShaded,
        target: &ColorBuffer,
        frame: &Frame,
    ) -> Seq<Op> {
        shaded_ops(
            self.pipeline(),
            self.light_buffer(),
            *target,
            frame.scenes()[arg.scene@],
            frame.cameras()[arg.camera@],
        )
    }

    fn apply(
        &self,
        arg: &pass::DrawShaded,
        target: &ColorBuffer,
        frame: &Frame,
        encoder: &mut Encoder,
    ) {
        let scene = frame.scene(arg.scene.as_str()).unwrap();
        let camera = frame.camera(arg.camera.as_str()).unwrap();
        let ghost all = shaded_ops(self.pso, self.lights, *target, *scene, *camera);

        let count = active_count(&scene.lights);
        encoder.update_buffer(self.lights, pack_lights(&scene.lights), 0);
        assert(encoder@ =~= old(encoder)@ + all.take(1));

        let mut i: usize = 0;
        while i < scene.fragments.len()
            invariant
                i <= scene.fragments@.len(),
                count == light_count(*scene),
                all == shaded_ops(self.pso, self.lights, *target, *scene, *camera),
                encoder@ == old(encoder)@ + all.take(i + 1),
            decreases scene.fragments@.len() - i,
        {
            let e = &scene.fragments[i];
            encoder.draw(
                e.slice,
                self.pso,
                Data::Shaded(
                    ShadedData {
                        vbuf: e.buffer,
                        ka: e.ka,
                        kd: e.kd,
                        lights: self.lights,
                        light_count: count,
                        model: e.transform,
                        view: camera.view,
                        proj: camera.projection,
                        out_ka: target.color,
                        out_depth: target.output_depth,
                    },
                ),
            );
            assert(all.take(i + 2) =~= all.take(i + 1).push(all[i + 1]));
            i += 1;
        }
        assert(all.take(i + 1) =~= all);
    }
}

impl Wireframe {
    /// The pipeline that the pass draws with.
    pub closed spec fn pipeline(&self) -> Handle {
        self.pso
    }

    /// Asks `factory` for the vertex, the geometry and the flat fragment
    /// stage, each compiled by itself, and then for the pipeline that links
    /// the three, takes triangle lists and fills faces.
    pub fn new(factory: &mut Factory) -> (pass: Wireframe)
        ensures
            final(factory)@ == old(factory)@.push(
                Request::Shader { stage: Stage::Vertex, code: VERTEX_SRC },
            ).push(Request::Shader { stage: Stage::Geometry, code: WIREFRAME_GEOMETRY_SRC }).push(
                Request::Shader { stage: Stage::Pixel, code: FLAT_FRAGMENT_SRC },
            ).push(
                Request::PipelineState {
                    shaders: ShaderSet::Geometry(
                        old(factory)@.len() as usize,
                        (old(factory)@.len() + 1) as usize,
                        (old(factory)@.len() + 2) as usize,
                    ),
                    primitive: gfx::Primitive::TriangleList,
                    rasterizer: fill_rasterizer(),
                    init: Layout::Wireframe,
                },
            ),
            pass.pipeline() == old(factory)@.len() + 3,
    {
        let vs = factory.create_shader_vertex(VERTEX_SRC);
        let gs = factory.create_shader_geometry(WIREFRAME_GEOMETRY_SRC);
        let fs = factory.create_shader_pixel(FLAT_FRAGMENT_SRC);

        Wireframe {
            pso: factory.create_pipeline_state(
                ShaderSet::Geometry(vs, gs, fs),
                gfx::Primitive::TriangleList,
                gfx::state::Rasterizer::new_fill(),
                Layout::Wireframe,
            ),
        }
    }

    /// The pipeline that the pass draws with.
    pub fn pso(&self) -> (pso: Handle)
        ensures
            pso == self.pipeline(),
    {
        self.pso
    }
}

impl Pass for Wireframe {
    type Arg = pass::Wireframe;

    type Target = ColorBuffer;

    open spec fn resolves(arg: &pass::Wireframe, frame: &Frame) -> bool {
        frame.scenes().contains_key(arg.scene@) && frame.cameras().contains_key(arg.camera@)
    }

    open spec fn recorded(
        &self,
        arg: &pass::Wireframe,
        target: &ColorBuffer,
        frame: &Frame,
    ) -> Seq<Op> {
        wireframe_ops(
            self.pipeline(),
            *target,
            frame.scenes()[arg.scene@],
            frame.cameras()[arg.camera@],
        )
    }

    fn apply(
        &self,
        arg: &pass::Wireframe,
        target: &ColorBuffer,
        frame: &Frame,
        encoder: &mut Encoder,
    ) {
        let scene = frame.scene(arg.scene.as_str()).unwrap();
        let camera = frame.camera(arg.camera.as_str()).unwrap();
        let ghost all = wireframe_ops(self.pso, *target, *scene, *camera);
        let mut i: usize = 0;
        while i < scene.fragments.len()
            invariant
                i <= scene.fragments@.len(),
                all == wireframe_ops(self.pso, *target, *scene, *camera),
                encoder@ == old(encoder)@ + all.take(i as int),
            decreases scene.fragments@.len() - i,
        {
            let e = &scene.fragments[i];
            encoder.draw(
                e.slice,
                self.pso,
                Data::Wireframe(
                    WireframeData {
                        vbuf: e.buffer,
                        ka: e.ka,
                        model: e.transform,
                        view: camera.view,
                        proj: camera.projection,
                        out_ka: target.color,
                    },
                ),
            );
            assert(all.take(i + 1) =~= all.take(i as int).push(all[i as int]));
            i += 1;
        }
        assert(all.take(i as int) =~= all);
    }
}

/// Clearing is idempotent. Whatever was recorded before, a target that the
/// clear pass was applied to twice in a row with one color is in the state
/// in which one application leaves it: every texel of the color image holds
/// that color, and every texel of the depth image the farthest depth.
pub proof fn lemma_clear_twice_is_clear_once(
    pass: Clear,
    arg: pass::Clear,
    target: ColorBuffer,
    frame: Frame,
    before: Seq<Op>,
)
    ensures
        target_state(before + pass.recorded(&arg, &target, &frame), target) == (TargetState {
            color: Some(arg.color),
            depth: Some(ONE),
        }),
        target_state(
            before + pass.recorded(&arg, &target, &frame) + pass.recorded(&arg, &target, &frame),
            target,
        ) == target_state(before + pass.recorded(&arg, &target, &frame), target),
{
    let clear = clear_ops(arg.color, target);
    lemma_state_after_clear(before, arg.color, target);
    lemma_state_after_clear(before + clear, arg.color, target);
}

/// Whatever was recorded before, the commands of the clear pass leave the
/// target cleared to `color` and to the farthest depth.
proof fn lemma_state_after_clear(before: Seq<Op>, color: Vec4, target: ColorBuffer)
    ensures
        cleared_color(before + clear_ops(color, target), target.color) == Some(color),
        cleared_depth(before + clear_ops(color, target), target.output_depth) == Some(ONE),
{
    let after = before + clear_ops(color, target);
    let between = before.push(Op::ClearColor { view: target.color, color });
    assert(after.drop_last() =~= between);
    assert(cleared_color(between, target.color) == Some(color));
}

/// Every draw pass draws the fragments of a scene in the order of the
/// scene, one draw each, and nothing else but the one upload with which the
/// lit pass begins: draw `i` of a pass is the draw of fragment `i`.
pub proof fn lemma_draws_follow_scene_order(
    pso: Handle,
    lights: Handle,
    target: ColorBuffer,
    scene: Scene,
    camera: Camera,
    i: int,
)
    requires
        0 <= i < scene.fragments@.len(),
    ensures
        flat_ops(pso, target, scene, camera).len() == scene.fragments@.len(),
        flat_ops(pso, target, scene, camera)[i] == flat_draw(
            pso,
            target,
            scene.fragments@[i],
            camera,
        ),
        shaded_ops(pso, lights, target, scene, camera).len() == scene.fragments@.len() + 1,
        shaded_ops(pso, lights, target, scene, camera)[0] == light_upload(lights, scene),
        shaded_ops(pso, lights, target, scene, camera)[i + 1] == shaded_draw(
            pso,
            lights,
            light_count(scene),
            target,
            scene.fragments@[i],
            camera,
        ),
        wireframe_ops(pso, target, scene, camera).len() == scene.fragments@.len(),
        wireframe_ops(pso, target, scene, camera)[i] == wireframe_draw(
            pso,
            target,
            scene.fragments@[i],
            camera,
        ),
{
}

/// A fragment that is added to a scene is drawn last, after the draws that
/// the scene had before, which stay as they were.
pub proof fn lemma_added_fragment_is_drawn_last(
    pso: Handle,
    lights: Handle,
    target: ColorBuffer,
    scene: Scene,
    grown: Scene,
    added: Fragment,
    camera: Camera,
)
    requires
        grown.fragments@ == scene.fragments@.push(added),
        grown.lights@ == scene.lights@,
    ensures
        flat_ops(pso, target, grown, camera) == flat_ops(pso, target, scene, camera).push(
            flat_draw(pso, target, added, camera),
        ),
        shaded_ops(pso, lights, target, grown, camera) == shaded_ops(
            pso,
            lights,
            target,
            scene,
            camera,
        ).push(shaded_draw(pso, lights, light_count(scene), target, added, camera)),
        wireframe_ops(pso, target, grown, camera) == wireframe_ops(pso, target, scene, camera).push(
            wireframe_draw(pso, target, added, camera),
        ),
{
    assert(flat_ops(pso, target, grown, camera) =~= flat_ops(pso, target, scene, camera).push(
        flat_draw(pso, target, added, camera),
    ));
    assert(shaded_ops(pso, lights, target, grown, camera) =~= shaded_ops(
        pso,
        lights,
        target,
        scene,
        camera,
    ).push(shaded_draw(pso, lights, light_count(scene), target, added, camera)));
    assert(wireframe_ops(pso, target, grown, camera) =~= wireframe_ops(
        pso,
        target,
        scene,
        camera,
    ).push(wireframe_draw(pso, target, added, camera)));
}

/// Each time the lit pass is applied it rewrites the whole light buffer
/// that it asked for when it was built: the upload starts at the first
/// record and has as many records as the buffer, those past the light count
/// being zero.
pub proof fn lemma_upload_fills_the_light_buffer(lights: Handle, scene: Scene)
    ensures
        light_upload(lights, scene) == (Op::UpdateBuffer {
            buffer: lights,
            records: spec_pack_lights(scene.lights@),
            offset: 0,
        }),
        is_light_block(spec_pack_lights(scene.lights@), light_count(scene) as nat),
        0 <= light_count(scene) <= MAX_LIGHTS,
        light_count(scene) <= scene.lights@.len(),
{
}

/// In a scene without lights the lit pass uploads a block of zero records
/// and binds a light count of zero, so the fragment stage never enters its
/// loop over the lights; what else a lit draw binds is what the flat draw of
/// the same fragment binds, and the diffuse color.
pub proof fn lemma_unlit_scene_draws_as_flat(
    pso: Handle,
    flat_pso: Handle,
    lights: Handle,
    target: ColorBuffer,
    scene: Scene,
    camera: Camera,
    i: int,
)
    requires
        scene.lights@.len() == 0,
        0 <= i < scene.fragments@.len(),
    ensures
        light_count(scene) == 0,
        forall|j: int|
            0 <= j < MAX_LIGHTS ==> #[trigger] spec_pack_lights(scene.lights@)[j]
                == PointLight::spec_zero(),
        shaded_ops(pso, lights, target, scene, camera)[i + 1] == shaded_draw(
            pso,
            lights,
            0,
            target,
            scene.fragments@[i],
            camera,
        ),
        same_but_for_lighting(
            shaded_ops(pso, lights, target, scene, camera)[i + 1],
            flat_ops(flat_pso, target, scene, camera)[i],
        ),
{
}

/// Whether `lit` is a lit draw and `flat` a flat draw of one range that bind
/// the same vertex buffer, ambient color, matrices and targets.
pub open spec fn same_but_for_lighting(lit: Op, flat: Op) -> bool {
    match (lit, flat) {
        (
            Op::Draw { slice, data: Data::Shaded(l), .. },
            Op::Draw { slice: flat_slice, data: Data::Flat(f), .. },
        ) => {
            &&& slice == flat_slice
            &&& l.vbuf == f.vbuf
            &&& l.ka == f.ka
            &&& l.model == f.model
            &&& l.view == f.view
            &&& l.proj == f.proj
            &&& l.out_ka == f.out_ka
            &&& l.out_depth == f.out_depth
        },
        _ => false,
    }
}

} // verus!
