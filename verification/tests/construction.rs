use forward_pass::factory::{Factory, Layout, Request, ShaderSet, Stage};
use forward_pass::math::Vec4;
use forward_pass::pass::forward::{DrawNoShading, DrawShaded, Wireframe};
use forward_pass::shaders::{
    wireframe_outline, FLAT_FRAGMENT_SRC, FRAGMENT_SRC, VERTEX_SRC, WIREFRAME_GEOMETRY_SRC,
};

#[test]
fn new_factory_was_asked_for_nothing() {
    assert!(Factory::new().requests().is_empty());
}

#[test]
fn factory_hands_out_the_place_of_each_request() {
    let mut factory = Factory::new();
    assert_eq!(factory.create_constant_buffer(16), 0);
    assert_eq!(factory.create_shader_vertex("v"), 1);
    assert_eq!(factory.create_shader_geometry("g"), 2);
    assert_eq!(factory.create_shader_pixel("p"), 3);
    assert_eq!(factory.create_pipeline_simple("a", "b", Layout::Shaded), 4);
    let fill = gfx::state::Rasterizer::new_fill();
    let lines = gfx::state::Rasterizer {
        method: gfx::state::RasterMethod::Line(2),
        ..fill.with_cull_back()
    };
    assert_eq!(
        factory.create_pipeline_state(
            ShaderSet::Simple(1, 3),
            gfx::Primitive::LineStrip,
            lines,
            Layout::Flat
        ),
        5
    );
    assert_eq!(
        factory.requests(),
        &vec![
            Request::ConstantBuffer { num: 16 },
            Request::Shader { stage: Stage::Vertex, code: "v" },
            Request::Shader { stage: Stage::Geometry, code: "g" },
            Request::Shader { stage: Stage::Pixel, code: "p" },
            Request::PipelineSimple { vs: "a", ps: "b", init: Layout::Shaded },
            Request::PipelineState {
                shaders: ShaderSet::Simple(1, 3),
                primitive: gfx::Primitive::LineStrip,
                rasterizer: lines,
                init: Layout::Flat,
            },
        ]
    );
}

#[test]
fn flat_pass_asks_for_one_pipeline() {
    let mut factory = Factory::new();
    let pass = DrawNoShading::new(&mut factory);
    assert_eq!(pass.pso(), 0);
    assert_eq!(
        factory.requests(),
        &vec![Request::PipelineSimple {
            vs: VERTEX_SRC,
            ps: FLAT_FRAGMENT_SRC,
            init: Layout::Flat
        }]
    );
}

#[test]
fn lit_pass_asks_for_512_records_then_one_pipeline() {
    let mut factory = Factory::new();
    let pass = DrawShaded::new(&mut factory);
    assert_eq!(pass.lights(), 0);
    assert_eq!(pass.pso(), 1);
    assert_eq!(
        factory.requests(),
        &vec![
            Request::ConstantBuffer { num: 512 },
            Request::PipelineSimple { vs: VERTEX_SRC, ps: FRAGMENT_SRC, init: Layout::Shaded },
        ]
    );
}

#[test]
fn wireframe_pass_asks_for_three_stages_then_links_them() {
    let mut factory = Factory::new();
    let pass = Wireframe::new(&mut factory);
    assert_eq!(pass.pso(), 3);
    assert_eq!(
        factory.requests(),
        &vec![
            Request::Shader { stage: Stage::Vertex, code: VERTEX_SRC },
            Request::Shader { stage: Stage::Geometry, code: WIREFRAME_GEOMETRY_SRC },
            Request::Shader { stage: Stage::Pixel, code: FLAT_FRAGMENT_SRC },
            Request::PipelineState {
                shaders: ShaderSet::Geometry(0, 1, 2),
                primitive: gfx::Primitive::TriangleList,
                rasterizer: gfx::state::Rasterizer::new_fill(),
                init: Layout::Wireframe,
            },
        ]
    );
}

#[test]
fn wireframe_pass_fills_faces_without_culling() {
    let mut factory = Factory::new();
    let _ = Wireframe::new(&mut factory);
    match factory.requests()[3] {
        Request::PipelineState { rasterizer, .. } => {
            assert_eq!(rasterizer.front_face, gfx::state::FrontFace::CounterClockwise);
            assert_eq!(rasterizer.cull_face, gfx::state::CullFace::Nothing);
            assert_eq!(rasterizer.method, gfx::state::RasterMethod::Fill);
            assert_eq!(rasterizer.offset, None);
            assert_eq!(rasterizer.samples, None);
        }
        other => panic!("expected the pipeline last, found {:?}", other),
    }
}

#[test]
fn passes_built_on_one_factory_get_handles_of_their_own() {
    let mut factory = Factory::new();
    let flat = DrawNoShading::new(&mut factory);
    let lit = DrawShaded::new(&mut factory);
    let wire = Wireframe::new(&mut factory);
    let again = DrawShaded::new(&mut factory);
    assert_eq!(flat.pso(), 0);
    assert_eq!((lit.lights(), lit.pso()), (1, 2));
    assert_eq!(wire.pso(), 6);
    assert_eq!((again.lights(), again.pso()), (7, 8));
    assert_eq!(factory.requests().len(), 9);
    assert_eq!(
        factory.requests()[6],
        Request::PipelineState {
            shaders: ShaderSet::Geometry(3, 4, 5),
            primitive: gfx::Primitive::TriangleList,
            rasterizer: gfx::state::Rasterizer::new_fill(),
            init: Layout::Wireframe,
        }
    );
}

#[test]
fn shader_sources_are_glsl_150() {
    for source in [VERTEX_SRC, FLAT_FRAGMENT_SRC, FRAGMENT_SRC, WIREFRAME_GEOMETRY_SRC] {
        assert_eq!(source.lines().nth(1).map(str::trim), Some("#version 150 core"));
        assert!(source.contains("void main()"));
    }
}

#[test]
fn lit_fragment_source_declares_the_block_of_512() {
    assert!(FRAGMENT_SRC.contains("#define MAX_NUM_TOTAL_LIGHTS 512"));
    assert!(FRAGMENT_SRC.contains("Light light[MAX_NUM_TOTAL_LIGHTS];"));
    assert!(FRAGMENT_SRC.contains("for (int i = 0; i < u_LightCount; i++)"));
}

#[test]
fn geometry_source_emits_four_vertices_of_a_line_strip() {
    assert!(WIREFRAME_GEOMETRY_SRC.contains("layout(line_strip, max_vertices=4) out;"));
    assert_eq!(WIREFRAME_GEOMETRY_SRC.matches("EmitVertex();").count(), 4);
    let corners: Vec<&str> = WIREFRAME_GEOMETRY_SRC
        .lines()
        .map(str::trim)
        .filter(|line| line.starts_with("gl_Position = gl_in["))
        .collect();
    assert_eq!(
        corners,
        vec![
            "gl_Position = gl_in[0].gl_Position;",
            "gl_Position = gl_in[1].gl_Position;",
            "gl_Position = gl_in[2].gl_Position;",
            "gl_Position = gl_in[0].gl_Position;",
        ]
    );
}

#[test]
fn outline_of_a_triangle_visits_its_corners_and_closes() {
    let a = Vec4 { x: 1, y: 2, z: 3, w: 4 };
    let b = Vec4 { x: 5, y: 6, z: 7, w: 8 };
    let c = Vec4 { x: 9, y: 10, z: 11, w: 12 };
    assert_eq!(wireframe_outline(a, b, c), [a, b, c, a]);
}

#[test]
fn outline_of_a_degenerate_triangle_still_has_four_vertices() {
    let a = Vec4 { x: 1, y: 1, z: 1, w: 1 };
    assert_eq!(wireframe_outline(a, a, a), [a, a, a, a]);
}
