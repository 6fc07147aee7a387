//! The GLSL sources that the passes compile, shared between them.

use vstd::prelude::*;
use crate::math::Vec4;

verus! {

/// Vertex stage of every pass: transforms position and normal.
pub const VERTEX_SRC: &'static str = "
    #version 150 core

    uniform mat4 u_Proj;
    uniform mat4 u_View;
    uniform mat4 u_Model;

    in vec3 a_Pos;
    in vec3 a_Normal;

    out vec4 v_Position;
    out vec3 v_Normal;

    void main() {
        v_Position = u_Model * vec4(a_Pos, 1.0);
        v_Normal = mat3(u_Model) * a_Normal;
        gl_Position = u_Proj * u_View * u_Model * vec4(a_Pos, 1.0);
    }
";

/// Fragment stage of flat and wireframe drawing: the ambient color, whatever
/// the vertex stage hands over.
pub const FLAT_FRAGMENT_SRC: &'static str = "
    #version 150 core

    uniform vec4 u_Ka;

    out vec4 o_Color;

    void main() {
        o_Color = u_Ka;
    }
";

/// Fragment stage of lit drawing: the ambient color plus, for each of the
/// first `u_LightCount` lights of the block, the diffuse color times the
/// light's color, its attenuation and the cosine between normal and light
/// direction, the cosine taken as zero where it is negative.
pub const FRAGMENT_SRC: &'static str = "
    #version 150 core
    #define MAX_NUM_TOTAL_LIGHTS 512

    uniform vec4 u_Ka;
    uniform vec4 u_Kd;
    uniform int u_LightCount;

    struct Light {
        vec4 propagation;
        vec4 center;
        vec4 color;
    };

    layout (std140) uniform u_Lights {
        Light light[MAX_NUM_TOTAL_LIGHTS];
    };

    in vec4 v_Position;
    in vec3 v_Normal;
    out vec4 o_Color;

    void main() {
        vec4 color = u_Ka;
        for (int i = 0; i < u_LightCount; i++) {
            vec4 delta = light[i].center - v_Position;
            vec4 light_to_point_normal = normalize(delta);

            float dist = length(delta);
            float intensity = dot(light[i].propagation.xyz, vec3(1., 1./dist, 1/(dist*dist)));

            color += u_Kd * light[i].color * intensity * max(0, dot(light_to_point_normal, vec4(v_Normal, 0.)));
        }
        o_Color = color;
    }
";

/// Geometry stage of wireframe drawing: turns each triangle into the closed
/// line strip of its outline.
pub const WIREFRAME_GEOMETRY_SRC: &'static str = "
    #version 150 core

    layout(triangles) in;
    layout(line_strip, max_vertices=4) out;

    void main() {
        gl_Position = gl_in[0].gl_Position;
        EmitVertex();
        gl_Position = gl_in[1].gl_Position;
        EmitVertex();
        gl_Position = gl_in[2].gl_Position;
        EmitVertex();
        gl_Position = gl_in[0].gl_Position;
        EmitVertex();
        EndPrimitive();
    }
";

/// The line strip that the wireframe geometry stage emits for the triangle
/// `a`, `b`, `c`: the three corners in order and the first once more, which
/// closes the outline. A backend without geometry stages can expand its
/// triangles with this.
pub fn wireframe_outline(a: Vec4, b: Vec4, c: Vec4) -> (strip: [Vec4; 4])
    ensures
        strip@ == seq![a, b, c, a],
{
    [a, b, c, a]
}

} // verus!
