use vstd::prelude::*;
use crate::error::Stage;

verus! {

/// The GLSL version line that precedes each stage's source.
pub const GLSL_VERSION_HEADER: &'static str = "#version 330\n";

/// Vertex stage: synthesizes one triangle from the vertex index and shades it
/// with an sRGB colour converted to linear space.
pub const VERTEX_SHADER_SOURCE: &'static str = r#"
const vec2 verts[3] = vec2[3](
    vec2(0.5f, 1.0f),
    vec2(0.0f, 0.0f),
    vec2(1.0f, 0.0f)
);

out vec2 vert;
out vec4 color;

vec4 srgb_to_linear(vec4 srgb_color) {
    // Calculation as documented by OpenGL
    vec3 srgb = srgb_color.rgb;
    vec3 selector = ceil(srgb - 0.04045);
    vec3 less_than_branch = srgb / 12.92;
    vec3 greater_than_branch = pow((srgb + 0.055) / 1.055, vec3(2.4));
    return vec4(
        mix(less_than_branch, greater_than_branch, selector),
        srgb_color.a
    );
}

void main() {
    vert = verts[gl_VertexID];
    color = srgb_to_linear(vec4(vert, 0.5, 1.0));
    gl_Position = vec4(vert - 0.5, 0.0, 1.0);
}
"#;

/// Fragment stage: converts the interpolated linear colour back to sRGB.
pub const FRAGMENT_SHADER_SOURCE: &'static str = r#"
in vec2 vert;
in vec4 color;

out vec4 frag_color;

vec4 linear_to_srgb(vec4 linear_color) {
    vec3 linear = linear_color.rgb;
    vec3 selector = ceil(linear - 0.0031308);
    vec3 less_than_branch = linear * 12.92;
    vec3 greater_than_branch = pow(linear, vec3(1.0/2.4)) * 1.055 - 0.055;
    return vec4(
        mix(less_than_branch, greater_than_branch, selector),
        linear_color.a
    );
}

void main() {
    frag_color = linear_to_srgb(color);
}
"#;

/// The fixed source of `stage`, without its version line.
pub open spec fn stage_source(stage: Stage) -> Seq<char> {
    match stage {
        Stage::Vertex => VERTEX_SHADER_SOURCE@,
        Stage::Fragment => FRAGMENT_SHADER_SOURCE@,
    }
}

/// The text handed to the driver for `stage`: the version line followed by
/// the stage's fixed source.
pub fn versioned_source(stage: Stage) -> (r: String)
    ensures
        r@ == GLSL_VERSION_HEADER@ + stage_source(stage),
{
    let mut text = String::from_str(GLSL_VERSION_HEADER);
    match stage {
        Stage::Vertex => text.append(VERTEX_SHADER_SOURCE),
        Stage::Fragment => text.append(FRAGMENT_SHADER_SOURCE),
    }
    text
}

} // verus!
