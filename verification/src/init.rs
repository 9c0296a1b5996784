use vstd::prelude::*;

verus! {

/// Number of vertices in the fixed triangle.
pub const TRIANGLE_VERTEX_COUNT: i32 = 3;

/// Single-precision values per vertex: two position coordinates followed
/// by three color channels.
pub const FLOATS_PER_VERTEX: u32 = 5;

/// Size of one single-precision value, in bytes.
pub const BYTES_PER_FLOAT: u32 = 4;

/// The fallible steps of render-thread initialization, in the order they
/// must run: the drawable surface is created first, the context is
/// activated against it, the swap interval is requested, then each shader
/// is compiled and the two are linked into one program.
#[derive(Clone, Copy, Debug, PartialEq, Eq, Structural)]
pub enum InitStep {
    CreateSurface,
    ActivateContext,
    SetSwapInterval,
    CompileVertexShader,
    CompileFragmentShader,
    LinkProgram,
}

/// What the render thread does when an initialization step fails:
/// abort immediately, surfacing the step's diagnostic text, or report
/// the diagnostic and continue without the feature.
#[derive(Debug)]
pub enum FailureAction {
    Abort(String),
    ContinueDegraded(String),
}

/// Classifies an initialization failure. Every step is fatal — the
/// thread aborts with the underlying diagnostic — except the swap
/// interval (vsync) request, whose failure is reported and survived:
/// presentation without vsync is degraded, not broken.
pub fn on_init_failure(step: InitStep, diagnostic: String) -> (r: FailureAction)
    ensures
        step is SetSwapInterval ==> r == FailureAction::ContinueDegraded(diagnostic),
        !(step is SetSwapInterval) ==> r == FailureAction::Abort(diagnostic),
{
    match step {
        InitStep::SetSwapInterval => FailureAction::ContinueDegraded(diagnostic),
        _ => FailureAction::Abort(diagnostic),
    }
}

/// How one vertex attribute is laid out in the interleaved vertex
/// buffer: its attribute index, how many single-precision components it
/// has, the stride in bytes from one vertex to the next, and its byte
/// offset within a vertex.
#[derive(Clone, Copy, Debug, PartialEq, Eq, Structural)]
pub struct VertexAttribute {
    pub index: u32,
    pub components: i32,
    pub stride: i32,
    pub offset: i32,
}

/// Layout of attribute 0, the two-component vertex position: first in
/// each vertex, so at offset zero, with five four-byte values between
/// consecutive vertices.
pub fn position_attribute() -> (a: VertexAttribute)
    ensures
        a == (VertexAttribute { index: 0, components: 2, stride: 20, offset: 0 }),
        a.stride == FLOATS_PER_VERTEX * BYTES_PER_FLOAT,
{
    VertexAttribute { index: 0, components: 2, stride: 20, offset: 0 }
}

/// Layout of attribute 1, the three-component vertex color: it follows
/// the two position values, so its offset is two four-byte values, with
/// the same stride as the position.
pub fn color_attribute() -> (a: VertexAttribute)
    ensures
        a == (VertexAttribute { index: 1, components: 3, stride: 20, offset: 8 }),
        a.stride == FLOATS_PER_VERTEX * BYTES_PER_FLOAT,
        a.offset == 2 * BYTES_PER_FLOAT,
{
    VertexAttribute { index: 1, components: 3, stride: 20, offset: 8 }
}

/// The frame-clear color, opaque white, as the bit patterns of its four
/// single-precision channels (red, green, blue, alpha), each 1.0.
pub fn clear_color_bits() -> (c: (u32, u32, u32, u32))
    ensures
        c == (0x3F800000u32, 0x3F800000u32, 0x3F800000u32, 0x3F800000u32),
{
    (0x3F800000, 0x3F800000, 0x3F800000, 0x3F800000)
}

/// The embedded vertex shader: forwards the two-component position as a
/// homogeneous coordinate with depth zero and w one, and passes the
/// vertex color through to an interpolated output.
pub open spec fn vertex_shader_source_spec() -> Seq<char> {
    "
#version 330 core

layout (location = 0) in vec2 aPos;
layout (location = 1) in vec3 aColor;

out vec3 bColor;

void main() {
    bColor = aColor;
    gl_Position = vec4(aPos, 0.0, 1.0);
}"@
}

/// The fixed vertex shader source handed to the compile step.
pub fn vertex_shader_source() -> (s: &'static str)
    ensures
        s@ == vertex_shader_source_spec(),
{
    "
#version 330 core

layout (location = 0) in vec2 aPos;
layout (location = 1) in vec3 aColor;

out vec3 bColor;

void main() {
    bColor = aColor;
    gl_Position = vec4(aPos, 0.0, 1.0);
}"
}

/// The embedded fragment shader: writes the interpolated vertex color
/// with alpha one.
pub open spec fn fragment_shader_source_spec() -> Seq<char> {
    "
#version 330 core
out vec4 FragColor;

in vec3 bColor;

void main() {
    FragColor = vec4(bColor, 1.0);
}"@
}

/// The fixed fragment shader source handed to the compile step.
pub fn fragment_shader_source() -> (s: &'static str)
    ensures
        s@ == fragment_shader_source_spec(),
{
    "
#version 330 core
out vec4 FragColor;

in vec3 bColor;

void main() {
    FragColor = vec4(bColor, 1.0);
}"
}

} // verus!
