use vstd::prelude::*;

verus! {

/// One shader compilation unit of the fixed program.
#[derive(Clone, Copy, Debug, PartialEq, Eq, Structural)]
pub enum Stage {
    Vertex,
    Fragment,
}

/// A GPU object that the resource pipeline creates and must release.
#[derive(Clone, Copy, Debug, PartialEq, Eq, Structural)]
pub enum GpuObject {
    Program,
    VertexArray,
    Shader(Stage),
}

/// Every failure of the system. All of them are fatal: none is retried or
/// recovered in place.
#[derive(Clone, Debug, PartialEq, Eq)]
pub enum VeilError {
    /// No monitor, no window, or no graphics configuration fits the template.
    PlatformInit { detail: String },
    /// The rendering context could not be created or made current.
    ContextCreation { detail: String },
    /// The presentation surface could not be created, or would be degenerate.
    SurfaceCreation { detail: String },
    /// The presentation interval (vsync) could not be configured.
    PresentationInterval { detail: String },
    /// The UI layer could not be bound to the window and context.
    UiInit { detail: String },
    /// The driver refused to allocate a GPU object.
    ResourceCreation { object: GpuObject, detail: String },
    /// A shader stage failed to compile; `log` is the driver's diagnostic.
    ShaderCompile { stage: Stage, log: String },
    /// The program failed to link after both stages compiled.
    ProgramLink { log: String },
    /// Drawing the pipeline's primitive or the UI draw data failed.
    DrawFailure { detail: String },
    /// Swapping the back buffer to the front failed.
    PresentFailure { detail: String },
    /// The UI asked, deliberately, for the application to terminate.
    ApplicationAbortRequested { reason: String },
}

} // verus!
