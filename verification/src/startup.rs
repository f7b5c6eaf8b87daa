//! Startup fault decisions.
//!
//! Initialization acquires a GPU device and command queue, compiles the
//! embedded shader pair, builds the render pipeline and allocates the
//! offscreen texture, in that order. Every failure is an unrecoverable
//! startup fault: the application aborts at once with a descriptive message,
//! before the frame loop is ever entered. This module decides, from which
//! steps succeeded, whether startup proceeds and which fault it reports.

use vstd::prelude::*;

verus! {

/// The startup faults, one per initialization step that can fail.
#[derive(Clone, Copy, PartialEq, Eq, Structural, Debug)]
pub enum StartupError {
    /// No usable default GPU device is available on the host.
    NoDevice,
    /// The device refused to create a command-submission queue.
    NoCommandQueue,
    /// The embedded shader source failed to compile into a library.
    ShaderLibrary,
    /// The render pipeline could not be built from the compiled shaders.
    PipelineCreation,
    /// The offscreen texture could not be allocated.
    TextureAllocation,
}

impl StartupError {
    /// The descriptive message the application aborts with for this fault.
    pub fn message(&self) -> (m: &'static str)
        ensures
            *self is NoDevice ==> m@ == "Failed to create Metal device"@,
            *self is NoCommandQueue ==> m@ == "Failed to create command queue"@,
            *self is ShaderLibrary ==> m@ == "Failed to create library"@,
            *self is PipelineCreation ==> m@ == "Failed to create pipeline state"@,
            *self is TextureAllocation ==> m@ == "newTextureWithDescriptor() failed"@,
    {
        match self {
            StartupError::NoDevice => "Failed to create Metal device",
            StartupError::NoCommandQueue => "Failed to create command queue",
            StartupError::ShaderLibrary => "Failed to create library",
            StartupError::PipelineCreation => "Failed to create pipeline state",
            StartupError::TextureAllocation => "newTextureWithDescriptor() failed",
        }
    }
}

/// Which initialization steps succeeded, in the order they are attempted.
#[derive(Clone, Copy, PartialEq, Eq, Structural, Debug)]
pub struct StartupSteps {
    pub device_ok: bool,
    pub queue_ok: bool,
    pub shader_ok: bool,
    pub pipeline_ok: bool,
    pub texture_ok: bool,
}

/// Decides the outcome of startup: the first step that failed names the
/// fatal fault, and only when every step succeeded does the application
/// enter the frame loop. In particular, with no GPU device available the
/// outcome is the device fault, whatever the later steps would have done.
pub fn startup_outcome(s: StartupSteps) -> (r: Result<(), StartupError>)
    ensures
        !s.device_ok ==> r == Err::<(), StartupError>(StartupError::NoDevice),
        s.device_ok && !s.queue_ok ==> r == Err::<(), StartupError>(StartupError::NoCommandQueue),
        s.device_ok && s.queue_ok && !s.shader_ok ==> r == Err::<(), StartupError>(
            StartupError::ShaderLibrary,
        ),
        s.device_ok && s.queue_ok && s.shader_ok && !s.pipeline_ok ==> r == Err::<
            (),
            StartupError,
        >(StartupError::PipelineCreation),
        s.device_ok && s.queue_ok && s.shader_ok && s.pipeline_ok && !s.texture_ok ==> r == Err::<
            (),
            StartupError,
        >(StartupError::TextureAllocation),
        r is Ok <==> s.device_ok && s.queue_ok && s.shader_ok && s.pipeline_ok && s.texture_ok,
{
    if !s.device_ok {
        Err(StartupError::NoDevice)
    } else if !s.queue_ok {
        Err(StartupError::NoCommandQueue)
    } else if !s.shader_ok {
        Err(StartupError::ShaderLibrary)
    } else if !s.pipeline_ok {
        Err(StartupError::PipelineCreation)
    } else if !s.texture_ok {
        Err(StartupError::TextureAllocation)
    } else {
        Ok(())
    }
}

} // verus!
