//! The commands and events that the dispatcher takes, and the actions it
//! answers with.

use vstd::prelude::*;
use crate::gfx::gfx_state::{Frame, PhysicalSize, SurfaceConfiguration};
use crate::types::{InstanceHandle, ShaderCompilationInfo};

verus! {

/// A command from the host.
#[derive(Debug, PartialEq, Eq)]
pub enum UserEvents<C> {
    /// Create an instance in the named container, and tell the callback its
    /// handle.
    CreateInstance(String, Option<C>),
    /// Destroy the instance of the given window.
    DestroyInstance(u64),
    /// Compile the source for the instance of the given window and, if it
    /// has no errors, render with it from now on; then tell the callback the
    /// diagnostics.
    UpdateShader(String, C, u64),
    /// Compile the source for the instance of the given window, and tell the
    /// callback the diagnostics.
    CompileShader(String, C, u64),
}

/// An event from the window system, as far as the dispatcher reads it.
#[derive(Clone, Copy, Debug, PartialEq, Eq)]
pub enum WindowEvent {
    CloseRequested,
    RedrawRequested,
    Resized(PhysicalSize),
    MouseInput,
    Other,
}

/// What the shell does after a window event.
#[derive(Clone, Copy, Debug, PartialEq, Eq)]
pub enum WindowAction {
    /// Leave the event loop.
    Exit,
    /// Ask the window for its next redraw, then carry out the frame.
    Redraw(Frame),
    /// Apply the configuration to the window's surface.
    Configure(SurfaceConfiguration),
    /// Nothing.
    Nothing,
}

/// A shader to compile on an instance's device, and what to do with the
/// diagnostics.
#[derive(Debug, PartialEq, Eq)]
pub struct ShaderTask<C> {
    pub shader_source: String,
    pub callback: C,
    pub window_id: u64,
    /// Whether a clean result replaces the instance's pipeline.
    pub update: bool,
}

/// The outcome of a shader task: the callback to invoke and the diagnostics
/// to invoke it with.
#[derive(Debug, PartialEq, Eq)]
pub struct ShaderReport<C> {
    pub callback: C,
    pub info: ShaderCompilationInfo,
    /// Whether the instance has a new pipeline, which the shell then builds
    /// on the device.
    pub replaced: bool,
}

/// What the shell does after a command.
#[derive(Debug, PartialEq, Eq)]
pub enum UserAction<C> {
    /// Open a window in the container, bring up its surface, and hand both
    /// to [`App::create_instance`] with the callback.
    CreateWindow(String, Option<C>),
    /// Compile the task's source on the device of the task's instance, and
    /// hand the diagnostics to [`App::shader_compiled`] with the task.
    Compile(ShaderTask<C>),
    /// Nothing.
    Nothing,
}

/// Builds the commands that the host sends to the dispatcher.
#[derive(Clone, Copy, Debug)]
pub struct EventHandler;

/// The container in which an instance is created where the host names none.
pub open spec fn default_container() -> Seq<char> {
    "canvas-container"@
}

impl EventHandler {
    /// The command that creates an instance in `container_id`, or in the
    /// default container where that is `None`.
    pub fn create_instance<C>(container_id: Option<String>, callback: Option<C>) -> (event:
        UserEvents<C>)
        ensures
            event matches UserEvents::CreateInstance(container, notify) && notify == callback
                && container@ == (match container_id {
                Some(container_id) => container_id@,
                None => default_container(),
            }),
    {
        let container = match container_id {
            Some(container_id) => container_id,
            None => "canvas-container".to_owned(),
        };
        UserEvents::CreateInstance(container, callback)
    }

    /// The command that compiles `shader_source` for the instance behind
    /// `handle` and renders with it if it is free of errors.
    pub fn update_shader<C>(handle: &InstanceHandle, shader_source: String, callback: C) -> (event:
        UserEvents<C>)
        ensures
            event == UserEvents::UpdateShader(shader_source, callback, handle.window_id),
    {
        UserEvents::UpdateShader(shader_source, callback, handle.window_id)
    }

    /// The command that compiles `shader_source` for the instance behind
    /// `handle`.
    pub fn compile_shader<C>(handle: &InstanceHandle, shader_source: String, callback: C) -> (event:
        UserEvents<C>)
        ensures
            event == UserEvents::CompileShader(shader_source, callback, handle.window_id),
    {
        UserEvents::CompileShader(shader_source, callback, handle.window_id)
    }

    /// The command that destroys the instance behind `handle`.
    pub fn destroy_instance<C>(handle: InstanceHandle) -> (event: UserEvents<C>)
        ensures
            event == UserEvents::<C>::DestroyInstance(handle.window_id),
    {
        UserEvents::DestroyInstance(handle.window_id)
    }
}

} // verus!
