//! The core of a live shader-editing host.
//!
//! The host keeps rendering surfaces alive, compiles shader source while it
//! is being edited, and swaps a surface's render pipeline only when the new
//! source compiled without errors. This crate is the part of it that
//! decides: the registry of instances, the dispatch of events and commands,
//! the state machine of each surface, and the description of every GPU
//! object. It performs no GPU call and opens no window. Each operation
//! updates the state and returns, as plain data, what the shell around the
//! crate has to do; what the device answers is handed back in as plain data
//! too.
//!
//! - [`app`]: the registry and the dispatcher.
//! - [`gfx`]: the surface state machine, the pipeline and the uniform
//!   channel.
//! - [`types`]: instance handles and shader diagnostics.

use vstd::prelude::*;

pub mod app;
pub mod gfx;
pub mod types;

verus! {

/// Where the host runs. The two platforms ask the device for different
/// limits.
#[derive(Clone, Copy, Debug, PartialEq, Eq)]
pub enum Platform {
    /// A desktop, with wgpu's default limits.
    Native,
    /// A browser, with the limits that WebGL2 can meet.
    Web,
}

/// Largest side, in texels, of a two-dimensional texture under the limits
/// that the host asks for on `platform`.
pub open spec fn max_dimension_2d(platform: Platform) -> u32 {
    match platform {
        Platform::Native => 8192,
        Platform::Web => 2048,
    }
}

/// Reads `max_texture_dimension_2d` out of `wgpu::Limits::default()`.
///
/// Trusted: the contract repeats the value that wgpu gives its default
/// limits, which is 8192.
#[verifier::external_body]
fn default_limits_max_texture_dimension_2d() -> (dimension: u32)
    ensures
        dimension == 8192,
{
    wgpu::Limits::default().max_texture_dimension_2d
}

/// Reads `max_texture_dimension_2d` out of
/// `wgpu::Limits::downlevel_webgl2_defaults()`.
///
/// Trusted: the contract repeats the value that wgpu gives these limits,
/// which is 2048.
#[verifier::external_body]
fn webgl2_limits_max_texture_dimension_2d() -> (dimension: u32)
    ensures
        dimension == 2048,
{
    wgpu::Limits::downlevel_webgl2_defaults().max_texture_dimension_2d
}

/// The largest surface side that a device accepts on `platform`. Wider or
/// taller surfaces are clamped to it.
pub fn get_max_dimension_2d(platform: Platform) -> (dimension: u32)
    ensures
        dimension == max_dimension_2d(platform),
{
    match platform {
        Platform::Native => default_limits_max_texture_dimension_2d(),
        Platform::Web => webgl2_limits_max_texture_dimension_2d(),
    }
}

} // verus!
