//! What the host asks of the GPU, described as plain data, and the state
//! machine of one rendering surface.

pub mod gfx_state;
pub mod pipeline;
pub mod uniform_buffer;
