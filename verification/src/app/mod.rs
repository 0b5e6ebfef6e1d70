//! The instance registry and the event dispatcher.
//!
//! An [`App`] owns every live instance and is the only writer of that
//! registry. It takes window events and commands one at a time, updates the
//! instances, and answers with the action that the shell has to carry out:
//! open a window, compile a shader on the device, apply a configuration,
//! record a frame. What the device reports comes back in through
//! [`App::create_instance`] and [`App::shader_compiled`].

pub mod dispatcher;
pub mod events;
pub mod registry;

pub use self::events::{
    EventHandler, ShaderReport, ShaderTask, UserAction, UserEvents, WindowAction, WindowEvent,
};
pub use self::registry::{App, AppInstance, AppInstanceView};
