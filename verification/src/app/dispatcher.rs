//! The dispatcher: what each window event, each command and each answer of
//! the device does to the registry, and what it asks of the shell.

use vstd::prelude::*;
use crate::app::events::{
    ShaderReport,
    ShaderTask,
    UserAction,
    UserEvents,
    WindowAction,
    WindowEvent,
};
use crate::app::registry::{
    find_instance,
    has_instance,
    lemma_gfx_replaced,
    lemma_with_gfx_keeps_others,
    position_of,
    unique_instances,
    views_of,
    with_gfx,
    with_instance,
    without_instance,
    App,
    AppInstance,
    AppInstanceView,
};
use crate::gfx::gfx_state::{
    clock_now,
    full_screen_draw,
    Frame,
    GfxState,
    GfxStateView,
    PhysicalSize,
};
use crate::types::{has_errors, CompilationMessageView, InstanceHandle, ShaderCompilationInfo};

verus! {

/// The state of an instance after the diagnostics of an update came in:
/// the pipeline of `shader_source` where none of them is an error, the state
/// as it was otherwise.
pub open spec fn after_update(
    gfx: GfxStateView,
    shader_source: Seq<char>,
    result: Seq<CompilationMessageView>,
) -> GfxStateView {
    if has_errors(result) {
        gfx
    } else {
        gfx.update_shader(shader_source)
    }
}

/// The registry after a window event at clock `now`. A redraw and a resize
/// reach the window's instance; nothing else changes anything.
pub open spec fn after_window_event<W>(
    instances: Seq<AppInstanceView<W>>,
    window_id: u64,
    event: WindowEvent,
    now: u128,
) -> Seq<AppInstanceView<W>> {
    match find_instance(instances, window_id) {
        Some(instance) => match event {
            WindowEvent::RedrawRequested => with_gfx(
                instances,
                window_id,
                instance.gfx.render_at(now),
            ),
            WindowEvent::Resized(size) => with_gfx(instances, window_id, instance.gfx.resize(size)),
            _ => instances,
        },
        None => instances,
    }
}

/// What the shell does after a window event at clock `now`. A request to
/// close ends the loop; an event for a window without an instance is
/// ignored.
pub open spec fn window_action<W>(
    instances: Seq<AppInstanceView<W>>,
    window_id: u64,
    event: WindowEvent,
    now: u128,
) -> WindowAction {
    match event {
        WindowEvent::CloseRequested => WindowAction::Exit,
        WindowEvent::RedrawRequested => match find_instance(instances, window_id) {
            Some(instance) => WindowAction::Redraw(instance.gfx.frame_at(now)),
            None => WindowAction::Nothing,
        },
        WindowEvent::Resized(size) => match find_instance(instances, window_id) {
            Some(instance) => match instance.gfx.reconfiguration(size) {
                Some(config) => WindowAction::Configure(config),
                None => WindowAction::Nothing,
            },
            None => WindowAction::Nothing,
        },
        _ => WindowAction::Nothing,
    }
}

/// The registry after a command. Only the destruction of an instance acts
/// on it at once.
pub open spec fn after_user_event<W, C>(
    instances: Seq<AppInstanceView<W>>,
    event: UserEvents<C>,
) -> Seq<AppInstanceView<W>> {
    match event {
        UserEvents::DestroyInstance(window_id) => without_instance(instances, window_id),
        _ => instances,
    }
}

/// What the shell does after a command. A shader command for a window
/// without an instance is ignored.
pub open spec fn user_action<W, C>(
    instances: Seq<AppInstanceView<W>>,
    event: UserEvents<C>,
) -> UserAction<C> {
    match event {
        UserEvents::CreateInstance(container_id, callback) => UserAction::CreateWindow(
            container_id,
            callback,
        ),
        UserEvents::DestroyInstance(_) => UserAction::Nothing,
        UserEvents::UpdateShader(shader_source, callback, window_id) => if has_instance(
            instances,
            window_id,
        ) {
            UserAction::Compile(ShaderTask { shader_source, callback, window_id, update: true })
        } else {
            UserAction::Nothing
        },
        UserEvents::CompileShader(shader_source, callback, window_id) => if has_instance(
            instances,
            window_id,
        ) {
            UserAction::Compile(ShaderTask { shader_source, callback, window_id, update: false })
        } else {
            UserAction::Nothing
        },
    }
}

/// Whether the diagnostics of a task replace a pipeline: the task is an
/// update, its instance is still there, and no diagnostic is an error.
pub open spec fn replaces_pipeline<W, C>(
    instances: Seq<AppInstanceView<W>>,
    task: ShaderTask<C>,
    result: Seq<CompilationMessageView>,
) -> bool {
    task.update && has_instance(instances, task.window_id) && !has_errors(result)
}

/// The registry after the diagnostics of a task came in.
pub open spec fn after_shader_compiled<W, C>(
    instances: Seq<AppInstanceView<W>>,
    task: ShaderTask<C>,
    result: Seq<CompilationMessageView>,
) -> Seq<AppInstanceView<W>> {
    if replaces_pipeline(instances, task, result) {
        let instance = instances[position_of(instances, task.window_id)];
        with_gfx(instances, task.window_id, instance.gfx.update_shader(task.shader_source@))
    } else {
        instances
    }
}

impl<W> App<W> {
    /// Registers the instance of a window whose surface has come up, and
    /// says whom to tell: the callback, with the new handle.
    ///
    /// A window that has an instance already keeps it; the offered one is
    /// dropped and nobody is told.
    pub fn create_instance<C>(
        &mut self,
        window: W,
        gfx: GfxState,
        window_id: u64,
        callback: Option<C>,
    ) -> (notify: Option<(C, InstanceHandle)>)
        ensures
            unique_instances(final(self)@),
            final(self)@ == with_instance(
                old(self)@,
                AppInstanceView { window, gfx: gfx@, handle: InstanceHandle { window_id } },
            ),
            notify == if has_instance(old(self)@, window_id) {
                None
            } else {
                match callback {
                    Some(callback) => Some((callback, InstanceHandle { window_id })),
                    None => None,
                }
            },
    {
        let instance = AppInstance { window, gfx, handle: InstanceHandle { window_id } };
        match self.create(instance) {
            Ok(handle) => match callback {
                Some(callback) => Some((callback, handle)),
                None => None,
            },
            Err(_) => None,
        }
    }

    /// Dispatches a window event. A redraw reads the clock.
    ///
    /// See [`App::window_event_at`] for what an event at a given clock does.
    pub fn window_event(&mut self, window_id: u64, event: WindowEvent) -> (action: WindowAction)
        ensures
            unique_instances(final(self)@),
            exists|now: u128|
                final(self)@ == after_window_event(old(self)@, window_id, event, now) && action
                    == window_action(old(self)@, window_id, event, now),
    {
        let now: u128 = match event {
            WindowEvent::RedrawRequested => clock_now(),
            _ => 0,
        };
        self.window_event_at(window_id, event, now)
    }

    /// Dispatches a window event at clock `now`, in nanoseconds since the
    /// epoch.
    ///
    /// A request to close ends the loop. A redraw renders the window's
    /// instance; a resize resizes it. Any other event, and any event for a
    /// window without an instance, does nothing.
    pub fn window_event_at(&mut self, window_id: u64, event: WindowEvent, now: u128) -> (action:
        WindowAction)
        ensures
            unique_instances(final(self)@),
            final(self)@ == after_window_event(old(self)@, window_id, event, now),
            action == window_action(old(self)@, window_id, event, now),
    {
        proof {
            use_type_invariant(&*self);
        }
        match event {
            WindowEvent::CloseRequested => WindowAction::Exit,
            WindowEvent::RedrawRequested => match self.position(window_id) {
                Some(i) => {
                    let mut instances = self.take();
                    let frame = instances[i].gfx.render_at(now);
                    proof {
                        lemma_gfx_replaced(
                            old(self)@,
                            views_of(instances@),
                            window_id,
                            i as int,
                        );
                    }
                    self.put(instances);
                    WindowAction::Redraw(frame)
                },
                None => WindowAction::Nothing,
            },
            WindowEvent::Resized(size) => match self.position(window_id) {
                Some(i) => {
                    let mut instances = self.take();
                    let applied = instances[i].gfx.resize(size);
                    proof {
                        lemma_gfx_replaced(
                            old(self)@,
                            views_of(instances@),
                            window_id,
                            i as int,
                        );
                    }
                    self.put(instances);
                    match applied {
                        Some(config) => WindowAction::Configure(config),
                        None => WindowAction::Nothing,
                    }
                },
                None => WindowAction::Nothing,
            },
            WindowEvent::MouseInput => WindowAction::Nothing,
            WindowEvent::Other => WindowAction::Nothing,
        }
    }

    /// Dispatches a command.
    ///
    /// The destruction of an instance takes effect at once. The creation of
    /// one and the compilation of a shader need the window system and the
    /// device: the answer says what to ask of them. A shader command for a
    /// window without an instance is ignored.
    pub fn user_event<C>(&mut self, event: UserEvents<C>) -> (action: UserAction<C>)
        ensures
            unique_instances(final(self)@),
            final(self)@ == after_user_event(old(self)@, event),
            action == user_action(old(self)@, event),
    {
        proof {
            use_type_invariant(&*self);
        }
        match event {
            UserEvents::CreateInstance(container_id, callback) => UserAction::CreateWindow(
                container_id,
                callback,
            ),
            UserEvents::DestroyInstance(window_id) => {
                let _ = self.remove(window_id);
                UserAction::Nothing
            },
            UserEvents::UpdateShader(shader_source, callback, window_id) => match self.position(
                window_id,
            ) {
                Some(_) => UserAction::Compile(
                    ShaderTask { shader_source, callback, window_id, update: true },
                ),
                None => UserAction::Nothing,
            },
            UserEvents::CompileShader(shader_source, callback, window_id) => match self.position(
                window_id,
            ) {
                Some(_) => UserAction::Compile(
                    ShaderTask { shader_source, callback, window_id, update: false },
                ),
                None => UserAction::Nothing,
            },
        }
    }

    /// Takes the diagnostics that the device gave for a task.
    ///
    /// The callback is told the diagnostics in every case. The pipeline of
    /// the task's instance is replaced only for an update without errors,
    /// and only if the instance is still there: the result of a task whose
    /// instance was destroyed in the meantime is discarded.
    pub fn shader_compiled<C>(&mut self, task: ShaderTask<C>, result: ShaderCompilationInfo) -> (report:
        ShaderReport<C>)
        ensures
            unique_instances(final(self)@),
            final(self)@ == after_shader_compiled(old(self)@, task, result@),
            report.callback == task.callback,
            report.info == result,
            report.replaced == replaces_pipeline(old(self)@, task, result@),
    {
        proof {
            use_type_invariant(&*self);
        }
        if !task.update {
            return match self.find(task.window_id) {
                Some(instance) => instance.compile_shader(result, task.callback),
                None => ShaderReport { callback: task.callback, info: result, replaced: false },
            };
        }
        match self.position(task.window_id) {
            Some(i) => {
                let mut instances = self.take();
                let report = instances[i].update_shader(
                    task.shader_source.as_str(),
                    result,
                    task.callback,
                );
                proof {
                    lemma_gfx_replaced(old(self)@, views_of(instances@), task.window_id, i as int);
                }
                self.put(instances);
                report
            },
            None => ShaderReport { callback: task.callback, info: result, replaced: false },
        }
    }
}

impl<W> AppInstance<W> {
    /// Takes the diagnostics of an update: where none of them is an error,
    /// the instance renders with the pipeline of `shader_source` from now
    /// on; otherwise it keeps what it had. The callback is told the
    /// diagnostics either way.
    pub fn update_shader<C>(
        &mut self,
        shader_source: &str,
        result: ShaderCompilationInfo,
        callback: C,
    ) -> (report: ShaderReport<C>)
        ensures
            final(self).window == old(self).window,
            final(self).handle == old(self).handle,
            final(self).gfx@ == after_update(old(self).gfx@, shader_source@, result@),
            report.callback == callback,
            report.info == result,
            report.replaced == !has_errors(result@),
    {
        let replaced = !result.has_errors();
        if replaced {
            self.gfx.update_shader(shader_source);
        }
        ShaderReport { callback, info: result, replaced }
    }

    /// Takes the diagnostics of a compilation: the callback is told, and the
    /// instance stays as it is.
    pub fn compile_shader<C>(&self, result: ShaderCompilationInfo, callback: C) -> (report:
        ShaderReport<C>)
        ensures
            report.callback == callback,
            report.info == result,
            !report.replaced,
    {
        ShaderReport { callback, info: result, replaced: false }
    }
}

/// A command for a window without an instance does nothing: no shader is
/// compiled for it, no frame is rendered, no surface is configured, and a
/// late result for it is discarded. This holds in particular of a window
/// whose instance has been destroyed.
pub proof fn lemma_unknown_window_is_ignored<W, C>(
    instances: Seq<AppInstanceView<W>>,
    window_id: u64,
    shader_source: String,
    callback: C,
    update: bool,
    result: Seq<CompilationMessageView>,
    size: PhysicalSize,
    now: u128,
)
    requires
        !has_instance(instances, window_id),
    ensures
        user_action(instances, UserEvents::UpdateShader(shader_source, callback, window_id))
            == UserAction::<C>::Nothing,
        user_action(instances, UserEvents::CompileShader(shader_source, callback, window_id))
            == UserAction::<C>::Nothing,
        after_user_event(instances, UserEvents::<C>::DestroyInstance(window_id)) == instances,
        after_shader_compiled(
            instances,
            ShaderTask { shader_source, callback, window_id, update },
            result,
        ) == instances,
        window_action(instances, window_id, WindowEvent::RedrawRequested, now)
            == WindowAction::Nothing,
        window_action(instances, window_id, WindowEvent::Resized(size), now)
            == WindowAction::Nothing,
        after_window_event(instances, window_id, WindowEvent::RedrawRequested, now) == instances,
        after_window_event(instances, window_id, WindowEvent::Resized(size), now) == instances,
{
}

/// An update whose diagnostics are free of errors takes effect whole, at
/// the next frame. A frame rendered before the diagnostics came in draws
/// with the pipeline that the state had, or only clears where it had none;
/// every frame after draws one triangle with the complete pipeline of the
/// new source. Rendering never changes the pipeline.
pub proof fn lemma_clean_update_is_drawn_next(
    gfx: GfxStateView,
    shader_source: Seq<char>,
    result: Seq<CompilationMessageView>,
    before: u128,
    after: u128,
)
    requires
        gfx.surface_configured,
        !has_errors(result),
    ensures
        gfx.frame_at(before) matches Frame::Rendered(pass) && (pass.draw is Some
            <==> gfx.pipeline is Some),
        gfx.drawn_pipeline() == gfx.pipeline,
        gfx.render_at(before).pipeline == gfx.pipeline,
        ({
            let updated = after_update(gfx.render_at(before), shader_source, result);
            &&& updated.pipeline == Some(gfx.pipeline_for(shader_source))
            &&& updated.drawn_pipeline() == Some(gfx.pipeline_for(shader_source))
            &&& updated.frame_at(after) matches Frame::Rendered(pass) && pass.draw == Some(
                full_screen_draw(),
            )
            &&& updated.render_at(after).pipeline == updated.pipeline
        }),
{
}

/// An update whose diagnostics hold an error changes nothing: the instance
/// keeps the pipeline it had, or stays without one, and the registry is as
/// it was.
pub proof fn lemma_failed_update_changes_nothing<W, C>(
    instances: Seq<AppInstanceView<W>>,
    gfx: GfxStateView,
    task: ShaderTask<C>,
    result: Seq<CompilationMessageView>,
)
    requires
        has_errors(result),
    ensures
        after_update(gfx, task.shader_source@, result) == gfx,
        !replaces_pipeline(instances, task, result),
        after_shader_compiled(instances, task, result) == instances,
{
}

/// A compilation that is no update changes nothing, whatever the
/// diagnostics are.
pub proof fn lemma_compile_changes_nothing<W, C>(
    instances: Seq<AppInstanceView<W>>,
    task: ShaderTask<C>,
    result: Seq<CompilationMessageView>,
)
    requires
        !task.update,
    ensures
        after_shader_compiled(instances, task, result) == instances,
{
}

/// What happens to one window's instance does not depend on what happens to
/// another's. An update for one window and a resize of another can be
/// taken in either order: the registry ends up the same, the resize asks
/// the same of its surface, and the update replaces the pipeline or not as
/// it would have alone.
pub proof fn lemma_distinct_windows_are_independent<W, C>(
    instances: Seq<AppInstanceView<W>>,
    task: ShaderTask<C>,
    result: Seq<CompilationMessageView>,
    window_id: u64,
    size: PhysicalSize,
    now: u128,
)
    requires
        unique_instances(instances),
        task.window_id != window_id,
    ensures
        after_window_event(
            after_shader_compiled(instances, task, result),
            window_id,
            WindowEvent::Resized(size),
            now,
        ) == after_shader_compiled(
            after_window_event(instances, window_id, WindowEvent::Resized(size), now),
            task,
            result,
        ),
        window_action(
            after_shader_compiled(instances, task, result),
            window_id,
            WindowEvent::Resized(size),
            now,
        ) == window_action(instances, window_id, WindowEvent::Resized(size), now),
        replaces_pipeline(
            after_window_event(instances, window_id, WindowEvent::Resized(size), now),
            task,
            result,
        ) == replaces_pipeline(instances, task, result),
        find_instance(after_shader_compiled(instances, task, result), window_id) == find_instance(
            instances,
            window_id,
        ),
        find_instance(
            after_window_event(instances, window_id, WindowEvent::Resized(size), now),
            task.window_id,
        ) == find_instance(instances, task.window_id),
{
    let x = task.window_id;
    let y = window_id;
    let event = WindowEvent::Resized(size);
    let compiled = after_shader_compiled(instances, task, result);
    let resized = after_window_event(instances, y, event, now);
    if has_instance(instances, y) {
        let q = position_of(instances, y);
        let gy = instances[q].gfx.resize(size);
        lemma_with_gfx_keeps_others(instances, y, gy, x);
        if replaces_pipeline(instances, task, result) {
            let p = position_of(instances, x);
            let gx = instances[p].gfx.update_shader(task.shader_source@);
            lemma_with_gfx_keeps_others(instances, x, gx, y);
            assert(with_gfx(compiled, y, gy) =~= with_gfx(resized, x, gx));
        }
    } else {
        if replaces_pipeline(instances, task, result) {
            let p = position_of(instances, x);
            let gx = instances[p].gfx.update_shader(task.shader_source@);
            lemma_with_gfx_keeps_others(instances, x, gx, y);
        }
    }
}

} // verus!
