//! The values that cross the boundary to the host: instance handles and
//! shader diagnostics.

use vstd::prelude::*;

verus! {

/// Identifies one rendering surface. Two handles denote the same surface
/// exactly when their window ids are equal.
#[derive(Clone, Copy, Debug, PartialEq, Eq)]
pub struct InstanceHandle {
    pub window_id: u64,
}

impl InstanceHandle {
    /// A handle to the surface that `instance` denotes.
    pub fn from_instance(instance: InstanceHandle) -> (handle: InstanceHandle)
        ensures
            handle == instance,
    {
        InstanceHandle { window_id: instance.window_id }
    }
}

/// Severity of a diagnostic.
#[derive(Clone, Copy, Debug, PartialEq, Eq)]
pub enum CompilationMessageType {
    Error,
    Warning,
    Info,
}

/// Where in the shader source a diagnostic points. Positions count bytes of
/// the UTF-8 source.
#[derive(Clone, Copy, Debug, PartialEq, Eq)]
pub struct SourceLocation {
    /// Line, counted from 1.
    pub line_number: u32,
    /// Column, counted from 1.
    pub line_position: u32,
    /// Offset of the span's start, counted from 0.
    pub offset: u32,
    /// Length of the span.
    pub length: u32,
}

/// One diagnostic of a shader compilation.
#[derive(Clone, Debug, PartialEq, Eq)]
pub struct CompilationMessage {
    pub message: String,
    pub message_type: CompilationMessageType,
    pub location: Option<SourceLocation>,
}

/// The mathematical content of a [`CompilationMessage`].
pub struct CompilationMessageView {
    pub message: Seq<char>,
    pub message_type: CompilationMessageType,
    pub location: Option<SourceLocation>,
}

impl View for CompilationMessage {
    type V = CompilationMessageView;

    open spec fn view(&self) -> CompilationMessageView {
        CompilationMessageView {
            message: self.message@,
            message_type: self.message_type,
            location: self.location,
        }
    }
}

/// The name under which the host knows a severity.
pub open spec fn message_type_name(message_type: CompilationMessageType) -> Seq<char> {
    match message_type {
        CompilationMessageType::Error => "error"@,
        CompilationMessageType::Warning => "warning"@,
        CompilationMessageType::Info => "info"@,
    }
}

/// The diagnostics, each by its view, in order.
pub open spec fn views_of(messages: Seq<CompilationMessage>) -> Seq<CompilationMessageView> {
    messages.map_values(|message: CompilationMessage| message@)
}

/// Whether at least one of the diagnostics is an error.
pub open spec fn has_errors(messages: Seq<CompilationMessageView>) -> bool {
    exists|i: int| 0 <= i < messages.len() && (#[trigger] messages[i]).message_type == CompilationMessageType::Error
}

impl CompilationMessageType {
    /// The name under which the host knows this severity: `error`, `warning`
    /// or `info`.
    pub fn name(&self) -> (name: &'static str)
        ensures
            name@ == message_type_name(*self),
    {
        match self {
            CompilationMessageType::Error => "error",
            CompilationMessageType::Warning => "warning",
            CompilationMessageType::Info => "info",
        }
    }
}

/// The result of compiling a shader: its diagnostics, in the order in which
/// the compiler gave them. An empty result means a clean compilation.
#[derive(Clone, Debug, PartialEq, Eq)]
pub struct ShaderCompilationInfo {
    messages: Vec<CompilationMessage>,
}

impl View for ShaderCompilationInfo {
    type V = Seq<CompilationMessageView>;

    open spec fn view(&self) -> Seq<CompilationMessageView> {
        views_of(self.entries())
    }
}

impl Default for ShaderCompilationInfo {
    /// The result of a clean compilation.
    fn default() -> (info: Self)
        ensures
            info.entries() == Seq::<CompilationMessage>::empty(),
    {
        ShaderCompilationInfo { messages: Vec::new() }
    }
}

impl ShaderCompilationInfo {
    /// The diagnostics as they are stored, in order.
    pub closed spec fn entries(&self) -> Seq<CompilationMessage> {
        self.messages@
    }

    /// The result that holds `messages`, in their order.
    pub fn new(messages: Vec<CompilationMessage>) -> (info: Self)
        ensures
            info.entries() == messages@,
    {
        ShaderCompilationInfo { messages }
    }

    /// The diagnostics, in order.
    pub fn messages(&self) -> (messages: &Vec<CompilationMessage>)
        ensures
            messages@ == self.entries(),
    {
        &self.messages
    }

    /// Whether the compilation gave no diagnostic at all.
    pub fn is_empty(&self) -> (empty: bool)
        ensures
            empty == (self@.len() == 0),
    {
        self.messages.len() == 0
    }

    /// Whether at least one diagnostic is an error. Warnings and notes do
    /// not count.
    pub fn has_errors(&self) -> (found: bool)
        ensures
            found == has_errors(self@),
    {
        let mut i: usize = 0;
        while i < self.messages.len()
            invariant
                i <= self.messages@.len(),
                forall|k: int|
                    0 <= k < i ==> (#[trigger] self@[k]).message_type
                        != CompilationMessageType::Error,
            decreases self.messages@.len() - i,
        {
            match self.messages[i].message_type {
                CompilationMessageType::Error => {
                    assert(self@[i as int].message_type == CompilationMessageType::Error);
                    return true;
                },
                _ => {},
            }
            i += 1;
        }
        false
    }

    /// Hands each diagnostic to `callback`, first to last, and collects what
    /// it returns. Without a callback nothing is called and the result is
    /// empty.
    pub fn for_each<R, F: Fn(&CompilationMessage) -> R>(&self, callback: Option<F>) -> (results:
        Vec<R>)
        requires
            callback matches Some(f) ==> forall|message: &CompilationMessage|
                call_requires(f, (message,)),
        ensures
            callback is None ==> results@.len() == 0,
            callback is Some ==> results@.len() == self@.len(),
            callback matches Some(f) ==> forall|i: int|
                0 <= i < self@.len() ==> call_ensures(
                    f,
                    (&self.entries()[i],),
                    #[trigger] results@[i],
                ),
    {
        let mut results: Vec<R> = Vec::new();
        match callback {
            None => {},
            Some(f) => {
                let mut i: usize = 0;
                while i < self.messages.len()
                    invariant
                        i <= self.messages@.len(),
                        results@.len() == i,
                        forall|message: &CompilationMessage| call_requires(f, (message,)),
                        forall|k: int|
                            0 <= k < i ==> call_ensures(
                                f,
                                (&self.messages@[k],),
                                #[trigger] results@[k],
                            ),
                    decreases self.messages@.len() - i,
                {
                    let result = f(&self.messages[i]);
                    results.push(result);
                    i += 1;
                }
            },
        }
        results
    }
}

} // verus!
