//! What a caller holds of an open thread.

use vstd::prelude::*;

use crate::ids::ThreadId;

verus! {

/// A model of a provider, with the effort it is asked to reason with.
#[derive(Debug)]
pub struct ModelRef {
    /// The provider that serves the model.
    pub provider: String,
    /// The model's name at the provider.
    pub model: String,
    /// How hard the model is asked to reason.
    pub reasoning_effort: Option<String>,
}

impl ModelRef {
    /// Another value of the same model.
    pub fn copy(&self) -> (model: ModelRef)
        ensures
            model == *self,
    {
        ModelRef {
            provider: self.provider.clone(),
            model: self.model.clone(),
            reasoning_effort: copy_text(&self.reasoning_effort),
        }
    }
}

/// Another value of the same optional text.
pub fn copy_text(value: &Option<String>) -> (copy: Option<String>)
    ensures
        copy == *value,
{
    match value {
        Some(text) => Some(text.clone()),
        None => None,
    }
}

/// Something that a caller should be told, though the operation went on.
#[derive(Debug)]
pub struct HarnessNotice {
    /// What kind of notice this is.
    pub code: String,
    /// What to tell the user.
    pub message: String,
    /// What lies behind it.
    pub detail: Option<String>,
}

impl HarnessNotice {
    /// Another value of the same notice.
    pub fn copy(&self) -> (notice: HarnessNotice)
        ensures
            notice == *self,
    {
        HarnessNotice {
            code: self.code.clone(),
            message: self.message.clone(),
            detail: copy_text(&self.detail),
        }
    }
}

/// An open thread: its name on this side, its name at the app-server, and what opening it told.
#[derive(Debug)]
pub struct ThreadHandle {
    /// The thread on this side.
    pub thread: ThreadId,
    /// The thread's name at the app-server.
    pub harness_thread_id: String,
    /// The root of the workspace that the thread works in.
    pub workspace_root: String,
    /// A notice about how the thread was opened.
    pub warning: Option<HarnessNotice>,
    /// The model that the thread runs on, as far as the app-server told.
    pub resumed_model: Option<ModelRef>,
    /// The name of the agent that runs the thread.
    pub agent_name: Option<String>,
    /// The app-server's name of the thread that this one was started from.
    pub parent_harness_thread_id: Option<String>,
}

impl ThreadHandle {
    /// A handle of an open thread about which nothing else is known.
    pub fn opened(thread: ThreadId, harness_thread_id: String, workspace_root: String) -> (handle:
        ThreadHandle)
        ensures
            handle == (ThreadHandle {
                thread,
                harness_thread_id,
                workspace_root,
                warning: None,
                resumed_model: None,
                agent_name: None,
                parent_harness_thread_id: None,
            }),
    {
        ThreadHandle {
            thread,
            harness_thread_id,
            workspace_root,
            warning: None,
            resumed_model: None,
            agent_name: None,
            parent_harness_thread_id: None,
        }
    }

    /// Another value of the same handle.
    pub fn copy(&self) -> (handle: ThreadHandle)
        ensures
            handle == *self,
    {
        ThreadHandle {
            thread: self.thread,
            harness_thread_id: self.harness_thread_id.clone(),
            workspace_root: self.workspace_root.clone(),
            warning: match &self.warning {
                Some(notice) => Some(notice.copy()),
                None => None,
            },
            resumed_model: match &self.resumed_model {
                Some(model) => Some(model.copy()),
                None => None,
            },
            agent_name: copy_text(&self.agent_name),
            parent_harness_thread_id: copy_text(&self.parent_harness_thread_id),
        }
    }
}

} // verus!
