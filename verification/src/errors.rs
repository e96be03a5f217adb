//! The error taxonomy of the core.
//!
//! Submission errors come from the worker pool (the bounded frame queue is the
//! only source of backpressure); routing errors come from the mailbox and
//! carry enough of the failed request for the caller to retry; lifecycle and
//! argument errors guard the process-wide singletons and the C boundary.

use vstd::prelude::*;
use crate::message::Envelope;

verus! {

#[derive(Debug)]
pub enum LunaticError {
    /// The bounded video-frame queue refused a push: it already holds its
    /// capacity of tasks.
    RenderQueueFull,
    /// An envelope named a destination slot that holds no endpoint.
    PluginNotFound { id: u32 },
    /// A symbolic endpoint name is not in the name table.
    PluginNameNotFound { name: String },
    /// An unregister named a slot that holds no endpoint.
    PluginUnloadFailed { id: u32 },
    /// The destination endpoint refused the envelope; it is handed back
    /// undelivered so the caller may retry.
    PluginFailedMessage { envelope: Envelope },
    /// A process-wide singleton was used before it was initialized.
    Uninit { resource: String },
    /// The kernel singletons could not be (re-)initialized.
    KernelInitFailed { reason: String },
    /// A call was made with an argument it cannot accept.
    InvalidArgument { name: String, reason: Option<String> },
    /// An envelope named a destination outside the addressable range.
    InvalidDestination { id: u32 },
    /// A message failed structural validation at the kernel boundary.
    InvalidMessageFormat { reason: String },
}

impl LunaticError {
    /// A short human-readable description of the error class. The payload
    /// fields carry the specifics; display layers combine the two.
    pub fn message(&self) -> (r: String)
        ensures
            r@ == self.spec_message(),
    {
        match self {
            LunaticError::RenderQueueFull => "Render queue is full".to_owned(),
            LunaticError::PluginNotFound { .. } => "Could not find plugin with that id".to_owned(),
            LunaticError::PluginNameNotFound { .. } => "Could not find plugin with that name".to_owned(),
            LunaticError::PluginUnloadFailed { .. } => "Failed to unload plugin".to_owned(),
            LunaticError::PluginFailedMessage { .. } => "Could not send message to plugin".to_owned(),
            LunaticError::Uninit { .. } => "Tried to access resource which was not initialized".to_owned(),
            LunaticError::KernelInitFailed { .. } => "Kernel initialization failed".to_owned(),
            LunaticError::InvalidArgument { .. } => "Invalid argument".to_owned(),
            LunaticError::InvalidDestination { .. } => "Invalid destination ID".to_owned(),
            LunaticError::InvalidMessageFormat { .. } => "Invalid message format".to_owned(),
        }
    }

    /// What `message` returns for each variant.
    pub open spec fn spec_message(&self) -> Seq<char> {
        match self {
            LunaticError::RenderQueueFull => "Render queue is full"@,
            LunaticError::PluginNotFound { .. } => "Could not find plugin with that id"@,
            LunaticError::PluginNameNotFound { .. } => "Could not find plugin with that name"@,
            LunaticError::PluginUnloadFailed { .. } => "Failed to unload plugin"@,
            LunaticError::PluginFailedMessage { .. } => "Could not send message to plugin"@,
            LunaticError::Uninit { .. } => "Tried to access resource which was not initialized"@,
            LunaticError::KernelInitFailed { .. } => "Kernel initialization failed"@,
            LunaticError::InvalidArgument { .. } => "Invalid argument"@,
            LunaticError::InvalidDestination { .. } => "Invalid destination ID"@,
            LunaticError::InvalidMessageFormat { .. } => "Invalid message format"@,
        }
    }
}

} // verus!
