//! The versioned API surface handed to native plugins.
//!
//! The C-ABI twin of this table (a struct of `extern "C"` function pointers
//! into the log, send and resolve entry points) lives in the host binary;
//! here stands the native table and the calls it forwards.

use vstd::prelude::*;
use crate::errors::LunaticError;
use crate::mailbox::{Endpoint, MailBox, resolve_global, send_global};
use crate::message::Envelope;

verus! {

/// The native host API, version 1.
pub struct HostApiV1 {
    /// API version.
    pub version: u32,
}

impl HostApiV1 {
    pub fn new() -> (r: HostApiV1)
        ensures
            r.version == 1,
    {
        HostApiV1 { version: 1 }
    }

    /// Resolves a plugin name through the process mailbox.
    pub fn resolve<E: Endpoint>(mailbox: Option<&MailBox<E>>, query: &str) -> (r: Result<
        u32,
        LunaticError,
    >)
        ensures
            mailbox is None ==> r matches Err(LunaticError::Uninit { .. }),
            mailbox matches Some(m) ==> {
                &&& m.spec_resolve(query@) matches Some(id) ==> r == Ok::<u32, LunaticError>(id)
                &&& m.spec_resolve(query@) is None ==> r matches Err(
                    LunaticError::PluginNameNotFound { .. },
                )
            },
    {
        resolve_global(mailbox, query)
    }

    /// Routes an envelope through the process mailbox.
    pub fn send<E: Endpoint>(mailbox: Option<&MailBox<E>>, envelope: Envelope) -> (r: Result<
        (),
        LunaticError,
    >)
        ensures
            mailbox is None ==> r matches Err(LunaticError::Uninit { .. }),
            mailbox matches Some(m) && !m.occupied(envelope.destination) ==> r matches Err(
                LunaticError::PluginNotFound { .. },
            ),
            mailbox matches Some(m) && m.occupied(envelope.destination) ==> r is Ok || (r
                matches Err(LunaticError::PluginFailedMessage { .. })),
    {
        send_global(mailbox, envelope)
    }
}

} // verus!
