//! The process-wide mailbox: many-to-one envelope routing.
//!
//! Endpoints register under a symbolic name and get a numeric slot id back;
//! senders resolve names to ids and address envelopes by id. The slot table
//! allocates the lowest vacant slot; a slot id stays stable while the slot is
//! occupied and is reused only after an explicit unregister.
//!
//! The name table is append-newest-first, so re-registering a name shadows
//! the older binding, exactly as a map insert would. Unregistering a slot
//! deliberately leaves its name binding in place, as the host always has: a
//! resolve after an unregister still answers the now-dead slot id.
//!
//! The host binary holds one mailbox per process behind its write lock; the
//! `*_global` entry points here take that singleton as an explicit argument,
//! absent (`None`) before initialization.

use vstd::prelude::*;
use crate::errors::LunaticError;
use crate::message::{CEnvelope, Envelope};

verus! {

/// A registered receiver: delivery hands the envelope over, and an endpoint
/// that cannot take it (a full internal buffer, say) hands it back so the
/// caller may retry.
pub trait Endpoint {
    fn receive(&self, envelope: Envelope) -> Result<(), Envelope>;
}

/// What resolving a name against the name table yields: the id of the newest
/// binding of that name, if any.
pub open spec fn lookup_name(names: Seq<(Seq<char>, u32)>, name: Seq<char>) -> Option<u32>
    decreases names.len(),
{
    if names.len() == 0 {
        None
    } else if names[0].0 == name {
        Some(names[0].1)
    } else {
        lookup_name(names.drop_first(), name)
    }
}

/// The mailbox: a slot table of endpoints keyed by numeric id, and a name
/// table mapping symbolic names to ids.
pub struct MailBox<E> {
    slots: Vec<Option<E>>,
    names: Vec<(String, u32)>,
}

impl<E> MailBox<E> {
    /// The slot table: index `i` holds the endpoint registered under id `i`.
    pub closed spec fn spec_slots(self) -> Seq<Option<E>> {
        self.slots@
    }

    /// The name table, newest binding first.
    pub closed spec fn spec_names(self) -> Seq<(Seq<char>, u32)> {
        self.names@.map_values(|p: (String, u32)| (p.0@, p.1))
    }

    /// Whether the given id addresses an occupied slot.
    pub open spec fn occupied(self, id: u32) -> bool {
        &&& id < self.spec_slots().len()
        &&& self.spec_slots()[id as int] is Some
    }

    /// What resolving a name yields.
    pub open spec fn spec_resolve(self, name: Seq<char>) -> Option<u32> {
        lookup_name(self.spec_names(), name)
    }

    /// The table can always mint a fresh id below the `u32::MAX` sentinel.
    pub open spec fn wf(self) -> bool {
        self.spec_slots().len() < u32::MAX
    }

    /// An empty mailbox: no slots, no names.
    pub fn new() -> (r: MailBox<E>)
        ensures
            r.wf(),
            r.spec_slots().len() == 0,
            r.spec_names().len() == 0,
            forall|n: Seq<char>| r.spec_resolve(n) is None,
    {
        let r = MailBox::<E> { slots: Vec::new(), names: Vec::new() };
        proof {
            assert(r.spec_names() =~= Seq::<(Seq<char>, u32)>::empty());
        }
        r
    }

    /// Stores the endpoint in the lowest vacant slot (growing the table if
    /// every slot is occupied) and binds the name to the returned id,
    /// shadowing any older binding of the same name.
    pub fn register(&mut self, endpoint: E, name: String) -> (id: u32)
        requires
            old(self).wf(),
            old(self).spec_slots().len() + 1 < u32::MAX,
        ensures
            final(self).wf(),
            !old(self).occupied(id),
            forall|k: u32| k < id ==> old(self).occupied(k),
            final(self).occupied(id),
            final(self).spec_slots()[id as int] == Some(endpoint),
            (id as int) < old(self).spec_slots().len() ==> final(self).spec_slots() == old(self).spec_slots().update(id as int, Some(endpoint)),
            (id as int) == old(self).spec_slots().len() ==> final(self).spec_slots() == old(self).spec_slots().push(Some(endpoint)),
            final(self).spec_names() == old(self).spec_names().insert(0, (name@, id)),
            final(self).spec_resolve(name@) == Some(id),
            forall|n: Seq<char>| n != name@ ==> final(self).spec_resolve(n) == old(self).spec_resolve(n),
    {
        let n = self.slots.len();
        let mut idx: usize = 0;
        while idx < n && self.slots[idx].is_some()
            invariant
                idx <= n,
                n == self.spec_slots().len(),
                forall|k: int| 0 <= k < idx ==> self.spec_slots()[k] is Some,
            decreases n - idx,
        {
            idx = idx + 1;
        }
        if idx < n {
            let slot = &mut self.slots[idx];
            *slot = Some(endpoint);
        } else {
            self.slots.push(Some(endpoint));
        }
        let id = idx as u32;
        let ghost names_before = self.spec_names();
        self.names.insert(0, (name, id));
        proof {
            assert(self.spec_names() =~= names_before.insert(0, (name@, id)));
            assert(self.spec_names().drop_first() =~= names_before);
        }
        id
    }

    /// Removes and returns the endpoint in the given slot; a vacant or
    /// out-of-range slot fails with `PluginUnloadFailed`. The name table is
    /// left untouched either way: the binding of an unregistered slot goes
    /// stale rather than away.
    pub fn unregister(&mut self, id: u32) -> (r: Result<E, LunaticError>)
        requires
            old(self).wf(),
        ensures
            final(self).wf(),
            final(self).spec_names() == old(self).spec_names(),
            old(self).occupied(id) ==> {
                &&& r matches Ok(e) && old(self).spec_slots()[id as int] == Some(e)
                &&& final(self).spec_slots() == old(self).spec_slots().update(
                    id as int,
                    Option::<E>::None,
                )
            },
            !old(self).occupied(id) ==> {
                &&& r matches Err(LunaticError::PluginUnloadFailed { id: failed }) && failed == id
                &&& final(self).spec_slots() == old(self).spec_slots()
            },
    {
        let idx = id as usize;
        if idx >= self.slots.len() {
            return Err(LunaticError::PluginUnloadFailed { id });
        }
        let mut taken: Option<E> = None;
        let slot = &mut self.slots[idx];
        core::mem::swap(slot, &mut taken);
        match taken {
            Some(endpoint) => Ok(endpoint),
            None => {
                proof {
                    assert(final(self).spec_slots() =~= old(self).spec_slots());
                }
                Err(LunaticError::PluginUnloadFailed { id })
            },
        }
    }

    /// Looks a symbolic name up in the name table: the id of its newest
    /// binding, or `PluginNameNotFound` when the name was never registered.
    pub fn resolve(&self, name: &str) -> (r: Result<u32, LunaticError>)
        ensures
            self.spec_resolve(name@) matches Some(id) ==> r == Ok::<u32, LunaticError>(id),
            self.spec_resolve(name@) is None ==> (r matches Err(
                LunaticError::PluginNameNotFound { name: missing },
            ) && missing@ == name@),
    {
        let query = name.to_owned();
        let n = self.names.len();
        let mut idx: usize = 0;
        proof {
            assert(self.spec_names().skip(0) =~= self.spec_names());
        }
        while idx < n
            invariant
                idx <= n,
                n == self.spec_names().len(),
                query@ == name@,
                lookup_name(self.spec_names().skip(idx as int), name@) == self.spec_resolve(
                    name@,
                ),
            decreases n - idx,
        {
            let entry = &self.names[idx];
            let ghost tail = self.spec_names().skip(idx as int);
            proof {
                assert(tail[0] == self.spec_names()[idx as int]);
                assert(tail.drop_first() =~= self.spec_names().skip(idx as int + 1));
            }
            if entry.0 == query {
                return Ok(entry.1);
            }
            idx = idx + 1;
        }
        proof {
            assert(self.spec_names().skip(n as int) =~= Seq::<(Seq<char>, u32)>::empty());
        }
        Err(LunaticError::PluginNameNotFound { name: query })
    }

    /// Clears both tables: every slot and every name binding goes away.
    pub fn re_init(&mut self)
        ensures
            final(self).wf(),
            final(self).spec_slots().len() == 0,
            final(self).spec_names().len() == 0,
            forall|n: Seq<char>| final(self).spec_resolve(n) is None,
    {
        self.slots.clear();
        self.names.clear();
        proof {
            assert(self.spec_names() =~= Seq::<(Seq<char>, u32)>::empty());
        }
    }
}

impl<E: Endpoint> MailBox<E> {
    /// Routes an envelope to the endpoint in its destination slot. A vacant
    /// or out-of-range destination fails with `PluginNotFound`; an endpoint
    /// that refuses the hand-off surfaces as `PluginFailedMessage`, carrying
    /// the undelivered envelope so the caller may retry.
    pub fn send(&self, envelope: Envelope) -> (r: Result<(), LunaticError>)
        ensures
            !self.occupied(envelope.destination) ==> (r matches Err(
                LunaticError::PluginNotFound { id },
            ) && id == envelope.destination),
            self.occupied(envelope.destination) ==> r is Ok || (r matches Err(
                LunaticError::PluginFailedMessage { .. },
            )),
    {
        let destination = envelope.destination;
        let idx = destination as usize;
        if idx >= self.slots.len() {
            return Err(LunaticError::PluginNotFound { id: destination });
        }
        match &self.slots[idx] {
            Some(endpoint) => match endpoint.receive(envelope) {
                Ok(()) => Ok(()),
                Err(refused) => Err(LunaticError::PluginFailedMessage { envelope: refused }),
            },
            None => Err(LunaticError::PluginNotFound { id: destination }),
        }
    }
}

/// Routes an envelope through the process singleton; before initialization
/// every send fails with `Uninit`.
pub fn send_global<E: Endpoint>(mailbox: Option<&MailBox<E>>, msg: Envelope) -> (r: Result<
    (),
    LunaticError,
>)
    ensures
        mailbox is None ==> (r matches Err(LunaticError::Uninit { resource }) && resource@
            == "GLOBAL_MAILBOX"@),
        mailbox matches Some(m) && !m.occupied(msg.destination) ==> (r matches Err(
            LunaticError::PluginNotFound { id },
        ) && id == msg.destination),
        mailbox matches Some(m) && m.occupied(msg.destination) ==> r is Ok || (r matches Err(
            LunaticError::PluginFailedMessage { .. },
        )),
{
    match mailbox {
        Some(m) => m.send(msg),
        None => Err(LunaticError::Uninit { resource: "GLOBAL_MAILBOX".to_owned() }),
    }
}

/// The asynchronous flavor of [`send_global`]: delivery is synchronous here
/// either way, the suspension point belongs to the host's runtime.
pub fn send_global_async<E: Endpoint>(mailbox: Option<&MailBox<E>>, msg: Envelope) -> (r: Result<
    (),
    LunaticError,
>)
    ensures
        mailbox is None ==> (r matches Err(LunaticError::Uninit { resource }) && resource@
            == "GLOBAL_MAILBOX"@),
        mailbox matches Some(m) && !m.occupied(msg.destination) ==> (r matches Err(
            LunaticError::PluginNotFound { id },
        ) && id == msg.destination),
        mailbox matches Some(m) && m.occupied(msg.destination) ==> r is Ok || (r matches Err(
            LunaticError::PluginFailedMessage { .. },
        )),
{
    send_global(mailbox, msg)
}

/// Resolves a name through the process singleton; before initialization
/// every resolve fails with `Uninit`.
pub fn resolve_global<E: Endpoint>(mailbox: Option<&MailBox<E>>, query: &str) -> (r: Result<
    u32,
    LunaticError,
>)
    ensures
        mailbox is None ==> (r matches Err(LunaticError::Uninit { resource }) && resource@
            == "GLOBAL_MAILBOX"@),
        mailbox matches Some(m) ==> {
            &&& m.spec_resolve(query@) matches Some(id) ==> r == Ok::<u32, LunaticError>(id)
            &&& m.spec_resolve(query@) is None ==> (r matches Err(
                LunaticError::PluginNameNotFound { name: missing },
            ) && missing@ == query@)
        },
{
    match mailbox {
        Some(m) => m.resolve(query),
        None => Err(LunaticError::Uninit { resource: "GLOBAL_MAILBOX".to_owned() }),
    }
}

/// Fills the process singleton exactly once: a second initialization is
/// refused and leaves the first mailbox in place.
pub fn init_mailbox<E>(slot: &mut Option<MailBox<E>>) -> (r: Result<(), LunaticError>)
    ensures
        *old(slot) is None ==> {
            &&& r is Ok
            &&& *final(slot) matches Some(m)
            &&& m.wf()
            &&& m.spec_slots().len() == 0
            &&& m.spec_names().len() == 0
        },
        *old(slot) is Some ==> {
            &&& r matches Err(LunaticError::KernelInitFailed { .. })
            &&& *final(slot) == *old(slot)
        },
{
    match slot {
        Some(_) => Err(
            LunaticError::KernelInitFailed {
                reason: "the mailbox is already initialized; use re_init to clear it".to_owned(),
            },
        ),
        None => {
            *slot = Some(MailBox::new());
            Ok(())
        },
    }
}

/// What decoding bytes as UTF-8 yields. The decoding depends on the bytes
/// alone; nothing further is assumed of it.
pub uninterp spec fn utf8_decoding(bytes: Seq<u8>) -> Option<Seq<char>>;

/// Relies on `core::str::from_utf8`: it succeeds exactly on valid UTF-8
/// input, and its result is a function of the bytes alone.
#[verifier::external_body]
fn bytes_as_str(bytes: &[u8]) -> (r: Option<&str>)
    ensures
        r is Some <==> utf8_decoding(bytes@) is Some,
        r matches Some(s) ==> utf8_decoding(bytes@) == Some(s@),
{
    core::str::from_utf8(bytes).ok()
}

/// The C entry point's logic for name resolution: a null query (`None`),
/// a query that is not UTF-8, an uninitialized mailbox and an unknown name
/// all collapse to the `u32::MAX` sentinel; a known name answers its slot id.
pub fn resolve_global_c<E: Endpoint>(mailbox: Option<&MailBox<E>>, query: Option<&[u8]>) -> (r:
    u32)
    ensures
        query is None ==> r == u32::MAX,
        query matches Some(bytes) && utf8_decoding(bytes@) is None ==> r == u32::MAX,
        query matches Some(bytes) ==> (utf8_decoding(bytes@) matches Some(name) ==> {
            &&& mailbox is None ==> r == u32::MAX
            &&& mailbox matches Some(m) ==> match m.spec_resolve(name) {
                Some(id) => r == id,
                None => r == u32::MAX,
            }
        }),
{
    match query {
        None => u32::MAX,
        Some(bytes) => match bytes_as_str(bytes) {
            None => u32::MAX,
            Some(name) => match resolve_global(mailbox, name) {
                Ok(id) => id,
                Err(_) => u32::MAX,
            },
        },
    }
}

/// The C entry point's logic for sending: the envelope is promoted to the
/// native shape and routed; 0 reports success, 1 any failure (uninitialized
/// mailbox, unknown destination, or an endpoint that refused the envelope).
pub fn send_global_c<E: Endpoint>(mailbox: Option<&MailBox<E>>, msg: CEnvelope) -> (r: u32)
    ensures
        r == 0 || r == 1,
        mailbox is None ==> r == 1,
        mailbox matches Some(m) && !m.occupied(msg.destination) ==> r == 1,
{
    let envelope = Envelope::from(msg);
    match send_global(mailbox, envelope) {
        Ok(()) => 0,
        Err(_) => 1,
    }
}

} // verus!
