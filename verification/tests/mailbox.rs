use std::cell::RefCell;
use std::rc::Rc;

use lunaris::errors::LunaticError;
use lunaris::ids::IdAllocator;
use lunaris::mailbox::{
    init_mailbox, resolve_global, resolve_global_c, send_global, send_global_async, send_global_c,
    Endpoint, MailBox,
};
use lunaris::message::{CEnvelope, CMessage, Data, DataEnum, Envelope, Message};

struct Recorder {
    seen: Rc<RefCell<Vec<u64>>>,
}

impl Endpoint for Recorder {
    fn receive(&self, envelope: Envelope) -> Result<(), Envelope> {
        self.seen.borrow_mut().push(envelope.id);
        Ok(())
    }
}

struct Refuser;

impl Endpoint for Refuser {
    fn receive(&self, envelope: Envelope) -> Result<(), Envelope> {
        Err(envelope)
    }
}

fn envelope_to(ids: &mut IdAllocator, destination: u32) -> Envelope {
    Envelope::new(
        ids,
        0,
        destination,
        false,
        Message { opcode: 0, data: DataEnum::Empty },
    )
}

#[test]
fn routing_reaches_the_named_endpoint_only() {
    let mut ids = IdAllocator::new();
    let seen_alpha = Rc::new(RefCell::new(Vec::new()));
    let seen_beta = Rc::new(RefCell::new(Vec::new()));
    let mut mailbox: MailBox<Recorder> = MailBox::new();
    let alpha = mailbox.register(Recorder { seen: seen_alpha.clone() }, "alpha".to_owned());
    let beta = mailbox.register(Recorder { seen: seen_beta.clone() }, "beta".to_owned());
    assert_eq!(alpha, 0);
    assert_eq!(beta, 1);
    assert_eq!(mailbox.resolve("beta").unwrap(), 1);

    let envelope = envelope_to(&mut ids, 1);
    let id = envelope.id;
    mailbox.send(envelope).unwrap();
    assert_eq!(seen_beta.borrow().as_slice(), &[id]);
    assert!(seen_alpha.borrow().is_empty());
}

#[test]
fn send_to_unknown_slot_reports_plugin_not_found() {
    let mut ids = IdAllocator::new();
    let mailbox: MailBox<Recorder> = MailBox::new();
    let refused = mailbox.send(envelope_to(&mut ids, 99));
    assert!(matches!(
        refused,
        Err(LunaticError::PluginNotFound { id: 99 })
    ));
}

#[test]
fn refused_delivery_hands_the_envelope_back() {
    let mut ids = IdAllocator::new();
    let mut mailbox: MailBox<Refuser> = MailBox::new();
    let slot = mailbox.register(Refuser, "stubborn".to_owned());
    let envelope = envelope_to(&mut ids, slot);
    let id = envelope.id;
    match mailbox.send(envelope) {
        Err(LunaticError::PluginFailedMessage { envelope }) => assert_eq!(envelope.id, id),
        other => panic!("expected PluginFailedMessage, got {:?}", other),
    }
}

#[test]
fn resolve_holds_from_registration_on() {
    let mut mailbox: MailBox<Refuser> = MailBox::new();
    let id = mailbox.register(Refuser, "renderer".to_owned());
    assert_eq!(mailbox.resolve("renderer").unwrap(), id);
    let unknown = mailbox.resolve("compositor");
    match unknown {
        Err(LunaticError::PluginNameNotFound { name }) => assert_eq!(name, "compositor"),
        other => panic!("expected PluginNameNotFound, got {:?}", other),
    }
}

#[test]
fn unregister_returns_the_endpoint_and_leaves_the_name() {
    let seen = Rc::new(RefCell::new(Vec::new()));
    let mut mailbox: MailBox<Recorder> = MailBox::new();
    let id = mailbox.register(Recorder { seen: seen.clone() }, "gone".to_owned());
    let endpoint = mailbox.unregister(id).unwrap();
    drop(endpoint);
    // The name table is not scrubbed: the binding answers the now-dead slot.
    assert_eq!(mailbox.resolve("gone").unwrap(), id);
    // The slot itself is gone.
    let mut ids = IdAllocator::new();
    assert!(matches!(
        mailbox.send(envelope_to(&mut ids, id)),
        Err(LunaticError::PluginNotFound { .. })
    ));
}

#[test]
fn unregister_of_vacant_slot_fails() {
    let mut mailbox: MailBox<Refuser> = MailBox::new();
    assert!(matches!(
        mailbox.unregister(3),
        Err(LunaticError::PluginUnloadFailed { id: 3 })
    ));
    let id = mailbox.register(Refuser, "once".to_owned());
    mailbox.unregister(id).unwrap();
    assert!(matches!(
        mailbox.unregister(id),
        Err(LunaticError::PluginUnloadFailed { .. })
    ));
}

#[test]
fn freed_slot_is_reused_by_the_next_registration() {
    let mut mailbox: MailBox<Refuser> = MailBox::new();
    let a = mailbox.register(Refuser, "a".to_owned());
    let b = mailbox.register(Refuser, "b".to_owned());
    assert_eq!((a, b), (0, 1));
    mailbox.unregister(a).unwrap();
    let c = mailbox.register(Refuser, "c".to_owned());
    assert_eq!(c, 0);
    assert_eq!(mailbox.resolve("c").unwrap(), 0);
    assert_eq!(mailbox.resolve("b").unwrap(), 1);
}

#[test]
fn reregistering_a_name_shadows_the_old_binding() {
    let mut mailbox: MailBox<Refuser> = MailBox::new();
    let first = mailbox.register(Refuser, "worker".to_owned());
    let second = mailbox.register(Refuser, "worker".to_owned());
    assert_eq!(first, 0);
    assert_eq!(second, 1);
    assert_eq!(mailbox.resolve("worker").unwrap(), second);
}

#[test]
fn re_init_clears_both_tables() {
    let mut ids = IdAllocator::new();
    let mut mailbox: MailBox<Refuser> = MailBox::new();
    let id = mailbox.register(Refuser, "ephemeral".to_owned());
    mailbox.re_init();
    assert!(matches!(
        mailbox.resolve("ephemeral"),
        Err(LunaticError::PluginNameNotFound { .. })
    ));
    assert!(matches!(
        mailbox.send(envelope_to(&mut ids, id)),
        Err(LunaticError::PluginNotFound { .. })
    ));
}

#[test]
fn global_entry_points_fail_before_initialization() {
    let mut ids = IdAllocator::new();
    assert!(matches!(
        resolve_global::<Refuser>(None, "anything"),
        Err(LunaticError::Uninit { .. })
    ));
    assert!(matches!(
        send_global::<Refuser>(None, envelope_to(&mut ids, 0)),
        Err(LunaticError::Uninit { .. })
    ));
}

#[test]
fn init_mailbox_fills_the_singleton_exactly_once() {
    let mut slot: Option<MailBox<Refuser>> = None;
    init_mailbox(&mut slot).unwrap();
    assert!(slot.is_some());
    assert!(matches!(
        init_mailbox(&mut slot),
        Err(LunaticError::KernelInitFailed { .. })
    ));
    assert!(slot.is_some());
}

#[test]
fn resolve_global_c_null_query_is_the_sentinel() {
    assert_eq!(resolve_global_c::<Refuser>(None, None), u32::MAX);
}

#[test]
fn resolve_global_c_decodes_and_resolves() {
    let mut mailbox: MailBox<Refuser> = MailBox::new();
    let id = mailbox.register(Refuser, "alpha".to_owned());
    assert_eq!(resolve_global_c(Some(&mailbox), Some(b"alpha")), id);
    // An unknown name and an undecodable query both collapse to the sentinel.
    assert_eq!(resolve_global_c(Some(&mailbox), Some(b"beta")), u32::MAX);
    assert_eq!(
        resolve_global_c(Some(&mailbox), Some(&[0xff, 0xfe])),
        u32::MAX
    );
    // An uninitialized mailbox too.
    assert_eq!(resolve_global_c::<Refuser>(None, Some(b"alpha")), u32::MAX);
}

#[test]
fn send_global_c_reports_zero_on_delivery() {
    let seen = Rc::new(RefCell::new(Vec::new()));
    let mut mailbox: MailBox<Recorder> = MailBox::new();
    let slot = mailbox.register(Recorder { seen: seen.clone() }, "sink".to_owned());
    let delivered = CEnvelope::new(
        5,
        1,
        slot,
        false,
        CMessage { opcode: 2, data: Data::Code(11) },
    );
    assert_eq!(send_global_c(Some(&mailbox), delivered), 0);
    assert_eq!(seen.borrow().as_slice(), &[5]);

    let lost = CEnvelope::new(6, 1, 42, false, CMessage { opcode: 2, data: Data::Empty });
    assert_eq!(send_global_c(Some(&mailbox), lost), 1);
    let uninit = CEnvelope::new(7, 1, 0, false, CMessage { opcode: 2, data: Data::Empty });
    assert_eq!(send_global_c::<Recorder>(None, uninit), 1);
}

#[test]
fn send_global_async_routes_like_send_global() {
    let mut ids = IdAllocator::new();
    let seen = Rc::new(RefCell::new(Vec::new()));
    let mut mailbox: MailBox<Recorder> = MailBox::new();
    let slot = mailbox.register(Recorder { seen: seen.clone() }, "sink".to_owned());
    let envelope = envelope_to(&mut ids, slot);
    let id = envelope.id;
    send_global_async(Some(&mailbox), envelope).unwrap();
    assert_eq!(seen.borrow().as_slice(), &[id]);
    assert!(matches!(
        send_global_async::<Recorder>(None, envelope_to(&mut ids, slot)),
        Err(LunaticError::Uninit { .. })
    ));
}
