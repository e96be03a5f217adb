use lunaris::errors::LunaticError;
use lunaris::host_api::HostApiV1;
use lunaris::logging::{ansi_enabled, log_c, should_enable_ansi, CText, FieldVisitor};
use lunaris::mailbox::MailBox;

#[test]
fn ansi_override_wins_over_everything() {
    assert!(should_enable_ansi(Some("always"), true, None, Some("0"), false));
    assert!(!should_enable_ansi(Some("never"), false, Some("1"), None, true));
}

#[test]
fn ansi_honors_common_environment_variables() {
    // A no-color marker beats the force and the terminal.
    assert!(!should_enable_ansi(None, true, Some("1"), None, true));
    assert!(should_enable_ansi(None, false, Some("1"), Some("0"), false));
    assert!(!should_enable_ansi(None, false, None, Some("0"), true));
}

#[test]
fn ansi_falls_back_to_terminal_detection() {
    assert!(should_enable_ansi(None, false, None, None, true));
    assert!(!should_enable_ansi(None, false, None, None, false));
    // An unrecognized override falls through to the rest of the chain.
    assert!(should_enable_ansi(Some("auto"), false, None, None, true));
}

#[test]
fn ansi_enabled_reads_the_stored_decision() {
    assert!(ansi_enabled(Some(true)));
    assert!(!ansi_enabled(Some(false)));
    assert!(!ansi_enabled(None));
}

#[test]
fn log_c_passes_legal_levels_through() {
    for level in 1..=5u8 {
        let (entry, status) = log_c(CText::Text("hello"), CText::Text("core"), level);
        assert_eq!(status, 0);
        assert_eq!(entry.level, level);
        assert!(!entry.defaulted);
        assert_eq!(entry.message, "hello");
        assert_eq!(entry.source, "core");
    }
}

#[test]
fn log_c_defaults_illegal_levels_to_info() {
    let (entry, status) = log_c(CText::Text("m"), CText::Text("s"), 0);
    assert_eq!(status, 0);
    assert_eq!(entry.level, 3);
    assert!(entry.defaulted);
    let (entry, _) = log_c(CText::Text("m"), CText::Text("s"), 7);
    assert_eq!(entry.level, 3);
    assert!(entry.defaulted);
}

#[test]
fn log_c_normalizes_null_and_invalid_text() {
    let (entry, _) = log_c(CText::Null, CText::Null, 3);
    assert_eq!(entry.message, "<<null message>>");
    assert_eq!(entry.source, "UNKNOWN");
    let (entry, _) = log_c(CText::Invalid, CText::Invalid, 3);
    assert_eq!(entry.message, "<<non-UTF8 message>>");
    assert_eq!(entry.source, "UNKNOWN");
}

#[test]
fn field_visitor_separates_message_from_fields() {
    let mut visitor = FieldVisitor::new();
    visitor.record_str("message", "starting up");
    visitor.record_str("device", "gpu0");
    visitor.record_debug("attempt", "3");
    assert_eq!(visitor.take_message().as_deref(), Some("starting up"));
    assert_eq!(visitor.take_message(), None);
    assert_eq!(visitor.format_kv(), "device=\"gpu0\" attempt=3");
}

#[test]
fn field_visitor_with_no_fields_formats_nothing() {
    let mut visitor = FieldVisitor::new();
    assert_eq!(visitor.format_kv(), "");
    assert_eq!(visitor.take_message(), None);
    visitor.record_debug("message", "rendered");
    assert_eq!(visitor.take_message().as_deref(), Some("rendered"));
    assert_eq!(visitor.format_kv(), "");
}

#[test]
fn host_api_reports_version_one_and_forwards() {
    let api = HostApiV1::new();
    assert_eq!(api.version, 1);
    let mut mailbox: MailBox<NoopEndpoint> = MailBox::new();
    let id = mailbox.register(NoopEndpoint, "echo".to_owned());
    assert_eq!(HostApiV1::resolve(Some(&mailbox), "echo").unwrap(), id);
    assert!(matches!(
        HostApiV1::resolve::<NoopEndpoint>(None, "echo"),
        Err(LunaticError::Uninit { .. })
    ));
}

struct NoopEndpoint;

impl lunaris::mailbox::Endpoint for NoopEndpoint {
    fn receive(&self, _envelope: lunaris::message::Envelope) -> Result<(), lunaris::message::Envelope> {
        Ok(())
    }
}

#[test]
fn error_messages_name_their_class() {
    assert_eq!(
        LunaticError::RenderQueueFull.message(),
        "Render queue is full"
    );
    assert_eq!(
        LunaticError::PluginNotFound { id: 9 }.message(),
        "Could not find plugin with that id"
    );
}
