use tracing_ext_ffi_subscriber::bridge::{CallbackSet, EnabledQuery, EventStep, LogLevel, MetadataKind};
use tracing_ext_ffi_subscriber::table::SpanTable;
use tracing_ext_ffi_subscriber::ReturnCode;

fn all(enabled: bool) -> CallbackSet {
    CallbackSet { enter: enabled, exit: enabled, span_enabled: enabled, on_event: enabled, event_enabled: enabled }
}

#[test]
fn spans_enabled_without_callback() {
    let cb = all(false);
    assert_eq!(cb.enabled_query(MetadataKind::Span), EnabledQuery::Answer(true));
    assert_eq!(cb.enabled_query(MetadataKind::Event(LogLevel::Error)), EnabledQuery::Answer(true));
    assert_eq!(cb.enabled_query(MetadataKind::Other), EnabledQuery::Answer(false));
    let with = all(true);
    assert_eq!(with.enabled_query(MetadataKind::Span), EnabledQuery::AskSpanEnabled);
    assert_eq!(
        with.enabled_query(MetadataKind::Event(LogLevel::Info)),
        EnabledQuery::AskEventEnabled(LogLevel::Info)
    );
}

fn deliver(cb: &CallbackSet, level: LogLevel, callback: impl Fn(u32) -> bool) -> bool {
    let mut step = cb.first_event_step(level);
    if let EventStep::AskEnabled(l) = step {
        step = CallbackSet::after_event_answer(l, callback(l.tag()));
    }
    matches!(step, EventStep::Format(_))
}

#[test]
fn event_gate_filters_warn_and_error() {
    let cb = all(true);
    let below_warn = |tag: u32| tag < LogLevel::Warn.tag();
    assert!(deliver(&cb, LogLevel::Trace, below_warn));
    assert!(deliver(&cb, LogLevel::Debug, below_warn));
    assert!(deliver(&cb, LogLevel::Info, below_warn));
    assert!(!deliver(&cb, LogLevel::Warn, below_warn));
    assert!(!deliver(&cb, LogLevel::Error, below_warn));
}

#[test]
fn events_without_callbacks() {
    let none = all(false);
    assert_eq!(none.first_event_step(LogLevel::Info), EventStep::Drop);
    let only_event = CallbackSet { on_event: true, ..all(false) };
    assert_eq!(only_event.first_event_step(LogLevel::Warn), EventStep::Format(LogLevel::Warn));
    assert_eq!(CallbackSet::after_event_answer(LogLevel::Debug, false), EventStep::Drop);
}

#[test]
fn level_tags() {
    assert_eq!(LogLevel::Trace.tag(), 0);
    assert_eq!(LogLevel::Debug.tag(), 1);
    assert_eq!(LogLevel::Info.tag(), 2);
    assert_eq!(LogLevel::Warn.tag(), 3);
    assert_eq!(LogLevel::Error.tag(), 4);
}

#[test]
fn enter_then_exit_see_the_stored_name() {
    let mut t = SpanTable::new();
    let id = t.intern("work").unwrap();
    let cb = all(true);
    let mut seen = Vec::new();
    if let Some(name) = cb.enter_name(&t, id) {
        seen.push(format!("enter {}", name));
    }
    if let Some(name) = cb.exit_name(&t, id) {
        seen.push(format!("exit {}", name));
    }
    assert_eq!(seen, vec!["enter work".to_string(), "exit work".to_string()]);
}

#[test]
fn no_callback_means_no_lookup() {
    let t = SpanTable::new();
    let cb = all(false);
    assert!(cb.enter_name(&t, 42).is_none());
    assert!(cb.exit_name(&t, 42).is_none());
}

#[test]
fn install_codes() {
    assert_eq!(ReturnCode::from_install(false), ReturnCode::Success);
    assert_eq!(ReturnCode::from_install(true), ReturnCode::Failure);
    assert_eq!(ReturnCode::Success.code(), 0);
    assert_eq!(ReturnCode::Failure.code(), 1);
}
