//! The decisions of the bridging subscriber: which host callback runs for
//! each call of the tracing facade, and with what.
use crate::table::{SpanTable, TableModel};
use vstd::prelude::*;

verus! {

/// Severity of an event, as the host sees it.
#[derive(Debug, Clone, Copy, PartialEq, Eq, Structural)]
pub enum LogLevel {
    Trace,
    Debug,
    Info,
    Warn,
    Error,
}

impl LogLevel {
    /// The fixed integer that encodes the level for the host.
    pub open spec fn spec_tag(self) -> u32 {
        match self {
            LogLevel::Trace => 0,
            LogLevel::Debug => 1,
            LogLevel::Info => 2,
            LogLevel::Warn => 3,
            LogLevel::Error => 4,
        }
    }

    /// The fixed integer that encodes the level for the host.
    pub fn tag(&self) -> (r: u32)
        ensures
            r == self.spec_tag(),
    {
        match self {
            LogLevel::Trace => 0,
            LogLevel::Debug => 1,
            LogLevel::Info => 2,
            LogLevel::Warn => 3,
            LogLevel::Error => 4,
        }
    }
}

/// What the facade asks about when it checks whether something is enabled.
#[derive(Debug, Clone, Copy, PartialEq, Eq, Structural)]
pub enum MetadataKind {
    Span,
    Event(LogLevel),
    Other,
}

/// How an enabled check is answered.
#[derive(Debug, Clone, Copy, PartialEq, Eq, Structural)]
pub enum EnabledQuery {
    /// The answer, with no callback to ask.
    Answer(bool),
    /// The answer is what the span-enabled callback returns.
    AskSpanEnabled,
    /// The answer is what the event-enabled callback returns for this level.
    AskEventEnabled(LogLevel),
}

/// The next thing to do with an event.
#[derive(Debug, Clone, Copy, PartialEq, Eq, Structural)]
pub enum EventStep {
    /// Drop the event: nothing is formatted and no callback runs.
    Drop,
    /// Ask the event-enabled callback about this level, then go on with
    /// [`CallbackSet::after_event_answer`].
    AskEnabled(LogLevel),
    /// Format the fields and hand the line to the event callback.
    Format(LogLevel),
}

/// Which of the host's five callbacks are registered; each is optional.
#[derive(Debug, Clone, Copy, PartialEq, Eq, Structural)]
pub struct CallbackSet {
    pub enter: bool,
    pub exit: bool,
    pub span_enabled: bool,
    pub on_event: bool,
    pub event_enabled: bool,
}

/// The first step for an event at `level`.
pub open spec fn first_event_step(cb: CallbackSet, level: LogLevel) -> EventStep {
    if !cb.on_event {
        EventStep::Drop
    } else if cb.event_enabled {
        EventStep::AskEnabled(level)
    } else {
        EventStep::Format(level)
    }
}

/// The step after the event-enabled callback answered `enabled`.
pub open spec fn answered_event_step(level: LogLevel, enabled: bool) -> EventStep {
    if enabled {
        EventStep::Format(level)
    } else {
        EventStep::Drop
    }
}

/// The name that a notification callback receives for span `id`, where the
/// callback is `present`.
pub open spec fn notified_name(present: bool, t: TableModel, id: u64) -> Option<Seq<char>> {
    if present {
        Some(t.names[id])
    } else {
        None
    }
}

/// The text of a looked-up name, if any.
pub open spec fn name_view(r: Option<&String>) -> Option<Seq<char>> {
    match r {
        Some(name) => Some(name@),
        None => None,
    }
}

impl CallbackSet {
    /// How to answer the facade's enabled check for `kind`: ask the matching
    /// callback where one is registered; else spans and events are enabled
    /// and anything else is not.
    pub fn enabled_query(&self, kind: MetadataKind) -> (r: EnabledQuery)
        ensures
            r == (match kind {
                MetadataKind::Span => if self.span_enabled {
                    EnabledQuery::AskSpanEnabled
                } else {
                    EnabledQuery::Answer(true)
                },
                MetadataKind::Event(level) => if self.event_enabled {
                    EnabledQuery::AskEventEnabled(level)
                } else {
                    EnabledQuery::Answer(true)
                },
                MetadataKind::Other => EnabledQuery::Answer(false),
            }),
    {
        match kind {
            MetadataKind::Span => if self.span_enabled {
                EnabledQuery::AskSpanEnabled
            } else {
                EnabledQuery::Answer(true)
            },
            MetadataKind::Event(level) => if self.event_enabled {
                EnabledQuery::AskEventEnabled(level)
            } else {
                EnabledQuery::Answer(true)
            },
            MetadataKind::Other => EnabledQuery::Answer(false),
        }
    }

    /// The name to hand the enter callback for span `id`, or none where no
    /// enter callback is registered (and then the table is not read).
    pub fn enter_name<'a>(&self, table: &'a SpanTable, id: u64) -> (r: Option<&'a String>)
        requires
            self.enter ==> table@.names.contains_key(id),
        ensures
            name_view(r) == notified_name(self.enter, table@, id),
    {
        if self.enter {
            table.lookup(id)
        } else {
            None
        }
    }

    /// The name to hand the exit callback for span `id`, or none where no
    /// exit callback is registered (and then the table is not read).
    pub fn exit_name<'a>(&self, table: &'a SpanTable, id: u64) -> (r: Option<&'a String>)
        requires
            self.exit ==> table@.names.contains_key(id),
        ensures
            name_view(r) == notified_name(self.exit, table@, id),
    {
        if self.exit {
            table.lookup(id)
        } else {
            None
        }
    }

    /// The first step for an event at `level`: without an event callback it
    /// is dropped unformatted; with an event-enabled callback, that is asked
    /// first; else it is formatted.
    pub fn first_event_step(&self, level: LogLevel) -> (r: EventStep)
        ensures
            r == first_event_step(*self, level),
    {
        if !self.on_event {
            EventStep::Drop
        } else if self.event_enabled {
            EventStep::AskEnabled(level)
        } else {
            EventStep::Format(level)
        }
    }

    /// The step after the event-enabled callback answered `enabled` for an
    /// event at `level`.
    pub fn after_event_answer(level: LogLevel, enabled: bool) -> (r: EventStep)
        ensures
            r == answered_event_step(level, enabled),
    {
        if enabled {
            EventStep::Format(level)
        } else {
            EventStep::Drop
        }
    }
}

/// An event-enabled callback that turns down `Warn` and `Error` and lets
/// the rest through: with an event callback registered, an event at `Trace`,
/// `Debug` or `Info` is formatted and handed on, one at `Warn` or `Error`
/// never reaches the event callback.
pub proof fn lemma_event_gate_by_level(cb: CallbackSet, level: LogLevel, answer: bool)
    requires
        cb.on_event,
        cb.event_enabled,
        answer == (level.spec_tag() < LogLevel::Warn.spec_tag()),
    ensures
        first_event_step(cb, level) == EventStep::AskEnabled(level),
        (level == LogLevel::Trace || level == LogLevel::Debug || level == LogLevel::Info)
            ==> answered_event_step(level, answer) == EventStep::Format(level),
        (level == LogLevel::Warn || level == LogLevel::Error) ==> answered_event_step(level, answer)
            == EventStep::Drop,
{
}

/// Entering and then exiting a span, with both callbacks registered, hands
/// each callback the span's stored name, once.
pub proof fn lemma_enter_exit_round_trip(cb: CallbackSet, t: TableModel, id: u64)
    requires
        cb.enter,
        cb.exit,
        t.wf(),
        t.names.contains_key(id),
    ensures
        notified_name(cb.enter, t, id) == Some(t.names[id]),
        notified_name(cb.exit, t, id) == Some(t.names[id]),
{
}

} // verus!
