//! The messages that the native API sends while it works.
//!
//! The driver calls back at any point of a native call. Every message is
//! handed to the logging facility, at a level that follows from its severity.
//! A message of a category that asks for action is kept as well, in a log of
//! bounded size that the client polls and drains.

use crate::native::{
    DEBUG_SEVERITY_HIGH, DEBUG_SEVERITY_LOW, DEBUG_SEVERITY_MEDIUM, DEBUG_SOURCE_API,
    DEBUG_SOURCE_APPLICATION, DEBUG_SOURCE_OTHER, DEBUG_SOURCE_SHADER_COMPILER,
    DEBUG_SOURCE_THIRD_PARTY, DEBUG_SOURCE_WINDOW_SYSTEM, DEBUG_TYPE_DEPRECATED_BEHAVIOR,
    DEBUG_TYPE_ERROR, DEBUG_TYPE_PERFORMANCE, DEBUG_TYPE_PORTABILITY,
    DEBUG_TYPE_UNDEFINED_BEHAVIOR,
};
use vstd::prelude::*;
use vstd::string::StringExecFns;

verus! {

/// The level at which a message is handed to the logging facility.
#[derive(Copy, Clone, Debug, PartialEq, Eq, Structural)]
pub enum Level {
    Error,
    Warn,
    Info,
    Trace,
}

/// The number of messages that the log of a context keeps.
pub const LOG_CAPACITY: usize = 20;

/// The level for a severity. A severity that is not known is logged at the
/// most verbose level, as a notification is.
pub open spec fn level_of(severity: u32) -> Level {
    if severity == DEBUG_SEVERITY_HIGH {
        Level::Error
    } else if severity == DEBUG_SEVERITY_MEDIUM {
        Level::Warn
    } else if severity == DEBUG_SEVERITY_LOW {
        Level::Info
    } else {
        Level::Trace
    }
}

/// The category asks for action: it is an error, undefined or deprecated
/// behaviour, or a matter of portability or performance.
pub open spec fn actionable(kind: u32) -> bool {
    kind == DEBUG_TYPE_ERROR || kind == DEBUG_TYPE_UNDEFINED_BEHAVIOR || kind
        == DEBUG_TYPE_DEPRECATED_BEHAVIOR || kind == DEBUG_TYPE_PORTABILITY || kind
        == DEBUG_TYPE_PERFORMANCE
}

pub open spec fn source_text(source: u32) -> Seq<char> {
    if source == DEBUG_SOURCE_API {
        "API"@
    } else if source == DEBUG_SOURCE_SHADER_COMPILER {
        "SHADER COMPILER"@
    } else if source == DEBUG_SOURCE_WINDOW_SYSTEM {
        "WINDOW SYSTEM"@
    } else if source == DEBUG_SOURCE_OTHER {
        "OTHER"@
    } else if source == DEBUG_SOURCE_APPLICATION {
        "APPLICATION"@
    } else if source == DEBUG_SOURCE_THIRD_PARTY {
        "THIRD PARTY"@
    } else {
        "UNKNOWN"@
    }
}

pub open spec fn kind_text(kind: u32) -> Seq<char> {
    if kind == DEBUG_TYPE_ERROR {
        "ERROR"@
    } else if kind == DEBUG_TYPE_DEPRECATED_BEHAVIOR {
        "DEPRECATED"@
    } else if kind == DEBUG_TYPE_UNDEFINED_BEHAVIOR {
        "UNDEFINED BEHAVIOUR"@
    } else if kind == DEBUG_TYPE_PORTABILITY {
        "PORTABILITY"@
    } else if kind == DEBUG_TYPE_PERFORMANCE {
        "PERFORMANCE"@
    } else {
        "UNKNOWN"@
    }
}

/// The digit that stands for a number below ten.
pub open spec fn digit(value: nat) -> char {
    if value == 0 {
        '0'
    } else if value == 1 {
        '1'
    } else if value == 2 {
        '2'
    } else if value == 3 {
        '3'
    } else if value == 4 {
        '4'
    } else if value == 5 {
        '5'
    } else if value == 6 {
        '6'
    } else if value == 7 {
        '7'
    } else if value == 8 {
        '8'
    } else {
        '9'
    }
}

/// The number in decimal digits, without leading zeros.
pub open spec fn decimal(value: nat) -> Seq<char>
    decreases value,
{
    if value < 10 {
        seq![digit(value)]
    } else {
        decimal(value / 10).push(digit(value % 10))
    }
}

/// The text of a message as it is logged and kept.
pub open spec fn message_text(source: u32, kind: u32, id: u32, text: Seq<char>) -> Seq<char> {
    decimal(id as nat) + ": "@ + kind_text(kind) + " from "@ + source_text(source) + ": "@ + text
}

/// The warning that is logged when a message is dropped from a full log.
pub open spec fn discard_text() -> Seq<char> {
    "graphics context error log filled, discarding new logs"@
}

/// The level for a severity.
pub fn level(severity: u32) -> (level: Level)
    ensures
        level == level_of(severity),
{
    if severity == DEBUG_SEVERITY_HIGH {
        Level::Error
    } else if severity == DEBUG_SEVERITY_MEDIUM {
        Level::Warn
    } else if severity == DEBUG_SEVERITY_LOW {
        Level::Info
    } else {
        Level::Trace
    }
}

/// Whether the category asks for action.
pub fn is_actionable(kind: u32) -> (kept: bool)
    ensures
        kept == actionable(kind),
{
    kind == DEBUG_TYPE_ERROR || kind == DEBUG_TYPE_UNDEFINED_BEHAVIOR || kind
        == DEBUG_TYPE_DEPRECATED_BEHAVIOR || kind == DEBUG_TYPE_PORTABILITY || kind
        == DEBUG_TYPE_PERFORMANCE
}

/// The name of the source of a message.
pub fn source_name(source: u32) -> (name: &'static str)
    ensures
        name@ == source_text(source),
{
    if source == DEBUG_SOURCE_API {
        "API"
    } else if source == DEBUG_SOURCE_SHADER_COMPILER {
        "SHADER COMPILER"
    } else if source == DEBUG_SOURCE_WINDOW_SYSTEM {
        "WINDOW SYSTEM"
    } else if source == DEBUG_SOURCE_OTHER {
        "OTHER"
    } else if source == DEBUG_SOURCE_APPLICATION {
        "APPLICATION"
    } else if source == DEBUG_SOURCE_THIRD_PARTY {
        "THIRD PARTY"
    } else {
        "UNKNOWN"
    }
}

/// The name of the category of a message.
pub fn kind_name(kind: u32) -> (name: &'static str)
    ensures
        name@ == kind_text(kind),
{
    if kind == DEBUG_TYPE_ERROR {
        "ERROR"
    } else if kind == DEBUG_TYPE_DEPRECATED_BEHAVIOR {
        "DEPRECATED"
    } else if kind == DEBUG_TYPE_UNDEFINED_BEHAVIOR {
        "UNDEFINED BEHAVIOUR"
    } else if kind == DEBUG_TYPE_PORTABILITY {
        "PORTABILITY"
    } else if kind == DEBUG_TYPE_PERFORMANCE {
        "PERFORMANCE"
    } else {
        "UNKNOWN"
    }
}

fn digit_name(value: u32) -> (name: &'static str)
    requires
        value < 10,
    ensures
        name@ == seq![digit(value as nat)],
{
    proof {
        reveal_strlit("0");
        reveal_strlit("1");
        reveal_strlit("2");
        reveal_strlit("3");
        reveal_strlit("4");
        reveal_strlit("5");
        reveal_strlit("6");
        reveal_strlit("7");
        reveal_strlit("8");
        reveal_strlit("9");
    }
    let name = if value == 0 {
        "0"
    } else if value == 1 {
        "1"
    } else if value == 2 {
        "2"
    } else if value == 3 {
        "3"
    } else if value == 4 {
        "4"
    } else if value == 5 {
        "5"
    } else if value == 6 {
        "6"
    } else if value == 7 {
        "7"
    } else if value == 8 {
        "8"
    } else {
        "9"
    };
    assert(name@ =~= seq![digit(value as nat)]);
    name
}

/// The number in decimal digits.
pub fn to_decimal(value: u32) -> (text: String)
    ensures
        text@ == decimal(value as nat),
    decreases value,
{
    if value < 10 {
        String::from_str(digit_name(value))
    } else {
        let mut text = to_decimal(value / 10);
        text.append(digit_name(value % 10));
        assert(text@ =~= decimal(value as nat));
        text
    }
}

/// The text of a message as it is logged and kept.
pub fn format_message(source: u32, kind: u32, id: u32, text: &str) -> (message: String)
    ensures
        message@ == message_text(source, kind, id, text@),
{
    let mut message = to_decimal(id);
    message.append(": ");
    message.append(kind_name(kind));
    message.append(" from ");
    message.append(source_name(source));
    message.append(": ");
    message.append(text);
    message
}

/// The text that stands for a message of the driver that cannot be read.
pub fn unreadable_message() -> (text: &'static str)
    ensures
        text@ == "[FAILED TO READ GL ERROR MESSAGE]"@,
{
    "[FAILED TO READ GL ERROR MESSAGE]"
}

/// What is handed to the logging facility for one message of the driver:
/// the message at its level, and after it, where `discarded` is set, the
/// warning that the log is full.
#[derive(Debug)]
pub struct Record {
    pub level: Level,
    pub message: String,
    pub discarded: bool,
}

/// What a log holds: the messages that are kept, oldest first, the number
/// it keeps at most, and whether it has warned that it is full since it was
/// last drained.
pub struct Log {
    pub messages: Seq<Seq<char>>,
    pub capacity: nat,
    pub warned: bool,
}

impl Log {
    pub open spec fn empty(capacity: nat) -> Log {
        Log { messages: Seq::empty(), capacity, warned: false }
    }

    pub open spec fn full(self) -> bool {
        self.messages.len() >= self.capacity
    }

    /// The log after a message of the category has come in.
    pub open spec fn record(self, kind: u32, message: Seq<char>) -> Log {
        if !actionable(kind) {
            self
        } else if self.full() {
            Log { warned: true, ..self }
        } else {
            Log { messages: self.messages.push(message), ..self }
        }
    }

    /// The message of the category is dropped with a warning: it asks for
    /// action, the log is full and has not warned yet.
    pub open spec fn warns(self, kind: u32) -> bool {
        actionable(kind) && self.full() && !self.warned
    }

    /// The log after it has been drained.
    pub open spec fn drained(self) -> Log {
        Log { messages: Seq::empty(), capacity: self.capacity, warned: false }
    }

    /// The log after the messages have come in, in order, each of a
    /// category that asks for action.
    pub open spec fn fed(self, messages: Seq<Seq<char>>) -> Log
        decreases messages.len(),
    {
        if messages.len() == 0 {
            self
        } else {
            self.fed(messages.drop_last()).record(DEBUG_TYPE_ERROR, messages.last())
        }
    }

    /// The number of warnings that are logged while the messages come in,
    /// in order, each of a category that asks for action.
    pub open spec fn warnings(self, messages: Seq<Seq<char>>) -> nat
        decreases messages.len(),
    {
        if messages.len() == 0 {
            0
        } else {
            self.warnings(messages.drop_last()) + if self.fed(messages.drop_last()).warns(
                DEBUG_TYPE_ERROR,
            ) {
                1nat
            } else {
                0nat
            }
        }
    }
}

/// The bounded log of the messages that ask for action.
#[derive(Debug)]
pub struct Diagnostics {
    messages: Vec<String>,
    capacity: usize,
    warned: bool,
}

impl View for Diagnostics {
    type V = Log;

    closed spec fn view(&self) -> Log {
        Log {
            messages: self.messages.deep_view(),
            capacity: self.capacity as nat,
            warned: self.warned,
        }
    }
}

impl Diagnostics {
    /// A log that keeps `capacity` messages at most.
    pub fn with_capacity(capacity: usize) -> (log: Self)
        ensures
            log@ == Log::empty(capacity as nat),
    {
        let log = Self { messages: Vec::with_capacity(capacity), capacity, warned: false };
        assert(log.messages.deep_view() =~= Seq::<Seq<char>>::empty());
        log
    }

    /// Takes a message of the driver. The message is kept where its
    /// category asks for action and the log is not full. What comes back is
    /// what the logging facility is to be given.
    pub fn record(&mut self, source: u32, kind: u32, id: u32, severity: u32, text: &str) -> (record:
        Record)
        ensures
            final(self)@ == old(self)@.record(kind, message_text(source, kind, id, text@)),
            record.level == level_of(severity),
            record.message@ == message_text(source, kind, id, text@),
            record.discarded == old(self)@.warns(kind),
    {
        let message = format_message(source, kind, id, text);
        let level = level(severity);
        let mut discarded = false;
        if is_actionable(kind) {
            if self.messages.len() >= self.capacity {
                discarded = !self.warned;
                self.warned = true;
            } else {
                self.messages.push(message.clone());
                assert(self.messages.deep_view() =~= old(self).messages.deep_view().push(
                    message@,
                ));
            }
        }
        Record { level, message, discarded }
    }

    /// Hands out the messages that the log holds, oldest first, and empties
    /// it; `None` where it holds none.
    pub fn poll(&mut self) -> (polled: Option<Vec<String>>)
        ensures
            match polled {
                Some(messages) => messages.deep_view() == old(self)@.messages && old(
                    self,
                )@.messages.len() > 0 && final(self)@ == old(self)@.drained(),
                None => old(self)@.messages.len() == 0 && final(self)@ == old(self)@,
            },
    {
        if self.messages.len() == 0 {
            assert(self.messages.deep_view().len() == 0);
            None
        } else {
            let mut messages: Vec<String> = Vec::new();
            core::mem::swap(&mut messages, &mut self.messages);
            self.warned = false;
            assert(self.messages.deep_view() =~= Seq::<Seq<char>>::empty());
            assert(messages.deep_view().len() == messages@.len());
            Some(messages)
        }
    }

    /// Empties the log.
    pub fn clear(&mut self)
        ensures
            final(self)@ == old(self)@.drained(),
    {
        self.messages.clear();
        self.warned = false;
        assert(self.messages.deep_view() =~= Seq::<Seq<char>>::empty());
    }
}

/// A log that starts empty keeps the first messages that come in, as many as
/// it has room for, and warns once, when the first message is dropped.
pub proof fn law_log_keeps_first_messages(capacity: nat, messages: Seq<Seq<char>>)
    ensures
        Log::empty(capacity).fed(messages).messages == messages.take(
            if messages.len() <= capacity {
                messages.len() as int
            } else {
                capacity as int
            },
        ),
        Log::empty(capacity).fed(messages).warned == (messages.len() > capacity),
        Log::empty(capacity).warnings(messages) == if messages.len() > capacity {
            1nat
        } else {
            0nat
        },
        Log::empty(capacity).fed(messages).drained() == Log::empty(capacity),
    decreases messages.len(),
{
    let log = Log::empty(capacity);
    if messages.len() > 0 {
        let earlier = messages.drop_last();
        law_log_keeps_first_messages(capacity, earlier);
        if messages.len() <= capacity {
            assert(log.fed(messages).messages =~= messages.take(messages.len() as int));
        } else {
            assert(earlier.take(
                if earlier.len() <= capacity {
                    earlier.len() as int
                } else {
                    capacity as int
                },
            ) =~= messages.take(capacity as int));
        }
    } else {
        assert(log.fed(messages).messages =~= messages.take(0));
    }
}

} // verus!
