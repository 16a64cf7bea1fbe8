//! Console monitoring: messages and JavaScript errors captured from pages,
//! kept in buffers of bounded size, with filtering by level.

use vstd::prelude::*;
use crate::clock::unix_time_millis;
use crate::text::{lower_equals, lower_seq};

verus! {

/// Console log levels.
#[derive(Debug, Clone, Copy, PartialEq, Eq, Structural)]
pub enum ConsoleLevel {
    Log,
    Info,
    Warn,
    Error,
    Debug,
}

/// The name of a level, in lower case.
pub open spec fn level_name(l: ConsoleLevel) -> Seq<char> {
    match l {
        ConsoleLevel::Log => seq!['l', 'o', 'g'],
        ConsoleLevel::Info => seq!['i', 'n', 'f', 'o'],
        ConsoleLevel::Warn => seq!['w', 'a', 'r', 'n'],
        ConsoleLevel::Error => seq!['e', 'r', 'r', 'o', 'r'],
        ConsoleLevel::Debug => seq!['d', 'e', 'b', 'u', 'g'],
    }
}

/// The level whose name is `s`, ignoring the case of ASCII letters.
pub open spec fn level_of_name(s: Seq<char>) -> Option<ConsoleLevel> {
    let l = lower_seq(s);
    if l == level_name(ConsoleLevel::Log) {
        Some(ConsoleLevel::Log)
    } else if l == level_name(ConsoleLevel::Info) {
        Some(ConsoleLevel::Info)
    } else if l == level_name(ConsoleLevel::Warn) {
        Some(ConsoleLevel::Warn)
    } else if l == level_name(ConsoleLevel::Error) {
        Some(ConsoleLevel::Error)
    } else if l == level_name(ConsoleLevel::Debug) {
        Some(ConsoleLevel::Debug)
    } else {
        None
    }
}

/// Severity order of levels: debug < log < info < warn < error.
pub open spec fn severity(l: ConsoleLevel) -> int {
    match l {
        ConsoleLevel::Debug => 0,
        ConsoleLevel::Log => 1,
        ConsoleLevel::Info => 2,
        ConsoleLevel::Warn => 3,
        ConsoleLevel::Error => 4,
    }
}

/// A message passes a filter level when it is at least as severe.
pub open spec fn passes_filter(filter: Option<ConsoleLevel>, l: ConsoleLevel) -> bool {
    match filter {
        Some(f) => severity(l) >= severity(f),
        None => true,
    }
}

impl ConsoleLevel {
    /// Parses a level name, ignoring case.
    pub fn from_str(s: &str) -> (res: Option<ConsoleLevel>)
        ensures
            res == level_of_name(s@),
    {
        proof {
            reveal_strlit("log");
            reveal_strlit("info");
            reveal_strlit("warn");
            reveal_strlit("error");
            reveal_strlit("debug");
            assert("log"@ =~= level_name(ConsoleLevel::Log));
            assert("info"@ =~= level_name(ConsoleLevel::Info));
            assert("warn"@ =~= level_name(ConsoleLevel::Warn));
            assert("error"@ =~= level_name(ConsoleLevel::Error));
            assert("debug"@ =~= level_name(ConsoleLevel::Debug));
        }
        if lower_equals(s, "log") {
            Some(ConsoleLevel::Log)
        } else if lower_equals(s, "info") {
            Some(ConsoleLevel::Info)
        } else if lower_equals(s, "warn") {
            Some(ConsoleLevel::Warn)
        } else if lower_equals(s, "error") {
            Some(ConsoleLevel::Error)
        } else if lower_equals(s, "debug") {
            Some(ConsoleLevel::Debug)
        } else {
            None
        }
    }

    /// The level's name in lower case.
    pub fn as_str(&self) -> (res: &'static str)
        ensures
            res@ == level_name(*self),
    {
        proof {
            reveal_strlit("log");
            reveal_strlit("info");
            reveal_strlit("warn");
            reveal_strlit("error");
            reveal_strlit("debug");
            assert("log"@ =~= level_name(ConsoleLevel::Log));
            assert("info"@ =~= level_name(ConsoleLevel::Info));
            assert("warn"@ =~= level_name(ConsoleLevel::Warn));
            assert("error"@ =~= level_name(ConsoleLevel::Error));
            assert("debug"@ =~= level_name(ConsoleLevel::Debug));
        }
        match self {
            ConsoleLevel::Log => "log",
            ConsoleLevel::Info => "info",
            ConsoleLevel::Warn => "warn",
            ConsoleLevel::Error => "error",
            ConsoleLevel::Debug => "debug",
        }
    }

    /// Whether a message at this level passes the filter level `filter`.
    pub fn passes(&self, filter: &Option<ConsoleLevel>) -> (res: bool)
        ensures
            res == passes_filter(*filter, *self),
    {
        match filter {
            Some(f) => f.severity_rank() <= self.severity_rank(),
            None => true,
        }
    }

    fn severity_rank(&self) -> (r: u8)
        ensures
            r == severity(*self),
    {
        match self {
            ConsoleLevel::Debug => 0,
            ConsoleLevel::Log => 1,
            ConsoleLevel::Info => 2,
            ConsoleLevel::Warn => 3,
            ConsoleLevel::Error => 4,
        }
    }
}

/// Where in a page's source a console call was made.
#[derive(Debug)]
pub struct ConsoleSource {
    pub url: String,
    pub line: u32,
    pub column: u32,
}

/// A source location with its address as characters.
pub struct SourceView {
    pub url: Seq<char>,
    pub line: u32,
    pub column: u32,
}

impl View for ConsoleSource {
    type V = SourceView;

    open spec fn view(&self) -> SourceView {
        SourceView { url: self.url@, line: self.line, column: self.column }
    }
}

impl Clone for ConsoleSource {
    fn clone(&self) -> (res: Self)
        ensures
            res@ == self@,
    {
        ConsoleSource { url: self.url.clone(), line: self.line, column: self.column }
    }
}

/// A console message with its metadata.
#[derive(Debug)]
pub struct ConsoleMessage {
    /// Log level.
    pub level: ConsoleLevel,
    /// The formatted message.
    pub message: String,
    /// Milliseconds since the Unix epoch.
    pub timestamp: u64,
    /// Stack trace, for errors.
    pub stack_trace: Option<String>,
    /// Where the console was called.
    pub source: Option<ConsoleSource>,
    /// The raw arguments of the console call.
    pub args: Vec<serde_json::Value>,
}

/// The characters of an optional string.
pub open spec fn opt_str_view(o: Option<String>) -> Option<Seq<char>> {
    match o {
        Some(s) => Some(s@),
        None => None,
    }
}

/// What a console message holds, its strings taken as characters.
pub struct MessageView {
    pub level: ConsoleLevel,
    pub message: Seq<char>,
    pub timestamp: u64,
    pub stack_trace: Option<Seq<char>>,
    pub source: Option<SourceView>,
    pub args: Seq<serde_json::Value>,
}

impl View for ConsoleMessage {
    type V = MessageView;

    open spec fn view(&self) -> MessageView {
        MessageView {
            level: self.level,
            message: self.message@,
            timestamp: self.timestamp,
            stack_trace: opt_str_view(self.stack_trace),
            source: match self.source {
                Some(s) => Some(s@),
                None => None,
            },
            args: self.args@,
        }
    }
}

fn clone_option_string(o: &Option<String>) -> (res: Option<String>)
    ensures
        opt_str_view(res) == opt_str_view(*o),
{
    match o {
        Some(s) => Some(s.clone()),
        None => None,
    }
}

fn clone_json_values(v: &Vec<serde_json::Value>) -> (res: Vec<serde_json::Value>)
    ensures
        res@ == v@,
{
    let mut res: Vec<serde_json::Value> = Vec::new();
    let mut i: usize = 0;
    while i < v.len()
        invariant
            i <= v@.len(),
            res@ == v@.take(i as int),
        decreases v@.len() - i,
    {
        res.push(v[i].clone());
        proof {
            assert(res@ =~= v@.take(i + 1));
        }
        i = i + 1;
    }
    proof {
        assert(res@ =~= v@);
    }
    res
}

impl Clone for ConsoleMessage {
    fn clone(&self) -> (res: Self)
        ensures
            res@ == self@,
    {
        ConsoleMessage {
            level: self.level,
            message: self.message.clone(),
            timestamp: self.timestamp,
            stack_trace: clone_option_string(&self.stack_trace),
            source: match &self.source {
                Some(s) => Some(s.clone()),
                None => None,
            },
            args: clone_json_values(&self.args),
        }
    }
}

impl ConsoleMessage {
    /// A message stamped with the current time, without stack trace or source.
    pub fn new(level: ConsoleLevel, message: String, args: Vec<serde_json::Value>) -> (res: Self)
        ensures
            res.level == level,
            res.message@ == message@,
            res.stack_trace is None,
            res.source is None,
            res.args@ == args@,
    {
        let timestamp = unix_time_millis();
        ConsoleMessage { level, message, timestamp, stack_trace: None, source: None, args }
    }
}

/// A JavaScript error captured from `window.onerror` or an unhandled rejection.
#[derive(Debug)]
pub struct JavaScriptError {
    pub message: String,
    pub stack: String,
    pub filename: String,
    pub line: u32,
    pub column: u32,
    /// Milliseconds since the Unix epoch.
    pub timestamp: u64,
    /// Error type (Error, TypeError, UnhandledRejection, ...).
    pub error_type: String,
}

/// What a JavaScript error holds, its strings taken as characters.
pub struct ErrorView {
    pub message: Seq<char>,
    pub stack: Seq<char>,
    pub filename: Seq<char>,
    pub line: u32,
    pub column: u32,
    pub timestamp: u64,
    pub error_type: Seq<char>,
}

impl View for JavaScriptError {
    type V = ErrorView;

    open spec fn view(&self) -> ErrorView {
        ErrorView {
            message: self.message@,
            stack: self.stack@,
            filename: self.filename@,
            line: self.line,
            column: self.column,
            timestamp: self.timestamp,
            error_type: self.error_type@,
        }
    }
}

impl Clone for JavaScriptError {
    fn clone(&self) -> (res: Self)
        ensures
            res@ == self@,
    {
        JavaScriptError {
            message: self.message.clone(),
            stack: self.stack.clone(),
            filename: self.filename.clone(),
            line: self.line,
            column: self.column,
            timestamp: self.timestamp,
            error_type: self.error_type.clone(),
        }
    }
}

impl JavaScriptError {
    /// An error stamped with the current time.
    pub fn new(
        message: String,
        stack: String,
        filename: String,
        line: u32,
        column: u32,
        error_type: String,
    ) -> (res: Self)
        ensures
            res.message == message,
            res.stack == stack,
            res.filename == filename,
            res.line == line,
            res.column == column,
            res.error_type == error_type,
    {
        let timestamp = unix_time_millis();
        JavaScriptError { message, stack, filename, line, column, timestamp, error_type }
    }
}

/// `s` with `x` appended, dropping the oldest entry first when `s` already
/// holds `max` entries or more.
pub open spec fn bounded_push<T>(s: Seq<T>, x: T, max: nat) -> Seq<T> {
    if s.len() >= max {
        s.drop_first().push(x)
    } else {
        s.push(x)
    }
}

/// What a console monitor holds.
pub struct ConsoleView {
    pub monitoring: bool,
    pub messages: Seq<MessageView>,
    pub errors: Seq<ErrorView>,
    pub max_messages: nat,
    pub filter_level: Option<ConsoleLevel>,
}

impl ConsoleView {
    /// Neither buffer holds more than the capacity.
    pub open spec fn wf(self) -> bool {
        self.messages.len() <= self.max_messages && self.errors.len() <= self.max_messages
    }
}

/// The messages at level `l`, in order.
pub open spec fn messages_at(s: Seq<MessageView>, l: ConsoleLevel) -> Seq<MessageView> {
    s.filter(|m: MessageView| m.level == l)
}

/// The views of a list of messages.
pub open spec fn messages_view(s: Seq<ConsoleMessage>) -> Seq<MessageView> {
    s.map_values(|m: ConsoleMessage| m@)
}

/// The views of a list of errors.
pub open spec fn errors_view(s: Seq<JavaScriptError>) -> Seq<ErrorView> {
    s.map_values(|e: JavaScriptError| e@)
}

/// Console monitor with buffers of bounded size.
pub struct ConsoleMonitor {
    monitoring: bool,
    messages: Vec<ConsoleMessage>,
    errors: Vec<JavaScriptError>,
    max_messages: usize,
    filter_level: Option<ConsoleLevel>,
}

impl View for ConsoleMonitor {
    type V = ConsoleView;

    closed spec fn view(&self) -> ConsoleView {
        ConsoleView {
            monitoring: self.monitoring,
            messages: messages_view(self.messages@),
            errors: errors_view(self.errors@),
            max_messages: self.max_messages as nat,
            filter_level: self.filter_level,
        }
    }
}

impl ConsoleMonitor {
    /// A monitor that keeps up to 1000 messages and 1000 errors.
    pub fn new() -> (m: Self)
        ensures
            m@.wf(),
            m@ == (ConsoleView {
                monitoring: false,
                messages: Seq::empty(),
                errors: Seq::empty(),
                max_messages: 1000,
                filter_level: None,
            }),
    {
        Self::with_capacity(1000)
    }

    /// A monitor that keeps up to `max_messages` messages and as many errors.
    pub fn with_capacity(max_messages: usize) -> (m: Self)
        ensures
            m@.wf(),
            m@ == (ConsoleView {
                monitoring: false,
                messages: Seq::empty(),
                errors: Seq::empty(),
                max_messages: max_messages as nat,
                filter_level: None,
            }),
    {
        let m = ConsoleMonitor {
            monitoring: false,
            messages: Vec::with_capacity(max_messages),
            errors: Vec::new(),
            max_messages,
            filter_level: None,
        };
        assert(messages_view(m.messages@) =~= Seq::empty());
        assert(errors_view(m.errors@) =~= Seq::empty());
        m
    }

    pub fn start_monitoring(&mut self)
        ensures
            final(self)@ == (ConsoleView { monitoring: true, ..old(self)@ }),
    {
        self.monitoring = true;
    }

    pub fn stop_monitoring(&mut self)
        ensures
            final(self)@ == (ConsoleView { monitoring: false, ..old(self)@ }),
    {
        self.monitoring = false;
    }

    pub fn is_monitoring(&self) -> (res: bool)
        ensures
            res == self@.monitoring,
    {
        self.monitoring
    }

    /// Stores `message` unless it is less severe than the filter level; when
    /// the buffer is full the oldest message is dropped first.
    pub fn add_message(&mut self, message: ConsoleMessage)
        requires
            old(self)@.wf(),
            passes_filter(old(self)@.filter_level, message.level) ==> old(self)@.max_messages > 0,
        ensures
            final(self)@.wf(),
            final(self)@ == (if passes_filter(old(self)@.filter_level, message.level) {
                ConsoleView {
                    messages: bounded_push(old(self)@.messages, message@, old(self)@.max_messages),
                    ..old(self)@
                }
            } else {
                old(self)@
            }),
    {
        if !message.level.passes(&self.filter_level) {
            return;
        }
        if self.messages.len() >= self.max_messages {
            self.messages.remove(0);
        }
        let ghost mv = message@;
        self.messages.push(message);
        proof {
            assert(messages_view(self.messages@) =~= bounded_push(messages_view(old(self).messages@), mv, old(self).max_messages as nat));
        }
    }

    /// Stores `error`; when the buffer is full the oldest error is dropped first.
    pub fn add_error(&mut self, error: JavaScriptError)
        requires
            old(self)@.wf(),
            old(self)@.max_messages > 0,
        ensures
            final(self)@.wf(),
            final(self)@ == (ConsoleView {
                errors: bounded_push(old(self)@.errors, error@, old(self)@.max_messages),
                ..old(self)@
            }),
    {
        if self.errors.len() >= self.max_messages {
            self.errors.remove(0);
        }
        let ghost ev = error@;
        self.errors.push(error);
        proof {
            assert(errors_view(self.errors@) =~= bounded_push(errors_view(old(self).errors@), ev, old(self).max_messages as nat));
        }
    }

    /// The stored messages, all of them or only those at `level`, in order.
    pub fn get_messages(&self, level: Option<ConsoleLevel>) -> (res: Vec<ConsoleMessage>)
        ensures
            messages_view(res@) == match level {
                Some(l) => messages_at(self@.messages, l),
                None => self@.messages,
            },
    {
        let mut res: Vec<ConsoleMessage> = Vec::new();
        let n = self.messages.len();
        let mut i: usize = 0;
        while i < n
            invariant
                n == self.messages@.len(),
                i <= n,
                messages_view(res@) == match level {
                    Some(l) => messages_at(messages_view(self.messages@).take(i as int), l),
                    None => messages_view(self.messages@).take(i as int),
                },
            decreases n - i,
        {
            proof {
                reveal_with_fuel(Seq::<_>::filter, 1);
                assert(messages_view(self.messages@).take(i + 1).drop_last() =~= messages_view(self.messages@).take(i as int));
            }
            let keep = match level {
                Some(l) => self.messages[i].level == l,
                None => true,
            };
            let ghost before = res@;
            if keep {
                res.push(self.messages[i].clone());
            }
            proof {
                let mv = messages_view(self.messages@);
                assert(mv.take(i + 1).last() == mv[i as int]);
                if keep {
                    assert(messages_view(res@) =~= messages_view(before).push(mv[i as int]));
                } else {
                    assert(res@ == before);
                }
                match level {
                    Some(l) => {},
                    None => {
                        assert(messages_view(res@) =~= mv.take(i + 1));
                    },
                }
            }
            i = i + 1;
        }
        proof {
            assert(messages_view(self.messages@).take(n as int) =~= messages_view(self.messages@));
        }
        res
    }

    /// The stored JavaScript errors, in order.
    pub fn get_errors(&self) -> (res: Vec<JavaScriptError>)
        ensures
            errors_view(res@) == self@.errors,
    {
        let mut res: Vec<JavaScriptError> = Vec::new();
        let n = self.errors.len();
        let mut i: usize = 0;
        while i < n
            invariant
                n == self.errors@.len(),
                i <= n,
                errors_view(res@) == errors_view(self.errors@).take(i as int),
            decreases n - i,
        {
            let ghost before = res@;
            res.push(self.errors[i].clone());
            proof {
                assert(errors_view(res@) =~= errors_view(before).push(self.errors@[i as int]@));
                assert(errors_view(res@) =~= errors_view(self.errors@).take(i + 1));
            }
            i = i + 1;
        }
        proof {
            assert(errors_view(self.errors@).take(n as int) =~= errors_view(self.errors@));
        }
        res
    }

    /// Drops all messages and errors.
    pub fn clear(&mut self)
        ensures
            final(self)@ == (ConsoleView { messages: Seq::empty(), errors: Seq::empty(), ..old(self)@ }),
    {
        self.messages.clear();
        self.errors.clear();
        assert(messages_view(self.messages@) =~= Seq::empty());
        assert(errors_view(self.errors@) =~= Seq::empty());
    }

    /// Sets the filter level: later messages less severe than it are not stored.
    pub fn set_filter(&mut self, level: Option<ConsoleLevel>)
        ensures
            final(self)@ == (ConsoleView { filter_level: level, ..old(self)@ }),
    {
        self.filter_level = level;
    }

    pub fn get_filter(&self) -> (res: Option<ConsoleLevel>)
        ensures
            res == self@.filter_level,
    {
        self.filter_level
    }

    pub fn message_count(&self) -> (n: usize)
        ensures
            n == self@.messages.len(),
    {
        self.messages.len()
    }

    pub fn error_count(&self) -> (n: usize)
        ensures
            n == self@.errors.len(),
    {
        self.errors.len()
    }
}

impl Default for ConsoleMonitor {
    fn default() -> (m: Self)
        ensures
            m@.wf(),
            m@.messages.len() == 0,
            m@.errors.len() == 0,
            m@.max_messages == 1000,
            m@.filter_level is None,
            !m@.monitoring,
    {
        Self::new()
    }
}

} // verus!
