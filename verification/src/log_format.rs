//! Custom log format that displays target before span context.
//!
//! Default format: `LEVEL span1:span2: target: message`
//! This format:    `LEVEL target: span1:span2: message`

use vstd::prelude::*;

verus! {

/// Custom event formatter that puts target before span context
#[derive(Debug, Clone, Copy, PartialEq, Eq, Structural)]
pub struct TargetFirstFormat;

/// The severity of a log event.
#[derive(Debug, Clone, Copy, PartialEq, Eq, Structural)]
pub enum LogLevel {
    Error,
    Warn,
    Info,
    Debug,
    Trace,
}

/// The terminal color that starts a level's name: red, yellow, green, blue, magenta.
pub open spec fn level_style(level: LogLevel) -> Seq<char> {
    match level {
        LogLevel::Error => "\x1b[31m"@,
        LogLevel::Warn => "\x1b[33m"@,
        LogLevel::Info => "\x1b[32m"@,
        LogLevel::Debug => "\x1b[34m"@,
        LogLevel::Trace => "\x1b[35m"@,
    }
}

/// The level's name, right-aligned in five columns.
pub open spec fn level_label(level: LogLevel) -> Seq<char> {
    match level {
        LogLevel::Error => "ERROR"@,
        LogLevel::Warn => " WARN"@,
        LogLevel::Info => " INFO"@,
        LogLevel::Debug => "DEBUG"@,
        LogLevel::Trace => "TRACE"@,
    }
}

/// The span names from the root, separated by ':'.
pub open spec fn span_path(spans: Seq<Seq<char>>) -> Seq<char>
    decreases spans.len(),
{
    if spans.len() == 0 {
        Seq::empty()
    } else if spans.len() == 1 {
        spans[0]
    } else {
        span_path(spans.drop_last()) + ":"@ + spans.last()
    }
}

/// What stands before an event's fields: the colored level, the target, then the span
/// path when there is one.
pub open spec fn event_prefix_spec(level: LogLevel, target: Seq<char>, spans: Seq<Seq<char>>) -> Seq<
    char,
> {
    level_style(level) + level_label(level) + "\x1b[0m "@ + target + ": "@ + if spans.len() == 0 {
        Seq::<char>::empty()
    } else {
        span_path(spans) + ": "@
    }
}

impl LogLevel {
    /// The terminal color code for this level.
    pub fn style(&self) -> (r: &'static str)
        ensures
            r@ == level_style(*self),
    {
        match self {
            LogLevel::Error => "\x1b[31m",
            LogLevel::Warn => "\x1b[33m",
            LogLevel::Info => "\x1b[32m",
            LogLevel::Debug => "\x1b[34m",
            LogLevel::Trace => "\x1b[35m",
        }
    }

    /// The level's name, right-aligned in five columns.
    pub fn label(&self) -> (r: &'static str)
        ensures
            r@ == level_label(*self),
    {
        match self {
            LogLevel::Error => "ERROR",
            LogLevel::Warn => " WARN",
            LogLevel::Info => " INFO",
            LogLevel::Debug => "DEBUG",
            LogLevel::Trace => "TRACE",
        }
    }
}

/// The characters of each span name.
pub open spec fn span_views(spans: Seq<String>) -> Seq<Seq<char>> {
    spans.map_values(|s: String| s@)
}

impl TargetFirstFormat {
    /// The text written before an event's fields: level (colored, five columns), a
    /// space, the target and ": ", then the span names from the root joined by ':' and
    /// followed by ": " when there are any.
    pub fn event_prefix(&self, level: LogLevel, target: &str, spans: &Vec<String>) -> (r: String)
        ensures
            r@ == event_prefix_spec(level, target@, span_views(spans@)),
    {
        let mut out = String::from_str(level.style());
        out.append(level.label());
        out.append("\x1b[0m ");
        out.append(target);
        out.append(": ");
        let mut path = String::new();
        let mut i: usize = 0;
        while i < spans.len()
            invariant
                i <= spans@.len(),
                path@ == span_path(span_views(spans@).subrange(0, i as int)),
            decreases spans@.len() - i,
        {
            if i > 0 {
                path.append(":");
            }
            path.append(spans[i].as_str());
            proof {
                reveal_strlit(":");
                let s = span_views(spans@).subrange(0, i as int + 1);
                assert(s.drop_last() =~= span_views(spans@).subrange(0, i as int));
                assert(path@ =~= span_path(s));
            }
            i = i + 1;
        }
        assert(span_views(spans@).subrange(0, spans@.len() as int) =~= span_views(spans@));
        if spans.len() > 0 {
            path.append(": ");
        }
        out.append(path.as_str());
        proof {
            reveal_strlit("\x1b[0m ");
            reveal_strlit(": ");
            reveal_strlit("");
        }
        assert(out@ =~= event_prefix_spec(level, target@, span_views(spans@)));
        out
    }
}

} // verus!
