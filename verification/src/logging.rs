//! The logging configuration.
//!
//! The process logs JSON-formatted traces with span-enter events, no
//! target, ANSI colors, and an environment-derived filter; the error
//! reports keep their environment section off. Which settings to use is
//! decided here; installing the subscriber and the panic hook is side
//! effects the program around the library performs.

use vstd::prelude::*;

verus! {

/// The settings the process logs with.
pub struct LoggingConfig {
    /// The trace-filter directive: the environment's, or the default.
    pub env_filter: String,
    /// Emit JSON-formatted events.
    pub json_output: bool,
    /// Emit an event when a span is entered.
    pub span_events_enter: bool,
    /// Name the event's target.
    pub with_target: bool,
    /// Color the output.
    pub ansi: bool,
    /// Show the environment section in error reports.
    pub display_env_section: bool,
}

/// Decides the logging settings: the caller may override the trace filter
/// through the environment, else the default applies.
pub fn init_logging(env_directive: Option<String>) -> (c: LoggingConfig)
    ensures
        c.env_filter@ == match env_directive {
            Some(d) => d@,
            None => "info,shuttle=trace"@,
        },
        c.json_output,
        c.span_events_enter,
        !c.with_target,
        c.ansi,
        !c.display_env_section,
{
    let env_filter = match env_directive {
        Some(d) => d,
        None => "info,shuttle=trace".to_owned(),
    };
    LoggingConfig {
        env_filter,
        json_output: true,
        span_events_enter: true,
        with_target: false,
        ansi: true,
        display_env_section: false,
    }
}

} // verus!
