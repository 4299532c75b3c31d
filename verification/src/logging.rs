//! Resolution of the effective log filter, and the idempotent init step.
//!
//! The filter is a pure function of the configuration; applying it to the
//! process environment is the unverified shell's job. Initialisation is
//! modelled explicitly so that a second attempt within the same process is
//! visibly not an error.

use vstd::prelude::*;
use crate::config::LogLevel;
use crate::config::LogScope;

verus! {

/// The name of this component's diagnostic namespace.
pub open spec fn component_name() -> Seq<char> {
    "cri_server"@
}

/// The textual name of a severity.
pub open spec fn spec_level_name(level: LogLevel) -> Seq<char> {
    match level {
        LogLevel::Error => "error"@,
        LogLevel::Warn => "warn"@,
        LogLevel::Info => "info"@,
        LogLevel::Debug => "debug"@,
        LogLevel::Trace => "trace"@,
    }
}

/// The effective filter: the severity applied process-wide, or the severity
/// confined to this component's own namespace, leaving other namespaces at
/// their default.
pub open spec fn spec_log_filter(scope: LogScope, level: LogLevel) -> Seq<char> {
    match scope {
        LogScope::Global => spec_level_name(level),
        LogScope::ScopedToOwner => component_name() + "="@ + spec_level_name(level),
    }
}

/// Resolve the filter string that the shell applies to the process
/// environment before initialising the logger.
pub fn resolve_log_filter(scope: LogScope, level: LogLevel) -> (r: &'static str)
    ensures
        r@ == spec_log_filter(scope, level),
{
    match scope {
        LogScope::Global => match level {
            LogLevel::Error => "error",
            LogLevel::Warn => "warn",
            LogLevel::Info => "info",
            LogLevel::Debug => "debug",
            LogLevel::Trace => "trace",
        },
        LogScope::ScopedToOwner => match level {
            LogLevel::Error => {
                proof {
                    reveal_strlit("cri_server=error");
                    reveal_strlit("cri_server");
                    reveal_strlit("=");
                    reveal_strlit("error");
                    assert("cri_server=error"@ =~= "cri_server"@ + "="@ + "error"@);
                }
                "cri_server=error"
            },
            LogLevel::Warn => {
                proof {
                    reveal_strlit("cri_server=warn");
                    reveal_strlit("cri_server");
                    reveal_strlit("=");
                    reveal_strlit("warn");
                    assert("cri_server=warn"@ =~= "cri_server"@ + "="@ + "warn"@);
                }
                "cri_server=warn"
            },
            LogLevel::Info => {
                proof {
                    reveal_strlit("cri_server=info");
                    reveal_strlit("cri_server");
                    reveal_strlit("=");
                    reveal_strlit("info");
                    assert("cri_server=info"@ =~= "cri_server"@ + "="@ + "info"@);
                }
                "cri_server=info"
            },
            LogLevel::Debug => {
                proof {
                    reveal_strlit("cri_server=debug");
                    reveal_strlit("cri_server");
                    reveal_strlit("=");
                    reveal_strlit("debug");
                    assert("cri_server=debug"@ =~= "cri_server"@ + "="@ + "debug"@);
                }
                "cri_server=debug"
            },
            LogLevel::Trace => {
                proof {
                    reveal_strlit("cri_server=trace");
                    reveal_strlit("cri_server");
                    reveal_strlit("=");
                    reveal_strlit("trace");
                    assert("cri_server=trace"@ =~= "cri_server"@ + "="@ + "trace"@);
                }
                "cri_server=trace"
            },
        },
    }
}

/// Process-wide logger state. Applying the resolved filter is an explicit
/// init step, and only the first attempt does anything.
pub struct LoggerInit {
    pub initialized: bool,
}

impl LoggerInit {
    /// Before startup, no logger is installed.
    pub fn new() -> (l: LoggerInit)
        ensures
            !l.initialized,
    {
        LoggerInit { initialized: false }
    }

    /// Install the logger if none is installed yet. Returns whether this
    /// attempt was the first; a repeated attempt changes nothing and is not
    /// treated as fatal.
    pub fn try_init(&mut self) -> (first: bool)
        ensures
            final(self).initialized,
            first == !old(self).initialized,
    {
        let first = !self.initialized;
        self.initialized = true;
        first
    }
}

} // verus!
