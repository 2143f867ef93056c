//! The logger: a fixed threshold and color flag, the filter decision, and
//! best-effort delivery of one record through a freshly acquired sink.
use vstd::prelude::*;
use vstd::string::StringExecFns;

use crate::level::level_enabled;
use crate::level::is_enabled;
use crate::level::LevelFilter;
use crate::level::LogLevel;
use crate::record::LogRecord;
use crate::render::effective;
use crate::render::lemma_effective_render;
use crate::render::render;
use crate::render::render_ops;
use crate::render::ops_view;
use crate::sink::Sink;
use crate::sink::SinkError;

verus! {

/// The logging backend's configuration: the threshold a record's level is
/// checked against, and whether styled output is wanted. Both are fixed when
/// the logger is built; nothing mutates them but the explicit, set-once
/// [`Logger::disable_colors`], so concurrent readers need no synchronization.
pub struct Logger {
    level: LevelFilter,
    enable_colors: bool,
}

impl Logger {
    /// The maximum verbosity this logger lets through.
    pub closed spec fn threshold(&self) -> LevelFilter {
        self.level
    }

    /// Whether this logger styles its output where the sink can carry it.
    pub closed spec fn colors_enabled(&self) -> bool {
        self.enable_colors
    }

    /// A logger with the given threshold and color setting.
    pub fn new(level: LevelFilter, enable_colors: bool) -> (l: Logger)
        ensures
            l.threshold() == level,
            l.colors_enabled() == enable_colors,
    {
        Logger { level, enable_colors }
    }

    /// The filter decision: a record of this level is emitted iff its level is
    /// no more verbose than the threshold.
    pub fn enabled(&self, level: LogLevel) -> (r: bool)
        ensures
            r == level_enabled(level, self.threshold()),
    {
        is_enabled(level, self.level)
    }

    /// Whether this logger styles its output where the sink can carry it.
    pub fn has_colors(&self) -> (r: bool)
        ensures
            r == self.colors_enabled(),
    {
        self.enable_colors
    }

    /// Turns styling off. To be called, if at all, before the logger is
    /// registered: the configuration is shared unsynchronized once logging
    /// begins.
    pub fn disable_colors(&mut self)
        ensures
            final(self).colors_enabled() == false,
            final(self).threshold() == old(self).threshold(),
    {
        self.enable_colors = false;
    }

    /// Renders one record and performs the rendering on the sink, stopping at
    /// the first failure (what was already performed stays written). On
    /// success the sink has performed exactly the record's rendering — the
    /// styled form on a terminal with colors enabled, the plain line
    /// otherwise.
    pub fn log_result(&self, sink: &mut Sink, record: &LogRecord) -> (r: Result<(), SinkError>)
        ensures
            final(sink).is_terminal() == old(sink).is_terminal(),
            r is Ok ==> final(sink).hist() == old(sink).hist() + render_ops(
                record@,
                self.colors_enabled() && old(sink).is_terminal(),
            ),
            r is Err ==> exists|n: int|
                0 <= n <= render_ops(record@, self.colors_enabled()).len() && final(sink).hist()
                    == old(sink).hist() + effective(
                    #[trigger] render_ops(record@, self.colors_enabled()).take(n),
                    old(sink).is_terminal(),
                ),
    {
        let ops = render(record, self.enable_colors);
        let result = sink.emit(&ops);
        proof {
            if result is Ok {
                lemma_effective_render(
                    record@,
                    self.colors_enabled(),
                    old(sink).is_terminal(),
                );
            } else {
                let n = choose|n: int|
                    0 <= n <= ops@.len() && sink.hist() == old(sink).hist() + effective(
                        #[trigger] ops_view(ops@).take(n),
                        old(sink).is_terminal(),
                    );
                assert(render_ops(record@, self.colors_enabled()).take(n) == ops_view(
                    ops@,
                ).take(n));
                assert(0 <= n <= render_ops(record@, self.colors_enabled()).len() && sink.hist()
                    == old(sink).hist() + effective(
                    render_ops(record@, self.colors_enabled()).take(n),
                    old(sink).is_terminal(),
                ));
            }
        }
        result
    }

    /// Filters and, when the record passes, delivers it through the sink. A
    /// delivery failure is reported on the diagnostic side channel and never
    /// reaches the caller. A filtered record performs nothing at all: no
    /// operation reaches the sink.
    pub fn log_to(&self, sink: &mut Sink, record: &LogRecord)
        ensures
            final(sink).is_terminal() == old(sink).is_terminal(),
            !level_enabled(record@.level, self.threshold()) ==> final(sink).hist() == old(
                sink,
            ).hist(),
            level_enabled(record@.level, self.threshold()) ==> exists|n: int|
                0 <= n <= render_ops(record@, self.colors_enabled()).len() && final(sink).hist()
                    == old(sink).hist() + effective(
                    #[trigger] render_ops(record@, self.colors_enabled()).take(n),
                    old(sink).is_terminal(),
                ),
    {
        if self.enabled(record.level) {
            let result = self.log_result(sink, record);
            proof {
                if result is Ok {
                    let all = render_ops(record@, self.colors_enabled());
                    assert(all.take(all.len() as int) =~= all);
                    lemma_effective_render(
                        record@,
                        self.colors_enabled(),
                        old(sink).is_terminal(),
                    );
                }
            }
            if let Err(e) = result {
                report_failure(&e);
            }
        }
    }

    /// Handles one record: a filtered record returns at once, before any sink
    /// is acquired. Otherwise a fresh sink is acquired (never cached, never
    /// shared), the record is delivered, and the sink is dropped. Failures
    /// are swallowed after a diagnostic note: logging never aborts the caller.
    pub fn log(&self, record: &LogRecord) {
        if self.enabled(record.level) {
            let mut sink = Sink::acquire();
            self.log_to(&mut sink, record);
        }
    }

    /// Nothing is buffered, so there is nothing to flush.
    pub fn flush(&self) {
    }
}

/// Writes a diagnostic note about a failed delivery to the plain error
/// stream, best-effort: a failure of the note itself is ignored.
fn report_failure(e: &SinkError) {
    let mut message = "Logging failed: ".to_owned();
    let detail = e.describe();
    message.append(detail.as_str());
    message.append("\n");
    let mut sink = Sink::fallback();
    let _ignored = sink.write_str(message.as_str());
}

} // verus!
