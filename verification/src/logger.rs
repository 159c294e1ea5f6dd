//! An independent logger and the handles through which lines reach it.

use vstd::prelude::*;
use crossbeam_epoch::Collector;
use crate::internal::{Global, Local};
use crate::model::{logged, Sink, MAX_LOCAL_LINES};

verus! {

/// A logger with a shared state of its own.
pub struct Logger {
    global: Global,
}

/// One participant of a logger: a buffer of its own, registered with the
/// logger that made it. Its operations take that logger.
pub struct Handle {
    local: Local,
}

impl Logger {
    /// The lines that wait in the logger's queue, in the order in which they
    /// will be written.
    pub closed spec fn queued(&self) -> Seq<String> {
        self.global.queued()
    }

    /// The logger's push counter.
    pub closed spec fn pushes(&self) -> usize {
        self.global.pushes()
    }

    /// The logger's shared state as a sink, beside the lines `printed` that
    /// were written so far.
    pub open spec fn sink(&self, printed: Seq<String>) -> Sink {
        Sink { queue: self.queued(), count: self.pushes(), output: printed }
    }

    /// The logger's epoch domain. Every handle of the logger is registered
    /// in it.
    pub closed spec fn domain(&self) -> Collector {
        self.global.domain()
    }

    /// A logger that holds nothing and has counted nothing.
    pub fn new() -> (logger: Logger)
        ensures
            logger.queued() == Seq::<String>::empty(),
            logger.pushes() == 0,
    {
        Logger { global: Global::default() }
    }

    /// A new handle with an empty buffer, registered with this logger.
    pub fn handle(&self) -> (handle: Handle)
        ensures
            handle.pending() == Seq::<String>::empty(),
            handle.wf(),
            handle.domain() == self.domain(),
    {
        Handle::new(self)
    }
}

impl Clone for Handle {
    /// A handle for the same logger with an empty buffer of its own: the
    /// lines that wait in this handle stay here and are not copied.
    fn clone(&self) -> (handle: Handle)
        ensures
            handle.pending() == Seq::<String>::empty(),
            handle.wf(),
            handle.domain() == self.domain(),
    {
        Handle { local: self.local.fork() }
    }
}

impl Handle {
    /// A new handle with an empty buffer, registered with `logger`.
    pub fn new(logger: &Logger) -> (handle: Handle)
        ensures
            handle.pending() == Seq::<String>::empty(),
            handle.wf(),
            handle.domain() == logger.domain(),
    {
        Handle { local: Local::new(&logger.global) }
    }

    /// The epoch domain in which this handle's participant is registered.
    pub closed spec fn domain(&self) -> Collector {
        self.local.domain()
    }

    /// The lines that wait in this handle's buffer, oldest first.
    pub closed spec fn pending(&self) -> Seq<String> {
        self.local.pending()
    }

    /// The buffer holds no more lines than its capacity. Every handle is made
    /// so, and every operation keeps it so.
    pub open spec fn wf(&self) -> bool {
        self.pending().len() <= MAX_LOCAL_LINES
    }

    /// Logs a line. A buffer that is full is first handed over to the logger
    /// and the logger drained to `out`; then the line is buffered.
    pub fn log(&mut self, logger: &mut Logger, line: String, out: &mut Vec<String>)
        ensures
            old(self).wf() ==> final(self).wf(),
            final(self).domain() == old(self).domain(),
            final(logger).domain() == old(logger).domain(),
            (final(logger).sink(final(out)@), final(self).pending()) == logged(
                old(logger).sink(old(out)@),
                old(self).pending(),
                line,
            ),
    {
        self.local.log(&mut logger.global, line, out)
    }

    /// Writes to `out` every line that waits in the logger or in this
    /// handle's buffer, and leaves both empty.
    pub fn flush(&mut self, logger: &mut Logger, out: &mut Vec<String>)
        ensures
            final(self).pending() == Seq::<String>::empty(),
            final(self).domain() == old(self).domain(),
            final(logger).domain() == old(logger).domain(),
            final(logger).sink(final(out)@) == old(logger).sink(old(out)@).extended(
                old(self).pending(),
            ).flushed(),
    {
        self.local.flush(&mut logger.global, out)
    }

    /// Ends the handle: its pending lines are handed over to the logger,
    /// where they wait for a later flush, and its participant leaves the
    /// epoch domain.
    pub fn finalize(self, logger: &mut Logger, out: &mut Vec<String>)
        ensures
            final(logger).sink(final(out)@) == old(logger).sink(old(out)@).extended(
                self.pending(),
            ),
            final(logger).domain() == old(logger).domain(),
    {
        self.local.unregister(&mut logger.global, out)
    }
}

} // verus!
