//! The shared state and the per-participant buffer.

use vstd::prelude::*;
use crossbeam_epoch::{Collector, Guard, LocalHandle};
use crate::model::{logged, Sink, MAX_GLOBAL_LINES, MAX_LOCAL_LINES};
use crate::queue::Queue;
use crate::epoch::{domain_of, window_domain};

verus! {

/// The shared state of one logger: its epoch domain, the queue of lines that
/// were handed over and not yet written, and the push counter.
///
/// Every operation takes the state by exclusive reference: a caller that
/// shares it between threads arranges the exclusion. Every operation on the
/// queue also takes the protected window in which it runs.
pub struct Global {
    epoch: Collector,
    lines: Queue<String>,
    counter: usize,
}

/// The buffer of one participant, with the participant's registration in the
/// epoch domain of the shared state.
pub struct Local {
    epoch: LocalHandle,
    lines: Vec<String>,
}

impl Default for Global {
    /// A shared state with an epoch domain of its own, an empty queue and a
    /// counter at zero.
    fn default() -> (global: Global)
        ensures
            global.queued() == Seq::<String>::empty(),
            global.pushes() == 0,
    {
        Global { epoch: Collector::new(), lines: Queue::new(), counter: 0 }
    }
}

impl Global {
    /// The lines that wait in the queue, in the order in which they will be
    /// written.
    pub closed spec fn queued(&self) -> Seq<String> {
        self.lines@
    }

    /// The push counter.
    pub closed spec fn pushes(&self) -> usize {
        self.counter
    }

    /// The state as a sink, beside the lines `printed` that were written so far.
    pub open spec fn sink(&self, printed: Seq<String>) -> Sink {
        Sink { queue: self.queued(), count: self.pushes(), output: printed }
    }

    /// Enters a protected window of this state's epoch domain for a caller
    /// that has no registered participant at hand. The window belongs to a
    /// participant of its own, which leaves the domain when the window ends.
    pub fn window(&self) -> (window: Guard)
        ensures
            window_domain(window) == Some(self.domain()),
    {
        let participant = self.epoch.register();
        participant.pin()
    }

    /// The epoch domain of this state. Every participant that is made for
    /// the state is registered in it.
    pub closed spec fn domain(&self) -> Collector {
        self.epoch
    }

    /// Hands every line of `lines` over to the queue, the most recently
    /// buffered first, and leaves `lines` empty. Lines that a push writes out
    /// on the way are appended to `out`.
    pub fn extend(&mut self, lines: &mut Vec<String>, window: &Guard, out: &mut Vec<String>)
        ensures
            final(lines)@ == Seq::<String>::empty(),
            final(self).sink(final(out)@) == old(self).sink(old(out)@).extended(old(lines)@),
            final(self).domain() == old(self).domain(),
    {
        let ghost start = self.sink(out@);
        let ghost batch = lines@;
        let mut more = true;
        while more
            invariant
                self.sink(out@).extended(lines@) == start.extended(batch),
                self.domain() == old(self).domain(),
                !more ==> lines@.len() == 0,
            decreases lines@.len() + (if more { 1nat } else { 0nat }),
        {
            match lines.pop() {
                Some(line) => {
                    self.push(line, window, out);
                },
                None => {
                    more = false;
                },
            }
        }
        assert(lines@ =~= Seq::<String>::empty());
    }

    /// Appends `line` to the queue and counts it. When the counter reaches a
    /// multiple of the threshold, the whole queue, this line included, is
    /// written to `out`.
    pub fn push(&mut self, line: String, window: &Guard, out: &mut Vec<String>)
        ensures
            final(self).sink(final(out)@) == old(self).sink(old(out)@).pushed(line),
            final(self).domain() == old(self).domain(),
    {
        self.lines.push(line, window);
        self.counter = if self.counter == usize::MAX {
            0
        } else {
            self.counter + 1
        };
        if self.counter % MAX_GLOBAL_LINES == 0 {
            self.flush(window, out);
        }
    }

    /// Writes every line of the queue to `out`, in queue order, and leaves
    /// the queue empty.
    pub fn flush(&mut self, window: &Guard, out: &mut Vec<String>)
        ensures
            final(self).sink(final(out)@) == old(self).sink(old(out)@).flushed(),
            final(self).domain() == old(self).domain(),
    {
        let ghost start = self.sink(out@);
        let mut more = true;
        while more
            invariant
                self.domain() == old(self).domain(),
                out@ + self.lines@ == start.output + start.queue,
                self.counter == start.count,
                !more ==> self.lines@.len() == 0,
            decreases self.lines@.len() + (if more { 1nat } else { 0nat }),
        {
            let ghost before = out@ + self.lines@;
            match self.lines.try_pop(window) {
                Some(line) => {
                    out.push(line);
                    assert(out@ + self.lines@ =~= before);
                },
                None => {
                    more = false;
                },
            }
        }
        assert(self.lines@ =~= Seq::<String>::empty());
        assert(out@ =~= start.output + start.queue);
    }
}

impl Local {
    /// The lines that wait in the buffer, oldest first.
    pub closed spec fn pending(&self) -> Seq<String> {
        self.lines@
    }

    /// The buffer holds no more lines than its capacity. Every buffer is made
    /// so, and every operation keeps it so.
    pub open spec fn wf(&self) -> bool {
        self.pending().len() <= MAX_LOCAL_LINES
    }

    /// An empty buffer, registered as a new participant of `global`'s epoch
    /// domain.
    pub fn new(global: &Global) -> (local: Local)
        ensures
            local.pending() == Seq::<String>::empty(),
            local.wf(),
            local.domain() == global.domain(),
    {
        Local { epoch: global.epoch.register(), lines: Vec::with_capacity(MAX_LOCAL_LINES) }
    }

    /// An empty buffer, registered as a new participant of the domain that
    /// this one belongs to. No pending line is copied.
    pub fn fork(&self) -> (local: Local)
        ensures
            local.pending() == Seq::<String>::empty(),
            local.wf(),
            local.domain() == self.domain(),
    {
        Local { epoch: self.epoch.collector().register(), lines: Vec::with_capacity(MAX_LOCAL_LINES) }
    }

    /// The epoch domain in which this buffer's participant is registered.
    pub closed spec fn domain(&self) -> Collector {
        domain_of(self.epoch)
    }

    /// Logs a line. A buffer that is full is first handed over to `global`
    /// and `global` drained to `out`; then the line is buffered.
    pub fn log(&mut self, global: &mut Global, line: String, out: &mut Vec<String>)
        ensures
            old(self).wf() ==> final(self).wf(),
            final(self).domain() == old(self).domain(),
            final(global).domain() == old(global).domain(),
            (final(global).sink(final(out)@), final(self).pending()) == logged(
                old(global).sink(old(out)@),
                old(self).pending(),
                line,
            ),
    {
        if self.lines.len() == MAX_LOCAL_LINES {
            self.flush(global, out);
        }
        self.lines.push(line);
        assert(old(self).pending().len() == MAX_LOCAL_LINES ==> self.lines@ =~= seq![line]);
    }

    /// Hands the buffer over to `global` inside one protected window and
    /// drains `global` to `out`: every line that was pending here or waiting
    /// there is written.
    pub fn flush(&mut self, global: &mut Global, out: &mut Vec<String>)
        ensures
            final(self).pending() == Seq::<String>::empty(),
            final(self).domain() == old(self).domain(),
            final(global).domain() == old(global).domain(),
            final(global).sink(final(out)@) == old(global).sink(old(out)@).extended(
                old(self).pending(),
            ).flushed(),
    {
        let window = self.epoch.pin();
        global.extend(&mut self.lines, &window, out);
        global.flush(&window, out);
    }

    /// Ends the participant: hands the buffer over to `global` inside one
    /// protected window, then leaves the epoch domain. The queue is not
    /// drained, so the lines may wait there for a later flush.
    pub fn unregister(self, global: &mut Global, out: &mut Vec<String>)
        ensures
            final(global).sink(final(out)@) == old(global).sink(old(out)@).extended(self.pending()),
            final(global).domain() == old(global).domain(),
    {
        let mut local = self;
        let window = local.epoch.pin();
        global.extend(&mut local.lines, &window, out);
    }
}

} // verus!
