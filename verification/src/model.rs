//! The mathematical model of the logger: what the shared sink holds, how each
//! operation changes it, and the laws that follow.

use vstd::prelude::*;
use vstd::multiset::Multiset;

verus! {

/// The shared queue is written out whenever the push counter reaches a
/// multiple of this number.
pub const MAX_GLOBAL_LINES: usize = 32;

/// The number of lines a participant's buffer holds before it is handed over.
pub const MAX_LOCAL_LINES: usize = 8;

/// The shared sink: the lines waiting in the queue, the push counter, and
/// the lines written so far.
pub struct Sink {
    pub queue: Seq<String>,
    pub count: usize,
    pub output: Seq<String>,
}

/// The push counter after one more push. It wraps, as the machine counter does.
pub open spec fn next_count(count: usize) -> usize {
    if count == usize::MAX {
        0
    } else {
        (count + 1) as usize
    }
}

impl Sink {
    /// Every line that has reached the sink, in the order in which it is or
    /// will be written.
    pub open spec fn stream(self) -> Seq<String> {
        self.output + self.queue
    }

    /// Fewer lines wait in the queue than the threshold: at most as many as
    /// were pushed since the counter last reached a multiple of it.
    pub open spec fn bounded(self) -> bool {
        self.queue.len() <= self.count as int % MAX_GLOBAL_LINES as int
    }

    /// The sink after a full drain: the queue is written out in order.
    pub open spec fn flushed(self) -> Sink {
        Sink { queue: Seq::empty(), count: self.count, output: self.output + self.queue }
    }

    /// The sink after one push: the line joins the queue, the counter moves,
    /// and when it reaches a multiple of the threshold the queue is drained.
    pub open spec fn pushed(self, line: String) -> Sink {
        let queued = Sink {
            queue: self.queue.push(line),
            count: next_count(self.count),
            output: self.output,
        };
        if queued.count as int % MAX_GLOBAL_LINES as int == 0 {
            queued.flushed()
        } else {
            queued
        }
    }

    /// The sink after a buffer was handed over: its lines are pushed one by
    /// one, the most recently buffered first.
    pub open spec fn extended(self, lines: Seq<String>) -> Sink
        decreases lines.len(),
    {
        if lines.len() == 0 {
            self
        } else {
            self.pushed(lines.last()).extended(lines.drop_last())
        }
    }
}

/// The sink and a participant's buffer after the participant logged a line:
/// a full buffer is handed over and the sink drained first.
pub open spec fn logged(sink: Sink, pending: Seq<String>, line: String) -> (Sink, Seq<String>) {
    if pending.len() == MAX_LOCAL_LINES as nat {
        (sink.extended(pending).flushed(), seq![line])
    } else {
        (sink, pending.push(line))
    }
}

/// The sink and a participant's buffer after the participant logged the
/// lines one after the other.
pub open spec fn logged_all(sink: Sink, pending: Seq<String>, lines: Seq<String>) -> (
    Sink,
    Seq<String>,
)
    decreases lines.len(),
{
    if lines.len() == 0 {
        (sink, pending)
    } else {
        let (before, buffer) = logged_all(sink, pending, lines.drop_last());
        logged(before, buffer, lines.last())
    }
}

/// A drain writes the queue out and loses nothing: the stream stays as it
/// was, what was written stays written, and the queue is empty.
pub proof fn lemma_flush_keeps_stream(sink: Sink)
    ensures
        sink.flushed().stream() == sink.stream(),
        sink.flushed().output == sink.stream(),
        sink.flushed().queue.len() == 0,
        sink.flushed().bounded(),
{
    assert(sink.flushed().stream() =~= sink.stream());
}

/// A push adds its line once, at the end of the stream, and takes nothing
/// back: what was written before is a prefix of what is written after.
pub proof fn lemma_push_appends(sink: Sink, line: String)
    ensures
        sink.pushed(line).stream() == sink.stream().push(line),
        sink.output.is_prefix_of(sink.pushed(line).output),
        sink.pushed(line).count == next_count(sink.count),
{
    assert(sink.pushed(line).stream() =~= sink.stream().push(line));
}

/// When a push brings the counter to a multiple of the threshold, the queue
/// is drained before the push returns: everything that reached the sink,
/// the pushed line included, has been written, and nothing waits.
pub proof fn lemma_threshold_drains(sink: Sink, line: String)
    requires
        next_count(sink.count) as int % MAX_GLOBAL_LINES as int == 0,
    ensures
        sink.pushed(line).queue.len() == 0,
        sink.pushed(line).output == sink.stream().push(line),
{
    assert(sink.pushed(line).output =~= sink.stream().push(line));
}

/// A push keeps the queue short: on a sink whose queue holds no more lines
/// than were pushed since the counter last reached a multiple of the
/// threshold, the same holds after the push, so fewer lines than the
/// threshold ever wait.
pub proof fn lemma_push_keeps_bound(sink: Sink, line: String)
    requires
        sink.bounded(),
    ensures
        sink.pushed(line).bounded(),
        sink.pushed(line).queue.len() < MAX_GLOBAL_LINES,
{
    assert(usize::MAX as int % 32 == 31) by {
        assert(usize::MAX == 0xffff_ffff || usize::MAX == 0xffff_ffff_ffff_ffff) by {
            assert(usize::BITS == 32 || usize::BITS == 64);
        }
    }
}

/// Handing a buffer over adds each of its lines once to the stream, the most
/// recently buffered first, and keeps what was written before as a prefix of
/// what is written after. It keeps the queue short as a push does.
pub proof fn lemma_extend_appends(sink: Sink, lines: Seq<String>)
    ensures
        sink.extended(lines).stream() == sink.stream() + lines.reverse(),
        sink.output.is_prefix_of(sink.extended(lines).output),
        sink.bounded() ==> sink.extended(lines).bounded(),
    decreases lines.len(),
{
    if lines.len() == 0 {
        assert(sink.stream() + lines.reverse() =~= sink.stream());
    } else {
        let next = sink.pushed(lines.last());
        lemma_push_appends(sink, lines.last());
        if sink.bounded() {
            lemma_push_keeps_bound(sink, lines.last());
        }
        lemma_extend_appends(next, lines.drop_last());
        assert(sink.stream().push(lines.last()) + lines.drop_last().reverse() =~= sink.stream()
            + lines.reverse());
    }
}

/// Handing a buffer over counts each of its lines, as long as the counter
/// does not wrap.
pub proof fn lemma_extend_counts(sink: Sink, lines: Seq<String>)
    requires
        sink.count + lines.len() <= usize::MAX,
    ensures
        sink.extended(lines).count == sink.count + lines.len(),
    decreases lines.len(),
{
    if lines.len() > 0 {
        lemma_extend_counts(sink.pushed(lines.last()), lines.drop_last());
    }
}

/// The line that was buffered first is pushed last.
pub proof fn lemma_extend_ends_with_first(sink: Sink, lines: Seq<String>)
    requires
        lines.len() > 0,
    ensures
        sink.extended(lines) == sink.extended(lines.skip(1)).pushed(lines.first()),
    decreases lines.len(),
{
    if lines.len() == 1 {
        assert(lines.drop_last() =~= Seq::<String>::empty());
        assert(lines.skip(1) =~= Seq::<String>::empty());
        assert(sink.extended(lines) == sink.pushed(lines.last()).extended(lines.drop_last()));
    } else {
        let next = sink.pushed(lines.last());
        lemma_extend_ends_with_first(next, lines.drop_last());
        assert(lines.drop_last().skip(1) =~= lines.skip(1).drop_last());
        assert(lines.skip(1).last() == lines.last());
        assert(lines.drop_last().first() == lines.first());
        assert(sink.extended(lines.skip(1)) == next.extended(lines.skip(1).drop_last()));
    }
}

/// The push that brings the number of pushes to a multiple of the
/// threshold drains the queue: when a batch ends on such a push, every line
/// that reached the sink, the batch included, has been written when the
/// hand-over returns, and nothing waits for the next push.
pub proof fn lemma_threshold_batch(sink: Sink, lines: Seq<String>)
    requires
        lines.len() > 0,
        sink.count + lines.len() <= usize::MAX,
        (sink.count + lines.len()) % MAX_GLOBAL_LINES as int == 0,
    ensures
        sink.extended(lines).queue.len() == 0,
        sink.extended(lines).output == sink.stream() + lines.reverse(),
{
    let before = sink.extended(lines.skip(1));
    lemma_extend_ends_with_first(sink, lines);
    lemma_extend_counts(sink, lines.skip(1));
    lemma_threshold_drains(before, lines.first());
    lemma_extend_appends(sink, lines.skip(1));
    assert((sink.stream() + lines.skip(1).reverse()).push(lines.first()) =~= sink.stream()
        + lines.reverse());
}

/// No line is lost and none is written twice when a participant logs: the
/// lines held by the sink and the buffer together afterwards are those held
/// before and the logged line, each as often as before. What was written
/// stays written, and the buffer stays within its capacity.
pub proof fn lemma_log_conserves(sink: Sink, pending: Seq<String>, line: String)
    ensures
        ({
            let (after, buffer) = logged(sink, pending, line);
            &&& after.stream().to_multiset().add(buffer.to_multiset())
                == sink.stream().to_multiset().add(pending.to_multiset()).insert(line)
            &&& sink.output.is_prefix_of(after.output)
            &&& pending.len() <= MAX_LOCAL_LINES ==> buffer.len() <= MAX_LOCAL_LINES
            &&& sink.bounded() ==> after.bounded()
        }),
{
    broadcast use vstd::seq_lib::group_to_multiset_ensures;
    let (after, buffer) = logged(sink, pending, line);
    if pending.len() == MAX_LOCAL_LINES as nat {
        let handed = sink.extended(pending);
        lemma_extend_appends(sink, pending);
        lemma_flush_keeps_stream(handed);
        pending.lemma_reverse_to_multiset();
        vstd::seq_lib::lemma_multiset_commutative(sink.stream(), pending.reverse());
        assert(buffer.to_multiset() =~= Multiset::<String>::empty().insert(line)) by {
            assert(buffer =~= Seq::<String>::empty().push(line));
        }
        assert(after.stream().to_multiset().add(buffer.to_multiset())
            =~= sink.stream().to_multiset().add(pending.to_multiset()).insert(line));
    } else {
        assert(after.stream().to_multiset().add(buffer.to_multiset())
            =~= sink.stream().to_multiset().add(pending.to_multiset()).insert(line));
    }
}

/// No line is lost and none is written twice when a participant flushes or
/// ends: the buffer's lines join the stream, each once, and after a flush
/// every line that reached the sink has been written.
pub proof fn lemma_hand_over_conserves(sink: Sink, pending: Seq<String>)
    ensures
        sink.extended(pending).stream().to_multiset() == sink.stream().to_multiset().add(
            pending.to_multiset(),
        ),
        sink.extended(pending).flushed().output == sink.stream() + pending.reverse(),
        sink.extended(pending).flushed().queue.len() == 0,
{
    lemma_extend_appends(sink, pending);
    lemma_flush_keeps_stream(sink.extended(pending));
    pending.lemma_reverse_to_multiset();
    vstd::seq_lib::lemma_multiset_commutative(sink.stream(), pending.reverse());
}

/// A buffer that is not full takes a line without anything reaching the
/// sink; a full one is handed over whole and the sink drained before the
/// line is buffered, so that the eight lines before it are written.
pub proof fn lemma_buffer_bound(sink: Sink, pending: Seq<String>, line: String)
    ensures
        pending.len() != MAX_LOCAL_LINES ==> logged(sink, pending, line) == (
            sink,
            pending.push(line),
        ),
        pending.len() == MAX_LOCAL_LINES ==> {
            &&& logged(sink, pending, line).1 == seq![line]
            &&& logged(sink, pending, line).0.queue.len() == 0
            &&& logged(sink, pending, line).0.output == sink.stream() + pending.reverse()
        },
{
    lemma_hand_over_conserves(sink, pending);
}

/// As long as the buffer has room, logging leaves the sink alone: a
/// participant with an empty buffer logs as many lines as the capacity
/// without one of them reaching the queue.
pub proof fn lemma_logs_within_capacity(sink: Sink, pending: Seq<String>, lines: Seq<String>)
    requires
        pending.len() + lines.len() <= MAX_LOCAL_LINES,
    ensures
        logged_all(sink, pending, lines) == (sink, pending + lines),
    decreases lines.len(),
{
    if lines.len() == 0 {
        assert(pending + lines =~= pending);
    } else {
        lemma_logs_within_capacity(sink, pending, lines.drop_last());
        assert((pending + lines.drop_last()).push(lines.last()) =~= pending + lines);
    }
}

} // verus!
