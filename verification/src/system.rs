//! Whole runs of a logger: any number of participants that log, flush and
//! end in any order, and what holds of every such run.

use vstd::prelude::*;
use vstd::multiset::Multiset;
use crate::model::{
    lemma_extend_appends, lemma_flush_keeps_stream, lemma_hand_over_conserves,
    lemma_log_conserves, lemma_push_appends, lemma_push_keeps_bound, logged, Sink,
    MAX_LOCAL_LINES,
};

verus! {

/// One call: made by a participant, named by its index, or made without
/// one, straight on the shared state.
pub enum Event {
    /// The participant logs a line.
    Log { who: int, line: String },
    /// The participant flushes.
    Flush { who: int },
    /// The participant ends: its buffer is handed over and not drained.
    End { who: int },
    /// A line is pushed without a buffer.
    Push { line: String },
    /// The queue is drained without a buffer.
    Drain,
}

/// A logger with its participants: the shared sink and each participant's
/// buffer.
pub struct System {
    pub sink: Sink,
    pub buffers: Seq<Seq<String>>,
}

impl Event {
    /// The call is made by one of `participants` participants, or by none.
    pub open spec fn among(self, participants: nat) -> bool {
        match self {
            Event::Log { who, .. } => 0 <= who < participants,
            Event::Flush { who } => 0 <= who < participants,
            Event::End { who } => 0 <= who < participants,
            Event::Push { .. } => true,
            Event::Drain => true,
        }
    }

    /// The call is made by the participant `who`.
    pub open spec fn made_by(self, who: int) -> bool {
        match self {
            Event::Log { who: caller, .. } => caller == who,
            Event::Flush { who: caller } => caller == who,
            Event::End { who: caller } => caller == who,
            Event::Push { .. } => false,
            Event::Drain => false,
        }
    }
}

/// Every line that waits in some buffer, each as often as it waits.
pub open spec fn buffered(buffers: Seq<Seq<String>>) -> Multiset<String>
    decreases buffers.len(),
{
    if buffers.len() == 0 {
        Multiset::empty()
    } else {
        buffered(buffers.drop_last()).add(buffers.last().to_multiset())
    }
}

/// Every line that the events log, each as often as it is logged.
pub open spec fn lines_of(events: Seq<Event>) -> Multiset<String>
    decreases events.len(),
{
    if events.len() == 0 {
        Multiset::empty()
    } else {
        let before = lines_of(events.drop_last());
        match events.last() {
            Event::Log { line, .. } => before.insert(line),
            Event::Push { line } => before.insert(line),
            _ => before,
        }
    }
}

impl System {
    /// The events name participants of this system only.
    pub open spec fn admits(self, events: Seq<Event>) -> bool {
        forall|i: int| 0 <= i < events.len() ==> (#[trigger] events[i]).among(self.buffers.len())
    }

    /// Every buffer is within its capacity.
    pub open spec fn within_capacity(self) -> bool {
        forall|i: int| 0 <= i < self.buffers.len() ==> (#[trigger] self.buffers[i]).len() <= MAX_LOCAL_LINES
    }

    /// Nothing waits, neither in a buffer nor in the queue.
    pub open spec fn drained(self) -> bool {
        &&& self.sink.queue.len() == 0
        &&& forall|i: int| 0 <= i < self.buffers.len() ==> (#[trigger] self.buffers[i]).len() == 0
    }

    /// Every line that the system holds, written or waiting, each as often
    /// as it is held.
    pub open spec fn held(self) -> Multiset<String> {
        self.sink.stream().to_multiset().add(buffered(self.buffers))
    }

    /// The system after one call.
    pub open spec fn step(self, event: Event) -> System {
        match event {
            Event::Log { who, line } => {
                let (sink, buffer) = logged(self.sink, self.buffers[who], line);
                System { sink, buffers: self.buffers.update(who, buffer) }
            },
            Event::Flush { who } => System {
                sink: self.sink.extended(self.buffers[who]).flushed(),
                buffers: self.buffers.update(who, Seq::empty()),
            },
            Event::End { who } => System {
                sink: self.sink.extended(self.buffers[who]),
                buffers: self.buffers.update(who, Seq::empty()),
            },
            Event::Push { line } => System { sink: self.sink.pushed(line), buffers: self.buffers },
            Event::Drain => System { sink: self.sink.flushed(), buffers: self.buffers },
        }
    }

    /// The system after the calls, made in order.
    pub open spec fn run(self, events: Seq<Event>) -> System
        decreases events.len(),
    {
        if events.len() == 0 {
            self
        } else {
            self.run(events.drop_last()).step(events.last())
        }
    }
}

/// Replacing one buffer changes what the buffers hold by that buffer alone.
pub proof fn lemma_buffered_update(buffers: Seq<Seq<String>>, who: int, buffer: Seq<String>)
    requires
        0 <= who < buffers.len(),
    ensures
        buffered(buffers.update(who, buffer)).add(buffers[who].to_multiset()) == buffered(
            buffers,
        ).add(buffer.to_multiset()),
    decreases buffers.len(),
{
    let changed = buffers.update(who, buffer);
    let rest = buffers.drop_last();
    if who == buffers.len() - 1 {
        assert(changed.drop_last() =~= rest);
    } else {
        assert(changed.drop_last() =~= rest.update(who, buffer));
        lemma_buffered_update(rest, who, buffer);
        assert forall|v: String|
            buffered(changed).add(buffers[who].to_multiset()).count(v) == buffered(buffers).add(
                buffer.to_multiset(),
            ).count(v) by {
            assert(buffered(rest.update(who, buffer)).add(rest[who].to_multiset()).count(v)
                == buffered(rest).add(buffer.to_multiset()).count(v));
        }
    }
    assert(buffered(changed).add(buffers[who].to_multiset()) =~= buffered(buffers).add(
        buffer.to_multiset(),
    ));
}

/// When one buffer and the stream exchange lines, and `extra` joins, the
/// whole changes by `extra` alone.
proof fn lemma_exchange(
    stream: Multiset<String>,
    stream_after: Multiset<String>,
    others: Multiset<String>,
    others_after: Multiset<String>,
    buffer: Multiset<String>,
    buffer_after: Multiset<String>,
    extra: Multiset<String>,
)
    requires
        others_after.add(buffer) == others.add(buffer_after),
        stream_after.add(buffer_after) == stream.add(buffer).add(extra),
    ensures
        stream_after.add(others_after) == stream.add(others).add(extra),
{
    assert forall|v: String|
        stream_after.add(others_after).count(v) == stream.add(others).add(extra).count(v) by {
        let moved = others_after.add(buffer);
        let kept = stream_after.add(buffer_after);
        assert(moved.count(v) == others_after.count(v) + buffer.count(v));
        assert(moved.count(v) == others.count(v) + buffer_after.count(v)) by {
            assert(moved == others.add(buffer_after));
        }
        assert(kept.count(v) == stream_after.count(v) + buffer_after.count(v));
        assert(kept.count(v) == stream.count(v) + buffer.count(v) + extra.count(v)) by {
            assert(kept == stream.add(buffer).add(extra));
            assert(stream.add(buffer).add(extra).count(v) == stream.add(buffer).count(v)
                + extra.count(v));
        }
    }
    assert(stream_after.add(others_after) =~= stream.add(others).add(extra));
}

/// Buffers that are all empty hold nothing.
pub proof fn lemma_buffered_empty(buffers: Seq<Seq<String>>)
    requires
        forall|i: int| 0 <= i < buffers.len() ==> (#[trigger] buffers[i]).len() == 0,
    ensures
        buffered(buffers) == Multiset::<String>::empty(),
    decreases buffers.len(),
{
    broadcast use vstd::seq_lib::group_to_multiset_ensures;
    if buffers.len() > 0 {
        lemma_buffered_empty(buffers.drop_last());
        assert(buffers.last().len() == 0);
        assert(buffers.last().to_multiset() =~= Multiset::<String>::empty());
        assert(buffered(buffers) =~= Multiset::<String>::empty());
    }
}

/// A call touches no buffer but the caller's: what waits in another
/// participant's buffer stays there, whoever logs, flushes or ends.
pub proof fn lemma_step_keeps_other_buffers(system: System, event: Event, other: int)
    requires
        event.among(system.buffers.len()),
        0 <= other < system.buffers.len(),
        !event.made_by(other),
    ensures
        system.step(event).buffers[other] == system.buffers[other],
{
}

/// One call loses no line and doubles none: afterwards the system holds
/// what it held before and, after a log, the logged line once more. What
/// was written stays written, the queue stays short, and the buffers stay
/// within their capacity.
pub proof fn lemma_step_conserves(system: System, event: Event)
    requires
        event.among(system.buffers.len()),
    ensures
        system.step(event).buffers.len() == system.buffers.len(),
        system.step(event).held() == system.held().add(lines_of(seq![event])),
        system.sink.output.is_prefix_of(system.step(event).sink.output),
        system.sink.bounded() ==> system.step(event).sink.bounded(),
        system.within_capacity() ==> system.step(event).within_capacity(),
{
    broadcast use vstd::seq_lib::group_to_multiset_ensures;
    let after = system.step(event);
    let extra = lines_of(seq![event]);
    let stream = system.sink.stream().to_multiset();
    assert(seq![event].drop_last() =~= Seq::<Event>::empty());
    assert(seq![event].last() == event);
    assert(lines_of(seq![event].drop_last()) == Multiset::<String>::empty());
    match event {
        Event::Log { who, line } => {
            let pending = system.buffers[who];
            lemma_log_conserves(system.sink, pending, line);
            assert(stream.add(pending.to_multiset()).insert(line) =~= stream.add(
                pending.to_multiset(),
            ).add(extra));
            lemma_participant_step(system, after, who, extra);
        },
        Event::Flush { who } => {
            let pending = system.buffers[who];
            lemma_hand_over_conserves(system.sink, pending);
            lemma_extend_appends(system.sink, pending);
            lemma_flush_keeps_stream(system.sink.extended(pending));
            assert(after.buffers[who].to_multiset() =~= Multiset::<String>::empty());
            assert(after.sink.stream().to_multiset().add(after.buffers[who].to_multiset())
                =~= stream.add(pending.to_multiset()).add(extra));
            lemma_participant_step(system, after, who, extra);
        },
        Event::End { who } => {
            let pending = system.buffers[who];
            lemma_hand_over_conserves(system.sink, pending);
            lemma_extend_appends(system.sink, pending);
            assert(after.buffers[who].to_multiset() =~= Multiset::<String>::empty());
            assert(after.sink.stream().to_multiset().add(after.buffers[who].to_multiset())
                =~= stream.add(pending.to_multiset()).add(extra));
            lemma_participant_step(system, after, who, extra);
        },
        Event::Push { line } => {
            lemma_push_appends(system.sink, line);
            if system.sink.bounded() {
                lemma_push_keeps_bound(system.sink, line);
            }
            assert(after.held() =~= system.held().add(extra));
        },
        Event::Drain => {
            lemma_flush_keeps_stream(system.sink);
            assert(system.sink.output.is_prefix_of(after.sink.output));
            assert(after.held() =~= system.held().add(extra));
        },
    }
}

/// A call that changes the sink and one buffer changes what the system
/// holds as it changes what the two hold together.
proof fn lemma_participant_step(system: System, after: System, who: int, extra: Multiset<String>)
    requires
        0 <= who < system.buffers.len(),
        after.buffers == system.buffers.update(who, after.buffers[who]),
        after.sink.stream().to_multiset().add(after.buffers[who].to_multiset())
            == system.sink.stream().to_multiset().add(system.buffers[who].to_multiset()).add(extra),
    ensures
        after.held() == system.held().add(extra),
{
    lemma_buffered_update(system.buffers, who, after.buffers[who]);
    lemma_exchange(
        system.sink.stream().to_multiset(),
        after.sink.stream().to_multiset(),
        buffered(system.buffers),
        buffered(after.buffers),
        system.buffers[who].to_multiset(),
        after.buffers[who].to_multiset(),
        extra,
    );
}

/// No loss and no double emission over a whole run: however the
/// participants' logs, flushes and ends are interleaved, the system
/// afterwards holds, written or waiting, exactly what it held before and
/// the logged lines, each as often as it was logged. What was written
/// stays written, fewer lines than the threshold wait in the queue, and no
/// buffer exceeds its capacity.
pub proof fn lemma_run_conserves(system: System, events: Seq<Event>)
    requires
        system.admits(events),
    ensures
        system.run(events).buffers.len() == system.buffers.len(),
        system.run(events).held() == system.held().add(lines_of(events)),
        system.sink.output.is_prefix_of(system.run(events).sink.output),
        system.sink.bounded() ==> system.run(events).sink.bounded(),
        system.within_capacity() ==> system.run(events).within_capacity(),
    decreases events.len(),
{
    if events.len() == 0 {
        assert(system.held().add(lines_of(events)) =~= system.held());
    } else {
        let before = system.run(events.drop_last());
        let last = events.last();
        assert(system.admits(events.drop_last())) by {
            assert forall|i: int| 0 <= i < events.drop_last().len() implies (
            #[trigger] events.drop_last()[i]).among(system.buffers.len()) by {
                assert(events.drop_last()[i] == events[i]);
            }
        }
        lemma_run_conserves(system, events.drop_last());
        assert(events[events.len() - 1].among(system.buffers.len()));
        lemma_step_conserves(before, last);
        assert(seq![last].drop_last() =~= Seq::<Event>::empty());
        assert(lines_of(seq![last].drop_last()) == Multiset::<String>::empty());
        assert(lines_of(events) =~= lines_of(events.drop_last()).add(lines_of(seq![last])));
        assert(system.run(events).held() =~= system.held().add(lines_of(events)));
    }
}

/// Every logged line is written exactly once in the end: when a run that
/// began with nothing held leaves nothing waiting, the lines written are
/// the lines logged, each as often as it was logged.
pub proof fn lemma_drained_run_wrote_all(system: System, events: Seq<Event>)
    requires
        system.admits(events),
        system.drained(),
        system.sink.output.len() == 0,
        system.run(events).drained(),
    ensures
        system.run(events).sink.output.to_multiset() == lines_of(events),
{
    broadcast use vstd::seq_lib::group_to_multiset_ensures;
    let end = system.run(events);
    lemma_run_conserves(system, events);
    lemma_buffered_empty(system.buffers);
    lemma_buffered_empty(end.buffers);
    assert(system.sink.stream() =~= Seq::<String>::empty());
    assert(system.sink.stream().to_multiset() =~= Multiset::<String>::empty());
    assert(end.sink.stream() =~= end.sink.output);
    assert forall|v: String| end.sink.output.to_multiset().count(v) == lines_of(events).count(v) by {
        assert(end.held().count(v) == system.held().add(lines_of(events)).count(v));
    }
    assert(end.sink.output.to_multiset() =~= lines_of(events));
}

} // verus!
