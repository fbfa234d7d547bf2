use vstd::prelude::*;

verus! {

// The output-buffering protocol, modeled on sequences. The translation of `.`
// appends one byte to the I/O buffer and flushes when the buffer is full; the
// entry function ends with one unconditional flush. This module states the
// protocol's defining law: where the flushes fall can never change the bytes
// the host receives.

/// One step of the protocol: a byte appended to the buffer, or a flush.
pub enum OutEvent {
    Emit(u8),
    Flush,
}

/// The observable state of the protocol: the bytes the host has received so
/// far, and the bytes still sitting in the buffer.
pub struct OutState {
    pub written: Seq<u8>,
    pub buffered: Seq<u8>,
}

/// The state with nothing written and the buffer empty, as the prologue
/// establishes it.
pub open spec fn out_init() -> OutState {
    OutState { written: Seq::empty(), buffered: Seq::empty() }
}

/// How one event changes the state: an emitted byte accumulates in the
/// buffer; a flush hands the whole buffer to the host, in order, and resets
/// the buffer to empty.
pub open spec fn out_step(s: OutState, e: OutEvent) -> OutState {
    match e {
        OutEvent::Emit(b) => OutState { written: s.written, buffered: s.buffered.push(b) },
        OutEvent::Flush => OutState { written: s.written + s.buffered, buffered: Seq::empty() },
    }
}

/// The state after a whole sequence of events.
pub open spec fn out_run(s: OutState, events: Seq<OutEvent>) -> OutState
    decreases events.len(),
{
    if events.len() == 0 {
        s
    } else {
        out_step(out_run(s, events.drop_last()), events.last())
    }
}

/// The bytes the events emit, flushes ignored: what an unbuffered reference
/// implementation would hand the host directly.
pub open spec fn emitted(events: Seq<OutEvent>) -> Seq<u8>
    decreases events.len(),
{
    if events.len() == 0 {
        Seq::empty()
    } else {
        emitted(events.drop_last()) + match events.last() {
            OutEvent::Emit(b) => seq![b],
            OutEvent::Flush => Seq::empty(),
        }
    }
}

/// Law: flush points are invisible. However the flushes fall among the
/// emitted bytes, what the host has received followed by what is still
/// buffered is exactly what was emitted.
pub proof fn lemma_flushing_is_invisible(s: OutState, events: Seq<OutEvent>)
    ensures
        out_run(s, events).written + out_run(s, events).buffered == (s.written + s.buffered)
            + emitted(events),
    decreases events.len(),
{
    if events.len() == 0 {
        assert(out_run(s, events).written + out_run(s, events).buffered =~= (s.written
            + s.buffered) + emitted(events));
    } else {
        lemma_flushing_is_invisible(s, events.drop_last());
        let prev = out_run(s, events.drop_last());
        match events.last() {
            OutEvent::Emit(b) => {
                assert(out_run(s, events).written + out_run(s, events).buffered =~= (prev.written
                    + prev.buffered).push(b));
                assert((s.written + s.buffered) + emitted(events) =~= ((s.written + s.buffered)
                    + emitted(events.drop_last())).push(b));
            },
            OutEvent::Flush => {
                assert(out_run(s, events).written + out_run(s, events).buffered =~= prev.written
                    + prev.buffered);
                assert((s.written + s.buffered) + emitted(events) =~= (s.written + s.buffered)
                    + emitted(events.drop_last()));
            },
        }
    }
}

/// Corollary: after the final unconditional flush, the host has received
/// exactly the emitted bytes — buffering changes nothing an observer can see.
pub proof fn lemma_final_flush_writes_everything(events: Seq<OutEvent>)
    ensures
        out_run(out_init(), events.push(OutEvent::Flush)).written == emitted(events),
{
    let all = events.push(OutEvent::Flush);
    lemma_flushing_is_invisible(out_init(), all);
    assert(all.drop_last() =~= events);
    assert(out_run(out_init(), all).buffered =~= Seq::<u8>::empty());
    assert(emitted(all) =~= emitted(events));
    assert(out_run(out_init(), all).written =~= out_run(out_init(), all).written + out_run(
        out_init(),
        all,
    ).buffered);
    assert((out_init().written + out_init().buffered) + emitted(all) =~= emitted(events));
}

} // verus!
