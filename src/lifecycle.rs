//! The accounting lifecycle of one request.
//!
//! `Idle -> ActiveCounted -> BodyStreaming -> Completed`: the active-request
//! gauge goes up when the request arrives and down exactly once, on the single
//! transition into `Completed`, whichever way the request ends (handler error,
//! body drained, body dropped). Response bytes are counted while streaming.

use vstd::prelude::*;

verus! {

/// Where a request stands in its lifecycle.
#[derive(Debug, Clone, Copy, PartialEq, Eq, Structural)]
pub enum Phase {
    Idle,
    ActiveCounted,
    BodyStreaming,
    Completed,
}

/// What the host reports about a request.
#[derive(Debug, Clone, Copy, PartialEq, Eq, Structural)]
pub enum Event {
    /// The request reached the middleware, before the inner handler runs.
    RequestReceived,
    /// The inner handler produced a response.
    ResponseReady,
    /// The inner handler failed before producing a response.
    HandlerFailed,
    /// The response body emitted a chunk of this many bytes.
    Chunk(usize),
    /// The response body is exhausted.
    BodyEnded,
    /// The request's future or body was dropped.
    Dropped,
}

/// The change that a step makes to the active-request gauge.
#[derive(Debug, Clone, Copy, PartialEq, Eq, Structural)]
pub enum GaugeChange {
    Unchanged,
    Increment,
    Decrement,
}

/// What the host must do after a step.
#[derive(Debug, Clone, Copy, PartialEq, Eq, Structural)]
pub struct Effect {
    pub gauge: GaugeChange,
    /// Resolve the route label and emit the duration and size observations,
    /// subject to the exclusion rules.
    pub finalize: bool,
}

/// The lifecycle state of one request.
#[derive(Debug, Clone, Copy, PartialEq, Eq, Structural)]
pub struct Lifecycle {
    pub phase: Phase,
    /// Response bytes seen so far.
    pub response_size: usize,
}

pub open spec fn no_effect() -> Effect {
    Effect { gauge: GaugeChange::Unchanged, finalize: false }
}

/// The lifecycle of a request that has not arrived yet.
pub open spec fn idle() -> Lifecycle {
    Lifecycle { phase: Phase::Idle, response_size: 0 }
}

/// The response size after a chunk of `n` bytes; it saturates at the largest
/// `usize`.
pub open spec fn add_bytes(size: usize, n: usize) -> usize {
    if size + n <= usize::MAX {
        (size + n) as usize
    } else {
        usize::MAX
    }
}

/// One step of the lifecycle: the next state and the effect. An event that
/// does not fit the current phase changes nothing.
pub open spec fn step_spec(s: Lifecycle, e: Event) -> (Lifecycle, Effect) {
    match s.phase {
        Phase::Idle => match e {
            Event::RequestReceived => (
                Lifecycle { phase: Phase::ActiveCounted, response_size: 0 },
                Effect { gauge: GaugeChange::Increment, finalize: false },
            ),
            _ => (s, no_effect()),
        },
        Phase::ActiveCounted => match e {
            Event::ResponseReady => (Lifecycle { phase: Phase::BodyStreaming, ..s }, no_effect()),
            Event::HandlerFailed | Event::Dropped => (
                Lifecycle { phase: Phase::Completed, ..s },
                Effect { gauge: GaugeChange::Decrement, finalize: false },
            ),
            _ => (s, no_effect()),
        },
        Phase::BodyStreaming => match e {
            Event::Chunk(n) => (
                Lifecycle { response_size: add_bytes(s.response_size, n), ..s },
                no_effect(),
            ),
            Event::BodyEnded | Event::Dropped => (
                Lifecycle { phase: Phase::Completed, ..s },
                Effect { gauge: GaugeChange::Decrement, finalize: true },
            ),
            _ => (s, no_effect()),
        },
        Phase::Completed => (s, no_effect()),
    }
}

/// The state after a sequence of events.
pub open spec fn run(s: Lifecycle, events: Seq<Event>) -> Lifecycle
    decreases events.len(),
{
    if events.len() == 0 {
        s
    } else {
        run(step_spec(s, events[0]).0, events.drop_first())
    }
}

pub open spec fn gauge_delta(g: GaugeChange) -> int {
    match g {
        GaugeChange::Unchanged => 0,
        GaugeChange::Increment => 1,
        GaugeChange::Decrement => -1,
    }
}

/// The net change of the active-request gauge over a sequence of events.
pub open spec fn gauge_net(s: Lifecycle, events: Seq<Event>) -> int
    decreases events.len(),
{
    if events.len() == 0 {
        0
    } else {
        gauge_delta(step_spec(s, events[0]).1.gauge) + gauge_net(
            step_spec(s, events[0]).0,
            events.drop_first(),
        )
    }
}

/// How many times the observations are finalized over a sequence of events.
pub open spec fn finalizations(s: Lifecycle, events: Seq<Event>) -> nat
    decreases events.len(),
{
    if events.len() == 0 {
        0
    } else {
        (if step_spec(s, events[0]).1.finalize {
            1nat
        } else {
            0nat
        }) + finalizations(step_spec(s, events[0]).0, events.drop_first())
    }
}

/// Whether the request holds a unit of the active-request gauge.
pub open spec fn in_flight(p: Phase) -> bool {
    p == Phase::ActiveCounted || p == Phase::BodyStreaming
}

pub open spec fn held(p: Phase) -> int {
    if in_flight(p) {
        1
    } else {
        0
    }
}

impl Lifecycle {
    /// A request that has not reached the middleware yet.
    pub fn new() -> (r: Self)
        ensures
            r == idle(),
    {
        Lifecycle { phase: Phase::Idle, response_size: 0 }
    }

    /// Applies one event, and says what the host must do.
    pub fn step(&mut self, event: Event) -> (r: Effect)
        ensures
            (*final(self), r) == step_spec(*old(self), event),
    {
        let none = Effect { gauge: GaugeChange::Unchanged, finalize: false };
        match self.phase {
            Phase::Idle => match event {
                Event::RequestReceived => {
                    self.phase = Phase::ActiveCounted;
                    self.response_size = 0;
                    Effect { gauge: GaugeChange::Increment, finalize: false }
                },
                _ => none,
            },
            Phase::ActiveCounted => match event {
                Event::ResponseReady => {
                    self.phase = Phase::BodyStreaming;
                    none
                },
                Event::HandlerFailed | Event::Dropped => {
                    self.phase = Phase::Completed;
                    Effect { gauge: GaugeChange::Decrement, finalize: false }
                },
                _ => none,
            },
            Phase::BodyStreaming => match event {
                Event::Chunk(n) => {
                    self.response_size = self.response_size.saturating_add(n);
                    none
                },
                Event::BodyEnded | Event::Dropped => {
                    self.phase = Phase::Completed;
                    Effect { gauge: GaugeChange::Decrement, finalize: true }
                },
                _ => none,
            },
            Phase::Completed => none,
        }
    }
}

/// Over any events, the gauge moves by what the request holds at the end less
/// what it held at the start, and the observations are finalized at most once
/// (never, once completed).
pub proof fn gauge_follows_phase(s: Lifecycle, events: Seq<Event>)
    ensures
        gauge_net(s, events) == held(run(s, events).phase) - held(s.phase),
        finalizations(s, events) <= 1,
        s.phase == Phase::Completed ==> finalizations(s, events) == 0,
        s.phase == Phase::Completed ==> run(s, events).phase == Phase::Completed,
    decreases events.len(),
{
    if events.len() > 0 {
        gauge_follows_phase(step_spec(s, events[0]).0, events.drop_first());
    }
}

/// Every request increments the active-request gauge at most once, and once it
/// is no longer in flight (completed, whatever the way, or never arrived) its
/// increments and decrements balance.
pub proof fn active_gauge_balances(events: Seq<Event>)
    ensures
        !in_flight(run(idle(), events).phase) ==> gauge_net(idle(), events) == 0,
        0 <= gauge_net(idle(), events) <= 1,
        finalizations(idle(), events) <= 1,
{
    gauge_follows_phase(idle(), events);
}

/// The net gauge change of many requests, each with its own events.
pub open spec fn total_gauge_net(requests: Seq<Seq<Event>>) -> int
    decreases requests.len(),
{
    if requests.len() == 0 {
        0
    } else {
        gauge_net(idle(), requests[0]) + total_gauge_net(requests.drop_first())
    }
}

/// System-wide: once no request is in flight, the active-request gauge is back
/// at its baseline.
pub proof fn all_requests_done_gauge_at_baseline(requests: Seq<Seq<Event>>)
    requires
        forall|i: int| 0 <= i < requests.len() ==> !in_flight(#[trigger] run(idle(), requests[i]).phase),
    ensures
        total_gauge_net(requests) == 0,
    decreases requests.len(),
{
    if requests.len() > 0 {
        assert(!in_flight(run(idle(), requests[0]).phase));
        active_gauge_balances(requests[0]);
        let rest = requests.drop_first();
        assert forall|i: int| 0 <= i < rest.len() implies !in_flight(#[trigger] run(idle(), rest[i]).phase) by {
            assert(rest[i] == requests[i + 1]);
        }
        all_requests_done_gauge_at_baseline(rest);
    }
}

/// The sum of chunk lengths.
pub open spec fn byte_total(chunks: Seq<usize>) -> nat
    decreases chunks.len(),
{
    if chunks.len() == 0 {
        0
    } else {
        (chunks[0] + byte_total(chunks.drop_first())) as nat
    }
}

/// The events of a body that emits these chunks.
pub open spec fn chunk_events(chunks: Seq<usize>) -> Seq<Event> {
    Seq::new(chunks.len(), |i: int| Event::Chunk(chunks[i]))
}

/// While streaming, the response size grows by exactly the bytes of each
/// emitted chunk, as long as the total fits in a `usize`.
pub proof fn response_size_adds_chunks(s: Lifecycle, chunks: Seq<usize>)
    requires
        s.phase == Phase::BodyStreaming,
        s.response_size + byte_total(chunks) <= usize::MAX,
    ensures
        run(s, chunk_events(chunks)).phase == Phase::BodyStreaming,
        run(s, chunk_events(chunks)).response_size == s.response_size + byte_total(chunks),
    decreases chunks.len(),
{
    if chunks.len() > 0 {
        let next = step_spec(s, Event::Chunk(chunks[0])).0;
        assert(chunk_events(chunks).drop_first() =~= chunk_events(chunks.drop_first()));
        response_size_adds_chunks(next, chunks.drop_first());
    }
}

/// A body drained to the end: the response size recorded at completion is the
/// exact byte count of the chunks it emitted (empty, one or many).
pub proof fn response_size_is_body_length(chunks: Seq<usize>)
    requires
        byte_total(chunks) <= usize::MAX,
    ensures
        ({
            let streaming = Lifecycle { phase: Phase::BodyStreaming, response_size: 0 };
            let events = chunk_events(chunks).push(Event::BodyEnded);
            &&& run(streaming, events).phase == Phase::Completed
            &&& run(streaming, events).response_size == byte_total(chunks)
        }),
{
    let streaming = Lifecycle { phase: Phase::BodyStreaming, response_size: 0 };
    response_size_adds_chunks(streaming, chunks);
    run_append(streaming, chunk_events(chunks), seq![Event::BodyEnded]);
    let mid = run(streaming, chunk_events(chunks));
    let end = seq![Event::BodyEnded];
    assert(end.drop_first() =~= Seq::<Event>::empty());
    assert(run(step_spec(mid, Event::BodyEnded).0, end.drop_first()) == step_spec(mid, Event::BodyEnded).0);
    assert(run(mid, end) == step_spec(mid, Event::BodyEnded).0);
    assert(chunk_events(chunks) + seq![Event::BodyEnded] =~= chunk_events(chunks).push(Event::BodyEnded));
}

/// Running two sequences of events one after the other.
pub proof fn run_append(s: Lifecycle, a: Seq<Event>, b: Seq<Event>)
    ensures
        run(s, a + b) == run(run(s, a), b),
    decreases a.len(),
{
    if a.len() > 0 {
        assert((a + b).drop_first() =~= a.drop_first() + b);
        run_append(step_spec(s, a[0]).0, a.drop_first(), b);
    } else {
        assert(a + b =~= b);
    }
}

} // verus!
