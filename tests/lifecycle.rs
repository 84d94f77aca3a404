use actix_web_metrics::lifecycle::{Effect, Event, GaugeChange, Lifecycle, Phase};

fn run(events: &[Event]) -> (Lifecycle, i64, usize) {
    let mut l = Lifecycle::new();
    let mut net: i64 = 0;
    let mut finals = 0;
    for e in events {
        let effect: Effect = l.step(*e);
        match effect.gauge {
            GaugeChange::Increment => net += 1,
            GaugeChange::Decrement => net -= 1,
            GaugeChange::Unchanged => {}
        }
        if effect.finalize {
            finals += 1;
        }
    }
    (l, net, finals)
}

#[test]
fn handler_failure_still_decrements() {
    let (l, net, finals) = run(&[Event::RequestReceived, Event::HandlerFailed]);
    assert_eq!(l.phase, Phase::Completed);
    assert_eq!(net, 0);
    assert_eq!(finals, 0);
}

#[test]
fn drained_then_dropped_body_completes_once() {
    let (l, net, finals) = run(&[
        Event::RequestReceived,
        Event::ResponseReady,
        Event::Chunk(4),
        Event::BodyEnded,
        Event::Dropped,
        Event::BodyEnded,
    ]);
    assert_eq!(l.phase, Phase::Completed);
    assert_eq!(net, 0);
    assert_eq!(finals, 1);
}

#[test]
fn dropped_future_before_response_decrements() {
    let (l, net, finals) = run(&[Event::RequestReceived, Event::Dropped]);
    assert_eq!(l.phase, Phase::Completed);
    assert_eq!(net, 0);
    assert_eq!(finals, 0);
}

#[test]
fn in_flight_request_holds_one_unit() {
    let (l, net, _) = run(&[Event::RequestReceived, Event::ResponseReady, Event::Chunk(1)]);
    assert_eq!(l.phase, Phase::BodyStreaming);
    assert_eq!(net, 1);
}

#[test]
fn many_requests_return_the_gauge_to_baseline() {
    let mut total: i64 = 0;
    for k in 0..10usize {
        let events: Vec<Event> = if k % 3 == 0 {
            vec![Event::RequestReceived, Event::HandlerFailed]
        } else if k % 3 == 1 {
            vec![Event::RequestReceived, Event::ResponseReady, Event::Chunk(k), Event::BodyEnded]
        } else {
            vec![Event::RequestReceived, Event::ResponseReady, Event::Dropped, Event::Dropped]
        };
        total += run(&events).1;
    }
    assert_eq!(total, 0);
}

#[test]
fn empty_body_counts_zero_bytes() {
    let (l, _, _) = run(&[Event::RequestReceived, Event::ResponseReady, Event::BodyEnded]);
    assert_eq!(l.response_size, 0);
}

#[test]
fn single_chunk_body_counts_its_bytes() {
    let (l, _, _) = run(&[Event::RequestReceived, Event::ResponseReady, Event::Chunk(13), Event::BodyEnded]);
    assert_eq!(l.response_size, 13);
}

#[test]
fn multi_chunk_body_counts_all_bytes() {
    let (l, _, _) = run(&[
        Event::RequestReceived,
        Event::ResponseReady,
        Event::Chunk(5),
        Event::Chunk(0),
        Event::Chunk(1024),
        Event::Chunk(7),
        Event::BodyEnded,
        Event::Chunk(100),
    ]);
    assert_eq!(l.response_size, 1036);
}

#[test]
fn response_size_saturates() {
    let (l, _, _) = run(&[Event::RequestReceived, Event::ResponseReady, Event::Chunk(usize::MAX), Event::Chunk(2)]);
    assert_eq!(l.response_size, usize::MAX);
}

#[test]
fn events_out_of_order_change_nothing() {
    let (l, net, finals) = run(&[Event::Chunk(3), Event::ResponseReady, Event::BodyEnded]);
    assert_eq!(l.phase, Phase::Idle);
    assert_eq!(l.response_size, 0);
    assert_eq!(net, 0);
    assert_eq!(finals, 0);
}
