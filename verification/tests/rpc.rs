use totem_studio::rpc::{request_step, RecvEvent, RequestIdCounter, Response, Step};

/// Drive the correlation rules over a fixed run of events, the way the
/// receive loop does, and return the first verdict that ends the exchange.
fn run_exchange(request_id: u32, events: Vec<RecvEvent>) -> Option<Result<Vec<u8>, String>> {
    for ev in events {
        match request_step(request_id, ev) {
            Step::Continue => continue,
            Step::Done(res) => return Some(res),
        }
    }
    None
}

#[test]
fn notifications_are_invisible_to_the_caller() {
    // Two notifications arrive before the correlated reply; the caller sees
    // only the matching response.
    let events = vec![
        RecvEvent::Frame(Response::Notification(vec![1, 2])),
        RecvEvent::Frame(Response::Notification(vec![3])),
        RecvEvent::Frame(Response::RequestResponse { request_id: 7, payload: vec![9, 9] }),
    ];
    assert_eq!(run_exchange(7, events), Some(Ok(vec![9, 9])));
}

#[test]
fn unmatched_reply_is_discarded() {
    let events = vec![
        RecvEvent::Frame(Response::RequestResponse { request_id: 6, payload: vec![1] }),
        RecvEvent::Frame(Response::RequestResponse { request_id: 7, payload: vec![2] }),
    ];
    assert_eq!(run_exchange(7, events), Some(Ok(vec![2])));
}

#[test]
fn empty_response_frames_are_skipped() {
    let events = vec![
        RecvEvent::Frame(Response::Empty),
        RecvEvent::Frame(Response::RequestResponse { request_id: 1, payload: vec![] }),
    ];
    assert_eq!(run_exchange(1, events), Some(Ok(vec![])));
}

#[test]
fn wait_timeout_ends_with_timeout_error() {
    // A transport that never delivers the matching reply: the bounded wait
    // expires and the exchange ends with a timeout error instead of blocking.
    let events = vec![
        RecvEvent::Frame(Response::Notification(vec![0])),
        RecvEvent::WaitTimedOut,
    ];
    assert_eq!(run_exchange(7, events), Some(Err("Receive timed out".to_string())));
}

#[test]
fn deadline_ends_with_timeout_error() {
    let events = vec![RecvEvent::DeadlineElapsed];
    assert_eq!(run_exchange(7, events), Some(Err("Request timed out".to_string())));
}

#[test]
fn transport_failure_is_surfaced() {
    let events = vec![RecvEvent::TransportFailed("USB serial connection closed".to_string())];
    assert_eq!(
        run_exchange(7, events),
        Some(Err("Receive error: USB serial connection closed".to_string()))
    );
}

#[test]
fn decode_failure_is_surfaced() {
    let events = vec![RecvEvent::DecodeFailed("unexpected wire type".to_string())];
    assert_eq!(
        run_exchange(7, events),
        Some(Err("Decode error: unexpected wire type".to_string()))
    );
}

#[test]
fn request_ids_start_at_one_and_increase() {
    let mut counter = RequestIdCounter::new();
    assert_eq!(counter.allocate(), 1);
    assert_eq!(counter.allocate(), 2);
    assert_eq!(counter.allocate(), 3);
}
