use chat_worker::fetch::Fetch;

#[test]
fn single_flight_discards_superseded_result() {
    // Request flight one, start it, then request flight two before any
    // result arrives: of the two results, delivered in completion order,
    // exactly one is surfaced and it is flight two's.
    let mut fetch: Fetch<u32> = Fetch::new();
    fetch.request();
    assert!(fetch.start());
    let first_flight = fetch.sender();
    fetch.request();
    assert!(fetch.start());
    let second_flight = fetch.sender();

    first_flight.send(111).unwrap();
    second_flight.send(222).unwrap();

    let first_surfaced = fetch.receive();
    let second_surfaced = fetch.receive();
    assert_eq!(first_surfaced, None);
    assert_eq!(second_surfaced, Some(222));
    assert_eq!(fetch.staged, 2);
    assert_eq!(fetch.received, 2);
    assert!(!fetch.is_in_progress());
}

#[test]
fn last_of_three_overlapping_flights_wins() {
    let mut fetch: Fetch<&str> = Fetch::new();
    for _ in 0..3 {
        fetch.request();
        assert!(fetch.start());
    }
    fetch.sender().send("first").unwrap();
    fetch.sender().send("second").unwrap();
    fetch.sender().send("third").unwrap();
    assert_eq!(fetch.receive(), None);
    assert_eq!(fetch.receive(), None);
    assert_eq!(fetch.receive(), Some("third"));
    assert_eq!(fetch.receive(), None);
}

#[test]
fn lone_flight_result_is_surfaced() {
    let mut fetch: Fetch<u32> = Fetch::new();
    fetch.request();
    assert!(fetch.is_requested());
    assert!(fetch.start());
    assert!(fetch.is_in_progress());
    fetch.sender().send(5).unwrap();
    assert_eq!(fetch.receive(), Some(5));
    assert!(!fetch.is_in_progress());
}

#[test]
fn start_without_request_launches_nothing() {
    let mut fetch: Fetch<u32> = Fetch::new();
    assert!(!fetch.start());
    assert_eq!(fetch.staged, 0);
}

#[test]
fn receive_without_flight_consumes_nothing() {
    let mut fetch: Fetch<u32> = Fetch::new();
    assert_eq!(fetch.receive(), None);
    // A pending request also blocks receiving, even with a value waiting.
    fetch.request();
    fetch.sender().send(9).unwrap();
    assert_eq!(fetch.receive(), None);
    assert_eq!(fetch.received, 0);
    // Once the flight is started, the waiting value is its result.
    assert!(fetch.start());
    assert_eq!(fetch.receive(), Some(9));
}

#[test]
fn empty_channel_yields_nothing() {
    let mut fetch: Fetch<u32> = Fetch::new();
    fetch.request();
    assert!(fetch.start());
    assert_eq!(fetch.receive(), None);
    assert!(fetch.is_in_progress());
    assert_eq!(fetch.received, 0);
}
