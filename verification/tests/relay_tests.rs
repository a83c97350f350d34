use aperture::headers::Header;
use aperture::relay::{
    buffered_response, is_event_stream, plan_relay, translate_headers, StreamRelay,
};

fn header(name: &str, value: &str) -> Header {
    Header::new(name.as_bytes().to_vec(), value.as_bytes().to_vec())
}

#[test]
fn event_stream_detection() {
    assert!(is_event_stream(&vec![header("content-type", "text/event-stream")]));
    assert!(is_event_stream(&vec![header(
        "Content-Type",
        "text/event-stream; charset=utf-8"
    )]));
    assert!(!is_event_stream(&vec![header("content-type", "application/json")]));
    assert!(!is_event_stream(&Vec::<Header>::new()));
}

#[test]
fn buffered_round_trip_keeps_status_and_body() {
    let plan = plan_relay(207, vec![header("content-type", "application/json")]);
    assert!(!plan.streaming);
    assert_eq!(plan.status, 207);
    let body = vec![0u8, 159, 146, 150, 255];  // arbitrary bytes, not UTF-8
    let resp = buffered_response(plan, body.clone());
    assert_eq!(resp.status, 207);
    assert_eq!(resp.body, body);
}

#[test]
fn streaming_plan_for_event_stream() {
    let plan = plan_relay(200, vec![header("content-type", "text/event-stream")]);
    assert!(plan.streaming);
    assert_eq!(plan.status, 200);
}

#[test]
fn translate_normalizes_names() {
    // the outward encoding is case-insensitive on names: uppercase is folded
    let out = translate_headers(vec![header("X-Custom-Header", "v1")]);
    assert_eq!(out.len(), 1);
    assert_eq!(out[0].name, "x-custom-header".as_bytes().to_vec());
    assert_eq!(out[0].value, "v1".as_bytes().to_vec());
}

#[test]
fn translate_drops_unrepresentable_entries() {
    let out = translate_headers(vec![
        header("good", "kept"),
        header("bad name", "dropped"),      // space is not a token byte
        header("bad-value", "a\nb"),        // newline cannot stand in a value
        header("", "dropped"),              // empty names are refused
        header("also-good", "kept too"),
    ]);
    assert_eq!(out.len(), 2);
    assert_eq!(out[0].name, "good".as_bytes().to_vec());
    assert_eq!(out[1].name, "also-good".as_bytes().to_vec());
}

#[test]
fn three_chunks_arrive_in_order() {
    let chunks = vec![
        "data: one\n\n".as_bytes().to_vec(),
        "data: two\n\n".as_bytes().to_vec(),
        "data: three\n\n".as_bytes().to_vec(),
    ];
    let out = StreamRelay::relay_all(chunks.clone());
    assert_eq!(out, chunks);
}

#[test]
fn stream_relay_counts_every_byte() {
    let mut relay = StreamRelay::new();
    assert_eq!(relay.total, 0);
    let first = relay.on_chunk(vec![1, 2, 3]);
    assert_eq!(first, vec![1, 2, 3]);
    let second = relay.on_chunk(Vec::new());
    assert_eq!(second, Vec::<u8>::new());
    let third = relay.on_chunk(vec![4, 5]);
    assert_eq!(third, vec![4, 5]);
    assert_eq!(relay.total, 5);
}
