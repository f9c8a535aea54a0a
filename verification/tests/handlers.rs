use simple_http3::dispatch::RequestHead;
use simple_http3::handlers::{
    api_info, counter_line, counter_stream, health, index, time_event, time_stamp, time_stream,
    HandlerError, COUNTER_INTERVAL_MS, COUNTER_LINES, DONE_EVENT, TIME_EVENTS, TIME_FORMAT,
    TIME_INTERVAL_MS,
};
use simple_http3::response::{ResponseHead, ResponseOp};

fn request(path: &str) -> RequestHead {
    RequestHead { method: "GET".to_string(), path: path.to_string(), protocol: None }
}

fn header(name: &str, value: &str) -> (String, String) {
    (name.to_string(), value.to_string())
}

#[test]
fn index_greets() {
    let response = index(&request("/"));
    assert_eq!(response.body, "Hello from HTTP/3!");
    assert_eq!(response.content_type, "text/plain");
}

#[test]
fn health_reports_healthy() {
    let response = health(&request("/health"));
    assert_eq!(response.body, "{\"status\": \"healthy\", \"protocol\": \"h3\"}");
    assert_eq!(response.content_type, "application/json");
}

#[test]
fn api_info_lists_the_endpoints() {
    let response = api_info(&request("/api/info"));
    assert_eq!(
        response.body,
        "{\"name\": \"simple-http3\", \"version\": \"0.1.0\", \"endpoints\": [\"/\", \"/health\", \"/api/info\", \"/stream/time\", \"/stream/counter\"]}"
    );
    assert_eq!(response.content_type, "application/json");
}

#[test]
fn stream_constants() {
    assert_eq!(TIME_EVENTS, 5);
    assert_eq!(TIME_INTERVAL_MS, 1000);
    assert_eq!(COUNTER_LINES, 10);
    assert_eq!(COUNTER_INTERVAL_MS, 500);
    assert_eq!(TIME_FORMAT, "%Y-%m-%d %H:%M:%S UTC");
    assert_eq!(DONE_EVENT, "event: done\ndata: stream complete\n\n");
}

#[test]
fn time_event_has_data_and_id() {
    assert_eq!(
        time_event("2015-05-15 00:00:00 UTC", 1),
        "event: time\ndata: 2015-05-15 00:00:00 UTC\nid: 1\n\n"
    );
    assert_eq!(time_event("", 0), "event: time\ndata: \nid: 0\n\n");
    assert_eq!(time_event("now", 18446744073709551615), "event: time\ndata: now\nid: 18446744073709551615\n\n");
}

#[test]
fn counter_line_is_json_with_a_line_feed() {
    assert_eq!(counter_line(1, 1700000000), "{\"count\": 1, \"timestamp\": 1700000000}\n");
    assert_eq!(counter_line(10, 0), "{\"count\": 10, \"timestamp\": 0}\n");
    assert_eq!(counter_line(7, -1), "{\"count\": 7, \"timestamp\": -1}\n");
    assert_eq!(
        counter_line(0, i64::MIN),
        "{\"count\": 0, \"timestamp\": -9223372036854775808}\n"
    );
    assert_eq!(
        counter_line(100, i64::MAX),
        "{\"count\": 100, \"timestamp\": 9223372036854775807}\n"
    );
}

#[test]
fn time_stamp_follows_the_pattern() {
    assert_eq!(time_stamp(1431648000), Some("2015-05-15 00:00:00 UTC".to_string()));
    assert_eq!(time_stamp(0), Some("1970-01-01 00:00:00 UTC".to_string()));
    assert_eq!(time_stamp(-1), Some("1969-12-31 23:59:59 UTC".to_string()));
    assert_eq!(time_stamp(1700000000), Some("2023-11-14 22:13:20 UTC".to_string()));
}

#[test]
fn time_stamp_out_of_range_is_none() {
    assert_eq!(time_stamp(i64::MAX), None);
    assert_eq!(time_stamp(i64::MIN), None);
}

#[test]
fn time_stream_sends_five_events_then_done() {
    let mut stream = time_stream(&request("/stream/time"));
    let mut ops = Vec::new();
    let mut tick = 0;
    loop {
        let stamp = format!("t{}", tick);
        match stream.next_with(&stamp) {
            Some(op) => ops.push(op),
            None => break,
        }
        tick += 1;
    }
    assert_eq!(
        ops,
        vec![
            ResponseOp::Head(ResponseHead {
                status: 200,
                headers: vec![
                    header("content-type", "text/event-stream"),
                    header("cache-control", "no-cache"),
                ],
            }),
            ResponseOp::Data("event: time\ndata: t1\nid: 1\n\n".to_string()),
            ResponseOp::Sleep(1000),
            ResponseOp::Data("event: time\ndata: t3\nid: 2\n\n".to_string()),
            ResponseOp::Sleep(1000),
            ResponseOp::Data("event: time\ndata: t5\nid: 3\n\n".to_string()),
            ResponseOp::Sleep(1000),
            ResponseOp::Data("event: time\ndata: t7\nid: 4\n\n".to_string()),
            ResponseOp::Sleep(1000),
            ResponseOp::Data("event: time\ndata: t9\nid: 5\n\n".to_string()),
            ResponseOp::Data("event: done\ndata: stream complete\n\n".to_string()),
            ResponseOp::Finish,
        ]
    );
    assert_eq!(stream.next_with("later"), None);
    assert_eq!(stream.next_with("later"), None);
    assert_eq!(stream.position, 12);
}

#[test]
fn time_stream_asks_for_the_time_at_events_only() {
    let mut stream = time_stream(&request("/stream/time"));
    let mut wanted = Vec::new();
    for _ in 0..14 {
        wanted.push(stream.wants_time());
        stream.next_with("t");
    }
    assert_eq!(
        wanted,
        vec![
            false, true, false, true, false, true, false, true, false, true, false, false, false,
            false
        ]
    );
}

#[test]
fn time_stream_with_the_clock() {
    let mut stream = time_stream(&request("/stream/time"));
    let mut events = 0;
    let mut sleeps = 0;
    let mut steps = 0;
    let mut last = None;
    while let Ok(Some(op)) = stream.next() {
        steps += 1;
        match &op {
            ResponseOp::Data(frame) if frame.starts_with("event: time\n") => {
                events += 1;
                let expected_id = format!("\nid: {}\n\n", events);
                assert!(frame.ends_with(&expected_id));
                let stamp = &frame["event: time\ndata: ".len()..frame.len() - expected_id.len()];
                assert_eq!(stamp.len(), 23);
                assert!(stamp.ends_with(" UTC"));
            }
            ResponseOp::Sleep(millis) => {
                assert_eq!(*millis, 1000);
                sleeps += 1;
            }
            _ => {}
        }
        last = Some(op);
    }
    assert_eq!(steps, 12);
    assert_eq!(events, 5);
    assert_eq!(sleeps, 4);
    assert_eq!(last, Some(ResponseOp::Finish));
    assert_eq!(stream.next(), Ok(None));
    assert_eq!(HandlerError::Clock, HandlerError::Clock);
}

#[test]
fn counter_stream_sends_ten_lines() {
    let mut stream = counter_stream(&request("/stream/counter"));
    let mut ops = Vec::new();
    let mut now = 1700000000;
    while let Some(op) = stream.next_with(now) {
        ops.push(op);
        now += 1;
    }
    assert_eq!(ops.len(), 21);
    assert_eq!(
        ops[0],
        ResponseOp::Head(ResponseHead {
            status: 200,
            headers: vec![header("content-type", "application/x-ndjson")],
        })
    );
    for count in 1..=10usize {
        let timestamp = 1700000000 + 2 * count as i64 - 1;
        assert_eq!(
            ops[2 * count - 1],
            ResponseOp::Data(format!("{{\"count\": {}, \"timestamp\": {}}}\n", count, timestamp))
        );
        if count < 10 {
            assert_eq!(ops[2 * count], ResponseOp::Sleep(500));
        }
    }
    assert_eq!(ops[20], ResponseOp::Finish);
    assert_eq!(stream.next_with(now), None);
    assert_eq!(stream.position, 21);
}

#[test]
fn counter_stream_with_the_clock() {
    let mut stream = counter_stream(&request("/stream/counter"));
    let mut counts = Vec::new();
    let mut stamps = Vec::new();
    let mut steps = 0;
    while let Some(op) = stream.next() {
        steps += 1;
        if let ResponseOp::Data(line) = op {
            assert!(line.ends_with("}\n"));
            let inner = &line["{\"count\": ".len()..line.len() - 2];
            let parts: Vec<&str> = inner.split(", \"timestamp\": ").collect();
            assert_eq!(parts.len(), 2);
            counts.push(parts[0].parse::<u64>().unwrap());
            stamps.push(parts[1].parse::<i64>().unwrap());
        }
    }
    assert_eq!(steps, 21);
    assert_eq!(counts, vec![1, 2, 3, 4, 5, 6, 7, 8, 9, 10]);
    assert!(stamps.iter().all(|stamp| *stamp > 1_600_000_000));
    assert!(stamps.windows(2).all(|pair| pair[0] <= pair[1]));
    assert_eq!(stream.next(), None);
}

#[test]
fn time_stream_at_a_given_moment() {
    let mut stream = time_stream(&request("/stream/time"));
    let mut ops = Vec::new();
    let mut secs = 1431648000;
    while let Ok(Some(op)) = stream.next_at(secs) {
        ops.push(op);
        secs += 1;
    }
    assert_eq!(ops.len(), 12);
    assert_eq!(
        ops[1],
        ResponseOp::Data("event: time\ndata: 2015-05-15 00:00:01 UTC\nid: 1\n\n".to_string())
    );
    assert_eq!(ops[2], ResponseOp::Sleep(1000));
    assert_eq!(
        ops[9],
        ResponseOp::Data("event: time\ndata: 2015-05-15 00:00:09 UTC\nid: 5\n\n".to_string())
    );
    assert_eq!(
        ops[10],
        ResponseOp::Data("event: done\ndata: stream complete\n\n".to_string())
    );
    assert_eq!(ops[11], ResponseOp::Finish);
    assert_eq!(stream.next_at(secs), Ok(None));
    assert_eq!(stream.position, 12);
}

#[test]
fn time_stream_fails_only_where_the_moment_cannot_be_written() {
    let mut stream = time_stream(&request("/stream/time"));
    assert!(matches!(stream.next_at(i64::MAX), Ok(Some(ResponseOp::Head(_)))));
    assert_eq!(stream.position, 1);
    assert_eq!(stream.next_at(i64::MAX), Err(HandlerError::Clock));
    assert_eq!(stream.position, 1);
    assert_eq!(stream.next_at(i64::MIN), Err(HandlerError::Clock));
    assert_eq!(stream.position, 1);
    assert_eq!(
        stream.next_at(0),
        Ok(Some(ResponseOp::Data(
            "event: time\ndata: 1970-01-01 00:00:00 UTC\nid: 1\n\n".to_string()
        )))
    );
    assert_eq!(stream.position, 2);
    assert_eq!(stream.next_at(i64::MAX), Ok(Some(ResponseOp::Sleep(1000))));
    assert_eq!(stream.position, 3);
}
