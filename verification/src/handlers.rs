//! The handlers of the demonstration server: three REST endpoints and two
//! streaming endpoints.
//!
//! A streaming handler owns its stream. Here it is a cursor over the steps
//! of its response; whoever holds the stream asks for the next step,
//! carries it out, and stops at the first failure or when no step is left.

use crate::clock::{format_utc, utc_now_secs, utc_text};
use crate::dispatch::RequestHead;
use crate::response::{
    head_of, headers_view, in_good_order, ResponseOp, ResponseOpView, STATUS_OK,
};
use crate::router::RestResponse;
use crate::text::{decimal, push_decimal, push_signed_decimal, signed_decimal};
use vstd::prelude::*;
use vstd::string::*;

verus! {

/// The greeting served at `/`.
pub const INDEX_BODY: &'static str = "Hello from HTTP/3!";

/// The JSON served at `/health`.
pub const HEALTH_BODY: &'static str = "{\"status\": \"healthy\", \"protocol\": \"h3\"}";

/// The JSON served at `/api/info`.
pub const API_INFO_BODY: &'static str =
    "{\"name\": \"simple-http3\", \"version\": \"0.1.0\", \"endpoints\": [\"/\", \"/health\", \"/api/info\", \"/stream/time\", \"/stream/counter\"]}";

/// Index handler.
pub fn index(_request: &RequestHead) -> (response: RestResponse)
    ensures
        response.body@ == INDEX_BODY@,
        response.content_type@ == "text/plain"@,
{
    RestResponse::text(INDEX_BODY)
}

/// Health check handler.
pub fn health(_request: &RequestHead) -> (response: RestResponse)
    ensures
        response.body@ == HEALTH_BODY@,
        response.content_type@ == "application/json"@,
{
    RestResponse::json(HEALTH_BODY)
}

/// Description of the service and its endpoints.
pub fn api_info(_request: &RequestHead) -> (response: RestResponse)
    ensures
        response.body@ == API_INFO_BODY@,
        response.content_type@ == "application/json"@,
{
    RestResponse::json(API_INFO_BODY)
}

/// Why a streaming handler gave up.
#[derive(Clone, Copy, Debug, PartialEq, Eq, Structural)]
pub enum HandlerError {
    /// The current time could not be written as text.
    Clock,
}

/// The pattern under which `/stream/time` writes the time.
pub const TIME_FORMAT: &'static str = "%Y-%m-%d %H:%M:%S UTC";

/// How many time events `/stream/time` sends.
pub const TIME_EVENTS: u64 = 5;

/// Milliseconds between two time events.
pub const TIME_INTERVAL_MS: u64 = 1000;

/// The event that closes `/stream/time`.
pub const DONE_EVENT: &'static str = "event: done\ndata: stream complete\n\n";

/// How many lines `/stream/counter` sends.
pub const COUNTER_LINES: u64 = 10;

/// Milliseconds between two lines of `/stream/counter`.
pub const COUNTER_INTERVAL_MS: u64 = 500;

/// One time event: the time as text, and the number of the event as its id.
pub open spec fn time_event_spec(stamp: Seq<char>, id: nat) -> Seq<char> {
    "event: time\ndata: "@ + stamp + "\nid: "@ + decimal(id) + "\n\n"@
}

/// One time event.
pub fn time_event(stamp: &str, id: u64) -> (event: String)
    ensures
        event@ == time_event_spec(stamp@, id as nat),
{
    let mut event = "event: time\ndata: ".to_owned();
    event.append(stamp);
    event.append("\nid: ");
    push_decimal(&mut event, id);
    event.append("\n\n");
    event
}

/// The moment `secs` seconds after the Unix epoch as `/stream/time` writes
/// it, or `None` where it cannot be written.
pub fn time_stamp(secs: i64) -> (stamp: Option<String>)
    ensures
        match stamp {
            Some(text) => utc_text(secs, TIME_FORMAT@) == Some(text@),
            None => utc_text(secs, TIME_FORMAT@).is_none(),
        },
{
    format_utc(secs, TIME_FORMAT)
}

/// One line of the counter stream: a JSON object with the count and the
/// time in seconds since the Unix epoch, and a line feed.
pub open spec fn counter_line_spec(count: nat, timestamp: int) -> Seq<char> {
    "{\"count\": "@ + decimal(count) + ", \"timestamp\": "@ + signed_decimal(timestamp) + "}\n"@
}

/// One line of the counter stream.
pub fn counter_line(count: u64, timestamp: i64) -> (line: String)
    ensures
        line@ == counter_line_spec(count as nat, timestamp as int),
{
    let mut line = "{\"count\": ".to_owned();
    push_decimal(&mut line, count);
    line.append(", \"timestamp\": ");
    push_signed_decimal(&mut line, timestamp);
    line.append("}\n");
    line
}

/// The head of the response of `/stream/time`.
pub open spec fn time_stream_head() -> ResponseOpView {
    ResponseOpView::Head(
        STATUS_OK,
        seq![("content-type"@, "text/event-stream"@), ("cache-control"@, "no-cache"@)],
    )
}

/// The head of the response of `/stream/counter`.
pub open spec fn counter_stream_head() -> ResponseOpView {
    ResponseOpView::Head(STATUS_OK, seq![("content-type"@, "application/x-ndjson"@)])
}

/// Whether the step at `position` of `/stream/time` is a time event.
pub open spec fn is_time_event(position: nat) -> bool {
    position % 2 == 1 && position < 2 * TIME_EVENTS
}

/// The step at `position` of the response of `/stream/time`, where `stamp`
/// is the time as text at that step: the head; then the time events, numbered
/// from 1, with a pause between each two; then the closing event; then the
/// end of the stream. After that there is no step.
pub open spec fn time_stream_op(position: nat, stamp: Seq<char>) -> Option<ResponseOpView> {
    if position == 0 {
        Some(time_stream_head())
    } else if position < 2 * TIME_EVENTS {
        if position % 2 == 1 {
            Some(ResponseOpView::Data(time_event_spec(stamp, (position + 1) / 2)))
        } else {
            Some(ResponseOpView::Sleep(TIME_INTERVAL_MS))
        }
    } else if position == 2 * TIME_EVENTS {
        Some(ResponseOpView::Data(DONE_EVENT@))
    } else if position == 2 * TIME_EVENTS + 1 {
        Some(ResponseOpView::Finish)
    } else {
        None
    }
}

/// Whether the step at `position` of `/stream/counter` is a line.
pub open spec fn is_counter_line(position: nat) -> bool {
    position % 2 == 1 && position < 2 * COUNTER_LINES
}

/// The step at `position` of the response of `/stream/counter`, where
/// `timestamp` is the time at that step: the head; then the lines, counting
/// from 1, with a pause between each two; then the end of the stream. After
/// that there is no step.
pub open spec fn counter_stream_op(position: nat, timestamp: int) -> Option<ResponseOpView> {
    if position == 0 {
        Some(counter_stream_head())
    } else if position < 2 * COUNTER_LINES {
        if position % 2 == 1 {
            Some(ResponseOpView::Data(counter_line_spec((position + 1) / 2, timestamp)))
        } else {
            Some(ResponseOpView::Sleep(COUNTER_INTERVAL_MS))
        }
    } else if position == 2 * COUNTER_LINES {
        Some(ResponseOpView::Finish)
    } else {
        None
    }
}

/// The step at `position` of the response of `/stream/time` at the moment
/// `secs` seconds after the Unix epoch: a time event carries the moment as
/// text and fails where the moment cannot be written; every other step is
/// the same at any moment.
pub open spec fn time_stream_step(position: nat, secs: i64) -> Result<
    Option<ResponseOpView>,
    HandlerError,
> {
    if is_time_event(position) {
        match utc_text(secs, TIME_FORMAT@) {
            Some(stamp) => Ok(time_stream_op(position, stamp)),
            None => Err(HandlerError::Clock),
        }
    } else {
        Ok(time_stream_op(position, Seq::<char>::empty()))
    }
}

/// The view of a step that may be missing.
pub open spec fn step_view(step: Option<ResponseOp>) -> Option<ResponseOpView> {
    match step {
        Some(op) => Some(op@),
        None => None,
    }
}

/// The view of what a handler answered when asked for its next step.
pub open spec fn result_view(op: Result<Option<ResponseOp>, HandlerError>) -> Result<
    Option<ResponseOpView>,
    HandlerError,
> {
    match op {
        Ok(step) => Ok(step_view(step)),
        Err(error) => Err(error),
    }
}

/// The position after a step was taken at `position` of a response of
/// `length` steps.
pub open spec fn advanced(position: nat, length: nat) -> nat {
    if position < length {
        position + 1
    } else {
        position
    }
}

/// The handler of `/stream/time`: pushes the current time once a second,
/// five times, in the style of server-sent events.
#[derive(Clone, Copy, Debug, PartialEq, Eq)]
pub struct TimeStream {
    pub position: u64,
}

/// The handler of `/stream/time` for one request, with nothing sent yet.
pub fn time_stream(_request: &RequestHead) -> (stream: TimeStream)
    ensures
        stream.position == 0,
{
    TimeStream { position: 0 }
}

impl TimeStream {
    /// Whether the next step is a time event.
    pub fn wants_time(&self) -> (wanted: bool)
        ensures
            wanted == is_time_event(self.position as nat),
    {
        self.position % 2 == 1 && self.position < 2 * TIME_EVENTS
    }

    /// The next step, with `stamp` as the current time, or `None` when the
    /// response is complete.
    pub fn next_with(&mut self, stamp: &str) -> (op: Option<ResponseOp>)
        ensures
            final(self).position == advanced(old(self).position as nat, 2 * TIME_EVENTS as nat + 2),
            step_view(op) == time_stream_op(old(self).position as nat, stamp@),
    {
        let position = self.position;
        if position > 2 * TIME_EVENTS + 1 {
            return None;
        }
        self.position = position + 1;
        if position == 0 {
            let headers: Vec<(String, String)> = vec![
                ("content-type".to_owned(), "text/event-stream".to_owned()),
                ("cache-control".to_owned(), "no-cache".to_owned()),
            ];
            assert(headers_view(headers@) =~= seq![
                ("content-type"@, "text/event-stream"@),
                ("cache-control"@, "no-cache"@),
            ]);
            let head = head_of(STATUS_OK, headers);
            Some(head)
        } else if position < 2 * TIME_EVENTS {
            if position % 2 == 1 {
                Some(ResponseOp::Data(time_event(stamp, (position + 1) / 2)))
            } else {
                Some(ResponseOp::Sleep(TIME_INTERVAL_MS))
            }
        } else if position == 2 * TIME_EVENTS {
            Some(ResponseOp::Data(DONE_EVENT.to_owned()))
        } else {
            Some(ResponseOp::Finish)
        }
    }

    /// The next step at the moment `secs` seconds after the Unix epoch. A
    /// time event carries that moment as text. `Err` exactly where the step
    /// is a time event and the moment cannot be written as text; the handler
    /// then stays where it was.
    pub fn next_at(&mut self, secs: i64) -> (op: Result<Option<ResponseOp>, HandlerError>)
        ensures
            result_view(op) == time_stream_step(old(self).position as nat, secs),
            final(self).position == (if op is Ok {
                advanced(old(self).position as nat, 2 * TIME_EVENTS as nat + 2)
            } else {
                old(self).position as nat
            }),
    {
        if self.wants_time() {
            match time_stamp(secs) {
                Some(stamp) => Ok(self.next_with(stamp.as_str())),
                None => Err(HandlerError::Clock),
            }
        } else {
            Ok(self.next_with(""))
        }
    }

    /// The next step at the moment that the clock shows: what `next_at`
    /// gives for that moment, whichever it is.
    pub fn next(&mut self) -> (op: Result<Option<ResponseOp>, HandlerError>)
        ensures
            exists|secs: i64|
                {
                    &&& result_view(op) == #[trigger] time_stream_step(
                        old(self).position as nat,
                        secs,
                    )
                    &&& final(self).position == (if op is Ok {
                        advanced(old(self).position as nat, 2 * TIME_EVENTS as nat + 2)
                    } else {
                        old(self).position as nat
                    })
                },
    {
        let secs = utc_now_secs();
        let op = self.next_at(secs);
        proof {
            assert(result_view(op) == time_stream_step(old(self).position as nat, secs));
        }
        op
    }
}

/// The handler of `/stream/counter`: one JSON line every half second, ten
/// lines, counting from 1.
#[derive(Clone, Copy, Debug, PartialEq, Eq)]
pub struct CounterStream {
    pub position: u64,
}

/// The handler of `/stream/counter` for one request, with nothing sent yet.
pub fn counter_stream(_request: &RequestHead) -> (stream: CounterStream)
    ensures
        stream.position == 0,
{
    CounterStream { position: 0 }
}

impl CounterStream {
    /// Whether the next step is a line.
    pub fn wants_time(&self) -> (wanted: bool)
        ensures
            wanted == is_counter_line(self.position as nat),
    {
        self.position % 2 == 1 && self.position < 2 * COUNTER_LINES
    }

    /// The next step, with `timestamp` as the current time in seconds since
    /// the Unix epoch, or `None` when the response is complete.
    pub fn next_with(&mut self, timestamp: i64) -> (op: Option<ResponseOp>)
        ensures
            final(self).position == advanced(
                old(self).position as nat,
                2 * COUNTER_LINES as nat + 1,
            ),
            step_view(op) == counter_stream_op(old(self).position as nat, timestamp as int),
    {
        let position = self.position;
        if position > 2 * COUNTER_LINES {
            return None;
        }
        self.position = position + 1;
        if position == 0 {
            let headers: Vec<(String, String)> = vec![
                ("content-type".to_owned(), "application/x-ndjson".to_owned()),
            ];
            assert(headers_view(headers@) =~= seq![
                ("content-type"@, "application/x-ndjson"@),
            ]);
            Some(head_of(STATUS_OK, headers))
        } else if position < 2 * COUNTER_LINES {
            if position % 2 == 1 {
                Some(ResponseOp::Data(counter_line((position + 1) / 2, timestamp)))
            } else {
                Some(ResponseOp::Sleep(COUNTER_INTERVAL_MS))
            }
        } else {
            Some(ResponseOp::Finish)
        }
    }

    /// The next step, with the time read from the clock where the step is a line.
    pub fn next(&mut self) -> (op: Option<ResponseOp>)
        ensures
            final(self).position == advanced(
                old(self).position as nat,
                2 * COUNTER_LINES as nat + 1,
            ),
            exists|timestamp: i64| #[trigger]
                counter_stream_op(old(self).position as nat, timestamp as int) == step_view(op),
    {
        let timestamp = if self.wants_time() {
            utc_now_secs()
        } else {
            0
        };
        let op = self.next_with(timestamp);
        proof {
            assert(counter_stream_op(old(self).position as nat, timestamp as int) == step_view(op));
        }
        op
    }
}

/// The whole response of `/stream/time`, where `stamps` holds the time as
/// text at each of the time events.
pub open spec fn time_stream_script(stamps: Seq<Seq<char>>) -> Seq<ResponseOpView> {
    Seq::new(
        2 * TIME_EVENTS as nat + 2,
        |position: int| time_stream_op(position as nat, stamps[position / 2]).unwrap(),
    )
}

/// The whole response of `/stream/counter`, where `timestamps` holds the
/// time at each of the lines.
pub open spec fn counter_stream_script(timestamps: Seq<int>) -> Seq<ResponseOpView> {
    Seq::new(
        2 * COUNTER_LINES as nat + 1,
        |position: int| counter_stream_op(position as nat, timestamps[position / 2]).unwrap(),
    )
}

/// `/stream/time` sends its head, then exactly five time events with the
/// ids 1 to 5 and a pause of a second between each two, then exactly one
/// closing event, then the end of the stream, and nothing after it.
pub proof fn lemma_time_stream_shape(stamps: Seq<Seq<char>>)
    requires
        stamps.len() == TIME_EVENTS,
    ensures
        time_stream_script(stamps) == seq![
            time_stream_head(),
            ResponseOpView::Data(time_event_spec(stamps[0], 1)),
            ResponseOpView::Sleep(TIME_INTERVAL_MS),
            ResponseOpView::Data(time_event_spec(stamps[1], 2)),
            ResponseOpView::Sleep(TIME_INTERVAL_MS),
            ResponseOpView::Data(time_event_spec(stamps[2], 3)),
            ResponseOpView::Sleep(TIME_INTERVAL_MS),
            ResponseOpView::Data(time_event_spec(stamps[3], 4)),
            ResponseOpView::Sleep(TIME_INTERVAL_MS),
            ResponseOpView::Data(time_event_spec(stamps[4], 5)),
            ResponseOpView::Data(DONE_EVENT@),
            ResponseOpView::Finish,
        ],
        forall|position: nat, stamp: Seq<char>|
            position >= time_stream_script(stamps).len() ==> (#[trigger] time_stream_op(
                position,
                stamp,
            )).is_none(),
{
    assert(time_stream_script(stamps) =~= seq![
        time_stream_head(),
        ResponseOpView::Data(time_event_spec(stamps[0], 1)),
        ResponseOpView::Sleep(TIME_INTERVAL_MS),
        ResponseOpView::Data(time_event_spec(stamps[1], 2)),
        ResponseOpView::Sleep(TIME_INTERVAL_MS),
        ResponseOpView::Data(time_event_spec(stamps[2], 3)),
        ResponseOpView::Sleep(TIME_INTERVAL_MS),
        ResponseOpView::Data(time_event_spec(stamps[3], 4)),
        ResponseOpView::Sleep(TIME_INTERVAL_MS),
        ResponseOpView::Data(time_event_spec(stamps[4], 5)),
        ResponseOpView::Data(DONE_EVENT@),
        ResponseOpView::Finish,
    ]);
}

/// `/stream/counter` sends its head, then exactly ten lines whose counts run
/// from 1 to 10, with a pause of half a second between each two, then the
/// end of the stream, and nothing after it.
pub proof fn lemma_counter_stream_shape(timestamps: Seq<int>)
    requires
        timestamps.len() == COUNTER_LINES,
    ensures
        counter_stream_script(timestamps).len() == 2 * COUNTER_LINES + 1,
        counter_stream_script(timestamps)[0] == counter_stream_head(),
        forall|count: int|
            1 <= count <= COUNTER_LINES ==> #[trigger] counter_stream_script(timestamps)[2 * count
                - 1] == ResponseOpView::Data(
                counter_line_spec(count as nat, timestamps[count - 1]),
            ),
        forall|count: int|
            1 <= count < COUNTER_LINES ==> #[trigger] counter_stream_script(timestamps)[2 * count]
                == ResponseOpView::Sleep(COUNTER_INTERVAL_MS),
        counter_stream_script(timestamps)[2 * COUNTER_LINES as int] == ResponseOpView::Finish,
        forall|position: nat, timestamp: int|
            position >= counter_stream_script(timestamps).len() ==> (#[trigger] counter_stream_op(
                position,
                timestamp,
            )).is_none(),
{
}

/// Both streamed responses are sent in good order, whatever the clock
/// shows: the head exactly once and first, the end of the stream exactly
/// once and last.
pub proof fn lemma_streams_in_good_order(stamps: Seq<Seq<char>>, timestamps: Seq<int>)
    ensures
        in_good_order(time_stream_script(stamps)),
        in_good_order(counter_stream_script(timestamps)),
{
}

} // verus!
