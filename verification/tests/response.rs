use simple_http3::response::{
    head_of, not_found_reply, rest_reply, ResponseHead, ResponseOp, NOT_FOUND_BODY,
    STATUS_NOT_FOUND, STATUS_OK,
};
use simple_http3::router::RestResponse;

fn header(name: &str, value: &str) -> (String, String) {
    (name.to_string(), value.to_string())
}

#[test]
fn status_codes() {
    assert_eq!(STATUS_OK, 200);
    assert_eq!(STATUS_NOT_FOUND, 404);
    assert_eq!(NOT_FOUND_BODY, "{\"error\": \"Not Found\"}");
}

#[test]
fn head_holds_status_and_headers() {
    let headers = vec![header("a", "b")];
    assert_eq!(
        head_of(204, headers.clone()),
        ResponseOp::Head(ResponseHead { status: 204, headers })
    );
}

#[test]
fn rest_reply_frames_the_body_once() {
    let ops = rest_reply(RestResponse::text("Hello from HTTP/3!"));
    assert_eq!(
        ops,
        vec![
            ResponseOp::Head(ResponseHead {
                status: 200,
                headers: vec![header("content-type", "text/plain"), header("content-length", "18")],
            }),
            ResponseOp::Data("Hello from HTTP/3!".to_string()),
            ResponseOp::Finish,
        ]
    );
}

#[test]
fn rest_reply_keeps_the_content_type() {
    let ops = rest_reply(RestResponse::json("{}"));
    assert_eq!(
        ops[0],
        ResponseOp::Head(ResponseHead {
            status: 200,
            headers: vec![header("content-type", "application/json"), header("content-length", "2")],
        })
    );
}

#[test]
fn rest_reply_of_an_empty_body() {
    let ops = rest_reply(RestResponse::text(""));
    assert_eq!(
        ops,
        vec![
            ResponseOp::Head(ResponseHead {
                status: 200,
                headers: vec![header("content-type", "text/plain"), header("content-length", "0")],
            }),
            ResponseOp::Data(String::new()),
            ResponseOp::Finish,
        ]
    );
}

#[test]
fn content_length_counts_bytes() {
    let ops = rest_reply(RestResponse::text("gr\u{fc}\u{df}e \u{1f600}"));
    assert_eq!(
        ops[0],
        ResponseOp::Head(ResponseHead {
            status: 200,
            headers: vec![header("content-type", "text/plain"), header("content-length", "12")],
        })
    );
}

#[test]
fn content_length_of_a_long_body() {
    let body = "x".repeat(123_456);
    let ops = rest_reply(RestResponse::text(&body));
    assert_eq!(
        ops[0],
        ResponseOp::Head(ResponseHead {
            status: 200,
            headers: vec![header("content-type", "text/plain"), header("content-length", "123456")],
        })
    );
    assert_eq!(ops[1], ResponseOp::Data(body));
}

#[test]
fn not_found_reply_is_fixed() {
    assert_eq!(
        not_found_reply(),
        vec![
            ResponseOp::Head(ResponseHead {
                status: 404,
                headers: vec![
                    header("content-type", "application/json"),
                    header("content-length", "22"),
                ],
            }),
            ResponseOp::Data("{\"error\": \"Not Found\"}".to_string()),
            ResponseOp::Finish,
        ]
    );
}
