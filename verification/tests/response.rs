use credit_faas::error_body::construct_error;
use credit_faas::response::{
    build_response, credit_faas_wrapper, Header, Reply, STATUS_BAD_REQUEST, STATUS_OK,
};

fn expected_headers() -> Vec<Header> {
    vec![
        Header { name: String::from("Access-Control-Allow-Origin"), value: String::from("*") },
        Header {
            name: String::from("Access-Control-Allow-Credentials"),
            value: String::from("true"),
        },
    ]
}

#[test]
fn status_constants() {
    assert_eq!(STATUS_OK, 200);
    assert_eq!(STATUS_BAD_REQUEST, 400);
}

#[test]
fn build_response_keeps_status_and_body() {
    let reply = build_response(200, "[]");
    assert_eq!(reply.status, 200);
    assert_eq!(reply.body, "[]");
    assert_eq!(reply.headers, expected_headers());
}

#[test]
fn build_response_accepts_the_ends_of_the_status_range() {
    assert_eq!(build_response(100, "").status, 100);
    assert_eq!(build_response(599, "").status, 599);
    assert_eq!(build_response(599, "").body, "");
}

#[test]
fn build_response_is_the_whole_reply() {
    let reply = build_response(404, "gone");
    assert_eq!(
        reply,
        Reply { status: 404, headers: expected_headers(), body: String::from("gone") }
    );
}

#[test]
fn construct_error_wraps_a_plain_message() {
    assert_eq!(construct_error("boom"), "{\"err\":\"boom\"}");
}

#[test]
fn construct_error_of_empty_message() {
    assert_eq!(construct_error(""), "{\"err\":\"\"}");
}

#[test]
fn construct_error_escapes_quotes_and_backslashes() {
    assert_eq!(construct_error("say \"hi\""), "{\"err\":\"say \\\"hi\\\"\"}");
    assert_eq!(construct_error("a\\b"), "{\"err\":\"a\\\\b\"}");
}

#[test]
fn construct_error_escapes_control_characters() {
    assert_eq!(construct_error("line\nbreak\ttab"), "{\"err\":\"line\\nbreak\\ttab\"}");
    assert_eq!(construct_error("\r\u{8}\u{c}"), "{\"err\":\"\\r\\b\\f\"}");
    assert_eq!(construct_error("\u{1}\u{1f}"), "{\"err\":\"\\u0001\\u001f\"}");
}

#[test]
fn construct_error_keeps_other_characters() {
    assert_eq!(construct_error("d\u{e9}j\u{e0} / \u{7f} \u{2028}"), "{\"err\":\"d\u{e9}j\u{e0} / \u{7f} \u{2028}\"}");
}

#[test]
fn construct_error_reads_back_as_the_message() {
    let message = "expected `,` or `}` at line 1 column 7, got \"\\\"\n";
    let body = construct_error(message);
    let value: serde_json::Value = serde_json::from_str(&body).unwrap();
    let object = value.as_object().unwrap();
    assert_eq!(object.len(), 1);
    assert_eq!(object.get("err").and_then(|v| v.as_str()), Some(message));
}

#[test]
fn result_is_sent_as_it_is_with_status_200() {
    let body = String::from("[{\"atPoint\":-1.0,\"density\":0.5}]");
    let reply = credit_faas_wrapper(Ok(body.clone()));
    assert_eq!(reply, Reply { status: 200, headers: expected_headers(), body });
}

#[test]
fn failure_is_sent_as_error_body_with_status_400() {
    let reply = credit_faas_wrapper(Err(String::from("EOF while parsing a value")));
    assert_eq!(
        reply,
        Reply {
            status: 400,
            headers: expected_headers(),
            body: String::from("{\"err\":\"EOF while parsing a value\"}"),
        }
    );
}

#[test]
fn failure_body_is_that_of_construct_error() {
    let message = "invalid type: string \"x\", expected f64";
    let reply = credit_faas_wrapper(Err(String::from(message)));
    assert_eq!(reply.status, 400);
    assert_eq!(reply.body, construct_error(message));
    assert_eq!(reply.body, "{\"err\":\"invalid type: string \\\"x\\\", expected f64\"}");
}

#[test]
fn request_without_num_loans_gets_a_client_error() {
    let input = "{\"lambda\":0.05,\"q\":0.05,\"numU\":128,\"pd\":0.02,\"volatility\":0.5}";
    let fields: serde_json::Map<String, serde_json::Value> = serde_json::from_str(input).unwrap();
    let names = ["lambda", "q", "numU", "pd", "numLoans", "volatility"];
    let missing = names.iter().find(|name| !fields.contains_key(**name));
    assert_eq!(missing, Some(&"numLoans"));
    let outcome: Result<String, String> = match missing {
        Some(name) => Err(format!("missing field `{}`", name)),
        None => Ok(String::from("[]")),
    };
    let reply = credit_faas_wrapper(outcome);
    assert_eq!(reply.status, 400);
    assert_eq!(reply.body, "{\"err\":\"missing field `numLoans`\"}");
    assert_eq!(reply.headers, expected_headers());
}

#[test]
fn same_outcome_gives_same_reply() {
    let first = credit_faas_wrapper(Err(String::from("bad \"input\"")));
    let second = credit_faas_wrapper(Err(String::from("bad \"input\"")));
    assert_eq!(first, second);
}
