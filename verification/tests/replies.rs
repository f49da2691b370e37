use rest_client::reply::{failure, read_response};
use rest_client::{Error, Method, Reply, RestClient};
use serde_json::Value;

fn json(text: &str) -> Value {
    serde_json::from_str(text).unwrap()
}

fn answered(body: &str) -> Reply {
    Reply::Answered { body: Some(body.as_bytes().to_vec()) }
}

#[test]
fn get_with_json_reply_succeeds() {
    let client = RestClient::new(false);
    let request = client.get("http://host/a".to_string());
    assert_eq!(request.method, Method::GET);
    let outcome = client.finish(answered("{\"a\":1}"));
    assert_eq!(outcome.result, Ok(json("{\"a\":1}")));
    assert_eq!(outcome.log, "");
}

#[test]
fn delete_with_json_reply_succeeds() {
    let client = RestClient::new(false);
    let request = client.delete("http://host/a".to_string());
    assert_eq!(request.method, Method::DELETE);
    let outcome = client.finish(answered("{\"a\":1}"));
    assert_eq!(outcome.result, Ok(json("{\"a\":1}")));
}

#[test]
fn post_with_json_reply_succeeds() {
    let client = RestClient::new(false);
    let request = client.post("http://host/a".to_string(), json("{\"x\":1}"));
    assert_eq!(request.method, Method::POST);
    let outcome = client.finish(answered("{\"a\":1}"));
    assert_eq!(outcome.result, Ok(json("{\"a\":1}")));
}

#[test]
fn patch_with_json_reply_succeeds() {
    let client = RestClient::new(false);
    let request = client.patch("http://host/a".to_string(), json("{\"x\":1}"));
    assert_eq!(request.method, Method::PATCH);
    let outcome = client.finish(answered("{\"a\":1}"));
    assert_eq!(outcome.result, Ok(json("{\"a\":1}")));
}

#[test]
fn parsed_reply_has_the_fields_of_the_body() {
    let client = RestClient::new(false);
    let outcome = client.finish(answered(" {\"a\": 1, \"b\": [true, null, \"s\"]} "));
    let value = outcome.result.unwrap();
    assert_eq!(value["a"], Value::from(1));
    assert_eq!(value["b"][0], Value::Bool(true));
    assert_eq!(value["b"][1], Value::Null);
    assert_eq!(value["b"][2], Value::from("s"));
}

#[test]
fn empty_body_gives_null_not_an_error() {
    let client = RestClient::new(false);
    let outcome = client.finish(answered(""));
    assert_eq!(outcome.result, Ok(Value::Null));
    assert_eq!(outcome.log, "");
}

#[test]
fn body_that_is_not_json_gives_null() {
    let client = RestClient::new(true);
    for body in ["<html></html>", "{\"a\":", "{\"a\":1} trailing", "nul", "'a'"] {
        let outcome = client.finish(answered(body));
        assert_eq!(outcome.result, Ok(Value::Null));
        assert_eq!(outcome.log, "");
    }
    let outcome = client.finish(Reply::Answered { body: Some(vec![0xff, 0xfe]) });
    assert_eq!(outcome.result, Ok(Value::Null));
}

#[test]
fn unread_body_gives_null() {
    let client = RestClient::new(true);
    let outcome = client.finish(Reply::Answered { body: None });
    assert_eq!(outcome.result, Ok(Value::Null));
    assert_eq!(outcome.log, "");
}

#[test]
fn not_found_gives_failure_with_status_and_message() {
    let client = RestClient::new(false);
    let message = "HTTP status client error (404 Not Found) for url (http://host/a)";
    let outcome = client.finish(Reply::Failed { status: Some(404), message: message.to_string() });
    assert_eq!(outcome.result, Err(Error { status: 404, message: message.to_string() }));
    match outcome.result {
        Err(error) => {
            assert_eq!(error.status, 404);
            assert!(!error.message.is_empty());
        }
        Ok(_) => panic!("a failed exchange settled as a success"),
    }
    assert_eq!(outcome.log, "");
}

#[test]
fn failure_keeps_status_and_message() {
    let outcome = failure(500, "boom".to_string());
    assert_eq!(outcome.result, Err(Error { status: 500, message: "boom".to_string() }));
    assert_eq!(outcome.log, "");
    let outcome = failure(u16::MAX, String::new());
    assert_eq!(outcome.result, Err(Error { status: 65535, message: String::new() }));
}

#[test]
fn verbose_failure_writes_nothing() {
    let client = RestClient::new(true);
    let outcome = client.finish(Reply::Failed { status: Some(503), message: "down".to_string() });
    assert_eq!(outcome.result, Err(Error { status: 503, message: "down".to_string() }));
    assert_eq!(outcome.log, "");
}

#[test]
fn verbose_post_logs_request_then_response() {
    let client = RestClient::new(true);
    let request = client.post("http://host/items".to_string(), json("{\"x\":1}"));
    let outcome = client.finish(answered("{\"ok\":true}"));
    let mut written = request.log;
    written.push_str(&outcome.log);
    assert_eq!(
        written,
        "POST http://host/items\n{\n  \"x\": 1\n}\nResponse:\n{\n  \"ok\": true\n}\n\n----\n\n"
    );
    assert_eq!(outcome.result, Ok(json("{\"ok\":true}")));
}

#[test]
fn response_log_has_heading_value_and_rule() {
    let outcome = read_response(true, Some(b"[1,2]".to_vec()));
    assert_eq!(outcome.log, "Response:\n[\n  1,\n  2\n]\n\n----\n\n");
    let outcome = read_response(true, Some(b"null".to_vec()));
    assert_eq!(outcome.result, Ok(Value::Null));
    assert_eq!(outcome.log, "Response:\nnull\n\n----\n\n");
    let outcome = read_response(false, Some(b"[1,2]".to_vec()));
    assert_eq!(outcome.log, "");
    assert_eq!(outcome.result, Ok(json("[1,2]")));
}

#[test]
fn get_twice_with_the_same_reply_gives_the_same_result() {
    let client = RestClient::new(false);
    let _ = client.get("http://host/a".to_string());
    let first = client.finish(answered("{\"a\":[1,2,{\"b\":null}]}"));
    let _ = client.get("http://host/a".to_string());
    let second = client.finish(answered("{\"a\":[1,2,{\"b\":null}]}"));
    assert!(first.result.is_ok());
    assert_eq!(first.result, second.result);
    assert_eq!(first.log, second.log);
}

#[test]
fn result_does_not_depend_on_verbosity() {
    let quiet = RestClient::new(false).finish(answered("{\"a\":1}"));
    let loud = RestClient::new(true).finish(answered("{\"a\":1}"));
    assert_eq!(quiet.result, loud.result);
    let quiet = RestClient::new(false).finish(answered(""));
    let loud = RestClient::new(true).finish(answered(""));
    assert_eq!(quiet.result, loud.result);
}
