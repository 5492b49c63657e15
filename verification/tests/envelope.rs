use open_dart::endpoints::envelope::{resolve, resolve_document, Envelope};
use open_dart::json::{Json, Member};
use open_dart::endpoints::{is_success, Message, ResponseCheck};
use open_dart::error::{MessageError, ShapeFault, ShapeMismatch};
use open_dart::OpenDartError;

fn fields(names: &[&str]) -> Vec<String> {
    names.iter().map(|name| name.to_string()).collect()
}

fn message(status: &str, message: &str) -> Message {
    Message { status: status.to_string(), message: message.to_string() }
}

fn business_error(status: &str, text: &str) -> OpenDartError {
    OpenDartError::Message(MessageError { message: message(status, text) })
}

fn member(name: &str, value: Json) -> Member {
    Member { name: name.to_string(), value }
}

fn text(value: &str) -> Json {
    Json::Text(value.to_string())
}

fn mismatch(fault: ShapeFault, payload: &str) -> OpenDartError {
    OpenDartError::Deserialize(ShapeMismatch { fault, payload: payload.as_bytes().to_vec() })
}

#[test]
fn a_flat_success_resolves_to_its_body() {
    let payload = r#"{"status":"000","message":"정상","name":"X"}"#;
    let envelope = resolve(payload.as_bytes(), &fields(&["name"])).unwrap();
    assert_eq!(
        envelope,
        Envelope { message: message("000", "정상"), body: vec![member("name", text("X"))] }
    );
}

#[test]
fn a_flat_failure_resolves_to_a_business_error() {
    let payload = r#"{"status":"010","message":"등록되지 않은 키입니다."}"#;
    let error = resolve(payload.as_bytes(), &fields(&["name"])).unwrap_err();
    assert_eq!(error, business_error("010", "등록되지 않은 키입니다."));
}

#[test]
fn a_nested_failure_resolves_to_the_same_business_error() {
    let nested = r#"{"message":{"status":"010","message":"등록되지 않은 키입니다."}}"#;
    let flat = r#"{"status":"010","message":"등록되지 않은 키입니다."}"#;
    let error = resolve(nested.as_bytes(), &fields(&["name"])).unwrap_err();
    assert_eq!(error, business_error("010", "등록되지 않은 키입니다."));
    assert_eq!(error, resolve(flat.as_bytes(), &fields(&["name"])).unwrap_err());
}

#[test]
fn an_unknown_field_is_a_shape_mismatch() {
    let payload = r#"{"status":"000","message":"정상","unexpected_field":1}"#;
    let error = resolve(payload.as_bytes(), &fields(&[])).unwrap_err();
    assert_eq!(error, mismatch(ShapeFault::UnknownField("unexpected_field".to_string()), payload));
    let error = resolve(payload.as_bytes(), &fields(&["name"])).unwrap_err();
    assert_eq!(error, mismatch(ShapeFault::UnknownField("unexpected_field".to_string()), payload));
}

#[test]
fn a_missing_field_is_a_shape_mismatch() {
    let payload = r#"{"status":"000","message":"정상","name":"X"}"#;
    let error = resolve(payload.as_bytes(), &fields(&["name", "age"])).unwrap_err();
    assert_eq!(error, mismatch(ShapeFault::MissingField("age".to_string()), payload));
}

#[test]
fn a_failure_status_beside_a_body_is_a_business_error() {
    let payload = r#"{"status":"010","message":"등록되지 않은 키입니다.","content":"This is the content"}"#;
    let error = resolve(payload.as_bytes(), &fields(&["content"])).unwrap_err();
    assert_eq!(error, business_error("010", "등록되지 않은 키입니다."));
}

#[test]
fn no_data_beside_a_body_is_a_success() {
    let payload = r#"{"status":"013","message":"조회된 데이타가 없습니다.","list":[]}"#;
    let envelope = resolve(payload.as_bytes(), &fields(&["list"])).unwrap();
    assert_eq!(envelope.message, message("013", "조회된 데이타가 없습니다."));
    assert_eq!(envelope.body, vec![member("list", Json::Array(vec![]))]);
}

#[test]
fn a_message_alone_is_a_failure_whatever_its_status() {
    for status in ["000", "013", "010", "011", "012", "014", "020", "021", "100", "101", "800", "900", "901"] {
        let flat = format!(r#"{{"status":"{}","message":"m"}}"#, status);
        let error = resolve(flat.as_bytes(), &fields(&[])).unwrap_err();
        assert_eq!(error, business_error(status, "m"));
        let nested = format!(r#"{{"message":{{"message":"m","status":"{}"}}}}"#, status);
        let error = resolve(nested.as_bytes(), &fields(&["name"])).unwrap_err();
        assert_eq!(error, business_error(status, "m"));
    }
}

#[test]
fn what_is_not_json_is_a_shape_mismatch() {
    let payload = r#"{"status":"000","#;
    match resolve(payload.as_bytes(), &fields(&[])).unwrap_err() {
        OpenDartError::Deserialize(ShapeMismatch { fault: ShapeFault::NotJson(detail), payload: kept }) => {
            assert!(detail.contains("line 1"), "{}", detail);
            assert_eq!(kept, payload.as_bytes());
        }
        other => panic!("unexpected error: {:?}", other),
    }
    for payload in ["[]", "null", "\"000\"", "1"] {
        let error = resolve(payload.as_bytes(), &fields(&[])).unwrap_err();
        assert_eq!(error, mismatch(ShapeFault::NotAnObject, payload));
    }
}

#[test]
fn an_object_without_a_status_message_is_a_shape_mismatch() {
    let cases = [
        (r#"{}"#, ShapeFault::NoStatus),
        (r#"{"name":"X"}"#, ShapeFault::NoStatus),
        (r#"{"status":0,"message":"m","name":"X"}"#, ShapeFault::NoStatus),
        (r#"{"status":"000","name":"X"}"#, ShapeFault::NoMessage),
        (r#"{"status":"000","message":null,"name":"X"}"#, ShapeFault::NoMessage),
        (r#"{"message":"m"}"#, ShapeFault::NoStatus),
        (r#"{"message":{"status":"010"}}"#, ShapeFault::NoStatus),
        (r#"{"message":{"status":"010","message":"m","more":1}}"#, ShapeFault::NoStatus),
        (r#"{"status":"000","message":{"status":"010","message":"m"}}"#, ShapeFault::NoMessage),
    ];
    for (payload, fault) in cases {
        let error = resolve(payload.as_bytes(), &fields(&["name"])).unwrap_err();
        assert_eq!(error, mismatch(fault, payload), "{}", payload);
    }
}

#[test]
fn the_body_keeps_every_kind_of_value() {
    let payload = r#"{"status":"000","message":"정상","a":null,"b":true,"c":-1.5e3,"d":[1,"x",{"k":[]}],"e":{"y":1,"x":"2"}}"#;
    let envelope = resolve(payload.as_bytes(), &fields(&["e", "d", "c", "b", "a"])).unwrap();
    assert_eq!(
        envelope.body,
        vec![
            member("a", Json::Null),
            member("b", Json::Bool(true)),
            member("c", Json::Number("-1500.0".to_string())),
            member(
                "d",
                Json::Array(vec![
                    Json::Number("1".to_string()),
                    text("x"),
                    Json::Object(vec![member("k", Json::Array(vec![]))]),
                ])
            ),
            member("e", Json::Object(vec![member("x", text("2")), member("y", Json::Number("1".to_string()))])),
        ]
    );
}

#[test]
fn a_document_built_by_hand_resolves_like_a_parsed_one() {
    let document = Json::Object(vec![
        member("name", text("X")),
        member("status", text("000")),
        member("age", Json::Number("42".to_string())),
        member("message", text("정상")),
    ]);
    let envelope = resolve_document(Ok(document), b"payload", &fields(&["age", "name"])).unwrap();
    assert_eq!(envelope.message, message("000", "정상"));
    assert_eq!(
        envelope.body,
        vec![member("name", text("X")), member("age", Json::Number("42".to_string()))]
    );
    let error = resolve_document(Err("broken".to_string()), b"payload", &fields(&[])).unwrap_err();
    assert_eq!(
        error,
        OpenDartError::Deserialize(ShapeMismatch {
            fault: ShapeFault::NotJson("broken".to_string()),
            payload: b"payload".to_vec(),
        })
    );
}

#[test]
fn the_first_member_of_a_name_counts() {
    let document = Json::Object(vec![
        member("status", text("010")),
        member("status", text("000")),
        member("message", text("m")),
    ]);
    let error = resolve_document(Ok(document), b"", &fields(&[])).unwrap_err();
    assert_eq!(error, business_error("010", "m"));
}

#[test]
fn a_status_is_judged_by_its_code() {
    assert_eq!(is_success("000"), Ok(()));
    assert_eq!(is_success("013"), Ok(()));
    for status in ["010", "011", "012", "014", "020", "021", "100", "101", "800", "900", "901", "", "0000", "999"] {
        assert_eq!(is_success(status), Err(MessageError { message: message(status, "") }));
    }
    assert_eq!(message("000", "정상").is_success(), Ok(()));
    assert_eq!(
        message("010", "등록되지 않은 키입니다.").is_success(),
        Err(MessageError { message: message("010", "등록되지 않은 키입니다.") })
    );
}
