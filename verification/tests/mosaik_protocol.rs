use mosaik_rust_api::handling::{handle_request, respond, ApiCall, CallOutcome, Handling, Response};
use mosaik_rust_api::json::{Json, JsonNumber};
use mosaik_rust_api::mosaik_protocol::{MosaikMessage, MsgType};
use mosaik_rust_api::request::{
    msg_type_from_json, request_from_message, MessageReads, MosaikError, Request,
};
use serde_json::Value;

fn to_json(value: Value) -> Json {
    match value {
        Value::Null => Json::Null,
        Value::Bool(b) => Json::Bool(b),
        Value::Number(n) => Json::Number(if let Some(u) = n.as_u64() {
            JsonNumber::PosInt(u)
        } else if let Some(i) = n.as_i64() {
            JsonNumber::NegInt(i)
        } else {
            JsonNumber::Float(n.to_string())
        }),
        Value::String(s) => Json::String(s),
        Value::Array(items) => Json::Array(items.into_iter().map(to_json).collect()),
        Value::Object(entries) => {
            Json::Object(entries.into_iter().map(|(k, v)| (k, to_json(v))).collect())
        }
    }
}

fn parse_json_request(data: &str) -> Result<Request, MosaikError> {
    let parsed = serde_json::from_str::<Value>(data)
        .map(to_json)
        .map_err(|e| e.to_string());
    let reads = MessageReads { message_error: None, message_debug: None, content_error: None };
    request_from_message(parsed, reads)
}

fn json_text(value: &Value) -> Vec<u8> {
    serde_json::to_vec(value).unwrap()
}

fn hello_world_request(msg_id: u64) -> Request {
    Request {
        msg_id,
        method: "my_func".to_string(),
        args: vec![
            Json::String("hello".to_string()),
            Json::String("world".to_string()),
        ],
        kwargs: vec![("times".to_string(), Json::Number(JsonNumber::PosInt(23)))],
    }
}

fn hello_world_content() -> Value {
    let mut kwargs = serde_json::Map::new();
    kwargs.insert("times".to_string(), Value::from(23));
    Value::Array(vec![
        Value::from("my_func"),
        Value::Array(vec![Value::from("hello"), Value::from("world")]),
        Value::Object(kwargs),
    ])
}

fn failure_text(error: MosaikError) -> Vec<u8> {
    json_text(&Value::String(error.message()))
}

#[test]
fn mosaik_protocol_test_serialize_mosaik_message() {
    let expect = r#"[0,123,["my_func",["hello","world"],{"times":23}]]"#
        .as_bytes()
        .to_vec();
    let actual = MosaikMessage {
        msg_type: MsgType::Request,
        id: 123,
        content: json_text(&hello_world_content()),
    }
    .to_network_message();
    assert_eq!(&actual[4..], expect);
}

#[test]
fn mosaik_protocol_test_serialize_response_success_to_vec() {
    let expect = r#"[1,1,"the return value"]"#.as_bytes().to_vec();
    let actual = MosaikMessage {
        msg_type: MsgType::ReplySuccess,
        id: 1,
        content: json_text(&Value::from("the return value")),
    }
    .to_network_message();

    assert_eq!(actual[0..4], vec![0x00, 0x00, 0x00, 0x18]);
    assert_eq!(actual.len(), 4 + 0x18);
    assert_eq!(&actual[4..], expect);
}

#[test]
fn mosaik_protocol_test_serialize_response_failure_to_vec() {
    let expect = r#"[2,1,"Error in your code line 23: ..."]"#.as_bytes().to_vec();
    let actual = MosaikMessage {
        msg_type: MsgType::ReplyFailure,
        id: 1,
        content: json_text(&Value::from("Error in your code line 23: ...")),
    }
    .to_network_message();

    assert_eq!(actual[..4], vec![0x00, 0x00, 0x00, 0x27]);
    assert_eq!(actual.len(), 4 + 0x27);
    assert_eq!(actual[4..], expect);
}

#[test]
fn mosaik_protocol_test_serialize_response_error_to_vec() {
    let expect = r#"[2,123,"User generated Error: some error"]"#.as_bytes().to_vec();
    let error = MosaikError::UserError("some error".to_string());
    let actual = MosaikMessage {
        msg_type: MsgType::ReplyFailure,
        id: 123,
        content: failure_text(error),
    }
    .to_network_message();
    assert_eq!(actual.len(), 4 + expect.len());
    assert_eq!(actual[4..], expect);
}

#[test]
fn test_serialize_to_vec_error_serializing_default() {
    let expect = r#"[2,18446744073709551615,"Failed to serialize a vector from the response"]"#
        .as_bytes()
        .to_vec();
    let error_response = MosaikMessage {
        msg_type: MsgType::ReplyFailure,
        id: u64::MAX,
        content: json_text(&Value::from(
            "Failed to serialize a vector from the response",
        )),
    };
    assert!(expect.len() < u32::MAX as usize);
    let to_vec = error_response.to_vec();
    assert_eq!(
        to_vec, expect,
        "JSON Serialized response should equal the expected response."
    );
    let actual = error_response.to_network_message();
    assert_eq!(actual.len(), 4 + expect.len());
    assert_eq!(actual[4..], expect);
}

#[test]
fn test_serialize_to_vec_error_message_length_default() {
    let expect = r#"[2,18446744073709551615,"Message too large"]"#.as_bytes().to_vec();
    let error_response = MosaikMessage {
        msg_type: MsgType::ReplyFailure,
        id: u64::MAX,
        content: json_text(&Value::from("Message too large")),
    };
    assert!(expect.len() < u32::MAX as usize);
    let to_vec = error_response.to_vec();
    assert_eq!(
        to_vec, expect,
        "JSON Serialized response should equal the expected response."
    );
    let actual = error_response.to_network_message();
    assert_eq!(actual.len(), 4 + expect.len());
    assert_eq!(actual[4..], expect);
}

#[test]
fn mosaik_protocol_test_parse_valid_request() {
    let valid_request = r#"[0, 1, ["my_func", ["hello", "world"], {"times": 23}]]"#;
    let expected = hello_world_request(1);
    let result = parse_json_request(valid_request);
    assert!(result.is_ok());
    assert_eq!(result.unwrap(), expected);
}

#[test]
fn mosaik_protocol_test_parse_invalid_mosaik_message() {
    let data = r"invalid request format";
    let result = parse_json_request(data);
    assert!(result.is_err());
    let expect = MosaikError::ParseError("Payload is not a valid Mosaik Message:".to_string());
    let actual = result.unwrap_err();
    assert!(
        actual.message().starts_with(&expect.message()),
        "{} does not start with {}",
        actual.message(),
        expect.message()
    );
}

#[test]
fn mosaik_protocol_test_parse_success_reply() {
    let data = r#"[1, 1, "return value"]"#;
    let result = parse_json_request(data);
    assert!(result.is_err());
    let expect = MosaikError::ParseError("The Mosaik Message is not a request:".to_string());
    let actual = result.unwrap_err();
    assert!(
        actual.message().starts_with(&expect.message()),
        "{} does not start with {}",
        actual.message(),
        expect.message()
    );
}

#[test]
fn mosaik_protocol_test_parse_failure_reply() {
    let data = r#"[2, 1, "Error in your code line 23: ..."]"#;
    let result = parse_json_request(data);
    assert!(result.is_err());
    let expect = MosaikError::ParseError("The Mosaik Message is not a request:".to_string());
    let actual = result.unwrap_err();
    assert!(
        actual.message().starts_with(&expect.message()),
        "{} does not start with {}",
        actual.message(),
        expect.message()
    );
}

#[test]
fn mosaik_protocol_test_parse_invalid_message_type() {
    let data = r#"["0", 1, ["my_func", ["hello", "world"], {"times": 23}]]"#;
    let result = parse_json_request(data);
    assert!(result.is_err());
    let expect = MosaikError::ParseError("Payload is not a valid Mosaik Message:".to_string());
    let actual = result.unwrap_err();
    assert!(
        actual.message().starts_with(&expect.message()),
        "{} does not start with {}",
        actual.message(),
        expect.message()
    );
}

#[test]
fn mosaik_protocol_test_parse_invalid_request_format() {
    let data = r#"[0, 1, ["my_func", {"hello": "world"}, {"times": 23}]]"#;
    let result = parse_json_request(data);
    assert!(result.is_err());
    let expect =
        MosaikError::ParseError("The Mosaik Message has no valid Request content:".to_string());
    let actual = result.unwrap_err();
    assert!(
        actual.message().starts_with(&expect.message()),
        "{} does not start with {}",
        actual.message(),
        expect.message()
    );
}

const STEP_REQUEST: &str = r#"
        [0, 1, ["step",
                [1,
                 {"eid_1": {"attr_1": {"src_full_id_1": 2, "src_full_id_2": 4},
                            "attr_2": {"src_full_id_1": 3, "src_full_id_2": 5}
                            }
                },
                200
                ], {}
              ]
        ]"#;

#[test]
fn mosaik_protocol_test_parse_step_request() {
    let inputs_text = r#"{"eid_1": {"attr_1": {"src_full_id_1": 2, "src_full_id_2": 4}, "attr_2": {"src_full_id_1": 3, "src_full_id_2": 5}}}"#;
    let expected = Request {
        msg_id: 1,
        method: "step".to_string(),
        args: vec![
            Json::Number(JsonNumber::PosInt(1)),
            to_json(serde_json::from_str(inputs_text).unwrap()),
            Json::Number(JsonNumber::PosInt(200)),
        ],
        kwargs: vec![],
    };
    let result = parse_json_request(STEP_REQUEST);
    assert!(result.is_ok());

    let request = result.unwrap();
    let again = parse_json_request(STEP_REQUEST).unwrap();
    let mut args = again.args;
    let input = mosaik_rust_api::json::input_data(args.remove(1)).unwrap();
    let (_, attrs) = input.iter().find(|(eid, _)| eid == "eid_1").unwrap();
    let (_, sources) = attrs.iter().find(|(attr, _)| attr == "attr_2").unwrap();
    let (_, value) = sources
        .iter()
        .find(|(src, _)| src == "src_full_id_1")
        .unwrap();
    assert_eq!(*value, Json::Number(JsonNumber::PosInt(3)));
    assert_eq!(request, expected);
}

#[test]
fn mosaik_protocol_test_parse_get_data_request() {
    let valid_request = r#"[0, 1, ["get_data", [{"eid_1": ["attr_1", "attr_2"]}], {}]]"#;
    let expected = Request {
        msg_id: 1,
        method: "get_data".to_string(),
        args: vec![Json::Object(vec![(
            "eid_1".to_string(),
            Json::Array(vec![
                Json::String("attr_1".to_string()),
                Json::String("attr_2".to_string()),
            ]),
        )])],
        kwargs: vec![],
    };
    assert!(parse_json_request(valid_request).is_ok());
    assert_eq!(parse_json_request(valid_request).unwrap(), expected);
}

#[test]
fn mosaik_protocol_test_handle_request_init_success() {
    let request = Request {
        msg_id: 789,
        method: "init".to_string(),
        args: vec![Json::String("simID-1".to_string())],
        kwargs: vec![],
    };
    let (id, call) = match handle_request(request, None) {
        Handling::Call(id, call) => (id, call),
        other => panic!("expected a call, got {:?}", other),
    };
    assert_eq!(
        call,
        ApiCall::Init {
            sid: "simID-1".to_string(),
            time_resolution: None,
            sim_params: vec![],
        }
    );
    let payload: Value =
        serde_json::from_str(r#"{"api_version":"3.0","type":"hybrid","models":{}}"#).unwrap();
    let actual_response = respond(id, CallOutcome::Value(json_text(&payload)));
    assert_eq!(
        actual_response,
        Response::Reply(MosaikMessage {
            msg_type: MsgType::ReplySuccess,
            id: 789,
            content: json_text(&payload),
        })
    );
}

#[test]
fn mosaik_protocol_test_handle_request_init_failure() {
    let request = Request {
        msg_id: 123,
        method: "init".to_string(),
        args: vec![Json::Number(JsonNumber::PosInt(0))],
        kwargs: vec![
            (
                "step_size".to_string(),
                Json::Number(JsonNumber::PosInt(60)),
            ),
            (
                "time_resolution".to_string(),
                Json::Number(JsonNumber::Float("0.1".to_string())),
            ),
        ],
    };
    let actual = match handle_request(request, None) {
        Handling::Respond(response) => response,
        other => panic!("expected an immediate response, got {:?}", other),
    };
    let expected = Response::Reply(MosaikMessage {
        msg_type: MsgType::ReplyFailure,
        id: 123,
        content: failure_text(MosaikError::ParseError("Invalid SimId format".to_string())),
    });
    assert_eq!(actual, expected);
}

#[test]
fn test_handle_request_init_user_error() {
    let request = Request {
        msg_id: 789,
        method: "init".to_string(),
        args: vec![
            Json::String("arg1".to_string()),
            Json::String("arg2".to_string()),
        ],
        kwargs: vec![],
    };
    let (id, call) = match handle_request(request, None) {
        Handling::Call(id, call) => (id, call),
        other => panic!("expected a call, got {:?}", other),
    };
    assert_eq!(
        call,
        ApiCall::Init {
            sid: "arg1".to_string(),
            time_resolution: None,
            sim_params: vec![],
        }
    );
    let expected_response = Response::Reply(MosaikMessage {
        msg_type: MsgType::ReplyFailure,
        id: 789,
        content: failure_text(MosaikError::UserError("some custom error".to_string())),
    });
    let actual_response = respond(id, CallOutcome::UserError("some custom error".to_string()));
    assert_eq!(actual_response, expected_response);
}

#[test]
fn mosaik_protocol_test_handle_request_create() {
    let request = Request {
        msg_id: 1,
        method: "create".to_string(),
        args: vec![
            Json::Number(JsonNumber::PosInt(1)),
            Json::String("Grid".to_string()),
        ],
        kwargs: vec![(
            "topology_file".to_string(),
            Json::String("data/grid.json".to_string()),
        )],
    };
    let created: Value = serde_json::from_str(
        r#"[{"eid":"Grid_1","type":"Grid","children":[{"eid":"node_0","type":"Node"},{"eid":"node_1","type":"Node"},{"eid":"branch_0","type":"Branch","rel":["node_0","node_1"]}]}]"#,
    )
    .unwrap();
    let expect = MosaikMessage {
        msg_type: MsgType::ReplySuccess,
        id: 1,
        content: json_text(&created),
    };
    let (id, call) = match handle_request(request, None) {
        Handling::Call(id, call) => (id, call),
        other => panic!("expected a call, got {:?}", other),
    };
    assert_eq!(
        call,
        ApiCall::Create {
            num: 1,
            model_name: "Grid".to_string(),
            model_params: vec![(
                "topology_file".to_string(),
                Json::String("data/grid.json".to_string()),
            )],
        }
    );
    let result = respond(id, CallOutcome::Value(json_text(&created)));
    assert_eq!(result, Response::Reply(expect));
}

#[test]
fn mosaik_protocol_test_handle_request_setup_done() {
    let request = Request {
        msg_id: 1,
        method: "setup_done".to_string(),
        args: vec![],
        kwargs: vec![],
    };
    let expect = MosaikMessage {
        msg_type: MsgType::ReplySuccess,
        id: 1,
        content: json_text(&Value::Null),
    };
    let (id, call) = match handle_request(request, None) {
        Handling::Call(id, call) => (id, call),
        other => panic!("expected a call, got {:?}", other),
    };
    assert_eq!(call, ApiCall::SetupDone);
    let result = respond(id, CallOutcome::Done);
    assert_eq!(result, Response::Reply(expect));
}

#[test]
fn mosaik_protocol_test_handle_request_step() {
    let inputs: Value = serde_json::from_str(
        r#"{"node_1": {"P": {"full_id1":20, "full_id2":3.1}, "Q": {"full_id1":3,"full_id2": -2.5}},
            "node_2": {"P": {"full_id1":42}, "Q": {"full_id1":-23.2}}}"#,
    )
    .unwrap();
    let request = Request {
        msg_id: 1,
        method: "step".to_string(),
        args: vec![
            Json::Number(JsonNumber::PosInt(60)),
            to_json(inputs.clone()),
            Json::Number(JsonNumber::PosInt(3600)),
        ],
        kwargs: vec![],
    };
    let expect = MosaikMessage {
        msg_type: MsgType::ReplySuccess,
        id: 1,
        content: json_text(&Value::from(120)),
    };
    let (id, call) = match handle_request(request, None) {
        Handling::Call(id, call) => (id, call),
        other => panic!("expected a call, got {:?}", other),
    };
    let expected_inputs = mosaik_rust_api::json::input_data(to_json(inputs)).unwrap();
    assert_eq!(
        call,
        ApiCall::Step {
            time: 60,
            inputs: expected_inputs,
            max_advance: 3600,
        }
    );
    let result = respond(id, CallOutcome::Value(json_text(&Value::from(120))));
    assert_eq!(result, Response::Reply(expect));
}

#[test]
fn mosaik_protocol_test_handle_request_get_data() {
    let request = Request {
        msg_id: 1,
        method: "get_data".to_string(),
        args: vec![to_json(serde_json::from_str(r#"{"branch_0": ["I"]}"#).unwrap())],
        kwargs: vec![],
    };
    let data: Value = serde_json::from_str(r#"{"branch_0": {"I": 42.5}, "time": 123}"#).unwrap();
    let expect = MosaikMessage {
        msg_type: MsgType::ReplySuccess,
        id: 1,
        content: json_text(&data),
    };
    let (id, call) = match handle_request(request, None) {
        Handling::Call(id, call) => (id, call),
        other => panic!("expected a call, got {:?}", other),
    };
    assert_eq!(
        call,
        ApiCall::GetData {
            outputs: vec![("branch_0".to_string(), vec!["I".to_string()])],
        }
    );
    let result = respond(id, CallOutcome::Value(json_text(&data)));
    assert_eq!(result, Response::Reply(expect));
}

#[test]
fn mosaik_protocol_test_handle_request_stop() {
    let request = Request {
        msg_id: 1,
        method: "stop".to_string(),
        args: vec![],
        kwargs: vec![],
    };
    let (id, call) = match handle_request(request, None) {
        Handling::Call(id, call) => (id, call),
        other => panic!("expected a call, got {:?}", other),
    };
    assert_eq!(call, ApiCall::Stop);
    let result = respond(id, CallOutcome::Stopped);
    assert_eq!(result, Response::Stop);
}

#[test]
fn mosaik_protocol_test_msg_type_deserialization() {
    let actual = msg_type_from_json(&to_json(serde_json::from_str("0").unwrap()));
    assert_eq!(actual, Some(MsgType::Request));

    let actual = msg_type_from_json(&to_json(serde_json::from_str("1").unwrap()));
    assert_eq!(actual, Some(MsgType::ReplySuccess));

    let actual = msg_type_from_json(&to_json(serde_json::from_str("2").unwrap()));
    assert_eq!(actual, Some(MsgType::ReplyFailure));
}

#[test]
fn mosaik_protocol_test_msg_type_deserialization_error() {
    let actual = msg_type_from_json(&to_json(serde_json::from_str("3").unwrap()));
    assert!(actual.is_none());
    assert_eq!(MsgType::from_code(3), None);
}

#[test]
fn mosaik_protocol_test_msg_type_serialization() {
    for (msg_type, number) in [
        (MsgType::Request, 0u8),
        (MsgType::ReplySuccess, 1),
        (MsgType::ReplyFailure, 2),
    ] {
        assert_eq!(msg_type.code(), number);
        let message = MosaikMessage {
            msg_type,
            id: 7,
            content: b"null".to_vec(),
        };
        let expect = format!("[{},7,null]", number);
        assert_eq!(message.to_vec(), expect.into_bytes());
    }
}

#[test]
fn request_message_reads_back() {
    let message = Value::Array(vec![Value::from(0), Value::from(42), hello_world_content()]);
    let text = serde_json::to_string(&message).unwrap();
    assert_eq!(parse_json_request(&text), Ok(hello_world_request(42)));
}
