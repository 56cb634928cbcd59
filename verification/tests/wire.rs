use protocol::{DecodeError, Request, Response};
use serde_json::Value;

fn text(bytes: &[u8]) -> String {
    String::from_utf8(bytes.to_vec()).unwrap()
}

fn object(members: Vec<(&str, Value)>) -> Value {
    let mut map = serde_json::Map::new();
    for (name, value) in members {
        map.insert(name.to_string(), value);
    }
    Value::Object(map)
}

fn request_lines() -> Vec<&'static str> {
    vec![
        "{\"message\":{\"BeginCommand\":{\"block_for\":{},\"command\":{\"Unknown\":[\"ls\",[]]},\"process\":{\"id\":1,\"stderr\":4,\"stdin\":2,\"stdout\":3}}},\"remote_id\":0}\n",
        "{\"message\":{\"BeginCommand\":{\"block_for\":{\"1\":\"Success\",\"10\":null,\"2\":\"Failure\"},\"command\":{\"Unknown\":[\"cc\",[\"-o\",\"a b\",\"\"]]},\"process\":{\"id\":11,\"stderr\":14,\"stdin\":12,\"stdout\":7}}},\"remote_id\":3}\n",
        "{\"message\":{\"BeginCommand\":{\"block_for\":{},\"command\":{\"SetDirectory\":\"/srv\"},\"process\":{\"id\":1,\"stderr\":4,\"stdin\":2,\"stdout\":3}}},\"remote_id\":0}\n",
        "{\"message\":{\"BeginCommand\":{\"block_for\":{},\"command\":{\"Edit\":\"notes.txt\"},\"process\":{\"id\":1,\"stderr\":4,\"stdin\":2,\"stdout\":3}}},\"remote_id\":0}\n",
        "{\"message\":{\"CancelCommand\":{\"id\":17}},\"remote_id\":2}\n",
        "{\"message\":{\"BeginRemote\":{\"command\":{\"Unknown\":[\"ssh host\",[]]},\"id\":1}},\"remote_id\":0}\n",
        "{\"message\":{\"OpenFile\":{\"id\":6,\"path\":\"/tmp/out\"}},\"remote_id\":0}\n",
        "{\"message\":{\"EndRemote\":{\"id\":3}},\"remote_id\":1}\n",
        "{\"message\":{\"ListDirectory\":{\"id\":3,\"path\":\"/etc\"}},\"remote_id\":0}\n",
        "{\"message\":{\"FinishEdit\":{\"data\":[110,101,119],\"id\":9}},\"remote_id\":1}\n",
        "{\"message\":{\"PipeData\":{\"data\":[0,127,128,255],\"id\":2}},\"remote_id\":0}\n",
        "{\"message\":{\"PipeRead\":{\"count_bytes\":4096,\"id\":2}},\"remote_id\":0}\n",
    ]
}

fn response_lines() -> Vec<&'static str> {
    vec![
        "{\"message\":{\"CommandDone\":{\"exit_code\":0,\"id\":5}},\"remote_id\":0}\n",
        "{\"message\":{\"CommandDone\":{\"exit_code\":-127,\"id\":5}},\"remote_id\":0}\n",
        "{\"message\":{\"DirectoryListing\":{\"id\":3,\"items\":[\"a\",\"b\"]}},\"remote_id\":0}\n",
        "{\"message\":{\"DirectoryListing\":{\"id\":3,\"items\":[]}},\"remote_id\":0}\n",
        "{\"message\":{\"EditRequest\":{\"command_id\":5,\"data\":[111,108,100],\"edit_id\":9,\"name\":\"file.txt\"}},\"remote_id\":0}\n",
        "{\"message\":{\"PipeData\":{\"data\":[],\"id\":7}},\"remote_id\":0}\n",
        "{\"message\":{\"PipeRead\":{\"count_bytes\":0,\"id\":7}},\"remote_id\":0}\n",
    ]
}

#[test]
fn requests_are_written_as_they_were_read() {
    for line in request_lines() {
        let request = Request::decode(line.as_bytes()).unwrap();
        assert_eq!(text(&request.encode()), line);
    }
}

#[test]
fn responses_are_written_as_they_were_read() {
    for line in response_lines() {
        let response = Response::decode(line.as_bytes()).unwrap();
        assert_eq!(text(&response.encode()), line);
    }
}

#[test]
fn requests_round_trip() {
    for line in request_lines() {
        let request = Request::decode(line.as_bytes()).unwrap();
        let again = Request::decode(&request.encode()).unwrap();
        assert_eq!(again, request);
        assert_eq!(Request::from_value(&request.to_value()), Some(request));
    }
}

#[test]
fn responses_round_trip() {
    for line in response_lines() {
        let response = Response::decode(line.as_bytes()).unwrap();
        let again = Response::decode(&response.encode()).unwrap();
        assert_eq!(again, response);
        assert_eq!(Response::from_value(&response.to_value()), Some(response));
    }
}

#[test]
fn different_messages_decode_differently() {
    let lines = request_lines();
    for (i, first) in lines.iter().enumerate() {
        for (j, second) in lines.iter().enumerate() {
            let a = Request::decode(first.as_bytes()).unwrap();
            let b = Request::decode(second.as_bytes()).unwrap();
            assert_eq!(a == b, i == j);
        }
    }
}

#[test]
fn texts_with_special_characters_round_trip() {
    let path = "dir/\"quoted\"\\back\nline\ttab \u{e9}\u{4e16}\u{1f600}\u{0}";
    let value = object(vec![
        ("remote_id", Value::from(0u64)),
        (
            "message",
            object(vec![(
                "OpenFile",
                object(vec![("id", Value::from(1u64)), ("path", Value::from(path))]),
            )]),
        ),
    ]);
    let request = Request::from_value(&value).unwrap();
    let bytes = request.encode();
    assert_eq!(*bytes.last().unwrap(), b'\n');
    assert_eq!(bytes.iter().filter(|byte| **byte == b'\n').count(), 1);
    let again = Request::decode(&bytes).unwrap();
    assert_eq!(again, request);
    assert_eq!(again.to_value(), value);
}

#[test]
fn a_message_ends_with_one_line_feed() {
    for line in request_lines() {
        let bytes = Request::decode(line.as_bytes()).unwrap().encode();
        assert_eq!(bytes[bytes.len() - 1], 10);
        assert!(!bytes[..bytes.len() - 1].contains(&10));
    }
}

#[test]
fn to_value_builds_the_document() {
    let request = Request::decode(
        b"{\"remote_id\":4,\"message\":{\"BeginCommand\":{\"block_for\":{\"3\":\"Success\",\"9\":null},\"process\":{\"id\":5,\"stdin\":6,\"stdout\":7,\"stderr\":8},\"command\":{\"Unknown\":[\"ls\",[\"-l\"]]}}}}",
    )
    .unwrap();
    let expected = object(vec![
        ("remote_id", Value::from(4u64)),
        (
            "message",
            object(vec![(
                "BeginCommand",
                object(vec![
                    (
                        "block_for",
                        object(vec![("3", Value::from("Success")), ("9", Value::Null)]),
                    ),
                    (
                        "process",
                        object(vec![
                            ("id", Value::from(5u64)),
                            ("stdin", Value::from(6u64)),
                            ("stdout", Value::from(7u64)),
                            ("stderr", Value::from(8u64)),
                        ]),
                    ),
                    (
                        "command",
                        object(vec![(
                            "Unknown",
                            Value::Array(vec![
                                Value::from("ls"),
                                Value::Array(vec![Value::from("-l")]),
                            ]),
                        )]),
                    ),
                ]),
            )]),
        ),
    ]);
    assert_eq!(request.to_value(), expected);
    assert_eq!(Request::from_value(&expected), Some(request));
}

#[test]
fn response_to_value_builds_the_document() {
    let response = Response::decode(
        b"{\"remote_id\":0,\"message\":{\"EditRequest\":{\"command_id\":5,\"edit_id\":9,\"name\":\"f\",\"data\":[1,2]}}}",
    )
    .unwrap();
    let expected = object(vec![
        ("remote_id", Value::from(0u64)),
        (
            "message",
            object(vec![(
                "EditRequest",
                object(vec![
                    ("command_id", Value::from(5u64)),
                    ("edit_id", Value::from(9u64)),
                    ("name", Value::from("f")),
                    ("data", Value::Array(vec![Value::from(1u64), Value::from(2u64)])),
                ]),
            )]),
        ),
    ]);
    assert_eq!(response.to_value(), expected);
    assert_eq!(Response::from_value(&expected), Some(response));
}

#[test]
fn members_may_come_in_any_order() {
    let a = Request::decode(
        b"{\"remote_id\":0,\"message\":{\"OpenFile\":{\"id\":6,\"path\":\"/tmp/out\"}}}",
    )
    .unwrap();
    let b = Request::decode(
        b"{\"message\":{\"OpenFile\":{\"path\":\"/tmp/out\",\"id\":6}},\"remote_id\":0}",
    )
    .unwrap();
    assert_eq!(a, b);
}

#[test]
fn white_space_around_the_document_is_passed_over() {
    let a = Request::decode(b"  \n{\"remote_id\":0,\"message\":{\"EndRemote\":{\"id\":3}}}\r\n\n")
        .unwrap();
    let b = Request::decode(b"{ \"remote_id\" : 0 , \"message\" : { \"EndRemote\" : { \"id\" : 3 } } }")
        .unwrap();
    assert_eq!(a, b);
    assert_eq!(a.remote_id, 0);
}

#[test]
fn members_that_are_not_asked_for_are_passed_over() {
    let a = Request::decode(
        b"{\"remote_id\":0,\"hop\":7,\"message\":{\"EndRemote\":{\"id\":3,\"why\":\"done\"}}}",
    )
    .unwrap();
    let b = Request::decode(b"{\"remote_id\":0,\"message\":{\"EndRemote\":{\"id\":3}}}").unwrap();
    assert_eq!(a, b);
}

#[test]
fn bytes_that_are_no_document_are_a_syntax_error() {
    let texts: Vec<&[u8]> = vec![
        b"",
        b"not json",
        b"{",
        b"{\"remote_id\":0,\"message\":{\"EndRemote\":{\"id\":3}}",
        b"{\"remote_id\":0,\"message\":{\"EndRemote\":{\"id\":3}}} trailing",
        b"{\"remote_id\":0,\"message\":{\"EndRemote\":{\"id\":03}}}",
        b"{'remote_id':0}",
        b"\xff\xfe",
    ];
    for bytes in texts {
        assert_eq!(Request::decode(bytes), Err(DecodeError::Syntax));
        assert_eq!(Response::decode(bytes), Err(DecodeError::Syntax));
    }
}

#[test]
fn documents_that_are_no_request_are_a_shape_error() {
    let texts: Vec<&str> = vec![
        "null",
        "1",
        "\"EndRemote\"",
        "[0,{\"EndRemote\":{\"id\":3}}]",
        "{}",
        "{\"remote_id\":0}",
        "{\"message\":{\"EndRemote\":{\"id\":3}}}",
        "{\"remote_id\":\"0\",\"message\":{\"EndRemote\":{\"id\":3}}}",
        "{\"remote_id\":-1,\"message\":{\"EndRemote\":{\"id\":3}}}",
        "{\"remote_id\":0.0,\"message\":{\"EndRemote\":{\"id\":3}}}",
        "{\"remote_id\":1e2,\"message\":{\"EndRemote\":{\"id\":3}}}",
        "{\"remote_id\":18446744073709551616,\"message\":{\"EndRemote\":{\"id\":3}}}",
        "{\"remote_id\":null,\"message\":{\"EndRemote\":{\"id\":3}}}",
        "{\"remote_id\":0,\"message\":null}",
        "{\"remote_id\":0,\"message\":\"EndRemote\"}",
        "{\"remote_id\":0,\"message\":{}}",
        "{\"remote_id\":0,\"message\":{\"EndRemote\":{\"id\":3},\"OpenFile\":{\"id\":3,\"path\":\"p\"}}}",
        "{\"remote_id\":0,\"message\":{\"endremote\":{\"id\":3}}}",
        "{\"remote_id\":0,\"message\":{\"CommandDone\":{\"id\":3,\"exit_code\":0}}}",
        "{\"remote_id\":0,\"message\":{\"EndRemote\":{}}}",
        "{\"remote_id\":0,\"message\":{\"EndRemote\":[3]}}",
        "{\"remote_id\":0,\"message\":{\"EndRemote\":{\"id\":\"3\"}}}",
        "{\"remote_id\":0,\"message\":{\"OpenFile\":{\"id\":3}}}",
        "{\"remote_id\":0,\"message\":{\"OpenFile\":{\"id\":3,\"path\":7}}}",
        "{\"remote_id\":0,\"message\":{\"PipeData\":{\"id\":3,\"data\":[256]}}}",
        "{\"remote_id\":0,\"message\":{\"PipeData\":{\"id\":3,\"data\":[-1]}}}",
        "{\"remote_id\":0,\"message\":{\"PipeData\":{\"id\":3,\"data\":[1.5]}}}",
        "{\"remote_id\":0,\"message\":{\"PipeData\":{\"id\":3,\"data\":\"abc\"}}}",
        "{\"remote_id\":0,\"message\":{\"PipeRead\":{\"id\":3}}}",
        "{\"remote_id\":0,\"message\":{\"BeginRemote\":{\"id\":1,\"command\":\"ls\"}}}",
        "{\"remote_id\":0,\"message\":{\"BeginRemote\":{\"id\":1,\"command\":{\"Unknown\":[\"ls\"]}}}}",
        "{\"remote_id\":0,\"message\":{\"BeginRemote\":{\"id\":1,\"command\":{\"Unknown\":[\"ls\",[],[]]}}}}",
        "{\"remote_id\":0,\"message\":{\"BeginRemote\":{\"id\":1,\"command\":{\"Unknown\":[\"ls\",[1]]}}}}",
        "{\"remote_id\":0,\"message\":{\"BeginRemote\":{\"id\":1,\"command\":{\"Unknown\":\"ls\"}}}}",
        "{\"remote_id\":0,\"message\":{\"BeginRemote\":{\"id\":1,\"command\":{\"Run\":\"ls\"}}}}",
        "{\"remote_id\":0,\"message\":{\"BeginRemote\":{\"id\":1,\"command\":{\"Edit\":\"a\",\"SetDirectory\":\"b\"}}}}",
        "{\"remote_id\":0,\"message\":{\"BeginCommand\":{\"process\":{\"id\":1,\"stdin\":2,\"stdout\":3,\"stderr\":4},\"command\":{\"Edit\":\"a\"}}}}",
        "{\"remote_id\":0,\"message\":{\"BeginCommand\":{\"block_for\":[],\"process\":{\"id\":1,\"stdin\":2,\"stdout\":3,\"stderr\":4},\"command\":{\"Edit\":\"a\"}}}}",
        "{\"remote_id\":0,\"message\":{\"BeginCommand\":{\"block_for\":{\"x\":null},\"process\":{\"id\":1,\"stdin\":2,\"stdout\":3,\"stderr\":4},\"command\":{\"Edit\":\"a\"}}}}",
        "{\"remote_id\":0,\"message\":{\"BeginCommand\":{\"block_for\":{\"01\":null},\"process\":{\"id\":1,\"stdin\":2,\"stdout\":3,\"stderr\":4},\"command\":{\"Edit\":\"a\"}}}}",
        "{\"remote_id\":0,\"message\":{\"BeginCommand\":{\"block_for\":{\"-1\":null},\"process\":{\"id\":1,\"stdin\":2,\"stdout\":3,\"stderr\":4},\"command\":{\"Edit\":\"a\"}}}}",
        "{\"remote_id\":0,\"message\":{\"BeginCommand\":{\"block_for\":{\"99999999999999999999999\":null},\"process\":{\"id\":1,\"stdin\":2,\"stdout\":3,\"stderr\":4},\"command\":{\"Edit\":\"a\"}}}}",
        "{\"remote_id\":0,\"message\":{\"BeginCommand\":{\"block_for\":{\"1\":\"Done\"},\"process\":{\"id\":1,\"stdin\":2,\"stdout\":3,\"stderr\":4},\"command\":{\"Edit\":\"a\"}}}}",
        "{\"remote_id\":0,\"message\":{\"BeginCommand\":{\"block_for\":{\"1\":0},\"process\":{\"id\":1,\"stdin\":2,\"stdout\":3,\"stderr\":4},\"command\":{\"Edit\":\"a\"}}}}",
        "{\"remote_id\":0,\"message\":{\"BeginCommand\":{\"block_for\":{},\"process\":{\"id\":1,\"stdin\":2,\"stdout\":3},\"command\":{\"Edit\":\"a\"}}}}",
        "{\"remote_id\":0,\"message\":{\"BeginCommand\":{\"block_for\":{},\"process\":[1,2,3,4],\"command\":{\"Edit\":\"a\"}}}}",
    ];
    for line in texts {
        assert_eq!(Request::decode(line.as_bytes()), Err(DecodeError::Shape));
    }
}

#[test]
fn documents_that_are_no_response_are_a_shape_error() {
    let texts: Vec<&str> = vec![
        "{}",
        "{\"remote_id\":0,\"message\":{\"EndRemote\":{\"id\":3}}}",
        "{\"remote_id\":0,\"message\":{\"CommandDone\":{\"id\":3}}}",
        "{\"remote_id\":0,\"message\":{\"CommandDone\":{\"id\":3,\"exit_code\":1.5}}}",
        "{\"remote_id\":0,\"message\":{\"CommandDone\":{\"id\":3,\"exit_code\":9223372036854775808}}}",
        "{\"remote_id\":0,\"message\":{\"CommandDone\":{\"id\":3,\"exit_code\":\"0\"}}}",
        "{\"remote_id\":0,\"message\":{\"DirectoryListing\":{\"id\":3,\"items\":[1]}}}",
        "{\"remote_id\":0,\"message\":{\"DirectoryListing\":{\"id\":3,\"items\":\"a\"}}}",
        "{\"remote_id\":0,\"message\":{\"EditRequest\":{\"command_id\":5,\"edit_id\":9,\"name\":\"f\"}}}",
        "{\"remote_id\":0,\"message\":{\"EditRequest\":{\"command_id\":5,\"name\":\"f\",\"data\":[]}}}",
        "{\"remote_id\":0,\"message\":{\"PipeData\":{\"id\":3,\"data\":[300]}}}",
        "{\"remote_id\":0,\"message\":{\"PipeRead\":{\"id\":3,\"count_bytes\":-4}}}",
    ];
    for line in texts {
        assert_eq!(Response::decode(line.as_bytes()), Err(DecodeError::Shape));
    }
}

#[test]
fn from_value_refuses_what_is_no_message() {
    assert_eq!(Request::from_value(&Value::Null), None);
    assert_eq!(Request::from_value(&Value::Bool(true)), None);
    assert_eq!(Request::from_value(&Value::from(3u64)), None);
    assert_eq!(Request::from_value(&Value::Array(Vec::new())), None);
    assert_eq!(Response::from_value(&Value::Null), None);
    assert_eq!(Response::from_value(&object(Vec::new())), None);
}

#[test]
fn largest_numbers_are_read_and_written() {
    let line = format!(
        "{{\"message\":{{\"PipeRead\":{{\"count_bytes\":{},\"id\":{}}}}},\"remote_id\":{}}}\n",
        usize::MAX,
        usize::MAX - 1,
        usize::MAX - 2
    );
    let request = Request::decode(line.as_bytes()).unwrap();
    assert_eq!(request.remote_id, usize::MAX - 2);
    assert_eq!(text(&request.encode()), line);
}

#[test]
fn a_gate_is_named_by_the_number_of_its_process() {
    let request = Request::decode(
        b"{\"remote_id\":0,\"message\":{\"BeginCommand\":{\"block_for\":{\"100\":\"Failure\",\"20\":\"Success\",\"3\":null},\"process\":{\"id\":101,\"stdin\":102,\"stdout\":103,\"stderr\":104},\"command\":{\"Edit\":\"a\"}}}}",
    )
    .unwrap();
    let written = text(&request.encode());
    assert!(written.contains("\"block_for\":{\"100\":\"Failure\",\"20\":\"Success\",\"3\":null}"));
}
