use r3bar::error::{BarError, IoError, IoKind};
use r3bar::json::Json;
use r3bar::message::WebpackInfo;

fn object(fields: Vec<(&str, Json)>) -> Json {
    Json::Object(fields.into_iter().map(|(k, v)| (k.to_string(), v)).collect())
}

#[test]
fn webpack_info_is_read_from_the_change_member() {
    assert_eq!(WebpackInfo::from_str("{\"change\":\"compile\"}"), Ok(WebpackInfo::Compile));
    assert_eq!(WebpackInfo::from_str("{\"change\":\"done\"}"), Ok(WebpackInfo::Done));
    assert_eq!(
        WebpackInfo::from_str(" { \"other\": [1, 2.5, null], \"change\" : \"done\" } "),
        Ok(WebpackInfo::Done)
    );
}

#[test]
fn webpack_info_refuses_other_values_of_change() {
    let neither = Err(BarError::Bar("change field neither compile nor done".to_string()));
    assert_eq!(WebpackInfo::from_str("{\"change\":\"bogus\"}"), neither);
    assert_eq!(WebpackInfo::from_str("{\"change\":\"Compile\"}"), neither);
    assert_eq!(WebpackInfo::from_str("{\"change\":\"\"}"), neither);
}

#[test]
fn webpack_info_refuses_a_change_that_is_no_text() {
    let missing = Err(BarError::Bar("change field missing String".to_string()));
    assert_eq!(WebpackInfo::from_str("{}"), missing);
    assert_eq!(WebpackInfo::from_str("{\"change\": 1}"), missing);
    assert_eq!(WebpackInfo::from_str("{\"change\": null}"), missing);
    assert_eq!(WebpackInfo::from_str("{\"change\": [\"compile\"]}"), missing);
    assert_eq!(WebpackInfo::from_str("{\"Change\": \"compile\"}"), missing);
}

#[test]
fn webpack_info_refuses_what_is_no_object() {
    let not_object = Err(BarError::Bar("webpack json not object".to_string()));
    assert_eq!(WebpackInfo::from_str("[]"), not_object);
    assert_eq!(WebpackInfo::from_str("\"compile\""), not_object);
    assert_eq!(WebpackInfo::from_str("null"), not_object);
    assert_eq!(WebpackInfo::from_str("17"), not_object);
}

#[test]
fn webpack_info_refuses_what_is_no_json() {
    for payload in ["", "{", "{\"change\":\"compile\"", "compile", "{'change':'compile'}"] {
        match WebpackInfo::from_str(payload) {
            Err(BarError::Json(why)) => assert!(!why.is_empty()),
            other => panic!("expected a json error for {:?}, got {:?}", payload, other),
        }
    }
    assert_eq!(
        WebpackInfo::from_str(""),
        Err(BarError::Json("EOF while parsing a value at line 1 column 0".to_string()))
    );
}

#[test]
fn webpack_info_is_read_from_a_json_value() {
    let value = object(vec![("change", Json::Text("compile".to_string()))]);
    assert_eq!(WebpackInfo::from_json(&value), Ok(WebpackInfo::Compile));
    let value = object(vec![
        ("change", Json::Text("done".to_string())),
        ("change", Json::Text("compile".to_string())),
    ]);
    assert_eq!(WebpackInfo::from_json(&value), Ok(WebpackInfo::Done));
    let value = Json::Array(vec![Json::Text("compile".to_string())]);
    assert_eq!(
        WebpackInfo::from_json(&value),
        Err(BarError::Bar("webpack json not object".to_string()))
    );
}

#[test]
fn json_get_finds_the_first_member_of_that_name() {
    let value = object(vec![
        ("a", Json::Bool(true)),
        ("b", Json::Null),
        ("a", Json::Bool(false)),
        ("n", Json::Number("2.5".to_string())),
    ]);
    assert_eq!(value.get("a"), Some(&Json::Bool(true)));
    assert_eq!(value.get("b"), Some(&Json::Null));
    assert_eq!(value.get("n"), Some(&Json::Number("2.5".to_string())));
    assert_eq!(value.get("c"), None);
    assert_eq!(Json::Array(vec![]).get("a"), None);
    assert_eq!(Json::Text("a".to_string()).get("a"), None);
}

#[test]
fn errors_report_their_kind_and_text() {
    let io = BarError::Io(IoError { kind: IoKind::Other, text: "broken pipe".to_string() });
    assert_eq!(io.to_string(), "IO error: broken pipe");
    assert_eq!(io.description(), "broken pipe");
    assert_eq!(BarError::Font("no face".to_string()).to_string(), "Font error: no face");
    assert_eq!(BarError::Utf8("bad byte".to_string()).to_string(), "Utf8 error: bad byte");
    assert_eq!(BarError::Json("eof".to_string()).to_string(), "Json error: eof");
    assert_eq!(
        BarError::I3Establish("no socket".to_string()).to_string(),
        "I3 establish error: no socket"
    );
    assert_eq!(BarError::I3Message("lost".to_string()).to_string(), "I3 message error: lost");
    assert_eq!(BarError::Bar("rule".to_string()).to_string(), "Bar error: rule");
    assert_eq!(BarError::Bar("rule".to_string()).description(), "rule");
    assert_eq!(BarError::Bar(String::new()).to_string(), "Bar error: ");
}

#[test]
fn errors_are_made_from_texts_and_stream_failures() {
    assert_eq!(BarError::from("why".to_string()), BarError::Bar("why".to_string()));
    let failure = IoError { kind: IoKind::UnexpectedEof, text: "eof".to_string() };
    assert_eq!(
        BarError::from(failure),
        BarError::Io(IoError { kind: IoKind::UnexpectedEof, text: "eof".to_string() })
    );
}
