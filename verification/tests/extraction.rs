use transcribe::error::{ExtractError, Malformation, TranscriptionError};
use transcribe::extract::{extract, interpret, interpret_document};
use transcribe::json::{parse_json, Json};
use transcribe::retry::Response;

fn object(members: Vec<(&str, Json)>) -> Json {
    Json::Object(members.into_iter().map(|(k, v)| (k.to_string(), v)).collect())
}

fn text(s: &str) -> Json {
    Json::Text(s.to_string())
}

fn document(transcript: Json) -> Json {
    object(vec![(
        "results",
        object(vec![(
            "channels",
            Json::Array(vec![object(vec![(
                "alternatives",
                Json::Array(vec![object(vec![("transcript", transcript)])]),
            )])]),
        )]),
    )])
}

#[test]
fn transcript_is_taken_from_the_fixed_path() {
    let body = parse_json(
        "{\"results\":{\"channels\":[{\"alternatives\":[{\"transcript\":\"hello world\"}]}]}}",
    )
    .unwrap();
    assert_eq!(extract(&body), Ok("hello world".to_string()));
}

#[test]
fn empty_results_are_malformed() {
    let body = parse_json("{\"results\":{}}").unwrap();
    assert_eq!(extract(&body), Err(ExtractError::MalformedResponse));
}

#[test]
fn transcript_is_taken_from_a_value_built_by_hand() {
    assert_eq!(extract(&document(text("hello world"))), Ok("hello world".to_string()));
    assert_eq!(extract(&document(text(""))), Ok(String::new()));
}

#[test]
fn transcript_of_the_wrong_type_is_malformed() {
    assert_eq!(extract(&document(Json::Null)), Err(ExtractError::MalformedResponse));
    assert_eq!(
        extract(&document(Json::Number("3".to_string()))),
        Err(ExtractError::MalformedResponse)
    );
    assert_eq!(extract(&document(Json::Boolean(true))), Err(ExtractError::MalformedResponse));
    assert_eq!(
        extract(&document(Json::Array(vec![text("hello")]))),
        Err(ExtractError::MalformedResponse)
    );
}

#[test]
fn empty_arrays_are_malformed() {
    let no_channels = object(vec![("results", object(vec![("channels", Json::Array(vec![]))]))]);
    assert_eq!(extract(&no_channels), Err(ExtractError::MalformedResponse));
    let no_alternatives = object(vec![(
        "results",
        object(vec![(
            "channels",
            Json::Array(vec![object(vec![("alternatives", Json::Array(vec![]))])]),
        )]),
    )]);
    assert_eq!(extract(&no_alternatives), Err(ExtractError::MalformedResponse));
}

#[test]
fn wrong_shapes_are_malformed() {
    assert_eq!(extract(&Json::Null), Err(ExtractError::MalformedResponse));
    assert_eq!(extract(&text("results")), Err(ExtractError::MalformedResponse));
    assert_eq!(extract(&Json::Array(vec![])), Err(ExtractError::MalformedResponse));
    assert_eq!(extract(&object(vec![])), Err(ExtractError::MalformedResponse));
    let channels_is_object =
        object(vec![("results", object(vec![("channels", object(vec![]))]))]);
    assert_eq!(extract(&channels_is_object), Err(ExtractError::MalformedResponse));
    let results_is_array = object(vec![("results", Json::Array(vec![document(text("x"))]))]);
    assert_eq!(extract(&results_is_array), Err(ExtractError::MalformedResponse));
}

#[test]
fn only_the_first_channel_and_alternative_count() {
    let body = parse_json(
        "{\"results\":{\"channels\":[{\"alternatives\":[{\"transcript\":\"first\"},{\"transcript\":\"second\"}]},{\"alternatives\":[{\"transcript\":\"third\"}]}]}}",
    )
    .unwrap();
    assert_eq!(extract(&body), Ok("first".to_string()));
    let first_is_bare = parse_json(
        "{\"results\":{\"channels\":[{},{\"alternatives\":[{\"transcript\":\"third\"}]}]}}",
    )
    .unwrap();
    assert_eq!(extract(&first_is_bare), Err(ExtractError::MalformedResponse));
}

#[test]
fn other_members_are_passed_over() {
    let body = parse_json(
        "{\"metadata\":{\"id\":7},\"results\":{\"utterances\":[],\"channels\":[{\"words\":1,\"alternatives\":[{\"confidence\":0.5,\"transcript\":\"hi\"}]}]}}",
    )
    .unwrap();
    assert_eq!(extract(&body), Ok("hi".to_string()));
}

#[test]
fn the_first_member_of_a_name_is_the_one_found() {
    let body = object(vec![("a", text("one")), ("b", text("two")), ("a", text("three"))]);
    assert_eq!(body.get("a"), Some(&text("one")));
    assert_eq!(body.get("b"), Some(&text("two")));
    assert_eq!(body.get("c"), None);
    assert_eq!(text("a").get("a"), None);
}

#[test]
fn elements_are_found_by_index() {
    let list = Json::Array(vec![text("zero"), Json::Null]);
    assert_eq!(list.at(0), Some(&text("zero")));
    assert_eq!(list.at(1), Some(&Json::Null));
    assert_eq!(list.at(2), None);
    assert_eq!(object(vec![]).at(0), None);
    assert_eq!(text("zero").as_text(), Some("zero"));
    assert_eq!(Json::Null.as_text(), None);
}

#[test]
fn parsing_keeps_every_kind_of_value() {
    let body = parse_json("{\"b\":[true,null,\"x\\ny\"],\"a\":1.5,\"c\":{\"d\":-3}}").unwrap();
    assert_eq!(
        body,
        object(vec![
            ("a", Json::Number("1.5".to_string())),
            ("b", Json::Array(vec![Json::Boolean(true), Json::Null, text("x\ny")])),
            ("c", object(vec![("d", Json::Number("-3".to_string()))])),
        ])
    );
    assert_eq!(parse_json("\"plain\""), Some(text("plain")));
    assert_eq!(parse_json("[]"), Some(Json::Array(vec![])));
}

#[test]
fn parsing_refuses_what_is_no_json() {
    assert_eq!(parse_json(""), None);
    assert_eq!(parse_json("{"), None);
    assert_eq!(parse_json("{\"results\":}"), None);
    assert_eq!(parse_json("<html></html>"), None);
    assert_eq!(parse_json("{} trailing"), None);
}

#[test]
fn a_repeated_member_is_read_once_with_its_last_value() {
    let body = parse_json("{\"a\":1,\"a\":2}").unwrap();
    assert_eq!(body, object(vec![("a", Json::Number("2".to_string()))]));
}

fn response(status: u16, body: &str) -> Response {
    Response { status, body: body.to_string() }
}

#[test]
fn a_successful_response_yields_its_transcript() {
    let body = "{\"results\":{\"channels\":[{\"alternatives\":[{\"transcript\":\"hello world\"}]}]}}";
    assert_eq!(interpret(response(200, body)), Ok("hello world".to_string()));
    assert_eq!(interpret(response(299, body)), Ok("hello world".to_string()));
}

#[test]
fn a_status_outside_the_success_class_is_an_api_error() {
    let body = "{\"results\":{\"channels\":[{\"alternatives\":[{\"transcript\":\"hello world\"}]}]}}";
    for status in [100u16, 199, 300, 302, 404, 500, 0, 1000] {
        assert_eq!(
            interpret(response(status, body)),
            Err(TranscriptionError::ApiError { status, body: body.to_string() })
        );
    }
}

#[test]
fn a_success_without_json_is_malformed() {
    assert_eq!(
        interpret(response(200, "not json")),
        Err(TranscriptionError::MalformedResponse(Malformation::NotJson))
    );
    assert_eq!(
        interpret(response(200, "{\"results\":{}}")),
        Err(TranscriptionError::MalformedResponse(Malformation::NoTranscript))
    );
}

#[test]
fn a_document_handed_in_is_not_read_again() {
    assert_eq!(
        interpret_document(response(200, "ignored"), Some(document(text("given")))),
        Ok("given".to_string())
    );
    assert_eq!(
        interpret_document(response(200, "{}"), None),
        Err(TranscriptionError::MalformedResponse(Malformation::NotJson))
    );
    assert_eq!(
        interpret_document(response(503, "down"), Some(document(text("given")))),
        Err(TranscriptionError::ApiError { status: 503, body: "down".to_string() })
    );
}
