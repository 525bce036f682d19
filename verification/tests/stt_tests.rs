use voicewedge::stt::{frame_request_body, language_for_layout, read_transcript, request_body, request_language, transcript_from_member, SttError};

#[test]
fn request_body_with_language() {
    let body = request_body(b"RIFF", "openai/gpt-4o-transcribe", "ru");
    assert_eq!(
        body,
        r#"{"input_audio":{"data":"UklGRg==","format":"wav"},"language":"ru","model":"openai/gpt-4o-transcribe"}"#
    );
    let v: serde_json::Value = serde_json::from_str(&body).unwrap();
    assert_eq!(v["input_audio"]["data"], "UklGRg==");
    assert_eq!(v["input_audio"]["format"], "wav");
}

#[test]
fn request_body_without_language() {
    let body = request_body(&[0u8, 1, 2, 255], "m", "");
    assert_eq!(body, r#"{"input_audio":{"data":"AAEC/w==","format":"wav"},"model":"m"}"#);
}

#[test]
fn request_body_escapes_strings() {
    let body = request_body(b"", "a\"b\\c", "x\ny");
    assert_eq!(body, r#"{"input_audio":{"data":"","format":"wav"},"language":"x\ny","model":"a\"b\\c"}"#);
    let v: serde_json::Value = serde_json::from_str(&body).unwrap();
    assert_eq!(v["model"], "a\"b\\c");
    assert_eq!(v["language"], "x\ny");
}

#[test]
fn frame_matches_serde_json() {
    let framed = frame_request_body("\"QQ==\"", None, "\"m\"");
    let mut audio = serde_json::Map::new();
    audio.insert("data".to_string(), serde_json::Value::String("QQ==".to_string()));
    audio.insert("format".to_string(), serde_json::Value::String("wav".to_string()));
    let mut top = serde_json::Map::new();
    top.insert("model".to_string(), serde_json::Value::String("m".to_string()));
    top.insert("input_audio".to_string(), serde_json::Value::Object(audio));
    assert_eq!(framed, serde_json::to_string(&serde_json::Value::Object(top)).unwrap());
}

#[test]
fn reply_ok_trims_text() {
    let r = read_transcript(200, r#"{"text": "  Привет мир \n", "usage": {"seconds": 3}}"#);
    assert_eq!(r.unwrap(), "Привет мир");
}

#[test]
fn reply_without_text_is_empty() {
    assert_eq!(read_transcript(200, r#"{"usage": 1}"#).unwrap(), "");
    assert_eq!(read_transcript(201, r#"{"text": 5}"#).unwrap(), "");
    assert_eq!(read_transcript(299, r#"["text"]"#).unwrap(), "");
}

#[test]
fn reply_http_error() {
    match read_transcript(401, "unauthorized") {
        Err(SttError::Http { status, body }) => {
            assert_eq!(status, 401);
            assert_eq!(body, "unauthorized");
        }
        other => panic!("unexpected {:?}", other),
    }
    assert!(matches!(read_transcript(199, "{}"), Err(SttError::Http { status: 199, .. })));
    assert!(matches!(read_transcript(300, "{}"), Err(SttError::Http { status: 300, .. })));
}

#[test]
fn reply_invalid_json() {
    match read_transcript(200, "not json") {
        Err(SttError::Json(msg)) => {
            let expected = serde_json::from_str::<serde_json::Value>("not json").unwrap_err().to_string();
            assert_eq!(msg, expected);
        }
        other => panic!("unexpected {:?}", other),
    }
}

#[test]
fn member_to_transcript() {
    assert_eq!(transcript_from_member(None), "");
    assert_eq!(transcript_from_member(Some(" a ".to_string())), "a");
}

#[test]
fn language_settings() {
    assert_eq!(request_language("auto", Some("ru".to_string())), "");
    assert_eq!(request_language("", Some("ru".to_string())), "");
    assert_eq!(request_language("layout", Some("en".to_string())), "en");
    assert_eq!(request_language("layout", None), "");
    assert_eq!(request_language("ru", Some("en".to_string())), "ru");
}

#[test]
fn layout_languages() {
    assert_eq!(language_for_layout(0x0419), Some("ru".to_string()));
    assert_eq!(language_for_layout(0x0409), Some("en".to_string()));
    assert_eq!(language_for_layout(0x0809), Some("en".to_string()));
    assert_eq!(language_for_layout(0x0407), None);
}

#[test]
fn request_body_escapes_control_characters() {
    let body = request_body(b"ab", "m", "\u{1}\t\u{8}\u{c}\r/\u{7f}\u{1f}");
    assert_eq!(body, "{\"input_audio\":{\"data\":\"YWI=\",\"format\":\"wav\"},\"language\":\"\\u0001\\t\\b\\f\\r/\u{7f}\\u001f\",\"model\":\"m\"}");
}
