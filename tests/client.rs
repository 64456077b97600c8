use whisper_client::error::{InputError, TranscribeError};
use whisper_client::request::{
    authorization_value, language_field, prepare_request, transcription_url, trim_trailing_slashes,
};
use whisper_client::response::{
    api_failure, interpret_response, status_is_success, success_outcome,
};

#[test]
fn empty_audio_is_refused_whatever_the_other_arguments() {
    let r = prepare_request(&Vec::new(), "", "", "", None);
    assert!(matches!(r, Err(TranscribeError::Input(InputError::NoAudio))));
    let r = prepare_request(&Vec::new(), "sk-1", "http://h/v1", "whisper-1", Some("es"));
    assert!(matches!(r, Err(TranscribeError::Input(InputError::NoAudio))));
}

#[test]
fn empty_api_key_is_refused() {
    let r = prepare_request(&vec![1, 2, 3], "", "http://h/v1", "whisper-1", None);
    assert!(matches!(r, Err(TranscribeError::Input(InputError::NoApiKey))));
}

#[test]
fn request_is_assembled() {
    let req = prepare_request(&vec![5, -5], "sk-abc", "https://api.openai.com/v1/", "whisper-1", Some("es"))
        .unwrap();
    assert_eq!(req.url, "https://api.openai.com/v1/audio/transcriptions");
    assert_eq!(req.authorization.as_deref(), Some("Bearer sk-abc"));
    assert_eq!(req.model, "whisper-1");
    assert_eq!(req.language.as_deref(), Some("es"));
    assert_eq!(req.wav.len(), 48);
    assert_eq!(&req.wav[44..], &[5u8, 0, 0xfb, 0xff]);
}

#[test]
fn invalid_key_character_is_a_header_error() {
    let r = prepare_request(&vec![1], "sk\nabc", "http://h", "m", None);
    assert!(matches!(r, Err(TranscribeError::Header)));
    assert!(matches!(authorization_value("a\u{7f}b"), Err(TranscribeError::Header)));
    assert_eq!(authorization_value("k\tey").unwrap().as_deref(), Some("Bearer k\tey"));
    assert_eq!(authorization_value("clé").unwrap().as_deref(), Some("Bearer clé"));
}

#[test]
fn empty_key_gets_no_authorization_header() {
    assert_eq!(authorization_value("").unwrap(), None);
}

#[test]
fn auto_and_empty_language_are_left_out() {
    assert_eq!(language_field(Some("auto")), None);
    assert_eq!(language_field(Some("")), None);
    assert_eq!(language_field(None), None);
    assert_eq!(language_field(Some("es")), Some("es".to_string()));
    assert_eq!(language_field(Some("Auto")), Some("Auto".to_string()));
    let req = prepare_request(&vec![1], "k", "http://h", "m", Some("auto")).unwrap();
    assert_eq!(req.language, None);
    let req = prepare_request(&vec![1], "k", "http://h", "m", Some("")).unwrap();
    assert_eq!(req.language, None);
}

#[test]
fn trailing_slash_gives_the_same_url() {
    assert_eq!(transcription_url("http://h/v1"), transcription_url("http://h/v1/"));
    assert_eq!(transcription_url("http://h/v1//"), "http://h/v1/audio/transcriptions");
    assert_eq!(trim_trailing_slashes("///"), "");
    assert_eq!(trim_trailing_slashes("a/b"), "a/b");
}

#[test]
fn success_response_gives_its_text() {
    let r = interpret_response(200, Some("{\"text\": \"hello world\"}".to_string()));
    assert_eq!(r.unwrap(), "hello world");
}

#[test]
fn json_error_message_is_reported_with_status() {
    let r = interpret_response(401, Some("{\"error\":{\"message\":\"invalid key\"}}".to_string()));
    match r {
        Err(TranscribeError::Api { status, message }) => {
            assert_eq!(status, 401);
            assert_eq!(message, "invalid key");
        }
        other => panic!("unexpected outcome: {:?}", other),
    }
}

#[test]
fn non_json_error_body_is_reported_verbatim() {
    let r = interpret_response(500, Some("internal error".to_string()));
    match r {
        Err(TranscribeError::Api { status, message }) => {
            assert_eq!(status, 500);
            assert_eq!(message, "internal error");
        }
        other => panic!("unexpected outcome: {:?}", other),
    }
}

#[test]
fn error_json_without_message_keeps_the_body() {
    let body = "{\"error\":{\"code\":7}}";
    match interpret_response(400, Some(body.to_string())) {
        Err(TranscribeError::Api { status, message }) => {
            assert_eq!(status, 400);
            assert_eq!(message, body);
        }
        other => panic!("unexpected outcome: {:?}", other),
    }
}

#[test]
fn unreadable_error_body_uses_placeholder() {
    match interpret_response(503, None) {
        Err(TranscribeError::Api { status, message }) => {
            assert_eq!(status, 503);
            assert_eq!(message, "Failed to read error response");
        }
        other => panic!("unexpected outcome: {:?}", other),
    }
}

#[test]
fn success_without_text_is_a_parse_error() {
    assert!(matches!(
        interpret_response(200, Some("{\"result\":\"x\"}".to_string())),
        Err(TranscribeError::ResponseParse(_))
    ));
    assert!(matches!(
        interpret_response(201, Some("not json".to_string())),
        Err(TranscribeError::ResponseParse(_))
    ));
    assert!(matches!(interpret_response(200, None), Err(TranscribeError::ResponseParse(_))));
}

#[test]
fn success_class_is_200_to_299() {
    assert!(!status_is_success(199));
    assert!(status_is_success(200));
    assert!(status_is_success(299));
    assert!(!status_is_success(300));
    assert!(!status_is_success(404));
}

#[test]
fn decisions_on_extracted_values() {
    match api_failure(418, "body".to_string(), Some("m".to_string())) {
        TranscribeError::Api { status, message } => {
            assert_eq!(status, 418);
            assert_eq!(message, "m");
        }
        other => panic!("unexpected outcome: {:?}", other),
    }
    match api_failure(418, "body".to_string(), None) {
        TranscribeError::Api { message, .. } => assert_eq!(message, "body"),
        other => panic!("unexpected outcome: {:?}", other),
    }
    assert_eq!(success_outcome(true, Some("t".to_string()), None).unwrap(), "t");
    match success_outcome(true, None, None) {
        Err(TranscribeError::ResponseParse(d)) => assert_eq!(d, "missing or non-string field `text`"),
        other => panic!("unexpected outcome: {:?}", other),
    }
    match success_outcome(true, None, Some("bad json".to_string())) {
        Err(TranscribeError::ResponseParse(d)) => assert_eq!(d, "bad json"),
        other => panic!("unexpected outcome: {:?}", other),
    }
    assert!(matches!(
        success_outcome(false, Some("t".to_string()), None),
        Err(TranscribeError::ResponseParse(_))
    ));
}

#[test]
fn parse_error_carries_the_json_description() {
    match interpret_response(200, Some("not json".to_string())) {
        Err(TranscribeError::ResponseParse(d)) => {
            assert!(d.contains("line 1"), "{}", d);
            assert_ne!(d, "missing or non-string field `text`");
        }
        other => panic!("unexpected outcome: {:?}", other),
    }
    match interpret_response(200, Some("{\"text\": 5}".to_string())) {
        Err(TranscribeError::ResponseParse(d)) => assert_eq!(d, "missing or non-string field `text`"),
        other => panic!("unexpected outcome: {:?}", other),
    }
}

#[test]
fn valid_arguments_always_give_a_request() {
    for lang in [None, Some("auto"), Some(""), Some("es")] {
        let req = prepare_request(&vec![16383], "k", "http://localhost/v1/", "whisper-1", lang);
        let req = req.unwrap();
        assert_eq!(req.url, "http://localhost/v1/audio/transcriptions");
        assert_eq!(req.language.is_some(), lang == Some("es"));
    }
}
