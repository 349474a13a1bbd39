use filesaver::media::{
    get_file_info_from_message, is_text, name_from_unique_id, name_or, ExtractedFile,
    FileReference, InboundMessage, Payload,
};

fn reference(id: &str, unique_id: &str) -> FileReference {
    FileReference { id: id.to_string(), unique_id: unique_id.to_string() }
}

fn message(payload: Payload) -> InboundMessage {
    InboundMessage { chat_id: 7, payload }
}

fn found(id: &str, unique_id: &str, name: &str) -> Option<ExtractedFile> {
    Some(ExtractedFile { reference: reference(id, unique_id), suggested_name: name.to_string() })
}

#[test]
fn document_goes_by_its_declared_name() {
    let m = message(Payload::Document {
        file: reference("abc", "u1"),
        file_name: Some("report.pdf".to_string()),
    });
    assert_eq!(get_file_info_from_message(&m), found("abc", "u1", "report.pdf"));
}

#[test]
fn document_without_name_is_unknown_document() {
    let m = message(Payload::Document { file: reference("abc", "u1"), file_name: None });
    assert_eq!(get_file_info_from_message(&m), found("abc", "u1", "unknown_document"));
}

#[test]
fn empty_declared_name_counts_as_none() {
    let m = message(Payload::Document {
        file: reference("abc", "u1"),
        file_name: Some(String::new()),
    });
    assert_eq!(get_file_info_from_message(&m), found("abc", "u1", "unknown_document"));
}

#[test]
fn photo_is_taken_in_its_last_resolution() {
    let m = message(Payload::Photo {
        sizes: vec![reference("s", "S"), reference("m", "M"), reference("l", "XYZ")],
    });
    assert_eq!(get_file_info_from_message(&m), found("l", "XYZ", "XYZ.jpg"));
}

#[test]
fn photo_with_one_resolution() {
    let m = message(Payload::Photo { sizes: vec![reference("only", "O1")] });
    assert_eq!(get_file_info_from_message(&m), found("only", "O1", "O1.jpg"));
}

#[test]
fn photo_without_resolutions_yields_nothing() {
    let m = message(Payload::Photo { sizes: vec![] });
    assert_eq!(get_file_info_from_message(&m), None);
}

#[test]
fn video_names() {
    let named = message(Payload::Video {
        file: reference("v", "uv"),
        file_name: Some("clip.mov".to_string()),
    });
    assert_eq!(get_file_info_from_message(&named), found("v", "uv", "clip.mov"));
    let bare = message(Payload::Video { file: reference("v", "uv"), file_name: None });
    assert_eq!(get_file_info_from_message(&bare), found("v", "uv", "unknown_video.mp4"));
}

#[test]
fn audio_names() {
    let named = message(Payload::Audio {
        file: reference("a", "ua"),
        file_name: Some("song.flac".to_string()),
    });
    assert_eq!(get_file_info_from_message(&named), found("a", "ua", "song.flac"));
    let bare = message(Payload::Audio { file: reference("a", "ua"), file_name: None });
    assert_eq!(get_file_info_from_message(&bare), found("a", "ua", "unknown_audio.mp3"));
}

#[test]
fn voice_goes_by_its_unique_id() {
    let m = message(Payload::Voice { file: reference("vc", "AgADBQ") });
    assert_eq!(get_file_info_from_message(&m), found("vc", "AgADBQ", "AgADBQ.ogg"));
}

#[test]
fn text_other_and_service_yield_nothing() {
    assert_eq!(get_file_info_from_message(&message(Payload::Text)), None);
    assert_eq!(get_file_info_from_message(&message(Payload::Other)), None);
    assert_eq!(get_file_info_from_message(&message(Payload::Service)), None);
}

#[test]
fn every_attachment_kind_has_a_name() {
    let r = || reference("id", "uid");
    let payloads = vec![
        Payload::Document { file: r(), file_name: None },
        Payload::Document { file: r(), file_name: Some(String::new()) },
        Payload::Photo { sizes: vec![r()] },
        Payload::Video { file: r(), file_name: None },
        Payload::Audio { file: r(), file_name: Some("x".to_string()) },
        Payload::Voice { file: r() },
    ];
    for p in payloads {
        let extracted = get_file_info_from_message(&message(p)).unwrap();
        assert!(!extracted.suggested_name.is_empty());
        assert_eq!(extracted.reference, r());
    }
}

#[test]
fn only_text_is_text() {
    assert!(is_text(&message(Payload::Text)));
    assert!(!is_text(&message(Payload::Other)));
    assert!(!is_text(&message(Payload::Service)));
    assert!(!is_text(&message(Payload::Photo { sizes: vec![] })));
}

#[test]
fn name_helpers() {
    assert_eq!(name_or(&Some("a.txt".to_string()), "fallback"), "a.txt");
    assert_eq!(name_or(&Some(String::new()), "fallback"), "fallback");
    assert_eq!(name_or(&None, "fallback"), "fallback");
    assert_eq!(name_from_unique_id(&reference("i", "u"), ".jpg"), "u.jpg");
    assert_eq!(name_from_unique_id(&reference("i", ""), ".ogg"), ".ogg");
}

#[test]
fn reference_clone_is_equal() {
    let r = reference("abc", "def");
    assert_eq!(r.clone(), r);
}
