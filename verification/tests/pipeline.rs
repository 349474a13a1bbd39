use filesaver::media::{FileReference, InboundMessage, Payload};
use filesaver::sanitize::SanitizedName;
use filesaver::pipeline::{
    confirmation, handle_message, DestinationPath, Event, Pipeline, PipelineError,
};

const GUIDANCE: &str = "Please send me a file (document, photo, video, audio, or voice message). I received a text message or a type of message I don't handle for file saving.";

fn document(id: &str, name: Option<&str>) -> InboundMessage {
    InboundMessage {
        chat_id: 42,
        payload: Payload::Document {
            file: FileReference { id: id.to_string(), unique_id: "uniq".to_string() },
            file_name: name.map(|n| n.to_string()),
        },
    }
}

fn destination(name: &str) -> DestinationPath {
    let file_name = SanitizedName::new(name.to_string());
    assert_eq!(file_name.as_str(), name);
    DestinationPath { root: "downloads".to_string(), file_name }
}

fn failed(p: &Pipeline) -> PipelineError {
    match p {
        Pipeline::Finished { result: Err(e) } => e.clone(),
        other => panic!("not failed: {:?}", other),
    }
}

#[test]
fn document_is_downloaded_and_confirmed() {
    let p = handle_message(&document("abc", Some("report.pdf")), "downloads");
    match &p {
        Pipeline::Resolving { chat_id, file, destination: d } => {
            assert_eq!(*chat_id, 42);
            assert_eq!(file.reference.id, "abc");
            assert_eq!(file.suggested_name, "report.pdf");
            assert_eq!(*d, destination("report.pdf"));
        }
        other => panic!("unexpected state: {:?}", other),
    }
    assert!(!p.is_finished());
    let p = p.advance(Event::Resolved { remote_path: "documents/file_1.pdf".to_string() });
    assert_eq!(
        p,
        Pipeline::Creating {
            chat_id: 42,
            original_name: "report.pdf".to_string(),
            remote_path: "documents/file_1.pdf".to_string(),
            destination: destination("report.pdf"),
        }
    );
    let p = p.advance(Event::Created);
    assert_eq!(
        p,
        Pipeline::Transferring {
            chat_id: 42,
            original_name: "report.pdf".to_string(),
            remote_path: "documents/file_1.pdf".to_string(),
            destination: destination("report.pdf"),
        }
    );
    let p = p.advance(Event::Transferred);
    assert_eq!(
        p,
        Pipeline::Replying {
            chat_id: 42,
            text: "File 'report.pdf' saved successfully!".to_string(),
        }
    );
    let p = p.advance(Event::Replied);
    assert_eq!(p, Pipeline::Finished { result: Ok(()) });
    assert!(p.is_finished());
}

#[test]
fn traversal_name_stays_inside_the_root() {
    let p = handle_message(&document("abc", Some("../../etc/passwd")), "downloads");
    match p {
        Pipeline::Resolving { file, destination: d, .. } => {
            assert_eq!(file.suggested_name, "../../etc/passwd");
            assert_eq!(d.root, "downloads");
            assert_eq!(d.file_name.as_str(), ".._.._etc_passwd");
            assert!(!d.file_name.as_str().contains('/'));
            assert!(!d.file_name.as_str().contains('\\'));
        }
        other => panic!("unexpected state: {:?}", other),
    }
}

#[test]
fn photo_is_resolved_by_its_largest_size() {
    let sizes = vec![
        FileReference { id: "small".to_string(), unique_id: "A".to_string() },
        FileReference { id: "medium".to_string(), unique_id: "B".to_string() },
        FileReference { id: "large".to_string(), unique_id: "XYZ".to_string() },
    ];
    let m = InboundMessage { chat_id: 1, payload: Payload::Photo { sizes } };
    match handle_message(&m, "d") {
        Pipeline::Resolving { file, destination: d, .. } => {
            assert_eq!(file.suggested_name, "XYZ.jpg");
            assert_eq!(
                file.reference,
                FileReference { id: "large".to_string(), unique_id: "XYZ".to_string() }
            );
            assert_eq!(d.file_name.as_str(), "XYZ.jpg");
        }
        other => panic!("unexpected state: {:?}", other),
    }
}

#[test]
fn failed_resolution_ends_without_file_or_confirmation() {
    let p = handle_message(&document("abc", Some("report.pdf")), "downloads");
    let p = p.advance(Event::ResolveFailed { cause: "file is too big".to_string() });
    assert_eq!(
        failed(&p),
        PipelineError::MetadataResolution {
            file_id: "abc".to_string(),
            cause: "file is too big".to_string(),
        }
    );
    assert!(p.is_finished());
    let q = p.clone().advance(Event::Created).advance(Event::Transferred).advance(Event::Replied);
    assert_eq!(q, p);
}

#[test]
fn failed_creation_names_the_path() {
    let p = handle_message(&document("abc", Some("a b.txt")), "downloads")
        .advance(Event::Resolved { remote_path: "r".to_string() })
        .advance(Event::CreateFailed { cause: "permission denied".to_string() });
    assert_eq!(
        failed(&p),
        PipelineError::LocalIo {
            path: destination("a_b.txt"),
            cause: "permission denied".to_string(),
        }
    );
}

#[test]
fn failed_transfer_names_the_original_name() {
    let p = handle_message(&document("abc", Some("a b.txt")), "downloads")
        .advance(Event::Resolved { remote_path: "r".to_string() })
        .advance(Event::Created)
        .advance(Event::TransferFailed { cause: "connection reset".to_string() });
    assert_eq!(
        failed(&p),
        PipelineError::Transfer {
            original_name: "a b.txt".to_string(),
            cause: "connection reset".to_string(),
        }
    );
}

#[test]
fn failed_confirmation_is_a_responder_error() {
    let p = handle_message(&document("abc", None), "downloads")
        .advance(Event::Resolved { remote_path: "r".to_string() })
        .advance(Event::Created)
        .advance(Event::Transferred);
    assert_eq!(
        p,
        Pipeline::Replying {
            chat_id: 42,
            text: "File 'unknown_document' saved successfully!".to_string(),
        }
    );
    let p = p.advance(Event::ReplyFailed { cause: "blocked".to_string() });
    assert_eq!(failed(&p), PipelineError::Responder { cause: "blocked".to_string() });
}

#[test]
fn text_is_answered_with_guidance() {
    let m = InboundMessage { chat_id: -100, payload: Payload::Text };
    let p = handle_message(&m, "downloads");
    assert_eq!(p, Pipeline::Replying { chat_id: -100, text: GUIDANCE.to_string() });
    assert_eq!(p.clone().advance(Event::Replied), Pipeline::Finished { result: Ok(()) });
    let e = p.advance(Event::ReplyFailed { cause: "x".to_string() });
    assert_eq!(failed(&e), PipelineError::Responder { cause: "x".to_string() });
}

#[test]
fn unsupported_messages_are_ignored() {
    for payload in [Payload::Other, Payload::Service, Payload::Photo { sizes: vec![] }] {
        let m = InboundMessage { chat_id: 5, payload };
        assert_eq!(handle_message(&m, "downloads"), Pipeline::Finished { result: Ok(()) });
    }
}

#[test]
fn events_out_of_turn_change_nothing() {
    let start = handle_message(&document("abc", Some("f")), "downloads");
    for e in [
        Event::Created,
        Event::CreateFailed { cause: "c".to_string() },
        Event::Transferred,
        Event::TransferFailed { cause: "c".to_string() },
        Event::Replied,
        Event::ReplyFailed { cause: "c".to_string() },
    ] {
        assert_eq!(start.clone().advance(e), start);
    }
    let creating = start.clone().advance(Event::Resolved { remote_path: "r".to_string() });
    assert_eq!(creating.clone().advance(Event::Transferred), creating);
    assert_eq!(
        creating.clone().advance(Event::Resolved { remote_path: "other".to_string() }),
        creating
    );
    let transferring = creating.advance(Event::Created);
    assert_eq!(transferring.clone().advance(Event::Created), transferring);
    let replying = transferring.advance(Event::Transferred);
    assert_eq!(replying.clone().advance(Event::Transferred), replying);
}

#[test]
fn reserved_suggested_name_is_stored_under_the_fallback() {
    match handle_message(&document("abc", Some("..")), "downloads") {
        Pipeline::Resolving { file, destination: d, .. } => {
            assert_eq!(file.suggested_name, "..");
            assert_eq!(d.file_name.as_str(), "sanitized_file");
        }
        other => panic!("unexpected state: {:?}", other),
    }
}

#[test]
fn confirmation_names_the_file() {
    assert_eq!(confirmation("a.txt"), "File 'a.txt' saved successfully!");
    assert_eq!(confirmation(""), "File '' saved successfully!");
}

#[test]
fn sanitized_name_holds_the_sanitized_text() {
    assert_eq!(SanitizedName::new("a b/c".to_string()).as_str(), "a_b_c");
    assert_eq!(SanitizedName::new(String::new()).as_str(), "sanitized_file");
    let n = SanitizedName::new("..".to_string());
    assert_eq!(n.clone(), n);
    assert_eq!(n.as_str(), "sanitized_file");
}
