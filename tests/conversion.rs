use latex2pdf::{build_response, pdf_data_uri, EngineFailure, Response, ResponseStatus};

const PREFIX: &str = "data:application/pdf;base64,";

fn rendered(bytes: Vec<u8>) -> Response {
    build_response(Ok(bytes)).expect("a rendered PDF always gives a response")
}

fn failure(description: &str, trace: Option<&str>) -> EngineFailure {
    EngineFailure {
        description: description.to_string(),
        trace: trace.map(|t| t.to_string()),
    }
}

fn is_base64_char(c: char) -> bool {
    c.is_ascii_alphanumeric() || c == '+' || c == '/' || c == '='
}

#[test]
fn rendered_pdf_becomes_data_uri() {
    let r = rendered(b"%PDF-1.4\n%%EOF\n".to_vec());
    assert_eq!(r.status, ResponseStatus::Success);
    assert_eq!(r.data.pdf.as_deref(), Some("data:application/pdf;base64,JVBERi0xLjQKJSVFT0YK"));
    assert!(r.data.log.is_none());
    assert!(r.message.is_none());
}

#[test]
fn rendered_pdf_matches_data_uri_pattern() {
    let r = rendered(vec![1, 2, 3, 4, 5, 6, 7]);
    let uri = r.data.pdf.expect("pdf present");
    let body = uri.strip_prefix(PREFIX).expect("data URI prefix");
    assert!(!body.is_empty());
    assert!(body.chars().all(is_base64_char));
    assert_eq!(body.len(), 12);
}

#[test]
fn binary_bytes_survive_the_round_trip() {
    let bytes = vec![0u8, 255, 254, 128, 10];
    let r = rendered(bytes.clone());
    let uri = r.data.pdf.expect("pdf present");
    let body = uri.strip_prefix(PREFIX).expect("data URI prefix");
    assert_eq!(body, "AP/+gAo=");
    assert_eq!(base64::decode(body).expect("valid base64"), bytes);
}

#[test]
fn empty_artifact_gives_bare_prefix() {
    let r = rendered(Vec::new());
    assert_eq!(r.status, ResponseStatus::Success);
    assert_eq!(r.data.pdf.as_deref(), Some(PREFIX));
}

#[test]
fn failure_with_trace_becomes_error_response() {
    let r = build_response(Err(failure(
        "the LaTeX engine failed",
        Some("the LaTeX engine failed\n\nCaused by:\n    Emergency stop"),
    )))
    .expect("a failure with a trace gives a response");
    assert_eq!(r.status, ResponseStatus::Error);
    assert_eq!(r.message.as_deref(), Some("the LaTeX engine failed"));
    assert_eq!(
        r.data.log.as_deref(),
        Some("the LaTeX engine failed\n\nCaused by:\n    Emergency stop")
    );
    assert!(r.data.pdf.is_none());
}

#[test]
fn failure_without_trace_gives_no_response() {
    assert!(build_response(Err(failure("broken", None))).is_none());
}

#[test]
fn incomplete_document_failure_has_log_and_no_pdf() {
    let r = build_response(Err(failure(
        "the LaTeX engine failed",
        Some("*** (job aborted, no legal \\end found)"),
    )))
    .expect("response");
    assert_eq!(r.status, ResponseStatus::Error);
    assert!(r.data.pdf.is_none());
    assert!(r.data.log.is_some());
    assert!(!r.message.expect("message").is_empty());
}

#[test]
fn same_behaviour_gives_same_shape() {
    let shape = |r: &Response| {
        (r.status, r.message.is_some(), r.data.log.is_some(), r.data.pdf.is_some())
    };
    let a = rendered(vec![1, 2, 3]);
    let b = rendered(vec![9, 8, 7, 6]);
    assert_eq!(shape(&a), shape(&b));
    let c = build_response(Err(failure("x", Some("trace one")))).expect("response");
    let d = build_response(Err(failure("y", Some("trace two")))).expect("response");
    assert_eq!(shape(&c), shape(&d));
    assert_ne!(shape(&a), shape(&c));
}

#[test]
fn exactly_one_of_pdf_and_log() {
    let responses = vec![
        rendered(vec![37, 80, 68, 70]),
        rendered(Vec::new()),
        build_response(Err(failure("", Some("")))).expect("response"),
        build_response(Err(failure("d", Some("t")))).expect("response"),
    ];
    for r in responses {
        assert!(r.data.pdf.is_some() != r.data.log.is_some());
        assert_eq!(r.message.is_some(), r.status != ResponseStatus::Success);
    }
}

#[test]
fn data_uri_wraps_body() {
    assert_eq!(pdf_data_uri("QUJD"), "data:application/pdf;base64,QUJD");
    assert_eq!(pdf_data_uri(""), PREFIX);
}
