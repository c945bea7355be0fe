use doc_analysis::errors::PipelineError;
use doc_analysis::pipeline::pipeline_step;
use doc_analysis::pipeline::start_pipeline;
use doc_analysis::pipeline::Action;
use doc_analysis::pipeline::AnalysisRequest;
use doc_analysis::pipeline::Config;
use doc_analysis::pipeline::Event;
use doc_analysis::pipeline::ExtractionOutcome;
use doc_analysis::pipeline::HttpOutcome;
use doc_analysis::pipeline::PipelineState;

fn config() -> Config {
    Config {
        invoice_template: "Extrahiere die Rechnungsdaten.".to_string(),
        order_template: "Extrahiere die Auftragsdaten.".to_string(),
    }
}

fn request(doc_type: &str) -> AnalysisRequest {
    AnalysisRequest { path: "/tmp/dokument.pdf".to_string(), doc_type: doc_type.to_string() }
}

fn credential_event(value: Option<&str>) -> Event {
    Event::Credential { value: value.map(|v| v.to_string()) }
}

fn reply_event(status: u16, body: &str) -> Event {
    Event::Http { outcome: HttpOutcome::Reply { status, body: body.to_string() } }
}

fn extraction_ok(stdout: &[u8]) -> Event {
    Event::Extraction {
        outcome: ExtractionOutcome::Completed {
            success: true,
            stdout: stdout.to_vec(),
            stderr: Vec::new(),
        },
    }
}

/// Drives the machine up to the point where the request body is handed out,
/// and returns the credential and body of that request.
fn drive_to_request(cfg: &Config, req: &AnalysisRequest, stdout: &[u8]) -> (String, String) {
    let (state, action) = start_pipeline();
    assert!(matches!(action, Action::ReadCredential));
    let (state, action) = pipeline_step(cfg, req, state, credential_event(Some("SECRET-REDACTED")));
    match &action {
        Action::RunExtraction { path } => assert_eq!(path, "/tmp/dokument.pdf"),
        other => panic!("expected an extraction action, got {:?}", other),
    }
    let (_state, action) = pipeline_step(cfg, req, state, extraction_ok(stdout));
    match action {
        Action::SendRequest { credential, body } => (credential, body),
        other => panic!("expected a send action, got {:?}", other),
    }
}

#[test]
fn start_expects_the_credential() {
    let (state, action) = start_pipeline();
    assert!(matches!(state, PipelineState::Start));
    assert!(matches!(action, Action::ReadCredential));
}

#[test]
fn missing_credential_fails_before_any_work() {
    let cfg = config();
    let req = request("rechnung");
    let (state, action) = start_pipeline();
    let (state, action2) = pipeline_step(&cfg, &req, state, credential_event(None));
    // No extraction and no network call is ever requested.
    assert!(matches!(action, Action::ReadCredential));
    assert!(matches!(action2, Action::Stop));
    match state {
        PipelineState::Failed { error } => {
            assert!(matches!(error, PipelineError::ConfigurationError));
            assert_eq!(error.message(), "API Key fehlt");
        }
        other => panic!("expected a failed state, got {:?}", other),
    }
}

#[test]
fn present_credential_requests_extraction() {
    let cfg = config();
    let req = request("rechnung");
    let (state, _) = start_pipeline();
    let (state, action) = pipeline_step(&cfg, &req, state, credential_event(Some("k-1")));
    assert!(matches!(state, PipelineState::AwaitingExtraction { .. }));
    match action {
        Action::RunExtraction { path } => assert_eq!(path, "/tmp/dokument.pdf"),
        other => panic!("expected an extraction action, got {:?}", other),
    }
}

#[test]
fn nonzero_exit_fails_with_stderr_text_and_no_network_call() {
    let cfg = config();
    let req = request("rechnung");
    let (state, _) = start_pipeline();
    let (state, _) = pipeline_step(&cfg, &req, state, credential_event(Some("k-1")));
    let event = Event::Extraction {
        outcome: ExtractionOutcome::Completed {
            success: false,
            stdout: b"halber Text".to_vec(),
            stderr: b"Datei kaputt".to_vec(),
        },
    };
    let (state, action) = pipeline_step(&cfg, &req, state, event);
    assert!(matches!(action, Action::Stop));
    match state {
        PipelineState::Failed { error } => {
            let message = error.message();
            assert_eq!(message, "Fehler beim Lesen der PDF (pdftotext): Datei kaputt");
            assert!(message.contains("Datei kaputt"));
        }
        other => panic!("expected a failed state, got {:?}", other),
    }
}

#[test]
fn launch_failure_fails_with_its_text() {
    let cfg = config();
    let req = request("rechnung");
    let (state, _) = start_pipeline();
    let (state, _) = pipeline_step(&cfg, &req, state, credential_event(Some("k-1")));
    let event = Event::Extraction {
        outcome: ExtractionOutcome::LaunchFailed { detail: "Programm fehlt".to_string() },
    };
    let (state, action) = pipeline_step(&cfg, &req, state, event);
    assert!(matches!(action, Action::Stop));
    match state {
        PipelineState::Failed { error } => {
            assert_eq!(error.message(), "Konnte pdftotext nicht ausführen: Programm fehlt");
        }
        other => panic!("expected a failed state, got {:?}", other),
    }
}

#[test]
fn successful_extraction_sends_the_assembled_request() {
    let cfg = config();
    let req = request("rechnung");
    let (credential, body) = drive_to_request(&cfg, &req, b"Rechnung Nr. 7");
    assert_eq!(credential, "SECRET-REDACTED");
    let prompt = "Extrahiere die Rechnungsdaten.\n\nDokument Inhalt:\nRechnung Nr. 7";
    let expected = format!(
        "{{\"messages\":[{{\"content\":{},\"role\":\"user\"}}],\
         \"model\":\"mistral-large-latest\",\"response_format\":{{\"type\":\"json_object\"}}}}",
        serde_json::to_string(prompt).unwrap()
    );
    assert_eq!(body, expected);
}

#[test]
fn other_doc_type_sends_the_order_template() {
    let cfg = config();
    let req = request("irgendwas");
    let (_, body) = drive_to_request(&cfg, &req, b"Auftrag Nr. 9");
    let v: serde_json::Value = serde_json::from_str(&body).unwrap();
    let content = v["messages"][0]["content"].as_str().unwrap();
    assert_eq!(content, "Extrahiere die Auftragsdaten.\n\nDokument Inhalt:\nAuftrag Nr. 9");
}

#[test]
fn invalid_output_bytes_are_decoded_lossily() {
    let cfg = config();
    let req = request("rechnung");
    let (_, body) = drive_to_request(&cfg, &req, &[0xff, b'a', b'b']);
    let v: serde_json::Value = serde_json::from_str(&body).unwrap();
    let content = v["messages"][0]["content"].as_str().unwrap();
    assert!(content.ends_with("\u{FFFD}ab"));
}

#[test]
fn transport_failure_surfaces_its_text_unchanged() {
    let cfg = config();
    let req = request("rechnung");
    let event = Event::Http {
        outcome: HttpOutcome::Failed { detail: "Verbindung abgebrochen".to_string() },
    };
    let (state, action) = pipeline_step(&cfg, &req, PipelineState::AwaitingReply, event);
    assert!(matches!(action, Action::Stop));
    match state {
        PipelineState::Failed { error } => {
            assert_eq!(error.message(), "Verbindung abgebrochen");
        }
        other => panic!("expected a failed state, got {:?}", other),
    }
}

#[test]
fn non_success_status_fails_with_the_code_and_ignores_the_body() {
    let cfg = config();
    let req = request("rechnung");
    for (status, body) in [
        (404u16, "{\"choices\":[{\"message\":{\"content\":\"{}\"}}]}"),
        (500u16, "vollkommen kaputt"),
        (199u16, "{}"),
        (300u16, "{}"),
    ] {
        let (state, action) =
            pipeline_step(&cfg, &req, PipelineState::AwaitingReply, reply_event(status, body));
        assert!(matches!(action, Action::Stop));
        match state {
            PipelineState::Failed { error } => {
                assert!(matches!(error, PipelineError::ApiError(s) if s == status));
                let message = error.message();
                assert_eq!(message, format!("API Fehler: {}", status));
                assert!(message.contains(&status.to_string()));
            }
            other => panic!("expected a failed state, got {:?}", other),
        }
    }
}

#[test]
fn success_statuses_reach_the_content() {
    let cfg = config();
    let req = request("rechnung");
    let body = "{\"choices\":[{\"message\":{\"content\":\"{}\"}}]}";
    for status in [200u16, 204, 299] {
        let (state, _) =
            pipeline_step(&cfg, &req, PipelineState::AwaitingReply, reply_event(status, body));
        assert!(matches!(state, PipelineState::Done { .. }));
    }
}

#[test]
fn content_total_42_is_returned_as_structured_value() {
    let cfg = config();
    let req = request("rechnung");
    let body = "{\"choices\":[{\"message\":{\"content\":\"{\\\"total\\\": 42}\"}}]}";
    let (state, _) = pipeline_step(&cfg, &req, PipelineState::AwaitingReply, reply_event(200, body));
    match state {
        PipelineState::Done { result } => {
            assert_eq!(result.content, "{\"total\": 42}");
            let v: serde_json::Value = serde_json::from_str(&result.content).unwrap();
            assert_eq!(v.get("total").and_then(|t| t.as_i64()), Some(42));
        }
        other => panic!("expected a done state, got {:?}", other),
    }
}

#[test]
fn undecodable_body_fails_with_the_decode_diagnostic() {
    let cfg = config();
    let req = request("rechnung");
    let (state, _) =
        pipeline_step(&cfg, &req, PipelineState::AwaitingReply, reply_event(200, "kein json"));
    let expected = serde_json::from_str::<serde_json::Value>("kein json").unwrap_err().to_string();
    match state {
        PipelineState::Failed { error } => {
            assert!(matches!(error, PipelineError::DecodeError(_)));
            assert_eq!(error.message(), expected);
        }
        other => panic!("expected a failed state, got {:?}", other),
    }
}

#[test]
fn missing_content_field_fails() {
    let cfg = config();
    let req = request("rechnung");
    for body in [
        "{}",
        "{\"choices\":[]}",
        "{\"choices\":[{\"message\":{}}]}",
        "{\"choices\":[{\"message\":{\"content\":5}}]}",
    ] {
        let (state, _) =
            pipeline_step(&cfg, &req, PipelineState::AwaitingReply, reply_event(200, body));
        match state {
            PipelineState::Failed { error } => {
                assert!(matches!(error, PipelineError::MissingContentError));
                assert_eq!(error.message(), "Kein Inhalt in der Antwort");
            }
            other => panic!("expected a failed state, got {:?}", other),
        }
    }
}

#[test]
fn invalid_content_fails_with_the_parse_diagnostic() {
    let cfg = config();
    let req = request("rechnung");
    let body = "{\"choices\":[{\"message\":{\"content\":\"not json\"}}]}";
    let (state, _) = pipeline_step(&cfg, &req, PipelineState::AwaitingReply, reply_event(200, body));
    let diagnostic = serde_json::from_str::<serde_json::Value>("not json").unwrap_err().to_string();
    match state {
        PipelineState::Failed { error } => {
            assert!(matches!(error, PipelineError::ParseError(_)));
            let message = error.message();
            assert_eq!(message, format!("JSON Parse Fehler: {}", diagnostic));
            assert!(message.contains(&diagnostic));
        }
        other => panic!("expected a failed state, got {:?}", other),
    }
}

#[test]
fn well_formed_content_round_trips_unchanged() {
    let cfg = config();
    let req = request("rechnung");
    for content in [
        "{}",
        "{\"a\":1}",
        "{\"a\":[1,2,{\"b\":null}],\"c\":\"x \\\"y\\\"\"}",
        "{\"betrag\":12.5,\"posten\":[]}",
    ] {
        let mut message = serde_json::Map::new();
        message.insert("content".to_string(), serde_json::Value::String(content.to_string()));
        let mut choice = serde_json::Map::new();
        choice.insert("message".to_string(), serde_json::Value::Object(message));
        let mut top = serde_json::Map::new();
        top.insert(
            "choices".to_string(),
            serde_json::Value::Array(vec![serde_json::Value::Object(choice)]),
        );
        let envelope = serde_json::Value::Object(top).to_string();
        let (state, _) =
            pipeline_step(&cfg, &req, PipelineState::AwaitingReply, reply_event(200, &envelope));
        match state {
            PipelineState::Done { result } => {
                assert_eq!(result.content, content);
                let returned: serde_json::Value = serde_json::from_str(&result.content).unwrap();
                let original: serde_json::Value = serde_json::from_str(content).unwrap();
                assert_eq!(returned, original);
            }
            other => panic!("expected a done state, got {:?}", other),
        }
    }
}

#[test]
fn terminal_state_ignores_further_events() {
    let cfg = config();
    let req = request("rechnung");
    let state = PipelineState::Failed { error: PipelineError::ConfigurationError };
    let (state, action) = pipeline_step(&cfg, &req, state, credential_event(Some("k-1")));
    assert!(matches!(state, PipelineState::Failed { .. }));
    assert!(matches!(action, Action::Stop));
}

#[test]
fn status_code_rendering_covers_the_edges() {
    for status in [0u16, 7, 100, 404, 999, 65535] {
        let error = PipelineError::ApiError(status);
        assert_eq!(error.message(), format!("API Fehler: {}", status));
    }
}
