//! The pipeline's error taxonomy and the human-readable message each error
//! surfaces.

use vstd::prelude::*;
use crate::decimal::decimal_digits;
use crate::decimal::decimal_string;

verus! {

/// The abstract form of a pipeline error: each variant carries the text that
/// its message embeds.
pub enum ErrorView {
    Configuration,
    ExtractionLaunch { detail: Seq<char> },
    ExtractionFailed { stderr_text: Seq<char> },
    Transport { detail: Seq<char> },
    Api { status: u16 },
    Decode { detail: Seq<char> },
    MissingContent,
    Parse { detail: Seq<char> },
}

/// Why a pipeline invocation failed. Every failure is terminal: nothing is
/// retried, and the caller sees the message of exactly one of these.
#[derive(Debug)]
pub enum PipelineError {
    /// The API credential is not set in the environment.
    ConfigurationError,
    /// The extraction subprocess could not be started; carries the launch
    /// failure's text.
    ExtractionLaunchError(String),
    /// The extraction subprocess exited with nonzero status; carries its
    /// standard-error text.
    ExtractionError(String),
    /// The network call itself failed; carries the transport failure's text.
    TransportError(String),
    /// The remote API answered with a non-success status code.
    ApiError(u16),
    /// The reply body is not valid JSON; carries the parse diagnostic.
    DecodeError(String),
    /// The reply envelope holds no content string.
    MissingContentError,
    /// The content string is not valid JSON; carries the parse diagnostic.
    ParseError(String),
}

impl View for PipelineError {
    type V = ErrorView;

    open spec fn view(&self) -> ErrorView {
        match self {
            PipelineError::ConfigurationError => ErrorView::Configuration,
            PipelineError::ExtractionLaunchError(d) => ErrorView::ExtractionLaunch {
                detail: d@,
            },
            PipelineError::ExtractionError(d) => ErrorView::ExtractionFailed {
                stderr_text: d@,
            },
            PipelineError::TransportError(d) => ErrorView::Transport { detail: d@ },
            PipelineError::ApiError(status) => ErrorView::Api { status: *status },
            PipelineError::DecodeError(d) => ErrorView::Decode { detail: d@ },
            PipelineError::MissingContentError => ErrorView::MissingContent,
            PipelineError::ParseError(d) => ErrorView::Parse { detail: d@ },
        }
    }
}

/// The message surfaced to the caller for each error.
pub open spec fn message_of(e: ErrorView) -> Seq<char> {
    match e {
        ErrorView::Configuration => "API Key fehlt"@,
        ErrorView::ExtractionLaunch { detail } => "Konnte pdftotext nicht ausführen: "@
            + detail,
        ErrorView::ExtractionFailed { stderr_text } => "Fehler beim Lesen der PDF (pdftotext): "@
            + stderr_text,
        ErrorView::Transport { detail } => detail,
        ErrorView::Api { status } => "API Fehler: "@ + decimal_digits(status as nat),
        ErrorView::Decode { detail } => detail,
        ErrorView::MissingContent => "Kein Inhalt in der Antwort"@,
        ErrorView::Parse { detail } => "JSON Parse Fehler: "@ + detail,
    }
}

impl PipelineError {
    /// The human-readable message for this error.
    pub fn message(&self) -> (r: String)
        ensures
            r@ == message_of(self@),
    {
        match self {
            PipelineError::ConfigurationError => "API Key fehlt".to_owned(),
            PipelineError::ExtractionLaunchError(d) => {
                let mut s = "Konnte pdftotext nicht ausführen: ".to_owned();
                s.append(d.as_str());
                s
            },
            PipelineError::ExtractionError(d) => {
                let mut s = "Fehler beim Lesen der PDF (pdftotext): ".to_owned();
                s.append(d.as_str());
                s
            },
            PipelineError::TransportError(d) => d.clone(),
            PipelineError::ApiError(status) => {
                let mut s = "API Fehler: ".to_owned();
                let digits = decimal_string(*status);
                s.append(digits.as_str());
                s
            },
            PipelineError::DecodeError(d) => d.clone(),
            PipelineError::MissingContentError => "Kein Inhalt in der Antwort".to_owned(),
            PipelineError::ParseError(d) => {
                let mut s = "JSON Parse Fehler: ".to_owned();
                s.append(d.as_str());
                s
            },
        }
    }
}

} // verus!
