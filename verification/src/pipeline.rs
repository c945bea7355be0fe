//! The document-analysis pipeline as a state machine.
//!
//! One invocation is a strictly sequential run: resolve the credential, run
//! the extraction utility, send the prompt to the completion API, unwrap the
//! reply. The outside work — environment, subprocess, network — is performed
//! by the surrounding program; every decision between two such steps is made
//! here, by [`pipeline_step`], whose behaviour is pinned down by the abstract
//! transition function [`step_model`].

use vstd::prelude::*;
use crate::bindings::decode_lossy;
use crate::bindings::json_rejection;
use crate::bindings::lossy_utf8;
use crate::bindings::reply_content_of;
use crate::errors::message_of;
use crate::errors::ErrorView;
use crate::errors::PipelineError;
use crate::prompt::assemble_prompt;
use crate::prompt::build_request_body;
use crate::prompt::chosen_template;
use crate::prompt::full_prompt;
use crate::prompt::request_body_of;
use crate::prompt::select_template;
use crate::reply::handle_reply;
use crate::reply::is_success_status;
use crate::reply::reply_outcome;
use crate::reply::AnalysisResult;

verus! {

/// The instruction templates, loaded once at process start and injected into
/// every invocation.
pub struct Config {
    /// Template selected by the invoice tag.
    pub invoice_template: String,
    /// Template selected by every other document-type tag.
    pub order_template: String,
}

/// Abstract form of [`Config`].
pub struct ConfigView {
    pub invoice_template: Seq<char>,
    pub order_template: Seq<char>,
}

impl View for Config {
    type V = ConfigView;

    open spec fn view(&self) -> ConfigView {
        ConfigView {
            invoice_template: self.invoice_template@,
            order_template: self.order_template@,
        }
    }
}

/// One invocation's inputs: the document's location and its type tag.
pub struct AnalysisRequest {
    /// Filesystem location handed to the extraction utility.
    pub path: String,
    /// Free-form document-type tag; only the invoice tag is recognized.
    pub doc_type: String,
}

/// Abstract form of [`AnalysisRequest`].
pub struct RequestView {
    pub path: Seq<char>,
    pub doc_type: Seq<char>,
}

impl View for AnalysisRequest {
    type V = RequestView;

    open spec fn view(&self) -> RequestView {
        RequestView { path: self.path@, doc_type: self.doc_type@ }
    }
}

/// How the extraction subprocess ended.
#[derive(Debug)]
pub enum ExtractionOutcome {
    /// The subprocess could not be started; carries the launch failure's text.
    LaunchFailed { detail: String },
    /// The subprocess ran to an exit; carries its success flag and captured
    /// output and error bytes.
    Completed { success: bool, stdout: Vec<u8>, stderr: Vec<u8> },
}

/// Abstract form of [`ExtractionOutcome`].
pub enum ExtractionOutcomeView {
    LaunchFailed { detail: Seq<char> },
    Completed { success: bool, stdout: Seq<u8>, stderr: Seq<u8> },
}

impl View for ExtractionOutcome {
    type V = ExtractionOutcomeView;

    open spec fn view(&self) -> ExtractionOutcomeView {
        match self {
            ExtractionOutcome::LaunchFailed { detail } => ExtractionOutcomeView::LaunchFailed {
                detail: detail@,
            },
            ExtractionOutcome::Completed { success, stdout, stderr } => {
                ExtractionOutcomeView::Completed {
                    success: *success,
                    stdout: stdout@,
                    stderr: stderr@,
                }
            },
        }
    }
}

/// How the network call ended.
#[derive(Debug)]
pub enum HttpOutcome {
    /// The call itself failed — connection, timeout, and the like; carries the
    /// transport failure's text.
    Failed { detail: String },
    /// The remote API answered; carries the status code and the reply body.
    Reply { status: u16, body: String },
}

/// Abstract form of [`HttpOutcome`].
pub enum HttpOutcomeView {
    Failed { detail: Seq<char> },
    Reply { status: u16, body: Seq<char> },
}

impl View for HttpOutcome {
    type V = HttpOutcomeView;

    open spec fn view(&self) -> HttpOutcomeView {
        match self {
            HttpOutcome::Failed { detail } => HttpOutcomeView::Failed { detail: detail@ },
            HttpOutcome::Reply { status, body } => HttpOutcomeView::Reply {
                status: *status,
                body: body@,
            },
        }
    }
}

/// What the outside world reports back to the machine.
#[derive(Debug)]
pub enum Event {
    /// The credential environment variable's value, or `None` when unset.
    Credential { value: Option<String> },
    /// The extraction subprocess's outcome.
    Extraction { outcome: ExtractionOutcome },
    /// The network call's outcome.
    Http { outcome: HttpOutcome },
}

/// Abstract form of [`Event`].
pub enum EventView {
    Credential { value: Option<Seq<char>> },
    Extraction { outcome: ExtractionOutcomeView },
    Http { outcome: HttpOutcomeView },
}

impl View for Event {
    type V = EventView;

    open spec fn view(&self) -> EventView {
        match self {
            Event::Credential { value } => EventView::Credential {
                value: match value {
                    Some(k) => Some(k@),
                    None => None,
                },
            },
            Event::Extraction { outcome } => EventView::Extraction { outcome: outcome@ },
            Event::Http { outcome } => EventView::Http { outcome: outcome@ },
        }
    }
}

/// What the machine asks the outside world to do next.
#[derive(Debug)]
pub enum Action {
    /// Read the credential environment variable and report its value.
    ReadCredential,
    /// Run the extraction utility on the document and report its outcome.
    RunExtraction { path: String },
    /// Send the serialized body to the completion API, authorized with the
    /// credential, and report the outcome.
    SendRequest { credential: String, body: String },
    /// Nothing: the pipeline is finished.
    Stop,
}

/// Abstract form of [`Action`].
pub enum ActionView {
    ReadCredential,
    RunExtraction { path: Seq<char> },
    SendRequest { credential: Seq<char>, body: Seq<char> },
    Stop,
}

impl View for Action {
    type V = ActionView;

    open spec fn view(&self) -> ActionView {
        match self {
            Action::ReadCredential => ActionView::ReadCredential,
            Action::RunExtraction { path } => ActionView::RunExtraction { path: path@ },
            Action::SendRequest { credential, body } => ActionView::SendRequest {
                credential: credential@,
                body: body@,
            },
            Action::Stop => ActionView::Stop,
        }
    }
}

/// Where one invocation stands.
#[derive(Debug)]
pub enum PipelineState {
    /// Nothing has happened; the machine expects the credential.
    Start,
    /// The credential is resolved; the machine expects the extraction outcome.
    AwaitingExtraction { credential: String },
    /// The request is handed out; the machine expects the reply.
    AwaitingReply,
    /// Terminal: the pipeline succeeded.
    Done { result: AnalysisResult },
    /// Terminal: the pipeline failed.
    Failed { error: PipelineError },
}

/// Abstract form of [`PipelineState`].
pub enum StateView {
    Start,
    AwaitingExtraction { credential: Seq<char> },
    AwaitingReply,
    Done { content: Seq<char> },
    Failed { error: ErrorView },
}

impl View for PipelineState {
    type V = StateView;

    open spec fn view(&self) -> StateView {
        match self {
            PipelineState::Start => StateView::Start,
            PipelineState::AwaitingExtraction { credential } => StateView::AwaitingExtraction {
                credential: credential@,
            },
            PipelineState::AwaitingReply => StateView::AwaitingReply,
            PipelineState::Done { result } => StateView::Done { content: result.content@ },
            PipelineState::Failed { error } => StateView::Failed { error: error@ },
        }
    }
}

/// The abstract transition function. For a state and the event it expects, it
/// gives the next state and the next piece of outside work; an event the state
/// does not expect leaves the state as it is and asks for nothing.
pub open spec fn step_model(
    cfg: ConfigView,
    request: RequestView,
    state: StateView,
    event: EventView,
) -> (StateView, ActionView) {
    match (state, event) {
        (StateView::Start, EventView::Credential { value }) => match value {
            None => (
                StateView::Failed { error: ErrorView::Configuration },
                ActionView::Stop,
            ),
            Some(credential) => (
                StateView::AwaitingExtraction { credential },
                ActionView::RunExtraction { path: request.path },
            ),
        },
        (
            StateView::AwaitingExtraction { credential },
            EventView::Extraction { outcome },
        ) => match outcome {
            ExtractionOutcomeView::LaunchFailed { detail } => (
                StateView::Failed { error: ErrorView::ExtractionLaunch { detail } },
                ActionView::Stop,
            ),
            ExtractionOutcomeView::Completed { success, stdout, stderr } => {
                if !success {
                    (
                        StateView::Failed {
                            error: ErrorView::ExtractionFailed {
                                stderr_text: lossy_utf8(stderr),
                            },
                        },
                        ActionView::Stop,
                    )
                } else {
                    (
                        StateView::AwaitingReply,
                        ActionView::SendRequest {
                            credential,
                            body: request_body_of(
                                full_prompt(
                                    chosen_template(
                                        request.doc_type,
                                        cfg.invoice_template,
                                        cfg.order_template,
                                    ),
                                    lossy_utf8(stdout),
                                ),
                            ),
                        },
                    )
                }
            },
        },
        (StateView::AwaitingReply, EventView::Http { outcome }) => match outcome {
            HttpOutcomeView::Failed { detail } => (
                StateView::Failed { error: ErrorView::Transport { detail } },
                ActionView::Stop,
            ),
            HttpOutcomeView::Reply { status, body } => match reply_outcome(status, body) {
                Ok(content) => (StateView::Done { content }, ActionView::Stop),
                Err(error) => (StateView::Failed { error }, ActionView::Stop),
            },
        },
        (s, _) => (s, ActionView::Stop),
    }
}

/// Law: when the credential is unset, the pipeline fails at once — the
/// machine reaches the configuration failure and asks for no extraction and
/// no network work.
pub proof fn lemma_missing_credential_halts(cfg: ConfigView, request: RequestView)
    ensures
        step_model(cfg, request, StateView::Start, EventView::Credential { value: None }) == ((
        StateView::Failed { error: ErrorView::Configuration },
        ActionView::Stop,
        )),
{
}

/// Law: when the extraction subprocess exits nonzero, the pipeline fails, its
/// message carries the subprocess's decoded standard-error text, and no
/// network work is asked for.
pub proof fn lemma_extraction_failure_halts(
    cfg: ConfigView,
    request: RequestView,
    credential: Seq<char>,
    stdout: Seq<u8>,
    stderr: Seq<u8>,
)
    ensures
        step_model(
            cfg,
            request,
            StateView::AwaitingExtraction { credential },
            EventView::Extraction {
                outcome: ExtractionOutcomeView::Completed { success: false, stdout, stderr },
            },
        ) == ((
        StateView::Failed {
            error: ErrorView::ExtractionFailed { stderr_text: lossy_utf8(stderr) },
        },
        ActionView::Stop,
        )),
        message_of(ErrorView::ExtractionFailed { stderr_text: lossy_utf8(stderr) })
            == "Fehler beim Lesen der PDF (pdftotext): "@ + lossy_utf8(stderr),
{
}

/// Law: a non-success status fails the pipeline with that status code, and
/// the reply body is never looked at — any two bodies give the same outcome.
pub proof fn lemma_api_error_ignores_body(
    cfg: ConfigView,
    request: RequestView,
    status: u16,
    body1: Seq<char>,
    body2: Seq<char>,
)
    requires
        !is_success_status(status),
    ensures
        step_model(
            cfg,
            request,
            StateView::AwaitingReply,
            EventView::Http { outcome: HttpOutcomeView::Reply { status, body: body1 } },
        ) == ((StateView::Failed { error: ErrorView::Api { status } }, ActionView::Stop)),
        step_model(
            cfg,
            request,
            StateView::AwaitingReply,
            EventView::Http { outcome: HttpOutcomeView::Reply { status, body: body1 } },
        ) == step_model(
            cfg,
            request,
            StateView::AwaitingReply,
            EventView::Http { outcome: HttpOutcomeView::Reply { status, body: body2 } },
        ),
{
}

/// Law (round trip): on a success status, when the reply's envelope carries a
/// content string that is itself valid JSON, the pipeline succeeds and
/// returns that string unchanged.
pub proof fn lemma_content_round_trip(
    cfg: ConfigView,
    request: RequestView,
    status: u16,
    body: Seq<char>,
    content: Seq<char>,
)
    requires
        is_success_status(status),
        json_rejection(body) is None,
        reply_content_of(body) == Some(content),
        json_rejection(content) is None,
    ensures
        step_model(
            cfg,
            request,
            StateView::AwaitingReply,
            EventView::Http { outcome: HttpOutcomeView::Reply { status, body } },
        ) == ((StateView::Done { content }, ActionView::Stop)),
{
}

/// Law: a terminal state is final — no event moves it, and it asks for no
/// further work.
pub proof fn lemma_terminal_states_are_final(
    cfg: ConfigView,
    request: RequestView,
    state: StateView,
    event: EventView,
)
    requires
        state matches StateView::Done { .. } || state matches StateView::Failed { .. },
    ensures
        step_model(cfg, request, state, event).0 == state,
        step_model(cfg, request, state, event).1 == ActionView::Stop,
{
}

/// The state and first piece of outside work that every invocation begins
/// with.
pub fn start_pipeline() -> (r: (PipelineState, Action))
    ensures
        r.0@ == StateView::Start,
        r.1@ == ActionView::ReadCredential,
{
    (PipelineState::Start, Action::ReadCredential)
}

/// Advances the pipeline by one step: consumes the outcome of the last piece
/// of outside work and decides the next state and the next piece of work,
/// exactly as [`step_model`] says.
pub fn pipeline_step(cfg: &Config, request: &AnalysisRequest, state: PipelineState, event: Event)
    -> (r: (PipelineState, Action))
    ensures
        r.0@ == step_model(cfg@, request@, state@, event@).0,
        r.1@ == step_model(cfg@, request@, state@, event@).1,
{
    match (state, event) {
        (PipelineState::Start, Event::Credential { value }) => match value {
            None => (
                PipelineState::Failed { error: PipelineError::ConfigurationError },
                Action::Stop,
            ),
            Some(credential) => (
                PipelineState::AwaitingExtraction { credential },
                Action::RunExtraction { path: request.path.clone() },
            ),
        },
        (
            PipelineState::AwaitingExtraction { credential },
            Event::Extraction { outcome },
        ) => match outcome {
            ExtractionOutcome::LaunchFailed { detail } => (
                PipelineState::Failed { error: PipelineError::ExtractionLaunchError(detail) },
                Action::Stop,
            ),
            ExtractionOutcome::Completed { success, stdout, stderr } => {
                if !success {
                    let stderr_text = decode_lossy(stderr.as_slice());
                    (
                        PipelineState::Failed {
                            error: PipelineError::ExtractionError(stderr_text),
                        },
                        Action::Stop,
                    )
                } else {
                    let text = decode_lossy(stdout.as_slice());
                    let template = select_template(
                        &request.doc_type,
                        &cfg.invoice_template,
                        &cfg.order_template,
                    );
                    let prompt = assemble_prompt(template.as_str(), text.as_str());
                    let body = build_request_body(prompt.as_str());
                    (PipelineState::AwaitingReply, Action::SendRequest { credential, body })
                }
            },
        },
        (PipelineState::AwaitingReply, Event::Http { outcome }) => match outcome {
            HttpOutcome::Failed { detail } => (
                PipelineState::Failed { error: PipelineError::TransportError(detail) },
                Action::Stop,
            ),
            HttpOutcome::Reply { status, body } => match handle_reply(status, body.as_str()) {
                Ok(result) => (PipelineState::Done { result }, Action::Stop),
                Err(error) => (PipelineState::Failed { error }, Action::Stop),
            },
        },
        (s, _) => (s, Action::Stop),
    }
}

} // verus!
