//! Turning the remote API's reply into the pipeline's result.

use vstd::prelude::*;
use crate::bindings::json_rejection;
use crate::bindings::json_rejection_of;
use crate::bindings::read_reply_content;
use crate::bindings::reply_content_of;
use crate::errors::ErrorView;
use crate::errors::PipelineError;

verus! {

/// The result of a successful analysis: the reply's content field, kept
/// exactly as the reply carried it. Its shape beyond "valid JSON" is whatever
/// the model produced; no schema is enforced here.
#[derive(Debug)]
pub struct AnalysisResult {
    /// The content string, verbatim.
    pub content: String,
}

impl AnalysisResult {
    /// Well-formedness: the content parses as JSON.
    pub open spec fn wf(&self) -> bool {
        json_rejection(self.content@) is None
    }
}

/// Whether an HTTP status code counts as success.
pub open spec fn is_success_status(status: u16) -> bool {
    200 <= status < 300
}

/// The outcome owed for a reply with the given status and body: an API error
/// on a non-success status, whatever the body holds; a decode error when the
/// body is not JSON; a missing-content error when the envelope carries no
/// content string; a parse error when the content is not JSON; and otherwise
/// the content itself, unchanged.
pub open spec fn reply_outcome(status: u16, body: Seq<char>) -> Result<Seq<char>, ErrorView> {
    if !is_success_status(status) {
        Err(ErrorView::Api { status })
    } else {
        match json_rejection(body) {
            Some(d) => Err(ErrorView::Decode { detail: d }),
            None => match reply_content_of(body) {
                None => Err(ErrorView::MissingContent),
                Some(c) => match json_rejection(c) {
                    Some(d) => Err(ErrorView::Parse { detail: d }),
                    None => Ok(c),
                },
            },
        }
    }
}

/// Law: whenever a reply yields a successful outcome, the content it yields
/// is itself valid JSON — the pipeline never returns an unparseable result.
pub proof fn lemma_success_content_is_json(status: u16, body: Seq<char>, content: Seq<char>)
    requires
        reply_outcome(status, body) == Ok::<Seq<char>, ErrorView>(content),
    ensures
        json_rejection(content) is None,
{
}

/// Validates the remote reply and unwraps the analysis result from it.
pub fn handle_reply(status: u16, body: &str) -> (r: Result<AnalysisResult, PipelineError>)
    ensures
        (match r {
            Ok(a) => reply_outcome(status, body@) == Ok::<Seq<char>, ErrorView>(a.content@)
                && a.wf(),
            Err(e) => reply_outcome(status, body@) == Err::<Seq<char>, ErrorView>(e@),
        }),
{
    if !(200 <= status && status < 300) {
        return Err(PipelineError::ApiError(status));
    }
    match read_reply_content(body) {
        Err(d) => Err(PipelineError::DecodeError(d)),
        Ok(None) => Err(PipelineError::MissingContentError),
        Ok(Some(c)) => match json_rejection_of(c.as_str()) {
            Some(d) => Err(PipelineError::ParseError(d)),
            None => Ok(AnalysisResult { content: c }),
        },
    }
}

} // verus!
