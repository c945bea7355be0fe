//! Template selection, prompt assembly and request-body construction.

use vstd::prelude::*;
use crate::bindings::json_quoted;
use crate::bindings::quote_json_string;

verus! {

/// The one document-type tag that selects the invoice template.
pub open spec fn invoice_tag() -> Seq<char> {
    "rechnung"@
}

/// The literal section header between template and document text.
pub open spec fn content_header() -> Seq<char> {
    "\n\nDokument Inhalt:\n"@
}

/// The template a document-type tag selects: the invoice template on exactly
/// the invoice tag, the order template on every other value.
pub open spec fn chosen_template(
    doc_type: Seq<char>,
    invoice: Seq<char>,
    order: Seq<char>,
) -> Seq<char> {
    if doc_type == invoice_tag() {
        invoice
    } else {
        order
    }
}

/// The full prompt: template, section header, document text, concatenated.
pub open spec fn full_prompt(template: Seq<char>, text: Seq<char>) -> Seq<char> {
    template + content_header() + text
}

/// The serialized request body for a prompt: the model name, one user message
/// holding the prompt, and the directive asking for a JSON-object reply, with
/// the object keys in the sorted order the serializer writes maps in.
pub open spec fn request_body_of(prompt: Seq<char>) -> Seq<char> {
    "{\"messages\":[{\"content\":"@ + json_quoted(prompt)
        + ",\"role\":\"user\"}],\"model\":\"mistral-large-latest\",\"response_format\":{\"type\":\"json_object\"}}"@
}

/// Two-way template policy: the invoice tag selects the invoice template, and
/// every other tag — empty, misspelled or arbitrary — selects the order
/// template.
pub proof fn lemma_template_two_way(doc_type: Seq<char>, invoice: Seq<char>, order: Seq<char>)
    ensures
        doc_type == invoice_tag() ==> chosen_template(doc_type, invoice, order) == invoice,
        doc_type != invoice_tag() ==> chosen_template(doc_type, invoice, order) == order,
{
}

/// Picks the template for a document-type tag.
pub fn select_template<'a>(doc_type: &String, invoice: &'a String, order: &'a String) -> (r:
    &'a String)
    ensures
        r@ == chosen_template(doc_type@, invoice@, order@),
{
    let tag: String = "rechnung".to_owned();
    if *doc_type == tag {
        invoice
    } else {
        order
    }
}

/// Concatenates template, section header and document text into the prompt.
pub fn assemble_prompt(template: &str, text: &str) -> (r: String)
    ensures
        r@ == full_prompt(template@, text@),
{
    let mut s = template.to_owned();
    s.append("\n\nDokument Inhalt:\n");
    s.append(text);
    proof {
        assert(s@ =~= full_prompt(template@, text@));
    }
    s
}

/// Builds the serialized request body around a prompt.
pub fn build_request_body(prompt: &str) -> (r: String)
    ensures
        r@ == request_body_of(prompt@),
{
    let mut s = "{\"messages\":[{\"content\":".to_owned();
    let quoted = quote_json_string(prompt);
    s.append(quoted.as_str());
    s.append(
        ",\"role\":\"user\"}],\"model\":\"mistral-large-latest\",\"response_format\":{\"type\":\"json_object\"}}",
    );
    proof {
        assert(s@ =~= request_body_of(prompt@));
    }
    s
}

} // verus!
