//! The entry summarization pipeline: building the prompt and the
//! request body for the text-generation API, extracting the generated
//! text from its response, and composing and rendering the display
//! string. The network call itself is made by the program around this
//! library; everything on either side of it is verified here.

use vstd::prelude::*;
use vstd::string::StringExecFns;

verus! {

/// One text fragment within a request or response, per the API's
/// nested body shape.
pub struct Part {
    pub text: String,
}

/// The parts of one message or candidate.
pub struct Content {
    pub parts: Vec<Part>,
}

/// The request body sent to the generation endpoint.
pub struct GeminiRequest {
    pub contents: Vec<Content>,
}

/// One generated completion in the response.
pub struct Candidate {
    pub content: Content,
}

/// The response body of the generation endpoint, reduced to the
/// fields this pipeline reads.
pub struct GeminiResponse {
    pub candidates: Vec<Candidate>,
}

/// Why a summarization run produced no summary.
#[derive(Clone, Copy, Debug, PartialEq, Eq, Structural)]
pub enum SummaryError {
    /// The response's candidate list was empty.
    EmptyCandidates,
    /// The first candidate's part list was empty.
    EmptyParts,
    /// The request itself failed: network error, non-2xx status, or a
    /// body that did not decode.
    Transport,
}

/// The fixed instruction the prompt starts with.
pub open spec fn instruction_spec() -> Seq<char> {
    "Write brief a summary in first person of only what was done in the work section of this entry in brazilian portuguese: "@
}

/// The prompt for an entry: the fixed instruction, then the entry's
/// content, unchanged.
pub open spec fn prompt_spec(entry_content: Seq<char>) -> Seq<char> {
    instruction_spec() + entry_content
}

/// The display string for a summary: a title line naming the entry,
/// then the summary text.
pub open spec fn display_spec(entry_name: Seq<char>, summary: Seq<char>) -> Seq<char> {
    "# Work summary for "@ + entry_name + "\n"@ + summary
}

/// Builds the prompt sent to the API for one entry's content.
pub fn build_prompt(entry_content: &str) -> (r: String)
    ensures
        r@ == prompt_spec(entry_content@),
{
    let mut s = String::from_str(
        "Write brief a summary in first person of only what was done in the work section of this entry in brazilian portuguese: ",
    );
    s.append(entry_content);
    s
}

/// The prompt always carries the entry's content whole: the content
/// stands unchanged at the end of the prompt, right after the fixed
/// instruction, so nothing of it is truncated or re-encoded.
pub proof fn lemma_prompt_contains_entry(entry_content: Seq<char>)
    ensures
        prompt_spec(entry_content).len() == instruction_spec().len() + entry_content.len(),
        prompt_spec(entry_content).subrange(
            instruction_spec().len() as int,
            prompt_spec(entry_content).len() as int,
        ) == entry_content,
{
    assert(prompt_spec(entry_content).subrange(
        instruction_spec().len() as int,
        prompt_spec(entry_content).len() as int,
    ) =~= entry_content);
}

/// Wraps a prompt in the request body shape the API expects: one
/// content holding one part holding the prompt.
pub fn build_request(prompt: String) -> (r: GeminiRequest)
    ensures
        r.contents@.len() == 1,
        r.contents@[0].parts@.len() == 1,
        r.contents@[0].parts@[0].text@ == prompt@,
{
    let mut parts: Vec<Part> = Vec::new();
    parts.push(Part { text: prompt });
    let mut contents: Vec<Content> = Vec::new();
    contents.push(Content { parts });
    GeminiRequest { contents }
}

/// Extracts the generated text from a response: the text of the first
/// part of the first candidate's content. An empty candidate list or
/// an empty part list is rejected, never index-defaulted.
pub fn extract_summary(resp: &GeminiResponse) -> (r: Result<String, SummaryError>)
    ensures
        resp.candidates@.len() == 0 ==> r == Err::<String, SummaryError>(
            SummaryError::EmptyCandidates,
        ),
        resp.candidates@.len() > 0 && resp.candidates@[0].content.parts@.len() == 0 ==> r
            == Err::<String, SummaryError>(SummaryError::EmptyParts),
        resp.candidates@.len() > 0 && resp.candidates@[0].content.parts@.len() > 0 ==> r is Ok
            && r->Ok_0@ == resp.candidates@[0].content.parts@[0].text@,
{
    if resp.candidates.len() == 0 {
        Err(SummaryError::EmptyCandidates)
    } else if resp.candidates[0].content.parts.len() == 0 {
        Err(SummaryError::EmptyParts)
    } else {
        Ok(resp.candidates[0].content.parts[0].text.clone())
    }
}

/// Composes the display string: the title line `# Work summary for
/// <entry-name>`, a newline, then the summary text.
pub fn compose_display(entry_name: &str, summary: &str) -> (r: String)
    ensures
        r@ == display_spec(entry_name@, summary@),
{
    let mut s = String::from_str("# Work summary for ");
    s.append(entry_name);
    s.append("\n");
    s.append(summary);
    s
}

/// Relies on termimad::minimad::parse_text (with indentations kept as
/// authored and spans continued across line breaks),
/// termimad::get_default_skin, and termimad::FmtText::from_text with no
/// width limit: the terminal rendering of a markdown text. The styled
/// bytes it writes can differ with the environment (crossterm emits no
/// colors when NO_COLOR is set), so nothing is promised of the result.
#[verifier::external_body]
fn render_markdown(text: &str) -> String {
    let options = termimad::minimad::Options::default().clean_indentations(false).continue_spans(
        true,
    );
    let parsed = termimad::minimad::parse_text(text, options);
    let skin = termimad::get_default_skin();
    let fmt = termimad::FmtText::from_text(skin, parsed, None);
    format!("{}", fmt)
}

/// Composes the display string for an entry's summary and renders it
/// for the terminal. What is rendered is exactly the string
/// `compose_display` fixes; the rendering itself can vary with the
/// environment, so no contract pins it.
pub fn format_summary(entry_name: &str, summary: &str) -> String {
    let text = compose_display(entry_name, summary);
    render_markdown(text.as_str())
}

/// Runs the response half of the pipeline: extracts the generated text
/// and composes the titled display string, or reports exactly why the
/// response held no summary. Rendering the result for the terminal is
/// `format_summary`'s separate, unpinned step.
pub fn summarize_response(entry_name: &str, resp: &GeminiResponse) -> (r: Result<
    String,
    SummaryError,
>)
    ensures
        resp.candidates@.len() == 0 ==> r == Err::<String, SummaryError>(
            SummaryError::EmptyCandidates,
        ),
        resp.candidates@.len() > 0 && resp.candidates@[0].content.parts@.len() == 0 ==> r
            == Err::<String, SummaryError>(SummaryError::EmptyParts),
        resp.candidates@.len() > 0 && resp.candidates@[0].content.parts@.len() > 0 ==> r is Ok
            && r->Ok_0@ == display_spec(
            entry_name@,
            resp.candidates@[0].content.parts@[0].text@,
        ),
{
    match extract_summary(resp) {
        Ok(summary) => Ok(compose_display(entry_name, summary.as_str())),
        Err(e) => Err(e),
    }
}

/// Whether the summary flow can go on at all: it needs at least one
/// stored entry to pick from.
pub fn summary_available(entries: &Vec<String>) -> (r: bool)
    ensures
        r <==> entries@.len() != 0,
{
    entries.len() != 0
}

/// The message shown when the diary directory holds no entries.
pub fn no_entries_message() -> (r: String)
    ensures
        r@ == "No entries found"@,
{
    String::from_str("No entries found")
}

/// The fixed endpoint the summarization request is posted to; the API
/// key is appended by the caller as the `key` query parameter.
pub fn api_url() -> (r: String)
    ensures
        r@
            == "https://generativelanguage.googleapis.com/v1beta/models/gemini-1.5-flash-latest:generateContent"@,
{
    String::from_str(
        "https://generativelanguage.googleapis.com/v1beta/models/gemini-1.5-flash-latest:generateContent",
    )
}

impl SummaryError {
    /// The user-facing message for this error.
    pub open spec fn message_spec(self) -> Seq<char> {
        match self {
            SummaryError::EmptyCandidates => "the API response contained no candidates"@,
            SummaryError::EmptyParts => "the API response's first candidate contained no text parts"@,
            SummaryError::Transport => "the request to the API failed"@,
        }
    }

    /// Returns the user-facing message for this error.
    pub fn message(&self) -> (r: String)
        ensures
            r@ == self.message_spec(),
    {
        match self {
            SummaryError::EmptyCandidates => String::from_str(
                "the API response contained no candidates",
            ),
            SummaryError::EmptyParts => String::from_str(
                "the API response's first candidate contained no text parts",
            ),
            SummaryError::Transport => String::from_str("the request to the API failed"),
        }
    }
}

} // verus!
