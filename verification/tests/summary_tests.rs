use diary::summary::{
    api_url, build_prompt, build_request, compose_display, extract_summary, format_summary,
    no_entries_message, summarize_response, summary_available, Candidate, Content, GeminiResponse,
    Part, SummaryError,
};

fn one_part_response(text: &str) -> GeminiResponse {
    GeminiResponse {
        candidates: vec![Candidate {
            content: Content {
                parts: vec![Part {
                    text: String::from(text),
                }],
            },
        }],
    }
}

#[test]
fn empty_candidate_list_is_rejected() {
    let resp = GeminiResponse { candidates: vec![] };
    assert_eq!(extract_summary(&resp), Err(SummaryError::EmptyCandidates));
    assert_eq!(
        summarize_response("2024-01-01.md", &resp),
        Err(SummaryError::EmptyCandidates)
    );
}

#[test]
fn empty_part_list_is_rejected() {
    let resp = GeminiResponse {
        candidates: vec![Candidate {
            content: Content { parts: vec![] },
        }],
    };
    assert_eq!(extract_summary(&resp), Err(SummaryError::EmptyParts));
}

#[test]
fn first_part_of_first_candidate_is_extracted() {
    let resp = one_part_response("Fiz X e Y.");
    assert_eq!(extract_summary(&resp), Ok(String::from("Fiz X e Y.")));
}

#[test]
fn composed_display_has_title_line_then_summary() {
    let text = compose_display("2024-01-01.md", "Fiz X e Y.");
    assert_eq!(text, "# Work summary for 2024-01-01.md\nFiz X e Y.");
}

#[test]
fn prompt_carries_the_entry_content_whole() {
    let content = "### work\ndid a thing\n\n### studies\nread a book";
    let prompt = build_prompt(content);
    assert!(prompt.contains(content));
    assert!(prompt.ends_with(content));
    assert!(prompt.starts_with(
        "Write brief a summary in first person of only what was done in the work section"
    ));
}

#[test]
fn request_body_holds_the_prompt_in_one_part() {
    let prompt = build_prompt("entry text");
    let expected = prompt.clone();
    let req = build_request(prompt);
    assert_eq!(req.contents.len(), 1);
    assert_eq!(req.contents[0].parts.len(), 1);
    assert_eq!(req.contents[0].parts[0].text, expected);
}

#[test]
fn rendered_summary_keeps_the_text_and_consumes_the_title_marker() {
    let rendered = format_summary("2024-01-01.md", "Fiz X e Y.");
    assert!(rendered.contains("Fiz X e Y."));
    assert!(!rendered.contains("# Work summary"));
    assert_ne!(rendered, compose_display("2024-01-01.md", "Fiz X e Y."));
}

#[test]
fn successful_response_yields_the_titled_display() {
    let resp = one_part_response("Fiz X e Y.");
    let out = summarize_response("2024-01-01.md", &resp).unwrap();
    assert_eq!(out, "# Work summary for 2024-01-01.md\nFiz X e Y.");
}

#[test]
fn summary_flow_needs_at_least_one_entry() {
    assert!(!summary_available(&Vec::new()));
    assert!(summary_available(&vec![String::from("2024-01-01.md")]));
    assert_eq!(no_entries_message(), "No entries found");
}

#[test]
fn error_messages_are_distinct() {
    let a = SummaryError::EmptyCandidates.message();
    let b = SummaryError::EmptyParts.message();
    let c = SummaryError::Transport.message();
    assert_eq!(a, "the API response contained no candidates");
    assert_ne!(a, b);
    assert_ne!(b, c);
    assert_ne!(a, c);
}

#[test]
fn endpoint_is_fixed() {
    assert_eq!(
        api_url(),
        "https://generativelanguage.googleapis.com/v1beta/models/gemini-1.5-flash-latest:generateContent"
    );
}
