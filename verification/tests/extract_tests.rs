use aoc_fetch::extract::extract_prompt_text;
use aoc_fetch::fetch::{input_content_from_response, prompt_content_from_response, RunError};

#[test]
fn two_articles_join_with_a_newline() {
    let html = "<html><body><article>A</article><article>B</article></body></html>";
    assert_eq!(extract_prompt_text(html).unwrap(), "A\nB");
}

#[test]
fn bare_fragment_is_parsed_as_a_document() {
    let html = "<article>A</article><article>B</article>";
    assert_eq!(extract_prompt_text(html).unwrap(), "A\nB");
}

#[test]
fn article_markup_is_kept_verbatim() {
    let html = "<article><p>Day <em>1</em></p></article>";
    assert_eq!(extract_prompt_text(html).unwrap(), "<p>Day <em>1</em></p>");
}

#[test]
fn page_without_articles_yields_empty_text() {
    let html = "<html><body><p>nothing here</p></body></html>";
    assert_eq!(extract_prompt_text(html).unwrap(), "");
}

#[test]
fn successful_prompt_response_is_extracted() {
    let body = "<article>A</article><article>B</article>";
    assert_eq!(prompt_content_from_response(200, body).unwrap(), "A\nB");
}

#[test]
fn failed_prompt_response_aborts() {
    let body = "<article>A</article>";
    assert_eq!(prompt_content_from_response(404, body).unwrap_err(), RunError::PromptFetch);
    assert_eq!(prompt_content_from_response(500, body).unwrap_err(), RunError::PromptFetch);
}

#[test]
fn successful_input_response_is_stored_verbatim() {
    assert_eq!(input_content_from_response(200, "1\n2\n3\n").unwrap(), "1\n2\n3\n");
}

#[test]
fn failed_input_response_aborts() {
    assert_eq!(input_content_from_response(404, "ignored").unwrap_err(), RunError::InputFetch);
}
