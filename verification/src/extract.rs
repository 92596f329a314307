//! Prompt extraction: a fetched prompt page is reduced to the inner markup
//! of its `<article>` elements, joined with newlines, before it is stored.

use vstd::prelude::*;
use crate::textops::join_nl;

verus! {

/// Whether the text is a well-formed CSS selector; decided by the text alone.
pub uninterp spec fn selector_ok(selector: Seq<char>) -> bool;

/// The inner markup of each element of the document that the selector
/// matches, in document order; decided by the document and selector alone.
pub uninterp spec fn selected_inner_html(document: Seq<char>, selector: Seq<char>) -> Seq<
    Seq<char>,
>;

/// Relies on `scraper::Selector::parse`, `scraper::Html::parse_document`,
/// `scraper::Html::select` and `scraper::ElementRef::inner_html`: whether
/// the selector parses depends on its text alone, and the selected inner
/// markup depends on the document and selector texts alone.
#[verifier::external_body]
fn select_sections(document: &str, selector: &str) -> (r: Option<Vec<String>>)
    ensures
        r is Some <==> selector_ok(selector@),
        r matches Some(v) ==> v@.map_values(|s: String| s@) == selected_inner_html(
            document@,
            selector@,
        ),
{
    let parsed = match scraper::Selector::parse(selector) {
        Ok(p) => p,
        Err(_) => {
            return None;
        },
    };
    let html = scraper::Html::parse_document(document);
    Some(html.select(&parsed).map(|e| e.inner_html()).collect())
}

/// The stored text of a prompt page: the inner markup of its `<article>`
/// elements, joined with newlines.
pub open spec fn prompt_text_of(document: Seq<char>) -> Seq<char> {
    join_nl(selected_inner_html(document, "article"@))
}

/// Turns a fetched prompt page into the text to store. `None` only when the
/// article selector itself is rejected.
pub fn extract_prompt_text(document: &str) -> (r: Option<String>)
    ensures
        r is Some <==> selector_ok("article"@),
        r matches Some(t) ==> t@ == prompt_text_of(document@),
{
    match select_sections(document, "article") {
        None => None,
        Some(sections) => Some(crate::textops::join_with_newlines(&sections)),
    }
}

} // verus!
