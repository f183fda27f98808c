//! The page: a fixed template with two named slots, filled by `handlebars`.

use vstd::prelude::*;

verus! {

/// `handlebars::RenderError`, carried through as an opaque value.
#[verifier::external_type_specification]
#[verifier::external_body]
pub struct ExRenderError(handlebars::RenderError);

/// The page up to the poem's fragment.
pub const PAGE_HEAD: &'static str =
    "<!DOCTYPE html>\n<html>\n<head>\n<meta charset=\"utf-8\">\n<title>Poem</title>\n</head>\n<body>\n<div>";

/// The page between the two fragments.
pub const PAGE_MIDDLE: &'static str = "</div>\n<div>";

/// The page after the attribution's fragment.
pub const PAGE_TAIL: &'static str = "</div>\n</body>\n</html>\n";

/// The slot of the poem's fragment, written so that the fragment is put in
/// as it is.
pub const CONTENT_SLOT: &'static str = "{{{content}}}";

/// The slot of the attribution's fragment, written likewise.
pub const AUTHOR_SLOT: &'static str = "{{{author}}}";

/// The page template: fixed text around the two slots.
pub open spec fn template_text() -> Seq<char> {
    PAGE_HEAD@ + CONTENT_SLOT@ + PAGE_MIDDLE@ + AUTHOR_SLOT@ + PAGE_TAIL@
}

/// The page for two fragments: the template's text with each slot replaced
/// by its fragment, unchanged.
pub open spec fn page_text(body: Seq<char>, attribution: Seq<char>) -> Seq<char> {
    PAGE_HEAD@ + body + PAGE_MIDDLE@ + attribution + PAGE_TAIL@
}

/// What the template's slots hold: the poem's fragment under `content`, the
/// attribution's under `author`.
pub open spec fn page_slots(body: Seq<char>, attribution: Seq<char>) -> Map<Seq<char>, Seq<char>> {
    Map::empty().insert("content"@, body).insert("author"@, attribution)
}

/// Whether a fresh `handlebars` registry renders the template with a table
/// of named strings, rather than reporting an error.
pub uninterp spec fn template_renders(template: Seq<char>, slots: Map<Seq<char>, Seq<char>>) -> bool;

/// Calls `handlebars::Handlebars::render_template` on a registry made by
/// `Handlebars::new`, with an object of two string members as the data.
///
/// Trusted: whether the call succeeds is a function of the template and of
/// the two named strings alone, named by `template_renders`; and what it
/// renders is the template's text with each of the two triple-brace slots
/// replaced by the string of its name, unescaped, and the text around them
/// unchanged. Only the page template with its two slot names is admitted:
/// nothing is claimed of other templates.
#[verifier::external_body]
pub(crate) fn render_slots(
    template: &str,
    first_name: &str,
    first_value: &str,
    second_name: &str,
    second_value: &str,
) -> (r: Result<String, handlebars::RenderError>)
    requires
        template@ == template_text(),
        first_name@ == "content"@,
        second_name@ == "author"@,
    ensures
        r is Ok == template_renders(template@, page_slots(first_value@, second_value@)),
        r matches Ok(page) ==> page@ == page_text(first_value@, second_value@),
{
    let mut data = serde_json::Map::new();
    data.insert(first_name.to_string(), serde_json::Value::String(first_value.to_string()));
    data.insert(second_name.to_string(), serde_json::Value::String(second_value.to_string()));
    handlebars::Handlebars::new().render_template(template, &data)
}

/// The template could not be rendered.
#[derive(Debug, Clone, Copy, PartialEq, Eq, Structural)]
pub struct TemplateError;

/// The page for two fragments, where the template renders with them.
pub open spec fn page_of(body: Seq<char>, attribution: Seq<char>) -> Option<Seq<char>> {
    if template_renders(template_text(), page_slots(body, attribution)) {
        Some(page_text(body, attribution))
    } else {
        None
    }
}

/// The page template, put together from its parts.
pub fn page_template() -> (template: String)
    ensures
        template@ == template_text(),
{
    let mut template = PAGE_HEAD.to_owned();
    template.append(CONTENT_SLOT);
    template.append(PAGE_MIDDLE);
    template.append(AUTHOR_SLOT);
    template.append(PAGE_TAIL);
    template
}

/// Fills the page template's `content` and `author` slots with the two
/// fragments.
///
/// Returns the page, which holds both fragments as they are, or
/// `TemplateError` exactly when rendering reports an error.
pub fn compose_page(body: &str, attribution: &str) -> (r: Result<String, TemplateError>)
    ensures
        match r {
            Ok(page) => page_of(body@, attribution@) == Some(page@),
            Err(_) => page_of(body@, attribution@) is None,
        },
{
    let template = page_template();
    match render_slots(template.as_str(), "content", body, "author", attribution) {
        Ok(page) => Ok(page),
        Err(_) => Err(TemplateError),
    }
}

/// The page holds both fragments whole, the poem's before the
/// attribution's, between the template's fixed parts.
pub proof fn lemma_page_holds_both_fragments(body: Seq<char>, attribution: Seq<char>)
    ensures
        ({
            let page = page_text(body, attribution);
            let first = PAGE_HEAD@.len() as int;
            let second = first + body.len() + PAGE_MIDDLE@.len();
            &&& page.len() == second + attribution.len() + PAGE_TAIL@.len()
            &&& page.subrange(0, first) == PAGE_HEAD@
            &&& page.subrange(first, first + body.len()) == body
            &&& page.subrange(first + body.len(), second) == PAGE_MIDDLE@
            &&& page.subrange(second, second + attribution.len()) == attribution
            &&& page.subrange(second + attribution.len(), page.len() as int) == PAGE_TAIL@
        }),
{
    let page = page_text(body, attribution);
    let first = PAGE_HEAD@.len() as int;
    let second = first + body.len() + PAGE_MIDDLE@.len();
    assert(page.subrange(0, first) =~= PAGE_HEAD@);
    assert(page.subrange(first, first + body.len()) =~= body);
    assert(page.subrange(first + body.len(), second) =~= PAGE_MIDDLE@);
    assert(page.subrange(second, second + attribution.len()) =~= attribution);
    assert(page.subrange(second + attribution.len(), page.len() as int) =~= PAGE_TAIL@);
}

} // verus!
