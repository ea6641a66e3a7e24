//! The render pipeline: compile a document, then assemble the page.
//!
//! `render_doc` is the single entry point used by the one-shot export
//! path and by the live-preview endpoint alike, so previewed and
//! exported pages are produced by the same logic modulo the reload
//! flag. It short-circuits on the first failure and propagates its
//! kind unchanged.

use vstd::prelude::*;
use crate::convert::html_of_markdown;
use crate::diagram::spec_substitute;
use crate::errors::RenderError;
use crate::lines::{spec_join_lines, spec_split_lines};
use crate::template::{Template, TemplateView, asset_view, page_of, tame_skeleton, PageTemplate};
use crate::title::spec_title;

verus! {

/// The document text after diagram substitution, ready for markdown
/// conversion: its lines with every closed diagram block replaced by
/// the diagram renderer's output.
pub open spec fn spec_prepared(doc: Seq<char>) -> Seq<char> {
    spec_join_lines(spec_substitute(spec_split_lines(doc)))
}

/// The title of a document: its first top-level heading, or the stem.
pub open spec fn spec_doc_title(doc: Seq<char>, stem: Seq<char>) -> Seq<char> {
    spec_title(spec_split_lines(doc), stem)
}

/// What compiling a document yields: the derived title and the HTML
/// body converted from the prepared source.
pub open spec fn spec_compile(doc: Seq<char>, stem: Seq<char>) -> (Seq<char>, Seq<char>) {
    (spec_doc_title(doc, stem), html_of_markdown(spec_prepared(doc)))
}

/// Compiles a document's text: substitutes diagram blocks, converts the
/// prose to HTML, and derives the title (falling back to `stem`).
/// Total: a malformed diagram block is contained, never an error.
pub fn compile_document(doc: &str, stem: &str) -> (r: (String, String))
    ensures
        r.0@ == spec_compile(doc@, stem@).0,
        r.1@ == spec_compile(doc@, stem@).1,
{
    let chars = crate::chars::str_to_chars(doc);
    let stem_chars = crate::chars::str_to_chars(stem);
    let ls = crate::lines::split_lines(&chars);
    let title_chars = crate::title::derive_title(&ls, &stem_chars);
    let substituted = crate::diagram::substitute_diagrams(&ls);
    let prepared_chars = crate::lines::join_lines(&substituted);
    let prepared = crate::chars::chars_to_string(&prepared_chars);
    let body = crate::convert::markdown_to_html(prepared.as_str());
    let title = crate::chars::chars_to_string(&title_chars);
    (title, body)
}

/// What rendering a document yields: the page assembled from the
/// compiled document and the template, or the first failure.
pub open spec fn spec_render_doc(
    doc: Option<Seq<char>>,
    stem: Seq<char>,
    t: TemplateView,
    live_reload: bool,
) -> Result<Seq<char>, RenderError> {
    match doc {
        None => Err(RenderError::DocumentNotFound),
        Some(d) => match page_of(
            t.skeleton,
            spec_doc_title(d, stem),
            html_of_markdown(spec_prepared(d)),
            t.css,
            t.macros,
            live_reload,
        ) {
            Some(p) => Ok(p),
            None => Err(RenderError::TemplateRenderError),
        },
    }
}

/// Renders one document against a resolved template: compile, then
/// assemble, short-circuiting on the first failure. `doc` is the
/// document's text as read from `doc_path` (`None` when unreadable),
/// and `doc_path` names the document for title fallback.
///
/// The markdown capability is total, so `ConversionError` is never
/// produced; for a tame skeleton the result is pinned exactly.
pub fn render_doc(doc: Option<String>, doc_path: &str, template: &Template, live_reload: bool) -> (r:
    Result<String, RenderError>)
    ensures
        tame_skeleton(template@.skeleton) ==> ((r is Ok) == (spec_render_doc(
            asset_view(doc),
            crate::paths::spec_file_stem(doc_path@),
            template@,
            live_reload,
        ) is Ok)),
        tame_skeleton(template@.skeleton) && r is Ok ==> r->Ok_0@ == spec_render_doc(
            asset_view(doc),
            crate::paths::spec_file_stem(doc_path@),
            template@,
            live_reload,
        )->Ok_0,
        tame_skeleton(template@.skeleton) && r is Err ==> r->Err_0 == spec_render_doc(
            asset_view(doc),
            crate::paths::spec_file_stem(doc_path@),
            template@,
            live_reload,
        )->Err_0,
        doc is None <==> r == Err::<String, RenderError>(RenderError::DocumentNotFound),
        doc is Some && r is Err ==> r->Err_0 == RenderError::TemplateRenderError,
{
    let text = match doc {
        None => {
            return Err(RenderError::DocumentNotFound);
        },
        Some(t) => t,
    };
    let stem = crate::paths::file_stem(doc_path);
    let (title, body) = compile_document(text.as_str(), stem.as_str());
    let page = PageTemplate {
        title,
        body,
        css: template.css.clone(),
        macros: template.macros.clone(),
        use_websocket: live_reload,
        skeleton: template.skeleton.clone(),
    };
    match page.render() {
        Ok(html) => Ok(html),
        Err(_) => Err(RenderError::TemplateRenderError),
    }
}

/// Diagram containment, document side: a document with no diagram
/// opening fence reaches the markdown converter completely untouched.
pub proof fn lemma_prepare_no_diagrams(doc: Seq<char>)
    requires
        forall|i: int|
            0 <= i < spec_split_lines(doc).len() ==> !crate::diagram::is_diagram_open(
                #[trigger] spec_split_lines(doc)[i],
            ),
    ensures
        spec_prepared(doc) == doc,
{
    crate::diagram::lemma_substitute_no_diagrams(spec_split_lines(doc));
    crate::lines::lemma_join_split_roundtrip(doc);
}

/// The outcome of an external format conversion, from the converter
/// process's opaque pass/fail signal: a non-success exit is exactly an
/// `ExternalConversionError`.
pub fn export_outcome(success: bool) -> (r: Result<(), RenderError>)
    ensures
        (r is Ok) == success,
        r is Err ==> r->Err_0 == RenderError::ExternalConversionError,
{
    if success {
        Ok(())
    } else {
        Err(RenderError::ExternalConversionError)
    }
}

/// Rendering is deterministic: for fixed document text, template
/// contents and reload flag, any two results that `render_doc`'s
/// contract admits for the same inputs are equal, byte for byte.
pub proof fn lemma_render_deterministic(
    doc: Option<Seq<char>>,
    stem: Seq<char>,
    t: TemplateView,
    live_reload: bool,
    r1: Result<Seq<char>, RenderError>,
    r2: Result<Seq<char>, RenderError>,
)
    requires
        r1 == spec_render_doc(doc, stem, t, live_reload),
        r2 == spec_render_doc(doc, stem, t, live_reload),
    ensures
        r1 == r2,
{
}

/// The query parameters of the on-demand render endpoint: the path of
/// the document to preview.
pub struct IndexParams {
    pub path: String,
}

} // verus!
