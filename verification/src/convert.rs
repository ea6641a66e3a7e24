//! The markdown-to-HTML conversion capability.
//!
//! Prose conversion is delegated to the `markdown` crate and treated as a
//! black box: its output is named, not restated, so contracts downstream
//! can say exactly "the converted body of this prepared source".

use vstd::prelude::*;

verus! {

/// What the markdown converter returns for a source text. The converter
/// is a pure function of the text alone, so the name is well defined.
pub uninterp spec fn html_of_markdown(src: Seq<char>) -> Seq<char>;

/// Relies on `markdown::to_html_with_options`, with default (CommonMark)
/// parse options and raw HTML passed through, so substituted diagram
/// markup survives conversion. With these parse options the converter
/// never fails — parse errors exist only for MDX — and its output
/// depends on the input text alone; the empty-string arm is unreachable.
#[verifier::external_body]
pub(crate) fn markdown_to_html(src: &str) -> (r: String)
    ensures
        r@ == html_of_markdown(src@),
{
    let options = markdown::Options {
        compile: markdown::CompileOptions {
            allow_dangerous_html: true,
            ..markdown::CompileOptions::default()
        },
        ..markdown::Options::default()
    };
    markdown::to_html_with_options(src, &options).unwrap_or_default()
}

} // verus!
