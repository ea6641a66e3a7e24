//! The failure taxonomy of the rendering pipeline and the watch service.

use vstd::prelude::*;

verus! {

/// Every way the pipeline can fail.
///
/// Render-path failures are surfaced to the immediate caller and never
/// retried; none of them is fatal to a running server.
#[derive(Clone, Copy, Debug, PartialEq, Eq, Structural)]
pub enum RenderError {
    /// The document path does not resolve to a readable file.
    DocumentNotFound,
    /// The template directory lacks a readable page skeleton.
    TemplateNotFound,
    /// The markdown-to-HTML capability reported a failure.
    ConversionError,
    /// Slot substitution over the page skeleton failed (an authoring
    /// error in the skeleton itself).
    TemplateRenderError,
    /// An external format converter exited with a non-zero status.
    ExternalConversionError,
    /// The watched file disappeared in the middle of a session.
    WatchTargetLost,
}

impl RenderError {
    /// A short description of the failure, for callers that report it.
    pub fn message(&self) -> (r: &'static str)
        ensures
            r@ == self.spec_message(),
    {
        match self {
            RenderError::DocumentNotFound => "document not found",
            RenderError::TemplateNotFound => "template skeleton not found",
            RenderError::ConversionError => "markdown conversion failed",
            RenderError::TemplateRenderError => "page skeleton substitution failed",
            RenderError::ExternalConversionError => "external converter failed",
            RenderError::WatchTargetLost => "watched file disappeared",
        }
    }

    /// What `message` returns for each variant.
    pub open spec fn spec_message(&self) -> Seq<char> {
        match self {
            RenderError::DocumentNotFound => "document not found"@,
            RenderError::TemplateNotFound => "template skeleton not found"@,
            RenderError::ConversionError => "markdown conversion failed"@,
            RenderError::TemplateRenderError => "page skeleton substitution failed"@,
            RenderError::ExternalConversionError => "external converter failed"@,
            RenderError::WatchTargetLost => "watched file disappeared"@,
        }
    }
}

} // verus!
