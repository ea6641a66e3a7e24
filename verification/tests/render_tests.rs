//! Tests for the rendering pipeline: compilation, titles, diagrams,
//! page assembly, and the render orchestrator.

use tatum::errors::RenderError;
use tatum::render::{compile_document, render_doc};
use tatum::template::{is_tame_skeleton, PageTemplate, Template};

fn simple_template() -> Template {
    let skeleton = "T:{{ title }};B:{{ body }};C:{{ inline_css }};M:{{ katex_macros }};W:{% if use_websocket %}on{% endif %}";
    match Template::from_assets(
        Some(String::from(skeleton)),
        Some(String::from("styles")),
        Some(String::from("macros")),
    ) {
        Ok(t) => t,
        Err(_) => panic!("template must resolve"),
    }
}

#[test]
fn title_from_first_heading() {
    let (title, _) = compile_document("# Intro\n\nSome text.", "doc");
    assert_eq!(title, "Intro");
}

#[test]
fn title_fallback_to_stem() {
    let (title, _) = compile_document("Just a paragraph.", "notes");
    assert_eq!(title, "notes");
}

#[test]
fn title_takes_first_heading_only() {
    let (title, _) = compile_document("text\n# First\n# Second", "d");
    assert_eq!(title, "First");
}

#[test]
fn title_ignores_deeper_headings() {
    let (title, _) = compile_document("## Sub\nbody", "fallback");
    assert_eq!(title, "fallback");
}

#[test]
fn compile_converts_paragraph() {
    let (_, body) = compile_document("hello", "d");
    assert_eq!(body, "<p>hello</p>");
}

#[test]
fn diagram_block_becomes_svg() {
    let doc = "before\n\n```svg\n<circle r=\"4\"/>\n```\n\nafter";
    let (_, body) = compile_document(doc, "d");
    assert!(body.contains("<svg xmlns=\"http://www.w3.org/2000/svg\">"));
    assert!(body.contains("<circle r=\"4\"/>"));
    assert!(body.contains("</svg>"));
    assert!(body.contains("<p>before</p>"));
    assert!(body.contains("<p>after</p>"));
}

#[test]
fn malformed_diagram_is_contained() {
    // An empty diagram body is malformed: the block stays an inert
    // fenced code block and the surrounding paragraph still renders.
    let doc = "A fine paragraph.\n```svg\n```\nmore";
    let (_, body) = compile_document(doc, "d");
    assert!(body.contains("<p>A fine paragraph.</p>"));
    assert!(!body.contains("<svg"));
}

#[test]
fn diagram_body_with_backtick_is_contained() {
    let doc = "para\n```svg\nbad ` tick\n```\n";
    let (_, body) = compile_document(doc, "d");
    assert!(body.contains("<p>para</p>"));
    assert!(!body.contains("<svg"));
}

#[test]
fn unclosed_diagram_fence_kept() {
    let doc = "para\n```svg\nnever closed";
    let (_, body) = compile_document(doc, "d");
    assert!(body.contains("<p>para</p>"));
    assert!(!body.contains("<svg"));
}

#[test]
fn page_assembly_fills_all_slots() {
    let t = simple_template();
    let page = PageTemplate {
        title: String::from("Intro"),
        body: String::from("<p>hi</p>"),
        css: t.css.clone(),
        macros: t.macros.clone(),
        use_websocket: true,
        skeleton: t.skeleton.clone(),
    };
    let html = page.render().unwrap();
    assert_eq!(html, "T:Intro;B:<p>hi</p>;C:styles;M:macros;W:on");
}

#[test]
fn page_assembly_without_reload_flag() {
    let t = simple_template();
    let page = PageTemplate {
        title: String::from("x"),
        body: String::from("y"),
        css: t.css.clone(),
        macros: t.macros.clone(),
        use_websocket: false,
        skeleton: t.skeleton.clone(),
    };
    let html = page.render().unwrap();
    assert_eq!(html, "T:x;B:y;C:styles;M:macros;W:");
}

#[test]
fn malformed_skeleton_is_template_render_error() {
    let page = PageTemplate {
        title: String::from("t"),
        body: String::from("b"),
        css: String::new(),
        macros: String::new(),
        use_websocket: false,
        skeleton: String::from("{% if %}"),
    };
    match page.render() {
        Err(RenderError::TemplateRenderError) => {}
        _ => panic!("a broken skeleton must fail as TemplateRenderError"),
    }
}

#[test]
fn render_doc_deterministic() {
    let t = simple_template();
    assert!(is_tame_skeleton(&t.skeleton));
    let doc = "# Title\n\nbody text\n";
    let a = render_doc(Some(String::from(doc)), "dir/page.md", &t, true).unwrap();
    let b = render_doc(Some(String::from(doc)), "dir/page.md", &t, true).unwrap();
    assert_eq!(a, b);
}

#[test]
fn render_doc_missing_document() {
    let t = simple_template();
    match render_doc(None, "gone.md", &t, false) {
        Err(RenderError::DocumentNotFound) => {}
        _ => panic!("a missing document must fail as DocumentNotFound"),
    }
}

#[test]
fn render_doc_uses_stem_for_fallback_title() {
    let t = simple_template();
    let html = render_doc(Some(String::from("no heading here")), "dir/notes.md", &t, false)
        .unwrap();
    assert!(html.starts_with("T:notes;"));
}

#[test]
fn missing_template_skeleton_is_template_not_found() {
    match Template::from_assets(None, Some(String::from("css")), None) {
        Err(RenderError::TemplateNotFound) => {}
        _ => panic!("a missing skeleton must fail as TemplateNotFound"),
    }
}

#[test]
fn optional_assets_default_to_empty() {
    let t = Template::from_assets(Some(String::from("C:[{{ inline_css }}]")), None, None).unwrap();
    assert_eq!(t.css, "");
    assert_eq!(t.macros, "");
    let html = render_doc(Some(String::from("x")), "a.md", &t, false).unwrap();
    assert_eq!(html, "C:[]");
}

#[test]
fn tame_skeleton_accepts_ordinary_templates() {
    assert!(is_tame_skeleton("{{ title }} {% if use_websocket %}x{% endif %}"));
    assert!(is_tame_skeleton("body { margin: 0 } {{ body }}"));
    // Markup outside blocks is fine: only `<` inside a block is wild.
    assert!(is_tame_skeleton("<html><body>{{ body }}</body></html>"));
    assert!(!is_tame_skeleton("{{ {\"a\": 1} }}"));
    assert!(!is_tame_skeleton("{% set x = \"y\" %}"));
}

#[test]
fn tame_skeleton_rejects_component_calls() {
    // A component call collects its extra arguments into a map whose
    // iteration order is per-process; such a skeleton is not tame.
    let skeleton = "{% component f(...r) %}{% for k, v in r %}{{ k }},{% endfor %}\
                    {% endcomponent %}{{ <f title inline_css/> }}";
    assert!(!is_tame_skeleton(skeleton));
    // A comparison also counts as wild — tameness only narrows what
    // the contract covers, never what renders.
    assert!(!is_tame_skeleton("{% if a < b %}x{% endif %}"));
}

#[test]
fn error_messages_name_the_failure() {
    assert_eq!(RenderError::DocumentNotFound.message(), "document not found");
    assert_eq!(RenderError::TemplateNotFound.message(), "template skeleton not found");
    assert_eq!(RenderError::ConversionError.message(), "markdown conversion failed");
    assert_eq!(
        RenderError::TemplateRenderError.message(),
        "page skeleton substitution failed"
    );
    assert_eq!(RenderError::ExternalConversionError.message(), "external converter failed");
    assert_eq!(RenderError::WatchTargetLost.message(), "watched file disappeared");
}

#[test]
fn export_outcome_maps_exit_status() {
    assert!(matches!(tatum::render::export_outcome(true), Ok(())));
    assert!(matches!(
        tatum::render::export_outcome(false),
        Err(RenderError::ExternalConversionError)
    ));
}

#[test]
fn template_cache_starts_empty() {
    let cache = tatum::cache::TemplateCache::new();
    assert!(cache.get("default").is_none());
}

#[test]
fn template_cache_returns_what_was_stored() {
    let mut cache = tatum::cache::TemplateCache::new();
    let t = Template::from_assets(Some(String::from("S")), Some(String::from("C")), None).unwrap();
    cache.insert(String::from("default"), t);
    let got = cache.get("default").unwrap();
    assert_eq!(got.skeleton, "S");
    assert_eq!(got.css, "C");
    assert_eq!(got.macros, "");
    assert!(cache.get("other").is_none());
}

#[test]
fn template_cache_last_writer_wins() {
    let mut cache = tatum::cache::TemplateCache::new();
    let t1 = Template::from_assets(Some(String::from("first")), None, None).unwrap();
    let t2 = Template::from_assets(Some(String::from("second")), None, None).unwrap();
    cache.insert(String::from("p"), t1);
    cache.insert(String::from("p"), t2);
    assert_eq!(cache.get("p").unwrap().skeleton, "second");
}

#[test]
fn empty_document_compiles() {
    let (title, body) = compile_document("", "empty");
    assert_eq!(title, "empty");
    assert_eq!(body, "");
}

#[test]
fn trailing_newline_keeps_heading() {
    let (title, _) = compile_document("# T\n", "x");
    assert_eq!(title, "T");
}

#[test]
fn document_that_is_only_a_diagram() {
    let (_, body) = compile_document("```svg\n<rect/>\n```", "d");
    assert!(body.contains("<svg xmlns=\"http://www.w3.org/2000/svg\">"));
    assert!(body.contains("<rect/>"));
    assert!(body.contains("</svg>"));
}

#[test]
fn tame_skeleton_rejects_builtin_variables() {
    // The engine's built-in variables are `__`-prefixed; the context
    // dump among them rebuilds the context as a fresh map on each
    // evaluation, so a block touching one is wild.
    assert!(!is_tame_skeleton("{% for k, v in __tera_context %}{{ k }}.{% endfor %}"));
    assert!(is_tame_skeleton("{{ title }} and _one_ underscore {{ body }}"));
}
