//! Templates and page assembly.
//!
//! A `Template` holds a page skeleton and its optional assets, loaded
//! from a template directory. A `PageTemplate` is one page's worth of
//! slot values; rendering it substitutes them into the skeleton through
//! the template engine.
//!
//! The engine's output is named by `page_of` only for *tame* skeletons.
//! A tame skeleton keeps braces, quotes, backticks, `<` and double
//! underscores out of `{{ .. }}` and `{% .. %}` blocks, which rules out
//! the three constructs whose evaluation is not a function of the
//! template text and slot values alone: a brace-delimited map literal;
//! a component call (written `<name .. />` inside a block) whose rest
//! parameter collects its extra arguments into a map; and the engine's
//! built-in context-dump variable (a `__`-prefixed name, like every
//! built-in variable), which rebuilds the context as a fresh map on
//! each evaluation. Each is a per-seed hash map whose entries a loop,
//! or the keys/values/pairs filters, would walk in seed order.
//! Everything else the engine's default build exposes (slot lookup,
//! conditionals, loops over arrays and strings, the built-in filters
//! and tests, `range`, `throw`) is deterministic in the template text
//! and the slot values; the engine's own printing of a map sorts its
//! keys.

use vstd::prelude::*;
use crate::errors::RenderError;

verus! {

/// Whether `s[i]` starts a `{{` or `{%` block opener.
pub open spec fn block_opener(s: Seq<char>, i: int) -> bool {
    s[i] == '{' && i + 1 < s.len() && (s[i + 1] == '{' || s[i + 1] == '%')
}

/// Whether `s[i]` starts a `}}` or `%}` block closer.
pub open spec fn block_closer(s: Seq<char>, i: int) -> bool {
    (s[i] == '}' || s[i] == '%') && i + 1 < s.len() && s[i + 1] == '}'
}

/// Whether a character may not appear inside a block of a tame
/// skeleton: an inner brace would start a map literal, a `<` would
/// start a component call, and a quote or backtick would start a
/// string literal that could hide a closer.
pub open spec fn forbidden_in_block(c: char) -> bool {
    c == '{' || c == '"' || c == '\'' || c == '`' || c == '<'
}

/// Whether `s[i]` starts a double underscore, the prefix of the
/// engine's built-in variables — among them the context dump, whose
/// map a block could otherwise walk in seed order.
pub open spec fn double_underscore(s: Seq<char>, i: int) -> bool {
    s[i] == '_' && i + 1 < s.len() && s[i + 1] == '_'
}

/// The tameness scan from position `i` in the given mode.
pub open spec fn tame_from(s: Seq<char>, i: int, in_block: bool) -> bool
    decreases s.len() - i,
{
    if i < 0 || i >= s.len() {
        true
    } else if !in_block {
        if block_opener(s, i) {
            tame_from(s, i + 2, true)
        } else {
            tame_from(s, i + 1, false)
        }
    } else {
        if forbidden_in_block(s[i]) || double_underscore(s, i) {
            false
        } else if block_closer(s, i) {
            tame_from(s, i + 2, false)
        } else {
            tame_from(s, i + 1, true)
        }
    }
}

/// Whether a skeleton is tame: no brace, quote, backtick, `<` or
/// double underscore inside any of its substitution blocks.
pub open spec fn tame_skeleton(s: Seq<char>) -> bool {
    tame_from(s, 0, false)
}

/// Whether this skeleton text is tame.
pub fn is_tame_skeleton(s: &str) -> (r: bool)
    ensures
        r == tame_skeleton(s@),
{
    let cs = crate::chars::str_to_chars(s);
    let mut i: usize = 0;
    let mut in_block = false;
    while i < cs.len()
        invariant
            i <= cs@.len(),
            cs@ == s@,
            tame_skeleton(s@) == tame_from(cs@, i as int, in_block),
        decreases cs@.len() - i,
    {
        if !in_block {
            if cs[i] == '{' && i + 1 < cs.len() && (cs[i + 1] == '{' || cs[i + 1] == '%') {
                in_block = true;
                i = i + 2;
            } else {
                i = i + 1;
            }
        } else {
            let c = cs[i];
            if c == '{' || c == '"' || c == '\'' || c == '`' || c == '<' {
                return false;
            }
            if c == '_' && i + 1 < cs.len() && cs[i + 1] == '_' {
                return false;
            }
            if (c == '}' || c == '%') && i + 1 < cs.len() && cs[i + 1] == '}' {
                in_block = false;
                i = i + 2;
            } else {
                i = i + 1;
            }
        }
    }
    true
}

#[verifier::external_type_specification]
#[verifier::external_body]
pub struct ExTeraError(tera::Error);

/// What the template engine produces for a tame skeleton and the five
/// slot values: the assembled page, or nothing when substitution fails
/// (a skeleton-authoring error).
pub uninterp spec fn page_of(
    skeleton: Seq<char>,
    title: Seq<char>,
    body: Seq<char>,
    css: Seq<char>,
    macros: Seq<char>,
    use_websocket: bool,
) -> Option<Seq<char>>;

/// Relies on `tera::Tera::one_off` (with `tera::Context` carrying the
/// five slot values and autoescaping off): substitutes the slots into
/// the skeleton. For a tame skeleton — see the module comment — both
/// whether it succeeds and the produced page are functions of the
/// skeleton and the slot values alone.
#[verifier::external_body]
fn render_skeleton(
    skeleton: &str,
    title: &str,
    body: &str,
    css: &str,
    macros: &str,
    use_websocket: bool,
) -> (r: Result<String, tera::Error>)
    ensures
        tame_skeleton(skeleton@) ==> ((r is Ok) == (page_of(
            skeleton@,
            title@,
            body@,
            css@,
            macros@,
            use_websocket,
        ) is Some)),
        tame_skeleton(skeleton@) && r is Ok ==> r->Ok_0@ == page_of(
            skeleton@,
            title@,
            body@,
            css@,
            macros@,
            use_websocket,
        )->0,
{
    let mut ctx = tera::Context::new();
    ctx.insert("title", title);
    ctx.insert("body", body);
    ctx.insert("use_websocket", &use_websocket);
    ctx.insert("inline_css", css);
    ctx.insert("katex_macros", macros);
    tera::Tera::one_off(skeleton, &ctx, false)
}

/// A template directory's assets, loaded into memory: the page skeleton
/// and the raw texts of the optional stylesheet and macro script.
/// Immutable once loaded; callers may cache one per template path for
/// the life of the process.
pub struct Template {
    pub skeleton: String,
    pub css: String,
    pub macros: String,
}

/// The mathematical contents of a `Template`.
pub struct TemplateView {
    pub skeleton: Seq<char>,
    pub css: Seq<char>,
    pub macros: Seq<char>,
}

impl View for Template {
    type V = TemplateView;

    open spec fn view(&self) -> TemplateView {
        TemplateView { skeleton: self.skeleton@, css: self.css@, macros: self.macros@ }
    }
}

/// What resolving a template directory yields, given which assets could
/// be read: the skeleton is required, the stylesheet and macro script
/// default to empty.
pub open spec fn spec_resolve(
    skeleton: Option<Seq<char>>,
    css: Option<Seq<char>>,
    macros: Option<Seq<char>>,
) -> Result<TemplateView, RenderError> {
    match skeleton {
        None => Err(RenderError::TemplateNotFound),
        Some(s) => Ok(
            TemplateView {
                skeleton: s,
                css: match css {
                    Some(c) => c,
                    None => Seq::empty(),
                },
                macros: match macros {
                    Some(m) => m,
                    None => Seq::empty(),
                },
            },
        ),
    }
}

/// The view of an optional asset text.
pub open spec fn asset_view(o: Option<String>) -> Option<Seq<char>> {
    match o {
        Some(s) => Some(s@),
        None => None,
    }
}

impl Template {
    /// Resolves a template from the asset texts its directory offered.
    /// Fails only when the skeleton is missing; missing optional assets
    /// leave their slot empty, they are never an error.
    pub fn from_assets(skeleton: Option<String>, css: Option<String>, macros: Option<String>) -> (r:
        Result<Template, RenderError>)
        ensures
            (r is Ok) == (spec_resolve(asset_view(skeleton), asset_view(css), asset_view(macros))
                is Ok),
            r matches Ok(t) ==> t@ == spec_resolve(
                asset_view(skeleton),
                asset_view(css),
                asset_view(macros),
            )->Ok_0,
            r matches Err(e) ==> e == spec_resolve(
                asset_view(skeleton),
                asset_view(css),
                asset_view(macros),
            )->Err_0,
    {
        match skeleton {
            None => Err(RenderError::TemplateNotFound),
            Some(s) => {
                let css_text = match css {
                    Some(c) => c,
                    None => String::new(),
                };
                let macros_text = match macros {
                    Some(m) => m,
                    None => String::new(),
                };
                Ok(Template { skeleton: s, css: css_text, macros: macros_text })
            },
        }
    }
}

/// A template directory missing its optional stylesheet still resolves,
/// and the resolved stylesheet slot is empty.
pub proof fn lemma_optional_asset_tolerance(skeleton: Seq<char>, macros: Option<Seq<char>>)
    ensures
        spec_resolve(Some(skeleton), None, macros) is Ok,
        spec_resolve(Some(skeleton), None, macros)->Ok_0.css == Seq::<char>::empty(),
        spec_resolve(Some(skeleton), None, macros)->Ok_0.skeleton == skeleton,
{
}

/// One page's worth of slot values, ready to be substituted into the
/// page skeleton: the derived title, the converted body, the template's
/// stylesheet and macro-script texts, and whether the page should open
/// a live-reload connection.
pub struct PageTemplate {
    pub title: String,
    pub body: String,
    pub css: String,
    pub macros: String,
    pub use_websocket: bool,
    pub skeleton: String,
}

impl PageTemplate {
    /// What rendering this page yields, by the name of the engine's
    /// output.
    pub open spec fn spec_render(&self) -> Option<Seq<char>> {
        page_of(self.skeleton@, self.title@, self.body@, self.css@, self.macros@, self.use_websocket)
    }

    /// Substitutes the slot values into the skeleton, producing the
    /// complete page. Fails only when the skeleton itself is malformed.
    pub fn render(&self) -> (r: Result<String, RenderError>)
        ensures
            tame_skeleton(self.skeleton@) ==> ((r is Ok) == (self.spec_render() is Some)),
            tame_skeleton(self.skeleton@) && r is Ok ==> r->Ok_0@ == self.spec_render()->0,
            r matches Err(e) ==> e == RenderError::TemplateRenderError,
    {
        let res = render_skeleton(
            self.skeleton.as_str(),
            self.title.as_str(),
            self.body.as_str(),
            self.css.as_str(),
            self.macros.as_str(),
            self.use_websocket,
        );
        match res {
            Ok(page) => Ok(page),
            Err(_) => Err(RenderError::TemplateRenderError),
        }
    }
}

} // verus!
