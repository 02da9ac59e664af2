//! Rendering an item's file from its template, with a built-in fallback
//! when the template could not be read.
use vstd::prelude::*;

verus! {

/// What handlebars makes of `template` with the single variable `key` bound
/// to `value` (HTML-escaped, handlebars' default): the rendered text, or
/// `Err(true)` where the template does not compile and `Err(false)` where it
/// compiles but does not render.
pub uninterp spec fn handlebars_render(template: Seq<char>, key: Seq<char>, value: Seq<char>) -> Result<Seq<char>, bool>;

/// Why handlebars gave no text, with what it said.
pub enum RenderFailure {
    Syntax(String),
    Render(String),
}

/// Characters that may stand between a tag's opening braces and the
/// character that makes it a partial or a decorator: whitespace, `~`, `#`.
pub open spec fn is_tag_filler(c: char) -> bool {
    c == ' ' || c == '\t' || c == '\n' || c == '\r' || c == '~' || c == '#'
}

/// At `i` stand `{{`, then only filler characters, then `>` (a partial) or
/// `*` (a decorator, such as an inline partial) at `j`.
pub open spec fn partial_tag_at(t: Seq<char>, i: int, j: int) -> bool {
    &&& 0 <= i
    &&& i + 2 <= j < t.len()
    &&& t[i] == '{'
    &&& t[i + 1] == '{'
    &&& (t[j] == '>' || t[j] == '*')
    &&& forall|k: int| i + 2 <= k < j ==> is_tag_filler(#[trigger] t[k])
}

/// The template holds partial or decorator syntax (`{{>`, `{{#>`,
/// `{{*`, `{{#*inline`, with any whitespace control). Such templates are
/// refused: partials that include each other make handlebars recurse
/// without end.
pub open spec fn has_partial_syntax(t: Seq<char>) -> bool {
    exists|i: int, j: int| partial_tag_at(t, i, j)
}

/// Relies on handlebars' `Registry::render_template` on a fresh registry: it
/// compiles `template` and renders it with the data `{ key: value }`; a
/// compile error comes back as `RenderErrorReason::TemplateError`.
#[verifier::external_body]
fn render_with_handlebars(template: &str, key: &str, value: &str) -> (r: Result<String, RenderFailure>)
    requires
        !has_partial_syntax(template@),
    ensures
        match r {
            Ok(text) => handlebars_render(template@, key@, value@) == Ok::<Seq<char>, bool>(text@),
            Err(RenderFailure::Syntax(_)) => handlebars_render(template@, key@, value@) == Err::<Seq<char>, bool>(true),
            Err(RenderFailure::Render(_)) => handlebars_render(template@, key@, value@) == Err::<Seq<char>, bool>(false),
        },
{
    let mut data = std::collections::BTreeMap::new();
    data.insert(key.to_string(), value.to_string());
    handlebars::Handlebars::new().render_template(template, &data).map_err(|e| match e.reason() {
        handlebars::RenderErrorReason::TemplateError(_) => RenderFailure::Syntax(e.to_string()),
        _ => RenderFailure::Render(e.to_string()),
    })
}

/// Whether the template holds partial or decorator syntax.
pub fn holds_partial_syntax(t: &str) -> (r: bool)
    ensures
        r == has_partial_syntax(t@),
{
    let n = t.unicode_len();
    let mut i: usize = 0;
    while i < n
        invariant
            n == t@.len(),
            i <= n,
            forall|a: int, b: int| 0 <= a < i ==> !partial_tag_at(t@, a, b),
        decreases n - i,
    {
        if i + 1 < n && t.get_char(i) == '{' && t.get_char(i + 1) == '{' {
            let mut j: usize = i + 2;
            while j < n && is_filler(t.get_char(j))
                invariant
                    n == t@.len(),
                    i + 2 <= j <= n,
                    forall|k: int| i + 2 <= k < j ==> is_tag_filler(#[trigger] t@[k]),
                decreases n - j,
            {
                j = j + 1;
            }
            if j < n {
                let c = t.get_char(j);
                if c == '>' || c == '*' {
                    assert(partial_tag_at(t@, i as int, j as int));
                    return true;
                }
            }
            assert forall|b: int| !partial_tag_at(t@, i as int, b) by {
                if partial_tag_at(t@, i as int, b) {
                    if b < j {
                        assert(is_tag_filler(t@[b]));
                    } else if b > j {
                        assert(is_tag_filler(t@[j as int]));
                    }
                }
            }
        }
        i = i + 1;
    }
    assert forall|a: int, b: int| !partial_tag_at(t@, a, b) by {
        if partial_tag_at(t@, a, b) {
            assert(a < i);
        }
    }
    false
}

fn is_filler(c: char) -> (r: bool)
    ensures
        r == is_tag_filler(c),
{
    c == ' ' || c == '\t' || c == '\n' || c == '\r' || c == '~' || c == '#'
}

/// The placeholder that templates refer to the substituted name by.
pub open spec fn placeholder() -> Seq<char> {
    "templateName"@
}

/// The template used when an item's template could not be read: a single
/// exported function, named by the placeholder, with an empty body.
pub open spec fn fallback_template() -> Seq<char> {
    "export function {{templateName}}(){}"@
}

/// The fallback template holds no partial or decorator syntax, so it is never
/// refused: a missing template leaves the outcome to handlebars alone.
pub proof fn fallback_is_supported()
    ensures
        !has_partial_syntax(fallback_template()),
{
    let t = fallback_template();
    reveal_strlit("export function {{templateName}}(){}");
    assert(t.len() == 36);
    assert forall|i: int, j: int| !partial_tag_at(t, i, j) by {
        if partial_tag_at(t, i, j) {
            assert(t[i] == '{' && t[i + 1] == '{');
            assert(i == 16) by {
                assert(t[i] == '{');
                assert(t[i + 1] == '{');
            }
            assert(t[18] == 't');
            if j > 18 {
                assert(is_tag_filler(t[18]));
            }
        }
    }
}

/// The template text actually rendered.
pub open spec fn effective_template(source: Option<String>) -> Seq<char> {
    match source {
        Some(s) => s@,
        None => fallback_template(),
    }
}

/// Rendered file content; `used_fallback` marks that the built-in template
/// stood in for one that could not be read, which deserves a warning.
#[derive(Clone, Debug)]
pub struct Generated {
    pub content: String,
    pub used_fallback: bool,
}

#[derive(Clone, Copy, Debug, PartialEq, Eq, Structural)]
pub enum RenderErrorKind {
    /// The template holds partial or decorator syntax.
    Unsupported,
    /// The template does not compile.
    Syntax,
    /// The template compiles but does not render.
    Render,
}

/// A template that could not be rendered with a name, and why.
#[derive(Clone, Debug)]
pub struct RenderError {
    pub kind: RenderErrorKind,
    pub source: String,
    pub name: String,
    pub detail: String,
}

pub open spec fn render_error_message(e: RenderError) -> Seq<char> {
    match e.kind {
        RenderErrorKind::Unsupported => "Cannot register template string '"@ + e.source@
            + "': partials and decorators are not supported"@,
        RenderErrorKind::Syntax => "Cannot register template string '"@ + e.source@
            + "' in Handlebars: "@ + e.detail@,
        RenderErrorKind::Render => "Cannot render the template string '"@ + e.source@
            + "' with templateName '"@ + e.name@ + "': "@ + e.detail@,
    }
}

impl RenderError {
    /// The error as a sentence naming the template text and what went wrong.
    pub fn message(&self) -> (r: String)
        ensures
            r@ == render_error_message(*self),
    {
        match self.kind {
            RenderErrorKind::Unsupported => {
                let mut out = "Cannot register template string '".to_string();
                out.append(self.source.as_str());
                out.append("': partials and decorators are not supported");
                out
            },
            RenderErrorKind::Syntax => {
                let mut out = "Cannot register template string '".to_string();
                out.append(self.source.as_str());
                out.append("' in Handlebars: ");
                out.append(self.detail.as_str());
                out
            },
            RenderErrorKind::Render => {
                let mut out = "Cannot render the template string '".to_string();
                out.append(self.source.as_str());
                out.append("' with templateName '");
                out.append(self.name.as_str());
                out.append("': ");
                out.append(self.detail.as_str());
                out
            },
        }
    }
}

/// What rendering `template` with `name` gives: a refusal for partial or
/// decorator syntax, else handlebars' text or failure.
pub open spec fn render_outcome(template: Seq<char>, name: Seq<char>, r: Result<Seq<char>, RenderErrorKind>) -> bool {
    if has_partial_syntax(template) {
        r == Err::<Seq<char>, RenderErrorKind>(RenderErrorKind::Unsupported)
    } else {
        match handlebars_render(template, placeholder(), name) {
            Ok(text) => r == Ok::<Seq<char>, RenderErrorKind>(text),
            Err(true) => r == Err::<Seq<char>, RenderErrorKind>(RenderErrorKind::Syntax),
            Err(false) => r == Err::<Seq<char>, RenderErrorKind>(RenderErrorKind::Render),
        }
    }
}

pub struct Generator {}

impl Generator {
    /// Renders `source` (the template's text, or `None` where it could not be
    /// read, in which case the fallback template is used) with every
    /// occurrence of the placeholder replaced by `name`.
    pub fn generate(source: Option<String>, name: String) -> (r: Result<Generated, RenderError>)
        ensures
            match r {
                Ok(g) => render_outcome(effective_template(source), name@, Ok(g.content@))
                    && g.used_fallback == (source is None),
                Err(e) => render_outcome(effective_template(source), name@, Err(e.kind))
                    && e.source@ == effective_template(source) && e.name@ == name@,
            },
    {
        let used_fallback = source.is_none();
        let text = match source {
            Some(s) => s,
            None => "export function {{templateName}}(){}".to_string(),
        };
        if holds_partial_syntax(text.as_str()) {
            let detail = String::new();
            return Err(RenderError { kind: RenderErrorKind::Unsupported, source: text, name, detail });
        }
        match render_with_handlebars(text.as_str(), "templateName", name.as_str()) {
            Ok(content) => Ok(Generated { content, used_fallback }),
            Err(RenderFailure::Syntax(detail)) => Err(
                RenderError { kind: RenderErrorKind::Syntax, source: text, name, detail },
            ),
            Err(RenderFailure::Render(detail)) => Err(
                RenderError { kind: RenderErrorKind::Render, source: text, name, detail },
            ),
        }
    }
}

} // verus!
