use creator::generator::{Generator, RenderErrorKind};

fn render(template: &str, name: &str) -> String {
    Generator::generate(Some(template.to_string()), name.to_string()).unwrap().content
}

#[test]
fn test_generate_with_valid_template() {
    let template_content = "import React from 'react';\n\nexport function {{templateName}}() {\n  return <div>{{templateName}}</div>;\n}";
    let result = render(template_content, "UserProfile");

    assert!(result.contains("export function UserProfile()"));
    assert!(result.contains("return <div>UserProfile</div>"));
    assert!(result.contains("import React from 'react'"));
}

#[test]
fn test_generate_with_hooks_template() {
    let template_content = "import { useState, useEffect } from 'react';\n\nexport function use{{templateName}}() {\n  return {};\n}";
    let result = render(template_content, "UserData");

    assert!(result.contains("export function useUserData()"));
    assert!(result.contains("import { useState, useEffect }"));
}

#[test]
fn test_generate_with_nonexistent_template() {
    let result = Generator::generate(None, "TestComponent".to_string()).unwrap();

    assert_eq!(result.content, "export function TestComponent(){}");
    assert!(result.used_fallback);
}

#[test]
fn test_generate_with_invalid_handlebars_template() {
    let invalid_template =
        "export function {{templateName}() { // Missing closing brace in handlebars";
    let result = Generator::generate(Some(invalid_template.to_string()), "TestComponent".to_string());

    assert!(result.is_err());
    let err = result.unwrap_err();
    assert!(err.message().contains("Cannot register template string"));
    assert_eq!(err.source, invalid_template);
}

#[test]
fn test_generate_with_empty_name() {
    assert_eq!(render("export function {{templateName}}() {}", ""), "export function () {}");
}

#[test]
fn test_generate_with_special_characters_in_name() {
    assert_eq!(
        render("export function {{templateName}}() {}", "User-Profile_Component"),
        "export function User-Profile_Component() {}"
    );
}

#[test]
fn test_generate_with_unicode_name() {
    assert_eq!(render("export function {{templateName}}() {}", "Usuário"), "export function Usuário() {}");
}

#[test]
fn test_generate_with_complex_template() {
    let template_content = r#"import React, { useState, useEffect } from 'react';

interface {{templateName}}Props {
  id: string;
}

export const {{templateName}}: React.FC<{{templateName}}Props> = ({ id }) => {
  const [loading, setLoading] = useState(false);

  useEffect(() => {
    // {{templateName}} logic here
  }, [id]);

  return (
    <div className="{{templateName}}">
      <h1>{{templateName}}</h1>
    </div>
  );
};

export default {{templateName}};"#;
    let result = render(template_content, "UserDashboard");

    assert!(result.contains("interface UserDashboardProps"));
    assert!(result.contains("export const UserDashboard: React.FC<UserDashboardProps>"));
    assert!(result.contains("className=\"UserDashboard\""));
    assert!(result.contains("<h1>UserDashboard</h1>"));
    assert!(result.contains("export default UserDashboard;"));
    assert!(result.contains("// UserDashboard logic here"));
}

#[test]
fn test_generate_handlebars_escaping() {
    let result = render("export const {{templateName}} = () => '<div>{{templateName}}</div>';", "Test<script>");

    assert!(result.contains("Test&lt;script&gt;"));
    assert!(result.contains("export const Test&lt;script&gt; = ()"));
}

#[test]
fn a_readable_template_is_not_a_fallback() {
    let result = Generator::generate(Some("x {{templateName}}".to_string()), "Y".to_string()).unwrap();
    assert_eq!(result.content, "x Y");
    assert!(!result.used_fallback);
}

#[test]
fn the_fallback_escapes_the_name_too() {
    let result = Generator::generate(None, "A&B".to_string()).unwrap();
    assert_eq!(result.content, "export function A&amp;B(){}");
}

#[test]
fn render_error_message_names_the_source() {
    let err = Generator::generate(Some("{{#if}}".to_string()), "N".to_string()).unwrap_err();
    assert!(err.message().starts_with("Cannot register template string '{{#if}}' in Handlebars: "));
}

#[test]
fn mutually_recursive_inline_partials_are_refused() {
    let template = "{{#*inline \"a\"}}{{> b}}{{/inline}}{{#*inline \"b\"}}{{> a}}{{/inline}}{{> a}}";
    let err = Generator::generate(Some(template.to_string()), "N".to_string()).unwrap_err();
    assert_eq!(err.kind, RenderErrorKind::Unsupported);
    assert_eq!(err.source, template);
}

#[test]
fn partials_and_decorators_are_refused_in_every_spelling() {
    for template in ["{{> header}}", "{{~> header}}", "{{ > header}}", "{{#> layout}}x{{/layout}}", "{{* deco}}", "a {{~#*inline \"p\"}}x{{/inline}}"] {
        let err = Generator::generate(Some(template.to_string()), "N".to_string()).unwrap_err();
        assert_eq!(err.kind, RenderErrorKind::Unsupported, "template {}", template);
    }
}

#[test]
fn comparisons_in_text_are_not_partials() {
    let result = render("a > b; {{templateName}} * 2; {{ templateName }}", "N");
    assert_eq!(result, "a > b; N * 2; N");
}

#[test]
fn syntax_and_render_failures_are_told_apart() {
    let err = Generator::generate(Some("{{templateName}".to_string()), "N".to_string()).unwrap_err();
    assert_eq!(err.kind, RenderErrorKind::Syntax);
    let err = Generator::generate(Some("{{nohelper templateName}}".to_string()), "N".to_string()).unwrap_err();
    assert_eq!(err.kind, RenderErrorKind::Render);
    assert!(err.message().starts_with("Cannot render the template string '{{nohelper templateName}}' with templateName 'N': "));
}
