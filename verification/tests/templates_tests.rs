use lyrn::json::Json;
use lyrn::render::render_lines;
use lyrn::templates::{Framework, ProjectProps};
use lyrn::types::User;

fn props(framework: Framework) -> ProjectProps {
    ProjectProps {
        name: "demo".to_string(),
        framework,
        user: User { name: "Jo".to_string(), email: "jo@example.com".to_string() },
    }
}

fn render_text(j: &Json) -> String {
    render_lines(j, 0).join("\n")
}

#[test]
fn test_framework_selection_closure() {
    // No framework: only the common dependencies.
    let plain = props(Framework::Vanilla).get_template();
    let plain_deps = render_text(&plain.dependencies);
    assert!(plain_deps.contains("\"lyrn\""));
    assert!(!plain_deps.contains("\"react\""));
    assert!(!plain_deps.contains("\"vue\""));

    // React: its packages plus the common ones, never Vue's.
    let react = props(Framework::React).get_template();
    let react_deps = render_text(&react.dependencies);
    assert!(react_deps.contains("\"react\""));
    assert!(react_deps.contains("\"lyrn\""));
    assert!(!react_deps.contains("\"vue\""));

    // Vue: its packages plus the common ones, never React's.
    let vue = props(Framework::Vue).get_template();
    let vue_deps = render_text(&vue.dependencies);
    assert!(vue_deps.contains("\"vue\""));
    assert!(vue_deps.contains("\"lyrn\""));
    assert!(!vue_deps.contains("\"react\""));
}

#[test]
fn test_template_merge_tsconfig() {
    // The React template adds its JSX mode over the common compiler
    // configuration.
    let react = props(Framework::React).get_template();
    let text = render_text(&react.tsconfig);
    assert!(text.contains("\"jsx\": \"react\""));
    assert!(text.contains("\"target\": \"ESNext\""));
}

#[test]
fn test_template_app_map_replaces() {
    // The app file map comes from the framework bundle alone.
    let plain = props(Framework::Vanilla).get_template();
    assert_eq!(plain.app.len(), 0);
    let react = props(Framework::React).get_template();
    assert_eq!(react.app.len(), 14);
    assert!(react.app.iter().any(|e| e.0 == "src/bootstrap.tsx"));
    let vue = props(Framework::Vue).get_template();
    assert_eq!(vue.app.len(), 14);
    assert!(vue.app.iter().any(|e| e.0 == "src/routes.ts"));
}

#[test]
fn test_common_documents() {
    let t = props(Framework::Vanilla).get_template();
    assert!(t.readme.starts_with("# demo\n"));
    assert!(t.readme.contains("[Jo](https://my-site.com)"));
    assert!(t.mit_license.starts_with("MIT License\n\nCopyright (c) 2"));
    assert!(t.mit_license.contains("Jo <jo@example.com>"));
    assert!(t.index.contains("<title>demo</title>"));
    assert!(t.gitignore.contains("node_modules"));
}

#[test]
fn test_vue_component_lowercases_class() {
    // The lowercased component name names the style class.
    let page = lyrn::templates::vue::component_page("About");
    assert!(page.contains("<h1>About</h1>"));
    assert!(page.contains("class=\"about__container\""));
}
