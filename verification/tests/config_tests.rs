use lyrn::json::Json;
use lyrn::project_config::{EnvType, ProjectConfig};
use lyrn::render::render_lines;
use lyrn::templates::{Framework, ProjectProps};
use lyrn::types::User;

fn render_text(j: &Json) -> String {
    render_lines(j, 0).join("\n")
}

#[test]
fn test_default_config() {
    let c = ProjectConfig::default();
    assert_eq!(c.dev.protocol, "http");
    assert_eq!(c.dev.host, "localhost");
    assert_eq!(c.dev.port, 8080);
    assert_eq!(c.dev.public_path, "/");
    assert_eq!(c.prod.public_path, "/");
    assert_eq!(c.app.name, "");
}

#[test]
fn test_sparse_round_trip_defaults() {
    // Sparse persistence round-trip on an all-default configuration.
    let c = ProjectConfig::default();
    let stored = c.to_sparse_json();
    let back = ProjectConfig::from_json(&stored);
    assert_eq!(back.app.name, c.app.name);
    assert_eq!(back.app.title, c.app.title);
    assert_eq!(back.dev.public_path, c.dev.public_path);
    assert_eq!(back.dev.protocol, c.dev.protocol);
    assert_eq!(back.dev.host, c.dev.host);
    assert_eq!(back.dev.port, c.dev.port);
    assert_eq!(back.dev.config, c.dev.config);
    assert_eq!(back.prod.public_path, c.prod.public_path);
    assert_eq!(back.prod.config, c.prod.config);
}

#[test]
fn test_sparse_round_trip_custom() {
    let props = ProjectProps {
        name: "my_project".to_string(),
        framework: Framework::React,
        user: User { name: "John Doe".to_string(), email: "john@example.com".to_string() },
    };
    let mut c = ProjectConfig::create(&props);
    c.set_config(&EnvType::Dev, "webpack.config.dev.js");
    let stored = c.to_sparse_json();
    let back = ProjectConfig::from_json(&stored);
    assert_eq!(back.app.name, "my_project");
    assert_eq!(back.app.title, "MY_PROJECT");
    assert!(matches!(back.app.framework, Framework::React));
    assert_eq!(back.dev.config, "webpack.config.dev.js");
    assert_eq!(back.dev.port, 8080);
}

#[test]
fn test_sparse_form_omits_defaults() {
    // Zero-valued fields are left out of the persisted form.
    let c = ProjectConfig::default();
    let text = render_text(&c.to_sparse_json());
    assert!(!text.contains("\"name\""));
    assert!(!text.contains("\"title\""));
    assert!(!text.contains("\"framework\""));
    assert!(text.contains("\"port\": 8080"));
    assert!(text.contains("\"protocol\": \"http\""));
}

#[test]
fn test_from_json_fills_defaults() {
    // A missing or empty document comes back as the full defaults.
    let c = ProjectConfig::from_json(&Json::obj());
    assert_eq!(c.dev.protocol, "http");
    assert_eq!(c.dev.host, "localhost");
    assert_eq!(c.dev.port, 8080);
    assert_eq!(c.dev.public_path, "/");
    assert_eq!(c.prod.public_path, "/");
}

#[test]
fn test_create_uppercases_title() {
    let props = ProjectProps {
        name: "my_project".to_string(),
        framework: Framework::Vanilla,
        user: User { name: "John Doe".to_string(), email: "john@example.com".to_string() },
    };
    let c = ProjectConfig::create(&props);
    assert_eq!(c.app.name, "my_project");
    assert_eq!(c.app.title, "MY_PROJECT");
}

#[test]
fn test_set_config_per_env() {
    let mut c = ProjectConfig::default();
    c.set_config(&EnvType::Prod, "webpack.config.prod.js");
    assert_eq!(c.prod.config, "webpack.config.prod.js");
    assert_eq!(c.dev.config, "");
    c.set_config(&EnvType::Dev, "webpack.config.dev.js");
    assert_eq!(c.dev.config, "webpack.config.dev.js");
}
