use lyrn::json::Json;
use lyrn::project::{CreateError, package, plan_project, file_path_parts};
use lyrn::render::render_lines;
use lyrn::templates::{Framework, ProjectProps, Template};
use lyrn::types::Content;
use lyrn::types::User;

fn sample_props() -> ProjectProps {
    ProjectProps {
        name: "my_project".to_string(),
        user: User {
            name: "John Doe".to_string(),
            email: "john@example.com".to_string(),
        },
        framework: Framework::Vanilla,
    }
}

fn sample_template() -> Template {
    Template {
        scripts: Json::obj()
            .set("start", Json::string("start"))
            .set("build", Json::string("build")),
        dependencies: Json::obj()
            .set("dep1", Json::string("1.0.0"))
            .set("dep2", Json::string("1.0.0")),
        dev_dependencies: Json::obj()
            .set("dev_dep1", Json::string("1.0.0"))
            .set("dev_dep2", Json::string("1.0.0")),
        project_config: lyrn::templates::common::project_config(),
        tsconfig: Json::obj(),
        eslintrc: Json::obj(),
        readme: "readme".to_string(),
        mit_license: "mit_license".to_string(),
        gitignore: "gitignore".to_string(),
        postcss_config: "postcss_config".to_string(),
        index_d: "index_d".to_string(),
        index: "index".to_string(),
        app: Vec::new(),
    }
}

fn render_text(j: &Json) -> String {
    render_lines(j, 0).join("\n")
}

#[test]
fn test_package() {
    // Create a sample ProjectProps
    let project_props = sample_props();

    // Create a sample Template
    let template = sample_template();

    // Call the package function
    let result = package(&project_props, &template);

    // Check that the Package struct fields match the expected values
    assert_eq!(result.name, "my_project");
    assert_eq!(result.version, "0.0.1");
    assert_eq!(result.description, "");
    assert_eq!(result.main, "src/main.ts");
    assert_eq!(render_text(&result.scripts), render_text(&template.scripts));
    assert_eq!(result.keywords, vec!["app".to_string()]);
    assert_eq!(result.author, "John Doe");
    assert_eq!(result.license, "MIT");
    assert_eq!(render_text(&result.dependencies), render_text(&template.dependencies));
    assert_eq!(render_text(&result.dev_dependencies), render_text(&template.dev_dependencies));
}

#[test]
fn test_manifest_renders_sorted_dependencies() {
    let template = sample_template();
    let pkg = package(&sample_props(), &template);
    let text = render_text(&pkg.to_json());
    // Top-level manifest fields in declaration order, dependency maps
    // sorted.
    assert!(text.starts_with("{\n  \"name\": \"my_project\""));
    assert!(text.find("\"dep1\"").unwrap() < text.find("\"dep2\"").unwrap());
}

#[test]
fn test_directory_collision() {
    // Materializing into an existing directory name is refused.
    let r = plan_project(&sample_props(), sample_template(), true);
    assert!(matches!(r, Err(CreateError::DirExists)));
}

#[test]
fn test_empty_name_refused() {
    let mut props = sample_props();
    props.name = String::new();
    let r = plan_project(&props, sample_template(), false);
    assert!(matches!(r, Err(CreateError::EmptyName)));
}

#[test]
fn test_plan_contents() {
    let r = plan_project(&sample_props(), sample_template(), false).ok().unwrap();
    assert_eq!(r.len(), 10);
    assert_eq!(r[0].0, "lyrn.json");
    assert_eq!(r[1].0, "package.json");
    assert_eq!(r[4].0, "README.md");
    match &r[4].1 {
        Content::Str(s) => assert_eq!(s, "readme"),
        _ => panic!("README must be raw text"),
    }
}

#[test]
fn test_file_path_parts() {
    let (dir, file) = file_path_parts("my_project", "src/ui/index.ts");
    assert_eq!(dir, "my_project/src/ui");
    assert_eq!(file, "index.ts");
    let (dir2, file2) = file_path_parts("my_project", "package.json");
    assert_eq!(dir2, "my_project");
    assert_eq!(file2, "package.json");
}
