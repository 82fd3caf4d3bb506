use lyrn::json::Json;
use lyrn::render::render_lines;
use lyrn::types::{Eslintrc, Tsconfig, TsconfigCompilerOptions};

fn opts(lib: Vec<&str>, jsx: Option<&str>) -> TsconfigCompilerOptions {
    TsconfigCompilerOptions {
        root_dir: None,
        source_map: None,
        declaration: None,
        module_resolution: None,
        emit_decorator_metadata: None,
        experimental_decorators: None,
        import_helpers: None,
        target: None,
        module: None,
        lib: lib.into_iter().map(|s| s.to_string()).collect(),
        jsx: jsx.map(|s| s.to_string()),
        skip_lib_check: None,
        skip_default_lib_check: None,
        es_module_interop: None,
        no_implicit_any: None,
        resolve_json_module: None,
        base_url: None,
        out_dir: None,
        paths: Vec::new(),
        exclude: Vec::new(),
    }
}

#[test]
fn test_compiler_options_lib_concat() {
    // List fields concatenate, base first, no de-duplication.
    let base = opts(vec!["ESNext", "dom"], Some("base-jsx"));
    let child = opts(vec!["dom"], None);
    let merged = child.merge(&base);
    assert_eq!(merged.lib, vec!["ESNext".to_string(), "dom".to_string(), "dom".to_string()]);
    // Scalar fields: the child's value wins only when present.
    assert_eq!(merged.jsx, Some("base-jsx".to_string()));
    let child2 = opts(vec![], Some("react"));
    let merged2 = child2.merge(&base);
    assert_eq!(merged2.jsx, Some("react".to_string()));
}

#[test]
fn test_tsconfig_merge() {
    let base = Tsconfig { compile_on_save: Some(false), compiler_options: opts(vec!["a"], None) };
    let child = Tsconfig { compile_on_save: None, compiler_options: opts(vec!["b"], None) };
    let merged = child.merge(&base);
    assert_eq!(merged.compile_on_save, Some(false));
    assert_eq!(merged.compiler_options.lib, vec!["a".to_string(), "b".to_string()]);
}

#[test]
fn test_lint_rules_override() {
    // Map-union override: the child's setting wins on a shared key,
    // base-only keys are preserved.
    let base = Eslintrc {
        extends: Some(vec!["eslint:recommended".to_string()]),
        rules: Some(vec![
            ("no-var".to_string(), Json::string("warn")),
            ("semi".to_string(), Json::string("error")),
        ]),
        ignore_patterns: None,
        env: None,
        parser_options: None,
        settings: None,
        plugins: None,
    };
    let child = Eslintrc {
        extends: Some(vec!["plugin:react/recommended".to_string()]),
        rules: Some(vec![("semi".to_string(), Json::string("off"))]),
        ignore_patterns: None,
        env: None,
        parser_options: None,
        settings: None,
        plugins: None,
    };
    let merged = child.merge(&base);
    // Concatenation of the extends list, base first.
    assert_eq!(
        merged.extends,
        Some(vec!["eslint:recommended".to_string(), "plugin:react/recommended".to_string()])
    );
    let rules = merged.rules.unwrap();
    let semi = rules.iter().find(|p| p.0 == "semi").unwrap();
    assert_eq!(render_lines(&semi.1, 0), vec!["\"off\"".to_string()]);
    let no_var = rules.iter().find(|p| p.0 == "no-var").unwrap();
    assert_eq!(render_lines(&no_var.1, 0), vec!["\"warn\"".to_string()]);
}

#[test]
fn test_manifest_key_order() {
    // A dependency map renders with lexicographically sorted keys.
    let deps = Json::obj().set("z", Json::string("1")).set("a", Json::string("2"));
    let text = render_lines(&deps, 0).join("\n");
    let a_at = text.find("\"a\"").unwrap();
    let z_at = text.find("\"z\"").unwrap();
    assert!(a_at < z_at);
    assert_eq!(text, "{\n  \"a\": \"2\",\n  \"z\": \"1\"\n}");
}

#[test]
fn test_deep_merge_rule() {
    // The deterministic deep-merge rule: objects merge key-wise, arrays
    // concatenate base first, scalars take the child's value, a null
    // child keeps the base entirely.
    let mut base = Json::obj()
        .set("lib", Json::arr(vec![Json::string("a")]))
        .set("mode", Json::string("development"))
        .set("nested", Json::obj().set("x", Json::integer(1)));
    let child = Json::obj()
        .set("lib", Json::arr(vec![Json::string("b")]))
        .set("mode", Json::string("production"))
        .set("nested", Json::obj().set("y", Json::integer(2)));
    base.merge_default(&child);
    let text = render_lines(&base, 0).join("\n");
    assert!(text.contains("\"lib\": [\n    \"a\",\n    \"b\"\n  ]"));
    assert!(text.contains("\"mode\": \"production\""));
    assert!(text.contains("\"x\": 1"));
    assert!(text.contains("\"y\": 2"));

    let mut kept = Json::obj().set("k", Json::string("v"));
    kept.merge_default(&Json::null());
    assert_eq!(render_lines(&kept, 0).join("\n"), "{\n  \"k\": \"v\"\n}");
}
