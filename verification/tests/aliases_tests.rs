use lyrn::json::Json;
use lyrn::project_aliases::{Aliases, ProjectAliases};
use lyrn::render::render_lines;

fn aliases() -> ProjectAliases {
    ProjectAliases {
        aliases: Aliases {
            src: "src".to_string(),
            build: "dist".to_string(),
            public: "public".to_string(),
            images: "src/images".to_string(),
            main: "src/main.ts".to_string(),
        },
        is_abs_path: true,
    }
}

#[test]
fn test_alias_absolutization() {
    // Absolute rendering joins the alias under the working directory.
    let mut pa = aliases();
    let resolved = pa.get("/work");
    assert_eq!(resolved.src, "/work/src");
    assert_eq!(resolved.build, "/work/dist");
    assert_eq!(resolved.images, "/work/src/images");

    // Deferred rendering carries the literal relative segment.
    let mut pa2 = aliases();
    pa2.is_abs_path = false;
    let deferred = pa2.get("/work");
    assert_eq!(deferred.src, ">>>path.resolve(cwd, 'src')");
    assert!(deferred.src.contains("src"));
}

#[test]
fn test_ts_config_paths() {
    // A compiler configuration's paths table becomes extra aliases: the
    // first candidate, stripped of its glob suffix, resolved.
    let paths = Json::obj().set(
        "@/*",
        Json::arr(vec![Json::string("src/*")]),
    );
    let config = Json::obj()
        .set("compilerOptions", Json::obj().set("paths", paths))
        .set("extends", Json::string("base.json"));
    let pa = aliases();
    let (extra, extends) = pa.ts_config_paths(&config, "/work");
    assert_eq!(render_lines(&extra, 0).join("\n"), "{\n  \"@\": \"/work/src\"\n}");
    assert_eq!(extends, Some("base.json".to_string()));
}

#[test]
fn test_get_json_merges_extra() {
    let mut pa = aliases();
    let extra = Json::obj().set("@", Json::string("/work/src"));
    let merged = pa.get_json("/work", &extra);
    let text = render_lines(&merged, 0).join("\n");
    assert!(text.contains("\"@\": \"/work/src\""));
    assert!(text.contains("\"src\": \"/work/src\""));
    assert!(text.contains("\"build\": \"/work/dist\""));
}
