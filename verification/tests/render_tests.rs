use lyrn::json::Json;
use lyrn::render::render_lines;

#[test]
fn test_render_scalars() {
    assert_eq!(render_lines(&Json::null(), 0), vec!["null"]);
    assert_eq!(render_lines(&Json::boolean(true), 0), vec!["true"]);
    assert_eq!(render_lines(&Json::integer(-42), 0), vec!["-42"]);
    assert_eq!(render_lines(&Json::string("hi"), 0), vec!["\"hi\""]);
    assert_eq!(render_lines(&Json::obj(), 0), vec!["{}"]);
    assert_eq!(render_lines(&Json::arr(Vec::new()), 0), vec!["[]"]);
}

#[test]
fn test_render_escapes() {
    // Quotes, backslashes, the named control escapes, and the numeric
    // form for other control characters.
    let j = Json::string("a\"b\\c\nd\te\u{1}");
    assert_eq!(render_lines(&j, 0), vec!["\"a\\\"b\\\\c\\nd\\te\\u0001\""]);
}

#[test]
fn test_render_nesting() {
    let j = Json::obj()
        .set("b", Json::arr(vec![Json::integer(1), Json::obj()]))
        .set("a", Json::string("x"));
    let expected = "{\n  \"a\": \"x\",\n  \"b\": [\n    1,\n    {}\n  ]\n}";
    assert_eq!(render_lines(&j, 0).join("\n"), expected);
}

#[test]
fn test_set_replaces_existing_key() {
    let j = Json::obj().set("a", Json::integer(1)).set("a", Json::integer(2));
    assert_eq!(render_lines(&j, 0).join("\n"), "{\n  \"a\": 2\n}");
}
