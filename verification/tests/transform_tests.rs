use lyrn::json::Json;
use lyrn::transform::{InsertLines, format_str, get_indent_size, json_to_js_object};

#[test]
fn test_json_to_js_object() {
    let json = Json::obj()
        .set("key1", Json::string("value1"))
        .set("key2", Json::string("value2"))
        .set("key3", Json::obj());
    let lines = vec!["line1: \"inserted1\",".to_string(), "line2: \"inserted2\",".to_string()];
    let into = "\"key3\": {%s},";
    let expected_result: Vec<String> = "module.exports = {
  key1: 'value1',
  key2: 'value2',
  key3: {
    line1: 'inserted1',
    line2: 'inserted2',
  },
}"
    .split("\n")
    .map(|s| s.to_string())
    .collect();

    assert_eq!(
        json_to_js_object(&json, &vec![InsertLines { lines, into: into.to_string() }]),
        expected_result
    );
}

#[test]
fn test_format_str() {
    let line = "\"key\": \"value\"";
    let indent = Some(2);
    let expected_result = "  key: 'value'";

    assert_eq!(format_str(line, &indent), expected_result);
}

#[test]
fn test_get_indent_size() {
    let line = "  some text";
    let expected_result = 2;

    assert_eq!(get_indent_size(line), expected_result);
}

#[test]
fn test_format_str_marker_value() {
    // A value behind the verbatim marker loses its quotes and the marker.
    let line = "\"alias\": \">>>path.resolve(cwd, 'src')\",";
    assert_eq!(format_str(&line, &None), "alias: path.resolve(cwd, 'src'),");
}

#[test]
fn test_format_str_nonidentifier_key() {
    // A key with characters beyond an identifier keeps quotes, single.
    let line = "\"@types/node\": \"^20.4.2\",";
    assert_eq!(format_str(&line, &None), "'@types/node': '^20.4.2',");
}

#[test]
fn test_format_str_array_string_item() {
    let line = "    \".tsx\",";
    assert_eq!(format_str(&line, &None), "    '.tsx',");
}

#[test]
fn test_format_str_passthrough() {
    // A line with an interior escaped quote does not fit the line shape
    // and passes through, only indented.
    let line = "\"a\": \"b\\\"c\",";
    assert_eq!(format_str(&line, &Some(2)), "  \"a\": \"b\\\"c\",");
    // Plain structural lines keep their shape.
    assert_eq!(format_str("  },", &None), "  },");
    assert_eq!(format_str("\"port\": 8080,", &None), "port: 8080,");
}
