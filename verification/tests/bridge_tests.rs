use lyrn::bridge::{StatusMsg, app_url_lines, build_done_lines, pad_right, parse_status_line};
use lyrn::commands::bundler_script;

#[test]
fn test_parse_status_line() {
    assert!(matches!(parse_status_line("compile"), StatusMsg::Compile));
    match parse_status_line("done {\"assets\":[]}") {
        StatusMsg::Done(p) => assert_eq!(p, "{\"assets\":[]}"),
        _ => panic!("expected a done message"),
    }
    match parse_status_line("done") {
        StatusMsg::Done(p) => assert_eq!(p, ""),
        _ => panic!("expected a done message"),
    }
    assert!(matches!(parse_status_line("anything else"), StatusMsg::Other));
}

#[test]
fn test_build_done_lines() {
    let assets = vec![("js/app.bundle.js".to_string(), 1536u64)];
    let lines = build_done_lines(&assets);
    assert_eq!(lines.len(), 5);
    assert_eq!(lines[0], "Application build completed!");
    assert_eq!(lines[2], format!("{:60} {:10}", "File", "Size"));
    assert_eq!(lines[4], format!("{:60} {:10}", "js/app.bundle.js", "1.50 Kb"));
}

#[test]
fn test_pad_right() {
    assert_eq!(pad_right("ab", 5), "ab   ");
    assert_eq!(pad_right("abcdef", 3), "abcdef");
}

#[test]
fn test_app_url_lines() {
    let lines = app_url_lines("http", "localhost", "192.168.0.7", 8080);
    assert_eq!(lines[0], "Your app running at:");
    assert_eq!(lines[1], "Local:    http://localhost:8080");
    assert_eq!(lines[2], "Network:  http://192.168.0.7:8080");
}

#[test]
fn test_bundler_script_default() {
    assert_eq!(bundler_script(&None), "node_modules/lyrn/tools/webpack.js");
    assert_eq!(bundler_script(&Some("custom.js".to_string())), "custom.js");
}
