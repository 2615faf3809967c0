use route_api_docs::comments::associate_comment;
use route_api_docs::html::{html_page, stylesheet};
use route_api_docs::json::json_text;
use route_api_docs::logger::{LogLevel, Logger};
use route_api_docs::model::{HttpMethod, MethodMetadata, ParseResult};
use route_api_docs::parse::{file_result, parse};

fn meta(m: &str, comment: Option<Vec<&str>>) -> MethodMetadata {
    MethodMetadata {
        method_type: m.to_string(),
        comment: comment.map(|c| c.into_iter().map(|s| s.to_string()).collect()),
    }
}

#[test]
fn end_to_end_json() {
    let a = parse(&"a/route.ts".to_string(), "// list items\nexport function GET() {}").unwrap();
    let b = parse(&"b/route.ts".to_string(), "export const POST = () => {}").unwrap();
    let text = json_text(&vec![a, b]);
    let got: serde_json::Value = serde_json::from_str(&text).unwrap();
    let want: serde_json::Value = serde_json::from_str(
        r#"[{"path":"a/route.ts","method_metadata":[{"method_type":"GET","comment":["list items"]}]},{"path":"b/route.ts","method_metadata":[{"method_type":"POST","comment":null}]}]"#,
    )
    .unwrap();
    assert_eq!(got, want);
    assert!(text.find("\"path\"").unwrap() < text.find("\"method_metadata\"").unwrap());
}

#[test]
fn json_round_trip_keeps_files_and_handlers() {
    let results = vec![
        ParseResult {
            path: "x/route.ts".to_string(),
            method_metadata: vec![meta("GET", Some(vec!["one", "two"])), meta("PUT", None)],
        },
        ParseResult { path: "y/route.js".to_string(), method_metadata: vec![] },
        ParseResult {
            path: "z/\"q\".ts".to_string(),
            method_metadata: vec![meta("DELETE", Some(vec![]))],
        },
    ];
    let text = json_text(&results);
    let v: serde_json::Value = serde_json::from_str(&text).unwrap();
    let files = v.as_array().unwrap();
    assert_eq!(files.len(), 3);
    let mut total = 0;
    for (f, r) in files.iter().zip(results.iter()) {
        assert_eq!(f["path"].as_str().unwrap(), r.path);
        let ms = f["method_metadata"].as_array().unwrap();
        assert_eq!(ms.len(), r.method_metadata.len());
        for (m, e) in ms.iter().zip(r.method_metadata.iter()) {
            assert_eq!(m["method_type"].as_str().unwrap(), e.method_type);
            match &e.comment {
                None => assert!(m["comment"].is_null()),
                Some(lines) => {
                    let got: Vec<String> = m["comment"]
                        .as_array()
                        .unwrap()
                        .iter()
                        .map(|l| l.as_str().unwrap().to_string())
                        .collect();
                    assert_eq!(&got, lines);
                }
            }
            total += 1;
        }
    }
    assert_eq!(total, 3);
    assert!(text.contains("\"z/\\\"q\\\".ts\""));
}

#[test]
fn json_of_empty_set() {
    assert_eq!(json_text(&vec![]), "[]");
}

#[test]
fn json_layout_is_pretty() {
    let r = vec![ParseResult {
        path: "p".to_string(),
        method_metadata: vec![meta("GET", Some(vec!["c"]))],
    }];
    let expected = "[\n  {\n    \"path\": \"p\",\n    \"method_metadata\": [\n      {\n        \"method_type\": \"GET\",\n        \"comment\": [\n          \"c\"\n        ]\n      }\n    ]\n  }\n]";
    assert_eq!(json_text(&r), expected);
}

#[test]
fn html_renders_unknown_method_row() {
    let r = vec![ParseResult {
        path: "a/route.ts".to_string(),
        method_metadata: vec![meta("OPTIONS", None)],
    }];
    let page = html_page(&r);
    assert!(page.contains(
        "\t\t<div class='api-item'>\n\t\t\t<span class='api-method OPTIONS'>OPTIONS</span>\n\t\t\t<span>a/route.ts</span>\n\t\t</div>\n"
    ));
    assert!(page.starts_with("<!DOCTYPE html>"));
    assert!(page.ends_with("\t</body>\n</html>"));
}

#[test]
fn html_shows_first_comment_line_only() {
    let r = vec![
        ParseResult {
            path: "b".to_string(),
            method_metadata: vec![meta("POST", Some(vec!["first", "second"]))],
        },
        ParseResult { path: "a".to_string(), method_metadata: vec![meta("GET", Some(vec![]))] },
    ];
    let page = html_page(&r);
    assert!(page.contains("\t\t\t<span>first</span>\n"));
    assert!(!page.contains("second"));
    let post = page.find("api-method POST").unwrap();
    let get = page.find("api-method GET").unwrap();
    assert!(post < get);
}

#[test]
fn stylesheet_colours_each_method() {
    let css = stylesheet();
    for m in ["GET", "POST", "PUT", "PATCH", "DELETE"] {
        assert!(css.contains(&format!(".api-method.{m} {{")));
    }
    assert!(!css.contains("OPTIONS"));
}

#[test]
fn association_trims_and_drops_empty() {
    let h = HttpMethod { method_type: "GET".to_string(), pos: Some(3) };
    let m = associate_comment(&h, &Some(vec!["\t doc \n".to_string()]));
    assert_eq!(m.comment, Some(vec!["doc".to_string()]));
    let m = associate_comment(&h, &Some(vec![]));
    assert!(m.comment.is_none());
    let unplaced = HttpMethod { method_type: "GET".to_string(), pos: None };
    let m = associate_comment(&unplaced, &Some(vec!["doc".to_string()]));
    assert!(m.comment.is_none());
}

#[test]
fn file_result_keeps_path_and_order() {
    let hs = vec![
        HttpMethod { method_type: "GET".to_string(), pos: Some(1) },
        HttpMethod { method_type: "POST".to_string(), pos: None },
    ];
    let r = file_result(&"r.ts".to_string(), &hs, &vec![Some(vec![" a ".to_string()]), None]);
    assert_eq!(r.path, "r.ts");
    assert_eq!(r.method_metadata[0].method_type, "GET");
    assert_eq!(r.method_metadata[0].comment, Some(vec!["a".to_string()]));
    assert_eq!(r.method_metadata[1].method_type, "POST");
    assert!(r.method_metadata[1].comment.is_none());
}

#[test]
fn logger_levels() {
    let info = Logger::new(LogLevel::INFO);
    assert!(info.enabled(LogLevel::ERROR));
    assert!(info.enabled(LogLevel::INFO));
    assert!(!info.enabled(LogLevel::VERBOSE));
    let verbose = Logger::new(LogLevel::VERBOSE);
    assert!(verbose.enabled(LogLevel::VERBOSE));
    let errors = Logger::new(LogLevel::ERROR);
    assert!(errors.enabled(LogLevel::ERROR));
    assert!(!errors.enabled(LogLevel::INFO));
    assert_eq!(LogLevel::ERROR.label(), "ERROR");
    assert_eq!(LogLevel::INFO.label(), "INFO");
    assert_eq!(LogLevel::VERBOSE.label(), "VERBOSE");
}

#[test]
fn json_escapes_control_characters() {
    let r = vec![ParseResult {
        path: "a\u{1}b\tc\\d\u{7f}é".to_string(),
        method_metadata: vec![],
    }];
    let text = json_text(&r);
    assert!(text.contains("\"path\": \"a\\u0001b\\tc\\\\d\u{7f}é\""));
    let v: serde_json::Value = serde_json::from_str(&text).unwrap();
    assert_eq!(v[0]["path"].as_str().unwrap(), r[0].path);
}

#[test]
fn json_is_deterministic() {
    let r = vec![ParseResult {
        path: "p".to_string(),
        method_metadata: vec![meta("GET", Some(vec!["x"])), meta("POST", None)],
    }];
    assert_eq!(json_text(&r), json_text(&r));
}
