use route_api_docs::comments::{adjacent_comments, has_blank_line};
use route_api_docs::extract::extract_handlers;
use route_api_docs::model::{
    BindingShape, DeclShape, ExportName, MethodMetadata, ParseResult, SpecifierShape,
    TopLevelItem,
};
use route_api_docs::parse::{parse, ParseError};

fn parse_ok(source: &str) -> ParseResult {
    parse(&String::from("app/route.ts"), source).expect("source parses")
}

fn methods(r: &ParseResult) -> Vec<String> {
    r.method_metadata.iter().map(|m: &MethodMetadata| m.method_type.clone()).collect()
}

#[test]
fn no_exports_gives_empty_list() {
    let r = parse_ok("const x = 1;\nfunction helper() { return x; }\n");
    assert_eq!(r.path, "app/route.ts");
    assert!(r.method_metadata.is_empty());
}

#[test]
fn empty_file_gives_empty_list() {
    let r = parse_ok("");
    assert!(r.method_metadata.is_empty());
}

#[test]
fn function_export_is_found() {
    let r = parse_ok("export function GET() {}");
    assert_eq!(methods(&r), vec!["GET".to_string()]);
    assert!(r.method_metadata[0].comment.is_none());
}

#[test]
fn const_export_is_found() {
    let r = parse_ok("export const POST = () => {}");
    assert_eq!(methods(&r), vec!["POST".to_string()]);
}

#[test]
fn alias_wins_in_export_clause() {
    let r = parse_ok("const handler = () => {};\nexport { handler as DELETE }");
    assert_eq!(methods(&r), vec!["DELETE".to_string()]);
}

#[test]
fn plain_specifier_has_no_comment() {
    let r = parse_ok("const GET = () => {};\n// lists items\nexport { GET }");
    assert_eq!(methods(&r), vec!["GET".to_string()]);
    assert!(r.method_metadata[0].comment.is_none());
}

#[test]
fn preceding_comment_is_captured_trimmed() {
    let r = parse_ok("//   list items  \nexport function GET() {}");
    assert_eq!(r.method_metadata[0].comment, Some(vec!["list items".to_string()]));
}

#[test]
fn several_comments_are_kept_in_order() {
    let r = parse_ok("// first\n/* second */\nexport function PUT() {}");
    assert_eq!(
        r.method_metadata[0].comment,
        Some(vec!["first".to_string(), "second".to_string()])
    );
}

#[test]
fn comment_before_other_statement_is_not_attached() {
    let r = parse_ok("// about x\nconst x = 1;\nexport function GET() {}");
    assert_eq!(methods(&r), vec!["GET".to_string()]);
    assert!(r.method_metadata[0].comment.is_none());
}

#[test]
fn declaration_order_is_kept() {
    let r = parse_ok(
        "export function POST() {}\nexport const GET = 1;\nconst h = 2;\nexport { h as PATCH };",
    );
    assert_eq!(methods(&r), vec!["POST".to_string(), "GET".to_string(), "PATCH".to_string()]);
}

#[test]
fn destructuring_export_is_skipped() {
    let r = parse_ok("const obj = { a: 1 };\nexport const { a } = obj;\nexport function GET() {}");
    assert_eq!(methods(&r), vec!["GET".to_string()]);
}

#[test]
fn nested_declarations_are_not_exports() {
    let r = parse_ok("function outer() { function GET() {} return GET; }\nexport default outer;");
    assert!(r.method_metadata.is_empty());
}

#[test]
fn syntax_error_is_reported() {
    let r = parse(&String::from("bad.ts"), "export function (");
    assert!(matches!(r, Err(ParseError::Syntax)));
}

#[test]
fn shapes_last_declarator_names_variable_export() {
    let items = vec![
        TopLevelItem::ExportDecl {
            decl: DeclShape::Variables(vec![
                BindingShape::Ident("a".to_string()),
                BindingShape::Ident("PUT".to_string()),
            ]),
            start: 7,
        },
        TopLevelItem::Other,
        TopLevelItem::ExportDecl { decl: DeclShape::Variables(vec![BindingShape::Other]), start: 9 },
        TopLevelItem::NamedExport {
            specifiers: vec![
                SpecifierShape::Named {
                    orig: ExportName::Ident("h".to_string()),
                    exported: Some(ExportName::Str("h".to_string())),
                    type_only: false,
                },
                SpecifierShape::Other,
                SpecifierShape::Named {
                    orig: ExportName::Str("x".to_string()),
                    exported: None,
                    type_only: false,
                },
                SpecifierShape::Named {
                    orig: ExportName::Ident("T".to_string()),
                    exported: None,
                    type_only: true,
                },
                SpecifierShape::Named {
                    orig: ExportName::Ident("q".to_string()),
                    exported: Some(ExportName::Ident(String::new())),
                    type_only: false,
                },
            ],
            type_only: false,
        },
        TopLevelItem::NamedExport {
            specifiers: vec![SpecifierShape::Named {
                orig: ExportName::Ident("U".to_string()),
                exported: None,
                type_only: false,
            }],
            type_only: true,
        },
        TopLevelItem::ExportDecl { decl: DeclShape::Function(String::new()), start: 13 },
        TopLevelItem::ExportDecl { decl: DeclShape::Other, start: 11 },
    ];
    let hs = extract_handlers(&items);
    assert_eq!(hs.len(), 2);
    assert_eq!(hs[0].method_type, "PUT");
    assert_eq!(hs[0].pos, Some(7));
    assert_eq!(hs[1].method_type, "h");
    assert_eq!(hs[1].pos, None);
}

#[test]
fn string_alias_wins() {
    let r = parse_ok("const handler = () => {};\nexport { handler as \"GET\" }");
    assert_eq!(methods(&r), vec!["GET".to_string()]);
    assert!(r.method_metadata[0].comment.is_none());
}

#[test]
fn trailing_destructuring_declarator_is_skipped() {
    let r = parse_ok("const h = 1, o = { x: 2 };\nexport const GET = h, { x } = o;");
    assert_eq!(methods(&r), vec!["GET".to_string()]);
}

#[test]
fn type_only_exports_are_ignored() {
    let r = parse_ok(
        "type GET = string;\ntype PUT = number;\nconst POST = 1;\nexport type { GET };\nexport { type PUT, POST };",
    );
    assert_eq!(methods(&r), vec!["POST".to_string()]);
}

#[test]
fn comment_before_blank_line_is_not_attached() {
    let r = parse_ok("// stray note\n\nexport function GET() {}");
    assert_eq!(methods(&r), vec!["GET".to_string()]);
    assert!(r.method_metadata[0].comment.is_none());
}

#[test]
fn only_comments_after_last_blank_line_are_attached() {
    let r = parse_ok("// header\n\n// list items\n/* more */\nexport function GET() {}");
    assert_eq!(
        r.method_metadata[0].comment,
        Some(vec!["list items".to_string(), "more".to_string()])
    );
}

#[test]
fn adjacent_comments_stop_at_blank_line() {
    let src = b"// a\n\n// b\nX";
    // positions are laid out from 1
    let found = vec![(1u32, 5u32, " a".to_string()), (7u32, 11u32, " b".to_string())];
    assert_eq!(adjacent_comments(src, 1, &found, 12), vec![" b".to_string()]);
    assert!(has_blank_line(src, 1, 5, 7));
    assert!(!has_blank_line(src, 1, 11, 12));
    assert!(has_blank_line(src, 1, 11, 40));
    assert_eq!(adjacent_comments(src, 1, &found, 40), Vec::<String>::new());
}
