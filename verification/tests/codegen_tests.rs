//! The assembled entry-point text, on concrete declarations.

use fncli::codegen::{assemble, parser_snippet, pattern_tuple, string_literal};
use fncli::sig::{FnDecl, Param, RawParam};
use fncli::transform;

fn param(pat: &str, ty: &str) -> Param {
    Param { pat: pat.to_string(), ty: ty.to_string() }
}

fn typed(pat: &str, ty: &str) -> RawParam {
    RawParam::Typed { param: param(pat, ty), has_attribute: false }
}

const SNIPPET_A: &str = "<i32 as ::std::str::FromStr>::from_str(&args.next().unwrap_or_else(|| exit(\"missing argument: a: i32\"))).unwrap_or_else(|e| exit(&::std::format!(\"failed to parse argument: a: i32 ({:?})\", e)))";

const SNIPPET_B: &str = "<i32 as ::std::str::FromStr>::from_str(&args.next().unwrap_or_else(|| exit(\"missing argument: b: i32\"))).unwrap_or_else(|e| exit(&::std::format!(\"failed to parse argument: b: i32 ({:?})\", e)))";

#[test]
fn string_literal_escapes_quotes_backslashes_and_whitespace() {
    assert_eq!(string_literal("plain"), "\"plain\"");
    assert_eq!(string_literal("a\"b\\c\nd\te"), "\"a\\\"b\\\\c\\nd\\te\"");
    assert_eq!(string_literal(""), "\"\"");
}

#[test]
fn pattern_tuple_handles_every_arity() {
    assert_eq!(pattern_tuple(&vec![]), "()");
    assert_eq!(pattern_tuple(&vec![param("a", "i32")]), "(a)");
    assert_eq!(
        pattern_tuple(&vec![param("a", "i32"), param("b", "String")]),
        "(a, b)"
    );
}

#[test]
fn parser_snippet_is_exact() {
    assert_eq!(parser_snippet(&param("a", "i32")), SNIPPET_A);
}

#[test]
fn assembled_zero_parameter_function_is_exact() {
    let d = FnDecl {
        attrs: String::new(),
        vis: String::new(),
        qualifiers: String::new(),
        ident: "main".to_string(),
        generics: String::new(),
        output: String::new(),
        body: "{}".to_string(),
        params: vec![],
        has_variadic: false,
    };
    let expected = "fn main() {\n    #[allow(clippy::let_unit_value)]\n    #[allow(unused_parens)]\n    let () = {\n        let mut args = ::std::env::args();\n        let cmd = args.next().expect(\"should have a command name\");\n        let exit = |err: &str| -> ! {\n            ::std::eprintln!(\"{}\", err);\n            ::std::eprintln!();\n            ::std::eprintln!(\"USAGE:\\n    {}\", cmd);\n            ::std::process::exit(1)\n        };\n        let tuple = ();\n        if args.next().is_some() {\n            exit(\"too many arguments (expected 0)\");\n        }\n        tuple\n    };\n    {}\n}";
    assert_eq!(transform(false, &d).unwrap(), expected);
    assert_eq!(assemble(&d, &vec![]), expected);
}

#[test]
fn assembled_two_parameter_function_is_exact() {
    let d = FnDecl {
        attrs: String::new(),
        vis: String::new(),
        qualifiers: String::new(),
        ident: "main".to_string(),
        generics: String::new(),
        output: String::new(),
        body: "{ a + b; }".to_string(),
        params: vec![typed("a", "i32"), typed("b", "i32")],
        has_variadic: false,
    };
    let mut expected = String::new();
    expected.push_str("fn main() {\n    #[allow(clippy::let_unit_value)]\n    #[allow(unused_parens)]\n    let (a, b) = {\n        let mut args = ::std::env::args();\n        let cmd = args.next().expect(\"should have a command name\");\n        let exit = |err: &str| -> ! {\n            ::std::eprintln!(\"{}\", err);\n            ::std::eprintln!();\n            ::std::eprintln!(\"USAGE:\\n    {} <a: i32> <b: i32>\", cmd);\n            ::std::process::exit(1)\n        };\n        let tuple = (");
    expected.push_str(SNIPPET_A);
    expected.push_str(", ");
    expected.push_str(SNIPPET_B);
    expected.push_str(");\n        if args.next().is_some() {\n            exit(\"too many arguments (expected 2)\");\n        }\n        tuple\n    };\n    { a + b; }\n}");
    assert_eq!(transform(false, &d).unwrap(), expected);
}

#[test]
fn pass_through_pieces_stand_verbatim() {
    let d = FnDecl {
        attrs: "#[inline]\n".to_string(),
        vis: "pub ".to_string(),
        qualifiers: "const unsafe ".to_string(),
        ident: "compute".to_string(),
        generics: "<T: Clone>".to_string(),
        output: "-> i32 ".to_string(),
        body: "{ 0 }".to_string(),
        params: vec![],
        has_variadic: false,
    };
    let text = transform(false, &d).unwrap();
    assert!(text.starts_with("#[inline]\npub const unsafe fn compute<T: Clone>() -> i32 {\n"));
    assert!(text.ends_with("    { 0 }\n}"));
}

#[test]
fn braces_in_type_text_stay_plain_in_messages_and_doubled_in_the_template() {
    let d = FnDecl {
        attrs: String::new(),
        vis: String::new(),
        qualifiers: String::new(),
        ident: "main".to_string(),
        generics: String::new(),
        output: String::new(),
        body: "{}".to_string(),
        params: vec![typed("p", "Point { x, y }")],
        has_variadic: false,
    };
    let text = transform(false, &d).unwrap();
    assert!(text.contains("\"missing argument: p: Point { x, y }\""));
    assert!(text.contains("\"failed to parse argument: p: Point {{ x, y }} ({:?})\""));
    assert!(text.contains("\"USAGE:\\n    {} <p: Point {{ x, y }}>\""));
}
