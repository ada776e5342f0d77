//! The usage template, brace escaping and template rendering.

use fncli::sig::Param;
use fncli::usage::{escape_braces, format_usage, usage_message, usage_template};

fn param(pat: &str, ty: &str) -> Param {
    Param { pat: pat.to_string(), ty: ty.to_string() }
}

#[test]
fn escape_doubles_braces() {
    assert_eq!(escape_braces("a{b}c"), "a{{b}}c");
    assert_eq!(escape_braces("{}"), "{{}}");
    assert_eq!(escape_braces("plain"), "plain");
    assert_eq!(escape_braces(""), "");
}

#[test]
fn format_renders_doubled_braces_and_command() {
    assert_eq!(format_usage("{{}} {} x", "cmd"), "{} cmd x");
    assert_eq!(format_usage("no holes", "cmd"), "no holes");
    assert_eq!(format_usage("{}", "c"), "c");
    assert_eq!(format_usage("}}{{", "c"), "}{");
}

#[test]
fn template_for_two_parameters() {
    let params = vec![param("a", "i32"), param("b", "i32")];
    assert_eq!(usage_template(&params), "USAGE:\n    {} <a: i32> <b: i32>");
}

#[test]
fn template_for_zero_parameters() {
    assert_eq!(usage_template(&vec![]), "USAGE:\n    {}");
}

#[test]
fn usage_line_for_two_parameters() {
    let params = vec![param("a", "i32"), param("b", "i32")];
    assert_eq!(usage_message(&params, "prog"), "USAGE:\n    prog <a: i32> <b: i32>");
}

#[test]
fn braces_in_pattern_text_are_doubled_and_render_back() {
    let params = vec![param("Point { x, y }", "Point")];
    let template = usage_template(&params);
    assert_eq!(template, "USAGE:\n    {} <Point {{ x, y }}: Point>");
    assert_eq!(
        format_usage(&template, "p"),
        "USAGE:\n    p <Point { x, y }: Point>"
    );
    assert_eq!(
        usage_message(&params, "p"),
        "USAGE:\n    p <Point { x, y }: Point>"
    );
}
