//! The runtime policy of a generated entry point, run on concrete
//! parameter lists, arguments and parser verdicts.

use std::str::FromStr;

use fncli::run::{decimal_string, evaluate, failure_report, ParseOutcome, RunError};
use fncli::sig::Param;

fn param(pat: &str, ty: &str) -> Param {
    Param { pat: pat.to_string(), ty: ty.to_string() }
}

fn args(texts: &[&str]) -> Vec<String> {
    texts.iter().map(|t| t.to_string()).collect()
}

/// The verdict of `i32`'s parser on each supplied argument, up to `limit`
/// consumed arguments.
fn i32_verdicts(texts: &[&str], limit: usize) -> Vec<ParseOutcome> {
    texts
        .iter()
        .take(limit)
        .map(|t| match t.parse::<i32>() {
            Ok(_) => ParseOutcome::Parsed,
            Err(e) => ParseOutcome::Failed { detail: format!("{:?}", e) },
        })
        .collect()
}

/// A clock time, parsed from `hh:mm` text; the parser insists on the colon.
struct Time {
    hours: u32,
    minutes: u32,
}

#[derive(Debug)]
struct BadTime(&'static str);

impl FromStr for Time {
    type Err = BadTime;

    fn from_str(s: &str) -> Result<Self, BadTime> {
        match s.split_once(':') {
            None => Err(BadTime("should have a colon")),
            Some((h, m)) => {
                let hours = h.parse().map_err(|_| BadTime("bad hours"))?;
                let minutes = m.parse().map_err(|_| BadTime("bad minutes"))?;
                Ok(Time { hours, minutes })
            },
        }
    }
}

#[test]
fn two_arguments_parse_and_bind_in_order() {
    let params = vec![param("a", "i32"), param("b", "i32")];
    let supplied = args(&["1", "2"]);
    let verdicts = i32_verdicts(&["1", "2"], 2);
    let bound = evaluate(&params, &supplied, &verdicts).unwrap();
    assert_eq!(bound, supplied);
    let a: i32 = bound[0].parse().unwrap();
    let b: i32 = bound[1].parse().unwrap();
    assert_eq!(a, 1);
    assert_eq!(b, 2);
    assert_eq!(a + b, 3);
}

#[test]
fn swapped_arguments_swap_bindings() {
    let params = vec![param("a", "i32"), param("b", "i32")];
    let bound = evaluate(&params, &args(&["1", "2"]), &i32_verdicts(&["1", "2"], 2)).unwrap();
    let swapped = evaluate(&params, &args(&["2", "1"]), &i32_verdicts(&["2", "1"], 2)).unwrap();
    assert_eq!(bound[0], swapped[1]);
    assert_eq!(bound[1], swapped[0]);
    assert_eq!(bound[0], "1");
    assert_eq!(swapped[0], "2");
}

#[test]
fn missing_argument_stops_at_the_first_absent_value() {
    let params = vec![param("a", "i32"), param("b", "i32")];
    let r = evaluate(&params, &args(&["1"]), &i32_verdicts(&["1"], 1));
    assert_eq!(
        r,
        Err(RunError::MissingArgument { pat: "b".to_string(), ty: "i32".to_string() })
    );
    let report = failure_report(&params, "prog", &r.unwrap_err());
    assert!(report.starts_with("missing argument: b: i32"));
    assert_eq!(
        report,
        "missing argument: b: i32\n\nUSAGE:\n    prog <a: i32> <b: i32>\n"
    );
}

#[test]
fn excess_argument_is_rejected_after_all_parameters() {
    let params = vec![param("a", "i32"), param("b", "i32")];
    let r = evaluate(&params, &args(&["1", "2", "3"]), &i32_verdicts(&["1", "2", "3"], 2));
    assert_eq!(r, Err(RunError::TooManyArguments { expected: 2 }));
    let report = failure_report(&params, "prog", &r.unwrap_err());
    assert!(report.starts_with("too many arguments (expected 2)"));
}

#[test]
fn rejected_argument_reports_the_parsers_own_error() {
    let params = vec![param("time", "Time")];
    let supplied = args(&["12"]);
    let verdicts: Vec<ParseOutcome> = supplied
        .iter()
        .map(|t| match Time::from_str(t) {
            Ok(_) => ParseOutcome::Parsed,
            Err(e) => ParseOutcome::Failed { detail: format!("{:?}", e) },
        })
        .collect();
    let r = evaluate(&params, &supplied, &verdicts);
    let err = r.unwrap_err();
    let message = err.message();
    assert!(message.contains("failed to parse argument: time: Time"));
    assert!(message.contains("should have a colon"));
    assert_eq!(
        message,
        "failed to parse argument: time: Time (BadTime(\"should have a colon\"))"
    );
}

#[test]
fn accepted_time_carries_its_fields() {
    let t = Time::from_str("12:34").unwrap();
    assert_eq!(t.hours, 12);
    assert_eq!(t.minutes, 34);
}

#[test]
fn zero_parameters_accept_zero_arguments_only() {
    let params: Vec<Param> = vec![];
    let r = evaluate(&params, &args(&[]), &vec![]);
    assert_eq!(r, Ok(vec![]));
    let r = evaluate(&params, &args(&["extra"]), &vec![]);
    assert_eq!(r, Err(RunError::TooManyArguments { expected: 0 }));
    assert_eq!(
        r.unwrap_err().message(),
        "too many arguments (expected 0)"
    );
}

#[test]
fn parse_failure_wins_over_later_missing_argument() {
    let params = vec![param("a", "i32"), param("b", "i32")];
    let r = evaluate(&params, &args(&["x"]), &i32_verdicts(&["x"], 1));
    match r {
        Err(RunError::ArgumentParseFailure { pat, ty, .. }) => {
            assert_eq!(pat, "a");
            assert_eq!(ty, "i32");
        },
        other => panic!("expected a parse failure, got {:?}", other),
    }
}

#[test]
fn error_messages_are_exact() {
    assert_eq!(
        RunError::MissingArgument { pat: "b".to_string(), ty: "i32".to_string() }.message(),
        "missing argument: b: i32"
    );
    assert_eq!(
        RunError::ArgumentParseFailure {
            pat: "t".to_string(),
            ty: "Time".to_string(),
            detail: "no colon".to_string(),
        }
        .message(),
        "failed to parse argument: t: Time (no colon)"
    );
    assert_eq!(
        RunError::TooManyArguments { expected: 2 }.message(),
        "too many arguments (expected 2)"
    );
}

#[test]
fn decimal_rendering_is_exact() {
    assert_eq!(decimal_string(0), "0");
    assert_eq!(decimal_string(7), "7");
    assert_eq!(decimal_string(10), "10");
    assert_eq!(decimal_string(1234567890), "1234567890");
}
