//! The runtime policy of a generated entry point.
//!
//! A generated program consumes positional arguments strictly left to right,
//! one per declared parameter: the first absent argument stops it with a
//! missing-argument error, the first rejected argument with a parse-failure
//! error, and an argument left over after all parameters are bound with a
//! too-many-arguments error.  Each parameter type's own string-parsing
//! capability is supplied from outside; here its verdicts are taken as
//! input, so the policy itself is decided — and verified — for every
//! possible verdict.

use vstd::prelude::*;
use vstd::string::StringExecFns;
use crate::sig::Param;
use crate::usage::spec_usage_plain;
use crate::usage::usage_message;

verus! {

/// The verdict of one parameter type's string-parsing capability on one
/// argument text.
pub enum ParseOutcome {
    /// The text was accepted.
    Parsed,
    /// The text was rejected, with the parser's own description of why.
    Failed { detail: String },
}

/// A runtime failure of the generated entry point.
#[derive(Debug, PartialEq, Eq)]
pub enum RunError {
    /// Parameter `pat: ty` had no argument left to consume.
    MissingArgument { pat: String, ty: String },
    /// The argument for parameter `pat: ty` was rejected by the type's
    /// parser, which reported `detail`.
    ArgumentParseFailure { pat: String, ty: String, detail: String },
    /// More arguments were supplied than the `expected` parameter count.
    TooManyArguments { expected: usize },
}

/// The decimal digit character for `d`.
pub open spec fn spec_digit(d: nat) -> char {
    if d == 0 {
        '0'
    } else if d == 1 {
        '1'
    } else if d == 2 {
        '2'
    } else if d == 3 {
        '3'
    } else if d == 4 {
        '4'
    } else if d == 5 {
        '5'
    } else if d == 6 {
        '6'
    } else if d == 7 {
        '7'
    } else if d == 8 {
        '8'
    } else {
        '9'
    }
}

/// The decimal rendering of `n`, most significant digit first, without
/// leading zeros (`0` itself is rendered as one digit).
pub open spec fn spec_dec(n: nat) -> Seq<char>
    decreases n,
{
    if n < 10 {
        seq![spec_digit(n)]
    } else {
        spec_dec(n / 10) + seq![spec_digit(n % 10)]
    }
}

/// The one-character string for a single decimal digit.
fn digit_str(d: usize) -> (r: &'static str)
    requires
        d < 10,
    ensures
        r@ == seq![spec_digit(d as nat)],
{
    if d == 0 {
        proof {
            reveal_strlit("0");
            assert(("0")@ =~= seq!['0']);
        }
        "0"
    } else if d == 1 {
        proof {
            reveal_strlit("1");
            assert(("1")@ =~= seq!['1']);
        }
        "1"
    } else if d == 2 {
        proof {
            reveal_strlit("2");
            assert(("2")@ =~= seq!['2']);
        }
        "2"
    } else if d == 3 {
        proof {
            reveal_strlit("3");
            assert(("3")@ =~= seq!['3']);
        }
        "3"
    } else if d == 4 {
        proof {
            reveal_strlit("4");
            assert(("4")@ =~= seq!['4']);
        }
        "4"
    } else if d == 5 {
        proof {
            reveal_strlit("5");
            assert(("5")@ =~= seq!['5']);
        }
        "5"
    } else if d == 6 {
        proof {
            reveal_strlit("6");
            assert(("6")@ =~= seq!['6']);
        }
        "6"
    } else if d == 7 {
        proof {
            reveal_strlit("7");
            assert(("7")@ =~= seq!['7']);
        }
        "7"
    } else if d == 8 {
        proof {
            reveal_strlit("8");
            assert(("8")@ =~= seq!['8']);
        }
        "8"
    } else {
        proof {
            reveal_strlit("9");
            assert(("9")@ =~= seq!['9']);
        }
        "9"
    }
}

/// Append the decimal rendering of `n` to `out`.
fn push_decimal(n: usize, out: &mut String)
    ensures
        final(out)@ == old(out)@ + spec_dec(n as nat),
    decreases n,
{
    if n < 10 {
        out.append(digit_str(n));
    } else {
        push_decimal(n / 10, out);
        out.append(digit_str(n % 10));
        proof {
            assert(old(out)@ + spec_dec((n / 10) as nat) + seq![spec_digit((n % 10) as nat)]
                =~= old(out)@ + spec_dec(n as nat));
        }
    }
}

/// The decimal rendering of `n`.
pub fn decimal_string(n: usize) -> (r: String)
    ensures
        r@ == spec_dec(n as nat),
{
    let mut out = String::new();
    push_decimal(n, &mut out);
    proof {
        assert(Seq::<char>::empty() + spec_dec(n as nat) =~= spec_dec(n as nat));
    }
    out
}

/// The message for a parameter that had no argument left to consume.
pub open spec fn spec_missing_message(pat: Seq<char>, ty: Seq<char>) -> Seq<char> {
    "missing argument: "@ + pat + ": "@ + ty
}

/// The opening of a parse-failure message, up to and including the bracket
/// that the parser's own description follows.
pub open spec fn spec_parse_failure_prefix(pat: Seq<char>, ty: Seq<char>) -> Seq<char> {
    "failed to parse argument: "@ + pat + ": "@ + ty + " ("@
}

/// The message for an argument that its parameter's type rejected.
pub open spec fn spec_parse_failure_message(
    pat: Seq<char>,
    ty: Seq<char>,
    detail: Seq<char>,
) -> Seq<char> {
    spec_parse_failure_prefix(pat, ty) + detail + ")"@
}

/// The message for arguments left over once every parameter is bound.
pub open spec fn spec_too_many_message(expected: nat) -> Seq<char> {
    "too many arguments (expected "@ + spec_dec(expected) + ")"@
}

impl RunError {
    /// The diagnostic message for this failure.
    pub open spec fn spec_message(self) -> Seq<char> {
        match self {
            RunError::MissingArgument { pat, ty } => spec_missing_message(pat@, ty@),
            RunError::ArgumentParseFailure { pat, ty, detail } => spec_parse_failure_message(
                pat@,
                ty@,
                detail@,
            ),
            RunError::TooManyArguments { expected } => spec_too_many_message(expected as nat),
        }
    }

    /// The diagnostic message for this failure.
    pub fn message(&self) -> (r: String)
        ensures
            r@ == self.spec_message(),
    {
        match self {
            RunError::MissingArgument { pat, ty } => {
                let mut out = "missing argument: ".to_owned();
                out.append(pat.as_str());
                out.append(": ");
                out.append(ty.as_str());
                out
            },
            RunError::ArgumentParseFailure { pat, ty, detail } => {
                let mut out = "failed to parse argument: ".to_owned();
                out.append(pat.as_str());
                out.append(": ");
                out.append(ty.as_str());
                out.append(" (");
                out.append(detail.as_str());
                out.append(")");
                out
            },
            RunError::TooManyArguments { expected } => {
                let mut out = "too many arguments (expected ".to_owned();
                push_decimal(*expected, &mut out);
                out.append(")");
                out
            },
        }
    }
}

/// The full failure report, as the generated exit routine writes it to the
/// error stream: the message, a blank line, then the usage line, each ended
/// by a line break.
pub open spec fn spec_failure_report(params: Seq<Param>, cmd: Seq<char>, err: RunError) -> Seq<
    char,
> {
    err.spec_message() + "\n\n"@ + spec_usage_plain(params, cmd) + "\n"@
}

/// Build the full failure report for one runtime failure.
pub fn failure_report(params: &Vec<Param>, cmd: &str, err: &RunError) -> (r: String)
    ensures
        r@ == spec_failure_report(params@, cmd@, *err),
{
    let mut out = err.message();
    out.append("\n\n");
    let usage = usage_message(params, cmd);
    out.append(usage.as_str());
    out.append("\n");
    out
}

/// Left-to-right argument consumption from parameter position `i` on: the
/// first missing argument or parse failure stops it; once every parameter
/// is bound, a remaining argument is rejected, and otherwise the arguments
/// are accepted as bound, one per parameter in declaration order.
pub open spec fn spec_run(
    params: Seq<Param>,
    args: Seq<String>,
    outcomes: Seq<ParseOutcome>,
    i: int,
) -> Result<Seq<String>, RunError>
    decreases params.len() - i,
{
    if i >= params.len() {
        if args.len() > params.len() {
            Err(RunError::TooManyArguments { expected: params.len() as usize })
        } else {
            Ok(args)
        }
    } else if i >= args.len() {
        Err(RunError::MissingArgument { pat: params[i].pat, ty: params[i].ty })
    } else if outcomes[i] is Failed {
        Err(
            RunError::ArgumentParseFailure {
                pat: params[i].pat,
                ty: params[i].ty,
                detail: outcomes[i]->Failed_detail,
            },
        )
    } else {
        spec_run(params, args, outcomes, i + 1)
    }
}

/// The outcome of one run of the generated entry point, given the supplied
/// arguments and the parser verdict for each consumed argument.
pub open spec fn spec_evaluate(
    params: Seq<Param>,
    args: Seq<String>,
    outcomes: Seq<ParseOutcome>,
) -> Result<Seq<String>, RunError> {
    spec_run(params, args, outcomes, 0)
}

/// Decide one run of the generated entry point.  `args` are the positional
/// arguments after the command name; `outcomes[i]` is the verdict of
/// parameter `i`'s type on `args[i]`, needed only as far as arguments are
/// actually consumed.  On acceptance the bound argument texts come back,
/// one per parameter in declaration order.
pub fn evaluate(params: &Vec<Param>, args: &Vec<String>, outcomes: &Vec<ParseOutcome>) -> (r:
    Result<Vec<String>, RunError>)
    requires
        outcomes@.len() >= params@.len() || outcomes@.len() >= args@.len(),
    ensures
        (match spec_evaluate(params@, args@, outcomes@) {
            Ok(bound) => r matches Ok(v) && v@ == bound,
            Err(e) => r matches Err(e2) && e2 == e,
        }),
{
    let n = params.len();
    let mut i: usize = 0;
    while i < n
        invariant
            n == params@.len(),
            i <= n,
            outcomes@.len() >= params@.len() || outcomes@.len() >= args@.len(),
            spec_run(params@, args@, outcomes@, 0) == spec_run(params@, args@, outcomes@, i as int),
        decreases n - i,
    {
        if i >= args.len() {
            let p = &params[i];
            return Err(RunError::MissingArgument { pat: p.pat.clone(), ty: p.ty.clone() });
        }
        let oc = &outcomes[i];
        match oc {
            ParseOutcome::Failed { detail } => {
                let p = &params[i];
                return Err(
                    RunError::ArgumentParseFailure {
                        pat: p.pat.clone(),
                        ty: p.ty.clone(),
                        detail: detail.clone(),
                    },
                );
            },
            ParseOutcome::Parsed => {},
        }
        i += 1;
    }
    if args.len() > n {
        return Err(RunError::TooManyArguments { expected: n });
    }
    let m = args.len();
    let mut bound: Vec<String> = Vec::new();
    let mut j: usize = 0;
    while j < m
        invariant
            m == args@.len(),
            j <= m,
            bound@.len() == j,
            forall|k: int| 0 <= k < j ==> bound@[k] == args@[k],
        decreases m - j,
    {
        bound.push(args[j].clone());
        j += 1;
    }
    proof {
        assert(bound@ =~= args@);
    }
    Ok(bound)
}

/// The generated parser consumes exactly one argument per parameter: parser
/// verdicts beyond the parameter count never change the outcome of a run.
pub proof fn lemma_consumes_exactly_arity(
    params: Seq<Param>,
    args: Seq<String>,
    o1: Seq<ParseOutcome>,
    o2: Seq<ParseOutcome>,
)
    requires
        forall|j: int| 0 <= j < params.len() ==> o1[j] == o2[j],
    ensures
        spec_evaluate(params, args, o1) == spec_evaluate(params, args, o2),
{
    lemma_run_agrees(params, args, o1, o2, 0);
}

/// Helper for [`lemma_consumes_exactly_arity`], for every start position.
proof fn lemma_run_agrees(
    params: Seq<Param>,
    args: Seq<String>,
    o1: Seq<ParseOutcome>,
    o2: Seq<ParseOutcome>,
    i: int,
)
    requires
        0 <= i,
        forall|j: int| 0 <= j < params.len() ==> o1[j] == o2[j],
    ensures
        spec_run(params, args, o1, i) == spec_run(params, args, o2, i),
    decreases params.len() - i,
{
    if i < params.len() && i < args.len() && !(o1[i] is Failed) {
        lemma_run_agrees(params, args, o1, o2, i + 1);
    }
}

/// When every consumed argument is accepted by its parameter's type, the
/// outcome is decided by the count alone: the first absent argument is
/// reported missing, an argument beyond the parameter count is rejected as
/// excess, and a run with exactly one argument per parameter succeeds.
pub proof fn lemma_outcome_by_count(
    params: Seq<Param>,
    args: Seq<String>,
    outcomes: Seq<ParseOutcome>,
)
    requires
        forall|i: int| 0 <= i < params.len() && i < args.len() ==> outcomes[i] is Parsed,
    ensures
        args.len() < params.len() ==> spec_evaluate(params, args, outcomes) == Err::<
            Seq<String>,
            RunError,
        >(
            RunError::MissingArgument {
                pat: params[args.len() as int].pat,
                ty: params[args.len() as int].ty,
            },
        ),
        args.len() > params.len() ==> spec_evaluate(params, args, outcomes) == Err::<
            Seq<String>,
            RunError,
        >(RunError::TooManyArguments { expected: params.len() as usize }),
        args.len() == params.len() ==> spec_evaluate(params, args, outcomes) == Ok::<
            Seq<String>,
            RunError,
        >(args),
{
    lemma_run_by_count(params, args, outcomes, 0);
}

/// Helper for [`lemma_outcome_by_count`], for every start position.
proof fn lemma_run_by_count(params: Seq<Param>, args: Seq<String>, outcomes: Seq<ParseOutcome>, i: int)
    requires
        0 <= i,
        forall|j: int| 0 <= j < params.len() && j < args.len() ==> outcomes[j] is Parsed,
    ensures
        args.len() < params.len() && i <= args.len() ==> spec_run(params, args, outcomes, i)
            == Err::<Seq<String>, RunError>(
            RunError::MissingArgument {
                pat: params[args.len() as int].pat,
                ty: params[args.len() as int].ty,
            },
        ),
        args.len() > params.len() && i <= params.len() ==> spec_run(params, args, outcomes, i)
            == Err::<Seq<String>, RunError>(
            RunError::TooManyArguments { expected: params.len() as usize },
        ),
        args.len() == params.len() && i <= params.len() ==> spec_run(params, args, outcomes, i)
            == Ok::<Seq<String>, RunError>(args),
    decreases params.len() - i,
{
    if i < params.len() && i < args.len() && !(outcomes[i] is Failed) {
        lemma_run_by_count(params, args, outcomes, i + 1);
    }
}

/// An accepted run binds the arguments 1:1 and in order: there is one
/// argument per parameter, and the value bound to parameter `k` is parsed
/// from argument `k`.
pub proof fn lemma_positional_binding(
    params: Seq<Param>,
    args: Seq<String>,
    outcomes: Seq<ParseOutcome>,
)
    requires
        spec_evaluate(params, args, outcomes) is Ok,
    ensures
        args.len() == params.len(),
        spec_evaluate(params, args, outcomes) == Ok::<Seq<String>, RunError>(args),
        forall|k: int| 0 <= k < params.len()
            ==> spec_evaluate(params, args, outcomes)->Ok_0[k] == args[k],
{
    lemma_run_positional(params, args, outcomes, 0);
}

/// Helper for [`lemma_positional_binding`], for every start position.
proof fn lemma_run_positional(
    params: Seq<Param>,
    args: Seq<String>,
    outcomes: Seq<ParseOutcome>,
    i: int,
)
    requires
        0 <= i <= args.len(),
        spec_run(params, args, outcomes, i) is Ok,
    ensures
        args.len() == params.len(),
        spec_run(params, args, outcomes, i) == Ok::<Seq<String>, RunError>(args),
    decreases params.len() - i,
{
    if i >= params.len() {
    } else {
        lemma_run_positional(params, args, outcomes, i + 1);
    }
}

/// Swapping two supplied argument texts swaps which parameter receives
/// which value: position, not content, decides the binding.
pub proof fn lemma_swapped_arguments_swap_bindings(
    params: Seq<Param>,
    args: Seq<String>,
    outcomes: Seq<ParseOutcome>,
    swapped: Seq<String>,
    outcomes2: Seq<ParseOutcome>,
    a: int,
    b: int,
)
    requires
        0 <= a < args.len(),
        0 <= b < args.len(),
        swapped == args.update(a, args[b]).update(b, args[a]),
        spec_evaluate(params, args, outcomes) is Ok,
        spec_evaluate(params, swapped, outcomes2) is Ok,
    ensures
        a != b ==> spec_evaluate(params, swapped, outcomes2)->Ok_0[a] == args[b],
        spec_evaluate(params, swapped, outcomes2)->Ok_0[b] == args[a],
{
    lemma_positional_binding(params, args, outcomes);
    lemma_positional_binding(params, swapped, outcomes2);
}

} // verus!
