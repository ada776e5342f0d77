//! Assembly of the generated entry point's source text.
//!
//! From a validated parameter list and the opaque pass-through pieces of the
//! original declaration, this module emits the complete replacement
//! function: qualifiers, name, generics and return type stand verbatim, and
//! a prelude is spliced in front of the original body that obtains the
//! process arguments, binds the command name, defines the shared exit
//! routine, parses one positional argument per parameter into a tuple,
//! rejects excess arguments, and binds the tuple to the original binding
//! patterns.  Pattern and type text is embedded in generated string
//! literals through a verified escaper, and the usage template through the
//! brace escaper, so arbitrary source text cannot corrupt the emitted
//! program.

use vstd::prelude::*;
use vstd::string::StrSliceExecFns;
use vstd::string::StringExecFns;
use crate::sig::FnDecl;
use crate::sig::Param;
use crate::run::RunError;
use crate::run::spec_missing_message;
use crate::run::spec_parse_failure_prefix;
use crate::run::spec_too_many_message;
use crate::usage::escape_braces;
use crate::usage::spec_escape;
use crate::usage::spec_template;
use crate::usage::usage_template;

verus! {

/// How one character is written inside a generated double-quoted string
/// literal: quote, backslash, line break and tab are escaped, everything
/// else stands as it is.
pub open spec fn spec_lit_escape_char(c: char) -> Seq<char> {
    if c == '"' {
        seq!['\\', '"']
    } else if c == '\\' {
        seq!['\\', '\\']
    } else if c == '\n' {
        seq!['\\', 'n']
    } else if c == '\t' {
        seq!['\\', 't']
    } else {
        seq![c]
    }
}

/// `s` as it is written inside a generated double-quoted string literal.
pub open spec fn spec_lit_escape(s: Seq<char>) -> Seq<char>
    decreases s.len(),
{
    if s.len() == 0 {
        Seq::empty()
    } else {
        spec_lit_escape_char(s[0]) + spec_lit_escape(s.drop_first())
    }
}

/// Literal escaping distributes over concatenation.
pub proof fn lemma_lit_escape_concat(a: Seq<char>, b: Seq<char>)
    ensures
        spec_lit_escape(a + b) == spec_lit_escape(a) + spec_lit_escape(b),
    decreases a.len(),
{
    if a.len() == 0 {
        assert(a + b =~= b);
        assert(spec_lit_escape(a) + spec_lit_escape(b) =~= spec_lit_escape(b));
    } else {
        assert((a + b).drop_first() =~= a.drop_first() + b);
        assert((a + b)[0] == a[0]);
        lemma_lit_escape_concat(a.drop_first(), b);
        assert(spec_lit_escape(a + b) =~= spec_lit_escape(a) + spec_lit_escape(b));
    }
}

/// Escaping a single character for a literal yields its escape sequence.
pub proof fn lemma_lit_escape_single(c: char)
    ensures
        spec_lit_escape(seq![c]) == spec_lit_escape_char(c),
{
    assert(seq![c].drop_first() =~= Seq::<char>::empty());
    assert(spec_lit_escape(Seq::<char>::empty()) == Seq::<char>::empty());
    assert(seq![c][0] == c);
    assert(spec_lit_escape(seq![c]) =~= spec_lit_escape_char(c));
}

/// A complete generated string literal holding the text `s`: opening and
/// closing quote around the escaped text.
pub open spec fn spec_str_literal(s: Seq<char>) -> Seq<char> {
    "\""@ + spec_lit_escape(s) + "\""@
}

/// Escape `s` for the inside of a generated double-quoted string literal.
fn escape_for_literal(s: &str) -> (r: String)
    ensures
        r@ == spec_lit_escape(s@),
{
    let n = s.unicode_len();
    let mut out = String::new();
    let mut i: usize = 0;
    while i < n
        invariant
            n == s@.len(),
            i <= n,
            out@ == spec_lit_escape(s@.take(i as int)),
        decreases n - i,
    {
        let c = s.get_char(i);
        if c == '"' {
            out.append("\\\"");
            proof {
                reveal_strlit("\\\"");
                assert(("\\\"")@ =~= seq!['\\', '"']);
            }
        } else if c == '\\' {
            out.append("\\\\");
            proof {
                reveal_strlit("\\\\");
                assert(("\\\\")@ =~= seq!['\\', '\\']);
            }
        } else if c == '\n' {
            out.append("\\n");
            proof {
                reveal_strlit("\\n");
                assert(("\\n")@ =~= seq!['\\', 'n']);
            }
        } else if c == '\t' {
            out.append("\\t");
            proof {
                reveal_strlit("\\t");
                assert(("\\t")@ =~= seq!['\\', 't']);
            }
        } else {
            let piece = s.substring_char(i, i + 1);
            out.append(piece);
            proof {
                assert(piece@ =~= seq![s@[i as int]]);
            }
        }
        proof {
            assert(s@.take(i + 1) =~= s@.take(i as int) + seq![s@[i as int]]);
            lemma_lit_escape_concat(s@.take(i as int), seq![s@[i as int]]);
            lemma_lit_escape_single(s@[i as int]);
        }
        i += 1;
    }
    proof {
        assert(s@.take(n as int) =~= s@);
    }
    out
}

/// Emit a generated string literal holding exactly the text `s`.
pub fn string_literal(s: &str) -> (r: String)
    ensures
        r@ == spec_str_literal(s@),
{
    let mut out = "\"".to_owned();
    let escaped = escape_for_literal(s);
    out.append(escaped.as_str());
    out.append("\"");
    out
}

/// Texts joined by a separator.
pub open spec fn spec_join(items: Seq<Seq<char>>, sep: Seq<char>) -> Seq<char>
    decreases items.len(),
{
    if items.len() == 0 {
        Seq::empty()
    } else if items.len() == 1 {
        items[0]
    } else {
        items[0] + sep + spec_join(items.drop_first(), sep)
    }
}

/// Joining one more text appends a separator exactly when something
/// precedes it.
pub proof fn lemma_join_snoc(items: Seq<Seq<char>>, sep: Seq<char>, x: Seq<char>)
    ensures
        spec_join(items.push(x), sep) == (if items.len() == 0 {
            x
        } else {
            spec_join(items, sep) + sep + x
        }),
    decreases items.len(),
{
    let grown = items.push(x);
    if items.len() == 0 {
        assert(grown.len() == 1);
        assert(grown[0] == x);
    } else if items.len() == 1 {
        assert(grown.drop_first() =~= seq![x]);
        assert(spec_join(seq![x], sep) == x);
        assert(grown[0] == items[0]);
    } else {
        assert(grown.drop_first() =~= items.drop_first().push(x));
        assert(grown[0] == items[0]);
        lemma_join_snoc(items.drop_first(), sep, x);
        assert(spec_join(grown, sep) =~= spec_join(items, sep) + sep + x);
    }
}

/// The binding patterns of a parameter list, in declaration order.
pub open spec fn spec_pats(params: Seq<Param>) -> Seq<Seq<char>> {
    params.map_values(|p: Param| p.pat@)
}

/// The generated tuple of binding patterns: `()`, `(a)`, `(a, b)`, one
/// position per parameter in declaration order.
pub open spec fn spec_pattern_tuple(params: Seq<Param>) -> Seq<char> {
    "("@ + spec_join(spec_pats(params), ", "@) + ")"@
}

/// Emit the tuple of binding patterns for a parameter list.
pub fn pattern_tuple(params: &Vec<Param>) -> (r: String)
    ensures
        r@ == spec_pattern_tuple(params@),
{
    let mut out = "(".to_owned();
    let n = params.len();
    let mut i: usize = 0;
    proof {
        assert(spec_pats(params@.take(0)) =~= Seq::<Seq<char>>::empty());
        assert(out@ + Seq::<char>::empty() =~= out@);
    }
    while i < n
        invariant
            n == params@.len(),
            i <= n,
            out@ == ("(")@ + spec_join(spec_pats(params@.take(i as int)), ", "@),
        decreases n - i,
    {
        if i > 0 {
            out.append(", ");
        }
        out.append(params[i].pat.as_str());
        proof {
            let items = spec_pats(params@.take(i as int));
            assert(spec_pats(params@.take(i + 1)) =~= items.push(params@[i as int].pat@));
            lemma_join_snoc(items, ", "@, params@[i as int].pat@);
            assert(out@ =~= ("(")@ + spec_join(spec_pats(params@.take(i + 1)), ", "@));
        }
        i += 1;
    }
    out.append(")");
    proof {
        assert(params@.take(n as int) =~= params@);
    }
    out
}

/// The generated parsing expression for one parameter: pull the next
/// positional argument, report it missing if there is none, otherwise
/// convert it through the type's string-parsing capability, and report the
/// capability's own error if it refuses — each report going through the
/// shared exit routine.
pub open spec fn spec_parser_snippet(pat: Seq<char>, ty: Seq<char>) -> Seq<char> {
    "<"@ + ty + " as ::std::str::FromStr>::from_str(&args.next().unwrap_or_else(|| exit("@
        + spec_str_literal(spec_missing_message(pat, ty))
        + "))).unwrap_or_else(|e| exit(&::std::format!("@
        + spec_str_literal(spec_escape(spec_parse_failure_prefix(pat, ty)) + "{:?})"@)
        + ", e)))"@
}

/// Emit the parsing expression for one parameter.
pub fn parser_snippet(p: &Param) -> (r: String)
    ensures
        r@ == spec_parser_snippet(p.pat@, p.ty@),
{
    let mut out = "<".to_owned();
    out.append(p.ty.as_str());
    out.append(" as ::std::str::FromStr>::from_str(&args.next().unwrap_or_else(|| exit(");
    let missing = RunError::MissingArgument { pat: p.pat.clone(), ty: p.ty.clone() }.message();
    let missing_lit = string_literal(missing.as_str());
    out.append(missing_lit.as_str());
    out.append("))).unwrap_or_else(|e| exit(&::std::format!(");
    let mut prefix = "failed to parse argument: ".to_owned();
    prefix.append(p.pat.as_str());
    prefix.append(": ");
    prefix.append(p.ty.as_str());
    prefix.append(" (");
    let mut fmt_text = escape_braces(prefix.as_str());
    fmt_text.append("{:?})");
    let fmt_lit = string_literal(fmt_text.as_str());
    out.append(fmt_lit.as_str());
    out.append(", e)))");
    out
}

/// The generated parsing expressions of a parameter list, in declaration
/// order.
pub open spec fn spec_parsers(params: Seq<Param>) -> Seq<Seq<char>> {
    params.map_values(|p: Param| spec_parser_snippet(p.pat@, p.ty@))
}

/// Emit the comma-joined parsing expressions of a parameter list.
pub fn parsers_join(params: &Vec<Param>) -> (r: String)
    ensures
        r@ == spec_join(spec_parsers(params@), ", "@),
{
    let mut out = String::new();
    let n = params.len();
    let mut i: usize = 0;
    proof {
        assert(spec_parsers(params@.take(0)) =~= Seq::<Seq<char>>::empty());
    }
    while i < n
        invariant
            n == params@.len(),
            i <= n,
            out@ == spec_join(spec_parsers(params@.take(i as int)), ", "@),
        decreases n - i,
    {
        if i > 0 {
            out.append(", ");
        }
        let snippet = parser_snippet(&params[i]);
        out.append(snippet.as_str());
        proof {
            let items = spec_parsers(params@.take(i as int));
            let x = spec_parser_snippet(params@[i as int].pat@, params@[i as int].ty@);
            assert(spec_parsers(params@.take(i + 1)) =~= items.push(x));
            lemma_join_snoc(items, ", "@, x);
            assert(out@ =~= spec_join(spec_parsers(params@.take(i + 1)), ", "@));
        }
        i += 1;
    }
    proof {
        assert(params@.take(n as int) =~= params@);
    }
    out
}

/// The complete generated function: the original attributes, visibility,
/// qualifiers, name, generics and return type stand verbatim around an
/// empty parameter list; the body is preceded by a prelude that obtains the
/// process arguments, takes the command name, defines the exit routine over
/// the usage template, parses one positional argument per parameter into a
/// tuple, rejects a leftover argument, and binds the tuple to the original
/// binding patterns.
pub open spec fn spec_assembled(d: FnDecl, params: Seq<Param>) -> Seq<char> {
    d.attrs@ + d.vis@ + d.qualifiers@ + "fn "@ + d.ident@ + d.generics@ + "() "@ + d.output@
        + "{\n    #[allow(clippy::let_unit_value)]\n    #[allow(unused_parens)]\n    let "@
        + spec_pattern_tuple(params)
        + " = {\n        let mut args = ::std::env::args();\n        let cmd = args.next().expect(\"should have a command name\");\n        let exit = |err: &str| -> ! {\n            ::std::eprintln!(\"{}\", err);\n            ::std::eprintln!();\n            ::std::eprintln!("@
        + spec_str_literal(spec_template(params))
        + ", cmd);\n            ::std::process::exit(1)\n        };\n        let tuple = ("@
        + spec_join(spec_parsers(params), ", "@)
        + ");\n        if args.next().is_some() {\n            exit("@
        + spec_str_literal(spec_too_many_message(params.len()))
        + ");\n        }\n        tuple\n    };\n    "@ + d.body@ + "\n}"@
}

/// Assemble the complete generated function from the pass-through pieces of
/// the original declaration and its validated parameter list.
pub fn assemble(d: &FnDecl, params: &Vec<Param>) -> (r: String)
    ensures
        r@ == spec_assembled(*d, params@),
{
    let mut out = d.attrs.clone();
    out.append(d.vis.as_str());
    out.append(d.qualifiers.as_str());
    out.append("fn ");
    out.append(d.ident.as_str());
    out.append(d.generics.as_str());
    out.append("() ");
    out.append(d.output.as_str());
    out.append("{\n    #[allow(clippy::let_unit_value)]\n    #[allow(unused_parens)]\n    let ");
    let pats = pattern_tuple(params);
    out.append(pats.as_str());
    out.append(
        " = {\n        let mut args = ::std::env::args();\n        let cmd = args.next().expect(\"should have a command name\");\n        let exit = |err: &str| -> ! {\n            ::std::eprintln!(\"{}\", err);\n            ::std::eprintln!();\n            ::std::eprintln!(",
    );
    let template = usage_template(params);
    let template_lit = string_literal(template.as_str());
    out.append(template_lit.as_str());
    out.append(", cmd);\n            ::std::process::exit(1)\n        };\n        let tuple = (");
    let parsers = parsers_join(params);
    out.append(parsers.as_str());
    out.append(");\n        if args.next().is_some() {\n            exit(");
    let too_many = RunError::TooManyArguments { expected: params.len() }.message();
    let too_many_lit = string_literal(too_many.as_str());
    out.append(too_many_lit.as_str());
    out.append(");\n        }\n        tuple\n    };\n    ");
    out.append(d.body.as_str());
    out.append("\n}");
    out
}

} // verus!
