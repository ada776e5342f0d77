//! Synthesis of the usage string.
//!
//! The usage text is first built as a template: a header, one substitution
//! point for the invoking command name, then one ` <pattern: type>` segment
//! per parameter in declaration order.  Literal braces inside a rendered
//! pattern or type are doubled, so the template stays a well-formed format
//! string with exactly one remaining substitution point.  A small formatter
//! renders such a template with the command name; the central lemma here
//! shows that rendering the escaped template gives back the plain usage
//! line exactly, for every pattern and type text.

use vstd::prelude::*;
use vstd::string::StrSliceExecFns;
use vstd::string::StringExecFns;
use crate::sig::Param;

verus! {

/// `s` with every literal brace doubled.
pub open spec fn spec_escape(s: Seq<char>) -> Seq<char>
    decreases s.len(),
{
    if s.len() == 0 {
        Seq::empty()
    } else {
        (if s[0] == '{' {
            seq!['{', '{']
        } else if s[0] == '}' {
            seq!['}', '}']
        } else {
            seq![s[0]]
        }) + spec_escape(s.drop_first())
    }
}

/// Escaping distributes over concatenation.
pub proof fn lemma_escape_concat(a: Seq<char>, b: Seq<char>)
    ensures
        spec_escape(a + b) == spec_escape(a) + spec_escape(b),
    decreases a.len(),
{
    if a.len() == 0 {
        assert(a + b =~= b);
        assert(spec_escape(a) + spec_escape(b) =~= spec_escape(b));
    } else {
        assert((a + b).drop_first() =~= a.drop_first() + b);
        assert((a + b)[0] == a[0]);
        lemma_escape_concat(a.drop_first(), b);
        assert(spec_escape(a + b) =~= spec_escape(a) + spec_escape(b));
    }
}

/// Escaping a single character yields it doubled when it is a brace, and
/// unchanged otherwise.
pub proof fn lemma_escape_single(c: char)
    ensures
        spec_escape(seq![c]) == (if c == '{' {
            seq!['{', '{']
        } else if c == '}' {
            seq!['}', '}']
        } else {
            seq![c]
        }),
{
    assert(seq![c].drop_first() =~= Seq::<char>::empty());
    assert(spec_escape(Seq::<char>::empty()) == Seq::<char>::empty());
    assert(seq![c][0] == c);
    assert(spec_escape(seq![c]) =~= (if c == '{' {
        seq!['{', '{']
    } else if c == '}' {
        seq!['}', '}']
    } else {
        seq![c]
    }));
}

/// Text without braces.
pub open spec fn brace_free(s: Seq<char>) -> bool {
    forall|i: int| 0 <= i < s.len() ==> s[i] != '{' && s[i] != '}'
}

/// Escaping leaves brace-free text unchanged.
pub proof fn lemma_escape_identity(s: Seq<char>)
    requires
        brace_free(s),
    ensures
        spec_escape(s) == s,
    decreases s.len(),
{
    if s.len() > 0 {
        assert(s[0] != '{' && s[0] != '}');
        lemma_escape_identity(s.drop_first());
        assert(spec_escape(s) =~= s);
    }
}

/// `s` with every literal brace doubled, so that it can stand inside a
/// format template without being read as a substitution point.
pub fn escape_braces(s: &str) -> (r: String)
    ensures
        r@ == spec_escape(s@),
{
    let n = s.unicode_len();
    let mut out = String::new();
    let mut i: usize = 0;
    while i < n
        invariant
            n == s@.len(),
            i <= n,
            out@ == spec_escape(s@.take(i as int)),
        decreases n - i,
    {
        let c = s.get_char(i);
        if c == '{' {
            out.append("{{");
            proof {
                reveal_strlit("{{");
                assert(("{{")@ =~= seq!['{', '{']);
            }
        } else if c == '}' {
            out.append("}}");
            proof {
                reveal_strlit("}}");
                assert(("}}")@ =~= seq!['}', '}']);
            }
        } else {
            let piece = s.substring_char(i, i + 1);
            out.append(piece);
            proof {
                assert(piece@ =~= seq![s@[i as int]]);
            }
        }
        proof {
            assert(s@.take(i + 1) =~= s@.take(i as int) + seq![s@[i as int]]);
            lemma_escape_concat(s@.take(i as int), seq![s@[i as int]]);
            lemma_escape_single(s@[i as int]);
        }
        i += 1;
    }
    proof {
        assert(s@.take(n as int) =~= s@);
    }
    out
}

/// The plain ` <pattern: type>` usage segment for one parameter, before
/// escaping.
pub open spec fn spec_segment_plain(pat: Seq<char>, ty: Seq<char>) -> Seq<char> {
    " <"@ + pat + ": "@ + ty + ">"@
}

/// The plain usage segments of a parameter list, in declaration order.
pub open spec fn spec_segments_plain(params: Seq<Param>) -> Seq<char>
    decreases params.len(),
{
    if params.len() == 0 {
        Seq::empty()
    } else {
        spec_segment_plain(params[0].pat@, params[0].ty@) + spec_segments_plain(
            params.drop_first(),
        )
    }
}

/// The segment text distributes over concatenation of parameter lists.
pub proof fn lemma_segments_concat(a: Seq<Param>, b: Seq<Param>)
    ensures
        spec_segments_plain(a + b) == spec_segments_plain(a) + spec_segments_plain(b),
    decreases a.len(),
{
    if a.len() == 0 {
        assert(a + b =~= b);
        assert(spec_segments_plain(a) + spec_segments_plain(b) =~= spec_segments_plain(b));
    } else {
        assert((a + b).drop_first() =~= a.drop_first() + b);
        assert((a + b)[0] == a[0]);
        lemma_segments_concat(a.drop_first(), b);
        assert(spec_segments_plain(a + b) =~= spec_segments_plain(a) + spec_segments_plain(b));
    }
}

/// The usage template: header, one substitution point for the command name,
/// then the escaped segments.
pub open spec fn spec_template(params: Seq<Param>) -> Seq<char> {
    "USAGE:\n    {}"@ + spec_escape(spec_segments_plain(params))
}

/// The usage line as finally shown: header, command name, plain segments.
pub open spec fn spec_usage_plain(params: Seq<Param>, cmd: Seq<char>) -> Seq<char> {
    "USAGE:\n    "@ + cmd + spec_segments_plain(params)
}

/// Build the usage template for a parameter list.
pub fn usage_template(params: &Vec<Param>) -> (r: String)
    ensures
        r@ == spec_template(params@),
{
    let mut out = "USAGE:\n    {}".to_owned();
    let n = params.len();
    let mut i: usize = 0;
    proof {
        assert(params@.take(0) =~= Seq::<Param>::empty());
        assert(out@ =~= ("USAGE:\n    {}")@ + spec_escape(spec_segments_plain(params@.take(0))));
    }
    while i < n
        invariant
            n == params@.len(),
            i <= n,
            out@ == ("USAGE:\n    {}")@ + spec_escape(spec_segments_plain(params@.take(i as int))),
        decreases n - i,
    {
        let p = &params[i];
        let mut seg = " <".to_owned();
        seg.append(p.pat.as_str());
        seg.append(": ");
        seg.append(p.ty.as_str());
        seg.append(">");
        let esc = escape_braces(seg.as_str());
        out.append(esc.as_str());
        proof {
            assert(seg@ =~= spec_segment_plain(params@[i as int].pat@, params@[i as int].ty@));
            assert(params@.take(i + 1) =~= params@.take(i as int) + seq![params@[i as int]]);
            lemma_segments_concat(params@.take(i as int), seq![params@[i as int]]);
            assert(seq![params@[i as int]].drop_first() =~= Seq::<Param>::empty());
            assert(spec_segments_plain(Seq::<Param>::empty()) == Seq::<char>::empty());
            assert(seq![params@[i as int]][0] == params@[i as int]);
            assert(spec_segments_plain(seq![params@[i as int]]) =~= spec_segment_plain(
                params@[i as int].pat@,
                params@[i as int].ty@,
            ));
            lemma_escape_concat(
                spec_segments_plain(params@.take(i as int)),
                spec_segments_plain(seq![params@[i as int]]),
            );
            assert(out@ =~= ("USAGE:\n    {}")@ + spec_escape(
                spec_segments_plain(params@.take(i + 1)),
            ));
        }
        i += 1;
    }
    proof {
        assert(params@.take(n as int) =~= params@);
    }
    out
}

/// What rendering a format template with one command name yields: doubled
/// braces become literal braces, the `{}` substitution point becomes the
/// command name, and every other character stands as it is.
pub open spec fn spec_format(t: Seq<char>, cmd: Seq<char>) -> Seq<char>
    decreases t.len(),
{
    if t.len() == 0 {
        Seq::empty()
    } else if t.len() >= 2 && t[0] == '{' && t[1] == '{' {
        seq!['{'] + spec_format(t.skip(2), cmd)
    } else if t.len() >= 2 && t[0] == '}' && t[1] == '}' {
        seq!['}'] + spec_format(t.skip(2), cmd)
    } else if t.len() >= 2 && t[0] == '{' && t[1] == '}' {
        cmd + spec_format(t.skip(2), cmd)
    } else {
        seq![t[0]] + spec_format(t.skip(1), cmd)
    }
}

/// Rendering an escaped text followed by anything gives back the text
/// unchanged, then the rendering of the remainder: escaping is exactly what
/// protects arbitrary pattern and type text inside a template.
pub proof fn lemma_format_escaped(s: Seq<char>, rest: Seq<char>, cmd: Seq<char>)
    ensures
        spec_format(spec_escape(s) + rest, cmd) == s + spec_format(rest, cmd),
    decreases s.len(),
{
    if s.len() == 0 {
        assert(spec_escape(s) + rest =~= rest);
        assert(s + spec_format(rest, cmd) =~= spec_format(rest, cmd));
    } else {
        let c = s[0];
        let tail = spec_escape(s.drop_first()) + rest;
        lemma_format_escaped(s.drop_first(), rest, cmd);
        if c == '{' {
            let whole = seq!['{', '{'] + tail;
            assert(spec_escape(s) + rest =~= whole);
            assert(whole.skip(2) =~= tail);
            assert(spec_format(whole, cmd) =~= s + spec_format(rest, cmd));
        } else if c == '}' {
            let whole = seq!['}', '}'] + tail;
            assert(spec_escape(s) + rest =~= whole);
            assert(whole.skip(2) =~= tail);
            assert(spec_format(whole, cmd) =~= s + spec_format(rest, cmd));
        } else {
            let whole = seq![c] + tail;
            assert(spec_escape(s) + rest =~= whole);
            assert(whole.skip(1) =~= tail);
            assert(spec_format(whole, cmd) =~= s + spec_format(rest, cmd));
        }
    }
}

/// Rendering the synthesized template with a command name yields exactly the
/// plain usage line: the header, the command, then one ` <pattern: type>`
/// segment per parameter in declaration order, whatever braces the pattern
/// or type text holds.
pub proof fn lemma_template_renders_usage(params: Seq<Param>, cmd: Seq<char>)
    ensures
        spec_format(spec_template(params), cmd) == spec_usage_plain(params, cmd),
{
    reveal_strlit("USAGE:\n    {}");
    reveal_strlit("USAGE:\n    ");
    let header = ("USAGE:\n    ")@;
    let segs = spec_segments_plain(params);
    assert(("USAGE:\n    {}")@ =~= header + seq!['{', '}']);
    assert(brace_free(header));
    lemma_escape_identity(header);
    assert(spec_template(params) =~= spec_escape(header) + (seq!['{', '}'] + spec_escape(segs)));
    lemma_format_escaped(header, seq!['{', '}'] + spec_escape(segs), cmd);
    let after = seq!['{', '}'] + spec_escape(segs);
    assert(after[0] == '{' && after[1] == '}');
    assert(after.skip(2) =~= spec_escape(segs));
    lemma_format_escaped(segs, Seq::empty(), cmd);
    assert(spec_escape(segs) + Seq::<char>::empty() =~= spec_escape(segs));
    assert(segs + spec_format(Seq::empty(), cmd) =~= segs);
    assert(spec_format(after, cmd) =~= cmd + segs);
    assert(spec_format(spec_template(params), cmd) =~= header + (cmd + segs));
    assert(header + (cmd + segs) =~= spec_usage_plain(params, cmd));
}

/// Render a format template with the invoking command name.
pub fn format_usage(template: &str, cmd: &str) -> (r: String)
    ensures
        r@ == spec_format(template@, cmd@),
{
    let n = template.unicode_len();
    let mut out = String::new();
    let mut i: usize = 0;
    proof {
        assert(template@.skip(0) =~= template@);
        assert(Seq::<char>::empty() + spec_format(template@, cmd@) =~= spec_format(
            template@,
            cmd@,
        ));
    }
    while i < n
        invariant
            n == template@.len(),
            i <= n,
            spec_format(template@, cmd@) == out@ + spec_format(template@.skip(i as int), cmd@),
        decreases n - i,
    {
        let ghost rem = template@.skip(i as int);
        proof {
            assert(rem.len() == n - i);
            assert(rem[0] == template@[i as int]);
        }
        let c = template.get_char(i);
        let mut step: usize = 1;
        if (c == '{' || c == '}') && i + 1 < n {
            let c2 = template.get_char(i + 1);
            proof {
                assert(rem[1] == template@[i + 1]);
            }
            if c == '{' && c2 == '{' {
                out.append("{");
                step = 2;
                proof {
                    reveal_strlit("{");
                    assert(("{")@ =~= seq!['{']);
                }
            } else if c == '{' && c2 == '}' {
                out.append(cmd);
                step = 2;
            } else if c == '}' && c2 == '}' {
                out.append("}");
                step = 2;
                proof {
                    reveal_strlit("}");
                    assert(("}")@ =~= seq!['}']);
                }
            } else {
                let piece = template.substring_char(i, i + 1);
                out.append(piece);
                proof {
                    assert(piece@ =~= seq![template@[i as int]]);
                }
            }
        } else {
            let piece = template.substring_char(i, i + 1);
            out.append(piece);
            proof {
                assert(piece@ =~= seq![template@[i as int]]);
            }
        }
        proof {
            if step == 2 {
                assert(rem.skip(2) =~= template@.skip(i + 2));
            } else {
                assert(rem.skip(1) =~= template@.skip(i + 1));
            }
        }
        i += step;
    }
    proof {
        assert(template@.skip(n as int) =~= Seq::<char>::empty());
        assert(spec_format(Seq::<char>::empty(), cmd@) == Seq::<char>::empty());
        assert(out@ =~= spec_format(template@, cmd@));
    }
    out
}

/// Build the usage line for a parameter list and a command name, by
/// rendering the synthesized template.
pub fn usage_message(params: &Vec<Param>, cmd: &str) -> (r: String)
    ensures
        r@ == spec_usage_plain(params@, cmd@),
{
    let template = usage_template(params);
    let r = format_usage(template.as_str(), cmd);
    proof {
        lemma_template_renders_usage(params@, cmd@);
    }
    r
}

} // verus!
