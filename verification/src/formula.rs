//! The formula preprocessor: strip array braces and the leading
//! equals sign, and prefix dynamic-array and future functions with
//! their `_xlfn.` namespaces.

use crate::text::{spec_contains, spec_matches_at};
use vstd::prelude::*;
use vstd::string::*;

verus! {

/// Whether `c` is a word character for function-boundary purposes:
/// a letter, a digit or an underscore.
pub open spec fn spec_is_word_char(c: char) -> bool {
    ('a' <= c <= 'z') || ('A' <= c <= 'Z') || ('0' <= c <= '9') || c == '_'
}

/// Check whether `c` is a word character.
pub fn is_word_char(c: char) -> (r: bool)
    ensures
        r == spec_is_word_char(c),
{
    (c >= 'a' && c <= 'z') || (c >= 'A' && c <= 'Z') || (c >= '0' && c <= '9') || c == '_'
}

/// `s` with every whole-word occurrence of `name` followed by `(`
/// prefixed by `prefix`. `boundary` says whether a word may start at
/// the head of `s`.
pub open spec fn spec_prefix_function(
    s: Seq<char>,
    name: Seq<char>,
    prefix: Seq<char>,
    boundary: bool,
) -> Seq<char>
    decreases s.len(),
{
    if s.len() == 0 {
        s
    } else if boundary && name.len() < s.len() && spec_matches_at(s, name, 0) && s[name.len() as int]
        == '(' {
        prefix + name + seq!['('] + spec_prefix_function(
            s.skip(name.len() + 1 as int),
            name,
            prefix,
            true,
        )
    } else {
        seq![s.first()] + spec_prefix_function(
            s.drop_first(),
            name,
            prefix,
            !spec_is_word_char(s.first()),
        )
    }
}

/// Prefix every whole-word occurrence of `name` followed by `(`.
pub fn prefix_function(s: &str, name: &str, prefix: &str) -> (r: String)
    requires
        name@.len() >= 1,
    ensures
        r@ == spec_prefix_function(s@, name@, prefix@, true),
{
    let n = s.unicode_len();
    let m = name.unicode_len();
    let mut out = String::new();
    let mut i: usize = 0;
    let mut boundary = true;
    let ghost total = spec_prefix_function(s@, name@, prefix@, true);
    proof {
        assert(s@.skip(0) =~= s@);
        assert(Seq::<char>::empty() + total =~= total);
    }
    while i < n
        invariant
            i <= n,
            n == s@.len(),
            m == name@.len(),
            m >= 1,
            out@ + spec_prefix_function(s@.skip(i as int), name@, prefix@, boundary) == total,
            i > 0 ==> boundary == !spec_is_word_char(s@[i - 1]),
            i == 0 ==> boundary,
        decreases n - i,
    {
        let ghost tail = s@.skip(i as int);
        let hit = boundary && m < n - i && crate::text::starts_with_at(s, name, i) && s.get_char(
            i + m,
        ) == '(';
        proof {
            if boundary {
                assert((m < tail.len() && spec_matches_at(tail, name@, 0) && tail[m as int]
                    == '(') == (m < n - i && spec_matches_at(s@, name@, i as int) && s@[i + m]
                    == '(')) by {
                    if m < n - i {
                        assert(tail.subrange(0, m as int) =~= s@.subrange(i as int, i + m as int));
                        assert(tail[m as int] == s@[i + m]);
                    }
                }
            }
        }
        if hit {
            let ghost out0 = out@;
            out.append(prefix);
            out.append(name);
            out.append("(");
            proof {
                reveal_strlit("(");
                assert("("@ =~= seq!['(']);
                let rest = s@.skip(i + m + 1 as int);
                assert(tail.skip(m + 1 as int) =~= rest);
                crate::xmlwriter::lemma_shift(out0, prefix@, name@);
                crate::xmlwriter::lemma_shift(out0, prefix@ + name@, seq!['(']);
                crate::xmlwriter::lemma_shift(
                    out0,
                    prefix@ + name@ + seq!['('],
                    spec_prefix_function(rest, name@, prefix@, true),
                );
            }
            i = i + m + 1;
            boundary = true;
        } else {
            let c = s.get_char(i);
            let ghost out0 = out@;
            crate::render::push_char(&mut out, c);
            let wc = is_word_char(c);
            proof {
                let rest = s@.skip(i + 1 as int);
                assert(tail.first() == s@[i as int]);
                assert(tail.drop_first() =~= rest);
                assert(seq![s@[i as int]] =~= Seq::<char>::empty().push(s@[i as int]));
                crate::xmlwriter::lemma_shift(out0, seq![s@[i as int]], spec_prefix_function(
                    rest,
                    name@,
                    prefix@,
                    !spec_is_word_char(s@[i as int]),
                ));
            }
            i = i + 1;
            boundary = !wc;
        }
    }
    proof {
        assert(s@.skip(n as int) =~= Seq::<char>::empty());
        crate::xmlwriter::lemma_append_empty(out@);
    }
    out
}

/// Whether `s` holds a whole-word call of `name`.
pub open spec fn spec_has_function(s: Seq<char>, name: Seq<char>) -> bool {
    exists|i: int|
        #![trigger spec_matches_at(s, name, i)]
        spec_matches_at(s, name, i) && i + name.len() < s.len() && s[i + name.len()] == '(' && (i
            == 0 || !spec_is_word_char(s[i - 1]))
}

/// Check whether `s` holds a whole-word call of `name`.
pub fn has_function(s: &str, name: &str) -> (r: bool)
    ensures
        r == spec_has_function(s@, name@),
{
    let n = s.unicode_len();
    let m = name.unicode_len();
    let mut i: usize = 0;
    let mut boundary = true;
    while i < n
        invariant
            i <= n,
            n == s@.len(),
            m == name@.len(),
            forall|t: int|
                #![trigger spec_matches_at(s@, name@, t)]
                0 <= t < i ==> !(spec_matches_at(s@, name@, t) && t + m < n && s@[t + m] == '('
                    && (t == 0 || !spec_is_word_char(s@[t - 1]))),
            i > 0 ==> boundary == !spec_is_word_char(s@[i - 1]),
            i == 0 ==> boundary,
        decreases n - i,
    {
        if boundary && m < n - i && crate::text::starts_with_at(s, name, i) && s.get_char(i + m)
            == '(' {
            return true;
        }
        let c = s.get_char(i);
        boundary = !is_word_char(c);
        i = i + 1;
    }
    proof {
        if spec_has_function(s@, name@) {
            let w = choose|w: int|
                #![trigger spec_matches_at(s@, name@, w)]
                spec_matches_at(s@, name@, w) && w + name@.len() < s@.len() && s@[w + name@.len()]
                    == '(' && (w == 0 || !spec_is_word_char(s@[w - 1]));
            assert(!spec_matches_at(s@, name@, w));
        }
    }
    false
}

/// The passes that prefix dynamic-array functions: ten `_xlfn.`
/// names, then the two worksheet-scoped `_xlfn._xlws.` names.
pub open spec fn spec_dynamic_passes() -> Seq<(Seq<char>, Seq<char>)> {
    seq![
        ("ANCHORARRAY"@, "_xlfn."@),
        ("LAMBDA"@, "_xlfn."@),
        ("LET"@, "_xlfn."@),
        ("RANDARRAY"@, "_xlfn."@),
        ("SEQUENCE"@, "_xlfn."@),
        ("SINGLE"@, "_xlfn."@),
        ("SORTBY"@, "_xlfn."@),
        ("UNIQUE"@, "_xlfn."@),
        ("XLOOKUP"@, "_xlfn."@),
        ("XMATCH"@, "_xlfn."@),
        ("FILTER"@, "_xlfn._xlws."@),
        ("SORT"@, "_xlfn._xlws."@),
    ]
}

/// Part 1 of the passes that prefix the Excel 2010+ future
/// functions.
pub open spec fn spec_future_passes_1() -> Seq<(Seq<char>, Seq<char>)> {
    seq![
        ("ACOTH"@, "_xlfn."@),
        ("ACOT"@, "_xlfn."@),
        ("AGGREGATE"@, "_xlfn."@),
        ("ARABIC"@, "_xlfn."@),
        ("BASE"@, "_xlfn."@),
        ("BETA.DIST"@, "_xlfn."@),
        ("BETA.INV"@, "_xlfn."@),
        ("BINOM.DIST.RANGE"@, "_xlfn."@),
        ("BINOM.DIST"@, "_xlfn."@),
        ("BINOM.INV"@, "_xlfn."@),
        ("BITAND"@, "_xlfn."@),
        ("BITLSHIFT"@, "_xlfn."@),
        ("BITOR"@, "_xlfn."@),
        ("BITRSHIFT"@, "_xlfn."@),
        ("BITXOR"@, "_xlfn."@),
        ("CEILING.MATH"@, "_xlfn."@),
        ("CEILING.PRECISE"@, "_xlfn."@),
        ("CHISQ.DIST.RT"@, "_xlfn."@),
        ("CHISQ.DIST"@, "_xlfn."@),
        ("CHISQ.INV.RT"@, "_xlfn."@),
        ("CHISQ.INV"@, "_xlfn."@),
        ("CHISQ.TEST"@, "_xlfn."@),
        ("COMBINA"@, "_xlfn."@),
        ("CONCAT"@, "_xlfn."@),
        ("CONFIDENCE.NORM"@, "_xlfn."@),
        ("CONFIDENCE.T"@, "_xlfn."@),
        ("COTH"@, "_xlfn."@),
        ("COT"@, "_xlfn."@),
        ("COVARIANCE.P"@, "_xlfn."@),
        ("COVARIANCE.S"@, "_xlfn."@),
        ("CSCH"@, "_xlfn."@),
        ("CSC"@, "_xlfn."@),
        ("DAYS"@, "_xlfn."@),
        ("DECIMAL"@, "_xlfn."@),
        ("ERF.PRECISE"@, "_xlfn."@),
        ("ERFC.PRECISE"@, "_xlfn."@),
        ("EXPON.DIST"@, "_xlfn."@),
        ("F.DIST.RT"@, "_xlfn."@),
        ("F.DIST"@, "_xlfn."@),
        ("F.INV.RT"@, "_xlfn."@),
    ]
}

/// Part 2 of the passes that prefix the Excel 2010+ future
/// functions.
pub open spec fn spec_future_passes_2() -> Seq<(Seq<char>, Seq<char>)> {
    seq![
        ("F.INV"@, "_xlfn."@),
        ("F.TEST"@, "_xlfn."@),
        ("FILTERXML"@, "_xlfn."@),
        ("FLOOR.MATH"@, "_xlfn."@),
        ("FLOOR.PRECISE"@, "_xlfn."@),
        ("FORECAST.ETS.CONFINT"@, "_xlfn."@),
        ("FORECAST.ETS.SEASONALITY"@, "_xlfn."@),
        ("FORECAST.ETS.STAT"@, "_xlfn."@),
        ("FORECAST.ETS"@, "_xlfn."@),
        ("FORECAST.LINEAR"@, "_xlfn."@),
        ("FORMULATEXT"@, "_xlfn."@),
        ("GAMMA.DIST"@, "_xlfn."@),
        ("GAMMA.INV"@, "_xlfn."@),
        ("GAMMALN.PRECISE"@, "_xlfn."@),
        ("GAMMA"@, "_xlfn."@),
        ("GAUSS"@, "_xlfn."@),
        ("HYPGEOM.DIST"@, "_xlfn."@),
        ("IFNA"@, "_xlfn."@),
        ("IFS"@, "_xlfn."@),
        ("IMCOSH"@, "_xlfn."@),
        ("IMCOT"@, "_xlfn."@),
        ("IMCSCH"@, "_xlfn."@),
        ("IMCSC"@, "_xlfn."@),
        ("IMSECH"@, "_xlfn."@),
        ("IMSEC"@, "_xlfn."@),
        ("IMSINH"@, "_xlfn."@),
        ("IMTAN"@, "_xlfn."@),
        ("ISFORMULA"@, "_xlfn."@),
        ("ISOWEEKNUM"@, "_xlfn."@),
        ("LOGNORM.DIST"@, "_xlfn."@),
        ("LOGNORM.INV"@, "_xlfn."@),
        ("MAXIFS"@, "_xlfn."@),
        ("MINIFS"@, "_xlfn."@),
        ("MODE.MULT"@, "_xlfn."@),
        ("MODE.SNGL"@, "_xlfn."@),
        ("MUNIT"@, "_xlfn."@),
        ("NEGBINOM.DIST"@, "_xlfn."@),
        ("NORM.DIST"@, "_xlfn."@),
        ("NORM.INV"@, "_xlfn."@),
        ("NORM.S.DIST"@, "_xlfn."@),
    ]
}

/// Part 3 of the passes that prefix the Excel 2010+ future
/// functions.
pub open spec fn spec_future_passes_3() -> Seq<(Seq<char>, Seq<char>)> {
    seq![
        ("NORM.S.INV"@, "_xlfn."@),
        ("NUMBERVALUE"@, "_xlfn."@),
        ("PDURATION"@, "_xlfn."@),
        ("PERCENTILE.EXC"@, "_xlfn."@),
        ("PERCENTILE.INC"@, "_xlfn."@),
        ("PERCENTRANK.EXC"@, "_xlfn."@),
        ("PERCENTRANK.INC"@, "_xlfn."@),
        ("PERMUTATIONA"@, "_xlfn."@),
        ("PHI"@, "_xlfn."@),
        ("POISSON.DIST"@, "_xlfn."@),
        ("QUARTILE.EXC"@, "_xlfn."@),
        ("QUARTILE.INC"@, "_xlfn."@),
        ("QUERYSTRING"@, "_xlfn."@),
        ("RANK.AVG"@, "_xlfn."@),
        ("RANK.EQ"@, "_xlfn."@),
        ("RRI"@, "_xlfn."@),
        ("SECH"@, "_xlfn."@),
        ("SEC"@, "_xlfn."@),
        ("SHEETS"@, "_xlfn."@),
        ("SHEET"@, "_xlfn."@),
        ("SKEW.P"@, "_xlfn."@),
        ("STDEV.P"@, "_xlfn."@),
        ("STDEV.S"@, "_xlfn."@),
        ("SWITCH"@, "_xlfn."@),
        ("T.DIST.2T"@, "_xlfn."@),
        ("T.DIST.RT"@, "_xlfn."@),
        ("T.DIST"@, "_xlfn."@),
        ("T.INV.2T"@, "_xlfn."@),
        ("T.INV"@, "_xlfn."@),
        ("T.TEST"@, "_xlfn."@),
        ("TEXTJOIN"@, "_xlfn."@),
        ("UNICHAR"@, "_xlfn."@),
        ("UNICODE"@, "_xlfn."@),
        ("VAR.P"@, "_xlfn."@),
        ("VAR.S"@, "_xlfn."@),
        ("WEBSERVICE"@, "_xlfn."@),
        ("WEIBULL.DIST"@, "_xlfn."@),
        ("XOR"@, "_xlfn."@),
        ("Z.TEST"@, "_xlfn."@),
    ]
}

/// A pass list whose every prefix begins with `_xlfn.` and whose
/// names are not empty.
pub open spec fn spec_passes_wf(passes: Seq<(Seq<char>, Seq<char>)>) -> bool {
    forall|i: int|
        0 <= i < passes.len() ==> crate::text::spec_starts_with(
            (#[trigger] passes[i]).1,
            "_xlfn."@,
        ) && passes[i].0.len() >= 1
}

/// `s` after applying each pass in order.
pub open spec fn spec_apply_passes(s: Seq<char>, passes: Seq<(Seq<char>, Seq<char>)>) -> Seq<char>
    decreases passes.len(),
{
    if passes.len() == 0 {
        s
    } else {
        spec_prefix_function(
            spec_apply_passes(s, passes.drop_last()),
            passes.last().0,
            passes.last().1,
            true,
        )
    }
}

/// Apply a list of function-prefixing passes in order.
fn apply_passes(s: &str, passes: &Vec<(&str, &str)>) -> (r: String)
    requires
        forall|i: int| 0 <= i < passes@.len() ==> (#[trigger] passes@[i]).0@.len() >= 1,
    ensures
        r@ == spec_apply_passes(s@, passes.deep_view()),
{
    let mut cur = String::from_str(s);
    let n = passes.len();
    let mut i: usize = 0;
    proof {
        assert(passes.deep_view().subrange(0, 0) =~= Seq::<(Seq<char>, Seq<char>)>::empty());
    }
    while i < n
        invariant
            i <= n,
            n == passes@.len(),
            forall|j: int| 0 <= j < passes@.len() ==> (#[trigger] passes@[j]).0@.len() >= 1,
            cur@ == spec_apply_passes(s@, passes.deep_view().subrange(0, i as int)),
        decreases n - i,
    {
        let next = prefix_function(cur.as_str(), passes[i].0, passes[i].1);
        proof {
            let dv = passes.deep_view();
            let pre = dv.subrange(0, i as int);
            let post = dv.subrange(0, i + 1 as int);
            assert(post.drop_last() =~= pre);
            assert(post.last() == dv[i as int]);
            assert(dv[i as int].0 == passes@[i as int].0@);
            assert(dv[i as int].1 == passes@[i as int].1@);
        }
        cur = next;
        i = i + 1;
    }
    proof {
        assert(passes.deep_view().subrange(0, n as int) =~= passes.deep_view());
    }
    cur
}

/// The dynamic-array passes as a runtime list.
#[verifier::spinoff_prover]
#[verifier::rlimit(100)]
fn dynamic_passes() -> (r: Vec<(&'static str, &'static str)>)
    ensures
        r.deep_view() == spec_dynamic_passes(),
        forall|i: int| 0 <= i < r@.len() ==> (#[trigger] r@[i]).0@.len() >= 1,
{
    let mut passes: Vec<(&'static str, &'static str)> = Vec::new();
    passes.push(("ANCHORARRAY", "_xlfn."));
    passes.push(("LAMBDA", "_xlfn."));
    passes.push(("LET", "_xlfn."));
    passes.push(("RANDARRAY", "_xlfn."));
    passes.push(("SEQUENCE", "_xlfn."));
    passes.push(("SINGLE", "_xlfn."));
    passes.push(("SORTBY", "_xlfn."));
    passes.push(("UNIQUE", "_xlfn."));
    passes.push(("XLOOKUP", "_xlfn."));
    passes.push(("XMATCH", "_xlfn."));
    passes.push(("FILTER", "_xlfn._xlws."));
    passes.push(("SORT", "_xlfn._xlws."));
    proof {
        assert(passes.deep_view() =~= spec_dynamic_passes());
        assert forall|i: int| 0 <= i < passes@.len() implies (#[trigger] passes@[i]).0@.len()
            >= 1 by {
            lemma_pass_names_nonempty();
            assert(passes.deep_view()[i].0 == passes@[i].0@);
        }
    }
    passes
}

/// Part 1 of the future-function passes as a runtime list.
#[verifier::spinoff_prover]
#[verifier::rlimit(100)]
fn future_passes_1() -> (r: Vec<(&'static str, &'static str)>)
    ensures
        r.deep_view() == spec_future_passes_1(),
        forall|i: int| 0 <= i < r@.len() ==> (#[trigger] r@[i]).0@.len() >= 1,
{
    let mut passes: Vec<(&'static str, &'static str)> = Vec::new();
    passes.push(("ACOTH", "_xlfn."));
    passes.push(("ACOT", "_xlfn."));
    passes.push(("AGGREGATE", "_xlfn."));
    passes.push(("ARABIC", "_xlfn."));
    passes.push(("BASE", "_xlfn."));
    passes.push(("BETA.DIST", "_xlfn."));
    passes.push(("BETA.INV", "_xlfn."));
    passes.push(("BINOM.DIST.RANGE", "_xlfn."));
    passes.push(("BINOM.DIST", "_xlfn."));
    passes.push(("BINOM.INV", "_xlfn."));
    passes.push(("BITAND", "_xlfn."));
    passes.push(("BITLSHIFT", "_xlfn."));
    passes.push(("BITOR", "_xlfn."));
    passes.push(("BITRSHIFT", "_xlfn."));
    passes.push(("BITXOR", "_xlfn."));
    passes.push(("CEILING.MATH", "_xlfn."));
    passes.push(("CEILING.PRECISE", "_xlfn."));
    passes.push(("CHISQ.DIST.RT", "_xlfn."));
    passes.push(("CHISQ.DIST", "_xlfn."));
    passes.push(("CHISQ.INV.RT", "_xlfn."));
    passes.push(("CHISQ.INV", "_xlfn."));
    passes.push(("CHISQ.TEST", "_xlfn."));
    passes.push(("COMBINA", "_xlfn."));
    passes.push(("CONCAT", "_xlfn."));
    passes.push(("CONFIDENCE.NORM", "_xlfn."));
    passes.push(("CONFIDENCE.T", "_xlfn."));
    passes.push(("COTH", "_xlfn."));
    passes.push(("COT", "_xlfn."));
    passes.push(("COVARIANCE.P", "_xlfn."));
    passes.push(("COVARIANCE.S", "_xlfn."));
    passes.push(("CSCH", "_xlfn."));
    passes.push(("CSC", "_xlfn."));
    passes.push(("DAYS", "_xlfn."));
    passes.push(("DECIMAL", "_xlfn."));
    passes.push(("ERF.PRECISE", "_xlfn."));
    passes.push(("ERFC.PRECISE", "_xlfn."));
    passes.push(("EXPON.DIST", "_xlfn."));
    passes.push(("F.DIST.RT", "_xlfn."));
    passes.push(("F.DIST", "_xlfn."));
    passes.push(("F.INV.RT", "_xlfn."));
    proof {
        assert(passes.deep_view() =~= spec_future_passes_1());
        assert forall|i: int| 0 <= i < passes@.len() implies (#[trigger] passes@[i]).0@.len()
            >= 1 by {
            lemma_pass_names_nonempty();
            assert(passes.deep_view()[i].0 == passes@[i].0@);
        }
    }
    passes
}

/// Part 2 of the future-function passes as a runtime list.
#[verifier::spinoff_prover]
#[verifier::rlimit(100)]
fn future_passes_2() -> (r: Vec<(&'static str, &'static str)>)
    ensures
        r.deep_view() == spec_future_passes_2(),
        forall|i: int| 0 <= i < r@.len() ==> (#[trigger] r@[i]).0@.len() >= 1,
{
    let mut passes: Vec<(&'static str, &'static str)> = Vec::new();
    passes.push(("F.INV", "_xlfn."));
    passes.push(("F.TEST", "_xlfn."));
    passes.push(("FILTERXML", "_xlfn."));
    passes.push(("FLOOR.MATH", "_xlfn."));
    passes.push(("FLOOR.PRECISE", "_xlfn."));
    passes.push(("FORECAST.ETS.CONFINT", "_xlfn."));
    passes.push(("FORECAST.ETS.SEASONALITY", "_xlfn."));
    passes.push(("FORECAST.ETS.STAT", "_xlfn."));
    passes.push(("FORECAST.ETS", "_xlfn."));
    passes.push(("FORECAST.LINEAR", "_xlfn."));
    passes.push(("FORMULATEXT", "_xlfn."));
    passes.push(("GAMMA.DIST", "_xlfn."));
    passes.push(("GAMMA.INV", "_xlfn."));
    passes.push(("GAMMALN.PRECISE", "_xlfn."));
    passes.push(("GAMMA", "_xlfn."));
    passes.push(("GAUSS", "_xlfn."));
    passes.push(("HYPGEOM.DIST", "_xlfn."));
    passes.push(("IFNA", "_xlfn."));
    passes.push(("IFS", "_xlfn."));
    passes.push(("IMCOSH", "_xlfn."));
    passes.push(("IMCOT", "_xlfn."));
    passes.push(("IMCSCH", "_xlfn."));
    passes.push(("IMCSC", "_xlfn."));
    passes.push(("IMSECH", "_xlfn."));
    passes.push(("IMSEC", "_xlfn."));
    passes.push(("IMSINH", "_xlfn."));
    passes.push(("IMTAN", "_xlfn."));
    passes.push(("ISFORMULA", "_xlfn."));
    passes.push(("ISOWEEKNUM", "_xlfn."));
    passes.push(("LOGNORM.DIST", "_xlfn."));
    passes.push(("LOGNORM.INV", "_xlfn."));
    passes.push(("MAXIFS", "_xlfn."));
    passes.push(("MINIFS", "_xlfn."));
    passes.push(("MODE.MULT", "_xlfn."));
    passes.push(("MODE.SNGL", "_xlfn."));
    passes.push(("MUNIT", "_xlfn."));
    passes.push(("NEGBINOM.DIST", "_xlfn."));
    passes.push(("NORM.DIST", "_xlfn."));
    passes.push(("NORM.INV", "_xlfn."));
    passes.push(("NORM.S.DIST", "_xlfn."));
    proof {
        assert(passes.deep_view() =~= spec_future_passes_2());
        assert forall|i: int| 0 <= i < passes@.len() implies (#[trigger] passes@[i]).0@.len()
            >= 1 by {
            lemma_pass_names_nonempty();
            assert(passes.deep_view()[i].0 == passes@[i].0@);
        }
    }
    passes
}

/// Part 3 of the future-function passes as a runtime list.
#[verifier::spinoff_prover]
#[verifier::rlimit(100)]
fn future_passes_3() -> (r: Vec<(&'static str, &'static str)>)
    ensures
        r.deep_view() == spec_future_passes_3(),
        forall|i: int| 0 <= i < r@.len() ==> (#[trigger] r@[i]).0@.len() >= 1,
{
    let mut passes: Vec<(&'static str, &'static str)> = Vec::new();
    passes.push(("NORM.S.INV", "_xlfn."));
    passes.push(("NUMBERVALUE", "_xlfn."));
    passes.push(("PDURATION", "_xlfn."));
    passes.push(("PERCENTILE.EXC", "_xlfn."));
    passes.push(("PERCENTILE.INC", "_xlfn."));
    passes.push(("PERCENTRANK.EXC", "_xlfn."));
    passes.push(("PERCENTRANK.INC", "_xlfn."));
    passes.push(("PERMUTATIONA", "_xlfn."));
    passes.push(("PHI", "_xlfn."));
    passes.push(("POISSON.DIST", "_xlfn."));
    passes.push(("QUARTILE.EXC", "_xlfn."));
    passes.push(("QUARTILE.INC", "_xlfn."));
    passes.push(("QUERYSTRING", "_xlfn."));
    passes.push(("RANK.AVG", "_xlfn."));
    passes.push(("RANK.EQ", "_xlfn."));
    passes.push(("RRI", "_xlfn."));
    passes.push(("SECH", "_xlfn."));
    passes.push(("SEC", "_xlfn."));
    passes.push(("SHEETS", "_xlfn."));
    passes.push(("SHEET", "_xlfn."));
    passes.push(("SKEW.P", "_xlfn."));
    passes.push(("STDEV.P", "_xlfn."));
    passes.push(("STDEV.S", "_xlfn."));
    passes.push(("SWITCH", "_xlfn."));
    passes.push(("T.DIST.2T", "_xlfn."));
    passes.push(("T.DIST.RT", "_xlfn."));
    passes.push(("T.DIST", "_xlfn."));
    passes.push(("T.INV.2T", "_xlfn."));
    passes.push(("T.INV", "_xlfn."));
    passes.push(("T.TEST", "_xlfn."));
    passes.push(("TEXTJOIN", "_xlfn."));
    passes.push(("UNICHAR", "_xlfn."));
    passes.push(("UNICODE", "_xlfn."));
    passes.push(("VAR.P", "_xlfn."));
    passes.push(("VAR.S", "_xlfn."));
    passes.push(("WEBSERVICE", "_xlfn."));
    passes.push(("WEIBULL.DIST", "_xlfn."));
    passes.push(("XOR", "_xlfn."));
    passes.push(("Z.TEST", "_xlfn."));
    proof {
        assert(passes.deep_view() =~= spec_future_passes_3());
        assert forall|i: int| 0 <= i < passes@.len() implies (#[trigger] passes@[i]).0@.len()
            >= 1 by {
            lemma_pass_names_nonempty();
            assert(passes.deep_view()[i].0 == passes@[i].0@);
        }
    }
    passes
}

/// Every pass name is non-empty and every pass prefix starts with
/// `_xlfn.`.
pub proof fn lemma_pass_names_nonempty()
    ensures
        spec_passes_wf(spec_dynamic_passes()),
        spec_passes_wf(spec_future_passes_1()),
        spec_passes_wf(spec_future_passes_2()),
        spec_passes_wf(spec_future_passes_3()),
        forall|i: int|
            0 <= i < spec_dynamic_passes().len() ==> (#[trigger] spec_dynamic_passes()[i]).0.len()
                >= 1,
        forall|i: int|
            0 <= i < spec_future_passes_1().len() ==> (#[trigger] spec_future_passes_1()[i]).0.len() >= 1,
        forall|i: int|
            0 <= i < spec_future_passes_2().len() ==> (#[trigger] spec_future_passes_2()[i]).0.len() >= 1,
        forall|i: int|
            0 <= i < spec_future_passes_3().len() ==> (#[trigger] spec_future_passes_3()[i]).0.len() >= 1,
{
    lemma_pass_list_facts();
}

/// `s` with a leading array brace, a leading equals sign and a
/// trailing array brace removed.
pub open spec fn spec_strip(s: Seq<char>) -> Seq<char> {
    let a = if s.len() > 0 && s[0] == '{' {
        s.drop_first()
    } else {
        s
    };
    let b = if a.len() > 0 && a[0] == '=' {
        a.drop_first()
    } else {
        a
    };
    if b.len() > 0 && b.last() == '}' {
        b.drop_last()
    } else {
        b
    }
}

/// Strip the array braces and leading equals sign of a formula.
fn strip_formula(s: &str) -> (r: String)
    ensures
        r@ == spec_strip(s@),
{
    let n = s.unicode_len();
    let mut from: usize = 0;
    if from < n && s.get_char(from) == '{' {
        from = from + 1;
    }
    if from < n && s.get_char(from) == '=' {
        from = from + 1;
    }
    let mut to: usize = n;
    if to > from && s.get_char(to - 1) == '}' {
        to = to - 1;
    }
    let r = String::from_str(s.substring_char(from, to));
    proof {
        assert(r@ =~= spec_strip(s@));
    }
    r
}

/// The canonical form of a formula: stripped, and with dynamic and
/// future functions prefixed unless it already holds `_xlfn.`.
pub open spec fn spec_prepare(s: Seq<char>, expand_future: bool) -> Seq<char> {
    let t = spec_strip(s);
    if spec_contains(t, "_xlfn."@) {
        t
    } else {
        let d = spec_apply_passes(t, spec_dynamic_passes());
        if expand_future {
            spec_apply_passes(
                spec_apply_passes(
                    spec_apply_passes(d, spec_future_passes_1()),
                    spec_future_passes_2(),
                ),
                spec_future_passes_3(),
            )
        } else {
            d
        }
    }
}

/// Strip a formula and expand dynamic-array functions, and future
/// functions when asked, unless the formula already holds `_xlfn.`.
pub fn prepare_formula(formula: &str, expand_future_functions: bool) -> (r: String)
    ensures
        r@ == spec_prepare(formula@, expand_future_functions),
{
    let stripped = strip_formula(formula);
    if crate::text::contains_str(stripped.as_str(), "_xlfn.") {
        return stripped;
    }
    let dynpasses = dynamic_passes();
    let d = apply_passes(stripped.as_str(), &dynpasses);
    if expand_future_functions {
        let fut1 = future_passes_1();
        let f1 = apply_passes(d.as_str(), &fut1);
        let fut2 = future_passes_2();
        let f2 = apply_passes(f1.as_str(), &fut2);
        let fut3 = future_passes_3();
        apply_passes(f2.as_str(), &fut3)
    } else {
        d
    }
}

/// Whether a formula calls one of the dynamic-array functions.
pub open spec fn spec_is_dynamic_function(s: Seq<char>) -> bool {
    spec_has_function(s, "ANCHORARRAY"@)
        || spec_has_function(s, "FILTER"@)
        || spec_has_function(s, "LAMBDA"@)
        || spec_has_function(s, "LET"@)
        || spec_has_function(s, "RANDARRAY"@)
        || spec_has_function(s, "SEQUENCE"@)
        || spec_has_function(s, "SINGLE"@)
        || spec_has_function(s, "SORTBY"@)
        || spec_has_function(s, "SORT"@)
        || spec_has_function(s, "UNIQUE"@)
        || spec_has_function(s, "XLOOKUP"@)
        || spec_has_function(s, "XMATCH"@)
}

/// Check whether a formula calls a dynamic-array function.
pub fn is_dynamic_function(formula: &str) -> (r: bool)
    ensures
        r == spec_is_dynamic_function(formula@),
{
    has_function(formula, "ANCHORARRAY")
        || has_function(formula, "FILTER")
        || has_function(formula, "LAMBDA")
        || has_function(formula, "LET")
        || has_function(formula, "RANDARRAY")
        || has_function(formula, "SEQUENCE")
        || has_function(formula, "SINGLE")
        || has_function(formula, "SORTBY")
        || has_function(formula, "SORT")
        || has_function(formula, "UNIQUE")
        || has_function(formula, "XLOOKUP")
        || has_function(formula, "XMATCH")
}

/// The literal facts about the pass lists: every prefix begins with
/// `_xlfn.` and every name is at least one character.
#[verifier::spinoff_prover]
#[verifier::rlimit(100)]
proof fn lemma_pass_list_facts()
    ensures
        spec_passes_wf(spec_dynamic_passes()),
        spec_passes_wf(spec_future_passes_1()),
        spec_passes_wf(spec_future_passes_2()),
        spec_passes_wf(spec_future_passes_3()),
        forall|i: int|
            0 <= i < spec_dynamic_passes().len() ==> (#[trigger] spec_dynamic_passes()[i]).0.len()
                >= 1,
        forall|i: int|
            0 <= i < spec_future_passes_1().len() ==> (#[trigger] spec_future_passes_1()[i]).0.len() >= 1,
        forall|i: int|
            0 <= i < spec_future_passes_2().len() ==> (#[trigger] spec_future_passes_2()[i]).0.len() >= 1,
        forall|i: int|
            0 <= i < spec_future_passes_3().len() ==> (#[trigger] spec_future_passes_3()[i]).0.len() >= 1,
{
    reveal_strlit("_xlfn.");
    reveal_strlit("_xlfn._xlws.");
    reveal_strlit("ANCHORARRAY");
    reveal_strlit("LAMBDA");
    reveal_strlit("LET");
    reveal_strlit("RANDARRAY");
    reveal_strlit("SEQUENCE");
    reveal_strlit("SINGLE");
    reveal_strlit("SORTBY");
    reveal_strlit("UNIQUE");
    reveal_strlit("XLOOKUP");
    reveal_strlit("XMATCH");
    reveal_strlit("FILTER");
    reveal_strlit("SORT");
    reveal_strlit("ACOTH");
    reveal_strlit("ACOT");
    reveal_strlit("AGGREGATE");
    reveal_strlit("ARABIC");
    reveal_strlit("BASE");
    reveal_strlit("BETA.DIST");
    reveal_strlit("BETA.INV");
    reveal_strlit("BINOM.DIST.RANGE");
    reveal_strlit("BINOM.DIST");
    reveal_strlit("BINOM.INV");
    reveal_strlit("BITAND");
    reveal_strlit("BITLSHIFT");
    reveal_strlit("BITOR");
    reveal_strlit("BITRSHIFT");
    reveal_strlit("BITXOR");
    reveal_strlit("CEILING.MATH");
    reveal_strlit("CEILING.PRECISE");
    reveal_strlit("CHISQ.DIST.RT");
    reveal_strlit("CHISQ.DIST");
    reveal_strlit("CHISQ.INV.RT");
    reveal_strlit("CHISQ.INV");
    reveal_strlit("CHISQ.TEST");
    reveal_strlit("COMBINA");
    reveal_strlit("CONCAT");
    reveal_strlit("CONFIDENCE.NORM");
    reveal_strlit("CONFIDENCE.T");
    reveal_strlit("COTH");
    reveal_strlit("COT");
    reveal_strlit("COVARIANCE.P");
    reveal_strlit("COVARIANCE.S");
    reveal_strlit("CSCH");
    reveal_strlit("CSC");
    reveal_strlit("DAYS");
    reveal_strlit("DECIMAL");
    reveal_strlit("ERF.PRECISE");
    reveal_strlit("ERFC.PRECISE");
    reveal_strlit("EXPON.DIST");
    reveal_strlit("F.DIST.RT");
    reveal_strlit("F.DIST");
    reveal_strlit("F.INV.RT");
    reveal_strlit("F.INV");
    reveal_strlit("F.TEST");
    reveal_strlit("FILTERXML");
    reveal_strlit("FLOOR.MATH");
    reveal_strlit("FLOOR.PRECISE");
    reveal_strlit("FORECAST.ETS.CONFINT");
    reveal_strlit("FORECAST.ETS.SEASONALITY");
    reveal_strlit("FORECAST.ETS.STAT");
    reveal_strlit("FORECAST.ETS");
    reveal_strlit("FORECAST.LINEAR");
    reveal_strlit("FORMULATEXT");
    reveal_strlit("GAMMA.DIST");
    reveal_strlit("GAMMA.INV");
    reveal_strlit("GAMMALN.PRECISE");
    reveal_strlit("GAMMA");
    reveal_strlit("GAUSS");
    reveal_strlit("HYPGEOM.DIST");
    reveal_strlit("IFNA");
    reveal_strlit("IFS");
    reveal_strlit("IMCOSH");
    reveal_strlit("IMCOT");
    reveal_strlit("IMCSCH");
    reveal_strlit("IMCSC");
    reveal_strlit("IMSECH");
    reveal_strlit("IMSEC");
    reveal_strlit("IMSINH");
    reveal_strlit("IMTAN");
    reveal_strlit("ISFORMULA");
    reveal_strlit("ISOWEEKNUM");
    reveal_strlit("LOGNORM.DIST");
    reveal_strlit("LOGNORM.INV");
    reveal_strlit("MAXIFS");
    reveal_strlit("MINIFS");
    reveal_strlit("MODE.MULT");
    reveal_strlit("MODE.SNGL");
    reveal_strlit("MUNIT");
    reveal_strlit("NEGBINOM.DIST");
    reveal_strlit("NORM.DIST");
    reveal_strlit("NORM.INV");
    reveal_strlit("NORM.S.DIST");
    reveal_strlit("NORM.S.INV");
    reveal_strlit("NUMBERVALUE");
    reveal_strlit("PDURATION");
    reveal_strlit("PERCENTILE.EXC");
    reveal_strlit("PERCENTILE.INC");
    reveal_strlit("PERCENTRANK.EXC");
    reveal_strlit("PERCENTRANK.INC");
    reveal_strlit("PERMUTATIONA");
    reveal_strlit("PHI");
    reveal_strlit("POISSON.DIST");
    reveal_strlit("QUARTILE.EXC");
    reveal_strlit("QUARTILE.INC");
    reveal_strlit("QUERYSTRING");
    reveal_strlit("RANK.AVG");
    reveal_strlit("RANK.EQ");
    reveal_strlit("RRI");
    reveal_strlit("SECH");
    reveal_strlit("SEC");
    reveal_strlit("SHEETS");
    reveal_strlit("SHEET");
    reveal_strlit("SKEW.P");
    reveal_strlit("STDEV.P");
    reveal_strlit("STDEV.S");
    reveal_strlit("SWITCH");
    reveal_strlit("T.DIST.2T");
    reveal_strlit("T.DIST.RT");
    reveal_strlit("T.DIST");
    reveal_strlit("T.INV.2T");
    reveal_strlit("T.INV");
    reveal_strlit("T.TEST");
    reveal_strlit("TEXTJOIN");
    reveal_strlit("UNICHAR");
    reveal_strlit("UNICODE");
    reveal_strlit("VAR.P");
    reveal_strlit("VAR.S");
    reveal_strlit("WEBSERVICE");
    reveal_strlit("WEIBULL.DIST");
    reveal_strlit("XOR");
    reveal_strlit("Z.TEST");
    assert(crate::text::spec_starts_with("_xlfn."@, "_xlfn."@)) by {
        assert(("_xlfn."@).subrange(0, 6) =~= "_xlfn."@);
    }
    assert(crate::text::spec_starts_with("_xlfn._xlws."@, "_xlfn."@)) by {
        assert(("_xlfn._xlws."@).subrange(0, 6) =~= "_xlfn."@);
    }
}

/// A contained needle survives prepending one character.
proof fn lemma_contains_cons(c: char, s: Seq<char>, t: Seq<char>)
    requires
        spec_contains(s, t),
    ensures
        spec_contains(seq![c] + s, t),
{
    let i = choose|i: int| spec_matches_at(s, t, i);
    assert(spec_matches_at(seq![c] + s, t, i + 1)) by {
        assert((seq![c] + s).subrange(i + 1, i + 1 + t.len() as int) =~= s.subrange(
            i,
            i + t.len() as int,
        ));
    }
}

/// A changed prefixing pass leaves `_xlfn.` in its output.
proof fn lemma_pass_changed_contains(
    s: Seq<char>,
    name: Seq<char>,
    prefix: Seq<char>,
    boundary: bool,
)
    requires
        crate::text::spec_starts_with(prefix, "_xlfn."@),
        spec_prefix_function(s, name, prefix, boundary) != s,
    ensures
        spec_contains(spec_prefix_function(s, name, prefix, boundary), "_xlfn."@),
    decreases s.len(),
{
    reveal_strlit("_xlfn.");
    let out = spec_prefix_function(s, name, prefix, boundary);
    if s.len() == 0 {
    } else if boundary && name.len() < s.len() && spec_matches_at(s, name, 0) && s[name.len() as int]
        == '(' {
        assert(spec_matches_at(out, "_xlfn."@, 0)) by {
            assert(out.subrange(0, 6) =~= prefix.subrange(0, 6));
        }
    } else {
        let rec = spec_prefix_function(s.drop_first(), name, prefix, !spec_is_word_char(s.first()));
        if rec == s.drop_first() {
            assert(out =~= s);
            assert(false);
        } else {
            lemma_pass_changed_contains(s.drop_first(), name, prefix, !spec_is_word_char(s.first()));
            lemma_contains_cons(s.first(), rec, "_xlfn."@);
        }
    }
}

/// A changed pass chain leaves `_xlfn.` in its output.
proof fn lemma_passes_changed_contains(s: Seq<char>, passes: Seq<(Seq<char>, Seq<char>)>)
    requires
        spec_passes_wf(passes),
        spec_apply_passes(s, passes) != s,
    ensures
        spec_contains(spec_apply_passes(s, passes), "_xlfn."@),
    decreases passes.len(),
{
    if passes.len() == 0 {
    } else {
        let mid = spec_apply_passes(s, passes.drop_last());
        let out = spec_apply_passes(s, passes);
        if out != mid {
            lemma_pass_changed_contains(mid, passes.last().0, passes.last().1, true);
        } else {
            assert(spec_passes_wf(passes.drop_last())) by {
                assert(forall|i: int|
                    0 <= i < passes.len() - 1 ==> passes.drop_last()[i] == passes[i]);
            }
            lemma_passes_changed_contains(s, passes.drop_last());
        }
    }
}

/// A pass keeps the first character or replaces it with an
/// underscore, and keeps the last character or replaces it with an
/// opening parenthesis; it never empties a non-empty formula.
proof fn lemma_pass_edges(s: Seq<char>, name: Seq<char>, prefix: Seq<char>, boundary: bool)
    requires
        crate::text::spec_starts_with(prefix, "_xlfn."@),
        s.len() > 0,
    ensures
        spec_prefix_function(s, name, prefix, boundary).len() > 0,
        spec_prefix_function(s, name, prefix, boundary).first() == s.first()
            || spec_prefix_function(s, name, prefix, boundary).first() == '_',
        spec_prefix_function(s, name, prefix, boundary).last() == s.last()
            || spec_prefix_function(s, name, prefix, boundary).last() == '(',
    decreases s.len(),
{
    reveal_strlit("_xlfn.");
    let out = spec_prefix_function(s, name, prefix, boundary);
    if boundary && name.len() < s.len() && spec_matches_at(s, name, 0) && s[name.len() as int]
        == '(' {
        let rest = s.skip(name.len() + 1 as int);
        assert(out.first() == prefix.first()) by {
            assert(prefix.len() >= 6);
        }
        assert(prefix.first() == '_') by {
            assert(prefix.subrange(0, 6)[0] == '_');
        }
        if rest.len() == 0 {
            assert(out.last() == '(') by {
                crate::xmlwriter::lemma_append_empty(prefix + name + seq!['(']);
                assert(spec_prefix_function(rest, name, prefix, true) =~= Seq::<char>::empty());
                assert(out == prefix + name + seq!['(']);
            }
        } else {
            lemma_pass_edges(rest, name, prefix, true);
            assert(out.last() == spec_prefix_function(rest, name, prefix, true).last());
            assert(rest.last() == s.last());
        }
    } else {
        let rec = spec_prefix_function(s.drop_first(), name, prefix, !spec_is_word_char(s.first()));
        assert(out.first() == s.first());
        if s.len() == 1 {
            assert(s.drop_first().len() == 0);
            assert(out =~= seq![s.first()]);
        } else {
            lemma_pass_edges(s.drop_first(), name, prefix, !spec_is_word_char(s.first()));
            assert(out.last() == rec.last());
            assert(s.drop_first().last() == s.last());
        }
    }
}

/// A pass chain keeps the edge-character discipline of its passes.
proof fn lemma_passes_edges(s: Seq<char>, passes: Seq<(Seq<char>, Seq<char>)>)
    requires
        spec_passes_wf(passes),
        s.len() > 0,
    ensures
        spec_apply_passes(s, passes).len() > 0,
        spec_apply_passes(s, passes).first() == s.first() || spec_apply_passes(s, passes).first()
            == '_',
        spec_apply_passes(s, passes).last() == s.last() || spec_apply_passes(s, passes).last()
            == '(',
    decreases passes.len(),
{
    if passes.len() == 0 {
    } else {
        assert(spec_passes_wf(passes.drop_last())) by {
            assert(forall|i: int| 0 <= i < passes.len() - 1 ==> passes.drop_last()[i] == passes[i]);
        }
        lemma_passes_edges(s, passes.drop_last());
        let mid = spec_apply_passes(s, passes.drop_last());
        lemma_pass_edges(mid, passes.last().0, passes.last().1, true);
    }
}

/// A formula body with no leading brace or equals sign and no
/// trailing brace, which stripping leaves unchanged.
pub open spec fn spec_strip_stable(t: Seq<char>) -> bool {
    (t.len() > 0 ==> t[0] != '{' && t[0] != '=' && t.last() != '}')
}

/// Every pass leaves the empty formula empty.
proof fn lemma_passes_on_empty(passes: Seq<(Seq<char>, Seq<char>)>)
    ensures
        spec_apply_passes(Seq::<char>::empty(), passes) == Seq::<char>::empty(),
    decreases passes.len(),
{
    if passes.len() > 0 {
        lemma_passes_on_empty(passes.drop_last());
    }
}

proof fn lemma_strip_stable(t: Seq<char>)
    requires
        spec_strip_stable(t),
    ensures
        spec_strip(t) == t,
{
}

/// Preparing a formula twice gives the first result: the
/// preprocessor is idempotent on every formula whose stripped body
/// does not itself begin with a brace or equals sign or end with a
/// brace.
pub proof fn lemma_prepare_idempotent(s: Seq<char>, expand_future: bool)
    requires
        spec_strip_stable(spec_strip(s)),
    ensures
        spec_prepare(spec_prepare(s, expand_future), expand_future) == spec_prepare(
            s,
            expand_future,
        ),
{
    reveal_strlit("_xlfn.");
    lemma_pass_list_facts();
    let t = spec_strip(s);
    let g = spec_prepare(s, expand_future);
    if spec_contains(t, "_xlfn."@) {
        assert(g == t);
        lemma_strip_stable(g);
    } else {
        let d = spec_apply_passes(t, spec_dynamic_passes());
        if t.len() == 0 {
            assert(t =~= Seq::<char>::empty());
            lemma_passes_on_empty(spec_dynamic_passes());
            lemma_passes_on_empty(spec_future_passes_1());
            lemma_passes_on_empty(spec_future_passes_2());
            lemma_passes_on_empty(spec_future_passes_3());
            assert(d == t);
            assert(g == t);
            lemma_strip_stable(g);
            assert(spec_prepare(g, expand_future) == g);
        } else {
            lemma_passes_edges(t, spec_dynamic_passes());
            let f1 = spec_apply_passes(d, spec_future_passes_1());
            let f2 = spec_apply_passes(f1, spec_future_passes_2());
            let f3 = spec_apply_passes(f2, spec_future_passes_3());
            let gf = if expand_future {
                f3
            } else {
                d
            };
            assert(g == gf);
            if expand_future {
                lemma_passes_edges(d, spec_future_passes_1());
                lemma_passes_edges(f1, spec_future_passes_2());
                lemma_passes_edges(f2, spec_future_passes_3());
            }
            assert(g.len() > 0);
            assert(g.first() == t.first() || g.first() == '_');
            assert(g.last() == t.last() || g.last() == '(');
            assert(spec_strip_stable(g)) by {
                reveal_strlit("(");
            }
            lemma_strip_stable(g);
            if spec_contains(g, "_xlfn."@) {
                assert(spec_prepare(g, expand_future) == g);
            } else {
                if expand_future {
                    if f3 != f2 {
                        lemma_passes_changed_contains(f2, spec_future_passes_3());
                        assert(false);
                    }
                    if f2 != f1 {
                        lemma_passes_changed_contains(f1, spec_future_passes_2());
                        assert(false);
                    }
                    if f1 != d {
                        lemma_passes_changed_contains(d, spec_future_passes_1());
                        assert(false);
                    }
                }
                if d != t {
                    lemma_passes_changed_contains(t, spec_dynamic_passes());
                    assert(false);
                }
                assert(g == t);
                assert(spec_prepare(g, expand_future) == g);
            }
        }
    }
}

} // verus!
