//! The laws tying the parser and the formatter together.
//!
//! Parsing is sound: whatever the parser accepts prints back to exactly
//! the characters it consumed, and the tree it builds is well formed.
//! Formatting is complete: every well-formed tree, printed and parsed
//! again, comes back unchanged. Together these give the round-trip law
//! and the origin independence of printed signatures.

use vstd::prelude::*;

use crate::model::SigView;
use crate::model::fmt_str;
use crate::model::fmt_strs;
use crate::model::wf_nested;
use crate::model::wf_seq;
use crate::model::wf_top;
use crate::parse::basic_of;
use crate::parse::parse_list;
use crate::parse::parse_one;
use crate::parse::parse_top;
use crate::parse::parses;

verus! {

/// A well-formed nested signature prints to at least one character, and
/// never starts with a brace.
pub proof fn lemma_wf_first_char(m: SigView)
    requires
        wf_nested(m),
    ensures
        fmt_str(m).len() >= 1,
        fmt_str(m)[0] != '{',
{
    match m {
        SigView::Array(_) => {},
        SigView::Dict(_, _) => {},
        SigView::Structure(_) => {},
        _ => {},
    }
}

/// Soundness of the parser: whatever it accepts is well formed and
/// prints back to exactly the characters it consumed.
#[verifier::rlimit(50)]
pub proof fn lemma_parse_sound(s: Seq<char>, i: int)
    ensures
        parse_one(s, i) matches Some(p) ==> {
            &&& i < p.1 <= s.len()
            &&& wf_nested(p.0)
            &&& fmt_str(p.0) == s.subrange(i, p.1)
        },
        parse_list(s, i) matches Some(q) ==> {
            &&& i <= q.1 <= s.len()
            &&& wf_seq(q.0)
            &&& fmt_strs(q.0) == s.subrange(i, q.1)
        },
    decreases s.len() - i, 1int,
{
    crate::parse::lemma_parse_bounds(s, i);
    if 0 <= i < s.len() {
        lemma_parse_sound(s, i + 1);
        if s[i] == 'a' && i + 1 < s.len() && s[i + 1] == '{' {
            lemma_parse_sound(s, i + 2);
            if let Some((k, j)) = parse_one(s, i + 2) {
                if i + 2 < j && j <= s.len() {
                    lemma_parse_sound(s, j);
                    if let Some((v, j2)) = parse_one(s, j) {
                        if j2 < s.len() && s[j2] == '}' {
                            assert(wf_nested(SigView::Dict(Box::new(k), Box::new(v))));
                            assert(fmt_str(SigView::Dict(Box::new(k), Box::new(v)))
                                =~= s.subrange(i, j2 + 1));
                        }
                    }
                }
            }
        } else if s[i] == 'a' {
            if let Some((c, j)) = parse_one(s, i + 1) {
                assert(wf_nested(SigView::Array(Box::new(c))));
                assert(fmt_str(SigView::Array(Box::new(c))) =~= s.subrange(i, j));
            }
        } else if s[i] == '(' {
            if let Some((fs, j)) = parse_list(s, i + 1) {
                if fs.len() >= 1 && j < s.len() && s[j] == ')' {
                    assert(wf_nested(SigView::Structure(fs)));
                    assert(fmt_str(SigView::Structure(fs)) =~= s.subrange(i, j + 1));
                }
            }
        } else {
            if let Some(m) = basic_of(s[i]) {
                assert(wf_nested(m));
                assert(fmt_str(m) =~= s.subrange(i, i + 1));
            }
        }
    }
    if 0 <= i <= s.len() {
        match parse_one(s, i) {
            None => {
                if let Some(q) = parse_list(s, i) {
                    assert(fmt_strs(q.0) =~= s.subrange(i, i));
                }
            },
            Some((m, j)) => {
                if i < j && j <= s.len() {
                    lemma_parse_sound(s, j);
                    if let Some((fs, j2)) = parse_list(s, j) {
                        assert(wf_nested(m));
                        assert((seq![m] + fs)[0] == m);
                        assert((seq![m] + fs).drop_first() =~= fs);
                        assert(fmt_strs(seq![m] + fs) == fmt_str(m) + fmt_strs(fs));
                        assert(wf_seq(seq![m] + fs));
                        assert(fmt_strs(seq![m] + fs) =~= s.subrange(i, j2));
                    }
                }
            },
        }
    }
}

/// Completeness of the parser on one signature: a printed well-formed
/// signature, embedded in any input, parses back to itself, consuming
/// exactly its own characters.
pub proof fn lemma_parse_complete_one(s: Seq<char>, i: int, m: SigView)
    requires
        wf_nested(m),
        0 <= i,
        i + fmt_str(m).len() <= s.len(),
        s.subrange(i, i + fmt_str(m).len()) == fmt_str(m),
    ensures
        parse_one(s, i) == Some((m, i + fmt_str(m).len() as int)),
    decreases m,
{
    lemma_wf_first_char(m);
    assert(s[i] == fmt_str(m)[0]);
    match m {
        SigView::Array(c) => {
            let lc = fmt_str(*c).len() as int;
            lemma_wf_first_char(*c);
            assert(s[i] == 'a');
            assert(s.subrange(i + 1, i + 1 + lc) =~= fmt_str(*c)) by {
                assert forall|k: int| 0 <= k < lc implies s.subrange(i + 1, i + 1 + lc)[k]
                    == fmt_str(*c)[k] by {
                    assert(s[i + 1 + k] == fmt_str(m)[1 + k]);
                }
            }
            assert(s[i + 1] == fmt_str(*c)[0]);
            assert(s[i + 1] != '{');
            lemma_parse_complete_one(s, i + 1, *c);
            assert(parse_one(s, i) == Some((SigView::Array(Box::new(*c)), i + 1 + lc)));
            assert(SigView::Array(Box::new(*c)) == m);
        },
        SigView::Dict(k, v) => {
            let lk = fmt_str(*k).len() as int;
            let lv = fmt_str(*v).len() as int;
            lemma_wf_first_char(*k);
            lemma_wf_first_char(*v);
            assert(s[i] == 'a');
            assert(s[i + 1] == fmt_str(m)[1]);
            assert(s[i + 1] == '{');
            assert(s.subrange(i + 2, i + 2 + lk) =~= fmt_str(*k)) by {
                assert forall|x: int| 0 <= x < lk implies s.subrange(i + 2, i + 2 + lk)[x]
                    == fmt_str(*k)[x] by {
                    assert(s[i + 2 + x] == fmt_str(m)[2 + x]);
                    assert(fmt_str(m)[2 + x] == fmt_str(*k)[x]);
                }
            }
            lemma_parse_complete_one(s, i + 2, *k);
            let j = i + 2 + lk;
            assert(s.subrange(j, j + lv) =~= fmt_str(*v)) by {
                assert forall|x: int| 0 <= x < lv implies s.subrange(j, j + lv)[x]
                    == fmt_str(*v)[x] by {
                    assert(s[j + x] == fmt_str(m)[2 + lk + x]);
                    assert(fmt_str(m)[2 + lk + x] == fmt_str(*v)[x]);
                }
            }
            lemma_parse_complete_one(s, j, *v);
            let j2 = j + lv;
            assert(s[j2] == fmt_str(m)[2 + lk + lv]);
            assert(s[j2] == '}');
            assert(parse_one(s, i) == Some((SigView::Dict(Box::new(*k), Box::new(*v)), j2 + 1)));
            assert(SigView::Dict(Box::new(*k), Box::new(*v)) == m);
        },
        SigView::Structure(fs) => {
            let lf = fmt_strs(fs).len() as int;
            assert(s[i] == '(');
            assert(s.subrange(i + 1, i + 1 + lf) =~= fmt_strs(fs)) by {
                assert forall|x: int| 0 <= x < lf implies s.subrange(i + 1, i + 1 + lf)[x]
                    == fmt_strs(fs)[x] by {
                    assert(s[i + 1 + x] == fmt_str(m)[1 + x]);
                }
            }
            assert(s[i + 1 + lf] == fmt_str(m)[1 + lf]);
            assert(s[i + 1 + lf] == ')');
            assert(parse_one(s, i + 1 + lf) is None);
            lemma_parse_complete_list(s, i + 1, fs);
            assert(parse_one(s, i) == Some((SigView::Structure(fs), i + 1 + lf + 1)));
        },
        _ => {
            assert(parse_one(s, i) == Some((m, i + 1)));
        },
    }
}

/// Completeness of the parser on a run of signatures: a printed run,
/// followed by a position where no signature starts, parses back to
/// itself.
pub proof fn lemma_parse_complete_list(s: Seq<char>, i: int, fs: Seq<SigView>)
    requires
        wf_seq(fs),
        0 <= i,
        i + fmt_strs(fs).len() <= s.len(),
        s.subrange(i, i + fmt_strs(fs).len()) == fmt_strs(fs),
        parse_one(s, i + fmt_strs(fs).len()) is None,
    ensures
        parse_list(s, i) == Some((fs, i + fmt_strs(fs).len() as int)),
    decreases fs,
{
    if fs.len() == 0 {
        assert(fs =~= Seq::<SigView>::empty());
        assert(parse_list(s, i) == Some((Seq::<SigView>::empty(), i)));
    } else {
        let m = fs[0];
        let rest = fs.drop_first();
        let lm = fmt_str(m).len() as int;
        let lr = fmt_strs(rest).len() as int;
        assert(fmt_strs(fs) == fmt_str(m) + fmt_strs(rest));
        assert(s.subrange(i, i + lm) =~= fmt_str(m)) by {
            assert forall|x: int| 0 <= x < lm implies s.subrange(i, i + lm)[x]
                == fmt_str(m)[x] by {
                assert(s[i + x] == fmt_strs(fs)[x]);
            }
        }
        lemma_parse_complete_one(s, i, m);
        lemma_wf_first_char(m);
        let j = i + lm;
        assert(s.subrange(j, j + lr) =~= fmt_strs(rest)) by {
            assert forall|x: int| 0 <= x < lr implies s.subrange(j, j + lr)[x]
                == fmt_strs(rest)[x] by {
                assert(s[j + x] == fmt_strs(fs)[lm + x]);
            }
        }
        lemma_parse_complete_list(s, j, rest);
        assert(parse_list(s, i) == Some((seq![m] + rest, j + lr)));
        assert(seq![m] + rest =~= fs);
    }
}

/// The round-trip law, printing side: a complete well-formed signature,
/// printed and parsed again, comes back unchanged.
pub proof fn lemma_format_parse_identity(m: SigView)
    requires
        wf_top(m),
    ensures
        parse_top(fmt_str(m)) == Some(m),
{
    let s = fmt_str(m);
    if m == SigView::Unit {
        assert(parse_one(s, 0) is None);
        assert(parse_list(s, 0) == Some((Seq::<SigView>::empty(), 0int)));
    } else {
        let l = s.len() as int;
        lemma_wf_first_char(m);
        assert(s.subrange(0, l) =~= s);
        lemma_parse_complete_one(s, 0, m);
        assert(parse_one(s, l) is None);
        assert(parse_list(s, l) == Some((Seq::<SigView>::empty(), l)));
        assert(parse_list(s, 0) == Some((seq![m], l)));
        assert(parse_top(s) == Some(seq![m][0]));
    }
}

/// Origin independence: two complete well-formed signatures with the
/// same printed form are the same signature, however each was built. In
/// particular they compare equal and order identically against every
/// other signature.
pub proof fn lemma_format_injective(a: SigView, b: SigView)
    requires
        wf_top(a),
        wf_top(b),
        fmt_str(a) == fmt_str(b),
    ensures
        a == b,
{
    lemma_format_parse_identity(a);
    lemma_format_parse_identity(b);
}

/// The round-trip law, parsing side: a valid string whose top level
/// holds at most one signature prints back to itself after parsing.
/// A top level of two or more signatures gains the structure's
/// parentheses when printed, so it is excluded here.
pub proof fn lemma_parse_format_round_trip(s: Seq<char>)
    requires
        parses(s),
        parse_list(s, 0) matches Some(q) && q.0.len() <= 1,
    ensures
        parse_top(s) matches Some(m) && fmt_str(m) == s,
{
    lemma_parse_sound(s, 0);
    let q = parse_list(s, 0)->Some_0;
    if q.0.len() == 0 {
        assert(s.subrange(0, q.1) =~= s);
        assert(fmt_strs(q.0) == s);
    } else {
        assert(s.subrange(0, q.1) =~= s);
        assert(fmt_strs(q.0.drop_first()) == Seq::<char>::empty());
        assert(fmt_strs(q.0) == fmt_str(q.0[0]) + fmt_strs(q.0.drop_first()));
        assert(fmt_str(q.0[0]) =~= s);
    }
}

/// Printing what the parser returned and parsing it again gives the
/// same tree, for every valid input: even where the printed form differs
/// from the input, one more round changes nothing.
pub proof fn lemma_reparse_identity(s: Seq<char>)
    requires
        parses(s),
    ensures
        parse_top(s) matches Some(m) && parse_top(fmt_str(m)) == Some(m),
{
    lemma_parse_wf(s);
    lemma_format_parse_identity(parse_top(s)->Some_0);
}

/// Every tree the parser returns is well formed at the top level.
pub proof fn lemma_parse_wf(s: Seq<char>)
    requires
        parses(s),
    ensures
        parse_top(s) matches Some(m) && wf_top(m),
{
    lemma_parse_sound(s, 0);
    let q = parse_list(s, 0)->Some_0;
    if q.0.len() >= 2 {
        assert(wf_nested(SigView::Structure(q.0)));
    } else if q.0.len() == 1 {
        assert(wf_nested(q.0[0]));
    }
}

} // verus!
