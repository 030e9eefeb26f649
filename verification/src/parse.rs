//! The signature grammar: one shared recursive-descent definition, read
//! either to build a tree or only to check validity.
//!
//! The grammar of one signature is: a single basic-type code; `a`
//! followed by a signature (an array); `a{` two signatures `}` (a
//! dictionary); or `(` one or more signatures `)` (a structure). A
//! complete input is a possibly empty run of signatures: none collapses
//! to `Unit`, exactly one is returned as itself, and two or more become
//! the fields of a structure.

use vstd::prelude::*;
use std::sync::Arc;

use crate::child::ChildSignature;
use crate::fields::FieldsSignatures;
use crate::model::SigView;
use crate::signature::Signature;
use crate::signature::views_of;
use vstd::string::StrSliceExecFns;

verus! {

/// The signature denoted by a single basic-type code, if any.
pub open spec fn basic_of(c: char) -> Option<SigView> {
    if c == 'y' {
        Some(SigView::U8)
    } else if c == 'b' {
        Some(SigView::Bool)
    } else if c == 'n' {
        Some(SigView::I16)
    } else if c == 'q' {
        Some(SigView::U16)
    } else if c == 'i' {
        Some(SigView::I32)
    } else if c == 'u' {
        Some(SigView::U32)
    } else if c == 'x' {
        Some(SigView::I64)
    } else if c == 't' {
        Some(SigView::U64)
    } else if c == 'd' {
        Some(SigView::F64)
    } else if c == 's' {
        Some(SigView::Str)
    } else if c == 'g' {
        Some(SigView::Signature)
    } else if c == 'o' {
        Some(SigView::ObjectPath)
    } else if c == 'v' {
        Some(SigView::Value)
    } else if c == 'h' {
        Some(SigView::Fd)
    } else {
        None
    }
}

/// Parses one signature starting at `i`, returning the parsed node and
/// the position just past it. This is the single definition of the
/// grammar; both the building parser and the allocation-free validator
/// are proved against it.
pub open spec fn parse_one(s: Seq<char>, i: int) -> Option<(SigView, int)>
    decreases s.len() - i, 0int,
{
    if i < 0 || i >= s.len() {
        None
    } else if s[i] == 'a' {
        if i + 1 < s.len() && s[i + 1] == '{' {
            // a dictionary: exactly two child signatures inside the braces
            match parse_one(s, i + 2) {
                None => None,
                Some((k, j)) => if i + 2 < j && j <= s.len() {
                    match parse_one(s, j) {
                        None => None,
                        Some((v, j2)) => if j2 < s.len() && s[j2] == '}' {
                            Some((SigView::Dict(Box::new(k), Box::new(v)), j2 + 1))
                        } else {
                            None
                        },
                    }
                } else {
                    None
                },
            }
        } else {
            // an array: one child signature
            match parse_one(s, i + 1) {
                None => None,
                Some((c, j)) => Some((SigView::Array(Box::new(c)), j)),
            }
        }
    } else if s[i] == '(' {
        // a structure: one or more field signatures up to the closing paren
        match parse_list(s, i + 1) {
            None => None,
            Some((fs, j)) => if fs.len() >= 1 && j < s.len() && s[j] == ')' {
                Some((SigView::Structure(fs), j + 1))
            } else {
                None
            },
        }
    } else {
        match basic_of(s[i]) {
            None => None,
            Some(m) => Some((m, i + 1)),
        }
    }
}

/// Parses the longest run of signatures starting at `i`: the run ends at
/// the first position where no signature starts.
pub open spec fn parse_list(s: Seq<char>, i: int) -> Option<(Seq<SigView>, int)>
    decreases s.len() - i, 1int,
{
    if i < 0 || i > s.len() {
        None
    } else {
        match parse_one(s, i) {
            None => Some((Seq::empty(), i)),
            Some((m, j)) => if i < j && j <= s.len() {
                match parse_list(s, j) {
                    None => None,
                    Some((fs, j2)) => Some((seq![m] + fs, j2)),
                }
            } else {
                None
            },
        }
    }
}

/// Parses a complete input: the whole string must be consumed, an empty
/// run collapses to `Unit`, a run of one is that signature itself, and a
/// longer run becomes a structure.
pub open spec fn parse_top(s: Seq<char>) -> Option<SigView> {
    match parse_list(s, 0) {
        None => None,
        Some((fs, j)) => if j == s.len() {
            if fs.len() == 0 {
                Some(SigView::Unit)
            } else if fs.len() == 1 {
                Some(fs[0])
            } else {
                Some(SigView::Structure(fs))
            }
        } else {
            None
        },
    }
}

/// Whether `s` is a valid complete signature string. Validation and
/// parsing agree by construction: both are specified by this one
/// predicate.
pub open spec fn parses(s: Seq<char>) -> bool {
    parse_top(s) is Some
}

/// A parsed signature ends strictly past where it began and within the
/// input; a parsed run ends no earlier than it began.
pub proof fn lemma_parse_bounds(s: Seq<char>, i: int)
    ensures
        parse_one(s, i) matches Some(p) ==> i < p.1 <= s.len(),
        parse_list(s, i) matches Some(q) ==> i <= q.1 <= s.len(),
    decreases s.len() - i, 1int,
{
    if 0 <= i < s.len() {
        lemma_parse_bounds(s, i + 1);
        if s[i] == 'a' && i + 1 < s.len() && s[i + 1] == '{' {
            lemma_parse_bounds(s, i + 2);
            if let Some((k, j)) = parse_one(s, i + 2) {
                if i + 2 < j && j <= s.len() {
                    lemma_parse_bounds(s, j);
                }
            }
        }
    }
    if 0 <= i <= s.len() {
        if let Some((m, j)) = parse_one(s, i) {
            if i < j && j <= s.len() {
                lemma_parse_bounds(s, j);
            }
        }
    }
}

/// The basic-type code `c` parses to a leaf signature, or to nothing.
fn basic_sig(c: char) -> (r: Option<Signature>)
    ensures
        (r is Some) == (basic_of(c) is Some),
        r matches Some(sig) ==> basic_of(c) == Some(sig@),
{
    if c == 'y' {
        Some(Signature::U8)
    } else if c == 'b' {
        Some(Signature::Bool)
    } else if c == 'n' {
        Some(Signature::I16)
    } else if c == 'q' {
        Some(Signature::U16)
    } else if c == 'i' {
        Some(Signature::I32)
    } else if c == 'u' {
        Some(Signature::U32)
    } else if c == 'x' {
        Some(Signature::I64)
    } else if c == 't' {
        Some(Signature::U64)
    } else if c == 'd' {
        Some(Signature::F64)
    } else if c == 's' {
        Some(Signature::Str)
    } else if c == 'g' {
        Some(Signature::Signature)
    } else if c == 'o' {
        Some(Signature::ObjectPath)
    } else if c == 'v' {
        Some(Signature::Value)
    } else if c == 'h' {
        Some(Signature::Fd)
    } else {
        None
    }
}

/// Parses one signature of `s` starting at character `i`.
///
/// When `build` is false no tree is allocated: the returned signature is
/// a placeholder and only acceptance and the end position are
/// meaningful.
fn parse_one_at(s: &str, n: usize, i: usize, build: bool) -> (r: Option<(Signature, usize)>)
    requires
        n == s@.len(),
        i <= n,
    ensures
        (r is Some) == (parse_one(s@, i as int) is Some),
        r matches Some(p) ==> {
            &&& parse_one(s@, i as int) matches Some(q)
            &&& p.1 as int == q.1
            &&& i < p.1 && p.1 <= n
            &&& build ==> p.0@ == q.0
        },
    decreases n - i, 0int,
{
    if i >= n {
        return None;
    }
    let c = s.get_char(i);
    if c == 'a' {
        if i + 1 < n && s.get_char(i + 1) == '{' {
            match parse_one_at(s, n, i + 2, build) {
                None => None,
                Some((k, j)) => {
                    match parse_one_at(s, n, j, build) {
                        None => None,
                        Some((v, j2)) => {
                            if j2 < n && s.get_char(j2) == '}' {
                                if build {
                                    let d = Signature::Dict {
                                        key: ChildSignature::Dynamic { child: Arc::new(k) },
                                        value: ChildSignature::Dynamic { child: Arc::new(v) },
                                    };
                                    Some((d, j2 + 1))
                                } else {
                                    Some((Signature::Unit, j2 + 1))
                                }
                            } else {
                                None
                            }
                        },
                    }
                },
            }
        } else {
            match parse_one_at(s, n, i + 1, build) {
                None => None,
                Some((child, j)) => {
                    if build {
                        let a = Signature::Array(
                            ChildSignature::Dynamic { child: Arc::new(child) },
                        );
                        Some((a, j))
                    } else {
                        Some((Signature::Unit, j))
                    }
                },
            }
        }
    } else if c == '(' {
        match parse_list_at(s, n, i + 1, build) {
            None => None,
            Some((fields, j)) => {
                // the run is non-empty exactly when it consumed something
                if j > i + 1 && j < n && s.get_char(j) == ')' {
                    if build {
                        let st = Signature::Structure(
                            FieldsSignatures::Dynamic { fields: Arc::new(fields) },
                        );
                        Some((st, j + 1))
                    } else {
                        Some((Signature::Unit, j + 1))
                    }
                } else {
                    None
                }
            },
        }
    } else {
        match basic_sig(c) {
            None => None,
            Some(sig) => Some((sig, i + 1)),
        }
    }
}

/// Parses the longest run of signatures of `s` starting at character
/// `i`.
///
/// When `build` is false the returned vector stays empty and nothing is
/// allocated; acceptance and the end position are still exact.
fn parse_list_at(s: &str, n: usize, i: usize, build: bool) -> (r: Option<(Vec<Signature>, usize)>)
    requires
        n == s@.len(),
        i <= n,
    ensures
        (r is Some) == (parse_list(s@, i as int) is Some),
        r matches Some(p) ==> {
            &&& parse_list(s@, i as int) matches Some(q)
            &&& p.1 as int == q.1
            &&& i <= p.1 && p.1 <= n
            &&& (q.0.len() == 0 <==> p.1 == i)
            &&& build ==> views_of(p.0@) == q.0
            &&& build ==> p.0@.len() == q.0.len()
        },
    decreases n - i, 1int,
{
    match parse_one_at(s, n, i, build) {
        None => Some((Vec::new(), i)),
        Some((m, j)) => {
            match parse_list_at(s, n, j, build) {
                None => None,
                Some((fields, j2)) => {
                    if build {
                        let mut fields = fields;
                        let ghost pre = fields@;
                        fields.insert(0, m);
                        proof {
                            assert(fields@.drop_first() =~= pre);
                            assert(views_of(fields@)
                                =~= seq![crate::signature::sig_view(m)] + views_of(pre));
                        }
                        Some((fields, j2))
                    } else {
                        Some((fields, j2))
                    }
                },
            }
        },
    }
}

/// Parses a complete wire string into a signature tree.
///
/// Succeeds on exactly the strings [`validate`] accepts. An empty input
/// yields `Unit`, a single signature is returned as itself, and two or
/// more become the fields of a structure. Parsing recurses once per
/// nesting level, so call-stack depth grows with the nesting of the
/// input.
pub fn parse(s: &str) -> (r: Result<Signature, ()>)
    ensures
        (r is Ok) == parses(s@),
        r matches Ok(sig) ==> parse_top(s@) == Some(sig@),
        r matches Ok(sig) ==> crate::model::wf_top(sig@),
{
    proof {
        if parses(s@) {
            crate::laws::lemma_parse_wf(s@);
        }
    }
    let n = s.unicode_len();
    match parse_list_at(s, n, 0, true) {
        None => Err(()),
        Some((fields, j)) => {
            if j != n {
                return Err(());
            }
            if fields.len() == 0 {
                Ok(Signature::Unit)
            } else if fields.len() == 1 {
                let mut fields = fields;
                proof {
                    crate::signature::lemma_views_of_index(fields@, 0);
                }
                match fields.pop() {
                    Some(sig) => Ok(sig),
                    None => Err(()),
                }
            } else {
                Ok(Signature::Structure(FieldsSignatures::Dynamic { fields: Arc::new(fields) }))
            }
        },
    }
}

/// Checks whether `s` is a valid signature string, without building a
/// tree and without allocating. Accepts exactly the strings [`parse`]
/// accepts.
pub fn validate(s: &str) -> (r: Result<(), ()>)
    ensures
        (r is Ok) == parses(s@),
{
    let n = s.unicode_len();
    match parse_list_at(s, n, 0, false) {
        None => Err(()),
        Some((_, j)) => {
            if j == n {
                Ok(())
            } else {
                Err(())
            }
        },
    }
}

impl core::str::FromStr for Signature {
    type Err = ();

    fn from_str(s: &str) -> Result<Signature, ()> {
        parse(s)
    }
}

} // verus!
