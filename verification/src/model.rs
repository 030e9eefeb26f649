//! The mathematical model of a signature tree.
//!
//! A [`SigView`] is a signature with the backing of every child erased:
//! whether a child was statically known or dynamically composed, its view
//! holds the child directly. All contracts in this crate are stated over
//! this model, so they hold independently of a signature's origin.

use vstd::prelude::*;
use core::cmp::Ordering;

verus! {

/// One node of a signature tree, as a pure mathematical value.
pub enum SigView {
    /// The empty signature, serialized as the empty string.
    Unit,
    U8,
    Bool,
    I16,
    U16,
    I32,
    U32,
    I64,
    U64,
    F64,
    Str,
    Signature,
    ObjectPath,
    Value,
    Fd,
    /// An array with exactly one element signature.
    Array(Box<SigView>),
    /// A dictionary with exactly one key and one value signature.
    Dict(Box<SigView>, Box<SigView>),
    /// A structure with an ordered sequence of field signatures.
    Structure(Seq<SigView>),
}

/// The canonical wire string of a signature node.
pub open spec fn fmt_str(m: SigView) -> Seq<char>
    decreases m,
{
    match m {
        SigView::Unit => Seq::empty(),
        SigView::U8 => seq!['y'],
        SigView::Bool => seq!['b'],
        SigView::I16 => seq!['n'],
        SigView::U16 => seq!['q'],
        SigView::I32 => seq!['i'],
        SigView::U32 => seq!['u'],
        SigView::I64 => seq!['x'],
        SigView::U64 => seq!['t'],
        SigView::F64 => seq!['d'],
        SigView::Str => seq!['s'],
        SigView::Signature => seq!['g'],
        SigView::ObjectPath => seq!['o'],
        SigView::Value => seq!['v'],
        SigView::Fd => seq!['h'],
        SigView::Array(c) => seq!['a'] + fmt_str(*c),
        SigView::Dict(k, v) => seq!['a', '{'] + fmt_str(*k) + fmt_str(*v) + seq!['}'],
        SigView::Structure(fs) => seq!['('] + fmt_strs(fs) + seq![')'],
    }
}

/// The concatenated wire strings of a sequence of signature nodes.
pub open spec fn fmt_strs(fs: Seq<SigView>) -> Seq<char>
    decreases fs,
{
    if fs.len() == 0 {
        Seq::empty()
    } else {
        fmt_str(fs[0]) + fmt_strs(fs.drop_first())
    }
}

/// The wire string of a field sequence splits at any point.
pub proof fn lemma_fmt_strs_split(fs: Seq<SigView>, i: int)
    requires
        0 <= i <= fs.len(),
    ensures
        fmt_strs(fs) == fmt_strs(fs.take(i)) + fmt_strs(fs.skip(i)),
    decreases i,
{
    if i == 0 {
        assert(fs.take(0) =~= Seq::empty());
        assert(fs.skip(0) =~= fs);
        assert(fmt_strs(fs.take(0)) + fmt_strs(fs.skip(0)) =~= fmt_strs(fs));
    } else {
        let g = fs.drop_first();
        lemma_fmt_strs_split(g, i - 1);
        assert(fs.take(i).drop_first() =~= g.take(i - 1));
        assert(fs.skip(i) =~= g.skip(i - 1));
        assert(fs.take(i)[0] == fs[0]);
        assert(fmt_strs(fs) =~= fmt_strs(fs.take(i)) + fmt_strs(fs.skip(i)));
    }
}

/// Appending one more field appends its wire string.
pub proof fn lemma_fmt_strs_snoc(fs: Seq<SigView>, i: int)
    requires
        0 <= i < fs.len(),
    ensures
        fmt_strs(fs.take(i + 1)) == fmt_strs(fs.take(i)) + fmt_str(fs[i]),
{
    let t = fs.take(i + 1);
    lemma_fmt_strs_split(t, i);
    assert(t.take(i) =~= fs.take(i));
    assert(t.skip(i) =~= seq![fs[i]]);
    assert(fmt_strs(seq![fs[i]]) =~= fmt_str(fs[i])) by {
        reveal_with_fuel(fmt_strs, 2);
        assert(seq![fs[i]].drop_first() =~= Seq::empty());
    }
}

/// Well-formedness of a signature standing inside a container: `Unit`
/// never nests, and a structure holds at least one field. Every tree the
/// parser builds below the top level satisfies this.
pub open spec fn wf_nested(m: SigView) -> bool
    decreases m,
{
    match m {
        SigView::Unit => false,
        SigView::Array(c) => wf_nested(*c),
        SigView::Dict(k, v) => wf_nested(*k) && wf_nested(*v),
        SigView::Structure(fs) => fs.len() >= 1 && wf_seq(fs),
        _ => true,
    }
}

/// Well-formedness of each element of a sequence of signatures.
pub open spec fn wf_seq(fs: Seq<SigView>) -> bool
    decreases fs,
{
    if fs.len() == 0 {
        true
    } else {
        wf_nested(fs[0]) && wf_seq(fs.drop_first())
    }
}

/// Well-formedness of a complete signature: `Unit` is allowed only as the
/// whole tree. Every tree the parser returns satisfies this.
pub open spec fn wf_top(m: SigView) -> bool {
    m == SigView::Unit || wf_nested(m)
}

/// The rank of a node's variant, in declaration order; the total order on
/// signatures compares ranks before it compares children.
pub open spec fn rank(m: SigView) -> int {
    match m {
        SigView::Unit => 0,
        SigView::U8 => 1,
        SigView::Bool => 2,
        SigView::I16 => 3,
        SigView::U16 => 4,
        SigView::I32 => 5,
        SigView::U32 => 6,
        SigView::I64 => 7,
        SigView::U64 => 8,
        SigView::F64 => 9,
        SigView::Str => 10,
        SigView::Signature => 11,
        SigView::ObjectPath => 12,
        SigView::Value => 13,
        SigView::Fd => 14,
        SigView::Array(_) => 15,
        SigView::Dict(_, _) => 16,
        SigView::Structure(_) => 17,
    }
}

/// The total, structural order on signatures: the first structural
/// difference decides, with children compared left to right.
pub open spec fn sig_cmp(a: SigView, b: SigView) -> Ordering
    decreases a,
{
    if rank(a) != rank(b) {
        if rank(a) < rank(b) {
            Ordering::Less
        } else {
            Ordering::Greater
        }
    } else {
        match (a, b) {
            (SigView::Array(c1), SigView::Array(c2)) => sig_cmp(*c1, *c2),
            (SigView::Dict(k1, v1), SigView::Dict(k2, v2)) => match sig_cmp(*k1, *k2) {
                Ordering::Equal => sig_cmp(*v1, *v2),
                o => o,
            },
            (SigView::Structure(f1), SigView::Structure(f2)) => seq_sig_cmp(f1, f2),
            _ => Ordering::Equal,
        }
    }
}

/// Lexicographic extension of [`sig_cmp`] to field sequences; a proper
/// prefix orders before its extension.
pub open spec fn seq_sig_cmp(s1: Seq<SigView>, s2: Seq<SigView>) -> Ordering
    decreases s1,
{
    if s1.len() == 0 && s2.len() == 0 {
        Ordering::Equal
    } else if s1.len() == 0 {
        Ordering::Less
    } else if s2.len() == 0 {
        Ordering::Greater
    } else {
        match sig_cmp(s1[0], s2[0]) {
            Ordering::Equal => seq_sig_cmp(s1.drop_first(), s2.drop_first()),
            o => o,
        }
    }
}

/// The opposite of an ordering verdict.
pub open spec fn flipped(o: Ordering) -> Ordering {
    match o {
        Ordering::Less => Ordering::Greater,
        Ordering::Equal => Ordering::Equal,
        Ordering::Greater => Ordering::Less,
    }
}

/// Swapping the two sides reverses the outcome: the order is
/// antisymmetric.
pub proof fn lemma_sig_cmp_flip(a: SigView, b: SigView)
    ensures
        sig_cmp(b, a) == flipped(sig_cmp(a, b)),
    decreases a,
{
    if rank(a) == rank(b) {
        match (a, b) {
            (SigView::Array(c1), SigView::Array(c2)) => {
                lemma_sig_cmp_flip(*c1, *c2);
            },
            (SigView::Dict(k1, v1), SigView::Dict(k2, v2)) => {
                lemma_sig_cmp_flip(*k1, *k2);
                lemma_sig_cmp_flip(*v1, *v2);
            },
            (SigView::Structure(f1), SigView::Structure(f2)) => {
                lemma_seq_sig_cmp_flip(f1, f2);
            },
            _ => {},
        }
    }
}

/// Antisymmetry of the lexicographic order on field sequences.
pub proof fn lemma_seq_sig_cmp_flip(s1: Seq<SigView>, s2: Seq<SigView>)
    ensures
        seq_sig_cmp(s2, s1) == flipped(seq_sig_cmp(s1, s2)),
    decreases s1,
{
    if s1.len() > 0 && s2.len() > 0 {
        lemma_sig_cmp_flip(s1[0], s2[0]);
        lemma_seq_sig_cmp_flip(s1.drop_first(), s2.drop_first());
    }
}

/// Transitivity of the structural order.
pub proof fn lemma_sig_cmp_transitive(a: SigView, b: SigView, c: SigView)
    requires
        sig_cmp(a, b) == Ordering::Less,
        sig_cmp(b, c) == Ordering::Less,
    ensures
        sig_cmp(a, c) == Ordering::Less,
    decreases a,
{
    if rank(a) == rank(b) && rank(b) == rank(c) {
        match (a, b, c) {
            (SigView::Array(c1), SigView::Array(c2), SigView::Array(c3)) => {
                lemma_sig_cmp_transitive(*c1, *c2, *c3);
            },
            (SigView::Dict(k1, v1), SigView::Dict(k2, v2), SigView::Dict(k3, v3)) => {
                lemma_sig_cmp_equal_iff(*k1, *k2);
                lemma_sig_cmp_equal_iff(*k2, *k3);
                if *k1 == *k2 && *k2 == *k3 {
                    lemma_sig_cmp_transitive(*v1, *v2, *v3);
                } else if *k1 == *k2 {
                    // the second comparison was decided by the keys
                } else if *k2 == *k3 {
                    // the first comparison was decided by the keys
                } else {
                    lemma_sig_cmp_transitive(*k1, *k2, *k3);
                }
            },
            (SigView::Structure(f1), SigView::Structure(f2), SigView::Structure(f3)) => {
                lemma_seq_sig_cmp_transitive(f1, f2, f3);
            },
            _ => {},
        }
    }
}

/// Transitivity of the lexicographic order on field sequences.
pub proof fn lemma_seq_sig_cmp_transitive(s1: Seq<SigView>, s2: Seq<SigView>, s3: Seq<SigView>)
    requires
        seq_sig_cmp(s1, s2) == Ordering::Less,
        seq_sig_cmp(s2, s3) == Ordering::Less,
    ensures
        seq_sig_cmp(s1, s3) == Ordering::Less,
    decreases s1,
{
    if s1.len() > 0 && s2.len() > 0 && s3.len() > 0 {
        lemma_sig_cmp_equal_iff(s1[0], s2[0]);
        lemma_sig_cmp_equal_iff(s2[0], s3[0]);
        if s1[0] == s2[0] && s2[0] == s3[0] {
            lemma_seq_sig_cmp_transitive(s1.drop_first(), s2.drop_first(), s3.drop_first());
        } else if s1[0] == s2[0] {
            // the second comparison was decided by the heads
        } else if s2[0] == s3[0] {
            // the first comparison was decided by the heads
        } else {
            lemma_sig_cmp_transitive(s1[0], s2[0], s3[0]);
        }
    }
}

/// The structural order deems two signatures equal exactly when they are
/// the same model value.
pub proof fn lemma_sig_cmp_equal_iff(a: SigView, b: SigView)
    ensures
        sig_cmp(a, b) == Ordering::Equal <==> a == b,
    decreases a,
{
    if rank(a) == rank(b) {
        match (a, b) {
            (SigView::Array(c1), SigView::Array(c2)) => {
                lemma_sig_cmp_equal_iff(*c1, *c2);
            },
            (SigView::Dict(k1, v1), SigView::Dict(k2, v2)) => {
                lemma_sig_cmp_equal_iff(*k1, *k2);
                lemma_sig_cmp_equal_iff(*v1, *v2);
            },
            (SigView::Structure(f1), SigView::Structure(f2)) => {
                lemma_seq_sig_cmp_equal_iff(f1, f2);
                if seq_sig_cmp(f1, f2) == Ordering::Equal {
                    assert(a == b);
                }
            },
            _ => {},
        }
    }
}

/// Lexicographic comparison of field sequences deems them equal exactly
/// when they are the same sequence.
pub proof fn lemma_seq_sig_cmp_equal_iff(s1: Seq<SigView>, s2: Seq<SigView>)
    ensures
        seq_sig_cmp(s1, s2) == Ordering::Equal <==> s1 == s2,
    decreases s1,
{
    if s1.len() == 0 && s2.len() == 0 {
        assert(s1 =~= s2);
    } else if s1.len() == 0 || s2.len() == 0 {
        // the lengths differ, so the sequences do too
    } else {
        lemma_sig_cmp_equal_iff(s1[0], s2[0]);
        lemma_seq_sig_cmp_equal_iff(s1.drop_first(), s2.drop_first());
        if sig_cmp(s1[0], s2[0]) == Ordering::Equal
            && seq_sig_cmp(s1.drop_first(), s2.drop_first()) == Ordering::Equal {
            assert forall|i: int| 0 <= i < s1.len() implies s1[i] == s2[i] by {
                if i > 0 {
                    assert(s1[i] == s1.drop_first()[i - 1]);
                    assert(s2[i] == s2.drop_first()[i - 1]);
                }
            }
            assert(s1 =~= s2);
        }
        if s1 == s2 {
            assert(s1[0] == s2[0]);
            assert(s1.drop_first() =~= s2.drop_first());
        }
    }
}

} // verus!
