//! The signature value type and its serialization.

use vstd::prelude::*;
use std::sync::Arc;

use crate::child::ChildSignature;
use crate::fields::FieldsSignatures;
use crate::model::SigView;
use crate::model::fmt_str;
use crate::model::fmt_strs;
use crate::model::lemma_fmt_strs_snoc;
use crate::model::rank;
use crate::model::sig_cmp;
use crate::model::seq_sig_cmp;
use crate::model::lemma_fmt_strs_split;
use vstd::string::StringExecFns;

verus! {

/// One node of a signature tree: a basic type or a container holding
/// child signatures. A signature is immutable once constructed; children
/// are shared, so cloning any node is cheap.
#[derive(Debug)]
pub enum Signature {
    /// The empty signature, serialized as the empty string. It is a
    /// value in its own right: a caller meaning "zero values" uses
    /// `Unit` explicitly.
    Unit,
    U8,
    Bool,
    I16,
    U16,
    I32,
    U32,
    I64,
    U64,
    F64,
    Str,
    Signature,
    ObjectPath,
    Value,
    Fd,
    Array(ChildSignature),
    Dict { key: ChildSignature, value: ChildSignature },
    Structure(FieldsSignatures),
}

/// The model of a signature node: the same tree with every child's
/// backing erased.
pub open spec fn sig_view(s: Signature) -> SigView
    decreases s,
{
    match s {
        Signature::Unit => SigView::Unit,
        Signature::U8 => SigView::U8,
        Signature::Bool => SigView::Bool,
        Signature::I16 => SigView::I16,
        Signature::U16 => SigView::U16,
        Signature::I32 => SigView::I32,
        Signature::U32 => SigView::U32,
        Signature::I64 => SigView::I64,
        Signature::U64 => SigView::U64,
        Signature::F64 => SigView::F64,
        Signature::Str => SigView::Str,
        Signature::Signature => SigView::Signature,
        Signature::ObjectPath => SigView::ObjectPath,
        Signature::Value => SigView::Value,
        Signature::Fd => SigView::Fd,
        Signature::Array(c) => SigView::Array(Box::new(child_view(c))),
        Signature::Dict { key, value } => SigView::Dict(
            Box::new(child_view(key)),
            Box::new(child_view(value)),
        ),
        Signature::Structure(fs) => SigView::Structure(fields_view(fs)),
    }
}

/// The model of a child handle: the model of the signature it holds,
/// whichever backing holds it.
pub open spec fn child_view(c: ChildSignature) -> SigView
    decreases c,
{
    match c {
        ChildSignature::Static { child } => sig_view(*child),
        ChildSignature::Dynamic { child } => sig_view(*child),
    }
}

/// The model of a fields handle: the models of the fields in order,
/// whichever backing holds them.
pub open spec fn fields_view(fs: FieldsSignatures) -> Seq<SigView>
    decreases fs,
{
    match fs {
        FieldsSignatures::Static { fields } => views_of(fields@),
        FieldsSignatures::Dynamic { fields } => views_of(fields@),
    }
}

/// The models of a sequence of signatures, element by element.
pub open spec fn views_of(s: Seq<Signature>) -> Seq<SigView>
    decreases s,
{
    if s.len() == 0 {
        Seq::empty()
    } else {
        seq![sig_view(s[0])] + views_of(s.drop_first())
    }
}

/// `views_of` maps the sequence pointwise.
pub proof fn lemma_views_of_index(s: Seq<Signature>, i: int)
    requires
        0 <= i < s.len(),
    ensures
        views_of(s).len() == s.len(),
        views_of(s)[i] == sig_view(s[i]),
    decreases s,
{
    lemma_views_of_len(s);
    if i > 0 {
        lemma_views_of_index(s.drop_first(), i - 1);
    }
}

/// Appending a signature appends its model.
pub proof fn lemma_views_of_push(s: Seq<Signature>, x: Signature)
    ensures
        views_of(s.push(x)) == views_of(s).push(sig_view(x)),
{
    lemma_views_of_len(s);
    lemma_views_of_len(s.push(x));
    assert forall|i: int| 0 <= i < s.len() + 1 implies views_of(s.push(x))[i] == views_of(
        s,
    ).push(sig_view(x))[i] by {
        lemma_views_of_index(s.push(x), i);
        if i < s.len() {
            lemma_views_of_index(s, i);
        }
    }
    assert(views_of(s.push(x)) =~= views_of(s).push(sig_view(x)));
}

/// `views_of` preserves length.
pub proof fn lemma_views_of_len(s: Seq<Signature>)
    ensures
        views_of(s).len() == s.len(),
    decreases s,
{
    if s.len() > 0 {
        lemma_views_of_len(s.drop_first());
    }
}

impl View for Signature {
    type V = SigView;

    open spec fn view(&self) -> SigView {
        sig_view(*self)
    }
}

impl Signature {
    /// The length in characters of the wire string of `self`.
    pub fn string_len(&self) -> (n: usize)
        requires
            fmt_str(self@).len() <= usize::MAX,
        ensures
            n == fmt_str(self@).len(),
        decreases fmt_str(self@).len(),
    {
        match self {
            Signature::Unit => 0,
            Signature::U8 => 1,
            Signature::Bool => 1,
            Signature::I16 => 1,
            Signature::U16 => 1,
            Signature::I32 => 1,
            Signature::U32 => 1,
            Signature::I64 => 1,
            Signature::U64 => 1,
            Signature::F64 => 1,
            Signature::Str => 1,
            Signature::Signature => 1,
            Signature::ObjectPath => 1,
            Signature::Value => 1,
            Signature::Fd => 1,
            Signature::Array(c) => 1 + c.get().string_len(),
            Signature::Dict { key, value } => {
                let k = key.get().string_len();
                let v = value.get().string_len();
                3 + k + v
            },
            Signature::Structure(fs) => {
                let ghost views = fields_view(*fs);
                let mut n: usize = 2;
                let mut i: usize = 0;
                let count = fs.len();
                proof {
                    assert(views.take(0) =~= Seq::empty());
                }
                while i < count
                    invariant
                        i <= count,
                        count == views.len(),
                        *self == Signature::Structure(*fs),
                        fmt_str(self@).len() <= usize::MAX,
                        self@ == SigView::Structure(views),
                        n == 2 + fmt_strs(views.take(i as int)).len(),
                    decreases count - i,
                {
                    proof {
                        lemma_fmt_strs_split(views, i as int);
                        lemma_fmt_strs_snoc(views, i as int);
                        assert(views.skip(i as int)[0] == views[i as int]);
                        assert(views.skip(i as int).drop_first() =~= views.skip(i as int + 1));
                        lemma_fmt_strs_split(views, i as int + 1);
                    }
                    let f = fs.field(i);
                    let l = f.string_len();
                    n = n + l;
                    i = i + 1;
                }
                proof {
                    assert(views.take(count as int) =~= views);
                }
                n
            },
        }
    }

    /// Serializes `self` to its canonical wire string.
    pub fn to_string(&self) -> (r: String)
        ensures
            r@ == fmt_str(self@),
    {
        let mut out = String::new();
        self.write_to(&mut out);
        proof {
            assert(Seq::<char>::empty() + fmt_str(self@) =~= fmt_str(self@));
        }
        out
    }

    /// Appends the wire string of `self` to `out`.
    pub fn write_to(&self, out: &mut String)
        ensures
            final(out)@ == old(out)@ + fmt_str(self@),
        decreases fmt_str(self@).len(),
    {
        let ghost start = out@;
        match self {
            Signature::Unit => {
                proof {
                    assert(start + fmt_str(self@) =~= start);
                }
            },
            Signature::U8 => {
                out.append("y");
                proof {
                    reveal_strlit("y");
                    assert(out@ =~= start + fmt_str(self@));
                }
            },
            Signature::Bool => {
                out.append("b");
                proof {
                    reveal_strlit("b");
                    assert(out@ =~= start + fmt_str(self@));
                }
            },
            Signature::I16 => {
                out.append("n");
                proof {
                    reveal_strlit("n");
                    assert(out@ =~= start + fmt_str(self@));
                }
            },
            Signature::U16 => {
                out.append("q");
                proof {
                    reveal_strlit("q");
                    assert(out@ =~= start + fmt_str(self@));
                }
            },
            Signature::I32 => {
                out.append("i");
                proof {
                    reveal_strlit("i");
                    assert(out@ =~= start + fmt_str(self@));
                }
            },
            Signature::U32 => {
                out.append("u");
                proof {
                    reveal_strlit("u");
                    assert(out@ =~= start + fmt_str(self@));
                }
            },
            Signature::I64 => {
                out.append("x");
                proof {
                    reveal_strlit("x");
                    assert(out@ =~= start + fmt_str(self@));
                }
            },
            Signature::U64 => {
                out.append("t");
                proof {
                    reveal_strlit("t");
                    assert(out@ =~= start + fmt_str(self@));
                }
            },
            Signature::F64 => {
                out.append("d");
                proof {
                    reveal_strlit("d");
                    assert(out@ =~= start + fmt_str(self@));
                }
            },
            Signature::Str => {
                out.append("s");
                proof {
                    reveal_strlit("s");
                    assert(out@ =~= start + fmt_str(self@));
                }
            },
            Signature::Signature => {
                out.append("g");
                proof {
                    reveal_strlit("g");
                    assert(out@ =~= start + fmt_str(self@));
                }
            },
            Signature::ObjectPath => {
                out.append("o");
                proof {
                    reveal_strlit("o");
                    assert(out@ =~= start + fmt_str(self@));
                }
            },
            Signature::Value => {
                out.append("v");
                proof {
                    reveal_strlit("v");
                    assert(out@ =~= start + fmt_str(self@));
                }
            },
            Signature::Fd => {
                out.append("h");
                proof {
                    reveal_strlit("h");
                    assert(out@ =~= start + fmt_str(self@));
                }
            },
            Signature::Array(c) => {
                out.append("a");
                c.get().write_to(out);
                proof {
                    reveal_strlit("a");
                    assert(out@ =~= start + fmt_str(self@));
                }
            },
            Signature::Dict { key, value } => {
                out.append("a{");
                key.get().write_to(out);
                value.get().write_to(out);
                out.append("}");
                proof {
                    reveal_strlit("a{");
                    reveal_strlit("}");
                    assert(out@ =~= start + fmt_str(self@));
                }
            },
            Signature::Structure(fs) => {
                let ghost views = fields_view(*fs);
                out.append("(");
                let mut i: usize = 0;
                let count = fs.len();
                proof {
                    reveal_strlit("(");
                    assert(views.take(0) =~= Seq::empty());
                    assert(out@ =~= start + "("@ + fmt_strs(views.take(0)));
                }
                while i < count
                    invariant
                        i <= count,
                        count == views.len(),
                        *self == Signature::Structure(*fs),
                        self@ == SigView::Structure(views),
                        out@ == start + "("@ + fmt_strs(views.take(i as int)),
                    decreases count - i,
                {
                    proof {
                        lemma_fmt_strs_split(views, i as int);
                        assert(views.skip(i as int)[0] == views[i as int]);
                    }
                    let f = fs.field(i);
                    f.write_to(out);
                    proof {
                        lemma_fmt_strs_snoc(views, i as int);
                        assert(out@ =~= start + "("@ + fmt_strs(views.take(i as int + 1)));
                    }
                    i = i + 1;
                }
                out.append(")");
                proof {
                    reveal_strlit("(");
                    reveal_strlit(")");
                    assert(views.take(count as int) =~= views);
                    assert(out@ =~= start + fmt_str(self@));
                }
            },
        }
    }
}

impl Signature {
    /// The rank of the node's variant within the total order.
    fn rank_code(&self) -> (r: u8)
        ensures
            r as int == rank(self@),
    {
        match self {
            Signature::Unit => 0,
            Signature::U8 => 1,
            Signature::Bool => 2,
            Signature::I16 => 3,
            Signature::U16 => 4,
            Signature::I32 => 5,
            Signature::U32 => 6,
            Signature::I64 => 7,
            Signature::U64 => 8,
            Signature::F64 => 9,
            Signature::Str => 10,
            Signature::Signature => 11,
            Signature::ObjectPath => 12,
            Signature::Value => 13,
            Signature::Fd => 14,
            Signature::Array(_) => 15,
            Signature::Dict { .. } => 16,
            Signature::Structure(_) => 17,
        }
    }

    /// Structural equality of two signatures, blind to whether either
    /// side is statically or dynamically backed.
    pub fn equals(&self, other: &Signature) -> (r: bool)
        ensures
            r == (self@ == other@),
        decreases fmt_str(self@).len(),
    {
        match (self, other) {
            (Signature::Array(c1), Signature::Array(c2)) => c1.get().equals(c2.get()),
            (
                Signature::Dict { key: k1, value: v1 },
                Signature::Dict { key: k2, value: v2 },
            ) => k1.get().equals(k2.get()) && v1.get().equals(v2.get()),
            (Signature::Structure(f1), Signature::Structure(f2)) => {
                let ghost va = fields_view(*f1);
                let ghost vb = fields_view(*f2);
                let n1 = f1.len();
                let n2 = f2.len();
                if n1 != n2 {
                    return false;
                }
                let mut i: usize = 0;
                while i < n1
                    invariant
                        i <= n1,
                        n1 == va.len(),
                        n1 == vb.len(),
                        *self == Signature::Structure(*f1),
                        *other == Signature::Structure(*f2),
                        self@ == SigView::Structure(va),
                        other@ == SigView::Structure(vb),
                        forall|k: int| 0 <= k < i ==> va[k] == vb[k],
                    decreases n1 - i,
                {
                    proof {
                        lemma_fmt_strs_split(va, i as int);
                        assert(va.skip(i as int)[0] == va[i as int]);
                    }
                    if !f1.field(i).equals(f2.field(i)) {
                        return false;
                    }
                    i = i + 1;
                }
                proof {
                    assert(va =~= vb);
                }
                true
            },
            _ => {
                let ra = self.rank_code();
                let rb = other.rank_code();
                ra == rb
            },
        }
    }

    /// The total, structural order on signatures: variants order by
    /// rank, children decide between like containers, and a structure
    /// with fewer fields orders before one that extends it.
    pub fn compare(&self, other: &Signature) -> (r: core::cmp::Ordering)
        ensures
            r == sig_cmp(self@, other@),
        decreases fmt_str(self@).len(),
    {
        let ra = self.rank_code();
        let rb = other.rank_code();
        if ra < rb {
            return core::cmp::Ordering::Less;
        }
        if ra > rb {
            return core::cmp::Ordering::Greater;
        }
        match (self, other) {
            (Signature::Array(c1), Signature::Array(c2)) => c1.get().compare(c2.get()),
            (
                Signature::Dict { key: k1, value: v1 },
                Signature::Dict { key: k2, value: v2 },
            ) => {
                match k1.get().compare(k2.get()) {
                    core::cmp::Ordering::Equal => v1.get().compare(v2.get()),
                    o => o,
                }
            },
            (Signature::Structure(f1), Signature::Structure(f2)) => {
                let ghost va = fields_view(*f1);
                let ghost vb = fields_view(*f2);
                let n1 = f1.len();
                let n2 = f2.len();
                let mut i: usize = 0;
                proof {
                    assert(va.skip(0) =~= va);
                    assert(vb.skip(0) =~= vb);
                }
                while i < n1 && i < n2
                    invariant
                        i <= n1,
                        i <= n2,
                        n1 == va.len(),
                        n2 == vb.len(),
                        *self == Signature::Structure(*f1),
                        *other == Signature::Structure(*f2),
                        self@ == SigView::Structure(va),
                        other@ == SigView::Structure(vb),
                        seq_sig_cmp(va, vb) == seq_sig_cmp(
                            va.skip(i as int),
                            vb.skip(i as int),
                        ),
                    decreases n1 - i,
                {
                    proof {
                        lemma_fmt_strs_split(va, i as int);
                        assert(va.skip(i as int)[0] == va[i as int]);
                        assert(vb.skip(i as int)[0] == vb[i as int]);
                    }
                    match f1.field(i).compare(f2.field(i)) {
                        core::cmp::Ordering::Equal => {},
                        o => {
                            return o;
                        },
                    }
                    proof {
                        assert(va.skip(i as int).drop_first() =~= va.skip(i as int + 1));
                        assert(vb.skip(i as int).drop_first() =~= vb.skip(i as int + 1));
                    }
                    i = i + 1;
                }
                if n1 == n2 {
                    core::cmp::Ordering::Equal
                } else if n1 < n2 {
                    core::cmp::Ordering::Less
                } else {
                    core::cmp::Ordering::Greater
                }
            },
            _ => core::cmp::Ordering::Equal,
        }
    }
}

impl PartialEq for Signature {
    /// Equality follows the structural model: a statically built and a
    /// dynamically parsed signature of the same shape are equal.
    fn eq(&self, other: &Signature) -> (r: bool) {
        self.equals(other)
    }
}

impl Eq for Signature {
}

impl vstd::std_specs::cmp::PartialEqSpecImpl for Signature {
    open spec fn obeys_eq_spec() -> bool {
        true
    }

    open spec fn eq_spec(&self, other: &Signature) -> bool {
        self@ == other@
    }
}

impl PartialOrd for Signature {
    /// The order is total: every pair of signatures is comparable.
    fn partial_cmp(&self, other: &Signature) -> (r: Option<core::cmp::Ordering>) {
        Some(self.compare(other))
    }
}

impl vstd::std_specs::cmp::PartialOrdSpecImpl for Signature {
    open spec fn obeys_partial_cmp_spec() -> bool {
        true
    }

    open spec fn partial_cmp_spec(&self, other: &Signature) -> Option<core::cmp::Ordering> {
        Some(sig_cmp(self@, other@))
    }
}

/// Relies on `Arc::clone`: the returned handle refers to the same value,
/// no copy of the contents is made.
#[verifier::external_body]
pub(crate) fn arc_clone<T>(a: &Arc<T>) -> (r: Arc<T>)
    ensures
        r == *a,
{
    Arc::clone(a)
}

impl Clone for Signature {
    /// Clones the node only: any children stay shared with `self`.
    fn clone(&self) -> (r: Self)
        ensures
            r == *self,
    {
        match self {
            Signature::Unit => Signature::Unit,
            Signature::U8 => Signature::U8,
            Signature::Bool => Signature::Bool,
            Signature::I16 => Signature::I16,
            Signature::U16 => Signature::U16,
            Signature::I32 => Signature::I32,
            Signature::U32 => Signature::U32,
            Signature::I64 => Signature::I64,
            Signature::U64 => Signature::U64,
            Signature::F64 => Signature::F64,
            Signature::Str => Signature::Str,
            Signature::Signature => Signature::Signature,
            Signature::ObjectPath => Signature::ObjectPath,
            Signature::Value => Signature::Value,
            Signature::Fd => Signature::Fd,
            Signature::Array(c) => Signature::Array(c.clone()),
            Signature::Dict { key, value } => Signature::Dict {
                key: key.clone(),
                value: value.clone(),
            },
            Signature::Structure(fs) => Signature::Structure(fs.clone()),
        }
    }
}

} // verus!
