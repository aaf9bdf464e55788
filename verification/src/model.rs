//! Mathematical model of a fixed-width record layout.
//!
//! A layout is declared as an ordered list of field declarations and is
//! resolved into an ordered list of placed fields, each at the byte offset
//! given by the sum of the lengths of all earlier fields.

use vstd::prelude::*;
use crate::Alignment;

verus! {

/// A field declaration as the caller writes it: no offset yet.
#[verifier::ext_equal]
pub ghost struct FieldDecl {
    pub name: Seq<char>,
    pub len: nat,
    pub pad: char,
    pub align: Alignment,
}

/// A field as the schema owns it: placed at a definite byte offset.
#[verifier::ext_equal]
pub ghost struct FieldModel {
    pub name: Seq<char>,
    pub start: nat,
    pub length: nat,
    pub pad: char,
    pub align: Alignment,
}

/// The sum of the first `i` entries of `lens`.
pub open spec fn prefix_sum(lens: Seq<nat>, i: int) -> nat
    decreases i,
{
    if i <= 0 {
        0
    } else {
        prefix_sum(lens, i - 1) + lens[i - 1]
    }
}

pub open spec fn decl_lens(ds: Seq<FieldDecl>) -> Seq<nat> {
    ds.map_values(|d: FieldDecl| d.len)
}

pub open spec fn field_lens(fs: Seq<FieldModel>) -> Seq<nat> {
    fs.map_values(|f: FieldModel| f.length)
}

/// Every field starts exactly where the previous one ends: the layout is
/// packed from offset zero with no gaps and no overlaps.
pub open spec fn contiguous(fs: Seq<FieldModel>) -> bool {
    forall|i: int| 0 <= i < fs.len() ==> fs[i].start == prefix_sum(field_lens(fs), i)
}

/// The number of bytes the placed fields cover, counted from offset zero.
pub open spec fn total_len(fs: Seq<FieldModel>) -> nat {
    prefix_sum(field_lens(fs), fs.len() as int)
}

/// The placed fields that a list of declarations resolves to, in declaration
/// order, each at the cumulative offset of the declarations before it.
pub open spec fn resolve(ds: Seq<FieldDecl>) -> Seq<FieldModel> {
    Seq::new(
        ds.len(),
        |i: int| FieldModel {
            name: ds[i].name,
            start: prefix_sum(decl_lens(ds), i),
            length: ds[i].len,
            pad: ds[i].pad,
            align: ds[i].align,
        },
    )
}

/// `prefix_sum` reads only the first `i` entries.
pub proof fn lemma_prefix_sum_stable(l1: Seq<nat>, l2: Seq<nat>, i: int)
    requires
        0 <= i <= l1.len(),
        i <= l2.len(),
        forall|k: int| 0 <= k < i ==> l1[k] == l2[k],
    ensures
        prefix_sum(l1, i) == prefix_sum(l2, i),
    decreases i,
{
    if i > 0 {
        lemma_prefix_sum_stable(l1, l2, i - 1);
    }
}

/// Prefix sums grow with the prefix.
pub proof fn lemma_prefix_sum_mono(lens: Seq<nat>, i: int, j: int)
    requires
        0 <= i <= j,
    ensures
        prefix_sum(lens, i) <= prefix_sum(lens, j),
    decreases j,
{
    if i < j {
        lemma_prefix_sum_mono(lens, i, j - 1);
    }
}

/// When every length is at least one, a prefix sum bounds the field count.
pub proof fn lemma_count_le_prefix_sum(lens: Seq<nat>, i: int)
    requires
        0 <= i <= lens.len(),
        forall|k: int| 0 <= k < lens.len() ==> lens[k] >= 1,
    ensures
        i <= prefix_sum(lens, i),
    decreases i,
{
    if i > 0 {
        lemma_count_le_prefix_sum(lens, i - 1);
    }
}

/// Resolving a declaration list places its fields contiguously: field `i`
/// starts at the sum of the lengths declared before it.
pub proof fn lemma_resolve_contiguous(ds: Seq<FieldDecl>)
    ensures
        contiguous(resolve(ds)),
        total_len(resolve(ds)) == prefix_sum(decl_lens(ds), ds.len() as int),
        resolve(ds).len() == ds.len(),
{
    assert(field_lens(resolve(ds)) =~= decl_lens(ds));
}

/// Appending a field placed at the current end keeps the layout contiguous.
pub proof fn lemma_contiguous_push(fs: Seq<FieldModel>, f: FieldModel)
    requires
        contiguous(fs),
        f.start == total_len(fs),
    ensures
        contiguous(fs.push(f)),
        total_len(fs.push(f)) == total_len(fs) + f.length,
{
    let lens = field_lens(fs);
    let lens2 = field_lens(fs.push(f));
    assert(forall|k: int| 0 <= k < lens.len() ==> lens2[k] == lens[k]);
    assert forall|i: int| 0 <= i < fs.push(f).len() implies fs.push(f)[i].start == prefix_sum(
        lens2,
        i,
    ) by {
        lemma_prefix_sum_stable(lens2, lens, i);
        if i == fs.len() {
            assert(prefix_sum(lens2, i) == total_len(fs));
        }
    }
    lemma_prefix_sum_stable(lens2, lens, fs.len() as int);
}

} // verus!
