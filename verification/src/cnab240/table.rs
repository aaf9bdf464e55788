//! Turns a declarative field table into a finalized schema by feeding every
//! declaration to the schema builder in order.

use vstd::prelude::*;
use crate::error::ParseError;
use crate::model::{contiguous, decl_lens, prefix_sum, resolve, FieldDecl};
use crate::{Alignment, FixedLengthParser, FixedLengthParserBuilder};

verus! {

/// A field declaration as a field table states it: no offset, only name,
/// length, pad character and alignment.
#[derive(Debug, Clone, Copy)]
pub struct FieldSpec {
    pub name: &'static str,
    pub len: usize,
    pub pad: char,
    pub align: Alignment,
}

impl View for FieldSpec {
    type V = FieldDecl;

    open spec fn view(&self) -> FieldDecl {
        FieldDecl { name: self.name@, len: self.len as nat, pad: self.pad, align: self.align }
    }
}

/// The declaration list that a field table stands for.
pub open spec fn table_decls(table: Seq<FieldSpec>) -> Seq<FieldDecl> {
    table.map_values(|f: FieldSpec| f@)
}

/// Every declaration fits: each cumulative length stays within `n`.
pub open spec fn all_fit(ds: Seq<FieldDecl>, n: nat) -> bool {
    forall|j: int| 1 <= j <= ds.len() ==> prefix_sum(decl_lens(ds), j) <= n
}

/// Declaration `j` is the first whose byte range runs past `n`: it starts
/// within bounds, ends beyond them, and every declaration before it fits.
pub open spec fn unfit_at(ds: Seq<FieldDecl>, n: nat, j: int) -> bool {
    &&& 0 <= j < ds.len()
    &&& prefix_sum(decl_lens(ds), j) + ds[j].len > n
    &&& forall|k: int| 1 <= k <= j ==> prefix_sum(decl_lens(ds), k) <= n
}

/// The index of the first declaration that does not fit within `n`.
pub open spec fn first_unfit(ds: Seq<FieldDecl>, n: nat) -> int {
    choose|j: int| unfit_at(ds, n, j)
}

/// Every declaration fits once the total declared length does: prefix sums
/// only grow.
pub proof fn lemma_total_fits(ds: Seq<FieldDecl>, n: nat)
    requires
        prefix_sum(decl_lens(ds), ds.len() as int) <= n,
    ensures
        all_fit(ds, n),
{
    assert forall|j: int| 1 <= j <= ds.len() implies prefix_sum(decl_lens(ds), j) <= n by {
        crate::model::lemma_prefix_sum_mono(decl_lens(ds), j, ds.len() as int);
    }
}

/// A valid layout always builds. When every declared length is at least one
/// and the lengths sum to at most `n`: every declaration fits, so each
/// `add_field` succeeds; at most `n` fields are declared, so `build`
/// succeeds; and the resolved schema is contiguous and gapless, every field
/// after the first starting exactly where the previous one ends.
pub proof fn lemma_valid_layout_builds(ds: Seq<FieldDecl>, n: nat)
    requires
        forall|i: int| 0 <= i < ds.len() ==> ds[i].len >= 1,
        prefix_sum(decl_lens(ds), ds.len() as int) <= n,
    ensures
        all_fit(ds, n),
        ds.len() <= n,
        contiguous(resolve(ds)),
        forall|i: int| 1 <= i < resolve(ds).len() ==> (#[trigger] resolve(ds)[i]).start == resolve(
            ds,
        )[i - 1].start + resolve(ds)[i - 1].length,
{
    lemma_total_fits(ds, n);
    assert(forall|k: int| 0 <= k < decl_lens(ds).len() ==> decl_lens(ds)[k] >= 1);
    crate::model::lemma_count_le_prefix_sum(decl_lens(ds), ds.len() as int);
    crate::model::lemma_resolve_contiguous(ds);
    assert forall|i: int| 1 <= i < resolve(ds).len() implies (#[trigger] resolve(ds)[i]).start
        == resolve(ds)[i - 1].start + resolve(ds)[i - 1].length by {
        assert(prefix_sum(decl_lens(ds), i) == prefix_sum(decl_lens(ds), i - 1) + ds[i - 1].len);
    }
}

/// At most one declaration can be the first that does not fit.
proof fn lemma_unfit_unique(ds: Seq<FieldDecl>, n: nat, i: int, j: int)
    requires
        unfit_at(ds, n, i),
        unfit_at(ds, n, j),
    ensures
        i == j,
{
    if i < j {
        assert(prefix_sum(decl_lens(ds), i + 1) == prefix_sum(decl_lens(ds), i) + ds[i].len);
    }
    if j < i {
        assert(prefix_sum(decl_lens(ds), j + 1) == prefix_sum(decl_lens(ds), j) + ds[j].len);
    }
}

/// Builds the schema that `table` declares, one `add_field` per entry in
/// order. Succeeds exactly when every entry fits within `N` and there are at
/// most `N` entries; otherwise reports the same error the builder does.
pub fn build_parser<const N: usize>(table: &[FieldSpec]) -> (r: Result<
    FixedLengthParser<N>,
    ParseError,
>)
    ensures
        all_fit(table_decls(table@), N as nat) && table@.len() <= N ==> (r matches Ok(p) && p@
            == resolve(table_decls(table@))),
        all_fit(table_decls(table@), N as nat) && table@.len() > N ==> (r matches Err(
            ParseError::InvalidLength { expected, actual },
        ) && expected == N && actual == table@.len()),
        !all_fit(table_decls(table@), N as nat) ==> (r matches Err(ParseError::FieldOutOfBound {
            field,
            position,
            max,
        }) && ({
            let j = first_unfit(table_decls(table@), N as nat);
            &&& unfit_at(table_decls(table@), N as nat, j)
            &&& field@ == table_decls(table@)[j].name
            &&& position.0 == prefix_sum(decl_lens(table_decls(table@)), j)
            &&& position.1 == table_decls(table@)[j].len
            &&& max == N
        })),
{
    let ghost ds = table_decls(table@);
    let mut b = FixedLengthParserBuilder::<N>::new();
    let n_fields = table.len();
    let mut i: usize = 0;
    proof {
        assert(b.spec_fields() =~= resolve(ds).take(0));
    }
    while i < n_fields
        invariant
            n_fields == table@.len(),
            i <= n_fields,
            ds == table_decls(table@),
            b.spec_fields() == resolve(ds).take(i as int),
            b.cursor() == prefix_sum(decl_lens(ds), i as int),
            forall|k: int| 1 <= k <= i ==> prefix_sum(decl_lens(ds), k) <= N,
        decreases n_fields - i,
    {
        let f = table[i];
        proof {
            assert(ds[i as int] == f@);
            assert(decl_lens(ds)[i as int] == f@.len);
            assert(prefix_sum(decl_lens(ds), i as int + 1) == prefix_sum(decl_lens(ds), i as int)
                + f@.len);
        }
        match b.add_field(f.name, f.len, f.pad, f.align) {
            Ok(b2) => {
                proof {
                    assert(resolve(ds).take(i as int + 1).drop_last() =~= resolve(ds).take(
                        i as int,
                    ));
                    assert(b2.spec_fields() =~= resolve(ds).take(i as int + 1));
                }
                b = b2;
            },
            Err(e) => {
                proof {
                    assert(unfit_at(ds, N as nat, i as int));
                    lemma_unfit_unique(ds, N as nat, i as int, first_unfit(ds, N as nat));
                }
                return Err(e);
            },
        }
        i = i + 1;
    }
    proof {
        assert(resolve(ds).take(n_fields as int) =~= resolve(ds));
    }
    b.build()
}

} // verus!
