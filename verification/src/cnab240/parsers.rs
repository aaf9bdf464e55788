//! Ready-made 240-byte schemas, one per CNAB240 record type, each built from
//! its field table.

use vstd::prelude::*;
use crate::cnab240::specs;
use crate::cnab240::table::{build_parser, lemma_total_fits};
use crate::error::ParseError;
use crate::model::{decl_lens, prefix_sum, resolve};
use crate::FixedLengthParser;

verus! {

/// The file-header schema.
pub fn header_arquivo() -> (r: Result<FixedLengthParser<240>, ParseError>)
    ensures
        r matches Ok(p) && p@ == resolve(specs::header_arquivo_layout()),
{
    let table = specs::header_arquivo_fields();
    proof {
        let ds = specs::header_arquivo_layout();
        reveal_with_fuel(prefix_sum, 26);
        assert(prefix_sum(decl_lens(ds), ds.len() as int) == 240);
        lemma_total_fits(ds, 240);
    }
    build_parser::<240>(table.as_slice())
}

/// The file-trailer schema.
pub fn trailer_arquivo() -> (r: Result<FixedLengthParser<240>, ParseError>)
    ensures
        r matches Ok(p) && p@ == resolve(specs::trailer_arquivo_layout()),
{
    let table = specs::trailer_arquivo_fields();
    proof {
        let ds = specs::trailer_arquivo_layout();
        reveal_with_fuel(prefix_sum, 10);
        assert(prefix_sum(decl_lens(ds), ds.len() as int) == 240);
        lemma_total_fits(ds, 240);
    }
    build_parser::<240>(table.as_slice())
}

/// The batch-header schema.
pub fn header_lote() -> (r: Result<FixedLengthParser<240>, ParseError>)
    ensures
        r matches Ok(p) && p@ == resolve(specs::header_lote_layout()),
{
    let table = specs::header_lote_fields();
    proof {
        let ds = specs::header_lote_layout();
        reveal_with_fuel(prefix_sum, 22);
        assert(prefix_sum(decl_lens(ds), ds.len() as int) == 240);
        lemma_total_fits(ds, 240);
    }
    build_parser::<240>(table.as_slice())
}

/// The batch-trailer schema.
pub fn trailer_lote() -> (r: Result<FixedLengthParser<240>, ParseError>)
    ensures
        r matches Ok(p) && p@ == resolve(specs::trailer_lote_layout()),
{
    let table = specs::trailer_lote_fields();
    proof {
        let ds = specs::trailer_lote_layout();
        reveal_with_fuel(prefix_sum, 14);
        assert(prefix_sum(decl_lens(ds), ds.len() as int) == 240);
        lemma_total_fits(ds, 240);
    }
    build_parser::<240>(table.as_slice())
}

/// The segment-D detail schema.
pub fn segmento_d() -> (r: Result<FixedLengthParser<240>, ParseError>)
    ensures
        r matches Ok(p) && p@ == resolve(specs::segmento_d_layout()),
{
    let table = specs::segmento_d_fields();
    proof {
        let ds = specs::segmento_d_layout();
        reveal_with_fuel(prefix_sum, 29);
        assert(prefix_sum(decl_lens(ds), ds.len() as int) == 240);
        lemma_total_fits(ds, 240);
    }
    build_parser::<240>(table.as_slice())
}

} // verus!
