//! Schemas for the cheque-custody record types, each written as one explicit
//! builder chain. Every chain resolves to exactly the same schema as the
//! table-driven construction of the corresponding field table.

use vstd::prelude::*;
use crate::cnab240::specs;
use crate::error::ParseError;
use crate::model::{prefix_sum, resolve};
use crate::{Alignment, FixedLengthParser, FixedLengthParserBuilder};

verus! {

/// The segment-D detail schema, declared field by field.
#[verifier::rlimit(40)]
pub fn cnab240_segment_d_parser() -> (r: Result<FixedLengthParser<240>, ParseError>)
    ensures
        r matches Ok(p) && p@ == resolve(specs::segmento_d_layout()),
{
    let b = FixedLengthParserBuilder::<240>::new();
    let b = b.add_field("banco", 3, '0', Alignment::Right)?;
    let b = b.add_field("lote", 4, '0', Alignment::Right)?;
    let b = b.add_field("tipo_registro", 1, '0', Alignment::Right)?;
    let b = b.add_field("num_sequencial", 5, '0', Alignment::Right)?;
    let b = b.add_field("segmento", 1, ' ', Alignment::Left)?;
    let b = b.add_field("cnab_reservado_1", 1, ' ', Alignment::Left)?;
    let b = b.add_field("tipo_movimento", 2, '0', Alignment::Right)?;
    let b = b.add_field("cod_finalidade", 2, '0', Alignment::Right)?;
    let b = b.add_field("forma_entrada", 1, '0', Alignment::Right)?;
    let b = b.add_field("cmc7", 34, ' ', Alignment::Left)?;
    let b = b.add_field("tipo_inscricao_emitente", 1, '0', Alignment::Right)?;
    let b = b.add_field("num_inscricao_emitente", 14, '0', Alignment::Right)?;
    let b = b.add_field("valor_cheque", 15, '0', Alignment::Right)?;
    let b = b.add_field("data_captura", 8, '0', Alignment::Right)?;
    let b = b.add_field("data_deposito", 8, '0', Alignment::Right)?;
    let b = b.add_field("data_credito", 8, '0', Alignment::Right)?;
    let b = b.add_field("seu_numero", 20, ' ', Alignment::Left)?;
    let b = b.add_field("uso_banco", 15, ' ', Alignment::Left)?;
    let b = b.add_field("agencia_devolucao", 5, '0', Alignment::Right)?;
    let b = b.add_field("conta_devolucao", 12, '0', Alignment::Right)?;
    let b = b.add_field("valor_juros", 11, '0', Alignment::Right)?;
    let b = b.add_field("valor_iof", 11, '0', Alignment::Right)?;
    let b = b.add_field("valor_outros_encargos", 11, '0', Alignment::Right)?;
    let b = b.add_field("num_contrato", 17, '0', Alignment::Right)?;
    let b = b.add_field("taxa_juros", 7, '0', Alignment::Right)?;
    let b = b.add_field("cnab_reservado_2", 13, ' ', Alignment::Left)?;
    let b = b.add_field("cod_ocorrencias", 10, ' ', Alignment::Left)?;
    proof {
        reveal_with_fuel(prefix_sum, 29);
        assert(b.spec_fields() =~= resolve(specs::segmento_d_layout()));
    }
    b.build()
}

/// The batch-header schema, declared field by field.
#[verifier::rlimit(40)]
pub fn cnab240_header_lote_registro_1_parser() -> (r: Result<FixedLengthParser<240>, ParseError>)
    ensures
        r matches Ok(p) && p@ == resolve(specs::header_lote_layout()),
{
    let b = FixedLengthParserBuilder::<240>::new();
    let b = b.add_field("banco", 3, '0', Alignment::Right)?;
    let b = b.add_field("lote", 4, '0', Alignment::Right)?;
    let b = b.add_field("tipo_registro", 1, '0', Alignment::Right)?;
    let b = b.add_field("operacao", 1, ' ', Alignment::Left)?;
    let b = b.add_field("tipo_servico", 2, '0', Alignment::Right)?;
    let b = b.add_field("cnab_reservado_1", 2, ' ', Alignment::Left)?;
    let b = b.add_field("versao_layout_lote", 3, '0', Alignment::Right)?;
    let b = b.add_field("cnab_reservado_2", 1, ' ', Alignment::Left)?;
    let b = b.add_field("tipo_inscricao_empresa", 1, '0', Alignment::Right)?;
    let b = b.add_field("num_inscricao_empresa", 14, '0', Alignment::Right)?;
    let b = b.add_field("convenio", 20, ' ', Alignment::Left)?;
    let b = b.add_field("agencia", 5, '0', Alignment::Right)?;
    let b = b.add_field("agencia_dv", 1, ' ', Alignment::Left)?;
    let b = b.add_field("conta", 12, '0', Alignment::Right)?;
    let b = b.add_field("conta_dv", 1, ' ', Alignment::Left)?;
    let b = b.add_field("ag_conta_dv", 1, ' ', Alignment::Left)?;
    let b = b.add_field("nome_empresa", 30, ' ', Alignment::Left)?;
    let b = b.add_field("uso_banco", 20, ' ', Alignment::Left)?;
    let b = b.add_field("cnab_reservado_3", 108, ' ', Alignment::Left)?;
    let b = b.add_field("cod_ocorrencias_lote", 10, ' ', Alignment::Left)?;
    proof {
        reveal_with_fuel(prefix_sum, 22);
        assert(b.spec_fields() =~= resolve(specs::header_lote_layout()));
    }
    b.build()
}

/// The batch-trailer schema, declared field by field.
#[verifier::rlimit(40)]
pub fn cnab240_trailer_lote_registro_5_parser() -> (r: Result<FixedLengthParser<240>, ParseError>)
    ensures
        r matches Ok(p) && p@ == resolve(specs::trailer_lote_layout()),
{
    let b = FixedLengthParserBuilder::<240>::new();
    let b = b.add_field("banco", 3, '0', Alignment::Right)?;
    let b = b.add_field("lote", 4, '0', Alignment::Right)?;
    let b = b.add_field("tipo_registro", 1, '0', Alignment::Right)?;
    let b = b.add_field("cnab_reservado_1", 9, ' ', Alignment::Left)?;
    let b = b.add_field("qtd_registros_lote", 6, '0', Alignment::Right)?;
    let b = b.add_field("valor_total_cheques", 18, '0', Alignment::Right)?;
    let b = b.add_field("qtd_cheques_lote", 6, '0', Alignment::Right)?;
    let b = b.add_field("valor_total_juros", 18, '0', Alignment::Right)?;
    let b = b.add_field("valor_total_iof", 15, '0', Alignment::Right)?;
    let b = b.add_field("valor_total_outros_encargos", 15, '0', Alignment::Right)?;
    let b = b.add_field("cnab_reservado_2", 135, ' ', Alignment::Left)?;
    let b = b.add_field("cod_ocorrencias_lote", 10, ' ', Alignment::Left)?;
    proof {
        reveal_with_fuel(prefix_sum, 14);
        assert(b.spec_fields() =~= resolve(specs::trailer_lote_layout()));
    }
    b.build()
}

} // verus!
