//! The CNAB240 field tables: one declarative list per record type, written
//! with the two declaration shorthands the format uses everywhere (numeric
//! fields right-aligned and zero-padded, text fields left-aligned and
//! blank-padded).

use vstd::prelude::*;
use crate::cnab240::table::{table_decls, FieldSpec};
use crate::model::FieldDecl;
use crate::Alignment;

verus! {

/// A numeric field declaration: right-aligned, zero-padded.
pub open spec fn num_decl(name: Seq<char>, len: nat) -> FieldDecl {
    FieldDecl { name, len, pad: '0', align: Alignment::Right }
}

/// A text field declaration: left-aligned, blank-padded.
pub open spec fn alfa_decl(name: Seq<char>, len: nat) -> FieldDecl {
    FieldDecl { name, len, pad: ' ', align: Alignment::Left }
}

/// Declares a numeric field: right-aligned, zero-padded.
pub fn num(name: &'static str, len: usize) -> (r: FieldSpec)
    ensures
        r@ == num_decl(name@, len as nat),
{
    FieldSpec { name, len, pad: '0', align: Alignment::Right }
}

/// Declares a text field: left-aligned, blank-padded.
pub fn alfa(name: &'static str, len: usize) -> (r: FieldSpec)
    ensures
        r@ == alfa_decl(name@, len as nat),
{
    FieldSpec { name, len, pad: ' ', align: Alignment::Left }
}

/// The file-trailer layout: 8 fields covering all 240 bytes.
pub open spec fn trailer_arquivo_layout() -> Seq<FieldDecl> {
    seq![
        num_decl("banco"@, 3),
        num_decl("lote"@, 4),
        num_decl("tipo_registro"@, 1),
        alfa_decl("cnab_reservado_1"@, 9),
        num_decl("qtd_lotes"@, 6),
        num_decl("qtd_registros"@, 6),
        num_decl("qtd_contas_concil"@, 6),
        alfa_decl("cnab_reservado_2"@, 205),
    ]
}

/// The file-trailer field table.
pub fn trailer_arquivo_fields() -> (r: Vec<FieldSpec>)
    ensures
        table_decls(r@) == trailer_arquivo_layout(),
{
    let mut v: Vec<FieldSpec> = Vec::new();
    v.push(num("banco", 3));
    v.push(num("lote", 4));
    v.push(num("tipo_registro", 1));
    v.push(alfa("cnab_reservado_1", 9));
    v.push(num("qtd_lotes", 6));
    v.push(num("qtd_registros", 6));
    v.push(num("qtd_contas_concil", 6));
    v.push(alfa("cnab_reservado_2", 205));
    proof {
        assert(table_decls(v@) =~= trailer_arquivo_layout());
    }
    v
}

/// The file-header layout: 24 fields covering all 240 bytes.
pub open spec fn header_arquivo_layout() -> Seq<FieldDecl> {
    seq![
        num_decl("banco"@, 3),
        num_decl("lote"@, 4),
        num_decl("tipo_registro"@, 1),
        alfa_decl("cnab_reservado_1"@, 9),
        num_decl("tipo_inscricao_empresa"@, 1),
        num_decl("num_inscricao_empresa"@, 14),
        alfa_decl("convenio"@, 20),
        num_decl("agencia"@, 5),
        alfa_decl("agencia_dv"@, 1),
        num_decl("conta"@, 12),
        alfa_decl("conta_dv"@, 1),
        alfa_decl("ag_conta_dv"@, 1),
        alfa_decl("nome_empresa"@, 30),
        alfa_decl("nome_banco"@, 30),
        alfa_decl("cnab_reservado_2"@, 10),
        num_decl("cod_remessa_retorno"@, 1),
        num_decl("data_geracao"@, 8),
        num_decl("hora_geracao"@, 6),
        num_decl("num_sequencial_arquivo"@, 6),
        num_decl("versao_layout_arquivo"@, 3),
        num_decl("densidade_gravacao"@, 5),
        alfa_decl("reservado_banco"@, 20),
        alfa_decl("reservado_empresa"@, 20),
        alfa_decl("cnab_reservado_3"@, 29),
    ]
}

/// The file-header field table.
pub fn header_arquivo_fields() -> (r: Vec<FieldSpec>)
    ensures
        table_decls(r@) == header_arquivo_layout(),
{
    let mut v: Vec<FieldSpec> = Vec::new();
    v.push(num("banco", 3));
    v.push(num("lote", 4));
    v.push(num("tipo_registro", 1));
    v.push(alfa("cnab_reservado_1", 9));
    v.push(num("tipo_inscricao_empresa", 1));
    v.push(num("num_inscricao_empresa", 14));
    v.push(alfa("convenio", 20));
    v.push(num("agencia", 5));
    v.push(alfa("agencia_dv", 1));
    v.push(num("conta", 12));
    v.push(alfa("conta_dv", 1));
    v.push(alfa("ag_conta_dv", 1));
    v.push(alfa("nome_empresa", 30));
    v.push(alfa("nome_banco", 30));
    v.push(alfa("cnab_reservado_2", 10));
    v.push(num("cod_remessa_retorno", 1));
    v.push(num("data_geracao", 8));
    v.push(num("hora_geracao", 6));
    v.push(num("num_sequencial_arquivo", 6));
    v.push(num("versao_layout_arquivo", 3));
    v.push(num("densidade_gravacao", 5));
    v.push(alfa("reservado_banco", 20));
    v.push(alfa("reservado_empresa", 20));
    v.push(alfa("cnab_reservado_3", 29));
    proof {
        assert(table_decls(v@) =~= header_arquivo_layout());
    }
    v
}

/// The batch-header layout: 20 fields covering all 240 bytes.
pub open spec fn header_lote_layout() -> Seq<FieldDecl> {
    seq![
        num_decl("banco"@, 3),
        num_decl("lote"@, 4),
        num_decl("tipo_registro"@, 1),
        alfa_decl("operacao"@, 1),
        num_decl("tipo_servico"@, 2),
        alfa_decl("cnab_reservado_1"@, 2),
        num_decl("versao_layout_lote"@, 3),
        alfa_decl("cnab_reservado_2"@, 1),
        num_decl("tipo_inscricao_empresa"@, 1),
        num_decl("num_inscricao_empresa"@, 14),
        alfa_decl("convenio"@, 20),
        num_decl("agencia"@, 5),
        alfa_decl("agencia_dv"@, 1),
        num_decl("conta"@, 12),
        alfa_decl("conta_dv"@, 1),
        alfa_decl("ag_conta_dv"@, 1),
        alfa_decl("nome_empresa"@, 30),
        alfa_decl("uso_banco"@, 20),
        alfa_decl("cnab_reservado_3"@, 108),
        alfa_decl("cod_ocorrencias_lote"@, 10),
    ]
}

/// The batch-header field table.
pub fn header_lote_fields() -> (r: Vec<FieldSpec>)
    ensures
        table_decls(r@) == header_lote_layout(),
{
    let mut v: Vec<FieldSpec> = Vec::new();
    v.push(num("banco", 3));
    v.push(num("lote", 4));
    v.push(num("tipo_registro", 1));
    v.push(alfa("operacao", 1));
    v.push(num("tipo_servico", 2));
    v.push(alfa("cnab_reservado_1", 2));
    v.push(num("versao_layout_lote", 3));
    v.push(alfa("cnab_reservado_2", 1));
    v.push(num("tipo_inscricao_empresa", 1));
    v.push(num("num_inscricao_empresa", 14));
    v.push(alfa("convenio", 20));
    v.push(num("agencia", 5));
    v.push(alfa("agencia_dv", 1));
    v.push(num("conta", 12));
    v.push(alfa("conta_dv", 1));
    v.push(alfa("ag_conta_dv", 1));
    v.push(alfa("nome_empresa", 30));
    v.push(alfa("uso_banco", 20));
    v.push(alfa("cnab_reservado_3", 108));
    v.push(alfa("cod_ocorrencias_lote", 10));
    proof {
        assert(table_decls(v@) =~= header_lote_layout());
    }
    v
}

/// The batch-trailer layout: 12 fields covering all 240 bytes.
pub open spec fn trailer_lote_layout() -> Seq<FieldDecl> {
    seq![
        num_decl("banco"@, 3),
        num_decl("lote"@, 4),
        num_decl("tipo_registro"@, 1),
        alfa_decl("cnab_reservado_1"@, 9),
        num_decl("qtd_registros_lote"@, 6),
        num_decl("valor_total_cheques"@, 18),
        num_decl("qtd_cheques_lote"@, 6),
        num_decl("valor_total_juros"@, 18),
        num_decl("valor_total_iof"@, 15),
        num_decl("valor_total_outros_encargos"@, 15),
        alfa_decl("cnab_reservado_2"@, 135),
        alfa_decl("cod_ocorrencias_lote"@, 10),
    ]
}

/// The batch-trailer field table.
pub fn trailer_lote_fields() -> (r: Vec<FieldSpec>)
    ensures
        table_decls(r@) == trailer_lote_layout(),
{
    let mut v: Vec<FieldSpec> = Vec::new();
    v.push(num("banco", 3));
    v.push(num("lote", 4));
    v.push(num("tipo_registro", 1));
    v.push(alfa("cnab_reservado_1", 9));
    v.push(num("qtd_registros_lote", 6));
    v.push(num("valor_total_cheques", 18));
    v.push(num("qtd_cheques_lote", 6));
    v.push(num("valor_total_juros", 18));
    v.push(num("valor_total_iof", 15));
    v.push(num("valor_total_outros_encargos", 15));
    v.push(alfa("cnab_reservado_2", 135));
    v.push(alfa("cod_ocorrencias_lote", 10));
    proof {
        assert(table_decls(v@) =~= trailer_lote_layout());
    }
    v
}

/// The segment-D detail layout: 27 fields covering all 240 bytes.
pub open spec fn segmento_d_layout() -> Seq<FieldDecl> {
    seq![
        num_decl("banco"@, 3),
        num_decl("lote"@, 4),
        num_decl("tipo_registro"@, 1),
        num_decl("num_sequencial"@, 5),
        alfa_decl("segmento"@, 1),
        alfa_decl("cnab_reservado_1"@, 1),
        num_decl("tipo_movimento"@, 2),
        num_decl("cod_finalidade"@, 2),
        num_decl("forma_entrada"@, 1),
        alfa_decl("cmc7"@, 34),
        num_decl("tipo_inscricao_emitente"@, 1),
        num_decl("num_inscricao_emitente"@, 14),
        num_decl("valor_cheque"@, 15),
        num_decl("data_captura"@, 8),
        num_decl("data_deposito"@, 8),
        num_decl("data_credito"@, 8),
        alfa_decl("seu_numero"@, 20),
        alfa_decl("uso_banco"@, 15),
        num_decl("agencia_devolucao"@, 5),
        num_decl("conta_devolucao"@, 12),
        num_decl("valor_juros"@, 11),
        num_decl("valor_iof"@, 11),
        num_decl("valor_outros_encargos"@, 11),
        num_decl("num_contrato"@, 17),
        num_decl("taxa_juros"@, 7),
        alfa_decl("cnab_reservado_2"@, 13),
        alfa_decl("cod_ocorrencias"@, 10),
    ]
}

/// The segment-D field table.
pub fn segmento_d_fields() -> (r: Vec<FieldSpec>)
    ensures
        table_decls(r@) == segmento_d_layout(),
{
    let mut v: Vec<FieldSpec> = Vec::new();
    v.push(num("banco", 3));
    v.push(num("lote", 4));
    v.push(num("tipo_registro", 1));
    v.push(num("num_sequencial", 5));
    v.push(alfa("segmento", 1));
    v.push(alfa("cnab_reservado_1", 1));
    v.push(num("tipo_movimento", 2));
    v.push(num("cod_finalidade", 2));
    v.push(num("forma_entrada", 1));
    v.push(alfa("cmc7", 34));
    v.push(num("tipo_inscricao_emitente", 1));
    v.push(num("num_inscricao_emitente", 14));
    v.push(num("valor_cheque", 15));
    v.push(num("data_captura", 8));
    v.push(num("data_deposito", 8));
    v.push(num("data_credito", 8));
    v.push(alfa("seu_numero", 20));
    v.push(alfa("uso_banco", 15));
    v.push(num("agencia_devolucao", 5));
    v.push(num("conta_devolucao", 12));
    v.push(num("valor_juros", 11));
    v.push(num("valor_iof", 11));
    v.push(num("valor_outros_encargos", 11));
    v.push(num("num_contrato", 17));
    v.push(num("taxa_juros", 7));
    v.push(alfa("cnab_reservado_2", 13));
    v.push(alfa("cod_ocorrencias", 10));
    proof {
        assert(table_decls(v@) =~= segmento_d_layout());
    }
    v
}

} // verus!
