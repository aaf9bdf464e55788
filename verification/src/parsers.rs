//! Explicit builder chains for the cheque-custody record types.

pub mod custodia_de_cheques;
