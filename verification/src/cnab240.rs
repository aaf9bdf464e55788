//! CNAB240: ready-made 240-byte record schemas, each defined by a declarative
//! field table and wired into the generic schema builder.

pub mod parsers;
pub mod specs;
pub mod table;
