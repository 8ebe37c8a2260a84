//! Validation of Brazilian taxpayer identification numbers.
//!
//! The library classifies an input string as a CPF (11-digit individual
//! taxpayer number) or a CNPJ (14-digit legal-entity number), accepting
//! either the bare digit sequence or the conventional punctuated form,
//! strips punctuation, checks the weighted-checksum digits of the chosen
//! family, and returns a canonical digit-only document value or the first
//! error the pipeline finds.

pub mod digits;
pub mod cpf;
pub mod cnpj;
pub mod document;

pub use document::CNPJDocument;
pub use document::CPFDocument;
pub use document::DocumentNumber;
pub use document::ErrorKind;
