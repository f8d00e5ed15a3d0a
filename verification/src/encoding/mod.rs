//! The byte-level format of encoded records: ASN.1 DER fields, each made of a
//! tag, a length and a value.
//!
//! `format` states which bytes encode which value, `codec` holds the calls into
//! the DER codec that produce and read those bytes, and `laws` proves what the
//! readers of a record rely on: no field is the beginning of another one, and a
//! field determines its value.

pub mod codec;
pub mod format;
pub mod laws;
pub mod size;
