//! Entropy-dataset core: the dataset model and loader for per-species nuclear
//! composition tables, together with the condition keys that locate a table on
//! disk.
//!
//! A composition table is plain text, optionally opened by one header line
//! that the loader ignores, then one species per line in eight
//! whitespace-separated fields: symbol, proton number, mass number, neutron
//! number, atomic mass, solar mass fraction, mass fraction and isotope mass
//! fraction.  The seven numeric fields are kept in their textual form, with
//! the invariant that each is a well-formed decimal floating-point literal;
//! callers that need the numeric values convert the validated text.  The
//! entropy formulas themselves are floating-point arithmetic and live with
//! the caller; everything on the way there — splitting, field validation,
//! stage tags, key and path derivation — is specified and verified here.

pub mod condition;
pub mod dataset;
pub mod error;
pub mod numeric;
pub mod stage;
pub mod text;
