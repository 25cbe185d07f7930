//! Conversion of test files for a document-database client from the legacy
//! schema, with one implicit client, database and collection per file, into
//! the unified schema, with explicit entities that operations and
//! expectations refer to by name.
//!
//! A file is read into a generic document tree ([`value`]) and from there
//! into the typed legacy model ([`crud_v2`], [`decode`]). The conversion
//! ([`translate`], [`convert`]) builds the typed unified model ([`unified`]),
//! in which every name that has to be declared once and referred to elsewhere
//! is a reference token ([`tokens`]). The unified model is written out as a
//! document tree again ([`encode`]). Once that tree is rendered as text, the
//! resolver ([`resolver`]) turns each token into a declaration or a reference
//! and refuses a text in which a token is left. [`pipeline`] puts the steps
//! together around a renderer. [`declarations`] states how often a converted
//! file declares each name, [`references`] that each name it refers to is
//! declared.

pub mod convert;
pub mod crud_v2;
pub mod declarations;
pub mod decode;
pub mod encode;
pub mod pipeline;
pub mod references;
pub mod resolver;
pub mod text;
pub mod tokens;
pub mod translate;
pub mod unified;
pub mod value;
