//! Specification model and code-skeleton planning for DSA-SPEC.
//!
//! The crate holds the language-agnostic AST of a data structure or
//! algorithm specification, and every computation done on it: assertion
//! parsing, identifier casing, type translation for each target language,
//! template contexts, contract injection, documentation, diagrams and
//! complexity reports.

pub mod text;
pub mod ast;
pub mod assertion;
pub mod casing;
pub mod error;
pub mod contracts;
pub mod template_engine;
pub mod type_map;
pub mod context;
pub mod backend;
pub mod python_backend;
pub mod typescript_backend;
pub mod csharp_backend;
pub mod go_backend;
pub mod doc_gen;
pub mod visualization;
pub mod complexity;
pub mod migrate;
