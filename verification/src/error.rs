//! Error types for parser/validation (`SpecError`) and
//! template/formatter failures (`BackendError`), with their messages.

use vstd::prelude::*;
use crate::text::{decimal, owned, usize_to_string};

verus! {

/// Errors produced during spec parsing and validation.
///
/// Carries line/column information when available for parse errors,
/// and JSON Schema instance path for validation errors.
#[derive(Debug)]
pub enum SpecError {
    /// YAML parse failure with optional source location.
    ParseError { message: String, line: Option<usize>, column: Option<usize> },
    /// JSON Schema validation failure with path.
    ValidationError { message: String, path: String },
    /// Internal schema compilation failure.
    SchemaError { message: String },
    /// Spec version is incompatible with the current binary.
    VersionMismatch { expected: String, found: String },
    /// Filesystem I/O error.
    IoError { message: String },
}

/// The message of a [`SpecError`].
pub open spec fn spec_error_text(e: SpecError) -> Seq<char> {
    match e {
        SpecError::ParseError { message, line, column } => match (line, column) {
            (Some(l), Some(c)) => "parse error at line "@ + decimal(l as nat) + ", column "@
                + decimal(c as nat) + ": "@ + message@,
            _ => "parse error: "@ + message@,
        },
        SpecError::ValidationError { message, path } => "validation error at "@ + path@ + ": "@
            + message@,
        SpecError::SchemaError { message } => "schema error: "@ + message@,
        SpecError::VersionMismatch { expected, found } => "version mismatch: expected "@
            + expected@ + ", found "@ + found@,
        SpecError::IoError { message } => "I/O error: "@ + message@,
    }
}

impl SpecError {
    /// The human-readable message of the error.
    pub fn to_string(&self) -> (r: String)
        ensures
            r@ == spec_error_text(*self),
    {
        match self {
            SpecError::ParseError { message, line, column } => match (line, column) {
                (Some(l), Some(c)) => {
                    let mut r = owned("parse error at line ");
                    r.append(usize_to_string(*l).as_str());
                    r.append(", column ");
                    r.append(usize_to_string(*c).as_str());
                    r.append(": ");
                    r.append(message.as_str());
                    r
                },
                _ => {
                    let mut r = owned("parse error: ");
                    r.append(message.as_str());
                    r
                },
            },
            SpecError::ValidationError { message, path } => {
                let mut r = owned("validation error at ");
                r.append(path.as_str());
                r.append(": ");
                r.append(message.as_str());
                r
            },
            SpecError::SchemaError { message } => {
                let mut r = owned("schema error: ");
                r.append(message.as_str());
                r
            },
            SpecError::VersionMismatch { expected, found } => {
                let mut r = owned("version mismatch: expected ");
                r.append(expected.as_str());
                r.append(", found ");
                r.append(found.as_str());
                r
            },
            SpecError::IoError { message } => {
                let mut r = owned("I/O error: ");
                r.append(message.as_str());
                r
            },
        }
    }
}

/// Errors produced during code generation and formatting.
#[derive(Debug)]
pub enum BackendError {
    /// Template engine initialization failure.
    TemplateInit { message: String },
    /// Template rendering failure.
    TemplateRender { message: String },
    /// External code formatter failure (rustfmt, black, etc.).
    Formatter { message: String },
}

/// The message of a [`BackendError`].
pub open spec fn backend_error_text(e: BackendError) -> Seq<char> {
    match e {
        BackendError::TemplateInit { message } => "template init error: "@ + message@,
        BackendError::TemplateRender { message } => "template render error: "@ + message@,
        BackendError::Formatter { message } => "formatter error: "@ + message@,
    }
}

impl BackendError {
    /// The human-readable message of the error.
    pub fn to_string(&self) -> (r: String)
        ensures
            r@ == backend_error_text(*self),
    {
        let mut r = match self {
            BackendError::TemplateInit { .. } => owned("template init error: "),
            BackendError::TemplateRender { .. } => owned("template render error: "),
            BackendError::Formatter { .. } => owned("formatter error: "),
        };
        match self {
            BackendError::TemplateInit { message } => r.append(message.as_str()),
            BackendError::TemplateRender { message } => r.append(message.as_str()),
            BackendError::Formatter { message } => r.append(message.as_str()),
        }
        r
    }
}

} // verus!
