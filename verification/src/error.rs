//! Errors the library reports.

use vstd::prelude::*;

use crate::text::{decimal, push_decimal, to_owned_string};

verus! {

/// An error raised by the library's own checks.
#[derive(Debug, Clone, PartialEq, Eq)]
pub enum AppError {
    /// A human-readable failure.
    Msg(String),
    /// A model registry file with a major version newer than this build understands.
    RegistryVersion { got: u32 },
    /// A configuration file that needs `clai migrate` before use.
    ConfigNeedsMigration { current: u32, latest: u32 },
    /// A document could not be written out as TOML; the serializer's message.
    TomlSer(String),
}

/// The error as a spec value: which variant, and the message or numbers it carries.
pub open spec fn msg_error(e: AppError, m: Seq<char>) -> bool {
    match e {
        AppError::Msg(s) => s@ == m,
        _ => false,
    }
}

/// The text shown to the user for an error.
pub open spec fn message_spec(e: AppError) -> Seq<char> {
    match e {
        AppError::Msg(s) => s@,
        AppError::RegistryVersion { got } => "model registry major version "@ + decimal(got as nat)
            + " unsupported; upgrade clai"@,
        AppError::ConfigNeedsMigration { current, latest } => "config version "@ + decimal(
            current as nat,
        ) + " requires migration to "@ + decimal(latest as nat)
            + "; run `clai migrate --dry-run`"@,
        AppError::TomlSer(s) => s@,
    }
}

impl AppError {
    /// The text shown to the user for this error.
    pub fn message(&self) -> (r: String)
        ensures
            r@ == message_spec(*self),
    {
        match self {
            AppError::Msg(s) => s.clone(),
            AppError::RegistryVersion { got } => {
                let mut out = to_owned_string("model registry major version ");
                push_decimal(&mut out, *got as u64);
                out.append(" unsupported; upgrade clai");
                out
            },
            AppError::ConfigNeedsMigration { current, latest } => {
                let mut out = to_owned_string("config version ");
                push_decimal(&mut out, *current as u64);
                out.append(" requires migration to ");
                push_decimal(&mut out, *latest as u64);
                out.append("; run `clai migrate --dry-run`");
                out
            },
            AppError::TomlSer(s) => s.clone(),
        }
    }
}

} // verus!
