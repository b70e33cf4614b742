//! How a configuration document is to be read.
//!
//! The document's syntax is told from the extension of its file name. TOML
//! and JSON are known; with any other extension, or none, TOML is tried
//! first and JSON if that fails.

use crate::text::same_text;
use vstd::prelude::*;

verus! {

/// The syntaxes to try on a configuration document.
#[derive(Debug, Clone, Copy, PartialEq, Eq, Structural)]
pub enum ConfigFormat {
    /// TOML, and nothing else.
    Toml,
    /// JSON, and nothing else.
    Json,
    /// TOML first; if the document is no TOML, JSON.
    TomlThenJson,
}

/// The syntaxes to try on a document whose file name has `extension`.
pub open spec fn format_for(extension: Option<Seq<char>>) -> ConfigFormat {
    match extension {
        Some(text) => if text == "toml"@ {
            ConfigFormat::Toml
        } else if text == "json"@ {
            ConfigFormat::Json
        } else {
            ConfigFormat::TomlThenJson
        },
        None => ConfigFormat::TomlThenJson,
    }
}

/// The view of an optional string slice.
pub open spec fn optional_str_view(text: Option<&str>) -> Option<Seq<char>> {
    match text {
        Some(text) => Some(text@),
        None => None,
    }
}

/// The syntaxes to try on a document whose file name has `extension`.
pub fn config_format(extension: Option<&str>) -> (format: ConfigFormat)
    ensures
        format == format_for(optional_str_view(extension)),
{
    match extension {
        Some(text) => {
            if same_text(text, "toml") {
                ConfigFormat::Toml
            } else if same_text(text, "json") {
                ConfigFormat::Json
            } else {
                ConfigFormat::TomlThenJson
            }
        },
        None => ConfigFormat::TomlThenJson,
    }
}

} // verus!
