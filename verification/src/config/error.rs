//! Config Error module
use vstd::prelude::*;

verus! {

/// Config error enum
#[derive(Debug, Clone, PartialEq, Eq)]
pub enum ConfigError {
    /// File not found (the path)
    FileNotFound(String),
    /// IO error (its message)
    Io(String),
    /// JSON parse error (its message)
    Json(String),
    /// TOML parse error (its message)
    Toml(String),
    /// YAML parse error (its message)
    Yaml(String),
    /// Notify watcher error (its message)
    Notify(String),
    /// Unsupported file format
    UnsupportedFormat(String),
    /// Parse error
    Parse(String),
}

/// The human-readable text of a configuration error.
pub open spec fn config_error_text(e: ConfigError) -> Seq<char> {
    match e {
        ConfigError::FileNotFound(s) => "file not found: "@ + s@,
        ConfigError::Io(s) => "IO error: "@ + s@,
        ConfigError::Json(s) => "JSON parse error: "@ + s@,
        ConfigError::Toml(s) => "TOML parse error: "@ + s@,
        ConfigError::Yaml(s) => "YAML parse error: "@ + s@,
        ConfigError::Notify(s) => "Notify watcher error: "@ + s@,
        ConfigError::UnsupportedFormat(s) => "Unsupported file format: "@ + s@
            + ". Supported formats: .json, .toml, .yaml, .yml"@,
        ConfigError::Parse(s) => "Parse error: "@ + s@,
    }
}

impl ConfigError {
    /// Renders the error as its message text.
    pub fn message(&self) -> (r: String)
        ensures
            r@ == config_error_text(*self),
    {
        match self {
            ConfigError::FileNotFound(s) => String::from_str("file not found: ").concat(s.as_str()),
            ConfigError::Io(s) => String::from_str("IO error: ").concat(s.as_str()),
            ConfigError::Json(s) => String::from_str("JSON parse error: ").concat(s.as_str()),
            ConfigError::Toml(s) => String::from_str("TOML parse error: ").concat(s.as_str()),
            ConfigError::Yaml(s) => String::from_str("YAML parse error: ").concat(s.as_str()),
            ConfigError::Notify(s) => String::from_str("Notify watcher error: ").concat(s.as_str()),
            ConfigError::UnsupportedFormat(s) => String::from_str("Unsupported file format: ").concat(
                s.as_str(),
            ).concat(". Supported formats: .json, .toml, .yaml, .yml"),
            ConfigError::Parse(s) => String::from_str("Parse error: ").concat(s.as_str()),
        }
    }
}

} // verus!
