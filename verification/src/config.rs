//! Configuration sections that the library reads. The file format (TOML) and the
//! planning section, which holds a floating-point rating, are handled by the
//! application around the library.

use vstd::prelude::*;

verus! {

/// Which LLM backend to use and how to reach each of them.
pub struct LlmConfig {
    /// "local" or "cloud"
    pub provider: String,
    pub local: LocalLlmConfig,
    pub cloud: CloudLlmConfig,
}

/// A local OpenAI-compatible server such as llama.cpp.
pub struct LocalLlmConfig {
    /// e.g. "http://localhost:8080/v1"
    pub base_url: String,
    /// Model name as reported by llama.cpp
    pub model: String,
}

/// A hosted OpenAI-compatible endpoint.
pub struct CloudLlmConfig {
    /// e.g. "https://api.anthropic.com" or an OpenAI-compatible endpoint
    pub base_url: String,
    pub model: String,
    /// Name of the environment variable that holds the API key.
    pub api_key_env: String,
}

/// Where the Mealie server is and where its API token is kept.
pub struct MealieConfig {
    /// e.g. "http://mealie.local:9925"
    pub base_url: String,
    /// Name of the environment variable that holds the API token.
    pub api_token_env: String,
}

/// Where the meal memory database lives.
pub struct MemoryConfig {
    /// Path of the SQLite database file.
    pub db_path: String,
}

/// Telemetry export settings.
pub struct TelemetryConfig {
    /// OTLP endpoint for exporting traces
    pub otlp_endpoint: String,
    /// Application tag for telemetry
    pub app_name: String,
}

} // verus!
