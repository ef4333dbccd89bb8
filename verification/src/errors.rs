//! The library's error type. Each failure mode of model resolution, loading
//! and inference is a distinct variant, so that contracts can say exactly
//! which error an input produces.

use vstd::prelude::*;
use vstd::string::*;

verus! {

/// One of the four provider backends a loader can bind to.
#[derive(Clone, Copy, PartialEq, Eq, Structural, Debug)]
pub enum ProviderKind {
    /// The daemon serving models over its own HTTP API on port 11434.
    OllamaServer,
    /// The same daemon reached through the scripting bridge.
    PythonOllama,
    /// The daemon serving an OpenAI-style HTTP API on port 1234.
    LmStudio,
    /// The tensor library reached through the scripting bridge.
    HuggingFaceBridge,
}

/// What went wrong in model resolution, loading or inference.
#[derive(Clone, Debug)]
pub enum ModelError {
    /// `infer` was called before a successful `load`.
    NotLoaded,
    /// The resolved file is a placeholder artifact, not a real model.
    PlaceholderModel { path: String },
    /// The bound backend did not answer its availability probe.
    BackendUnavailable { backend: ProviderKind },
    /// A backend answered with a non-success HTTP status.
    ApiError { backend: ProviderKind, status: u16, body: String },
    /// A backend's reply did not have the promised shape.
    MalformedResponse { backend: ProviderKind },
    /// The scripting bridge failed: interpreter missing or script error.
    BridgeFailure { backend: ProviderKind, detail: String },
    /// A generation call failed; the detail carries the underlying error's
    /// rendered form, wrapped with remediation context.
    InferenceFailed { backend: ProviderKind, detail: String },
    /// No model file was found for the configured name.
    ModelFileNotFound { searched: String, listing: Vec<String> },
    /// A download could not be carried out.
    DownloadFailed { detail: String },
    /// The persisted configuration could not be read or parsed.
    InvalidConfig { detail: String },
    /// A directory or file could not be written.
    FileSystem { detail: String },
}

/// The backend an error speaks of, when it speaks of one.
pub open spec fn spec_error_backend(e: ModelError) -> Option<ProviderKind> {
    match e {
        ModelError::BackendUnavailable { backend } => Some(backend),
        ModelError::ApiError { backend, .. } => Some(backend),
        ModelError::MalformedResponse { backend } => Some(backend),
        ModelError::BridgeFailure { backend, .. } => Some(backend),
        ModelError::InferenceFailed { backend, .. } => Some(backend),
        _ => None,
    }
}

/// The fixed text that opens the display form of each error variant.
pub open spec fn spec_error_heading(e: ModelError) -> Seq<char> {
    match e {
        ModelError::NotLoaded => "Model not loaded"@,
        ModelError::PlaceholderModel { .. } => "Placeholder model file detected: "@,
        ModelError::BackendUnavailable { backend } => match backend {
            ProviderKind::OllamaServer => "Ollama server is not running. Please start Ollama first."@,
            ProviderKind::PythonOllama => "Python ollama client is not available."@,
            ProviderKind::LmStudio => "LM Studio server is not running. Start LM Studio, load a model, and enable the local server (port 1234)."@,
            ProviderKind::HuggingFaceBridge => "Hugging Face transformers library is not available. Install with: pip install transformers"@,
        },
        ModelError::ApiError { backend, .. } => match backend {
            ProviderKind::OllamaServer => "Ollama API error: "@,
            ProviderKind::PythonOllama => "Python ollama error: "@,
            ProviderKind::LmStudio => "LM Studio API error: "@,
            ProviderKind::HuggingFaceBridge => "Hugging Face inference error: "@,
        },
        ModelError::MalformedResponse { .. } => "No response from backend"@,
        ModelError::BridgeFailure { backend, .. } => match backend {
            ProviderKind::OllamaServer => "Ollama error: "@,
            ProviderKind::PythonOllama => "Python ollama error: "@,
            ProviderKind::LmStudio => "LM Studio error: "@,
            ProviderKind::HuggingFaceBridge => "Hugging Face inference error: "@,
        },
        ModelError::InferenceFailed { backend, .. } => match backend {
            ProviderKind::OllamaServer => "Ollama inference failed. Error: "@,
            ProviderKind::PythonOllama => "Python ollama inference failed. Error: "@,
            ProviderKind::LmStudio => "LM Studio inference failed. Make sure LM Studio is running with a model loaded and its local server enabled. Error: "@,
            ProviderKind::HuggingFaceBridge => "Hugging Face inference failed. Error: "@,
        },
        ModelError::ModelFileNotFound { .. } => "Model file not found: "@,
        ModelError::DownloadFailed { .. } => "Download failed: "@,
        ModelError::InvalidConfig { .. } => "Invalid model configuration: "@,
        ModelError::FileSystem { .. } => "Filesystem error: "@,
    }
}

/// The display form of an error: its heading followed by its details.
pub open spec fn spec_error_message(e: ModelError) -> Seq<char> {
    match e {
        ModelError::PlaceholderModel { path } => spec_error_heading(e) + path@,
        ModelError::ApiError { status, body, .. } => spec_error_heading(e) + crate::strings::dec_of(
            status as nat,
        ) + " "@ + body@,
        ModelError::BridgeFailure { detail, .. } => spec_error_heading(e) + detail@,
        ModelError::InferenceFailed { detail, .. } => spec_error_heading(e) + detail@,
        ModelError::ModelFileNotFound { searched, .. } => spec_error_heading(e) + searched@,
        ModelError::DownloadFailed { detail } => spec_error_heading(e) + detail@,
        ModelError::InvalidConfig { detail } => spec_error_heading(e) + detail@,
        ModelError::FileSystem { detail } => spec_error_heading(e) + detail@,
        _ => spec_error_heading(e),
    }
}

impl ModelError {
    /// Renders the error for display.
    pub fn message(&self) -> (r: String)
        ensures
            r@ == spec_error_message(*self),
    {
        match self {
            ModelError::NotLoaded => String::from_str("Model not loaded"),
            ModelError::PlaceholderModel { path } => String::from_str(
                "Placeholder model file detected: ",
            ).concat(path.as_str()),
            ModelError::BackendUnavailable { backend } => match backend {
                ProviderKind::OllamaServer => String::from_str(
                    "Ollama server is not running. Please start Ollama first.",
                ),
                ProviderKind::PythonOllama => String::from_str(
                    "Python ollama client is not available.",
                ),
                ProviderKind::LmStudio => String::from_str(
                    "LM Studio server is not running. Start LM Studio, load a model, and enable the local server (port 1234).",
                ),
                ProviderKind::HuggingFaceBridge => String::from_str(
                    "Hugging Face transformers library is not available. Install with: pip install transformers",
                ),
            },
            ModelError::ApiError { backend, status, body } => {
                let head = match backend {
                    ProviderKind::OllamaServer => String::from_str("Ollama API error: "),
                    ProviderKind::PythonOllama => String::from_str("Python ollama error: "),
                    ProviderKind::LmStudio => String::from_str("LM Studio API error: "),
                    ProviderKind::HuggingFaceBridge => String::from_str(
                        "Hugging Face inference error: ",
                    ),
                };
                let stat = crate::strings::u64_to_dec_string(*status as u64);
                head.concat(stat.as_str()).concat(" ").concat(body.as_str())
            },
            ModelError::MalformedResponse { .. } => String::from_str("No response from backend"),
            ModelError::BridgeFailure { backend, detail } => {
                let head = match backend {
                    ProviderKind::OllamaServer => String::from_str("Ollama error: "),
                    ProviderKind::PythonOllama => String::from_str("Python ollama error: "),
                    ProviderKind::LmStudio => String::from_str("LM Studio error: "),
                    ProviderKind::HuggingFaceBridge => String::from_str(
                        "Hugging Face inference error: ",
                    ),
                };
                head.concat(detail.as_str())
            },
            ModelError::InferenceFailed { backend, detail } => {
                let head = match backend {
                    ProviderKind::OllamaServer => String::from_str(
                        "Ollama inference failed. Error: ",
                    ),
                    ProviderKind::PythonOllama => String::from_str(
                        "Python ollama inference failed. Error: ",
                    ),
                    ProviderKind::LmStudio => String::from_str(
                        "LM Studio inference failed. Make sure LM Studio is running with a model loaded and its local server enabled. Error: ",
                    ),
                    ProviderKind::HuggingFaceBridge => String::from_str(
                        "Hugging Face inference failed. Error: ",
                    ),
                };
                head.concat(detail.as_str())
            },
            ModelError::ModelFileNotFound { searched, .. } => String::from_str(
                "Model file not found: ",
            ).concat(searched.as_str()),
            ModelError::DownloadFailed { detail } => String::from_str(
                "Download failed: ",
            ).concat(detail.as_str()),
            ModelError::InvalidConfig { detail } => String::from_str(
                "Invalid model configuration: ",
            ).concat(detail.as_str()),
            ModelError::FileSystem { detail } => String::from_str("Filesystem error: ").concat(
                detail.as_str(),
            ),
        }
    }
}

} // verus!
