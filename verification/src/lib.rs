//! Model-backend resolution and inference routing. The library enumerates
//! the models present on a host, keeps a persisted selection, resolves the
//! selected name to a concrete identifier, binds the identifier to one of
//! four provider backends in a fixed priority order, and routes load and
//! inference calls through that binding. Placeholder artifacts — dummy files
//! written in place of a real download — are recognized everywhere and never
//! treated as real models.

// Shared text machinery.
pub mod strings;
pub mod pathstr;
pub mod sizefmt;
pub mod jsontext;

// Trusted access to the outside world.
pub mod fsio;
pub mod httpio;
pub mod procio;
pub mod jsonio;

// The model subsystem.
pub mod errors;
pub mod placeholder;
pub mod detector;
pub mod sources;
pub mod ollama;
pub mod lm_studio;
pub mod bridge;
pub mod python_ollama;
pub mod huggingface;
pub mod loader;
pub mod configjson;
pub mod manager;
pub mod downloader;

// Adjacent fixed data.
pub mod paths;
pub mod config;
pub mod bootloader;
