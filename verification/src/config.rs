//! The system's general configuration: plain data with its default values.

use vstd::prelude::*;
use vstd::string::*;

verus! {

/// The whole configuration.
#[derive(Clone, Debug)]
pub struct Config {
    pub api: ApiConfig,
    pub memory: MemoryConfig,
    pub system: SystemConfig,
    pub features: FeaturesConfig,
}

/// Where the HTTP API listens.
#[derive(Clone, Debug)]
pub struct ApiConfig {
    pub port: u16,
    pub host: String,
}

/// Where memory is persisted and how much history is kept.
#[derive(Clone, Debug)]
pub struct MemoryConfig {
    pub path: String,
    pub max_history: usize,
}

/// Safety and concurrency settings.
#[derive(Clone, Copy, PartialEq, Eq, Structural, Debug)]
pub struct SystemConfig {
    pub safety_mode: bool,
    pub enable_kernel_ops: bool,
    pub max_concurrent_tasks: usize,
}

/// Which capabilities are switched on.
#[derive(Clone, Copy, PartialEq, Eq, Structural, Debug)]
pub struct FeaturesConfig {
    pub vision: bool,
    pub ocr: bool,
    pub object_detection: bool,
    pub event_monitoring: bool,
    pub memory_persistence: bool,
}

impl Default for Config {
    /// The defaults: API on every interface at port 8765, ten thousand
    /// entries of history, safety on, kernel operations off, every feature
    /// enabled.
    fn default() -> (r: Self)
        ensures
            r.api.port == 8765,
            r.api.host@ == "0.0.0.0"@,
            r.memory.path@ == "aios_memory"@,
            r.memory.max_history == 10000,
            r.system == (SystemConfig {
                safety_mode: true,
                enable_kernel_ops: false,
                max_concurrent_tasks: 10,
            }),
            r.features == (FeaturesConfig {
                vision: true,
                ocr: true,
                object_detection: true,
                event_monitoring: true,
                memory_persistence: true,
            }),
    {
        Config {
            api: ApiConfig { port: 8765, host: String::from_str("0.0.0.0") },
            memory: MemoryConfig { path: String::from_str("aios_memory"), max_history: 10000 },
            system: SystemConfig {
                safety_mode: true,
                enable_kernel_ops: false,
                max_concurrent_tasks: 10,
            },
            features: FeaturesConfig {
                vision: true,
                ocr: true,
                object_detection: true,
                event_monitoring: true,
                memory_persistence: true,
            },
        }
    }
}

} // verus!
